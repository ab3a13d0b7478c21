//! Text helpers: comparison and concatenation of strings, and the case and number
//! conversions that the derives take from other libraries.

use vstd::prelude::*;
use convert_case::{Case, Casing};

verus! {

/// Whether two strings hold the same characters.
pub fn str_eq(a: &str, b: &str) -> (r: bool)
    ensures
        r == (a@ == b@),
{
    let n = a.unicode_len();
    let m = b.unicode_len();
    if n != m {
        return false;
    }
    let mut i: usize = 0;
    while i < n
        invariant
            n == a@.len(),
            m == b@.len(),
            n == m,
            i <= n,
            forall|j: int| 0 <= j < i ==> a@[j] == b@[j],
        decreases n - i,
    {
        if a.get_char(i) != b.get_char(i) {
            return false;
        }
        i = i + 1;
    }
    assert(a@ =~= b@);
    true
}

/// The concatenation of two strings.
pub fn concat(a: &str, b: &str) -> (r: String)
    ensures
        r@ == a@ + b@,
{
    let mut s = a.to_owned();
    s.append(b);
    s
}

/// The concatenation of three strings.
pub fn concat3(a: &str, b: &str, c: &str) -> (r: String)
    ensures
        r@ == a@ + b@ + c@,
{
    let mut s = a.to_owned();
    s.append(b);
    s.append(c);
    s
}

/// The lowercase form of a string, as `str::to_lowercase` computes it.
pub uninterp spec fn lowercase(s: Seq<char>) -> Seq<char>;

/// The PascalCase form of a string, as `convert_case` computes it for `Case::Pascal`.
pub uninterp spec fn pascal_case(s: Seq<char>) -> Seq<char>;

/// Calls `str::to_lowercase` (std). Claimed: the result is the lowercase form of `s`, the same
/// for the same `s`; what that form is (Unicode's lowercase mapping) is left to the name.
#[verifier::external_body]
pub(crate) fn to_lowercase(s: &str) -> (r: String)
    ensures
        r@ == lowercase(s@),
{
    s.to_lowercase()
}

/// Calls `convert_case::Casing::to_case` with `Case::Pascal`. Claimed: the result depends on
/// `s` alone; how words are split and capitalised is left to the name.
#[verifier::external_body]
pub(crate) fn to_pascal_case(s: &str) -> (r: String)
    ensures
        r@ == pascal_case(s@),
{
    s.to_case(Case::Pascal)
}

/// `result` is a form that `pluralizer::pluralize` gives for `word`, `count` and
/// `include_count`. A relation, not a function: the pluralizer follows rule tables that any
/// caller in the process may extend at run time, so the same word need not give the same form
/// twice.
pub uninterp spec fn plural_of(word: Seq<char>, count: int, include_count: bool, result: Seq<char>) -> bool;

/// Calls `pluralizer::pluralize`. Claimed: the result is a form the pluralizer gives for these
/// arguments; which form (its rules, and whatever rules the process has added) is left to the
/// relation `plural_of`.
#[verifier::external_body]
pub(crate) fn pluralize(word: &str, count: isize, include_count: bool) -> (r: String)
    ensures
        plural_of(word@, count as int, include_count, r@),
{
    pluralizer::pluralize(word, count, include_count)
}

/// `result` is what lexing `s` as Rust tokens and printing them gives: `None` where the lexer
/// refuses `s`, else the tokens' printed text (such as `a :: b` for `a::b`). A relation, not a
/// function: inside a procedural macro the compiler's lexer and printer are used, elsewhere
/// `proc_macro2`'s own, so the same text need not give the same result in every process.
pub uninterp spec fn printed_tokens(s: Seq<char>, result: Option<Seq<char>>) -> bool;

/// The text of an optional string.
pub open spec fn opt_text(r: Option<String>) -> Option<Seq<char>> {
    match r {
        Some(t) => Some(t@),
        None => None,
    }
}

/// Calls `str::parse::<proc_macro2::TokenStream>` and prints the tokens with `to_string`.
/// Claimed: the result is a lexing outcome of `s` in the sense of `printed_tokens`; which
/// texts lex and how they print is left to that relation.
#[verifier::external_body]
pub(crate) fn token_text(s: &str) -> (r: Option<String>)
    ensures
        printed_tokens(s@, opt_text(r)),
{
    s.parse::<proc_macro2::TokenStream>().ok().map(|t| t.to_string())
}

} // verus!
