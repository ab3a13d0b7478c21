//! The resolvers of `#[relation(...)]` attributes: one field per relation that loads the
//! related item.

use vstd::prelude::*;
use crate::syntax::{DeriveInput, MetaList};
use crate::helper::{
    is_named_list, lemma_meta_lists_all, list_of, named_list_filter,
    get_flag, get_meta_lists, get_str_literal, get_value, has_flag, list_value, lists_well_formed,
    meta_lists,
};
use crate::text::{pascal_case, printed_tokens, to_pascal_case, token_text};
use crate::validate::{ExpandError, Failure};

verus! {

/// `async fn {fn_name}(&self, ctx) -> Result<{target_dto}>` (or `Option<{target_dto}>` where
/// nullable) that loads the `{target_model}` row whose `{to}` column equals `self.{from}`,
/// failing with "`{fn_name_lit}` not found" where there is none and the relation is not
/// nullable. `fn_name_lit` quotes the printed tokens of the name, and `to` is the printed
/// tokens of the `to` value in PascalCase; the other fields hold the values as written, which
/// are lexed where the plan is written out.
pub struct RelationPlan {
    pub fn_name: String,
    pub fn_name_lit: String,
    pub from: String,
    pub to: String,
    pub target_dto: String,
    pub target_model: String,
    pub nullable: bool,
}

/// The keys a `relation(...)` list must give.
pub open spec fn relation_list_ok(m: MetaList) -> bool {
    &&& list_value(m, "name"@) is Some
    &&& list_value(m, "from"@) is Some
    &&& list_value(m, "to"@) is Some
    &&& list_value(m, "target_dto"@) is Some
    &&& list_value(m, "target_model"@) is Some
}

/// Every `relation` attribute reads as a list that gives all keys.
pub open spec fn relations_ok(input: DeriveInput) -> bool {
    &&& lists_well_formed(input.attrs@, "relation"@)
    &&& forall|i: int| 0 <= i < meta_lists(input.attrs@, "relation"@).len() ==> relation_list_ok(
        #[trigger] meta_lists(input.attrs@, "relation"@)[i],
    )
}

/// The relation plan of one `relation(...)` list.
pub open spec fn relation_matches(r: RelationPlan, m: MetaList) -> bool {
    &&& r.fn_name@ == list_value(m, "name"@)->0
    &&& (exists|t: Seq<char>|
        printed_tokens(list_value(m, "name"@)->0, Some(t)) && r.fn_name_lit@ == "\""@ + t + "\""@)
    &&& r.from@ == list_value(m, "from"@)->0
    &&& (exists|t: Seq<char>|
        printed_tokens(list_value(m, "to"@)->0, Some(t)) && r.to@ == pascal_case(t))
    &&& r.target_dto@ == list_value(m, "target_dto"@)->0
    &&& r.target_model@ == list_value(m, "target_model"@)->0
    &&& r.nullable == has_flag(m.nested@, "nullable"@)
}

fn value_of(m: &MetaList, key: &str) -> (r: String)
    requires
        list_value(*m, key@) is Some,
    ensures
        r@ == list_value(*m, key@)->0,
{
    match get_value(m, key) {
        Ok(v) => v,
        Err(_) => vstd::pervasive::unreached(),
    }
}

/// Some list gives, for `key`, a value whose lexing was refused.
pub open spec fn some_value_unlexable(ml: Seq<MetaList>, key: Seq<char>) -> bool {
    exists|i: int| 0 <= i < ml.len() && printed_tokens(list_value(#[trigger] ml[i], key)->0, None)
}

/// One resolver per `relation(...)` list of the item, in order. The name and the `to` value
/// of each are lexed and printed, as tokens; where the lexer refuses one of them, the error
/// names its key.
pub fn get_relations(input: &DeriveInput) -> (r: Result<Vec<RelationPlan>, ExpandError>)
    requires
        relations_ok(*input),
    ensures
        r matches Ok(v) ==> {
            &&& v@.len() == meta_lists(input.attrs@, "relation"@).len()
            &&& forall|i: int|
                0 <= i < v@.len() ==> relation_matches(
                    #[trigger] v@[i],
                    meta_lists(input.attrs@, "relation"@)[i],
                )
        },
        r matches Err(e) ==> {
            ||| e@ == Failure::Unlexable("name"@) && some_value_unlexable(
                meta_lists(input.attrs@, "relation"@),
                "name"@,
            )
            ||| e@ == Failure::Unlexable("to"@) && some_value_unlexable(
                meta_lists(input.attrs@, "relation"@),
                "to"@,
            )
        },
{
    let lists = get_meta_lists(&input.attrs, "relation");
    let ghost ml = meta_lists(input.attrs@, "relation"@);
    let n = lists.len();
    let mut out: Vec<RelationPlan> = Vec::new();
    let mut i: usize = 0;
    while i < n
        invariant
            n == lists@.len(),
            n == ml.len(),
            ml == meta_lists(input.attrs@, "relation"@),
            forall|k: int| 0 <= k < n ==> *#[trigger] lists@[k] == ml[k],
            forall|k: int| 0 <= k < ml.len() ==> relation_list_ok(#[trigger] ml[k]),
            i <= n,
            out@.len() == i,
            forall|k: int| 0 <= k < i ==> relation_matches(#[trigger] out@[k], ml[k]),
        decreases n - i,
    {
        let m = lists[i];
        assert(relation_list_ok(ml[i as int]));
        let fn_name = value_of(m, "name");
        let name_text = match token_text(fn_name.as_str()) {
            Some(t) => t,
            None => {
                assert(printed_tokens(list_value(ml[i as int], "name"@)->0, None));
                return Err(ExpandError::Unlexable("name".to_owned()));
            },
        };
        let fn_name_lit = get_str_literal(name_text.as_str());
        let from = value_of(m, "from");
        let to_raw = value_of(m, "to");
        let to_text = match token_text(to_raw.as_str()) {
            Some(t) => t,
            None => {
                assert(printed_tokens(list_value(ml[i as int], "to"@)->0, None));
                return Err(ExpandError::Unlexable("to".to_owned()));
            },
        };
        let to = to_pascal_case(to_text.as_str());
        let target_dto = value_of(m, "target_dto");
        let target_model = value_of(m, "target_model");
        let nullable = get_flag(m, "nullable");
        let plan = RelationPlan { fn_name, fn_name_lit, from, to, target_dto, target_model, nullable };
        assert(printed_tokens(list_value(ml[i as int], "name"@)->0, Some(name_text@)));
        assert(printed_tokens(list_value(ml[i as int], "to"@)->0, Some(to_text@)));
        out.push(plan);
        i = i + 1;
    }
    Ok(out)
}

/// Every `relation(...)` attribute of the item gets a resolver: where the resolvers follow the
/// item's `relation` lists one for one, there are as many as the item has `relation(...)`
/// attributes, and each such attribute's list is the source of one of them.
pub proof fn lemma_every_relation_resolved(input: DeriveInput, v: Seq<RelationPlan>)
    requires
        v.len() == meta_lists(input.attrs@, "relation"@).len(),
        forall|i: int| 0 <= i < v.len() ==> relation_matches(#[trigger] v[i], meta_lists(input.attrs@, "relation"@)[i]),
    ensures
        v.len() == input.attrs@.filter(named_list_filter("relation"@)).len(),
        forall|k: int|
            0 <= k < input.attrs@.len() && is_named_list(#[trigger] input.attrs@[k], "relation"@) ==> exists|j: int|
                0 <= j < v.len() && relation_matches(#[trigger] v[j], list_of(input.attrs@[k])),
{
    let ml = meta_lists(input.attrs@, "relation"@);
    lemma_meta_lists_all(input.attrs@, "relation"@);
    assert forall|k: int|
        0 <= k < input.attrs@.len() && is_named_list(#[trigger] input.attrs@[k], "relation"@) implies exists|j: int|
            0 <= j < v.len() && relation_matches(#[trigger] v[j], list_of(input.attrs@[k])) by {
        assert(ml.contains(list_of(input.attrs@[k])));
        let j = choose|j: int| 0 <= j < ml.len() && ml[j] == list_of(input.attrs@[k]);
        assert(relation_matches(v[j], ml[j]));
    }
}

} // verus!
