//! The resolvers of `#[connection(...)]` attributes: one field per connection that lists the
//! related items, paged, filtered and sorted.

use vstd::prelude::*;
use crate::syntax::{DeriveInput, MetaList};
use crate::helper::{
    is_named_list, lemma_meta_lists_all, list_of, named_list_filter,get_meta_lists, get_value, list_value, lists_well_formed, meta_lists};
use crate::text::{concat, pascal_case, printed_tokens, to_pascal_case, token_text};
use crate::validate::{ExpandError, Failure};
use crate::relation::relation::some_value_unlexable;

verus! {

/// `async fn {fn_name}(&self, ctx, paging, filter: {filter_name}, sorting: Vec<{sort_name}>)
/// -> Result<Connection<Cursor, {target_dto}>>` over the `{target_model}` rows whose `{to}`
/// column equals `self.{from}`. The filter and sort names append to the printed tokens of the
/// `target_dto` value, and `to` is the printed tokens of the `to` value in PascalCase; the
/// other fields hold the values as written, which are lexed where the plan is written out.
pub struct ConnectionPlan {
    pub fn_name: String,
    pub target_dto: String,
    pub filter_name: String,
    pub sort_name: String,
    pub target_model: String,
    pub from: String,
    pub to: String,
}

/// The keys a `connection(...)` list must give.
pub open spec fn connection_list_ok(m: MetaList) -> bool {
    &&& list_value(m, "name"@) is Some
    &&& list_value(m, "target_dto"@) is Some
    &&& list_value(m, "target_model"@) is Some
    &&& list_value(m, "from"@) is Some
    &&& list_value(m, "to"@) is Some
}

/// Every `connection` attribute reads as a list that gives all keys.
pub open spec fn connections_ok(input: DeriveInput) -> bool {
    &&& lists_well_formed(input.attrs@, "connection"@)
    &&& forall|i: int| 0 <= i < meta_lists(input.attrs@, "connection"@).len() ==> connection_list_ok(
        #[trigger] meta_lists(input.attrs@, "connection"@)[i],
    )
}

/// The connection plan of one `connection(...)` list.
pub open spec fn connection_matches(r: ConnectionPlan, m: MetaList) -> bool {
    &&& r.fn_name@ == list_value(m, "name"@)->0
    &&& r.target_dto@ == list_value(m, "target_dto"@)->0
    &&& (exists|t: Seq<char>|
        printed_tokens(list_value(m, "target_dto"@)->0, Some(t)) && r.filter_name@ == t + "Filter"@
            && r.sort_name@ == t + "Sort"@)
    &&& r.target_model@ == list_value(m, "target_model"@)->0
    &&& r.from@ == list_value(m, "from"@)->0
    &&& (exists|t: Seq<char>|
        printed_tokens(list_value(m, "to"@)->0, Some(t)) && r.to@ == pascal_case(t))
}

fn value_of(m: &MetaList, key: &str) -> (r: String)
    requires
        list_value(*m, key@) is Some,
    ensures
        r@ == list_value(*m, key@)->0,
{
    match get_value(m, key) {
        Ok(v) => v,
        Err(_) => vstd::pervasive::unreached(),
    }
}

/// One resolver per `connection(...)` list of the item, in order. The `target_dto` and `to`
/// values of each are lexed and printed, as tokens; where the lexer refuses one of them, the
/// error names its key.
pub fn get_connections(input: &DeriveInput) -> (r: Result<Vec<ConnectionPlan>, ExpandError>)
    requires
        connections_ok(*input),
    ensures
        r matches Ok(v) ==> {
            &&& v@.len() == meta_lists(input.attrs@, "connection"@).len()
            &&& forall|i: int|
                0 <= i < v@.len() ==> connection_matches(
                    #[trigger] v@[i],
                    meta_lists(input.attrs@, "connection"@)[i],
                )
        },
        r matches Err(e) ==> {
            ||| e@ == Failure::Unlexable("target_dto"@) && some_value_unlexable(
                meta_lists(input.attrs@, "connection"@),
                "target_dto"@,
            )
            ||| e@ == Failure::Unlexable("to"@) && some_value_unlexable(
                meta_lists(input.attrs@, "connection"@),
                "to"@,
            )
        },
{
    let lists = get_meta_lists(&input.attrs, "connection");
    let ghost ml = meta_lists(input.attrs@, "connection"@);
    let n = lists.len();
    let mut out: Vec<ConnectionPlan> = Vec::new();
    let mut i: usize = 0;
    while i < n
        invariant
            n == lists@.len(),
            n == ml.len(),
            ml == meta_lists(input.attrs@, "connection"@),
            forall|k: int| 0 <= k < n ==> *#[trigger] lists@[k] == ml[k],
            forall|k: int| 0 <= k < ml.len() ==> connection_list_ok(#[trigger] ml[k]),
            i <= n,
            out@.len() == i,
            forall|k: int| 0 <= k < i ==> connection_matches(#[trigger] out@[k], ml[k]),
        decreases n - i,
    {
        let m = lists[i];
        assert(connection_list_ok(ml[i as int]));
        let fn_name = value_of(m, "name");
        let target_dto = value_of(m, "target_dto");
        let dto_text = match token_text(target_dto.as_str()) {
            Some(t) => t,
            None => {
                assert(printed_tokens(list_value(ml[i as int], "target_dto"@)->0, None));
                return Err(ExpandError::Unlexable("target_dto".to_owned()));
            },
        };
        let filter_name = concat(dto_text.as_str(), "Filter");
        let sort_name = concat(dto_text.as_str(), "Sort");
        let target_model = value_of(m, "target_model");
        let from = value_of(m, "from");
        let to_raw = value_of(m, "to");
        let to_text = match token_text(to_raw.as_str()) {
            Some(t) => t,
            None => {
                assert(printed_tokens(list_value(ml[i as int], "to"@)->0, None));
                return Err(ExpandError::Unlexable("to".to_owned()));
            },
        };
        let to = to_pascal_case(to_text.as_str());
        let plan = ConnectionPlan { fn_name, target_dto, filter_name, sort_name, target_model, from, to };
        assert(printed_tokens(list_value(ml[i as int], "target_dto"@)->0, Some(dto_text@)));
        assert(printed_tokens(list_value(ml[i as int], "to"@)->0, Some(to_text@)));
        out.push(plan);
        i = i + 1;
    }
    Ok(out)
}

/// Every `connection(...)` attribute of the item gets a resolver: where the resolvers follow the
/// item's `connection` lists one for one, there are as many as the item has `connection(...)`
/// attributes, and each such attribute's list is the source of one of them.
pub proof fn lemma_every_connection_resolved(input: DeriveInput, v: Seq<ConnectionPlan>)
    requires
        v.len() == meta_lists(input.attrs@, "connection"@).len(),
        forall|i: int| 0 <= i < v.len() ==> connection_matches(#[trigger] v[i], meta_lists(input.attrs@, "connection"@)[i]),
    ensures
        v.len() == input.attrs@.filter(named_list_filter("connection"@)).len(),
        forall|k: int|
            0 <= k < input.attrs@.len() && is_named_list(#[trigger] input.attrs@[k], "connection"@) ==> exists|j: int|
                0 <= j < v.len() && connection_matches(#[trigger] v[j], list_of(input.attrs@[k])),
{
    let ml = meta_lists(input.attrs@, "connection"@);
    lemma_meta_lists_all(input.attrs@, "connection"@);
    assert forall|k: int|
        0 <= k < input.attrs@.len() && is_named_list(#[trigger] input.attrs@[k], "connection"@) implies exists|j: int|
            0 <= j < v.len() && connection_matches(#[trigger] v[j], list_of(input.attrs@[k])) by {
        assert(ml.contains(list_of(input.attrs@[k])));
        let j = choose|j: int| 0 <= j < ml.len() && ml[j] == list_of(input.attrs@[k]);
        assert(connection_matches(v[j], ml[j]));
    }
}

} // verus!
