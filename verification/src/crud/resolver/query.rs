//! The query resolver: `{Name}Query` with one field that lists the items, pages, filters and
//! sorts them.

use vstd::prelude::*;
use crate::syntax::DeriveInput;
use crate::helper::{filter_name_of, list_value};
use crate::crud::helper::{
    default_authorizer_name, first_crud_list, get_authorizer_constructor, get_filter_name, get_model,
    get_sort_name, has_first_model,
};
use crate::text::{concat, lowercase, plural_of, pluralize, to_lowercase};

verus! {

/// `struct {query_name}` with the resolver `{list_fn_name}(paging, filter: {filter_name},
/// sorting: Vec<{sort_name}>) -> Connection<Cursor, {name}>` over `{model}::Entity`, whose
/// rows are limited by the authorizer that `{authorizer_constructor}` builds.
pub struct QueryPlan {
    pub name: String,
    pub query_name: String,
    pub list_fn_name: String,
    pub filter_name: String,
    pub sort_name: String,
    pub authorizer_constructor: String,
    pub model: String,
}

/// The authorizer expression of an item: its `authorizer` value, else the default
/// authorizer's constructor.
pub open spec fn authorizer_constructor_of(input: DeriveInput) -> Seq<char> {
    match list_value(first_crud_list(input), "authorizer"@) {
        Some(v) => v,
        None => default_authorizer_name(input) + "::new()"@,
    }
}

/// The query plan of an item, given the plural form of its name.
pub open spec fn query_plan_matches(r: QueryPlan, input: DeriveInput, plural: Seq<char>) -> bool {
    &&& r.name@ == input.ident@
    &&& r.query_name@ == input.ident@ + "Query"@
    &&& r.list_fn_name@ == lowercase(plural)
    &&& r.filter_name@ == filter_name_of(input, first_crud_list(input))
    &&& r.sort_name@ == input.ident@ + "Sort"@
    &&& r.authorizer_constructor@ == authorizer_constructor_of(input)
    &&& r.model@ == list_value(first_crud_list(input), "model"@)->0
}

/// The query resolver of an item, whose name has the plural form `plural`.
pub fn query_expand_with(input: &DeriveInput, plural: &str) -> (r: QueryPlan)
    requires
        has_first_model(*input),
    ensures
        query_plan_matches(r, *input, plural@),
{
    let query_name = concat(input.ident.as_str(), "Query");
    let list_fn_name = to_lowercase(plural);
    let filter_name = get_filter_name(input);
    let sort_name = get_sort_name(input);
    let authorizer_constructor = get_authorizer_constructor(input);
    let model = get_model(input);
    QueryPlan {
        name: input.ident.clone(),
        query_name,
        list_fn_name,
        filter_name,
        sort_name,
        authorizer_constructor,
        model,
    }
}

/// The query resolver of an item; its list field is the lowercased plural of the item's name.
pub fn query_expand(input: &DeriveInput) -> (r: QueryPlan)
    requires
        has_first_model(*input),
    ensures
        exists|plural: Seq<char>|
            plural_of(input.ident@, 2, false, plural) && query_plan_matches(r, *input, plural),
{
    let plural = pluralize(input.ident.as_str(), 2, false);
    query_expand_with(input, plural.as_str())
}

} // verus!
