//! The default authorizer of the `CRUD` derive.

use vstd::prelude::*;
use crate::syntax::DeriveInput;
use crate::helper::list_value;
use crate::crud::helper::{
    default_authorizer_name, first_crud_list, get_default_authorizer_name, has_customized_authorizer,
    has_first_crud_list,
};

verus! {

/// The default authorizer plan of an item: emitted exactly where its `crud` list names no
/// authorizer.
pub open spec fn default_authorizer_plan_matches(r: Option<String>, input: DeriveInput) -> bool {
    &&& (r is Some <==> list_value(first_crud_list(input), "authorizer"@) is None)
    &&& (r matches Some(n) ==> n@ == default_authorizer_name(input))
}

/// The name of the struct `{name} {}` implementing `Authorizer` with a constructor `new()`:
/// emitted exactly where the item's `crud` list names no authorizer.
pub fn default_authorizer_expand(input: &DeriveInput) -> (r: Option<String>)
    requires
        has_first_crud_list(*input),
    ensures
        default_authorizer_plan_matches(r, *input),
{
    let name = get_default_authorizer_name(input);
    if has_customized_authorizer(input) {
        None
    } else {
        Some(name)
    }
}

/// Where the item names no authorizer, its authorizer expression calls the constructor of the
/// default authorizer that `default_authorizer_expand` plans. (The `CRUD` derive itself does
/// not call `default_authorizer_expand`, as in the original: the struct exists only where
/// something else writes that plan out.)
pub proof fn lemma_default_authorizer_planned_when_used(input: DeriveInput, r: Option<String>)
    requires
        has_first_crud_list(input),
        default_authorizer_plan_matches(r, input),
        list_value(first_crud_list(input), "authorizer"@) is None,
    ensures
        r matches Some(n) && crate::crud::resolver::query::authorizer_constructor_of(input) == n@
            + "::new()"@,
{
}

} // verus!
