//! The default hook of the `CRUD` derive.

use vstd::prelude::*;
use crate::syntax::DeriveInput;
use crate::helper::list_value;
use crate::crud::helper::{
    default_hook_name, first_crud_list, get_default_hook_name, get_model, has_customized_hook,
    has_first_model,
};

verus! {

/// `struct {name} {}` implementing `Hook` with `ActiveModel = {model}::ActiveModel`, and its
/// constructor `new()`.
pub struct DefaultHookPlan {
    pub name: String,
    pub model: String,
}

/// The default hook struct: emitted exactly where the item's `crud` list names a hook.
pub fn default_hook_expand(input: &DeriveInput) -> (r: Option<DefaultHookPlan>)
    requires
        has_first_model(*input),
    ensures
        r is Some <==> list_value(first_crud_list(*input), "hook"@) is Some,
        r matches Some(p) ==> p.name@ == default_hook_name(*input) && p.model@ == list_value(
            first_crud_list(*input),
            "model"@,
        )->0,
{
    let name = get_default_hook_name(input);
    let model = get_model(input);
    if has_customized_hook(input) {
        Some(DefaultHookPlan { name, model })
    } else {
        None
    }
}

} // verus!
