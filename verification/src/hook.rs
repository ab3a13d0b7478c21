//! The `Hook` derive: implements `crud::Hook` for the item with the model's active model.

use vstd::prelude::*;
use crate::syntax::DeriveInput;
use crate::helper::{get_model, has_model, model_of};

verus! {

/// `impl crud::Hook for {name} { type ActiveModel = {model}::ActiveModel; }`
pub struct HookPlan {
    pub name: String,
    pub model: String,
}

/// The hook implementation of the item.
pub fn hook_expand(input: &DeriveInput) -> (r: HookPlan)
    requires
        has_model(*input),
    ensures
        r.name@ == input.ident@,
        r.model@ == model_of(*input),
{
    let model = get_model(input);
    HookPlan { name: input.ident.clone(), model }
}

} // verus!
