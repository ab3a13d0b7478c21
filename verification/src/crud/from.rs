//! The conversion from the model to the item that the `CRUD` derive emits: every field is
//! taken from the model's field of the same name.

use vstd::prelude::*;
use crate::syntax::DeriveInput;
use crate::helper::{get_model, get_struct_fields, has_model, is_named_struct, model_of, struct_fields};

verus! {

/// `impl From<{model}::Model> for {name} { fn from(_self) -> Self { Self { field: _self.field, ... } } }`
pub struct FromPlan {
    pub name: String,
    pub model: String,
    pub fields: Vec<String>,
}

/// The inputs the conversion accepts: a `crud` list with a model, and a struct with named
/// fields.
pub open spec fn from_input_ok(input: DeriveInput) -> bool {
    &&& has_model(input)
    &&& is_named_struct(input)
}

/// The conversion plan of an item: every field, in order, from the model's field.
pub open spec fn from_plan_matches(r: FromPlan, input: DeriveInput) -> bool {
    &&& r.name@ == input.ident@
    &&& r.model@ == model_of(input)
    &&& r.fields@.len() == struct_fields(input).len()
    &&& forall|i: int|
        0 <= i < r.fields@.len() ==> (#[trigger] r.fields@[i])@ == struct_fields(input)[i].ident@
}

/// The conversion from the model for the item.
pub fn from_expand(input: &DeriveInput) -> (r: FromPlan)
    requires
        from_input_ok(*input),
    ensures
        from_plan_matches(r, *input),
{
    let model = get_model(input);
    let fields = get_struct_fields(input);
    let n = fields.len();
    let mut names: Vec<String> = Vec::new();
    let mut i: usize = 0;
    while i < n
        invariant
            n == fields@.len(),
            fields@ == struct_fields(*input),
            i <= n,
            names@.len() == i,
            forall|j: int| 0 <= j < i ==> (#[trigger] names@[j])@ == struct_fields(*input)[j].ident@,
        decreases n - i,
    {
        names.push(fields[i].ident.clone());
        i = i + 1;
    }
    FromPlan { name: input.ident.clone(), model, fields: names }
}

} // verus!
