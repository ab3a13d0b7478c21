//! The sort input of the `CRUD` derive: an enum of the fields, each mapped to its model column.

use vstd::prelude::*;
use crate::syntax::DeriveInput;
use crate::helper::{is_named_struct, list_value, struct_fields};
use crate::crud::helper::{
    first_crud_list, get_field_name, get_model, get_sort_name, get_struct_fields, has_first_model,
};
use crate::text::{pascal_case, to_pascal_case};

verus! {

/// The enum `{field_name} { Column, ... }`, the input `{sort_name} { field, direction }`, and
/// the mapping of each variant to `{model}::Column::{variant}`.
pub struct SortPlan {
    pub field_name: String,
    pub sort_name: String,
    pub model: String,
    /// One variant per field: the field's name in PascalCase.
    pub columns: Vec<String>,
}

/// The inputs the sort expansion accepts: a first `crud` list with a model, and a struct with
/// named fields.
pub open spec fn sort_input_ok(input: DeriveInput) -> bool {
    &&& has_first_model(input)
    &&& is_named_struct(input)
}

/// The sort plan of an item: one variant per field, in order.
pub open spec fn sort_plan_matches(r: SortPlan, input: DeriveInput) -> bool {
    &&& r.field_name@ == input.ident@ + "Field"@
    &&& r.sort_name@ == input.ident@ + "Sort"@
    &&& r.model@ == list_value(first_crud_list(input), "model"@)->0
    &&& r.columns@.len() == struct_fields(input).len()
    &&& forall|i: int|
        0 <= i < r.columns@.len() ==> (#[trigger] r.columns@[i])@ == pascal_case(
            struct_fields(input)[i].ident@,
        )
}

/// The sort input for the item.
pub fn sort_expand(input: &DeriveInput) -> (r: SortPlan)
    requires
        sort_input_ok(*input),
    ensures
        sort_plan_matches(r, *input),
{
    let field_name = get_field_name(input);
    let sort_name = get_sort_name(input);
    let model = get_model(input);
    let fields = get_struct_fields(input);
    let n = fields.len();
    let mut columns: Vec<String> = Vec::new();
    let mut i: usize = 0;
    while i < n
        invariant
            n == fields@.len(),
            fields@ == struct_fields(*input),
            i <= n,
            columns@.len() == i,
            forall|j: int|
                0 <= j < i ==> (#[trigger] columns@[j])@ == pascal_case(struct_fields(*input)[j].ident@),
        decreases n - i,
    {
        columns.push(to_pascal_case(fields[i].ident.as_str()));
        i = i + 1;
    }
    SortPlan { field_name, sort_name, model, columns }
}

} // verus!
