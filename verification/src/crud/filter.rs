//! The filter input of the `CRUD` derive: one optional filter per field, each applied to the
//! field's column of the model.

use vstd::prelude::*;
use crate::syntax::{DeriveInput, Field, Type};
use crate::helper::{
    crud_meta_list, extract_type_from_option, filter_for_type, filter_name_of, get_filter_by_type,
    get_filter_name, get_model, get_struct_fields, has_model, is_named_struct, model_of,
    option_inner_type, struct_fields,
};
use crate::text::{concat3, pascal_case, to_pascal_case};

verus! {

/// One field of the filter input.
pub struct FilterField {
    /// The field's name.
    pub name: String,
    /// The model column the field's filter applies to: `{model}::Column::{FieldInPascalCase}`.
    pub column: String,
    /// The filter type of the field, such as `StringFilter`.
    pub filter: String,
}

/// The filter input `{filter_name} { field: Option<crud::{filter}>, ... }` and its `build`.
pub struct FilterPlan {
    pub filter_name: String,
    pub fields: Vec<FilterField>,
}

/// The type a field is searched by: `T` for a field typed `Option<T>`, else the field's type.
pub open spec fn search_type(f: Field) -> Type {
    match option_inner_type(f.ty) {
        Some(t) => t,
        None => f.ty,
    }
}

/// The filter type of a field, where its search type is a path with a filter.
pub open spec fn field_filter(f: Field) -> Option<Seq<char>> {
    match search_type(f) {
        Type::Path(tp) => filter_for_type(tp.tokens@),
        Type::Other => None,
    }
}

/// The model column of a field.
pub open spec fn column_of(model: Seq<char>, f: Field) -> Seq<char> {
    model + "::Column::"@ + pascal_case(f.ident@)
}

/// The inputs the filter expansion accepts: a `crud` list with a model, a struct with named
/// fields, and a filter for every field's search type.
pub open spec fn filter_input_ok(input: DeriveInput) -> bool {
    &&& has_model(input)
    &&& is_named_struct(input)
    &&& forall|i: int| 0 <= i < struct_fields(input).len() ==> (#[trigger] field_filter(struct_fields(input)[i])) is Some
}

/// The filter plan of an item: none where the struct has no fields, else one filter per field,
/// in order.
pub open spec fn filter_plan_matches(r: Option<FilterPlan>, input: DeriveInput) -> bool {
    &&& (r is None <==> struct_fields(input).len() == 0)
    &&& (r matches Some(p) ==> {
        &&& p.filter_name@ == filter_name_of(input, crud_meta_list(input.attrs@)->0)
        &&& p.fields@.len() == struct_fields(input).len()
        &&& forall|i: int| 0 <= i < p.fields@.len() ==> {
            let f = struct_fields(input)[i];
            &&& (#[trigger] p.fields@[i]).name@ == f.ident@
            &&& p.fields@[i].column@ == column_of(model_of(input), f)
            &&& p.fields@[i].filter@ == field_filter(f)->0
        }
    })
}

/// The filter input for the item: none where the struct has no fields.
pub fn filter_expand(input: &DeriveInput) -> (r: Option<FilterPlan>)
    requires
        filter_input_ok(*input),
    ensures
        filter_plan_matches(r, *input),
{
    let filter_name = get_filter_name(input);
    let model = get_model(input);
    let fields = get_struct_fields(input);
    let n = fields.len();
    let mut out: Vec<FilterField> = Vec::new();
    let mut i: usize = 0;
    while i < n
        invariant
            n == fields@.len(),
            fields@ == struct_fields(*input),
            filter_input_ok(*input),
            model@ == model_of(*input),
            i <= n,
            out@.len() == i,
            forall|j: int| 0 <= j < i ==> {
                let f = struct_fields(*input)[j];
                &&& (#[trigger] out@[j]).name@ == f.ident@
                &&& out@[j].column@ == column_of(model_of(*input), f)
                &&& out@[j].filter@ == field_filter(f)->0
            },
        decreases n - i,
    {
        let v = &fields[i];
        assert(field_filter(struct_fields(*input)[i as int]) is Some);
        let pascal = to_pascal_case(v.ident.as_str());
        let column = concat3(model.as_str(), "::Column::", pascal.as_str());
        let ty = match extract_type_from_option(&v.ty) {
            Some(t) => t,
            None => &v.ty,
        };
        let filter = match ty {
            Type::Path(tp) => get_filter_by_type(tp.tokens.as_str()),
            Type::Other => vstd::pervasive::unreached(),
        };
        out.push(FilterField { name: v.ident.clone(), column, filter });
        i = i + 1;
    }
    if out.len() > 0 {
        Some(FilterPlan { filter_name, fields: out })
    } else {
        None
    }
}

} // verus!
