//! The mutation resolver: `{Name}Mutation` with a create, an update and a delete field, each
//! present where the item asks for it.

use vstd::prelude::*;
use crate::syntax::{DeriveInput, Field, Type};
use crate::helper::{
    filter_name_of, has_flag, is_named_struct, is_option_path, names_option, list_value, option_inner_type,
    struct_fields,
};
use crate::crud::helper::{
    first_crud_list, first_list_well_formed, first_meta_list, get_filter_name, get_flag, get_metas,
    get_model, get_struct_fields, has_first_model,
};
use crate::text::{concat, lowercase, plural_of, pluralize, to_lowercase};

verus! {

/// How the update input wraps a field's type.
#[derive(PartialEq, Eq, Structural)]
pub enum UpdateType {
    /// `Option<T>`: the field is left unchanged where it is absent.
    Optional,
    /// `async_graphql::MaybeUndefined<T>` for a field typed `Option<T>`, so that it can also be
    /// set to null.
    MaybeUndefined,
}

/// A field of the create input: its position among the struct's fields and its name.
pub struct InputField {
    pub index: usize,
    pub name: String,
}

/// A field of the update input.
pub struct UpdateField {
    pub index: usize,
    pub name: String,
    pub wrapper: UpdateType,
}

/// `{input_name} { field: T, ... }` and the resolver `{fn_name}(input) -> {Name}`.
pub struct CreatePlan {
    pub fn_name: String,
    pub input_name: String,
    pub fields: Vec<InputField>,
}

/// `{input_name} { field: Option<T> or MaybeUndefined<T>, ... }` and the resolver
/// `{fn_name}(filter, update) -> u64`.
pub struct UpdatePlan {
    pub fn_name: String,
    pub input_name: String,
    pub fields: Vec<UpdateField>,
}

/// `struct {mutation_name}` with the resolvers that the item asks for.
pub struct MutationPlan {
    pub name: String,
    pub mutation_name: String,
    pub model: String,
    pub filter_name: String,
    pub create: Option<CreatePlan>,
    pub update: Option<UpdatePlan>,
    /// The name of the delete resolver `{name}(filter) -> u64`, where the item is deletable.
    pub delete: Option<String>,
}

/// The field's first `crud` list holds the bare identifier `flag`.
pub open spec fn field_has_flag(f: Field, flag: Seq<char>) -> bool {
    match first_meta_list(f.attrs@, "crud"@) {
        Some(m) => has_flag(m.nested@, flag),
        None => false,
    }
}

/// The positions of the fields that carry `flag`, in order.
pub open spec fn flagged_fields(fields: Seq<Field>, flag: Seq<char>) -> Seq<int>
    decreases fields.len(),
{
    if fields.len() == 0 {
        seq![]
    } else {
        let rest = flagged_fields(fields.drop_last(), flag);
        if field_has_flag(fields.last(), flag) {
            rest.push(fields.len() - 1)
        } else {
            rest
        }
    }
}

/// How the update input wraps a field of this type.
pub open spec fn update_type_of(ty: Type) -> UpdateType {
    match ty {
        Type::Path(tp) => if names_option(tp.path.segments@) {
            UpdateType::MaybeUndefined
        } else {
            UpdateType::Optional
        },
        Type::Other => UpdateType::Optional,
    }
}

/// The update input takes a field typed `Option<T>`, the type the filter searches inside, as
/// `MaybeUndefined<T>`, and every field whose type does not name `Option` as `Option` of its
/// type.
pub proof fn lemma_update_wrapper(ty: Type)
    ensures
        option_inner_type(ty) is Some ==> update_type_of(ty) == UpdateType::MaybeUndefined,
        update_type_of(ty) == UpdateType::MaybeUndefined <==> (ty matches Type::Path(tp) && names_option(
            tp.path.segments@,
        )),
{
}

/// The inputs the mutation expansion accepts: a first `crud` list with a model, a struct with
/// named fields, a first `crud` attribute on each field that reads as a list, and a path type
/// for each updatable field.
pub open spec fn mutation_input_ok(input: DeriveInput) -> bool {
    &&& has_first_model(input)
    &&& is_named_struct(input)
    &&& forall|i: int|
        0 <= i < struct_fields(input).len() ==> first_list_well_formed(
            (#[trigger] struct_fields(input)[i]).attrs@,
            "crud"@,
        )
    &&& forall|i: int|
        0 <= i < struct_fields(input).len() && field_has_flag(#[trigger] struct_fields(input)[i], "updatable"@)
            ==> struct_fields(input)[i].ty is Path
}

/// The create input's fields are the fields at `idx`, in order.
pub open spec fn input_fields_match(out: Seq<InputField>, fields: Seq<Field>, idx: Seq<int>) -> bool {
    &&& out.len() == idx.len()
    &&& forall|j: int|
        0 <= j < out.len() ==> {
            &&& (#[trigger] out[j]).index == idx[j]
            &&& out[j].name@ == fields[idx[j]].ident@
        }
}

/// The update input's fields are the fields at `idx`, in order, each wrapped by its type.
pub open spec fn update_fields_match(out: Seq<UpdateField>, fields: Seq<Field>, idx: Seq<int>) -> bool {
    &&& out.len() == idx.len()
    &&& forall|j: int|
        0 <= j < out.len() ==> {
            &&& (#[trigger] out[j]).index == idx[j]
            &&& out[j].name@ == fields[idx[j]].ident@
            &&& out[j].wrapper == update_type_of(fields[idx[j]].ty)
        }
}

/// The mutation plan of an item, given the plural form of its name.
pub open spec fn mutation_plan_matches(r: Option<MutationPlan>, input: DeriveInput, plural: Seq<char>) -> bool {
    let fields = struct_fields(input);
    let creatable = flagged_fields(fields, "creatable"@);
    let updatable = flagged_fields(fields, "updatable"@);
    let deletable = has_flag(first_crud_list(input).nested@, "deletable"@);
    if creatable.len() == 0 && updatable.len() == 0 && !deletable {
        r is None
    } else {
        &&& r is Some
        &&& r->0.name@ == input.ident@
        &&& r->0.mutation_name@ == input.ident@ + "Mutation"@
        &&& r->0.model@ == list_value(first_crud_list(input), "model"@)->0
        &&& r->0.filter_name@ == filter_name_of(input, first_crud_list(input))
        &&& (r->0.create is None <==> creatable.len() == 0)
        &&& (r->0.create matches Some(c) ==> {
            &&& c.fn_name@ == lowercase("create_"@ + input.ident@)
            &&& c.input_name@ == input.ident@ + "Input"@
            &&& input_fields_match(c.fields@, fields, creatable)
        })
        &&& (r->0.update is None <==> updatable.len() == 0)
        &&& (r->0.update matches Some(u) ==> {
            &&& u.fn_name@ == lowercase("update_"@ + plural)
            &&& u.input_name@ == input.ident@ + "Update"@
            &&& update_fields_match(u.fields@, fields, updatable)
        })
        &&& (r->0.delete is Some <==> deletable)
        &&& (r->0.delete matches Some(d) ==> d@ == lowercase("delete_"@ + plural))
    }
}

/// The positions and names of the fields that carry `flag`.
fn flagged_input_fields(fields: &Vec<Field>, flag: &str) -> (r: Vec<InputField>)
    requires
        forall|i: int| 0 <= i < fields@.len() ==> first_list_well_formed((#[trigger] fields@[i]).attrs@, "crud"@),
    ensures
        input_fields_match(r@, fields@, flagged_fields(fields@, flag@)),
{
    let n = fields.len();
    let mut out: Vec<InputField> = Vec::new();
    let mut i: usize = 0;
    while i < n
        invariant
            n == fields@.len(),
            i <= n,
            forall|k: int| 0 <= k < fields@.len() ==> first_list_well_formed((#[trigger] fields@[k]).attrs@, "crud"@),
            input_fields_match(out@, fields@, flagged_fields(fields@.take(i as int), flag@)),
            forall|j: int| 0 <= j < flagged_fields(fields@.take(i as int), flag@).len()
                ==> 0 <= #[trigger] flagged_fields(fields@.take(i as int), flag@)[j] < i,
        decreases n - i,
    {
        let f = &fields[i];
        assert(fields@.take(i + 1).drop_last() =~= fields@.take(i as int));
        assert(fields@.take(i + 1).last() == fields@[i as int]);
        assert(first_list_well_formed(fields@[i as int].attrs@, "crud"@));
        let flagged = match get_metas(&f.attrs) {
            Some(m) => get_flag(m, flag),
            None => false,
        };
        let ghost prev = flagged_fields(fields@.take(i as int), flag@);
        if flagged {
            out.push(InputField { index: i, name: f.ident.clone() });
            assert(flagged_fields(fields@.take(i + 1), flag@) == prev.push(i as int));
        } else {
            assert(flagged_fields(fields@.take(i + 1), flag@) == prev);
        }
        i = i + 1;
    }
    assert(fields@.take(n as int) =~= fields@);
    out
}

/// How the update input wraps a field of this type.
fn update_type(ty: &Type) -> (r: UpdateType)
    ensures
        r == update_type_of(*ty),
{
    match ty {
        Type::Path(tp) => {
            if is_option_path(&tp.path.segments) {
                UpdateType::MaybeUndefined
            } else {
                UpdateType::Optional
            }
        },
        Type::Other => UpdateType::Optional,
    }
}

/// The mutation resolver of an item whose name has the plural form `plural`; none where the
/// item is neither creatable, updatable nor deletable.
pub fn mutation_expand_with(input: &DeriveInput, plural: &str) -> (r: Option<MutationPlan>)
    requires
        mutation_input_ok(*input),
    ensures
        mutation_plan_matches(r, *input, plural@),
{
    let mutation_name = concat(input.ident.as_str(), "Mutation");
    let model = get_model(input);
    let fields = get_struct_fields(input);
    let filter_name = get_filter_name(input);
    let creatable = flagged_input_fields(fields, "creatable");
    let updatable_fields = flagged_input_fields(fields, "updatable");
    let ghost upd_idx = flagged_fields(fields@, "updatable"@);
    let mut update_fields: Vec<UpdateField> = Vec::new();
    let m = updatable_fields.len();
    let mut j: usize = 0;
    while j < m
        invariant
            m == updatable_fields@.len(),
            fields@ == struct_fields(*input),
            mutation_input_ok(*input),
            input_fields_match(updatable_fields@, fields@, upd_idx),
            upd_idx == flagged_fields(fields@, "updatable"@),
            j <= m,
            update_fields@.len() == j,
            forall|k: int|
                0 <= k < j ==> {
                    &&& (#[trigger] update_fields@[k]).index == upd_idx[k]
                    &&& update_fields@[k].name@ == fields@[upd_idx[k]].ident@
                    &&& update_fields@[k].wrapper == update_type_of(fields@[upd_idx[k]].ty)
                },
        decreases m - j,
    {
        let idx = updatable_fields[j].index;
        assert(updatable_fields@[j as int].index == upd_idx[j as int]);
        proof {
            lemma_flagged_fields_bounds(fields@, "updatable"@);
        }
        let wrapper = update_type(&fields[idx].ty);
        update_fields.push(UpdateField { index: idx, name: updatable_fields[j].name.clone(), wrapper });
        j = j + 1;
    }
    let metas = match get_metas(&input.attrs) {
        Some(m) => m,
        None => vstd::pervasive::unreached(),
    };
    let deletable = get_flag(metas, "deletable");
    let create = if creatable.len() > 0 {
        Some(CreatePlan {
            fn_name: to_lowercase(concat("create_", input.ident.as_str()).as_str()),
            input_name: concat(input.ident.as_str(), "Input"),
            fields: creatable,
        })
    } else {
        None
    };
    let update = if update_fields.len() > 0 {
        Some(UpdatePlan {
            fn_name: to_lowercase(concat("update_", plural).as_str()),
            input_name: concat(input.ident.as_str(), "Update"),
            fields: update_fields,
        })
    } else {
        None
    };
    let delete = if deletable {
        Some(to_lowercase(concat("delete_", plural).as_str()))
    } else {
        None
    };
    if create.is_some() || update.is_some() || deletable {
        Some(MutationPlan {
            name: input.ident.clone(),
            mutation_name,
            model,
            filter_name,
            create,
            update,
            delete,
        })
    } else {
        None
    }
}

/// The positions of flagged fields lie inside the field list.
pub proof fn lemma_flagged_fields_bounds(fields: Seq<Field>, flag: Seq<char>)
    ensures
        forall|j: int|
            0 <= j < flagged_fields(fields, flag).len() ==> 0 <= #[trigger] flagged_fields(fields, flag)[j]
                < fields.len(),
    decreases fields.len(),
{
    if fields.len() > 0 {
        let rest = flagged_fields(fields.drop_last(), flag);
        lemma_flagged_fields_bounds(fields.drop_last(), flag);
        assert forall|j: int| 0 <= j < flagged_fields(fields, flag).len() implies 0
            <= #[trigger] flagged_fields(fields, flag)[j] < fields.len() by {
            if j < rest.len() {
                assert(flagged_fields(fields, flag)[j] == rest[j]);
            }
        }
    }
}

/// The positions that carry `flag` are exactly the fields whose first `crud` list holds the
/// bare identifier `flag`: each such field once, in the order the fields are declared.
pub proof fn lemma_flagged_fields_exact(fields: Seq<Field>, flag: Seq<char>)
    ensures
        forall|k: int|
            0 <= k < fields.len() ==> (flagged_fields(fields, flag).contains(k) <==> (first_meta_list(
                (#[trigger] fields[k]).attrs@,
                "crud"@,
            ) matches Some(m) && has_flag(m.nested@, flag))),
        forall|j: int|
            0 <= j < flagged_fields(fields, flag).len() ==> 0 <= #[trigger] flagged_fields(fields, flag)[j]
                < fields.len(),
        forall|i: int, j: int|
            0 <= i < j < flagged_fields(fields, flag).len() ==> flagged_fields(fields, flag)[i]
                < flagged_fields(fields, flag)[j],
    decreases fields.len(),
{
    lemma_flagged_fields_bounds(fields, flag);
    if fields.len() > 0 {
        let init = fields.drop_last();
        let rest = flagged_fields(init, flag);
        let all = flagged_fields(fields, flag);
        let n = fields.len() - 1;
        lemma_flagged_fields_exact(init, flag);
        assert forall|k: int| 0 <= k < fields.len() implies (all.contains(k) <==> (first_meta_list(
            (#[trigger] fields[k]).attrs@,
            "crud"@,
        ) matches Some(m) && has_flag(m.nested@, flag))) by {
            if k < n {
                assert(init[k] == fields[k]);
                if rest.contains(k) {
                    let j = choose|j: int| 0 <= j < rest.len() && rest[j] == k;
                    assert(all[j] == k);
                }
                if all.contains(k) {
                    let j = choose|j: int| 0 <= j < all.len() && all[j] == k;
                    if j < rest.len() {
                        assert(rest[j] == k);
                    }
                }
            } else {
                assert(fields.last() == fields[k]);
                if field_has_flag(fields.last(), flag) {
                    assert(all[all.len() - 1] == k);
                } else if all.contains(k) {
                    let j = choose|j: int| 0 <= j < all.len() && all[j] == k;
                    assert(rest[j] < n);
                }
            }
        }
        assert forall|i: int, j: int| 0 <= i < j < all.len() implies all[i] < all[j] by {
            if j < rest.len() {
                assert(all[i] == rest[i] && all[j] == rest[j]);
            } else {
                assert(all[i] == rest[i]);
                assert(rest[i] < n);
            }
        }
    }
}

/// The create input holds exactly the creatable fields and the update input exactly the
/// updatable ones: field `k` is among an input's fields if and only if its first `crud` list
/// carries the flag, and each input lists its fields once, in the order they are declared.
pub proof fn lemma_mutation_inputs_exact(r: Option<MutationPlan>, input: DeriveInput, plural: Seq<char>, k: int)
    requires
        mutation_plan_matches(r, input, plural),
        0 <= k < struct_fields(input).len(),
    ensures
        (first_meta_list(struct_fields(input)[k].attrs@, "crud"@) matches Some(m) && has_flag(
            m.nested@,
            "creatable"@,
        )) <==> (r matches Some(p) && p.create matches Some(c) && exists|j: int|
            0 <= j < c.fields@.len() && (#[trigger] c.fields@[j]).index == k),
        (first_meta_list(struct_fields(input)[k].attrs@, "crud"@) matches Some(m) && has_flag(
            m.nested@,
            "updatable"@,
        )) <==> (r matches Some(p) && p.update matches Some(u) && exists|j: int|
            0 <= j < u.fields@.len() && (#[trigger] u.fields@[j]).index == k),
        r matches Some(p) ==> (p.create matches Some(c) ==> forall|i: int, j: int|
            0 <= i < j < c.fields@.len() ==> c.fields@[i].index < c.fields@[j].index),
        r matches Some(p) ==> (p.update matches Some(u) ==> forall|i: int, j: int|
            0 <= i < j < u.fields@.len() ==> u.fields@[i].index < u.fields@[j].index),
{
    let fields = struct_fields(input);
    let creatable = flagged_fields(fields, "creatable"@);
    let updatable = flagged_fields(fields, "updatable"@);
    lemma_flagged_fields_exact(fields, "creatable"@);
    lemma_flagged_fields_exact(fields, "updatable"@);
    assert(fields[k] == struct_fields(input)[k]);
    if creatable.contains(k) {
        let j = choose|j: int| 0 <= j < creatable.len() && creatable[j] == k;
        let c = r->0.create->0;
        assert(c.fields@[j].index == k);
    }
    if let Some(p) = r {
        if let Some(c) = p.create {
            if exists|j: int| 0 <= j < c.fields@.len() && (#[trigger] c.fields@[j]).index == k {
                let j = choose|j: int| 0 <= j < c.fields@.len() && (#[trigger] c.fields@[j]).index == k;
                assert(creatable[j] == k);
            }
            assert forall|i: int, j: int| 0 <= i < j < c.fields@.len() implies c.fields@[i].index
                < c.fields@[j].index by {
                assert(c.fields@[i].index == creatable[i] && c.fields@[j].index == creatable[j]);
            }
        }
    }
    if updatable.contains(k) {
        let j = choose|j: int| 0 <= j < updatable.len() && updatable[j] == k;
        let u = r->0.update->0;
        assert(u.fields@[j].index == k);
    }
    if let Some(p) = r {
        if let Some(u) = p.update {
            if exists|j: int| 0 <= j < u.fields@.len() && (#[trigger] u.fields@[j]).index == k {
                let j = choose|j: int| 0 <= j < u.fields@.len() && (#[trigger] u.fields@[j]).index == k;
                assert(updatable[j] == k);
            }
            assert forall|i: int, j: int| 0 <= i < j < u.fields@.len() implies u.fields@[i].index
                < u.fields@[j].index by {
                assert(u.fields@[i].index == updatable[i] && u.fields@[j].index == updatable[j]);
            }
        }
    }
}

/// The mutation resolver of an item; its update and delete fields are named after the
/// lowercased plural of the item's name.
pub fn mutation_expand(input: &DeriveInput) -> (r: Option<MutationPlan>)
    requires
        mutation_input_ok(*input),
    ensures
        exists|plural: Seq<char>|
            plural_of(input.ident@, 2, false, plural) && mutation_plan_matches(r, *input, plural),
{
    let plural = pluralize(input.ident.as_str(), 2, false);
    mutation_expand_with(input, plural.as_str())
}

} // verus!
