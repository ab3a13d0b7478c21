//! Reading the derive input for the `CRUD` derive: its first `crud(...)` list, the names it
//! introduces, and the hook and authorizer it is given.

use vstd::prelude::*;
use crate::syntax::{path_is_ident, Attribute, DeriveInput, Field, Meta, MetaList};
use crate::helper::{
    has_flag, is_named_struct, list_value, lists_well_formed, meta_lists, missing_value_message,
    struct_fields,
};
use crate::text::{concat, str_eq};

verus! {

// ----- the first list of a name -----

/// The position of the first attribute named `name` at or after position `i`.
pub open spec fn named_from(attrs: Seq<Attribute>, name: Seq<char>, i: int) -> Option<int>
    decreases attrs.len() - i,
{
    if i < 0 || i >= attrs.len() {
        None
    } else if path_is_ident(attrs[i].path, name) {
        Some(i)
    } else {
        named_from(attrs, name, i + 1)
    }
}

/// The first attribute named `name`, if there is one, reads as a list.
pub open spec fn first_list_well_formed(attrs: Seq<Attribute>, name: Seq<char>) -> bool {
    match named_from(attrs, name, 0) {
        Some(k) => attrs[k].meta matches Some(Meta::List(_)),
        None => true,
    }
}

/// The list of the first attribute named `name`.
pub open spec fn first_meta_list(attrs: Seq<Attribute>, name: Seq<char>) -> Option<MetaList> {
    match named_from(attrs, name, 0) {
        Some(k) => match attrs[k].meta {
            Some(Meta::List(l)) => Some(l),
            _ => None,
        },
        None => None,
    }
}

/// A position found by `named_from` holds an attribute named `name`, at or after `i`.
pub proof fn lemma_named_from_found(attrs: Seq<Attribute>, name: Seq<char>, i: int)
    ensures
        named_from(attrs, name, i) matches Some(k) ==> 0 <= i <= k < attrs.len() && path_is_ident(
            attrs[k].path,
            name,
        ),
    decreases attrs.len() - i,
{
    if 0 <= i < attrs.len() && !path_is_ident(attrs[i].path, name) {
        lemma_named_from_found(attrs, name, i + 1);
    }
}

/// `named_from` finds the first attribute named `name` at or after `i`, and none where no
/// attribute from `i` on is named `name`.
proof fn lemma_named_from_first(attrs: Seq<Attribute>, name: Seq<char>, i: int)
    requires
        0 <= i <= attrs.len(),
    ensures
        named_from(attrs, name, i) matches Some(k) ==> forall|j: int|
            i <= j < k ==> !path_is_ident(#[trigger] attrs[j].path, name),
        named_from(attrs, name, i) is None ==> forall|j: int|
            i <= j < attrs.len() ==> !path_is_ident(#[trigger] attrs[j].path, name),
    decreases attrs.len() - i,
{
    if i < attrs.len() && !path_is_ident(attrs[i].path, name) {
        lemma_named_from_first(attrs, name, i + 1);
    }
}

/// The list of the first attribute named `name`: where there is one, it is held by an attribute
/// named `name` before which no attribute is named `name`; where there is none, no attribute is
/// named `name` or the first one holds no list.
pub proof fn lemma_first_meta_list_first(attrs: Seq<Attribute>, name: Seq<char>)
    ensures
        first_meta_list(attrs, name) matches Some(l) ==> exists|k: int|
            {
                &&& 0 <= k < attrs.len()
                &&& path_is_ident(#[trigger] attrs[k].path, name)
                &&& attrs[k].meta == Some(Meta::List(l))
                &&& forall|j: int| 0 <= j < k ==> !path_is_ident(#[trigger] attrs[j].path, name)
            },
        first_meta_list(attrs, name) is None ==> (forall|k: int|
            0 <= k < attrs.len() ==> !path_is_ident(#[trigger] attrs[k].path, name)) || exists|k: int|
            {
                &&& 0 <= k < attrs.len()
                &&& path_is_ident(#[trigger] attrs[k].path, name)
                &&& !(attrs[k].meta matches Some(Meta::List(_)))
                &&& forall|j: int| 0 <= j < k ==> !path_is_ident(#[trigger] attrs[j].path, name)
            },
{
    lemma_named_from_found(attrs, name, 0);
    lemma_named_from_first(attrs, name, 0);
    if let Some(k) = named_from(attrs, name, 0) {
        assert(path_is_ident(attrs[k].path, name));
    }
}

/// Appending an attribute keeps every earlier find, and finds the new one where nothing
/// earlier is named `name`.
proof fn lemma_named_from_extend(attrs: Seq<Attribute>, name: Seq<char>, i: int)
    requires
        attrs.len() > 0,
        0 <= i <= attrs.len() - 1,
    ensures
        named_from(attrs.drop_last(), name, i) is Some ==> named_from(attrs, name, i) == named_from(
            attrs.drop_last(),
            name,
            i,
        ),
        named_from(attrs.drop_last(), name, i) is None ==> named_from(attrs, name, i) == (if path_is_ident(
            attrs.last().path,
            name,
        ) {
            Some(attrs.len() - 1)
        } else {
            None::<int>
        }),
    decreases attrs.len() - i,
{
    let b = attrs.drop_last();
    if i < attrs.len() - 1 {
        assert(b[i] == attrs[i]);
        lemma_named_from_extend(attrs, name, i + 1);
    } else {
        assert(named_from(b, name, i) is None);
        assert(attrs[i] == attrs.last());
        assert(named_from(attrs, name, i + 1) is None);
    }
}

/// Where every attribute named `name` reads as a list, the first such attribute gives the
/// first of all their lists: reading the first list alone and reading all lists agree.
pub proof fn lemma_first_list_agrees(attrs: Seq<Attribute>, name: Seq<char>)
    requires
        lists_well_formed(attrs, name),
    ensures
        first_list_well_formed(attrs, name),
        first_meta_list(attrs, name) == (if meta_lists(attrs, name).len() > 0 {
            Some(meta_lists(attrs, name)[0])
        } else {
            None::<MetaList>
        }),
    decreases attrs.len(),
{
    lemma_named_from_found(attrs, name, 0);
    if attrs.len() > 0 {
        let b = attrs.drop_last();
        assert(lists_well_formed(b, name)) by {
            assert forall|i: int| 0 <= i < b.len() && path_is_ident(#[trigger] b[i].path, name) implies b[i].meta matches Some(Meta::List(_)) by {
                assert(b[i] == attrs[i]);
            }
        }
        lemma_first_list_agrees(b, name);
        lemma_named_from_extend(attrs, name, 0);
        lemma_named_from_found(b, name, 0);
        match named_from(b, name, 0) {
            Some(k) => {
                assert(b[k] == attrs[k]);
            },
            None => {
                let last = attrs.last();
                if path_is_ident(last.path, name) {
                    assert(attrs[attrs.len() - 1] == last);
                }
            },
        }
    }
}

/// The list of the first attribute named `name`.
fn get_meta_list<'a>(attrs: &'a Vec<Attribute>, name: &str) -> (r: Option<&'a MetaList>)
    requires
        first_list_well_formed(attrs@, name@),
    ensures
        match r {
            Some(m) => first_meta_list(attrs@, name@) == Some(*m),
            None => first_meta_list(attrs@, name@) is None,
        },
{
    let n = attrs.len();
    let mut i: usize = 0;
    while i < n
        invariant
            n == attrs@.len(),
            i <= n,
            named_from(attrs@, name@, 0) == named_from(attrs@, name@, i as int),
            first_list_well_formed(attrs@, name@),
        decreases n - i,
    {
        if attrs[i].path.is_ident(name) {
            assert(named_from(attrs@, name@, i as int) == Some(i as int));
            return match &attrs[i].meta {
                Some(Meta::List(l)) => Some(l),
                _ => vstd::pervasive::unreached(),
            };
        }
        i = i + 1;
    }
    None
}

/// The item's first `crud` attribute reads as a list.
pub open spec fn has_first_crud_list(input: DeriveInput) -> bool {
    &&& first_list_well_formed(input.attrs@, "crud"@)
    &&& first_meta_list(input.attrs@, "crud"@) is Some
}

/// The item's first `crud` list.
pub open spec fn first_crud_list(input: DeriveInput) -> MetaList {
    first_meta_list(input.attrs@, "crud"@)->0
}

/// The list of the first `crud` attribute.
pub fn get_metas(attrs: &Vec<Attribute>) -> (r: Option<&MetaList>)
    requires
        first_list_well_formed(attrs@, "crud"@),
    ensures
        match r {
            Some(m) => first_meta_list(attrs@, "crud"@) == Some(*m),
            None => first_meta_list(attrs@, "crud"@) is None,
        },
{
    get_meta_list(attrs, "crud")
}

// ----- items of a list -----

/// Whether the list holds the bare identifier `path`.
pub fn get_flag(meta: &MetaList, path: &str) -> (r: bool)
    ensures
        r == has_flag(meta.nested@, path@),
{
    crate::helper::get_flag(meta, path)
}

/// The string value of the first item `path = "..."` of the list, or the message that names
/// the missing key.
pub fn get_value(meta: &MetaList, path: &str) -> (r: Result<String, String>)
    ensures
        match list_value(*meta, path@) {
            Some(v) => r matches Ok(s) && s@ == v,
            None => r matches Err(e) && e@ == missing_value_message(path@),
        },
{
    crate::helper::get_value(meta, path)
}

/// The named fields of the struct that the derive is applied to.
pub fn get_struct_fields(input: &DeriveInput) -> (r: &Vec<Field>)
    requires
        is_named_struct(*input),
    ensures
        r@ == struct_fields(*input),
{
    crate::helper::get_struct_fields(input)
}

// ----- hook and authorizer -----

/// The name of the hook generated for an item without a hook of its own.
pub open spec fn default_hook_name(input: DeriveInput) -> Seq<char> {
    "_DefaultHook"@ + input.ident@
}

/// The name of the authorizer generated for an item without an authorizer of its own.
pub open spec fn default_authorizer_name(input: DeriveInput) -> Seq<char> {
    "_DefaultAuthorizer"@ + input.ident@
}

/// `_DefaultHook{Name}`.
pub fn get_default_hook_name(input: &DeriveInput) -> (r: String)
    ensures
        r@ == default_hook_name(*input),
{
    concat("_DefaultHook", input.ident.as_str())
}

/// `_DefaultHook{Name}::new()`.
pub fn get_default_hook_constructor(input: &DeriveInput) -> (r: String)
    ensures
        r@ == default_hook_name(*input) + "::new()"@,
{
    let name = get_default_hook_name(input);
    concat(name.as_str(), "::new()")
}

/// Whether the `crud` list names a hook (`hook = "..."`).
pub fn has_customized_hook(input: &DeriveInput) -> (r: bool)
    requires
        has_first_crud_list(*input),
    ensures
        r == (list_value(first_crud_list(*input), "hook"@) is Some),
{
    let metas = match get_metas(&input.attrs) {
        Some(m) => m,
        None => vstd::pervasive::unreached(),
    };
    get_value(metas, "hook").is_ok()
}

/// The expression that constructs the item's hook: the `hook` value, else the default hook's
/// constructor.
pub fn get_hook_constructor(input: &DeriveInput) -> (r: String)
    requires
        has_first_crud_list(*input),
    ensures
        r@ == match list_value(first_crud_list(*input), "hook"@) {
            Some(v) => v,
            None => default_hook_name(*input) + "::new()"@,
        },
{
    let metas = match get_metas(&input.attrs) {
        Some(m) => m,
        None => vstd::pervasive::unreached(),
    };
    match get_value(metas, "hook") {
        Ok(v) => v,
        Err(_) => get_default_hook_constructor(input),
    }
}

/// `_DefaultAuthorizer{Name}`.
pub fn get_default_authorizer_name(input: &DeriveInput) -> (r: String)
    ensures
        r@ == default_authorizer_name(*input),
{
    concat("_DefaultAuthorizer", input.ident.as_str())
}

/// `_DefaultAuthorizer{Name}::new()`.
pub fn get_default_authorizer_constructor(input: &DeriveInput) -> (r: String)
    ensures
        r@ == default_authorizer_name(*input) + "::new()"@,
{
    let name = get_default_authorizer_name(input);
    concat(name.as_str(), "::new()")
}

/// Whether the `crud` list names an authorizer (`authorizer = "..."`).
pub fn has_customized_authorizer(input: &DeriveInput) -> (r: bool)
    requires
        has_first_crud_list(*input),
    ensures
        r == (list_value(first_crud_list(*input), "authorizer"@) is Some),
{
    let metas = match get_metas(&input.attrs) {
        Some(m) => m,
        None => vstd::pervasive::unreached(),
    };
    get_value(metas, "authorizer").is_ok()
}

/// The expression that constructs the item's authorizer: the `authorizer` value, else the
/// default authorizer's constructor.
pub fn get_authorizer_constructor(input: &DeriveInput) -> (r: String)
    requires
        has_first_crud_list(*input),
    ensures
        r@ == match list_value(first_crud_list(*input), "authorizer"@) {
            Some(v) => v,
            None => default_authorizer_name(*input) + "::new()"@,
        },
{
    let metas = match get_metas(&input.attrs) {
        Some(m) => m,
        None => vstd::pervasive::unreached(),
    };
    match get_value(metas, "authorizer") {
        Ok(v) => v,
        Err(_) => get_default_authorizer_constructor(input),
    }
}

// ----- names -----

/// The name of the filter input: the `filter` value of the first `crud` list, else
/// `{Name}Filter`.
pub fn get_filter_name(input: &DeriveInput) -> (r: String)
    requires
        has_first_crud_list(*input),
    ensures
        r@ == crate::helper::filter_name_of(*input, first_crud_list(*input)),
{
    let metas = match get_metas(&input.attrs) {
        Some(m) => m,
        None => vstd::pervasive::unreached(),
    };
    match get_value(metas, "filter") {
        Ok(v) => v,
        Err(_) => concat(input.ident.as_str(), "Filter"),
    }
}

/// `{Name}Field`.
pub fn get_field_name(input: &DeriveInput) -> (r: String)
    ensures
        r@ == input.ident@ + "Field"@,
{
    crate::helper::get_field_name(input)
}

/// `{Name}Sort`.
pub fn get_sort_name(input: &DeriveInput) -> (r: String)
    ensures
        r@ == input.ident@ + "Sort"@,
{
    crate::helper::get_sort_name(input)
}

/// The item's first `crud` list holds a `model` value.
pub open spec fn has_first_model(input: DeriveInput) -> bool {
    &&& has_first_crud_list(input)
    &&& list_value(first_crud_list(input), "model"@) is Some
}

/// The `model` value of the first `crud` list.
pub fn get_model(input: &DeriveInput) -> (r: String)
    requires
        has_first_model(*input),
    ensures
        r@ == list_value(first_crud_list(*input), "model"@)->0,
{
    let metas = match get_metas(&input.attrs) {
        Some(m) => m,
        None => vstd::pervasive::unreached(),
    };
    match get_value(metas, "model") {
        Ok(v) => v,
        Err(_) => vstd::pervasive::unreached(),
    }
}

/// The filter input that a field type is searched by, in the `CRUD` derive's own table.
pub open spec fn crud_filter_for_type(ty: Seq<char>) -> Option<Seq<char>> {
    if ty == "String"@ {
        Some("StringFilter"@)
    } else if ty == "i32"@ {
        Some("IntFilter"@)
    } else if ty == "bool"@ {
        Some("BooleanFilter"@)
    } else if ty == "DateTime"@ || ty == "chrono::NaiveDateTime"@ {
        Some("NaiveDateFilter"@)
    } else {
        None
    }
}

/// The `CRUD` derive's own filter table: `String` is searched by `StringFilter`, `i32` by
/// `IntFilter`, `bool` by `BooleanFilter`, `DateTime` and `chrono::NaiveDateTime` by
/// `NaiveDateFilter`; every other type has no filter.
pub proof fn lemma_crud_filter_table(ty: Seq<char>)
    ensures
        crud_filter_for_type(ty) == Some("StringFilter"@) <==> ty == "String"@,
        crud_filter_for_type(ty) == Some("IntFilter"@) <==> ty == "i32"@,
        crud_filter_for_type(ty) == Some("BooleanFilter"@) <==> ty == "bool"@,
        crud_filter_for_type(ty) == Some("NaiveDateFilter"@) <==> (ty == "DateTime"@ || ty
            == "chrono::NaiveDateTime"@),
        crud_filter_for_type(ty) is Some ==> crud_filter_for_type(ty) == Some("StringFilter"@)
            || crud_filter_for_type(ty) == Some("IntFilter"@) || crud_filter_for_type(ty) == Some(
            "BooleanFilter"@,
        ) || crud_filter_for_type(ty) == Some("NaiveDateFilter"@),
{
    reveal_strlit("String");
    reveal_strlit("i32");
    reveal_strlit("bool");
    reveal_strlit("DateTime");
    reveal_strlit("chrono::NaiveDateTime");
    reveal_strlit("StringFilter");
    reveal_strlit("IntFilter");
    reveal_strlit("BooleanFilter");
    reveal_strlit("NaiveDateFilter");
    assert("StringFilter"@.len() == 12 && "IntFilter"@.len() == 9 && "BooleanFilter"@.len() == 13
        && "NaiveDateFilter"@.len() == 15);
    assert("String"@.len() == 6 && "i32"@.len() == 3 && "bool"@.len() == 4 && "DateTime"@.len() == 8
        && "chrono::NaiveDateTime"@.len() == 21);
}

/// The filter input for a field type given as text.
pub fn get_filter_by_type(ty: &str) -> (r: String)
    requires
        crud_filter_for_type(ty@) is Some,
    ensures
        r@ == crud_filter_for_type(ty@)->0,
{
    if str_eq(ty, "String") {
        "StringFilter".to_owned()
    } else if str_eq(ty, "i32") {
        "IntFilter".to_owned()
    } else if str_eq(ty, "bool") {
        "BooleanFilter".to_owned()
    } else {
        "NaiveDateFilter".to_owned()
    }
}

} // verus!
