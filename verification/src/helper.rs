//! Reading the derive input: attribute lists and their values, struct fields, field types,
//! and the names that the derives introduce.

use vstd::prelude::*;
use crate::syntax::{
    path_is_ident, Attribute, Data, DeriveInput, Field, Fields, GenericArgument, Lit, Meta, MetaList,
    NestedMeta, PathArguments, PathSegment, Type,
};
use crate::text::{concat, str_eq};

verus! {

// ----- attribute lists -----

/// Every attribute named `name` reads as a list `name(...)`.
pub open spec fn lists_well_formed(attrs: Seq<Attribute>, name: Seq<char>) -> bool {
    forall|i: int|
        0 <= i < attrs.len() && path_is_ident(#[trigger] attrs[i].path, name)
            ==> attrs[i].meta matches Some(Meta::List(_))
}

/// The lists of the attributes named `name`, in the order they are written.
pub open spec fn meta_lists(attrs: Seq<Attribute>, name: Seq<char>) -> Seq<MetaList>
    decreases attrs.len(),
{
    if attrs.len() == 0 {
        seq![]
    } else {
        let rest = meta_lists(attrs.drop_last(), name);
        let last = attrs.last();
        if path_is_ident(last.path, name) {
            match last.meta {
                Some(Meta::List(l)) => rest.push(l),
                _ => rest,
            }
        } else {
            rest
        }
    }
}

/// The attribute reads `name(...)`: its path is `name` and it holds a list.
pub open spec fn is_named_list(a: Attribute, name: Seq<char>) -> bool {
    path_is_ident(a.path, name) && a.meta matches Some(Meta::List(_))
}

/// Which attributes read `name(...)`.
pub open spec fn named_list_filter(name: Seq<char>) -> spec_fn(Attribute) -> bool {
    |a: Attribute| is_named_list(a, name)
}

/// The list an attribute `name(...)` holds.
pub open spec fn list_of(a: Attribute) -> MetaList {
    a.meta->0->List_0
}

/// The lists of the attributes named `name` are all of them, in order: keep the attributes
/// that read `name(...)` and take the list of each. So every such attribute's list is among
/// them, and there are as many as there are such attributes.
pub proof fn lemma_meta_lists_all(attrs: Seq<Attribute>, name: Seq<char>)
    ensures
        meta_lists(attrs, name) == attrs.filter(named_list_filter(name)).map_values(
            |a: Attribute| list_of(a),
        ),
        meta_lists(attrs, name).len() == attrs.filter(named_list_filter(name)).len(),
        forall|k: int|
            0 <= k < attrs.len() && is_named_list(#[trigger] attrs[k], name) ==> meta_lists(
                attrs,
                name,
            ).contains(list_of(attrs[k])),
    decreases attrs.len(),
{
    let p = named_list_filter(name);
    let f = |a: Attribute| list_of(a);
    if attrs.len() == 0 {
        reveal(Seq::filter);
        assert(attrs.filter(p).map_values(f) =~= seq![]);
    } else {
        let init = attrs.drop_last();
        let last = attrs.last();
        lemma_meta_lists_all(init, name);
        assert(attrs =~= init.push(last));
        init.lemma_filter_push(last, p);
        if p(last) {
            assert(init.filter(p).push(last).map_values(f) =~= init.filter(p).map_values(f).push(f(last)));
        }
    }
    let lists = meta_lists(attrs, name);
    let kept = attrs.filter(p);
    assert forall|k: int| 0 <= k < attrs.len() && is_named_list(#[trigger] attrs[k], name) implies lists.contains(
        list_of(attrs[k]),
    ) by {
        attrs.lemma_filter_contains(p, k);
        let j = choose|j: int| 0 <= j < kept.len() && kept[j] == attrs[k];
        assert(lists[j] == f(kept[j]));
    }
}

/// The first `crud(...)` list of an item, if it has one.
pub open spec fn crud_meta_list(attrs: Seq<Attribute>) -> Option<MetaList> {
    let lists = meta_lists(attrs, "crud"@);
    if lists.len() > 0 {
        Some(lists[0])
    } else {
        None
    }
}

/// The lists of all attributes named `name`, in order.
pub fn get_meta_lists<'a>(attrs: &'a Vec<Attribute>, name: &str) -> (r: Vec<&'a MetaList>)
    requires
        lists_well_formed(attrs@, name@),
    ensures
        r@.len() == meta_lists(attrs@, name@).len(),
        forall|i: int| 0 <= i < r@.len() ==> *#[trigger] r@[i] == meta_lists(attrs@, name@)[i],
{
    let mut res: Vec<&'a MetaList> = Vec::new();
    let n = attrs.len();
    let mut i: usize = 0;
    while i < n
        invariant
            n == attrs@.len(),
            i <= n,
            lists_well_formed(attrs@, name@),
            res@.len() == meta_lists(attrs@.take(i as int), name@).len(),
            forall|j: int|
                0 <= j < res@.len() ==> *#[trigger] res@[j] == meta_lists(attrs@.take(i as int), name@)[j],
        decreases n - i,
    {
        let a = &attrs[i];
        assert(attrs@.take(i + 1).drop_last() =~= attrs@.take(i as int));
        assert(attrs@.take(i + 1).last() == attrs@[i as int]);
        if a.path.is_ident(name) {
            match &a.meta {
                Some(Meta::List(l)) => {
                    res.push(l);
                },
                _ => {
                    assert(path_is_ident(attrs@[i as int].path, name@));
                },
            }
        }
        i = i + 1;
    }
    assert(attrs@.take(n as int) =~= attrs@);
    res
}

/// The first `crud(...)` list of an item.
pub fn get_crud_metas(attrs: &Vec<Attribute>) -> (r: Option<&MetaList>)
    requires
        lists_well_formed(attrs@, "crud"@),
    ensures
        match r {
            Some(m) => crud_meta_list(attrs@) == Some(*m),
            None => crud_meta_list(attrs@) is None,
        },
{
    let lists = get_meta_lists(attrs, "crud");
    if lists.len() > 0 {
        Some(lists[0])
    } else {
        None
    }
}

// ----- items of a list -----

/// Some item of the list is the bare identifier `key`.
pub open spec fn has_flag(nested: Seq<NestedMeta>, key: Seq<char>) -> bool {
    exists|i: int| 0 <= i < nested.len() && (#[trigger] nested[i] matches NestedMeta::Path(p) && path_is_ident(p, key))
}

/// The string value of the first item `key = "..."` at or after position `i`.
pub open spec fn value_from(nested: Seq<NestedMeta>, key: Seq<char>, i: int) -> Option<Seq<char>>
    decreases nested.len() - i,
{
    if i < 0 || i >= nested.len() {
        None
    } else {
        match nested[i] {
            NestedMeta::NameValue(p, Lit::Str(s)) => if path_is_ident(p, key) {
                Some(s@)
            } else {
                value_from(nested, key, i + 1)
            },
            _ => value_from(nested, key, i + 1),
        }
    }
}

/// The string value of the first item `key = "..."` of a list.
pub open spec fn list_value(m: MetaList, key: Seq<char>) -> Option<Seq<char>> {
    value_from(m.nested@, key, 0)
}

/// The item is `key = "..."`: a name-value pair whose name is `key` and whose value is a string.
pub open spec fn is_string_value_of(n: NestedMeta, key: Seq<char>) -> bool {
    n matches NestedMeta::NameValue(p, Lit::Str(_)) && path_is_ident(p, key)
}

/// A list's value for `key` is that of its first item `key = "..."`: where there is one, the
/// value is the string of an item `key = "..."` before which no item gives `key` a string;
/// where there is none, no item of the list gives `key` a string.
pub proof fn lemma_list_value_first(m: MetaList, key: Seq<char>)
    ensures
        list_value(m, key) matches Some(v) ==> exists|i: int|
            {
                &&& 0 <= i < m.nested@.len()
                &&& #[trigger] m.nested@[i] matches NestedMeta::NameValue(p, Lit::Str(s)) && path_is_ident(p, key)
                    && s@ == v
                &&& forall|j: int| 0 <= j < i ==> !is_string_value_of(#[trigger] m.nested@[j], key)
            },
        list_value(m, key) is None ==> forall|i: int|
            0 <= i < m.nested@.len() ==> !is_string_value_of(#[trigger] m.nested@[i], key),
{
    lemma_value_from_first(m.nested@, key, 0);
}

proof fn lemma_value_from_first(nested: Seq<NestedMeta>, key: Seq<char>, i: int)
    requires
        0 <= i <= nested.len(),
    ensures
        value_from(nested, key, i) matches Some(v) ==> exists|k: int|
            {
                &&& i <= k < nested.len()
                &&& #[trigger] nested[k] matches NestedMeta::NameValue(p, Lit::Str(s)) && path_is_ident(p, key)
                    && s@ == v
                &&& forall|j: int| i <= j < k ==> !is_string_value_of(#[trigger] nested[j], key)
            },
        value_from(nested, key, i) is None ==> forall|k: int|
            i <= k < nested.len() ==> !is_string_value_of(#[trigger] nested[k], key),
    decreases nested.len() - i,
{
    if i < nested.len() {
        lemma_value_from_first(nested, key, i + 1);
        if is_string_value_of(nested[i], key) {
            assert(nested[i] matches NestedMeta::NameValue(p, Lit::Str(s)) && path_is_ident(p, key)
                && value_from(nested, key, i) == Some(s@));
        } else {
            assert(value_from(nested, key, i) == value_from(nested, key, i + 1));
            if value_from(nested, key, i) is Some {
                let v = value_from(nested, key, i)->0;
                let k = choose|k: int|
                    {
                        &&& i + 1 <= k < nested.len()
                        &&& #[trigger] nested[k] matches NestedMeta::NameValue(p, Lit::Str(s)) && path_is_ident(
                            p,
                            key,
                        ) && s@ == v
                        &&& forall|j: int| i + 1 <= j < k ==> !is_string_value_of(#[trigger] nested[j], key)
                    };
                assert(forall|j: int| i <= j < k ==> !is_string_value_of(#[trigger] nested[j], key));
            }
        }
    }
}

/// The message given when a list has no value for `key`.
pub open spec fn missing_value_message(key: Seq<char>) -> Seq<char> {
    key + " not specified in crud attribute"@
}

/// Whether the list holds the bare identifier `path`, as in `crud(subscribable)`.
pub fn get_flag(meta: &MetaList, path: &str) -> (r: bool)
    ensures
        r == has_flag(meta.nested@, path@),
{
    let n = meta.nested.len();
    let mut i: usize = 0;
    while i < n
        invariant
            n == meta.nested@.len(),
            i <= n,
            forall|j: int| 0 <= j < i ==> !(#[trigger] meta.nested@[j] matches NestedMeta::Path(p) && path_is_ident(p, path@)),
        decreases n - i,
    {
        match &meta.nested[i] {
            NestedMeta::Path(p) => {
                if p.is_ident(path) {
                    assert(meta.nested@[i as int] matches NestedMeta::Path(p) && path_is_ident(p, path@));
                    return true;
                }
            },
            _ => {},
        }
        i = i + 1;
    }
    false
}

/// The string value of the first item `path = "..."` of the list, or the message that names
/// the missing key.
pub fn get_value(meta: &MetaList, path: &str) -> (r: Result<String, String>)
    ensures
        match list_value(*meta, path@) {
            Some(v) => r matches Ok(s) && s@ == v,
            None => r matches Err(e) && e@ == missing_value_message(path@),
        },
{
    let n = meta.nested.len();
    let mut i: usize = 0;
    while i < n
        invariant
            n == meta.nested@.len(),
            i <= n,
            value_from(meta.nested@, path@, 0) == value_from(meta.nested@, path@, i as int),
        decreases n - i,
    {
        match &meta.nested[i] {
            NestedMeta::NameValue(p, Lit::Str(s)) => {
                if p.is_ident(path) {
                    return Ok(s.clone());
                }
            },
            _ => {},
        }
        i = i + 1;
    }
    Err(concat(path, " not specified in crud attribute"))
}

// ----- names -----

/// The name of the filter input: the `filter` value of the `crud` list, else `{Name}Filter`.
pub open spec fn filter_name_of(input: DeriveInput, metas: MetaList) -> Seq<char> {
    match list_value(metas, "filter"@) {
        Some(v) => v,
        None => input.ident@ + "Filter"@,
    }
}

/// The item has a `crud(...)` list, and every `crud` attribute on it reads as a list.
pub open spec fn has_crud_list(input: DeriveInput) -> bool {
    &&& lists_well_formed(input.attrs@, "crud"@)
    &&& crud_meta_list(input.attrs@) is Some
}

/// The item's first `crud` list holds a `model` value.
pub open spec fn has_model(input: DeriveInput) -> bool {
    &&& has_crud_list(input)
    &&& list_value(crud_meta_list(input.attrs@)->0, "model"@) is Some
}

/// The `model` value of the item's first `crud` list.
pub open spec fn model_of(input: DeriveInput) -> Seq<char> {
    list_value(crud_meta_list(input.attrs@)->0, "model"@)->0
}

/// The name of the filter input of the item.
pub fn get_filter_name(input: &DeriveInput) -> (r: String)
    requires
        has_crud_list(*input),
    ensures
        r@ == filter_name_of(*input, crud_meta_list(input.attrs@)->0),
{
    let metas = get_crud_metas(&input.attrs);
    let metas = match metas {
        Some(m) => m,
        None => vstd::pervasive::unreached(),
    };
    match get_value(metas, "filter") {
        Ok(v) => v,
        Err(_) => concat(input.ident.as_str(), "Filter"),
    }
}

/// The name of the field enum: `{Name}Field`.
pub fn get_field_name(input: &DeriveInput) -> (r: String)
    ensures
        r@ == input.ident@ + "Field"@,
{
    concat(input.ident.as_str(), "Field")
}

/// The name of the sort input: `{Name}Sort`.
pub fn get_sort_name(input: &DeriveInput) -> (r: String)
    ensures
        r@ == input.ident@ + "Sort"@,
{
    concat(input.ident.as_str(), "Sort")
}

/// The `model` value of the item's `crud` list.
pub fn get_model(input: &DeriveInput) -> (r: String)
    requires
        has_model(*input),
    ensures
        r@ == model_of(*input),
{
    let metas = get_crud_metas(&input.attrs);
    let metas = match metas {
        Some(m) => m,
        None => vstd::pervasive::unreached(),
    };
    match get_value(metas, "model") {
        Ok(v) => v,
        Err(_) => vstd::pervasive::unreached(),
    }
}

// ----- fields and their types -----

/// The item is a struct with named fields.
pub open spec fn is_named_struct(input: DeriveInput) -> bool {
    input.data matches Data::Struct(Fields::Named(_))
}

/// The named fields of a struct.
pub open spec fn struct_fields(input: DeriveInput) -> Seq<Field> {
    match input.data {
        Data::Struct(Fields::Named(f)) => f@,
        _ => seq![],
    }
}

/// The named fields of the struct that the derive is applied to.
pub fn get_struct_fields(input: &DeriveInput) -> (r: &Vec<Field>)
    requires
        is_named_struct(*input),
    ensures
        r@ == struct_fields(*input),
{
    match &input.data {
        Data::Struct(Fields::Named(f)) => f,
        _ => vstd::pervasive::unreached(),
    }
}

/// The identifiers of a path's segments.
pub open spec fn segment_idents(segs: Seq<PathSegment>) -> Seq<Seq<char>> {
    segs.map_values(|s: PathSegment| s.ident@)
}

/// The path names `Option`: its identifiers are `Option`, `std::option::Option` or
/// `core::option::Option`.
pub open spec fn names_option(segs: Seq<PathSegment>) -> bool {
    let ids = segment_idents(segs);
    ids == seq!["Option"@] || ids == seq!["std"@, "option"@, "Option"@] || ids == seq![
        "core"@,
        "option"@,
        "Option"@,
    ]
}

/// Whether the path's identifiers are `Option`, `std::option::Option` or
/// `core::option::Option` (arguments and a leading `::` aside).
pub fn is_option_path(segs: &Vec<PathSegment>) -> (r: bool)
    ensures
        r == names_option(segs@),
{
    let ghost ids = segment_idents(segs@);
    let r = if segs.len() == 1 {
        str_eq(segs[0].ident.as_str(), "Option")
    } else if segs.len() == 3 {
        (str_eq(segs[0].ident.as_str(), "std") || str_eq(segs[0].ident.as_str(), "core"))
            && str_eq(segs[1].ident.as_str(), "option") && str_eq(segs[2].ident.as_str(), "Option")
    } else {
        false
    };
    proof {
        assert(ids.len() == segs@.len());
        if segs@.len() == 1 {
            assert(ids[0] == segs@[0].ident@);
            assert(r == (ids =~= seq!["Option"@]));
        } else if segs@.len() == 3 {
            assert(ids[0] == segs@[0].ident@);
            assert(ids[1] == segs@[1].ident@);
            assert(ids[2] == segs@[2].ident@);
            assert(r == (ids =~= seq!["std"@, "option"@, "Option"@] || ids =~= seq!["core"@, "option"@, "Option"@]));
        }
    }
    r
}

/// The type inside `Option<...>`: for a path type without a qualified self whose path is
/// `Option`, `std::option::Option` or `core::option::Option`, the first generic argument of its
/// last segment, where that argument is a type.
pub open spec fn option_inner_type(ty: Type) -> Option<Type> {
    match ty {
        Type::Path(tp) => {
            let segs = tp.path.segments@;
            if !tp.qself && names_option(segs) {
                match segs.last().arguments {
                    PathArguments::AngleBracketed(args) => if args@.len() > 0 {
                        match args@[0] {
                            GenericArgument::Type(t) => Some(t),
                            _ => None,
                        }
                    } else {
                        None
                    },
                    _ => None,
                }
            } else {
                None
            }
        },
        _ => None,
    }
}

/// The type `T` of a field typed `Option<T>`.
pub fn extract_type_from_option(ty: &Type) -> (r: Option<&Type>)
    ensures
        match r {
            Some(t) => option_inner_type(*ty) == Some(*t),
            None => option_inner_type(*ty) is None,
        },
{
    let tp = match ty {
        Type::Path(tp) => tp,
        _ => {
            return None;
        },
    };
    if tp.qself {
        return None;
    }
    if !is_option_path(&tp.path.segments) {
        return None;
    }
    let n = tp.path.segments.len();
    proof {
        assert(segment_idents(tp.path.segments@).len() == n);
    }
    match &tp.path.segments[n - 1].arguments {
        PathArguments::AngleBracketed(args) => {
            if args.len() == 0 {
                None
            } else {
                match &args[0] {
                    GenericArgument::Type(t) => Some(t),
                    _ => None,
                }
            }
        },
        _ => None,
    }
}

/// The filter input that a field type is searched by, if the type has one.
pub open spec fn filter_for_type(ty: Seq<char>) -> Option<Seq<char>> {
    if ty == "String"@ {
        Some("StringFilter"@)
    } else if ty == "i32"@ || ty == "i64"@ || ty == "u32"@ || ty == "u64"@ || ty == "isize"@
        || ty == "usize"@ {
        Some("IntFilter"@)
    } else if ty == "bool"@ {
        Some("BooleanFilter"@)
    } else if ty == "DateTime"@ || ty == "chrono :: NaiveDateTime"@ || ty == "NaiveDateTime"@ {
        Some("DateTimeFilter"@)
    } else {
        None
    }
}

/// The filter table: `String` is searched by `StringFilter`; `i32`, `i64`, `u32`, `u64`,
/// `isize` and `usize` by `IntFilter`; `bool` by `BooleanFilter`; `DateTime`, `NaiveDateTime`
/// and `chrono :: NaiveDateTime` by `DateTimeFilter`; every other type has no filter.
pub proof fn lemma_filter_table(ty: Seq<char>)
    ensures
        filter_for_type(ty) == Some("StringFilter"@) <==> ty == "String"@,
        filter_for_type(ty) == Some("IntFilter"@) <==> (ty == "i32"@ || ty == "i64"@ || ty == "u32"@
            || ty == "u64"@ || ty == "isize"@ || ty == "usize"@),
        filter_for_type(ty) == Some("BooleanFilter"@) <==> ty == "bool"@,
        filter_for_type(ty) == Some("DateTimeFilter"@) <==> (ty == "DateTime"@ || ty == "NaiveDateTime"@
            || ty == "chrono :: NaiveDateTime"@),
        filter_for_type(ty) is Some ==> filter_for_type(ty) == Some("StringFilter"@) || filter_for_type(ty)
            == Some("IntFilter"@) || filter_for_type(ty) == Some("BooleanFilter"@) || filter_for_type(ty)
            == Some("DateTimeFilter"@),
{
    reveal_strlit("String");
    reveal_strlit("i32");
    reveal_strlit("i64");
    reveal_strlit("u32");
    reveal_strlit("u64");
    reveal_strlit("isize");
    reveal_strlit("usize");
    reveal_strlit("bool");
    reveal_strlit("DateTime");
    reveal_strlit("NaiveDateTime");
    reveal_strlit("chrono :: NaiveDateTime");
    reveal_strlit("StringFilter");
    reveal_strlit("IntFilter");
    reveal_strlit("BooleanFilter");
    reveal_strlit("DateTimeFilter");
    assert("StringFilter"@.len() == 12 && "IntFilter"@.len() == 9 && "BooleanFilter"@.len() == 13
        && "DateTimeFilter"@.len() == 14);
    assert("String"@.len() == 6 && "i32"@.len() == 3 && "i64"@.len() == 3 && "u32"@.len() == 3
        && "u64"@.len() == 3 && "isize"@.len() == 5 && "usize"@.len() == 5 && "bool"@.len() == 4
        && "DateTime"@.len() == 8 && "NaiveDateTime"@.len() == 13);
}

/// The filter input for a field type given as its printed tokens.
pub fn get_filter_by_type(ty: &str) -> (r: String)
    requires
        filter_for_type(ty@) is Some,
    ensures
        r@ == filter_for_type(ty@)->0,
{
    if str_eq(ty, "String") {
        "StringFilter".to_owned()
    } else if str_eq(ty, "i32") || str_eq(ty, "i64") || str_eq(ty, "u32") || str_eq(ty, "u64")
        || str_eq(ty, "isize") || str_eq(ty, "usize") {
        "IntFilter".to_owned()
    } else if str_eq(ty, "bool") {
        "BooleanFilter".to_owned()
    } else {
        "DateTimeFilter".to_owned()
    }
}

/// A string literal holding the given text: `"text"`. The `Relation` derive passes the
/// printed tokens of a name.
pub fn get_str_literal(ts: &str) -> (r: String)
    ensures
        r@ == "\""@ + ts@ + "\""@,
{
    crate::text::concat3("\"", ts, "\"")
}

} // verus!
