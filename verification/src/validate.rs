//! The inputs each derive refuses, and why: the checks a caller makes before expanding, in the
//! order the derives come upon them.

use vstd::prelude::*;
use crate::syntax::{path_is_ident, Attribute, Data, DeriveInput, Field, Fields, Meta, MetaList, Type};
use crate::helper::{
    crud_meta_list, extract_type_from_option, filter_for_type, get_crud_metas, get_meta_lists,
    get_value, has_model, is_named_struct, list_value, lists_well_formed, meta_lists,
    struct_fields,
};
use crate::crud::helper::{first_list_well_formed, get_flag, get_metas, named_from};
use crate::crud::filter::{field_filter, search_type};
use crate::crud::resolver::mutation::field_has_flag;
use crate::crud::crud_input_ok;
use crate::relation::relation::{relation_list_ok, relations_ok};
use crate::relation::connection::{connection_list_ok, connections_ok};
use crate::text::{concat, str_eq};

verus! {

/// Why a derive refuses its input.
#[derive(Debug)]
pub enum ExpandError {
    /// An attribute with this name does not read as a structured attribute.
    Unparsable(String),
    /// An attribute with this name is not a list `name(...)`.
    NotList(String),
    /// The item has no `crud(...)` attribute.
    MissingCrudAttribute,
    /// A list does not give a string value for this key.
    MissingValue(String),
    /// The item is not a struct.
    NotStruct,
    /// The struct's fields have no names.
    UnnamedFields,
    /// A field's type (or the type inside its `Option`) is not a path.
    UnsupportedType,
    /// No filter searches fields of this type (as its tokens print).
    UnknownFilterType(String),
    /// An updatable field's type is not a path.
    UpdatableNotPath,
    /// The value given for this key does not lex as Rust tokens.
    Unlexable(String),
}

/// Why a derive refuses its input, as plain values.
pub enum Failure {
    Unparsable(Seq<char>),
    NotList(Seq<char>),
    MissingCrudAttribute,
    MissingValue(Seq<char>),
    NotStruct,
    UnnamedFields,
    UnsupportedType,
    UnknownFilterType(Seq<char>),
    UpdatableNotPath,
    Unlexable(Seq<char>),
}

impl View for ExpandError {
    type V = Failure;

    open spec fn view(&self) -> Failure {
        match self {
            ExpandError::Unparsable(n) => Failure::Unparsable(n@),
            ExpandError::NotList(n) => Failure::NotList(n@),
            ExpandError::MissingCrudAttribute => Failure::MissingCrudAttribute,
            ExpandError::MissingValue(k) => Failure::MissingValue(k@),
            ExpandError::NotStruct => Failure::NotStruct,
            ExpandError::UnnamedFields => Failure::UnnamedFields,
            ExpandError::UnsupportedType => Failure::UnsupportedType,
            ExpandError::UnknownFilterType(t) => Failure::UnknownFilterType(t@),
            ExpandError::UpdatableNotPath => Failure::UpdatableNotPath,
            ExpandError::Unlexable(k) => Failure::Unlexable(k@),
        }
    }
}

/// The message a derive fails with.
pub open spec fn failure_message(f: Failure) -> Seq<char> {
    match f {
        Failure::Unparsable(n) => n + " attribute cannot be parsed"@,
        Failure::NotList(n) => n + " attribute must be a list"@,
        Failure::MissingCrudAttribute => "crud attribute not found"@,
        Failure::MissingValue(k) => k + " not specified in crud attribute"@,
        Failure::NotStruct => "only struct can be derived"@,
        Failure::UnnamedFields => "fields must be named for struct"@,
        Failure::UnsupportedType => "type not supported"@,
        Failure::UnknownFilterType(t) => "cannot find filter for type "@ + t,
        Failure::UpdatableNotPath => "field type must be path"@,
        Failure::Unlexable(k) => k + " value does not lex as tokens"@,
    }
}

impl ExpandError {
    /// The message the derive fails with.
    pub fn message(&self) -> (r: String)
        ensures
            r@ == failure_message(self@),
    {
        match self {
            ExpandError::Unparsable(n) => concat(n.as_str(), " attribute cannot be parsed"),
            ExpandError::NotList(n) => concat(n.as_str(), " attribute must be a list"),
            ExpandError::MissingCrudAttribute => "crud attribute not found".to_owned(),
            ExpandError::MissingValue(k) => concat(k.as_str(), " not specified in crud attribute"),
            ExpandError::NotStruct => "only struct can be derived".to_owned(),
            ExpandError::UnnamedFields => "fields must be named for struct".to_owned(),
            ExpandError::UnsupportedType => "type not supported".to_owned(),
            ExpandError::UnknownFilterType(t) => concat("cannot find filter for type ", t.as_str()),
            ExpandError::UpdatableNotPath => "field type must be path".to_owned(),
            ExpandError::Unlexable(k) => concat(k.as_str(), " value does not lex as tokens"),
        }
    }
}

/// Why an attribute named `name` does not give a list, if it does not.
pub open spec fn attr_failure(a: Attribute, name: Seq<char>) -> Option<Failure> {
    match a.meta {
        None => Some(Failure::Unparsable(name)),
        Some(Meta::List(_)) => None,
        Some(_) => Some(Failure::NotList(name)),
    }
}

/// The failure of the first attribute named `name`, at or after position `i`, that does not
/// give a list.
pub open spec fn lists_failure_from(attrs: Seq<Attribute>, name: Seq<char>, i: int) -> Option<Failure>
    decreases attrs.len() - i,
{
    if i < 0 || i >= attrs.len() {
        None
    } else if path_is_ident(attrs[i].path, name) && attr_failure(attrs[i], name) is Some {
        attr_failure(attrs[i], name)
    } else {
        lists_failure_from(attrs, name, i + 1)
    }
}

/// No attribute named `name` at or after `i` fails exactly where all of them give lists.
pub proof fn lemma_lists_failure_from(attrs: Seq<Attribute>, name: Seq<char>, i: int)
    requires
        0 <= i <= attrs.len(),
    ensures
        lists_failure_from(attrs, name, i) is None <==> forall|k: int|
            i <= k < attrs.len() && path_is_ident(#[trigger] attrs[k].path, name)
                ==> attrs[k].meta matches Some(Meta::List(_)),
    decreases attrs.len() - i,
{
    if i < attrs.len() {
        lemma_lists_failure_from(attrs, name, i + 1);
    }
}

/// Checks that every attribute named `name` gives a list; else the failure of the first that
/// does not.
pub fn check_lists(attrs: &Vec<Attribute>, name: &str) -> (r: Result<(), ExpandError>)
    ensures
        match lists_failure_from(attrs@, name@, 0) {
            Some(f) => r matches Err(e) && e@ == f,
            None => r is Ok,
        },
        r is Ok <==> lists_well_formed(attrs@, name@),
{
    proof {
        lemma_lists_failure_from(attrs@, name@, 0);
    }
    let n = attrs.len();
    let mut i: usize = 0;
    while i < n
        invariant
            n == attrs@.len(),
            i <= n,
            lists_failure_from(attrs@, name@, 0) == lists_failure_from(attrs@, name@, i as int),
        decreases n - i,
    {
        let a = &attrs[i];
        if a.path.is_ident(name) {
            match &a.meta {
                None => {
                    return Err(ExpandError::Unparsable(name.to_owned()));
                },
                Some(Meta::List(_)) => {},
                Some(_) => {
                    return Err(ExpandError::NotList(name.to_owned()));
                },
            }
        }
        i = i + 1;
    }
    Ok(())
}

/// The failure of the first attribute named `name`, where it does not give a list.
pub open spec fn first_list_failure(attrs: Seq<Attribute>, name: Seq<char>) -> Option<Failure> {
    match named_from(attrs, name, 0) {
        Some(k) => attr_failure(attrs[k], name),
        None => None,
    }
}

/// The first field, at or after position `i`, whose search type has no filter.
pub open spec fn filter_failure_from(fs: Seq<Field>, i: int) -> Option<Failure>
    decreases fs.len() - i,
{
    if i < 0 || i >= fs.len() {
        None
    } else {
        match search_type(fs[i]) {
            Type::Path(tp) => if filter_for_type(tp.tokens@) is None {
                Some(Failure::UnknownFilterType(tp.tokens@))
            } else {
                filter_failure_from(fs, i + 1)
            },
            Type::Other => Some(Failure::UnsupportedType),
        }
    }
}

/// The first field, at or after position `i`, whose first `crud` attribute gives no list.
pub open spec fn field_lists_failure_from(fs: Seq<Field>, i: int) -> Option<Failure>
    decreases fs.len() - i,
{
    if i < 0 || i >= fs.len() {
        None
    } else if first_list_failure(fs[i].attrs@, "crud"@) is Some {
        first_list_failure(fs[i].attrs@, "crud"@)
    } else {
        field_lists_failure_from(fs, i + 1)
    }
}

/// The first updatable field, at or after position `i`, whose type is not a path.
pub open spec fn updatable_failure_from(fs: Seq<Field>, i: int) -> Option<Failure>
    decreases fs.len() - i,
{
    if i < 0 || i >= fs.len() {
        None
    } else if field_has_flag(fs[i], "updatable"@) && !(fs[i].ty is Path) {
        Some(Failure::UpdatableNotPath)
    } else {
        updatable_failure_from(fs, i + 1)
    }
}

/// Why the item's `crud` attributes fail to give a model, if they do.
pub open spec fn model_failure(input: DeriveInput) -> Option<Failure> {
    if lists_failure_from(input.attrs@, "crud"@, 0) is Some {
        lists_failure_from(input.attrs@, "crud"@, 0)
    } else if crud_meta_list(input.attrs@) is None {
        Some(Failure::MissingCrudAttribute)
    } else if list_value(crud_meta_list(input.attrs@)->0, "model"@) is None {
        Some(Failure::MissingValue("model"@))
    } else {
        None
    }
}

/// Why the `CRUD` derive refuses the item, if it does: the first problem it comes upon.
pub open spec fn crud_failure(input: DeriveInput) -> Option<Failure> {
    if model_failure(input) is Some {
        model_failure(input)
    } else {
        match input.data {
            Data::Struct(Fields::Named(fs)) => if filter_failure_from(fs@, 0) is Some {
                filter_failure_from(fs@, 0)
            } else if field_lists_failure_from(fs@, 0) is Some {
                field_lists_failure_from(fs@, 0)
            } else {
                updatable_failure_from(fs@, 0)
            },
            Data::Struct(_) => Some(Failure::UnnamedFields),
            _ => Some(Failure::NotStruct),
        }
    }
}

proof fn lemma_filter_failure_from(fs: Seq<Field>, i: int)
    requires
        0 <= i <= fs.len(),
    ensures
        filter_failure_from(fs, i) is None <==> forall|k: int| i <= k < fs.len() ==> (#[trigger] field_filter(fs[k])) is Some,
    decreases fs.len() - i,
{
    if i < fs.len() {
        lemma_filter_failure_from(fs, i + 1);
        assert(field_filter(fs[i]) is Some || field_filter(fs[i]) is None);
    }
}

proof fn lemma_filter_failure_skips(fs: Seq<Field>, i: int, k: int)
    requires
        0 <= i <= k < fs.len(),
        forall|j: int| i <= j < k ==> (#[trigger] field_filter(fs[j])) is Some,
    ensures
        filter_failure_from(fs, i) == filter_failure_from(fs, k),
    decreases k - i,
{
    if i < k {
        assert(field_filter(fs[i]) is Some);
        lemma_filter_failure_skips(fs, i + 1, k);
    }
}

/// Where the item's `crud` attributes give a model and it is a struct with named fields, the
/// `CRUD` derive refuses it at the first field whose search type has no filter: with "type not
/// supported" where that type is not a path, and with "cannot find filter for type {tokens}"
/// where it is a path that no filter searches.
pub proof fn lemma_filter_refusal(input: DeriveInput, k: int)
    requires
        model_failure(input) is None,
        is_named_struct(input),
        0 <= k < struct_fields(input).len(),
        field_filter(struct_fields(input)[k]) is None,
        forall|j: int| 0 <= j < k ==> (#[trigger] field_filter(struct_fields(input)[j])) is Some,
    ensures
        crud_failure(input) == (match search_type(struct_fields(input)[k]) {
            Type::Path(tp) => Some(Failure::UnknownFilterType(tp.tokens@)),
            Type::Other => Some(Failure::UnsupportedType),
        }),
{
    lemma_filter_failure_skips(struct_fields(input), 0, k);
}

proof fn lemma_field_lists_failure_from(fs: Seq<Field>, i: int)
    requires
        0 <= i <= fs.len(),
    ensures
        field_lists_failure_from(fs, i) is None <==> forall|k: int|
            i <= k < fs.len() ==> first_list_well_formed((#[trigger] fs[k]).attrs@, "crud"@),
    decreases fs.len() - i,
{
    if i < fs.len() {
        lemma_field_lists_failure_from(fs, i + 1);
    }
}

proof fn lemma_updatable_failure_from(fs: Seq<Field>, i: int)
    requires
        0 <= i <= fs.len(),
    ensures
        updatable_failure_from(fs, i) is None <==> forall|k: int|
            i <= k < fs.len() && field_has_flag(#[trigger] fs[k], "updatable"@) ==> fs[k].ty is Path,
    decreases fs.len() - i,
{
    if i < fs.len() {
        lemma_updatable_failure_from(fs, i + 1);
    }
}

/// Whether some filter searches fields of this type.
fn known_filter_type(ty: &str) -> (r: bool)
    ensures
        r == (filter_for_type(ty@) is Some),
{
    str_eq(ty, "String") || str_eq(ty, "i32") || str_eq(ty, "i64") || str_eq(ty, "u32") || str_eq(
        ty,
        "u64",
    ) || str_eq(ty, "isize") || str_eq(ty, "usize") || str_eq(ty, "bool") || str_eq(ty, "DateTime")
        || str_eq(ty, "chrono :: NaiveDateTime") || str_eq(ty, "NaiveDateTime")
}

/// Checks that the item's `crud` attributes are lists and the first gives a model.
pub fn check_model(input: &DeriveInput) -> (r: Result<(), ExpandError>)
    ensures
        match model_failure(*input) {
            Some(f) => r matches Err(e) && e@ == f,
            None => r is Ok,
        },
        r is Ok <==> has_model(*input),
{
    match check_lists(&input.attrs, "crud") {
        Err(e) => {
            return Err(e);
        },
        Ok(()) => {},
    }
    let metas = match get_crud_metas(&input.attrs) {
        Some(m) => m,
        None => {
            return Err(ExpandError::MissingCrudAttribute);
        },
    };
    match get_value(metas, "model") {
        Ok(_) => Ok(()),
        Err(_) => Err(ExpandError::MissingValue("model".to_owned())),
    }
}

/// The first field whose search type has no filter.
fn check_field_filters(fs: &Vec<Field>) -> (r: Result<(), ExpandError>)
    ensures
        match filter_failure_from(fs@, 0) {
            Some(f) => r matches Err(e) && e@ == f,
            None => r is Ok,
        },
{
    let n = fs.len();
    let mut i: usize = 0;
    while i < n
        invariant
            n == fs@.len(),
            i <= n,
            filter_failure_from(fs@, 0) == filter_failure_from(fs@, i as int),
        decreases n - i,
    {
        let f = &fs[i];
        let ty = match extract_type_from_option(&f.ty) {
            Some(t) => t,
            None => &f.ty,
        };
        match ty {
            Type::Path(tp) => {
                if !known_filter_type(tp.tokens.as_str()) {
                    return Err(ExpandError::UnknownFilterType(tp.tokens.clone()));
                }
            },
            Type::Other => {
                return Err(ExpandError::UnsupportedType);
            },
        }
        i = i + 1;
    }
    Ok(())
}

/// Checks the first attribute named `name`, where there is one, gives a list.
fn check_first_list(attrs: &Vec<Attribute>, name: &str) -> (r: Result<(), ExpandError>)
    ensures
        match first_list_failure(attrs@, name@) {
            Some(f) => r matches Err(e) && e@ == f,
            None => r is Ok,
        },
{
    let n = attrs.len();
    let mut i: usize = 0;
    while i < n
        invariant
            n == attrs@.len(),
            i <= n,
            named_from(attrs@, name@, 0) == named_from(attrs@, name@, i as int),
        decreases n - i,
    {
        let a = &attrs[i];
        if a.path.is_ident(name) {
            assert(named_from(attrs@, name@, i as int) == Some(i as int));
            return match &a.meta {
                None => Err(ExpandError::Unparsable(name.to_owned())),
                Some(Meta::List(_)) => Ok(()),
                Some(_) => Err(ExpandError::NotList(name.to_owned())),
            };
        }
        i = i + 1;
    }
    Ok(())
}

/// The first field whose first `crud` attribute gives no list.
fn check_field_lists(fs: &Vec<Field>) -> (r: Result<(), ExpandError>)
    ensures
        match field_lists_failure_from(fs@, 0) {
            Some(f) => r matches Err(e) && e@ == f,
            None => r is Ok,
        },
{
    let n = fs.len();
    let mut i: usize = 0;
    while i < n
        invariant
            n == fs@.len(),
            i <= n,
            field_lists_failure_from(fs@, 0) == field_lists_failure_from(fs@, i as int),
        decreases n - i,
    {
        match check_first_list(&fs[i].attrs, "crud") {
            Err(e) => {
                return Err(e);
            },
            Ok(()) => {},
        }
        i = i + 1;
    }
    Ok(())
}

/// The first updatable field whose type is not a path.
fn check_updatable_types(fs: &Vec<Field>) -> (r: Result<(), ExpandError>)
    requires
        forall|k: int| 0 <= k < fs@.len() ==> first_list_well_formed((#[trigger] fs@[k]).attrs@, "crud"@),
    ensures
        match updatable_failure_from(fs@, 0) {
            Some(f) => r matches Err(e) && e@ == f,
            None => r is Ok,
        },
{
    let n = fs.len();
    let mut i: usize = 0;
    while i < n
        invariant
            n == fs@.len(),
            i <= n,
            forall|k: int| 0 <= k < fs@.len() ==> first_list_well_formed((#[trigger] fs@[k]).attrs@, "crud"@),
            updatable_failure_from(fs@, 0) == updatable_failure_from(fs@, i as int),
        decreases n - i,
    {
        let f = &fs[i];
        assert(first_list_well_formed(fs@[i as int].attrs@, "crud"@));
        let updatable = match get_metas(&f.attrs) {
            Some(m) => get_flag(m, "updatable"),
            None => false,
        };
        if updatable {
            match &f.ty {
                Type::Path(_) => {},
                Type::Other => {
                    return Err(ExpandError::UpdatableNotPath);
                },
            }
        }
        i = i + 1;
    }
    Ok(())
}

/// Checks an item for the `CRUD` derive: `Ok` exactly where `crud_expand` accepts it (the
/// attributes, the struct and its field types), else the first such problem the derive comes
/// upon. Attribute values are not lexed here: they are turned into tokens where the plan is
/// written out, and a value that does not lex fails the derive there.
pub fn check_crud_input(input: &DeriveInput) -> (r: Result<(), ExpandError>)
    ensures
        match crud_failure(*input) {
            Some(f) => r matches Err(e) && e@ == f,
            None => r is Ok,
        },
        r is Ok <==> crud_input_ok(*input),
{
    match check_model(input) {
        Err(e) => {
            return Err(e);
        },
        Ok(()) => {},
    }
    let fs = match &input.data {
        Data::Struct(Fields::Named(fs)) => fs,
        Data::Struct(_) => {
            return Err(ExpandError::UnnamedFields);
        },
        _ => {
            return Err(ExpandError::NotStruct);
        },
    };
    proof {
        lemma_filter_failure_from(fs@, 0);
        lemma_field_lists_failure_from(fs@, 0);
        lemma_updatable_failure_from(fs@, 0);
    }
    match check_field_filters(fs) {
        Err(e) => {
            return Err(e);
        },
        Ok(()) => {},
    }
    match check_field_lists(fs) {
        Err(e) => {
            return Err(e);
        },
        Ok(()) => {},
    }
    check_updatable_types(fs)
}

/// The first key of `keys` for which the list gives no string value.
pub open spec fn keys_failure(m: MetaList, keys: Seq<Seq<char>>) -> Option<Failure>
    decreases keys.len(),
{
    if keys.len() == 0 {
        None
    } else if list_value(m, keys[0]) is None {
        Some(Failure::MissingValue(keys[0]))
    } else {
        keys_failure(m, keys.drop_first())
    }
}

/// The keys a relation gives, in the order the derive reads them.
pub open spec fn relation_keys() -> Seq<Seq<char>> {
    seq!["name"@, "from"@, "to"@, "target_dto"@, "target_model"@]
}

/// The keys a connection gives, in the order the derive reads them.
pub open spec fn connection_keys() -> Seq<Seq<char>> {
    seq!["name"@, "target_dto"@, "target_model"@, "from"@, "to"@]
}

/// The first list, at or after position `i`, that lacks one of `keys`.
pub open spec fn keys_failure_from(ms: Seq<MetaList>, keys: Seq<Seq<char>>, i: int) -> Option<Failure>
    decreases ms.len() - i,
{
    if i < 0 || i >= ms.len() {
        None
    } else if keys_failure(ms[i], keys) is Some {
        keys_failure(ms[i], keys)
    } else {
        keys_failure_from(ms, keys, i + 1)
    }
}

/// Why the `Relation` derive refuses the item, if it does: the first problem it comes upon.
pub open spec fn relation_failure(input: DeriveInput) -> Option<Failure> {
    let attrs = input.attrs@;
    if lists_failure_from(attrs, "relation"@, 0) is Some {
        lists_failure_from(attrs, "relation"@, 0)
    } else if keys_failure_from(meta_lists(attrs, "relation"@), relation_keys(), 0) is Some {
        keys_failure_from(meta_lists(attrs, "relation"@), relation_keys(), 0)
    } else if lists_failure_from(attrs, "connection"@, 0) is Some {
        lists_failure_from(attrs, "connection"@, 0)
    } else {
        keys_failure_from(meta_lists(attrs, "connection"@), connection_keys(), 0)
    }
}

proof fn lemma_keys_failure_from(ms: Seq<MetaList>, keys: Seq<Seq<char>>, i: int)
    requires
        0 <= i <= ms.len(),
    ensures
        keys_failure_from(ms, keys, i) is None <==> forall|k: int|
            i <= k < ms.len() ==> (#[trigger] keys_failure(ms[k], keys)) is None,
    decreases ms.len() - i,
{
    if i < ms.len() {
        lemma_keys_failure_from(ms, keys, i + 1);
        assert(keys_failure(ms[i], keys) is None || keys_failure(ms[i], keys) is Some);
    }
}

/// The texts of the keys.
pub open spec fn key_views(keys: Seq<&str>) -> Seq<Seq<char>> {
    keys.map_values(|k: &str| k@)
}

/// Checks that the list gives each of the keys, in order.
fn check_keys(m: &MetaList, keys: &Vec<&str>) -> (r: Result<(), ExpandError>)
    ensures
        match keys_failure(*m, key_views(keys@)) {
            Some(f) => r matches Err(e) && e@ == f,
            None => r is Ok,
        },
{
    let ghost ks = key_views(keys@);
    let n = keys.len();
    let mut i: usize = 0;
    assert(ks.skip(0) =~= ks);
    while i < n
        invariant
            n == keys@.len(),
            ks == key_views(keys@),
            i <= n,
            keys_failure(*m, ks) == keys_failure(*m, ks.skip(i as int)),
        decreases n - i,
    {
        let key = keys[i];
        assert(ks.skip(i as int)[0] == key@);
        assert(ks.skip(i as int).drop_first() =~= ks.skip(i + 1));
        if get_value(m, key).is_err() {
            return Err(ExpandError::MissingValue(key.to_owned()));
        }
        i = i + 1;
    }
    assert(ks.skip(n as int) =~= Seq::<Seq<char>>::empty());
    Ok(())
}

/// Checks every list of the attributes named `name` for the keys, in order.
fn check_lists_keys(attrs: &Vec<Attribute>, name: &str, keys: &Vec<&str>) -> (r: Result<(), ExpandError>)
    requires
        lists_well_formed(attrs@, name@),
    ensures
        match keys_failure_from(meta_lists(attrs@, name@), key_views(keys@), 0) {
            Some(f) => r matches Err(e) && e@ == f,
            None => r is Ok,
        },
{
    let lists = get_meta_lists(attrs, name);
    let ghost ml = meta_lists(attrs@, name@);
    let ghost ks = key_views(keys@);
    let n = lists.len();
    let mut i: usize = 0;
    while i < n
        invariant
            n == lists@.len(),
            n == ml.len(),
            ml == meta_lists(attrs@, name@),
            ks == key_views(keys@),
            forall|k: int| 0 <= k < n ==> *#[trigger] lists@[k] == ml[k],
            i <= n,
            keys_failure_from(ml, ks, 0) == keys_failure_from(ml, ks, i as int),
        decreases n - i,
    {
        assert(*lists@[i as int] == ml[i as int]);
        match check_keys(lists[i], keys) {
            Err(e) => {
                return Err(e);
            },
            Ok(()) => {},
        }
        i = i + 1;
    }
    Ok(())
}

/// Checks an item for the `Relation` derive: `Ok` exactly where `relation_expand`'s `requires`
/// holds (the attributes are lists and give every key), else the first such problem the derive
/// comes upon. Lexing is not part of the check: `relation_expand` lexes the names, `to` and
/// `target_dto` values and reports a value the lexer refuses, and the other values are lexed
/// where the plan is written out.
pub fn check_relation_input(input: &DeriveInput) -> (r: Result<(), ExpandError>)
    ensures
        match relation_failure(*input) {
            Some(f) => r matches Err(e) && e@ == f,
            None => r is Ok,
        },
        r is Ok <==> relations_ok(*input) && connections_ok(*input),
{
    let relation_keys_v: Vec<&str> = vec!["name", "from", "to", "target_dto", "target_model"];
    let connection_keys_v: Vec<&str> = vec!["name", "target_dto", "target_model", "from", "to"];
    assert(key_views(relation_keys_v@) =~= relation_keys());
    assert(key_views(connection_keys_v@) =~= connection_keys());
    proof {
        lemma_keys_failure_from(meta_lists(input.attrs@, "relation"@), relation_keys(), 0);
        lemma_keys_failure_from(meta_lists(input.attrs@, "connection"@), connection_keys(), 0);
        lemma_relation_keys(meta_lists(input.attrs@, "relation"@));
        lemma_connection_keys(meta_lists(input.attrs@, "connection"@));
    }
    match check_lists(&input.attrs, "relation") {
        Err(e) => {
            return Err(e);
        },
        Ok(()) => {},
    }
    match check_lists_keys(&input.attrs, "relation", &relation_keys_v) {
        Err(e) => {
            return Err(e);
        },
        Ok(()) => {},
    }
    match check_lists(&input.attrs, "connection") {
        Err(e) => {
            return Err(e);
        },
        Ok(()) => {},
    }
    let r = check_lists_keys(&input.attrs, "connection", &connection_keys_v);
    proof {
        let rl = meta_lists(input.attrs@, "relation"@);
        let cl = meta_lists(input.attrs@, "connection"@);
        assert forall|k: int| 0 <= k < rl.len() implies relation_list_ok(#[trigger] rl[k]) by {
            assert(keys_failure(rl[k], relation_keys()) is None);
        }
        assert(relations_ok(*input));
        if r is Ok {
            assert forall|k: int| 0 <= k < cl.len() implies connection_list_ok(#[trigger] cl[k]) by {
                assert(keys_failure(cl[k], connection_keys()) is None);
            }
        } else {
            let k = choose|k: int| 0 <= k < cl.len() && (#[trigger] keys_failure(cl[k], connection_keys())) is Some;
            assert(!connection_list_ok(cl[k]));
        }
    }
    r
}

proof fn lemma_relation_keys(ms: Seq<MetaList>)
    ensures
        forall|k: int| 0 <= k < ms.len() ==> ((#[trigger] keys_failure(ms[k], relation_keys())) is None
            <==> relation_list_ok(ms[k])),
{
    assert forall|k: int| 0 <= k < ms.len() implies ((#[trigger] keys_failure(ms[k], relation_keys())) is None
        <==> relation_list_ok(ms[k])) by {
        reveal_with_fuel(keys_failure, 6);
        let ks = relation_keys();
        assert(ks.drop_first() =~= seq!["from"@, "to"@, "target_dto"@, "target_model"@]);
        assert(ks.drop_first().drop_first() =~= seq!["to"@, "target_dto"@, "target_model"@]);
        assert(ks.drop_first().drop_first().drop_first() =~= seq!["target_dto"@, "target_model"@]);
        assert(ks.drop_first().drop_first().drop_first().drop_first() =~= seq!["target_model"@]);
        assert(ks.drop_first().drop_first().drop_first().drop_first().drop_first() =~= Seq::<Seq<char>>::empty());
    }
}

proof fn lemma_connection_keys(ms: Seq<MetaList>)
    ensures
        forall|k: int| 0 <= k < ms.len() ==> ((#[trigger] keys_failure(ms[k], connection_keys())) is None
            <==> connection_list_ok(ms[k])),
{
    assert forall|k: int| 0 <= k < ms.len() implies ((#[trigger] keys_failure(ms[k], connection_keys())) is None
        <==> connection_list_ok(ms[k])) by {
        reveal_with_fuel(keys_failure, 6);
        let ks = connection_keys();
        assert(ks.drop_first() =~= seq!["target_dto"@, "target_model"@, "from"@, "to"@]);
        assert(ks.drop_first().drop_first() =~= seq!["target_model"@, "from"@, "to"@]);
        assert(ks.drop_first().drop_first().drop_first() =~= seq!["from"@, "to"@]);
        assert(ks.drop_first().drop_first().drop_first().drop_first() =~= seq!["to"@]);
        assert(ks.drop_first().drop_first().drop_first().drop_first().drop_first() =~= Seq::<Seq<char>>::empty());
    }
}

} // verus!
