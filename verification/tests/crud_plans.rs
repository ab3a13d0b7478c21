use crud_macros::crud::crud_expand;
use crud_macros::crud::filter::filter_expand;
use crud_macros::crud::from::from_expand;
use crud_macros::crud::helper as crud_helper;
use crud_macros::crud::resolver::authorizer::default_authorizer_expand;
use crud_macros::crud::resolver::hook::default_hook_expand;
use crud_macros::crud::resolver::mutation::{mutation_expand, mutation_expand_with, UpdateType};
use crud_macros::crud::resolver::query::{query_expand, query_expand_with};
use crud_macros::crud::resolver::resolver_expand;
use crud_macros::crud::resolver::subscription::{subscription_expand, subscription_expand_with};
use crud_macros::crud::sort::sort_expand;
use crud_macros::syntax::{
    Attribute, Data, DeriveInput, Field, Fields, GenericArgument, Lit, Meta, MetaList, NestedMeta,
    Path, PathArguments, PathSegment, Type, TypePath,
};

fn seg(name: &str) -> PathSegment {
    PathSegment { ident: name.to_string(), arguments: PathArguments::Empty }
}

fn ident_path(name: &str) -> Path {
    Path { leading_colon: false, segments: vec![seg(name)] }
}

fn simple_type(name: &str) -> Type {
    Type::Path(TypePath { qself: false, path: ident_path(name), tokens: name.to_string() })
}

fn chrono_type() -> Type {
    Type::Path(TypePath {
        qself: false,
        path: Path { leading_colon: false, segments: vec![seg("chrono"), seg("NaiveDateTime")] },
        tokens: "chrono :: NaiveDateTime".to_string(),
    })
}

fn option_of(inner: Type, tokens: &str) -> Type {
    Type::Path(TypePath {
        qself: false,
        path: Path {
            leading_colon: false,
            segments: vec![PathSegment {
                ident: "Option".to_string(),
                arguments: PathArguments::AngleBracketed(vec![GenericArgument::Type(inner)]),
            }],
        },
        tokens: tokens.to_string(),
    })
}

fn nv(key: &str, value: &str) -> NestedMeta {
    NestedMeta::NameValue(ident_path(key), Lit::Str(value.to_string()))
}

fn flag(key: &str) -> NestedMeta {
    NestedMeta::Path(ident_path(key))
}

fn list_attr(name: &str, nested: Vec<NestedMeta>) -> Attribute {
    Attribute {
        path: ident_path(name),
        meta: Some(Meta::List(MetaList { path: ident_path(name), nested })),
    }
}

fn field(name: &str, ty: Type, attrs: Vec<Attribute>) -> Field {
    Field { ident: name.to_string(), ty, attrs }
}

fn named_struct(name: &str, attrs: Vec<Attribute>, fields: Vec<Field>) -> DeriveInput {
    DeriveInput { ident: name.to_string(), attrs, data: Data::Struct(Fields::Named(fields)) }
}

/// The `Author` item of the original fixtures.
fn author() -> DeriveInput {
    named_struct(
        "Author",
        vec![list_attr(
            "crud",
            vec![
                nv("model", "entity::author"),
                nv("hook", "AuthorHook::default()"),
                flag("subscribable"),
                flag("deletable"),
            ],
        )],
        vec![
            field("id", simple_type("i32"), vec![]),
            field(
                "name",
                simple_type("String"),
                vec![list_attr("crud", vec![flag("creatable"), flag("updatable")])],
            ),
            field("created_at", simple_type("NaiveDateTime"), vec![]),
            field(
                "updated_at",
                option_of(simple_type("NaiveDateTime"), "Option < NaiveDateTime >"),
                vec![],
            ),
        ],
    )
}

/// The `Author` item of the original `derive` test: no hook, not subscribable, not deletable.
fn plain_author() -> DeriveInput {
    named_struct(
        "Author",
        vec![list_attr("crud", vec![nv("model", "entity::author")])],
        vec![
            field("id", simple_type("i32"), vec![]),
            field(
                "name",
                simple_type("String"),
                vec![list_attr("crud", vec![flag("creatable"), flag("updatable")])],
            ),
        ],
    )
}

#[test]
fn names_of_an_item() {
    let a = author();
    assert_eq!(crud_helper::get_field_name(&a), "AuthorField");
    assert_eq!(crud_helper::get_sort_name(&a), "AuthorSort");
    assert_eq!(crud_helper::get_filter_name(&a), "AuthorFilter");
    assert_eq!(crud_helper::get_model(&a), "entity::author");
    assert_eq!(crud_helper::get_default_hook_name(&a), "_DefaultHookAuthor");
    assert_eq!(crud_helper::get_default_hook_constructor(&a), "_DefaultHookAuthor::new()");
    assert_eq!(crud_helper::get_default_authorizer_name(&a), "_DefaultAuthorizerAuthor");
    assert_eq!(
        crud_helper::get_default_authorizer_constructor(&a),
        "_DefaultAuthorizerAuthor::new()"
    );
}

#[test]
fn hook_and_authorizer_constructors() {
    let a = author();
    assert!(crud_helper::has_customized_hook(&a));
    assert_eq!(crud_helper::get_hook_constructor(&a), "AuthorHook::default()");
    assert!(!crud_helper::has_customized_authorizer(&a));
    assert_eq!(crud_helper::get_authorizer_constructor(&a), "_DefaultAuthorizerAuthor::new()");
    let p = plain_author();
    assert!(!crud_helper::has_customized_hook(&p));
    assert_eq!(crud_helper::get_hook_constructor(&p), "_DefaultHookAuthor::new()");
}

#[test]
fn custom_filter_and_authorizer_names() {
    let a = named_struct(
        "Author",
        vec![list_attr(
            "crud",
            vec![nv("model", "m"), nv("filter", "MyFilter"), nv("authorizer", "Auth::new()")],
        )],
        vec![],
    );
    assert_eq!(crud_helper::get_filter_name(&a), "MyFilter");
    assert_eq!(crud_macros::helper::get_filter_name(&a), "MyFilter");
    assert!(crud_helper::has_customized_authorizer(&a));
    assert_eq!(crud_helper::get_authorizer_constructor(&a), "Auth::new()");
}

#[test]
fn default_hook_only_where_a_hook_is_named() {
    let a = author();
    let h = default_hook_expand(&a).expect("a hook is named");
    assert_eq!(h.name, "_DefaultHookAuthor");
    assert_eq!(h.model, "entity::author");
    assert!(default_hook_expand(&plain_author()).is_none());
}

#[test]
fn default_authorizer_only_where_none_is_named() {
    assert_eq!(default_authorizer_expand(&author()), Some("_DefaultAuthorizerAuthor".to_string()));
    let a = named_struct(
        "Author",
        vec![list_attr("crud", vec![nv("model", "m"), nv("authorizer", "A::new()")])],
        vec![],
    );
    assert_eq!(default_authorizer_expand(&a), None);
}

#[test]
fn crud_filter_table() {
    assert_eq!(crud_helper::get_filter_by_type("String"), "StringFilter");
    assert_eq!(crud_helper::get_filter_by_type("i32"), "IntFilter");
    assert_eq!(crud_helper::get_filter_by_type("bool"), "BooleanFilter");
    assert_eq!(crud_helper::get_filter_by_type("DateTime"), "NaiveDateFilter");
    assert_eq!(crud_helper::get_filter_by_type("chrono::NaiveDateTime"), "NaiveDateFilter");
}

#[test]
fn filter_of_the_author() {
    let plan = filter_expand(&author()).expect("the struct has fields");
    assert_eq!(plan.filter_name, "AuthorFilter");
    let got: Vec<(String, String, String)> = plan
        .fields
        .iter()
        .map(|f| (f.name.clone(), f.column.clone(), f.filter.clone()))
        .collect();
    assert_eq!(
        got,
        vec![
            ("id".to_string(), "entity::author::Column::Id".to_string(), "IntFilter".to_string()),
            (
                "name".to_string(),
                "entity::author::Column::Name".to_string(),
                "StringFilter".to_string()
            ),
            (
                "created_at".to_string(),
                "entity::author::Column::CreatedAt".to_string(),
                "DateTimeFilter".to_string()
            ),
            (
                "updated_at".to_string(),
                "entity::author::Column::UpdatedAt".to_string(),
                "DateTimeFilter".to_string()
            ),
        ]
    );
}

#[test]
fn filter_of_a_chrono_path_and_of_no_fields() {
    let a = named_struct(
        "Post",
        vec![list_attr("crud", vec![nv("model", "entity::post")])],
        vec![field("at", chrono_type(), vec![])],
    );
    let plan = filter_expand(&a).unwrap();
    assert_eq!(plan.fields[0].filter, "DateTimeFilter");
    let empty = named_struct("Post", vec![list_attr("crud", vec![nv("model", "m")])], vec![]);
    assert!(filter_expand(&empty).is_none());
}

#[test]
fn sort_of_the_author() {
    let plan = sort_expand(&author());
    assert_eq!(plan.field_name, "AuthorField");
    assert_eq!(plan.sort_name, "AuthorSort");
    assert_eq!(plan.model, "entity::author");
    assert_eq!(plan.columns, vec!["Id", "Name", "CreatedAt", "UpdatedAt"]);
}

#[test]
fn filter_and_sort_name_the_same_columns() {
    let a = author();
    let f = filter_expand(&a).unwrap();
    let s = sort_expand(&a);
    for (i, ff) in f.fields.iter().enumerate() {
        assert_eq!(ff.column, format!("{}::Column::{}", s.model, s.columns[i]));
    }
}

#[test]
fn from_of_the_author() {
    let plan = from_expand(&author());
    assert_eq!(plan.name, "Author");
    assert_eq!(plan.model, "entity::author");
    assert_eq!(plan.fields, vec!["id", "name", "created_at", "updated_at"]);
}

#[test]
fn query_of_the_author() {
    // The list field of the original `simple_crud` test is `authors`.
    let q = query_expand(&author());
    assert_eq!(q.name, "Author");
    assert_eq!(q.query_name, "AuthorQuery");
    assert_eq!(q.list_fn_name, "authors");
    assert_eq!(q.filter_name, "AuthorFilter");
    assert_eq!(q.sort_name, "AuthorSort");
    assert_eq!(q.authorizer_constructor, "_DefaultAuthorizerAuthor::new()");
    assert_eq!(q.model, "entity::author");
}

#[test]
fn query_with_a_given_plural_lowercases_it() {
    let q = query_expand_with(&author(), "AuThOrS");
    assert_eq!(q.list_fn_name, "authors");
}

#[test]
fn mutation_of_the_author() {
    // The original `simple_crud` test calls `createAuthor`, `updateAuthors` and `deleteAuthors`.
    let m = mutation_expand(&author()).expect("the author is mutable");
    assert_eq!(m.name, "Author");
    assert_eq!(m.mutation_name, "AuthorMutation");
    assert_eq!(m.model, "entity::author");
    assert_eq!(m.filter_name, "AuthorFilter");
    let c = m.create.expect("name is creatable");
    assert_eq!(c.fn_name, "create_author");
    assert_eq!(c.input_name, "AuthorInput");
    assert_eq!(c.fields.len(), 1);
    assert_eq!((c.fields[0].index, c.fields[0].name.as_str()), (1, "name"));
    let u = m.update.expect("name is updatable");
    assert_eq!(u.fn_name, "update_authors");
    assert_eq!(u.input_name, "AuthorUpdate");
    assert_eq!(u.fields.len(), 1);
    assert_eq!(u.fields[0].index, 1);
    assert_eq!(u.fields[0].name, "name");
    assert!(u.fields[0].wrapper == UpdateType::Optional);
    assert_eq!(m.delete, Some("delete_authors".to_string()));
}

#[test]
fn mutation_of_an_optional_updatable_field() {
    let a = named_struct(
        "Note",
        vec![list_attr("crud", vec![nv("model", "n")])],
        vec![
            field("a", simple_type("i32"), vec![list_attr("crud", vec![flag("creatable")])]),
            field(
                "b",
                option_of(simple_type("String"), "Option < String >"),
                vec![list_attr("crud", vec![flag("updatable")])],
            ),
        ],
    );
    let m = mutation_expand_with(&a, "Notes").unwrap();
    let c = m.create.unwrap();
    assert_eq!(c.fields.len(), 1);
    assert_eq!(c.fields[0].index, 0);
    let u = m.update.unwrap();
    assert_eq!(u.fn_name, "update_notes");
    assert_eq!(u.fields.len(), 1);
    assert_eq!(u.fields[0].index, 1);
    assert!(u.fields[0].wrapper == UpdateType::MaybeUndefined);
    assert_eq!(m.delete, None);
}

#[test]
fn no_mutation_without_flags() {
    let a = named_struct(
        "Note",
        vec![list_attr("crud", vec![nv("model", "n")])],
        vec![field("a", simple_type("i32"), vec![])],
    );
    assert!(mutation_expand(&a).is_none());
}

#[test]
fn subscription_of_the_author() {
    let s = subscription_expand(&author());
    assert_eq!(s.name, "Author");
    assert_eq!(s.subscription_name, "AuthorSubscription");
    let st = s.stream.expect("the author is subscribable");
    assert_eq!(st.stream_name, "stream_authors");
    assert_eq!(st.filter_name, "AuthorFilter");
    assert_eq!(st.model, "entity::author");
    assert_eq!(st.authorizer_constructor, "_DefaultAuthorizerAuthor::new()");
    // Without `subscribable` the type is still emitted, with no stream field.
    let p = subscription_expand(&plain_author());
    assert_eq!(p.subscription_name, "AuthorSubscription");
    assert!(p.stream.is_none());
    assert!(subscription_expand_with(&plain_author(), "x").stream.is_none());
}

#[test]
fn crud_of_the_plain_author() {
    let plan = crud_expand(&plain_author());
    assert_eq!(plan.filter.unwrap().fields.len(), 2);
    assert_eq!(plan.sort.columns, vec!["Id", "Name"]);
    assert_eq!(plan.from.fields, vec!["id", "name"]);
    assert_eq!(plan.resolver.query.list_fn_name, "authors");
    let m = plan.resolver.mutation.unwrap();
    assert!(m.create.is_some() && m.update.is_some() && m.delete.is_none());
    assert_eq!(plan.resolver.subscription.subscription_name, "AuthorSubscription");
    assert!(plan.resolver.subscription.stream.is_none());
    let r = resolver_expand(&plain_author());
    assert_eq!(r.query.query_name, "AuthorQuery");
}

#[test]
fn resolvers_filter_by_the_emitted_filter() {
    let a = author();
    let f = filter_expand(&a).unwrap();
    let r = resolver_expand(&a);
    assert_eq!(r.query.filter_name, f.filter_name);
    assert_eq!(r.mutation.as_ref().unwrap().filter_name, f.filter_name);
    assert_eq!(r.subscription.stream.as_ref().unwrap().filter_name, f.filter_name);
    assert_eq!(r.query.model, "entity::author");
}

#[test]
fn default_authorizer_plan_names_the_called_constructor() {
    // The CRUD derive does not write this plan out; the plan and the call agree on the name.
    let a = author();
    let name = default_authorizer_expand(&a).unwrap();
    let q = query_expand(&a);
    assert_eq!(q.authorizer_constructor, format!("{}::new()", name));
}

/// The item of the original `crud` test expands to `AuthorQuery`, `AuthorMutation` and
/// `AuthorSubscription`, which the test merges into its schema.
#[test]
fn crud() {
    let a = plain_author();
    assert!(crud_macros::validate::check_crud_input(&a).is_ok());
    let plan = crud_expand(&a);
    assert_eq!(plan.resolver.query.query_name, "AuthorQuery");
    assert_eq!(plan.resolver.mutation.unwrap().mutation_name, "AuthorMutation");
    assert_eq!(plan.resolver.subscription.subscription_name, "AuthorSubscription");
    assert!(plan.resolver.subscription.stream.is_none());
}

/// The GraphQL fields that the original `simple_crud` test calls: `createAuthor(input: {name})`,
/// `updateAuthors(filter, update: {name})`, `authors`, `deleteAuthors(filter)`.
#[test]
fn simple_crud() {
    let a = author();
    assert!(crud_macros::validate::check_crud_input(&a).is_ok());
    let plan = crud_expand(&a);
    let m = plan.resolver.mutation.unwrap();
    let c = m.create.unwrap();
    assert_eq!(c.fn_name, "create_author");
    assert_eq!(c.fields.iter().map(|f| f.name.as_str()).collect::<Vec<_>>(), vec!["name"]);
    let u = m.update.unwrap();
    assert_eq!(u.fn_name, "update_authors");
    assert_eq!(u.fields.iter().map(|f| f.name.as_str()).collect::<Vec<_>>(), vec!["name"]);
    assert_eq!(m.delete.unwrap(), "delete_authors");
    assert_eq!(plan.resolver.query.list_fn_name, "authors");
    let f = plan.filter.unwrap();
    assert_eq!(f.fields[0].name, "id");
    assert_eq!(f.fields[0].filter, "IntFilter");
}

#[test]
fn filter_sort_and_from_cover_the_same_fields() {
    let a = author();
    let f = filter_expand(&a).unwrap();
    let s = sort_expand(&a);
    let c = from_expand(&a);
    assert_eq!(f.fields.len(), c.fields.len());
    assert_eq!(s.columns.len(), c.fields.len());
    for i in 0..c.fields.len() {
        assert_eq!(f.fields[i].name, c.fields[i]);
    }
    assert_eq!(c.fields[2], "created_at");
    assert_eq!(s.columns[2], "CreatedAt");
}
