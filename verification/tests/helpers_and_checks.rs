use crud_macros::helper::{
    extract_type_from_option, get_crud_metas, get_field_name, get_filter_by_type, get_filter_name,
    get_flag, get_meta_lists, get_model, get_sort_name, get_str_literal, get_struct_fields,
    get_value, is_option_path,
};
use crud_macros::crud::helper::{get_metas, get_value as crud_get_value, get_flag as crud_get_flag};
use crud_macros::hook::hook_expand;
use crud_macros::authorizer::authorizer_expand;
use crud_macros::relation::relation_expand;
use crud_macros::relation::relation::get_relations;
use crud_macros::relation::connection::get_connections;
use crud_macros::validate::{check_crud_input, check_model, check_relation_input, ExpandError};
use crud_macros::syntax::{
    Attribute, Data, DeriveInput, Field, Fields, GenericArgument, Lit, Meta, MetaList, NestedMeta,
    Path, PathArguments, PathSegment, Type, TypePath,
};

fn seg(name: &str) -> PathSegment {
    PathSegment { ident: name.to_string(), arguments: PathArguments::Empty }
}

fn ident_path(name: &str) -> Path {
    Path { leading_colon: false, segments: vec![seg(name)] }
}

fn simple_type(name: &str) -> Type {
    Type::Path(TypePath { qself: false, path: ident_path(name), tokens: name.to_string() })
}

fn chrono_type() -> Type {
    Type::Path(TypePath {
        qself: false,
        path: Path { leading_colon: false, segments: vec![seg("chrono"), seg("NaiveDateTime")] },
        tokens: "chrono :: NaiveDateTime".to_string(),
    })
}

fn option_of(inner: Type, tokens: &str) -> Type {
    Type::Path(TypePath {
        qself: false,
        path: Path {
            leading_colon: false,
            segments: vec![PathSegment {
                ident: "Option".to_string(),
                arguments: PathArguments::AngleBracketed(vec![GenericArgument::Type(inner)]),
            }],
        },
        tokens: tokens.to_string(),
    })
}

fn nv(key: &str, value: &str) -> NestedMeta {
    NestedMeta::NameValue(ident_path(key), Lit::Str(value.to_string()))
}

fn flag(key: &str) -> NestedMeta {
    NestedMeta::Path(ident_path(key))
}

fn list_attr(name: &str, nested: Vec<NestedMeta>) -> Attribute {
    Attribute {
        path: ident_path(name),
        meta: Some(Meta::List(MetaList { path: ident_path(name), nested })),
    }
}

fn field(name: &str, ty: Type, attrs: Vec<Attribute>) -> Field {
    Field { ident: name.to_string(), ty, attrs }
}

fn named_struct(name: &str, attrs: Vec<Attribute>, fields: Vec<Field>) -> DeriveInput {
    DeriveInput { ident: name.to_string(), attrs, data: Data::Struct(Fields::Named(fields)) }
}


fn crud_input(nested: Vec<NestedMeta>, fields: Vec<Field>) -> DeriveInput {
    named_struct("Post", vec![list_attr("crud", nested)], fields)
}

fn message_of(r: Result<(), ExpandError>) -> String {
    match r {
        Ok(()) => "ok".to_string(),
        Err(e) => e.message(),
    }
}

#[test]
fn is_ident_needs_one_plain_segment() {
    assert!(ident_path("crud").is_ident("crud"));
    assert!(!ident_path("crud").is_ident("cru"));
    let two = Path { leading_colon: false, segments: vec![seg("a"), seg("crud")] };
    assert!(!two.is_ident("crud"));
    let lead = Path { leading_colon: true, segments: vec![seg("crud")] };
    assert!(!lead.is_ident("crud"));
    let args = Path {
        leading_colon: false,
        segments: vec![PathSegment { ident: "crud".to_string(), arguments: PathArguments::Parenthesized }],
    };
    assert!(!args.is_ident("crud"));
}

#[test]
fn flags_and_values() {
    let m = MetaList {
        path: ident_path("crud"),
        nested: vec![
            flag("deletable"),
            NestedMeta::NameValue(ident_path("model"), Lit::Other),
            nv("model", "entity::post"),
            nv("model", "second"),
            NestedMeta::List(ident_path("subscribable")),
            NestedMeta::Lit(Lit::Str("creatable".to_string())),
        ],
    };
    assert!(get_flag(&m, "deletable"));
    assert!(!get_flag(&m, "subscribable"));
    assert!(!get_flag(&m, "creatable"));
    assert!(!get_flag(&m, "model"));
    assert!(crud_get_flag(&m, "deletable"));
    assert_eq!(get_value(&m, "model"), Ok("entity::post".to_string()));
    assert_eq!(crud_get_value(&m, "model"), Ok("entity::post".to_string()));
    assert_eq!(
        get_value(&m, "hook"),
        Err("hook not specified in crud attribute".to_string())
    );
    assert_eq!(
        get_value(&m, "deletable"),
        Err("deletable not specified in crud attribute".to_string())
    );
}

#[test]
fn meta_lists_in_order() {
    let attrs = vec![
        list_attr("relation", vec![nv("name", "a")]),
        list_attr("crud", vec![nv("model", "m")]),
        Attribute { path: ident_path("serde"), meta: None },
        list_attr("relation", vec![nv("name", "b")]),
    ];
    let lists = get_meta_lists(&attrs, "relation");
    assert_eq!(lists.len(), 2);
    assert_eq!(get_value(lists[0], "name"), Ok("a".to_string()));
    assert_eq!(get_value(lists[1], "name"), Ok("b".to_string()));
    assert_eq!(get_meta_lists(&attrs, "connection").len(), 0);
    let c = get_crud_metas(&attrs).unwrap();
    assert_eq!(get_value(c, "model"), Ok("m".to_string()));
}

#[test]
fn first_crud_list_agrees_with_all_crud_lists() {
    let attrs = vec![
        list_attr("serde", vec![]),
        list_attr("crud", vec![nv("model", "first")]),
        list_attr("crud", vec![nv("model", "second")]),
    ];
    let a = get_crud_metas(&attrs).unwrap();
    let b = get_metas(&attrs).unwrap();
    assert_eq!(get_value(a, "model"), Ok("first".to_string()));
    assert_eq!(get_value(b, "model"), Ok("first".to_string()));
    assert!(get_crud_metas(&vec![]).is_none());
    assert!(get_metas(&vec![]).is_none());
}

#[test]
fn names_from_the_top_level_helpers() {
    let p = crud_input(vec![nv("model", "entity::post")], vec![]);
    assert_eq!(get_filter_name(&p), "PostFilter");
    assert_eq!(get_field_name(&p), "PostField");
    assert_eq!(get_sort_name(&p), "PostSort");
    assert_eq!(get_model(&p), "entity::post");
    assert_eq!(get_struct_fields(&p).len(), 0);
    assert_eq!(get_str_literal("author"), "\"author\"");
}

#[test]
fn filter_table() {
    for t in ["i32", "i64", "u32", "u64", "isize", "usize"] {
        assert_eq!(get_filter_by_type(t), "IntFilter");
    }
    assert_eq!(get_filter_by_type("String"), "StringFilter");
    assert_eq!(get_filter_by_type("bool"), "BooleanFilter");
    assert_eq!(get_filter_by_type("DateTime"), "DateTimeFilter");
    assert_eq!(get_filter_by_type("NaiveDateTime"), "DateTimeFilter");
    assert_eq!(get_filter_by_type("chrono :: NaiveDateTime"), "DateTimeFilter");
}

#[test]
fn option_types() {
    let inner = simple_type("String");
    let o = option_of(simple_type("String"), "Option < String >");
    match extract_type_from_option(&o) {
        Some(Type::Path(tp)) => assert_eq!(tp.tokens, "String"),
        _ => panic!("Option<String> holds String"),
    }
    assert!(extract_type_from_option(&inner).is_none());
    let std_opt = Type::Path(TypePath {
        qself: false,
        path: Path {
            leading_colon: true,
            segments: vec![
                seg("std"),
                seg("option"),
                PathSegment {
                    ident: "Option".to_string(),
                    arguments: PathArguments::AngleBracketed(vec![GenericArgument::Type(simple_type("i32"))]),
                },
            ],
        },
        tokens: ":: std :: option :: Option < i32 >".to_string(),
    });
    assert!(extract_type_from_option(&std_opt).is_some());
    let vec_ty = Type::Path(TypePath {
        qself: false,
        path: Path {
            leading_colon: false,
            segments: vec![PathSegment {
                ident: "Vec".to_string(),
                arguments: PathArguments::AngleBracketed(vec![GenericArgument::Type(simple_type("i32"))]),
            }],
        },
        tokens: "Vec < i32 >".to_string(),
    });
    assert!(extract_type_from_option(&vec_ty).is_none());
    let lifetime_first = Type::Path(TypePath {
        qself: false,
        path: Path {
            leading_colon: false,
            segments: vec![PathSegment {
                ident: "Option".to_string(),
                arguments: PathArguments::AngleBracketed(vec![GenericArgument::Other]),
            }],
        },
        tokens: "Option < 'a >".to_string(),
    });
    assert!(extract_type_from_option(&lifetime_first).is_none());
    let qualified = Type::Path(TypePath { qself: true, path: ident_path("Option"), tokens: "Option".to_string() });
    assert!(extract_type_from_option(&qualified).is_none());
    assert!(extract_type_from_option(&Type::Other).is_none());
}

#[test]
fn option_paths() {
    let segs = vec![seg("std"), seg("option"), seg("Option")];
    assert!(is_option_path(&segs));
    assert!(is_option_path(&vec![seg("core"), seg("option"), seg("Option")]));
    assert!(is_option_path(&vec![seg("Option")]));
    assert!(!is_option_path(&vec![seg("option"), seg("Option")]));
    assert!(!is_option_path(&vec![seg("std|option"), seg("Option")]));
    assert!(!is_option_path(&vec![]));
}

#[test]
fn hook_and_authorizer_derives() {
    let p = crud_input(vec![nv("model", "entity::post")], vec![]);
    let h = hook_expand(&p);
    assert_eq!(h.name, "Post");
    assert_eq!(h.model, "entity::post");
    assert_eq!(authorizer_expand(&p), "Post");
}

/// The `Post` item of the original fixtures, with its relations and connection.
fn post() -> DeriveInput {
    named_struct(
        "Post",
        vec![
            list_attr(
                "relation",
                vec![
                    nv("name", "author"),
                    nv("target_dto", "super::author::Author"),
                    nv("target_model", "entity::author"),
                    nv("from", "author_id"),
                    nv("to", "id"),
                ],
            ),
            list_attr(
                "relation",
                vec![
                    nv("name", "parent"),
                    nv("target_dto", "Post"),
                    nv("target_model", "entity::post"),
                    nv("from", "parent_id"),
                    nv("to", "id"),
                    flag("nullable"),
                ],
            ),
            list_attr(
                "connection",
                vec![
                    nv("name", "children"),
                    nv("target_dto", "Post"),
                    nv("target_model", "entity::post"),
                    nv("from", "id"),
                    nv("to", "parent_id"),
                ],
            ),
            list_attr("crud", vec![nv("model", "entity::post"), flag("subscribable"), flag("deletable")]),
        ],
        vec![field("id", simple_type("i32"), vec![])],
    )
}

#[test]
fn relations_of_the_post() {
    let p = post();
    let rs = get_relations(&p).unwrap();
    assert_eq!(rs.len(), 2);
    assert_eq!(rs[0].fn_name, "author");
    assert_eq!(rs[0].fn_name_lit, "\"author\"");
    assert_eq!(rs[0].from, "author_id");
    assert_eq!(rs[0].to, "Id");
    assert_eq!(rs[0].target_dto, "super::author::Author");
    assert_eq!(rs[0].target_model, "entity::author");
    assert!(!rs[0].nullable);
    assert_eq!(rs[1].fn_name, "parent");
    assert!(rs[1].nullable);
    let cs = get_connections(&p).unwrap();
    assert_eq!(cs.len(), 1);
    assert_eq!(cs[0].fn_name, "children");
    assert_eq!(cs[0].filter_name, "PostFilter");
    assert_eq!(cs[0].sort_name, "PostSort");
    assert_eq!(cs[0].target_model, "entity::post");
    assert_eq!(cs[0].from, "id");
    assert_eq!(cs[0].to, "ParentId");
    let e = relation_expand(&p).unwrap().unwrap();
    assert_eq!(e.name, "Post");
    assert_eq!((e.relations.len(), e.connections.len()), (2, 1));
    assert!(relation_expand(&crud_input(vec![], vec![])).unwrap().is_none());
}

#[test]
fn accepted_inputs() {
    assert_eq!(message_of(check_relation_input(&post())), "ok");
    assert_eq!(message_of(check_crud_input(&post())), "ok");
    assert_eq!(message_of(check_model(&post())), "ok");
}

#[test]
fn refused_crud_inputs() {
    let unparsable = named_struct(
        "Post",
        vec![Attribute { path: ident_path("crud"), meta: None }],
        vec![],
    );
    assert_eq!(message_of(check_crud_input(&unparsable)), "crud attribute cannot be parsed");
    let not_list = named_struct(
        "Post",
        vec![
            list_attr("crud", vec![nv("model", "m")]),
            Attribute { path: ident_path("crud"), meta: Some(Meta::Path(ident_path("crud"))) },
        ],
        vec![],
    );
    assert_eq!(message_of(check_crud_input(&not_list)), "crud attribute must be a list");
    let none = named_struct("Post", vec![], vec![]);
    assert_eq!(message_of(check_crud_input(&none)), "crud attribute not found");
    assert!(matches!(check_model(&none), Err(ExpandError::MissingCrudAttribute)));
    let no_model = crud_input(vec![flag("deletable")], vec![]);
    assert_eq!(message_of(check_crud_input(&no_model)), "model not specified in crud attribute");
    let an_enum = DeriveInput {
        ident: "E".to_string(),
        attrs: vec![list_attr("crud", vec![nv("model", "m")])],
        data: Data::Enum,
    };
    assert_eq!(message_of(check_crud_input(&an_enum)), "only struct can be derived");
    let tuple = DeriveInput {
        ident: "T".to_string(),
        attrs: vec![list_attr("crud", vec![nv("model", "m")])],
        data: Data::Struct(Fields::Unnamed),
    };
    assert_eq!(message_of(check_crud_input(&tuple)), "fields must be named for struct");
    let other_type = crud_input(vec![nv("model", "m")], vec![field("r", Type::Other, vec![])]);
    assert_eq!(message_of(check_crud_input(&other_type)), "type not supported");
    let vec_field = crud_input(
        vec![nv("model", "m")],
        vec![field("v", simple_type("f64"), vec![])],
    );
    assert_eq!(message_of(check_crud_input(&vec_field)), "cannot find filter for type f64");
    let field_not_list = crud_input(
        vec![nv("model", "m")],
        vec![field(
            "a",
            simple_type("i32"),
            vec![Attribute { path: ident_path("crud"), meta: Some(Meta::Path(ident_path("crud"))) }],
        )],
    );
    assert_eq!(message_of(check_crud_input(&field_not_list)), "crud attribute must be a list");
}

#[test]
fn refused_updatable_field() {
    // A type that is not a path has no filter, so the filter check refuses it first.
    let f = crud_input(
        vec![nv("model", "m")],
        vec![field("a", Type::Other, vec![list_attr("crud", vec![flag("updatable")])])],
    );
    assert_eq!(message_of(check_crud_input(&f)), "type not supported");
    // Inside an `Option`, the search type is a path while the field type need not be ...
    // both are paths here, so the input is accepted.
    let g = crud_input(
        vec![nv("model", "m")],
        vec![field(
            "a",
            option_of(simple_type("i32"), "Option < i32 >"),
            vec![list_attr("crud", vec![flag("updatable")])],
        )],
    );
    assert_eq!(message_of(check_crud_input(&g)), "ok");
    assert_eq!(ExpandError::UpdatableNotPath.message(), "field type must be path");
}

#[test]
fn refused_relation_inputs() {
    let missing_to = named_struct(
        "Post",
        vec![list_attr(
            "relation",
            vec![nv("name", "a"), nv("from", "b"), nv("target_dto", "c"), nv("target_model", "d")],
        )],
        vec![],
    );
    assert_eq!(message_of(check_relation_input(&missing_to)), "to not specified in crud attribute");
    let missing_name = named_struct(
        "Post",
        vec![
            list_attr("relation", vec![nv("from", "b")]),
            Attribute { path: ident_path("relation"), meta: None },
        ],
        vec![],
    );
    assert_eq!(message_of(check_relation_input(&missing_name)), "relation attribute cannot be parsed");
    let conn = named_struct(
        "Post",
        vec![list_attr(
            "connection",
            vec![nv("name", "a"), nv("target_dto", "c"), nv("from", "b"), nv("to", "x")],
        )],
        vec![],
    );
    assert_eq!(
        message_of(check_relation_input(&conn)),
        "target_model not specified in crud attribute"
    );
    let not_list = named_struct(
        "Post",
        vec![Attribute {
            path: ident_path("connection"),
            meta: Some(Meta::NameValue(ident_path("connection"), Lit::Other)),
        }],
        vec![],
    );
    assert_eq!(message_of(check_relation_input(&not_list)), "connection attribute must be a list");
}

#[test]
fn connection_uses_the_target_filter_and_sort() {
    let p = post();
    let c = &get_connections(&p).unwrap()[0];
    let f = crud_macros::crud::filter::filter_expand(&p).unwrap();
    let s = crud_macros::crud::sort::sort_expand(&p);
    assert_eq!(c.filter_name, f.filter_name);
    assert_eq!(c.sort_name, s.sort_name);
}

/// The original `many_to_one` test reads `author` (required) and `parent` (nullable) of posts.
#[test]
fn many_to_one() {
    let p = post();
    assert!(check_relation_input(&p).is_ok());
    let e = relation_expand(&p).unwrap().unwrap();
    let names: Vec<(&str, bool)> = e.relations.iter().map(|r| (r.fn_name.as_str(), r.nullable)).collect();
    assert_eq!(names, vec![("author", false), ("parent", true)]);
    assert_eq!(e.relations[0].fn_name_lit, "\"author\"");
    assert_eq!((e.relations[1].from.as_str(), e.relations[1].to.as_str()), ("parent_id", "Id"));
}

/// The original `one_to_many` test lists the `children` of a post.
#[test]
fn one_to_many() {
    let p = post();
    let e = relation_expand(&p).unwrap().unwrap();
    assert_eq!(e.connections.len(), 1);
    let c = &e.connections[0];
    assert_eq!(c.fn_name, "children");
    assert_eq!(c.target_dto, "Post");
    assert_eq!((c.from.as_str(), c.to.as_str()), ("id", "ParentId"));
}

#[test]
fn relation_values_are_printed_as_tokens() {
    let item = named_struct(
        "Post",
        vec![
            list_attr(
                "relation",
                vec![
                    nv("name", "author "),
                    nv("target_dto", "Author"),
                    nv("target_model", "entity::author"),
                    nv("from", "author_id"),
                    nv("to", "a::b"),
                ],
            ),
            list_attr(
                "connection",
                vec![
                    nv("name", "children"),
                    nv("target_dto", "Post "),
                    nv("target_model", "entity::post"),
                    nv("from", "id"),
                    nv("to", "parent_id"),
                ],
            ),
        ],
        vec![],
    );
    let e = relation_expand(&item).unwrap().unwrap();
    assert_eq!(e.relations[0].fn_name_lit, "\"author\"");
    assert_eq!(e.relations[0].to, "A::B");
    assert_eq!(e.connections[0].filter_name, "PostFilter");
    assert_eq!(e.connections[0].sort_name, "PostSort");
    assert_eq!(e.connections[0].to, "ParentId");
}

#[test]
fn unlexable_relation_values() {
    let bad_to = named_struct(
        "Post",
        vec![list_attr(
            "relation",
            vec![
                nv("name", "a"),
                nv("target_dto", "A"),
                nv("target_model", "m"),
                nv("from", "b"),
                nv("to", "\"open"),
            ],
        )],
        vec![],
    );
    assert!(check_relation_input(&bad_to).is_ok());
    match relation_expand(&bad_to) {
        Err(e) => assert_eq!(e.message(), "to value does not lex as tokens"),
        Ok(_) => panic!("an unterminated string does not lex"),
    }
    let bad_dto = named_struct(
        "Post",
        vec![list_attr(
            "connection",
            vec![
                nv("name", "a"),
                nv("target_dto", "(A"),
                nv("target_model", "m"),
                nv("from", "b"),
                nv("to", "c"),
            ],
        )],
        vec![],
    );
    assert!(matches!(get_connections(&bad_dto), Err(ExpandError::Unlexable(k)) if k == "target_dto"));
}
