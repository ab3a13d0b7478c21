//! The `CRUD` derive: a filter input, a sort input, a conversion from the model, and the
//! query, mutation and subscription resolvers.

pub mod helper;
pub mod filter;
pub mod sort;
pub mod from;
pub mod resolver;

use vstd::prelude::*;
use crate::syntax::DeriveInput;
use crate::text::plural_of;
use crate::helper::{crud_meta_list, has_model, is_named_struct, model_of, struct_fields};
use self::helper::{first_crud_list, has_first_model, lemma_first_list_agrees};
use self::filter::{field_filter, filter_expand, filter_plan_matches, FilterPlan};
use self::sort::{sort_expand, sort_plan_matches, SortPlan};
use self::from::{from_expand, from_plan_matches, FromPlan};
use self::resolver::{resolver_expand, ResolverPlan};
use self::resolver::query::query_plan_matches;
use self::resolver::mutation::{field_has_flag, mutation_plan_matches};
use self::resolver::subscription::subscription_plan_matches;

verus! {

/// Everything the `CRUD` derive emits for an item.
pub struct CrudPlan {
    pub filter: Option<FilterPlan>,
    pub sort: SortPlan,
    pub from: FromPlan,
    pub resolver: ResolverPlan,
}

/// The inputs the `CRUD` derive accepts: every `crud` attribute of the item reads as a list and
/// the first holds a `model`; the item is a struct with named fields; each field's search type
/// has a filter; each field's first `crud` attribute reads as a list; each updatable field has
/// a path type.
pub open spec fn crud_input_ok(input: DeriveInput) -> bool {
    &&& has_model(input)
    &&& is_named_struct(input)
    &&& forall|i: int| 0 <= i < struct_fields(input).len() ==> (#[trigger] field_filter(struct_fields(input)[i])) is Some
    &&& forall|i: int|
        0 <= i < struct_fields(input).len() ==> helper::first_list_well_formed(
            (#[trigger] struct_fields(input)[i]).attrs@,
            "crud"@,
        )
    &&& forall|i: int|
        0 <= i < struct_fields(input).len() && field_has_flag(#[trigger] struct_fields(input)[i], "updatable"@)
            ==> struct_fields(input)[i].ty is Path
}

/// Where every `crud` attribute of an item reads as a list and one exists, the first `crud`
/// attribute and the first of all `crud` lists are the same list.
pub proof fn lemma_crud_lists_agree(input: DeriveInput)
    requires
        has_model(input),
    ensures
        has_first_model(input),
        first_crud_list(input) == crud_meta_list(input.attrs@)->0,
{
    lemma_first_list_agrees(input.attrs@, "crud"@);
}

/// Everything the `CRUD` derive emits for an item.
pub fn crud_expand(input: &DeriveInput) -> (r: CrudPlan)
    requires
        crud_input_ok(*input),
    ensures
        filter_plan_matches(r.filter, *input),
        sort_plan_matches(r.sort, *input),
        from_plan_matches(r.from, *input),
        exists|p: Seq<char>|
            plural_of(input.ident@, 2, false, p) && query_plan_matches(r.resolver.query, *input, p),
        exists|p: Seq<char>|
            plural_of(input.ident@, 2, false, p) && mutation_plan_matches(r.resolver.mutation, *input, p),
        exists|p: Seq<char>| plural_of(input.ident@, 2, false, p) && subscription_plan_matches(
            r.resolver.subscription,
            *input,
            p,
        ),
        exists|p: Seq<char>|
            {
                &&& plural_of(input.ident@, 2, false, p)
                &&& query_plan_matches(r.resolver.query, *input, p)
                &&& mutation_plan_matches(r.resolver.mutation, *input, p)
                &&& subscription_plan_matches(r.resolver.subscription, *input, p)
            },
{
    proof {
        lemma_crud_lists_agree(*input);
    }
    let filter = filter_expand(input);
    let sort = sort_expand(input);
    let from = from_expand(input);
    let resolver = resolver_expand(input);
    CrudPlan { filter, sort, from, resolver }
}

/// The filter input and the sort input of an item name the same model columns: the filter of
/// each field applies to the column that the sort variant of that field maps to.
pub proof fn lemma_filter_and_sort_columns_agree(input: DeriveInput, f: FilterPlan, s: SortPlan)
    requires
        crud_input_ok(input),
        filter_plan_matches(Some(f), input),
        sort_plan_matches(s, input),
    ensures
        f.fields@.len() == s.columns@.len(),
        forall|i: int|
            0 <= i < f.fields@.len() ==> (#[trigger] f.fields@[i]).column@ == s.model@ + "::Column::"@
                + s.columns@[i]@,
{
    lemma_crud_lists_agree(input);
    assert forall|i: int| 0 <= i < f.fields@.len() implies (#[trigger] f.fields@[i]).column@
        == s.model@ + "::Column::"@ + s.columns@[i]@ by {
        assert(s.columns@[i]@ == crate::text::pascal_case(struct_fields(input)[i].ident@));
    }
}

/// The filter input, the sort input and the conversion from the model cover the same fields,
/// in the same order: the filter and the conversion by the field's name, the sort by its name
/// in PascalCase.
pub proof fn lemma_plans_cover_the_same_fields(input: DeriveInput, f: FilterPlan, s: SortPlan, c: FromPlan)
    requires
        crud_input_ok(input),
        filter_plan_matches(Some(f), input),
        sort_plan_matches(s, input),
        from_plan_matches(c, input),
    ensures
        f.fields@.len() == c.fields@.len() == s.columns@.len(),
        forall|i: int|
            0 <= i < c.fields@.len() ==> (#[trigger] f.fields@[i]).name@ == c.fields@[i]@ && s.columns@[i]@
                == crate::text::pascal_case(c.fields@[i]@),
{
    assert forall|i: int| 0 <= i < c.fields@.len() implies (#[trigger] f.fields@[i]).name@ == c.fields@[i]@
        && s.columns@[i]@ == crate::text::pascal_case(c.fields@[i]@) by {
        assert(c.fields@[i]@ == struct_fields(input)[i].ident@);
        assert(s.columns@[i]@ == crate::text::pascal_case(struct_fields(input)[i].ident@));
    }
}

/// The query, the mutations and the subscription of an item filter by the filter input that
/// the derive emits for it, and read the model that the filter's columns belong to.
pub proof fn lemma_resolvers_use_emitted_filter(input: DeriveInput, f: FilterPlan, r: ResolverPlan)
    requires
        crud_input_ok(input),
        filter_plan_matches(Some(f), input),
        exists|p: Seq<char>| query_plan_matches(r.query, input, p),
        exists|p: Seq<char>| mutation_plan_matches(r.mutation, input, p),
        exists|p: Seq<char>| subscription_plan_matches(r.subscription, input, p),
    ensures
        r.query.filter_name@ == f.filter_name@,
        r.query.model@ == model_of(input),
        r.mutation matches Some(m) ==> m.filter_name@ == f.filter_name@ && m.model@ == model_of(input),
        r.subscription.stream matches Some(s) ==> s.filter_name@ == f.filter_name@ && s.model@ == model_of(
            input,
        ),
{
    lemma_crud_lists_agree(input);
    let pq = choose|p: Seq<char>| query_plan_matches(r.query, input, p);
    let pm = choose|p: Seq<char>| mutation_plan_matches(r.mutation, input, p);
    let ps = choose|p: Seq<char>| subscription_plan_matches(r.subscription, input, p);
    assert(query_plan_matches(r.query, input, pq));
    assert(mutation_plan_matches(r.mutation, input, pm));
    assert(subscription_plan_matches(r.subscription, input, ps));
}

} // verus!
