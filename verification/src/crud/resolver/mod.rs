//! The resolvers of the `CRUD` derive: a query that lists the items, mutations that create,
//! update and delete them, and a subscription that streams them.

pub mod query;
pub mod mutation;
pub mod subscription;
pub mod hook;
pub mod authorizer;

use vstd::prelude::*;
use crate::syntax::DeriveInput;
use crate::helper::list_value;
use crate::text::{lowercase, plural_of, pluralize};
use crate::crud::helper::first_crud_list;
use self::query::{query_expand_with, query_plan_matches, QueryPlan};
use self::mutation::{mutation_expand_with, mutation_input_ok, mutation_plan_matches, MutationPlan};
use self::subscription::{subscription_expand_with, subscription_plan_matches, SubscriptionPlan};

verus! {

/// The query, mutation and subscription resolvers of an item.
pub struct ResolverPlan {
    pub query: QueryPlan,
    pub mutation: Option<MutationPlan>,
    pub subscription: SubscriptionPlan,
}

/// The resolvers of an item, all named after one plural of the item's name that the
/// pluralizer gave.
pub fn resolver_expand(input: &DeriveInput) -> (r: ResolverPlan)
    requires
        mutation_input_ok(*input),
    ensures
        exists|p: Seq<char>| plural_of(input.ident@, 2, false, p) && query_plan_matches(r.query, *input, p),
        exists|p: Seq<char>|
            plural_of(input.ident@, 2, false, p) && mutation_plan_matches(r.mutation, *input, p),
        exists|p: Seq<char>|
            plural_of(input.ident@, 2, false, p) && subscription_plan_matches(r.subscription, *input, p),
        exists|p: Seq<char>|
            {
                &&& plural_of(input.ident@, 2, false, p)
                &&& query_plan_matches(r.query, *input, p)
                &&& mutation_plan_matches(r.mutation, *input, p)
                &&& subscription_plan_matches(r.subscription, *input, p)
            },
{
    let plural = pluralize(input.ident.as_str(), 2, false);
    let query = query_expand_with(input, plural.as_str());
    let mutation = mutation_expand_with(input, plural.as_str());
    let subscription = subscription_expand_with(input, plural.as_str());
    let r = ResolverPlan { query, mutation, subscription };
    assert(plural_of(input.ident@, 2, false, plural@) && query_plan_matches(r.query, *input, plural@));
    assert(plural_of(input.ident@, 2, false, plural@) && mutation_plan_matches(r.mutation, *input, plural@));
    assert(plural_of(input.ident@, 2, false, plural@) && subscription_plan_matches(
        r.subscription,
        *input,
        plural@,
    ));
    r
}

/// The resolvers of an item are named after one plural of its name: the list field is that
/// plural, the update and delete fields are `update_` and `delete_` before it, and the stream
/// field is `stream_` before it, each lowercased.
pub proof fn lemma_resolver_names_share_plural(input: DeriveInput, r: ResolverPlan, p: Seq<char>)
    requires
        query_plan_matches(r.query, input, p),
        mutation_plan_matches(r.mutation, input, p),
        subscription_plan_matches(r.subscription, input, p),
    ensures
        r.query.list_fn_name@ == lowercase(p),
        r.mutation matches Some(m) ==> (m.update matches Some(u) ==> u.fn_name@ == lowercase(
            "update_"@ + p,
        )),
        r.mutation matches Some(m) ==> (m.delete matches Some(d) ==> d@ == lowercase("delete_"@ + p)),
        r.subscription.stream matches Some(st) ==> st.stream_name@ == lowercase("stream_"@ + p),
{
}

/// The list query and the stream of an item are limited by the authorizer that the item names
/// (`authorizer = "..."` in its first `crud` list), and by its default authorizer,
/// `_DefaultAuthorizer{Name}::new()`, where it names none.
pub proof fn lemma_resolvers_use_item_authorizer(input: DeriveInput, r: ResolverPlan, pq: Seq<char>, ps: Seq<char>)
    requires
        query_plan_matches(r.query, input, pq),
        subscription_plan_matches(r.subscription, input, ps),
    ensures
        list_value(first_crud_list(input), "authorizer"@) matches Some(v) ==> {
            &&& r.query.authorizer_constructor@ == v
            &&& r.subscription.stream matches Some(st) ==> st.authorizer_constructor@ == v
        },
        list_value(first_crud_list(input), "authorizer"@) is None ==> {
            &&& r.query.authorizer_constructor@ == "_DefaultAuthorizer"@ + input.ident@ + "::new()"@
            &&& r.subscription.stream matches Some(st) ==> st.authorizer_constructor@ == "_DefaultAuthorizer"@
                + input.ident@ + "::new()"@
        },
{
}

} // verus!
