//! The subscription type: `{Name}Subscription`, with one field that streams the items where
//! the item is subscribable. The type is emitted for every item, so that a schema can merge it
//! whether or not the item streams.

use vstd::prelude::*;
use crate::syntax::DeriveInput;
use crate::helper::{filter_name_of, has_flag, list_value};
use crate::crud::helper::{
    first_crud_list, get_authorizer_constructor, get_filter_name, get_flag, get_metas, get_model,
    has_first_model,
};
use crate::crud::resolver::query::authorizer_constructor_of;
use crate::text::{concat, lowercase, plural_of, pluralize, to_lowercase};

verus! {

/// The resolver `{stream_name}(filter: {filter_name}) -> Stream<Item = {name}>` over
/// `{model}::Entity`, limited by the authorizer that `{authorizer_constructor}` builds.
pub struct StreamPlan {
    pub stream_name: String,
    pub model: String,
    pub filter_name: String,
    pub authorizer_constructor: String,
}

/// `struct {subscription_name}` and its subscription object, which holds the stream resolver
/// where the item is subscribable and no field otherwise.
pub struct SubscriptionPlan {
    pub name: String,
    pub subscription_name: String,
    pub stream: Option<StreamPlan>,
}

/// The subscription plan of an item, given the plural form of its name.
pub open spec fn subscription_plan_matches(r: SubscriptionPlan, input: DeriveInput, plural: Seq<char>) -> bool {
    &&& r.name@ == input.ident@
    &&& r.subscription_name@ == input.ident@ + "Subscription"@
    &&& (r.stream is Some <==> has_flag(first_crud_list(input).nested@, "subscribable"@))
    &&& (r.stream matches Some(st) ==> {
        &&& st.stream_name@ == lowercase("stream_"@ + plural)
        &&& st.model@ == list_value(first_crud_list(input), "model"@)->0
        &&& st.filter_name@ == filter_name_of(input, first_crud_list(input))
        &&& st.authorizer_constructor@ == authorizer_constructor_of(input)
    })
}

/// The subscription type of an item whose name has the plural form `plural`; it streams the
/// items where the item is subscribable.
pub fn subscription_expand_with(input: &DeriveInput, plural: &str) -> (r: SubscriptionPlan)
    requires
        has_first_model(*input),
    ensures
        subscription_plan_matches(r, *input, plural@),
{
    let metas = match get_metas(&input.attrs) {
        Some(m) => m,
        None => vstd::pervasive::unreached(),
    };
    let subscribable = get_flag(metas, "subscribable");
    let subscription_name = concat(input.ident.as_str(), "Subscription");
    let stream_name = to_lowercase(concat("stream_", plural).as_str());
    let model = get_model(input);
    let filter_name = get_filter_name(input);
    let authorizer_constructor = get_authorizer_constructor(input);
    let stream = if subscribable {
        Some(StreamPlan { stream_name, model, filter_name, authorizer_constructor })
    } else {
        None
    };
    SubscriptionPlan { name: input.ident.clone(), subscription_name, stream }
}

/// The subscription type of an item; its stream field is `stream_` and the plural of the
/// item's name, lowercased.
pub fn subscription_expand(input: &DeriveInput) -> (r: SubscriptionPlan)
    requires
        has_first_model(*input),
    ensures
        exists|plural: Seq<char>|
            plural_of(input.ident@, 2, false, plural) && subscription_plan_matches(r, *input, plural),
{
    let plural = pluralize(input.ident.as_str(), 2, false);
    subscription_expand_with(input, plural.as_str())
}

} // verus!
