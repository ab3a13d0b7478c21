//! The `Relation` derive: resolvers that load related items, one per `relation(...)` and one
//! per `connection(...)` attribute, added to the item's GraphQL object.

pub mod relation;
pub mod connection;

use vstd::prelude::*;
use crate::syntax::{DeriveInput, MetaList};
use crate::helper::{crud_meta_list, list_value, meta_lists};
use crate::crud::crud_input_ok;
use crate::crud::filter::{filter_plan_matches, FilterPlan};
use crate::crud::sort::{sort_plan_matches, SortPlan};
use self::relation::{get_relations, relation_matches, relations_ok, some_value_unlexable, RelationPlan};
use crate::validate::{ExpandError, Failure};
use crate::text::printed_tokens;
use self::connection::{
    connection_list_ok, connection_matches, connections_ok, get_connections, ConnectionPlan,
};

verus! {

/// `impl {name}` holding the relation and connection resolvers.
pub struct RelationExpansion {
    pub name: String,
    pub relations: Vec<RelationPlan>,
    pub connections: Vec<ConnectionPlan>,
}

/// The resolvers of the item's relations and connections; none where it has neither. Where the
/// lexer refuses a value that the plans print, the error of `get_relations` or
/// `get_connections`.
pub fn relation_expand(input: &DeriveInput) -> (r: Result<Option<RelationExpansion>, ExpandError>)
    requires
        relations_ok(*input),
        connections_ok(*input),
    ensures
        r matches Err(e) ==> {
            ||| e@ == Failure::Unlexable("name"@) && some_value_unlexable(
                meta_lists(input.attrs@, "relation"@),
                "name"@,
            )
            ||| e@ == Failure::Unlexable("to"@) && some_value_unlexable(
                meta_lists(input.attrs@, "relation"@),
                "to"@,
            )
            ||| e@ == Failure::Unlexable("target_dto"@) && some_value_unlexable(
                meta_lists(input.attrs@, "connection"@),
                "target_dto"@,
            )
            ||| e@ == Failure::Unlexable("to"@) && some_value_unlexable(
                meta_lists(input.attrs@, "connection"@),
                "to"@,
            )
        },
        r matches Ok(o) ==> (o is None <==> meta_lists(input.attrs@, "relation"@).len() == 0 && meta_lists(
            input.attrs@,
            "connection"@,
        ).len() == 0),
        r matches Ok(Some(e)) ==> {
            &&& e.name@ == input.ident@
            &&& e.relations@.len() == meta_lists(input.attrs@, "relation"@).len()
            &&& forall|i: int|
                0 <= i < e.relations@.len() ==> relation_matches(
                    #[trigger] e.relations@[i],
                    meta_lists(input.attrs@, "relation"@)[i],
                )
            &&& e.connections@.len() == meta_lists(input.attrs@, "connection"@).len()
            &&& forall|i: int|
                0 <= i < e.connections@.len() ==> connection_matches(
                    #[trigger] e.connections@[i],
                    meta_lists(input.attrs@, "connection"@)[i],
                )
        },
{
    let relations = match get_relations(input) {
        Ok(v) => v,
        Err(e) => {
            return Err(e);
        },
    };
    let connections = match get_connections(input) {
        Ok(v) => v,
        Err(e) => {
            return Err(e);
        },
    };
    if relations.len() > 0 || connections.len() > 0 {
        Ok(Some(RelationExpansion { name: input.ident.clone(), relations, connections }))
    } else {
        Ok(None)
    }
}

/// A connection to an item whose `CRUD` derive keeps the default filter name, and whose
/// `target_dto` value prints as that item's name, takes its filter and sort arguments in the
/// filter and sort inputs that the `CRUD` derive emits for that item.
pub proof fn lemma_connection_uses_target_inputs(
    c: ConnectionPlan,
    m: MetaList,
    target: DeriveInput,
    f: FilterPlan,
    s: SortPlan,
)
    requires
        connection_list_ok(m),
        connection_matches(c, m),
        crud_input_ok(target),
        filter_plan_matches(Some(f), target),
        sort_plan_matches(s, target),
        forall|t: Seq<char>|
            printed_tokens(list_value(m, "target_dto"@)->0, Some(t)) ==> t == target.ident@,
        list_value(crud_meta_list(target.attrs@)->0, "filter"@) is None,
    ensures
        c.filter_name@ == f.filter_name@,
        c.sort_name@ == s.sort_name@,
{
}

} // verus!
