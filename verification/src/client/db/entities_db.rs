use vstd::prelude::*;
use crate::client::db::client::{insert_if_not_empty, Insertion, DATABASE, DATABASE_COLLECTIONS};
use crate::commons::entity::Entity;
use crate::utils::list::reversed;
use crate::utils::text::copy_text;

verus! {

/// One insert-or-replace: the stored entity whose network identifier is `id`
/// takes over every field of `entity`; where no entity has that identifier,
/// `entity` is inserted.
#[derive(Debug, Clone, PartialEq, Eq)]
pub struct Upsert {
    pub id: String,
    pub entity: Entity,
}

/// The insertion of `entities` into the entity store; none where there are
/// no entities.
pub fn insert_entities(entities: Vec<Entity>) -> (insertion: Option<Insertion<Entity>>)
    ensures
        entities@.len() == 0 ==> insertion is None,
        entities@.len() > 0 ==> insertion == Some(
            Insertion {
                database: DATABASE::MANSA,
                collection: DATABASE_COLLECTIONS::ENTITIES,
                documents: entities,
            },
        ),
{
    insert_if_not_empty(entities, DATABASE::MANSA, DATABASE_COLLECTIONS::ENTITIES)
}

/// One insert-or-replace for each entity, in the order of `entities`, each
/// under the entity's own network identifier. They do not depend on one
/// another and may be performed side by side.
pub fn insert_with_replace(entities: Vec<Entity>) -> (upserts: Vec<Upsert>)
    ensures
        upserts@.len() == entities@.len(),
        forall|i: int|
            0 <= i < entities@.len() ==> {
                &&& (#[trigger] upserts@[i]).id@ == entities@[i].id@
                &&& upserts@[i].entity == entities@[i]
            },
{
    let mut rest = reversed(entities);
    let mut upserts: Vec<Upsert> = Vec::new();
    while rest.len() > 0
        invariant
            rest@.len() + upserts@.len() == entities@.len(),
            forall|i: int|
                0 <= i < rest@.len() ==> #[trigger] rest@[i] == entities@[entities@.len() - 1 - i],
            forall|i: int|
                0 <= i < upserts@.len() ==> {
                    &&& (#[trigger] upserts@[i]).id@ == entities@[i].id@
                    &&& upserts@[i].entity == entities@[i]
                },
        decreases rest@.len(),
    {
        let entity = rest.pop().unwrap();
        upserts.push(Upsert { id: copy_text(&entity.id), entity });
    }
    upserts
}

} // verus!
