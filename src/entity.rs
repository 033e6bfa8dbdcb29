//! The client's record of the entities the server has told it about.

use vstd::prelude::*;
use crate::messages::ClientEntityId;

verus! {

#[derive(Clone, Copy, Debug, PartialEq, Eq, Structural)]
pub enum ClientEntityType {
    Character,
    Monster,
    Npc,
    ItemDrop,
}

/// An entity of the zone together with the server's number for it.
#[derive(Clone, Copy, Debug, PartialEq, Eq, Structural)]
pub struct ClientEntity {
    pub id: ClientEntityId,
    pub entity_type: ClientEntityType,
}

impl ClientEntity {
    pub fn new(id: ClientEntityId, entity_type: ClientEntityType) -> (r: ClientEntity)
        ensures
            r.id == id,
            r.entity_type == entity_type,
    {
        ClientEntity { id, entity_type }
    }
}

/// How many entity numbers a zone has.
pub const MAX_CLIENT_ENTITIES: usize = 4096;

/// Which local entity, of type `E`, stands for each server entity number.
pub struct ClientEntityList<E> {
    pub client_entities: Vec<Option<E>>,
    pub player_entity: Option<E>,
    pub player_entity_id: Option<ClientEntityId>,
    pub zone_id: Option<u16>,
}

impl<E: Copy> ClientEntityList<E> {
    /// One slot for each entity number.
    pub open spec fn wf(&self) -> bool {
        self.client_entities@.len() == MAX_CLIENT_ENTITIES
    }

    /// An empty list: no entity in any slot, no player, no zone.
    pub fn new() -> (r: ClientEntityList<E>)
        ensures
            r.wf(),
            forall|i: int| 0 <= i < MAX_CLIENT_ENTITIES ==> r.client_entities@[i] is None,
            r.player_entity is None,
            r.player_entity_id is None,
            r.zone_id is None,
    {
        let mut client_entities: Vec<Option<E>> = Vec::new();
        let mut i: usize = 0;
        while i < MAX_CLIENT_ENTITIES
            invariant
                i <= MAX_CLIENT_ENTITIES,
                client_entities@.len() == i,
                forall|j: int| 0 <= j < i ==> client_entities@[j] is None,
            decreases MAX_CLIENT_ENTITIES - i,
        {
            client_entities.push(None);
            i += 1;
        }
        ClientEntityList { client_entities, player_entity: None, player_entity_id: None, zone_id: None }
    }

    pub fn add(&mut self, id: ClientEntityId, entity: E)
        requires
            old(self).wf(),
            (id.0 as usize) < MAX_CLIENT_ENTITIES,
        ensures
            final(self).wf(),
            final(self).client_entities@ == old(self).client_entities@.update(id.0 as int, Some(entity)),
            final(self).player_entity == old(self).player_entity,
            final(self).player_entity_id == old(self).player_entity_id,
            final(self).zone_id == old(self).zone_id,
    {
        self.client_entities.set(id.0 as usize, Some(entity));
    }

    pub fn remove(&mut self, id: ClientEntityId)
        requires
            old(self).wf(),
            (id.0 as usize) < MAX_CLIENT_ENTITIES,
        ensures
            final(self).wf(),
            final(self).client_entities@ == old(self).client_entities@.update(id.0 as int, None),
            final(self).player_entity == old(self).player_entity,
            final(self).player_entity_id == old(self).player_entity_id,
            final(self).zone_id == old(self).zone_id,
    {
        self.client_entities.set(id.0 as usize, None);
    }

    /// Empties every slot; the player and zone stay.
    pub fn clear(&mut self)
        requires
            old(self).wf(),
        ensures
            final(self).wf(),
            forall|i: int| 0 <= i < MAX_CLIENT_ENTITIES ==> final(self).client_entities@[i] is None,
            final(self).player_entity == old(self).player_entity,
            final(self).player_entity_id == old(self).player_entity_id,
            final(self).zone_id == old(self).zone_id,
    {
        let mut i: usize = 0;
        while i < self.client_entities.len()
            invariant
                i <= MAX_CLIENT_ENTITIES,
                self.client_entities@.len() == MAX_CLIENT_ENTITIES,
                forall|j: int| 0 <= j < i ==> self.client_entities@[j] is None,
                self.player_entity == old(self).player_entity,
                self.player_entity_id == old(self).player_entity_id,
                self.zone_id == old(self).zone_id,
            decreases MAX_CLIENT_ENTITIES - i,
        {
            self.client_entities.set(i, None);
            i += 1;
        }
    }

    pub fn get(&self, id: ClientEntityId) -> (r: Option<E>)
        requires
            self.wf(),
            (id.0 as usize) < MAX_CLIENT_ENTITIES,
        ensures
            r == self.client_entities@[id.0 as int],
    {
        self.client_entities[id.0 as usize]
    }
}

impl<E: Copy> Default for ClientEntityList<E> {
    fn default() -> (r: ClientEntityList<E>)
        ensures
            r.wf(),
            forall|i: int| 0 <= i < MAX_CLIENT_ENTITIES ==> r.client_entities@[i] is None,
            r.player_entity is None,
            r.player_entity_id is None,
            r.zone_id is None,
    {
        ClientEntityList::new()
    }
}

} // verus!
