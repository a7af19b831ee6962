//! An actor's sending context: the identifier of the destination actor and
//! the send half of its channel. The system keeps a table from identifiers
//! to send halves; to message a peer, an actor queries the table and sets
//! its context.

use vstd::prelude::*;

use crate::bindings;
use crate::typed_messages::TypedMessage;

verus! {

/// Where the next message goes.
pub struct Context {
    pub actor_id: uuid::Uuid,
    pub tx: tokio::sync::mpsc::Sender<TypedMessage>,
}

impl Context {
    pub fn new(id: uuid::Uuid, tx: tokio::sync::mpsc::Sender<TypedMessage>) -> (c: Self)
        ensures
            c.actor_id == id,
    {
        Context { actor_id: id, tx }
    }

    pub fn id(&self) -> (r: uuid::Uuid)
        ensures
            r == self.actor_id,
    {
        self.actor_id
    }

    pub fn set_context(&mut self, id: uuid::Uuid, tx: tokio::sync::mpsc::Sender<TypedMessage>)
        ensures
            final(self).actor_id == id,
    {
        self.actor_id = id;
        self.tx = tx;
    }

    /// Sends without blocking; a full or closed destination drops the
    /// message, as the underlying channel reports.
    pub fn send(&self, msg: TypedMessage) {
        let _ = bindings::try_send(&self.tx, msg);
    }
}

} // verus!
