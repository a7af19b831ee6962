//! An addressed, polling mailbox: a FIFO of loadfree messages with an
//! identifier-based address for envelope routing.

use vstd::prelude::*;

use crate::messages::LoadfreeMessage;
use crate::tensor_types::MockTensor;

verus! {

/// An actor address: a unique identifier.
#[derive(Debug, PartialEq, Eq, Hash)]
pub struct Address(pub uuid::Uuid);

impl Address {
    pub fn new(uuid: uuid::Uuid) -> (a: Address)
        ensures
            a.0 == uuid,
    {
        Address(uuid)
    }

    pub fn into_aid(&self) -> (r: uuid::Uuid)
        ensures
            r == self.0,
    {
        self.0
    }
}

/// A message together with the address it is bound for.
#[derive(Debug, PartialEq, Eq)]
pub struct Envelope {
    pub msg: LoadfreeMessage<MockTensor>,
    pub receiver: Address,
}

/// A FIFO of loadfree messages.
#[derive(Debug, PartialEq, Eq)]
pub struct Mailbox {
    pub mails: Vec<LoadfreeMessage<MockTensor>>,
}

/// Anything whose backlog can be measured.
pub trait Len {
    fn len(&self) -> usize;

    fn is_empty(&self) -> bool;
}

impl Len for Mailbox {
    fn is_empty(&self) -> bool {
        self.mails.is_empty()
    }

    fn len(&self) -> usize {
        self.mails.len()
    }
}

impl Mailbox {
    pub fn new() -> (m: Self)
        ensures
            m.mails@ == Seq::<LoadfreeMessage<MockTensor>>::empty(),
    {
        Mailbox { mails: Vec::new() }
    }

    /// A copy of the backlog, oldest first.
    pub fn mails(&self) -> (r: Vec<LoadfreeMessage<MockTensor>>)
        ensures
            r@ == self.mails@,
    {
        let mut r: Vec<LoadfreeMessage<MockTensor>> = Vec::new();
        let mut i: usize = 0;
        while i < self.mails.len()
            invariant
                i <= self.mails.len(),
                r@ == self.mails@.take(i as int),
            decreases self.mails.len() - i,
        {
            r.push(self.mails[i]);
            i = i + 1;
            proof {
                assert(r@ =~= self.mails@.take(i as int));
            }
        }
        proof {
            assert(r@ =~= self.mails@);
        }
        r
    }

    /// Joins the back of the queue.
    pub fn enqueue(&mut self, msg: LoadfreeMessage<MockTensor>) -> (r: Result<(), String>)
        ensures
            final(self).mails@ == old(self).mails@.push(msg),
            r is Ok,
    {
        self.mails.push(msg);
        Ok(())
    }

    /// Takes the oldest message, if any.
    pub fn dequeue(&mut self) -> (r: Option<LoadfreeMessage<MockTensor>>)
        ensures
            match r {
                None => old(self).mails@.len() == 0 && *final(self) == *old(self),
                Some(m) => old(self).mails@.len() > 0 && m == old(self).mails@[0] && final(self).mails@ == old(self).mails@.drop_first(),
            },
    {
        if self.mails.is_empty() {
            None
        } else {
            let m = self.mails.remove(0);
            proof {
                assert(self.mails@ =~= old(self).mails@.drop_first());
            }
            Some(m)
        }
    }
}

} // verus!
