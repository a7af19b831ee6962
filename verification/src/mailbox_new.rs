//! The mailbox that owns the receive half of an actor's channel: it polls
//! the channel into a local FIFO and deals with one message at a time.

use vstd::prelude::*;

use crate::bindings;
use crate::typed_messages::{clone_msg, msg_like, TypedMessage};

verus! {

/// A FIFO of received messages, fed from the owned channel end.
#[derive(Debug)]
pub struct Mailbox {
    pub mails: Vec<TypedMessage>,
    pub rx: tokio::sync::mpsc::Receiver<TypedMessage>,
}

/// Anything whose backlog can be measured.
pub trait Len {
    fn len(&self) -> usize;

    fn is_empty(&self) -> bool;
}

impl Len for Mailbox {
    fn is_empty(&self) -> bool {
        self.mails.is_empty()
    }

    fn len(&self) -> usize {
        self.mails.len()
    }
}

impl Mailbox {
    pub fn new(rx: tokio::sync::mpsc::Receiver<TypedMessage>) -> (m: Self)
        ensures
            m.mails@ == Seq::<TypedMessage>::empty(),
    {
        Mailbox { mails: Vec::new(), rx }
    }

    /// A copy of the backlog, oldest first, message contents preserved. (A
    /// command may carry a `String`, known only by its characters, so the
    /// copy matches by content.)
    pub fn mails(&self) -> (r: Vec<TypedMessage>)
        ensures
            r@.len() == self.mails@.len(),
            forall|i: int| 0 <= i < r@.len() ==> msg_like(#[trigger] r@[i], self.mails@[i]),
    {
        let mut r: Vec<TypedMessage> = Vec::new();
        let mut i: usize = 0;
        while i < self.mails.len()
            invariant
                i <= self.mails.len(),
                r@.len() == i,
                forall|j: int| 0 <= j < i ==> msg_like(#[trigger] r@[j], self.mails@[j]),
            decreases self.mails.len() - i,
        {
            r.push(clone_msg(&self.mails[i]));
            i = i + 1;
        }
        r
    }

    /// Polls the channel once: a waiting message joins the backlog; an empty
    /// or closed channel is an error.
    pub fn receive(&mut self) -> (r: Result<(), String>)
        ensures
            match r {
                Ok(_) => final(self).mails@.len() == old(self).mails@.len() + 1
                    && final(self).mails@.take(old(self).mails@.len() as int) == old(self).mails@,
                Err(_) => final(self).mails@ == old(self).mails@,
            },
    {
        match bindings::try_recv(&mut self.rx) {
            bindings::TryRecv::Msg(m) => {
                proof {
                    assert(old(self).mails@.push(m).take(old(self).mails@.len() as int) =~= old(
                        self,
                    ).mails@);
                }
                self.enqueue(m)
            },
            bindings::TryRecv::Empty => Err("Error!".to_owned()),
            bindings::TryRecv::Closed => Err("Error!".to_owned()),
        }
    }

    /// Deals with the oldest message: reports which kind it was, or that the
    /// backlog is empty.
    pub fn deal(&mut self) -> (r: Result<String, String>)
        ensures
            old(self).mails@.len() == 0 ==> r is Err && final(self).mails@ == old(self).mails@,
            old(self).mails@.len() > 0 ==> final(self).mails@ == old(self).mails@.drop_first()
                && (r matches Ok(text) && text@ == match old(self).mails@[0] {
                TypedMessage::WorkloadMsg(_) => "Received WorkloadMsg"@,
                TypedMessage::SystemMsg(_) => "Received SystemMsg"@,
                TypedMessage::ActorMsg => "Received ActorMsg"@,
            }),
    {
        let deq = self.dequeue();
        match deq {
            None => Err("Dequeue an empty mailbox".to_owned()),
            Some(msg) => match msg {
                TypedMessage::WorkloadMsg(_) => Ok("Received WorkloadMsg".to_owned()),
                TypedMessage::SystemMsg(_) => Ok("Received SystemMsg".to_owned()),
                TypedMessage::ActorMsg => Ok("Received ActorMsg".to_owned()),
            },
        }
    }

    /// Joins the back of the backlog.
    pub fn enqueue(&mut self, msg: TypedMessage) -> (r: Result<(), String>)
        ensures
            final(self).mails@ == old(self).mails@.push(msg),
            final(self).rx == old(self).rx,
            r is Ok,
    {
        self.mails.push(msg);
        Ok(())
    }

    /// Takes the oldest message, if any.
    pub fn dequeue(&mut self) -> (r: Option<TypedMessage>)
        ensures
            match r {
                None => old(self).mails@.len() == 0 && final(self).mails@ == old(self).mails@,
                Some(m) => old(self).mails@.len() > 0 && m == old(self).mails@[0] && final(self).mails@ == old(self).mails@.drop_first(),
            },
    {
        if self.mails.is_empty() {
            None
        } else {
            let m = self.mails.remove(0);
            proof {
                assert(self.mails@ =~= old(self).mails@.drop_first());
            }
            Some(m)
        }
    }
}

} // verus!
