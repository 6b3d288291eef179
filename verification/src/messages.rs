//! A store of chat messages, oldest first.
use crate::processor::llm::{message_view, Message, MessageRole};
use vstd::prelude::*;

verus! {

/// Chat messages in the order they were added.
pub struct MessageStorage {
    messages: Vec<Message>,
}

impl MessageStorage {
    /// The stored messages, oldest first, as roles and texts.
    pub closed spec fn stored(&self) -> Seq<(MessageRole, Seq<char>)> {
        self.messages@.map_values(|m: Message| message_view(m))
    }

    /// An empty store.
    pub fn new() -> (s: Self)
        ensures
            s.stored() == Seq::<(MessageRole, Seq<char>)>::empty(),
    {
        let s = MessageStorage { messages: Vec::new() };
        proof {
            assert(s.stored() =~= Seq::<(MessageRole, Seq<char>)>::empty());
        }
        s
    }

    /// Adds a message after the others.
    pub fn add(&mut self, message: Message)
        ensures
            final(self).stored() == old(self).stored().push(message_view(message)),
    {
        let ghost m = message;
        self.messages.push(message);
        proof {
            assert(self.stored() =~= old(self).stored().push(message_view(m)));
        }
    }

    /// A copy of every message, oldest first.
    pub fn get_all(&self) -> (ms: Vec<Message>)
        ensures
            ms@.map_values(|m: Message| message_view(m)) == self.stored(),
    {
        let n = self.messages.len();
        let mut out: Vec<Message> = Vec::new();
        let mut i: usize = 0;
        while i < n
            invariant
                i <= n,
                n == self.messages@.len(),
                out@.len() == i,
                forall|k: int| 0 <= k < i ==> #[trigger] out@[k] == self.messages@[k],
            decreases n - i,
        {
            out.push(self.messages[i].copy());
            i = i + 1;
        }
        proof {
            assert(out@ =~= self.messages@);
        }
        out
    }

    /// Forgets every message.
    pub fn clear(&mut self)
        ensures
            final(self).stored() == Seq::<(MessageRole, Seq<char>)>::empty(),
    {
        self.messages = Vec::new();
        proof {
            assert(self.stored() =~= Seq::<(MessageRole, Seq<char>)>::empty());
        }
    }

    /// The number of messages.
    pub fn len(&self) -> (n: usize)
        ensures
            n == self.stored().len(),
    {
        self.messages.len()
    }

    /// Whether no message is stored.
    pub fn is_empty(&self) -> (b: bool)
        ensures
            b == (self.stored().len() == 0),
    {
        self.messages.len() == 0
    }
}

impl Default for MessageStorage {
    fn default() -> (s: Self)
        ensures
            s.stored() == Seq::<(MessageRole, Seq<char>)>::empty(),
    {
        MessageStorage::new()
    }
}

} // verus!
