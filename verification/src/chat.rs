use vstd::prelude::*;

use crate::host::signer_account_id;
use crate::message::{Message, MessageView};

verus! {

/// The append-only ledger of chat messages, in insertion order.
pub struct Chat {
    messages: Vec<Message>,
}

impl View for Chat {
    type V = Seq<MessageView>;

    closed spec fn view(&self) -> Seq<MessageView> {
        self.messages@.map_values(|m: Message| m@)
    }
}

impl Default for Chat {
    /// A fresh ledger holds no messages.
    fn default() -> (c: Self)
        ensures
            c@ == Seq::<MessageView>::empty(),
    {
        let c = Chat { messages: Vec::new() };
        proof {
            assert(c@ =~= Seq::<MessageView>::empty());
        }
        c
    }
}

impl Chat {
    /// The number of messages stored so far.
    pub fn get_total_messages(&self) -> (n: usize)
        ensures
            n == self@.len(),
    {
        self.messages.len()
    }

    /// Appends a message with an explicitly given submitting account.
    /// Prior entries keep their positions and values.
    pub fn push_message(&mut self, content: String, owner_id: String)
        ensures
            final(self)@ == old(self)@.push(
                MessageView { content: content@, owner_id: owner_id@ },
            ),
            final(self)@.len() == old(self)@.len() + 1,
            forall|i: int| 0 <= i < old(self)@.len() ==> final(self)@[i] == old(self)@[i],
    {
        let ghost m = MessageView { content: content@, owner_id: owner_id@ };
        let message_object = Message::new(content, owner_id);
        self.messages.push(message_object);
        proof {
            assert(self@ =~= old(self)@.push(m));
        }
    }

    /// Appends a message submitted by the calling account, as the host
    /// execution context reports it. Prior entries keep their positions
    /// and values; the new entry comes last and carries the given text.
    pub fn add_message(&mut self, message_content: String)
        ensures
            final(self)@.len() == old(self)@.len() + 1,
            forall|i: int| 0 <= i < old(self)@.len() ==> final(self)@[i] == old(self)@[i],
            final(self)@.last().content == message_content@,
            final(self)@ == old(self)@.push(final(self)@.last()),
    {
        let account_id = signer_account_id();
        self.push_message(message_content, account_id);
    }

    /// A copy of all stored messages, in insertion order.
    pub fn get_messages(&self) -> (r: Vec<Message>)
        ensures
            r@.len() == self@.len(),
            forall|i: int| 0 <= i < self@.len() ==> r@[i]@ == self@[i],
    {
        let mut r: Vec<Message> = Vec::new();
        let mut i: usize = 0;
        while i < self.messages.len()
            invariant
                i <= self.messages@.len(),
                r@.len() == i,
                forall|j: int| 0 <= j < i ==> r@[j]@ == self@[j],
            decreases self.messages@.len() - i,
        {
            r.push(self.messages[i].clone());
            i = i + 1;
        }
        r
    }
}

/// The ledger's view after appending each message of `added`, in order, to
/// a ledger whose view is `prior`. One append is one `Seq::push`, exactly
/// what `push_message` and `add_message` ensure of a single call.
pub open spec fn after_appends(prior: Seq<MessageView>, added: Seq<MessageView>) -> Seq<
    MessageView,
>
    decreases added.len(),
{
    if added.len() == 0 {
        prior
    } else {
        after_appends(prior.push(added.first()), added.drop_first())
    }
}

/// Sequential appends grow the ledger by exactly the number of appended
/// messages, never mutate or reorder the prior entries, and store the new
/// messages after them in insertion order.
pub proof fn lemma_after_appends(prior: Seq<MessageView>, added: Seq<MessageView>)
    ensures
        after_appends(prior, added) == prior + added,
        after_appends(prior, added).len() == prior.len() + added.len(),
        forall|i: int| 0 <= i < prior.len() ==> after_appends(prior, added)[i] == prior[i],
        forall|j: int|
            0 <= j < added.len() ==> after_appends(prior, added)[prior.len() + j] == added[j],
    decreases added.len(),
{
    if added.len() == 0 {
        assert(after_appends(prior, added) =~= prior + added);
    } else {
        lemma_after_appends(prior.push(added.first()), added.drop_first());
        assert(prior.push(added.first()) + added.drop_first() =~= prior + added);
    }
}

} // verus!
