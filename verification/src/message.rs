use vstd::prelude::*;

verus! {

/// A single chat message: its text and the account that submitted it.
/// Immutable once created.
pub struct Message {
    content: String,
    owner_id: String,
}

/// The mathematical value of a [`Message`]: both fields as character
/// sequences.
#[verifier::ext_equal]
pub ghost struct MessageView {
    pub content: Seq<char>,
    pub owner_id: Seq<char>,
}

impl View for Message {
    type V = MessageView;

    closed spec fn view(&self) -> MessageView {
        MessageView { content: self.content@, owner_id: self.owner_id@ }
    }
}

impl Message {
    /// Builds a message from its text and the submitting account.
    pub fn new(content: String, owner_id: String) -> (m: Message)
        ensures
            m@ == (MessageView { content: content@, owner_id: owner_id@ }),
    {
        Message { content, owner_id }
    }

    /// The message text.
    pub fn content(&self) -> (r: &String)
        ensures
            r@ == self@.content,
    {
        &self.content
    }

    /// The account that submitted the message.
    pub fn owner_id(&self) -> (r: &String)
        ensures
            r@ == self@.owner_id,
    {
        &self.owner_id
    }
}

impl Clone for Message {
    /// A clone has the same text and the same submitting account.
    fn clone(&self) -> (r: Self)
        ensures
            r@ == self@,
    {
        Message { content: self.content.clone(), owner_id: self.owner_id.clone() }
    }
}

} // verus!
