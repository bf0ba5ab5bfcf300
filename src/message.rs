use vstd::prelude::*;

verus! {

/// Who authored a message of the transcript.
#[derive(Clone, Copy, Debug, PartialEq, Eq, Structural)]
pub enum MessageRole {
    System,
    User,
    Assistant,
}

/// One entry of a conversation: its author and its text.
#[derive(Clone, Debug)]
pub struct Message {
    pub role: MessageRole,
    pub content: String,
}

/// The mathematical value of a message.
pub ghost struct MessageView {
    pub role: MessageRole,
    pub content: Seq<char>,
}

impl View for Message {
    type V = MessageView;

    open spec fn view(&self) -> MessageView {
        MessageView { role: self.role, content: self.content@ }
    }
}

/// The view of every message of a log, in order.
pub open spec fn log_view(log: Seq<Message>) -> Seq<MessageView> {
    log.map_values(|m: Message| m@)
}

impl Message {
    pub fn new(role: MessageRole, content: String) -> (r: Message)
        ensures
            r.role == role,
            r.content@ == content@,
    {
        Message { role, content }
    }

    /// A deep copy of the message.
    pub fn duplicate(&self) -> (r: Message)
        ensures
            r@ == self@,
    {
        Message { role: self.role, content: self.content.clone() }
    }
}

impl PartialEq for Message {
    fn eq(&self, other: &Message) -> (r: bool)
        ensures
            r == (self@ == other@),
    {
        self.role == other.role && self.content == other.content
    }
}

impl vstd::std_specs::cmp::PartialEqSpecImpl for Message {
    open spec fn obeys_eq_spec() -> bool {
        true
    }

    open spec fn eq_spec(&self, other: &Message) -> bool {
        self@ == other@
    }
}

/// A deep copy of a whole log.
pub fn copy_log(log: &Vec<Message>) -> (r: Vec<Message>)
    ensures
        log_view(r@) == log_view(log@),
{
    let mut r: Vec<Message> = Vec::new();
    let mut i: usize = 0;
    while i < log.len()
        invariant
            i <= log@.len(),
            r@.len() == i,
            forall|j: int| 0 <= j < i ==> (#[trigger] r@[j])@ == log@[j]@,
        decreases log@.len() - i,
    {
        r.push(log[i].duplicate());
        i = i + 1;
    }
    assert(log_view(r@) =~= log_view(log@));
    r
}

} // verus!
