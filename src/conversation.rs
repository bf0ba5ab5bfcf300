use vstd::prelude::*;
use crate::message::{log_view, Message, MessageRole, MessageView};

verus! {

#[verifier::external_type_specification]
#[verifier::external_body]
pub struct ExChatError(chatgpt::err::Error);

/// Relies on the `Debug` that chatgpt derives for its error enum: the
/// pretty-printed rendering, which starts with the variant's name and so is
/// never empty.
#[verifier::external_body]
fn describe_error(error: &chatgpt::err::Error) -> (r: String)
    ensures
        r@.len() > 0,
{
    format!("{:#?}", error)
}

/// The completion model that conversations use.
pub const DEFAULT_ENGINE: &'static str = "gpt-3.5-turbo";

/// The log of one conversation and the backend it talks to: key, address and
/// model.
#[derive(Clone, Debug)]
pub struct ConversationState {
    pub api_key: String,
    pub api_url: String,
    pub engine_id: String,
    pub history: Vec<Message>,
}

/// The message that the user's prompt becomes.
pub open spec fn user_message(prompt: Seq<char>) -> MessageView {
    MessageView { role: MessageRole::User, content: prompt }
}

/// The message that seeds a conversation with a role's prompt.
pub open spec fn seed_message(prompt: Seq<char>) -> MessageView {
    MessageView { role: MessageRole::System, content: prompt }
}

/// A failure is recorded as a system message with a non-empty text.
pub open spec fn is_failure_record(m: MessageView) -> bool {
    m.role == MessageRole::System && m.content.len() > 0
}

impl ConversationState {
    /// The log as a sequence of message values.
    pub open spec fn log(&self) -> Seq<MessageView> {
        log_view(self.history@)
    }

    /// A fresh conversation, seeded with the role prompt `seed`.
    pub fn directed(api_key: String, api_url: String, engine_id: String, seed: String) -> (r:
        ConversationState)
        ensures
            r.api_key@ == api_key@,
            r.api_url@ == api_url@,
            r.engine_id@ == engine_id@,
            r.log() == seq![seed_message(seed@)],
    {
        let mut history: Vec<Message> = Vec::new();
        history.push(Message::new(MessageRole::System, seed));
        let r = ConversationState { api_key, api_url, engine_id, history };
        assert(r.log() =~= seq![seed_message(seed@)]);
        r
    }

    /// Appends the user's prompt, the first step of a submission.
    pub fn begin_submission(&mut self, prompt: String)
        ensures
            final(self).log() == old(self).log().push(user_message(prompt@)),
            final(self).api_key@ == old(self).api_key@,
            final(self).api_url@ == old(self).api_url@,
            final(self).engine_id@ == old(self).engine_id@,
    {
        self.history.push(Message::new(MessageRole::User, prompt));
        assert(final(self).log() =~= old(self).log().push(user_message(prompt@)));
    }

    /// Appends the backend's reply, the end of a successful submission.
    pub fn record_reply(&mut self, reply: Message)
        ensures
            final(self).log() == old(self).log().push(reply@),
            final(self).api_key@ == old(self).api_key@,
            final(self).api_url@ == old(self).api_url@,
            final(self).engine_id@ == old(self).engine_id@,
    {
        self.history.push(reply);
        assert(final(self).log() =~= old(self).log().push(reply@));
    }

    /// Appends a system message that renders `error`, the end of a failed
    /// submission; nothing before it changes.
    pub fn record_failure(&mut self, error: &chatgpt::err::Error)
        ensures
            final(self).log() == old(self).log().push(final(self).log().last()),
            is_failure_record(final(self).log().last()),
            final(self).api_key@ == old(self).api_key@,
            final(self).api_url@ == old(self).api_url@,
            final(self).engine_id@ == old(self).engine_id@,
    {
        let text = describe_error(error);
        self.history.push(Message::new(MessageRole::System, text));
        assert(final(self).log() =~= old(self).log().push(final(self).log().last()));
    }
}

} // verus!
