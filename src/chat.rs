use vstd::prelude::*;
use vstd::string::StrSliceExecFns;
use std::sync::Arc;
use crate::conversation::{seed_message, user_message, ConversationState, DEFAULT_ENGINE};
use crate::message::{log_view, Message, MessageRole, MessageView};
use crate::session::{
    after_submission, lemma_reconcile_idempotent, reconcile, reconciled, snapshot_view,
    SharedSession,
};
use crate::settings::{same_role, Role, Settings};

verus! {

/// Whether `c` has the Unicode White_Space property.
pub open spec fn is_white_space(c: char) -> bool {
    let n = c as u32;
    (0x9 <= n <= 0xD) || n == 0x20 || n == 0x85 || n == 0xA0 || n == 0x1680 || (0x2000 <= n
        <= 0x200A) || n == 0x2028 || n == 0x2029 || n == 0x202F || n == 0x205F || n == 0x3000
}

/// A text without its leading and trailing white space.
pub open spec fn trimmed(s: Seq<char>) -> Seq<char>
    decreases s.len(),
{
    if s.len() > 0 && is_white_space(s[0]) {
        trimmed(s.drop_first())
    } else if s.len() > 0 && is_white_space(s.last()) {
        trimmed(s.drop_last())
    } else {
        s
    }
}

/// Relies on str::trim: it removes the leading and trailing characters that
/// have the Unicode White_Space property.
#[verifier::external_body]
fn trim_text(s: &str) -> (r: String)
    ensures
        r@ == trimmed(s@),
{
    s.trim().to_owned()
}

/// A prompt is sent only when it takes more than one byte in UTF-8: two
/// characters or more, or a single one outside ASCII.
pub open spec fn worth_sending(t: Seq<char>) -> bool {
    t.len() >= 2 || (t.len() == 1 && t[0] as u32 >= 0x80)
}

/// Whether an already trimmed prompt is long enough to send.
pub fn is_worth_sending(t: &str) -> (r: bool)
    ensures
        r == worth_sending(t@),
{
    let n = t.unicode_len();
    if n >= 2 {
        true
    } else if n == 1 {
        let c = t.get_char(0);
        c as u32 >= 0x80
    } else {
        false
    }
}

/// A prompt handed to a submission task, with the session it goes to.
pub struct Submission {
    pub session: Arc<tokio::sync::Mutex<ConversationState>>,
    pub prompt: String,
}

/// The rendered log without the seed prompt `seed`: what the transcript shows.
pub open spec fn without_seed(log: Seq<MessageView>, seed: MessageView) -> Seq<MessageView>
    decreases log.len(),
{
    if log.len() == 0 {
        Seq::empty()
    } else if log.last() == seed {
        without_seed(log.drop_last(), seed)
    } else {
        without_seed(log.drop_last(), seed).push(log.last())
    }
}

/// What the rendered log is reconciled against, given a peek at the
/// conversation: while a prompt is in flight and the log has not grown past
/// `committed`, the prompt counts as its last message; otherwise the peek as
/// it is.
pub open spec fn seen_of(
    pending: Option<String>,
    committed: usize,
    peek: Option<Seq<MessageView>>,
) -> Option<Seq<MessageView>> {
    match peek {
        Some(h) => match pending {
            Some(p) => if h.len() <= committed {
                Some(h.push(user_message(p@)))
            } else {
                Some(h)
            },
            None => Some(h),
        },
        None => None,
    }
}

/// Whether the submission in flight has committed, as a peek shows it.
pub open spec fn peek_settles(
    pending: Option<String>,
    committed: usize,
    peek: Option<Seq<MessageView>>,
) -> bool {
    pending.is_some() && (peek matches Some(h) && h.len() > committed)
}

/// One merge of a peek into the client's state, from `before` to `after`,
/// returning `r`: the rendered log is reconciled against `seen_of` the peek;
/// the submission in flight ends, with `committed` set to the peeked length,
/// exactly when the peek settles it; nothing else changes.
pub open spec fn merge_step(
    before: ChatCore,
    after: ChatCore,
    r: bool,
    peek: Option<Seq<MessageView>>,
) -> bool {
    &&& (after.shown(), r) == reconciled(
        before.shown(),
        seen_of(before.pending, before.committed, peek),
    )
    &&& if peek_settles(before.pending, before.committed, peek) {
        &&& after.pending.is_none()
        &&& after.committed == peek.unwrap().len()
    } else {
        &&& after.pending == before.pending
        &&& after.committed == before.committed
    }
    &&& after.session == before.session
    &&& after.current_role == before.current_role
    &&& after.settings == before.settings
}

/// A peek that failed (a task holds the lock) changes nothing rendered and
/// signals no new message.
pub proof fn lemma_busy_peek_changes_nothing(before: ChatCore, after: ChatCore, r: bool)
    requires
        merge_step(before, after, r, None),
    ensures
        !r,
        after.shown() == before.shown(),
        after.pending == before.pending,
{
}

/// Merging the same peek twice in a row leaves the rendered log as the first
/// merge made it and signals no new message the second time.
pub proof fn lemma_merge_idempotent(
    a: ChatCore,
    b: ChatCore,
    c: ChatCore,
    r1: bool,
    r2: bool,
    peek: Option<Seq<MessageView>>,
)
    requires
        merge_step(a, b, r1, peek),
        merge_step(b, c, r2, peek),
    ensures
        !r2,
        c.shown() == b.shown(),
{
    lemma_reconcile_idempotent(a.shown(), seen_of(a.pending, a.committed, peek));
}

/// While the task has not committed, a peek keeps the user's own prompt as
/// the last message rendered.
pub proof fn lemma_prompt_stays_visible(
    before: ChatCore,
    after: ChatCore,
    r: bool,
    peek: Option<Seq<MessageView>>,
)
    requires
        before.wf(),
        before.pending.is_some(),
        !peek_settles(before.pending, before.committed, peek),
        merge_step(before, after, r, peek),
    ensures
        after.pending == before.pending,
        after.shown().last() == user_message(before.pending.unwrap()@),
{
}

/// Once the task has committed a prompt and its answer on top of the log
/// `committed_log`, and the rendered log showed a prefix of that log and then
/// the prompt, the next merge shows exactly the conversation's log, signals
/// new messages and ends the submission.
pub proof fn lemma_completed_submission_appears(
    before: ChatCore,
    after: ChatCore,
    r: bool,
    committed_log: Seq<MessageView>,
    shown_prefix: Seq<MessageView>,
    answer: MessageView,
)
    requires
        before.pending.is_some(),
        before.shown() == shown_prefix.push(user_message(before.pending.unwrap()@)),
        shown_prefix.len() <= committed_log.len(),
        committed_log.len() >= before.committed,
        answer.role != MessageRole::User,
        merge_step(
            before,
            after,
            r,
            Some(after_submission(committed_log, before.pending.unwrap()@, answer)),
        ),
    ensures
        r,
        after.shown() == after_submission(committed_log, before.pending.unwrap()@, answer),
        after.pending.is_none(),
{
}

/// The state that the client keeps across frames: its settings, the selected
/// role, the active conversation if any, the rendered log, the prompt of the
/// submission in flight if any, and how long the conversation's log was
/// known to be when that submission was handed out.
pub struct ChatCore {
    pub settings: Settings,
    pub current_role: Role,
    pub session: Option<SharedSession>,
    pub view: Vec<Message>,
    pub pending: Option<String>,
    pub committed: usize,
}

impl ChatCore {
    /// The rendered log as message values.
    pub open spec fn shown(&self) -> Seq<MessageView> {
        log_view(self.view@)
    }

    /// A submission in flight belongs to the active conversation, and its
    /// prompt is the last message rendered.
    pub open spec fn wf(&self) -> bool {
        self.pending matches Some(p) ==> {
            &&& self.session.is_some()
            &&& self.shown().len() > 0
            &&& self.shown().last() == user_message(p@)
        }
    }

    /// Starts with the first role of the list selected, no conversation and
    /// nothing rendered.
    pub fn new(settings: Settings) -> (r: ChatCore)
        requires
            settings.role_list@.len() > 0,
        ensures
            r.wf(),
            r.current_role@ == settings.role_list@[0]@,
            r.settings == settings,
            r.session.is_none(),
            r.pending.is_none(),
            r.view@.len() == 0,
    {
        let current_role = settings.role_list[0].duplicate();
        ChatCore {
            settings,
            current_role,
            session: None,
            view: Vec::new(),
            pending: None,
            committed: 0,
        }
    }

    /// Selects `role`. A role other than the current one (by name and
    /// prompt) discards the conversation, forgets any submission in flight
    /// and clears the rendered log; the current one changes nothing.
    pub fn select_role(&mut self, role: &Role)
        ensures
            !same_role(role@, old(self).current_role@) ==> {
                &&& final(self).current_role@ == role@
                &&& final(self).session.is_none()
                &&& final(self).pending.is_none()
                &&& final(self).view@.len() == 0
                &&& final(self).settings == old(self).settings
            },
            same_role(role@, old(self).current_role@) ==> *final(self) == *old(self),
            old(self).wf() ==> final(self).wf(),
    {
        if *role != self.current_role {
            self.current_role = role.duplicate();
            self.session = None;
            self.pending = None;
            self.view = Vec::new();
        }
    }

    /// Discards the conversation, forgets any submission in flight and clears
    /// the rendered log, keeping the role.
    pub fn reset(&mut self)
        ensures
            final(self).wf(),
            final(self).session.is_none(),
            final(self).pending.is_none(),
            final(self).view@.len() == 0,
            final(self).current_role == old(self).current_role,
            final(self).settings == old(self).settings,
    {
        self.session = None;
        self.pending = None;
        self.view = Vec::new();
    }

    /// A fresh conversation for the current role: the configured backend, and
    /// a log that holds the role's prompt alone.
    pub fn new_conversation(&self) -> (r: ConversationState)
        ensures
            r.api_key@ == self.settings.api_key@,
            r.api_url@ == self.settings.api_url@,
            r.engine_id@ == DEFAULT_ENGINE@,
            r.log() == seq![seed_message(self.current_role.prompt@)],
    {
        ConversationState::directed(
            self.settings.api_key.clone(),
            self.settings.api_url.clone(),
            String::from_str(DEFAULT_ENGINE),
            self.current_role.prompt.clone(),
        )
    }

    /// Whether `m` is the current role's seed prompt, which is not rendered.
    pub fn is_seed_prompt(&self, m: &Message) -> (r: bool)
        ensures
            r == (m@ == seed_message(self.current_role.prompt@)),
    {
        m.role == MessageRole::System && m.content == self.current_role.prompt
    }

    /// The messages that the transcript shows: the rendered log without the
    /// current role's seed prompt.
    pub fn visible_messages(&self) -> (r: Vec<Message>)
        ensures
            log_view(r@) == without_seed(self.shown(), seed_message(self.current_role.prompt@)),
    {
        let ghost seed = seed_message(self.current_role.prompt@);
        let mut r: Vec<Message> = Vec::new();
        let mut i: usize = 0;
        while i < self.view.len()
            invariant
                i <= self.view@.len(),
                seed == seed_message(self.current_role.prompt@),
                log_view(r@) == without_seed(self.shown().take(i as int), seed),
            decreases self.view@.len() - i,
        {
            let ghost before = r@;
            assert(self.shown().take(i as int + 1).drop_last() =~= self.shown().take(i as int));
            assert(self.shown().take(i as int + 1).last() == self.view@[i as int]@);
            if !self.is_seed_prompt(&self.view[i]) {
                r.push(self.view[i].duplicate());
                assert(log_view(r@) =~= log_view(before).push(self.view@[i as int]@));
            }
            i = i + 1;
        }
        assert(self.shown().take(self.view@.len() as int) =~= self.shown());
        r
    }

    /// Whether the client waits for the backend: a submission was handed out
    /// and its outcome not yet seen, or a task holds the conversation now
    /// (the busy indicator). Without a conversation nothing is pending.
    pub fn is_waiting_for_ai(&self) -> (r: bool)
        requires
            self.wf(),
        ensures
            self.pending.is_some() ==> r,
            self.session.is_none() ==> !r,
    {
        if self.pending.is_some() {
            return true;
        }
        match &self.session {
            Some(s) => s.try_history().is_none(),
            None => false,
        }
    }

    /// Merges what a peek at the conversation returned (`None`: a task held
    /// the lock) into the rendered log, and says whether new messages arrived.
    pub fn merge_peek(&mut self, peek: Option<Vec<Message>>) -> (r: bool)
        requires
            old(self).wf(),
        ensures
            final(self).wf(),
            merge_step(*old(self), *final(self), r, snapshot_view(peek)),
    {
        let mut done = false;
        let seen = match peek {
            None => None,
            Some(h) => match &self.pending {
                None => Some(h),
                Some(p) => {
                    if h.len() > self.committed {
                        done = true;
                        Some(h)
                    } else {
                        let mut h = h;
                        let ghost before = log_view(h@);
                        h.push(Message::new(MessageRole::User, p.clone()));
                        assert(log_view(h@) =~= before.push(user_message(p@)));
                        Some(h)
                    }
                },
            },
        };
        if done {
            self.pending = None;
            match &seen {
                Some(h) => {
                    self.committed = h.len();
                },
                None => {},
            }
        }
        reconcile(&mut self.view, seen)
    }

    /// Peeks at the conversation without waiting and merges what it holds
    /// into the rendered log. Returns whether new messages arrived, which is
    /// the frame's signal to scroll to the latest. Which peek comes back
    /// depends on the submission task, so the step is stated for whatever it
    /// was; without a conversation the peek is `None`.
    pub fn sync_new_message(&mut self) -> (r: bool)
        requires
            old(self).wf(),
        ensures
            final(self).wf(),
            exists|peek: Option<Seq<MessageView>>| merge_step(*old(self), *final(self), r, peek),
            old(self).session.is_none() ==> merge_step(*old(self), *final(self), r, None),
            final(self).view@.len() >= old(self).view@.len(),
    {
        let peek = match &self.session {
            Some(s) => s.try_history(),
            None => None,
        };
        let ghost seen = snapshot_view(peek);
        let r = self.merge_peek(peek);
        assert(merge_step(*old(self), *self, r, seen));
        r
    }

    /// Takes the text typed so far. Nothing is handed out while a submission
    /// is in flight, nor when the trimmed text is not worth sending; then
    /// nothing changes. Otherwise opens a conversation if none is active,
    /// renders the prompt at once, marks it in flight, empties the input and
    /// hands back the prompt with the lock of the active conversation.
    pub fn prepare_submission(&mut self, input: &mut String) -> (r: Option<Submission>)
        requires
            old(self).wf(),
        ensures
            final(self).wf(),
            r.is_some() == (old(self).pending.is_none() && worth_sending(trimmed(old(input)@))),
            r.is_none() ==> *final(self) == *old(self) && *final(input) == *old(input),
            r matches Some(sub) ==> {
                &&& sub.prompt@ == trimmed(old(input)@)
                &&& final(input)@.len() == 0
                &&& final(self).shown() == old(self).shown().push(user_message(sub.prompt@))
                &&& final(self).pending == Some(sub.prompt)
                &&& final(self).session.is_some()
                &&& sub.session == final(self).session.unwrap().lock_of()
                &&& old(self).session.is_some() ==> final(self).session == old(self).session
                    && final(self).committed == old(self).committed
                &&& old(self).session.is_none() ==> final(self).session.unwrap().initial_log()
                    == seq![seed_message(old(self).current_role.prompt@)] && final(self).committed
                    == 1
                &&& final(self).current_role == old(self).current_role
                &&& final(self).settings == old(self).settings
            },
    {
        if self.pending.is_some() {
            return None;
        }
        let prompt = trim_text(input.as_str());
        if !is_worth_sending(prompt.as_str()) {
            return None;
        }
        if self.session.is_none() {
            let state = self.new_conversation();
            self.session = Some(SharedSession::new(state));
            self.committed = 1;
        }
        let session = match &self.session {
            Some(s) => s.handle(),
            None => {
                return None;
            },
        };
        let ghost before = self.shown();
        self.view.push(Message::new(MessageRole::User, prompt.clone()));
        assert(self.shown() =~= before.push(user_message(prompt@)));
        self.pending = Some(prompt.clone());
        *input = String::new();
        Some(Submission { session, prompt })
    }
}

} // verus!
