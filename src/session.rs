use vstd::prelude::*;
use std::sync::Arc;
use crate::conversation::{is_failure_record, user_message, ConversationState};
use crate::message::{copy_log, log_view, Message, MessageRole, MessageView};

verus! {

#[verifier::external_type_specification]
#[verifier::external_body]
#[verifier::reject_recursive_types(T)]
pub struct ExMutex<T: ?Sized>(tokio::sync::Mutex<T>);

/// Relies on tokio::sync::Mutex::new: a new mutex, unlocked, around `state`.
#[verifier::external_body]
fn new_guarded(state: ConversationState) -> (r: tokio::sync::Mutex<ConversationState>) {
    tokio::sync::Mutex::new(state)
}

/// Relies on tokio::sync::Mutex::try_lock: it never waits, and fails while
/// another holder keeps the lock. On success the log is copied out and the
/// lock released. Whether it succeeds depends on the other holders, so
/// nothing is promised of the outcome.
#[verifier::external_body]
fn try_copy_history(m: &tokio::sync::Mutex<ConversationState>) -> (r: Option<Vec<Message>>) {
    match m.try_lock() {
        Ok(guard) => Some(guard.history.clone()),
        Err(_) => None,
    }
}

/// The one conversation shared by the redraw loop, which only peeks at it
/// without waiting, and by a submission task, which locks it while the
/// backend answers.
pub struct SharedSession {
    inner: Arc<tokio::sync::Mutex<ConversationState>>,
    initial: Ghost<Seq<MessageView>>,
}

impl SharedSession {
    /// The log handed to `new` when the session was opened. It records the
    /// conversation's start only: what the lock holds later (after a
    /// submission task has run) is not modelled.
    pub closed spec fn initial_log(&self) -> Seq<MessageView> {
        self.initial@
    }

    /// The lock that guards the conversation.
    pub closed spec fn lock_of(&self) -> Arc<tokio::sync::Mutex<ConversationState>> {
        self.inner
    }

    /// Puts `state` behind a fresh lock.
    pub fn new(state: ConversationState) -> (r: SharedSession)
        ensures
            r.initial_log() == state.log(),
    {
        let ghost initial = state.log();
        SharedSession { inner: Arc::new(new_guarded(state)), initial: Ghost(initial) }
    }

    /// Another handle on the same conversation, for a submission task.
    pub fn handle(&self) -> (r: Arc<tokio::sync::Mutex<ConversationState>>)
        ensures
            r == self.lock_of(),
    {
        self.inner.clone()
    }

    /// A copy of the committed log, or `None` while a submission holds the
    /// lock. Never waits.
    pub fn try_history(&self) -> (r: Option<Vec<Message>>) {
        try_copy_history(&self.inner)
    }
}

/// The last message of a log, if any.
pub open spec fn last_of(log: Seq<MessageView>) -> Option<MessageView> {
    if log.len() == 0 {
        None
    } else {
        Some(log.last())
    }
}

/// The value of what a peek at the session returned.
pub open spec fn snapshot_view(snapshot: Option<Vec<Message>>) -> Option<Seq<MessageView>> {
    match snapshot {
        Some(h) => Some(log_view(h@)),
        None => None,
    }
}

/// One reconciliation step: the rendered log after it, and whether new
/// messages arrived. The view is replaced by the session's log when that log
/// is at least as long and ends differently; otherwise it stays.
pub open spec fn reconciled(view: Seq<MessageView>, snapshot: Option<Seq<MessageView>>) -> (
    Seq<MessageView>,
    bool,
) {
    match snapshot {
        Some(h) => if view.len() <= h.len() && last_of(view) != last_of(h) {
            (h, true)
        } else {
            (view, false)
        },
        None => (view, false),
    }
}

fn same_last(a: &Vec<Message>, b: &Vec<Message>) -> (r: bool)
    ensures
        r == (last_of(log_view(a@)) == last_of(log_view(b@))),
{
    if a.len() == 0 || b.len() == 0 {
        a.len() == 0 && b.len() == 0
    } else {
        a[a.len() - 1] == b[b.len() - 1]
    }
}

/// Merges what a peek at the session returned into the rendered log `view`,
/// and says whether new messages arrived (which scrolls to the latest). The
/// rendered log never gets shorter.
pub fn reconcile(view: &mut Vec<Message>, snapshot: Option<Vec<Message>>) -> (r: bool)
    ensures
        (log_view(final(view)@), r) == reconciled(log_view(old(view)@), snapshot_view(snapshot)),
        final(view)@.len() >= old(view)@.len(),
{
    match snapshot {
        Some(h) => {
            if view.len() <= h.len() && !same_last(view, &h) {
                *view = copy_log(&h);
                true
            } else {
                false
            }
        },
        None => false,
    }
}

/// Reconciling a second time with nothing changed in between leaves the
/// rendered log as it was and reports no new message.
pub proof fn lemma_reconcile_idempotent(
    view: Seq<MessageView>,
    snapshot: Option<Seq<MessageView>>,
)
    ensures
        reconciled(reconciled(view, snapshot).0, snapshot) == (reconciled(view, snapshot).0, false),
{
}

/// A reconciliation never shortens the rendered log.
pub proof fn lemma_reconcile_never_shrinks(
    view: Seq<MessageView>,
    snapshot: Option<Seq<MessageView>>,
)
    ensures
        reconciled(view, snapshot).0.len() >= view.len(),
{
}


/// The log after one submission: the user's prompt, then what answered it.
pub open spec fn after_submission(
    log: Seq<MessageView>,
    prompt: Seq<char>,
    answer: MessageView,
) -> Seq<MessageView> {
    log.push(user_message(prompt)).push(answer)
}

/// The log after a series of submissions, each prompt answered by the reply
/// of the same index.
pub open spec fn after_submissions(
    log: Seq<MessageView>,
    prompts: Seq<Seq<char>>,
    answers: Seq<MessageView>,
) -> Seq<MessageView>
    decreases prompts.len(),
{
    if prompts.len() == 0 || answers.len() == 0 {
        log
    } else {
        after_submissions(
            after_submission(log, prompts[0], answers[0]),
            prompts.drop_first(),
            answers.drop_first(),
        )
    }
}

/// A successful submission adds exactly the prompt and the assistant's reply,
/// and the next reconciliation of a rendered log that showed the committed
/// log (or a prefix of it) and then the prompt brings it level with the
/// conversation, signalling new messages.
pub proof fn lemma_successful_submission(
    log: Seq<MessageView>,
    view: Seq<MessageView>,
    prompt: Seq<char>,
    reply: MessageView,
)
    requires
        reply.role == MessageRole::Assistant,
        view.len() <= log.len(),
    ensures
        after_submission(log, prompt, reply).len() == log.len() + 2,
        after_submission(log, prompt, reply).last() == reply,
        reconciled(view.push(user_message(prompt)), Some(after_submission(log, prompt, reply)))
            == (after_submission(log, prompt, reply), true),
{
}

/// Over any series of successful submissions the log grows by two messages
/// for each: what was there stays, and after it come, in order, each prompt
/// followed by its assistant reply.
pub proof fn lemma_submissions_grow_by_two(
    log: Seq<MessageView>,
    prompts: Seq<Seq<char>>,
    replies: Seq<MessageView>,
)
    requires
        prompts.len() == replies.len(),
        forall|i: int| 0 <= i < replies.len() ==> (#[trigger] replies[i]).role
            == MessageRole::Assistant,
    ensures
        after_submissions(log, prompts, replies).len() == log.len() + 2 * prompts.len(),
        forall|j: int|
            0 <= j < log.len() ==> #[trigger] after_submissions(log, prompts, replies)[j] == log[j],
        forall|i: int|
            0 <= i < prompts.len() ==> {
                &&& #[trigger] after_submissions(log, prompts, replies)[log.len() + 2 * i]
                    == user_message(prompts[i])
                &&& after_submissions(log, prompts, replies)[log.len() + 2 * i + 1] == replies[i]
                &&& after_submissions(log, prompts, replies)[log.len() + 2 * i + 1].role
                    == MessageRole::Assistant
            },
    decreases prompts.len(),
{
    if prompts.len() > 0 {
        let next = after_submission(log, prompts[0], replies[0]);
        let rest_p = prompts.drop_first();
        let rest_r = replies.drop_first();
        lemma_submissions_grow_by_two(next, rest_p, rest_r);
        let all = after_submissions(log, prompts, replies);
        assert(all == after_submissions(next, rest_p, rest_r));
        assert forall|j: int| 0 <= j < log.len() implies #[trigger] all[j] == log[j] by {
            assert(all[j] == next[j]);
        }
        assert forall|i: int| 0 <= i < prompts.len() implies {
            &&& #[trigger] all[log.len() + 2 * i] == user_message(prompts[i])
            &&& all[log.len() + 2 * i + 1] == replies[i]
            &&& all[log.len() + 2 * i + 1].role == MessageRole::Assistant
        } by {
            if i == 0 {
                assert(all[log.len() as int] == next[log.len() as int]);
                assert(all[log.len() as int + 1] == next[log.len() as int + 1]);
            } else {
                let k = i - 1;
                assert(rest_p[k] == prompts[i]);
                assert(rest_r[k] == replies[i]);
                assert(next.len() + 2 * k == log.len() + 2 * i);
                assert(all[next.len() + 2 * k] == user_message(rest_p[k]));
                assert(all[next.len() + 2 * k + 1] == rest_r[k]);
            }
        }
    }
}

/// A failed submission adds exactly the prompt and a system message with a
/// non-empty rendering of the error, and the next reconciliation shows both.
pub proof fn lemma_failed_submission(
    log: Seq<MessageView>,
    view: Seq<MessageView>,
    prompt: Seq<char>,
    failure: MessageView,
)
    requires
        is_failure_record(failure),
        view.len() <= log.len(),
    ensures
        after_submission(log, prompt, failure).len() == log.len() + 2,
        after_submission(log, prompt, failure).last().content.len() > 0,
        reconciled(view.push(user_message(prompt)), Some(after_submission(log, prompt, failure)))
            == (after_submission(log, prompt, failure), true),
{
}

} // verus!
