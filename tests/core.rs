use std::time::Duration;

use oxidized_gpt::{
    is_worth_sending, reconcile, ChatCore, ConversationState, Message, MessageRole, Role,
    Settings, SharedSession, DEFAULT_API_URL, DEFAULT_ENGINE,
};

fn msg(role: MessageRole, text: &str) -> Message {
    Message::new(role, text.to_string())
}

fn two_roles() -> Settings {
    Settings {
        api_key: "key".to_string(),
        api_url: "http://localhost/v1".to_string(),
        role_list: vec![
            Role::new("A".to_string(), "You are A".to_string(), String::new()),
            Role::new("B".to_string(), "You are B".to_string(), String::new()),
        ],
    }
}

#[test]
fn default_settings_offer_four_roles() {
    let s = Settings::default();
    assert_eq!(s.api_key, "");
    assert_eq!(s.api_url, DEFAULT_API_URL);
    assert_eq!(s.api_url, "https://api.openai.com/v1/chat/completions");
    let names: Vec<&str> = s.role_list.iter().map(|r| r.name.as_str()).collect();
    assert_eq!(names, vec!["XXXGPT", "ChatGPT", "Translator", "Last"]);
    assert_eq!(s.role_list[0].prompt, "You are XXXGPT, an ai model");
    assert_eq!(
        s.role_list[3].prompt,
        "You are LastGPT dedicated for translating between Chinese and English"
    );
    assert!(s.role_list.iter().all(|r| r.icon_base64.is_empty()));
}

#[test]
fn roles_compare_by_value() {
    let a = Role::new("A".to_string(), "p".to_string(), String::new());
    let b = Role::new("A".to_string(), "p".to_string(), "other icon".to_string());
    let c = Role::new("A".to_string(), "q".to_string(), String::new());
    assert_eq!(a, b);
    assert_ne!(a, c);
    assert_eq!(a.duplicate(), a);
}

#[test]
fn core_starts_on_first_role() {
    let core = ChatCore::new(two_roles());
    assert_eq!(core.current_role.name, "A");
    assert!(core.session.is_none());
    assert!(core.view.is_empty());
    assert!(!core.is_waiting_for_ai());
}

#[test]
fn fresh_conversation_is_seeded_with_role_prompt() {
    let mut core = ChatCore::new(two_roles());
    let b = core.settings.role_list[1].clone();
    core.select_role(&b);
    let state = core.new_conversation();
    assert_eq!(state.api_key, "key");
    assert_eq!(state.api_url, "http://localhost/v1");
    assert_eq!(state.engine_id, "gpt-3.5-turbo");
    assert_eq!(state.history, vec![msg(MessageRole::System, "You are B")]);
}

#[test]
fn switching_role_resets_conversation() {
    let mut core = ChatCore::new(two_roles());
    let mut input = "hello".to_string();
    assert!(core.prepare_submission(&mut input).is_some());
    assert_eq!(core.view.len(), 1);
    let b = core.settings.role_list[1].clone();
    core.select_role(&b);
    assert_eq!(core.current_role, b);
    assert!(core.view.is_empty());
    assert!(core.session.is_none());
}

#[test]
fn selecting_current_role_changes_nothing() {
    let mut core = ChatCore::new(two_roles());
    let mut input = "hello".to_string();
    assert!(core.prepare_submission(&mut input).is_some());
    let a = core.settings.role_list[0].clone();
    core.select_role(&a);
    assert_eq!(core.view, vec![msg(MessageRole::User, "hello")]);
    assert!(core.session.is_some());
    assert_eq!(core.current_role, a);
}

#[test]
fn reset_keeps_role() {
    let mut core = ChatCore::new(two_roles());
    let mut input = "hello".to_string();
    assert!(core.prepare_submission(&mut input).is_some());
    core.reset();
    assert!(core.view.is_empty());
    assert!(core.session.is_none());
    assert_eq!(core.current_role.name, "A");
}

#[test]
fn prepare_submission_trims_and_renders_prompt() {
    let mut core = ChatCore::new(two_roles());
    let mut input = "  hi there \n".to_string();
    let sub = core.prepare_submission(&mut input).expect("sent");
    assert_eq!(sub.prompt, "hi there");
    assert_eq!(input, "");
    assert_eq!(core.view, vec![msg(MessageRole::User, "hi there")]);
    let state = sub.session.try_lock().expect("free");
    assert_eq!(state.history, vec![msg(MessageRole::System, "You are A")]);
}

#[test]
fn short_prompts_are_not_sent() {
    let mut core = ChatCore::new(two_roles());
    for text in ["", "   ", " a ", "\n"] {
        let mut input = text.to_string();
        assert!(core.prepare_submission(&mut input).is_none());
        assert_eq!(input, text);
    }
    assert!(core.view.is_empty());
    assert!(core.session.is_none());
}

#[test]
fn one_non_ascii_character_is_sent() {
    assert!(is_worth_sending("\u{4f60}"));
    assert!(is_worth_sending("ab"));
    assert!(!is_worth_sending("a"));
    assert!(!is_worth_sending(""));
    let mut core = ChatCore::new(two_roles());
    let mut input = " \u{4f60} ".to_string();
    let sub = core.prepare_submission(&mut input).expect("sent");
    assert_eq!(sub.prompt, "\u{4f60}");
}

/// Plays the submission task to its end: prompt, then the reply, under the lock.
fn answer(sub: &oxidized_gpt::Submission, reply: &str) {
    let mut state = sub.session.try_lock().expect("free");
    state.begin_submission(sub.prompt.clone());
    state.record_reply(msg(MessageRole::Assistant, reply));
}

#[test]
fn no_second_submission_while_one_is_in_flight() {
    let mut core = ChatCore::new(two_roles());
    let mut input = "first".to_string();
    let first = core.prepare_submission(&mut input).expect("sent");
    assert!(core.is_waiting_for_ai());
    let mut input = "second".to_string();
    assert!(core.prepare_submission(&mut input).is_none());
    assert_eq!(input, "second");
    assert_eq!(core.view, vec![msg(MessageRole::User, "first")]);
    answer(&first, "one");
    assert!(core.sync_new_message());
    assert!(core.pending.is_none());
    assert!(!core.is_waiting_for_ai());
    let second = core.prepare_submission(&mut input).expect("sent");
    assert!(std::sync::Arc::ptr_eq(&first.session, &second.session));
    assert_eq!(core.view.len(), 4);
    assert_eq!(core.committed, 3);
}

#[test]
fn own_prompt_stays_visible_before_task_runs() {
    let mut core = ChatCore::new(two_roles());
    let mut input = "hello".to_string();
    let sub = core.prepare_submission(&mut input).expect("sent");
    assert!(!core.sync_new_message());
    assert_eq!(core.view, vec![msg(MessageRole::User, "hello")]);
    assert_eq!(core.visible_messages(), vec![msg(MessageRole::User, "hello")]);
    assert_eq!(core.pending.as_deref(), Some("hello"));
    answer(&sub, "hi");
    assert!(core.sync_new_message());
    assert_eq!(core.visible_messages().len(), 2);
    assert!(core.pending.is_none());
}

#[test]
fn role_with_other_icon_is_the_same_role() {
    let mut core = ChatCore::new(two_roles());
    let mut input = "hello".to_string();
    assert!(core.prepare_submission(&mut input).is_some());
    let same = Role::new("A".to_string(), "You are A".to_string(), "aWNvbg==".to_string());
    assert_eq!(same, core.current_role);
    core.select_role(&same);
    assert!(core.session.is_some());
    assert_eq!(core.view, vec![msg(MessageRole::User, "hello")]);
    assert_eq!(core.current_role.icon_base64, "");
}

#[test]
fn visible_messages_skip_seed_prompt_only() {
    let mut core = ChatCore::new(two_roles());
    core.view = vec![
        msg(MessageRole::System, "You are A"),
        msg(MessageRole::User, "q"),
        msg(MessageRole::System, "ParsingError"),
        msg(MessageRole::Assistant, "You are A"),
    ];
    assert_eq!(
        core.visible_messages(),
        vec![
            msg(MessageRole::User, "q"),
            msg(MessageRole::System, "ParsingError"),
            msg(MessageRole::Assistant, "You are A"),
        ]
    );
}

#[test]
fn seed_prompt_is_hidden_but_errors_are_not() {
    let core = ChatCore::new(two_roles());
    assert!(core.is_seed_prompt(&msg(MessageRole::System, "You are A")));
    assert!(!core.is_seed_prompt(&msg(MessageRole::System, "You are B")));
    assert!(!core.is_seed_prompt(&msg(MessageRole::User, "You are A")));
    assert!(!core.is_seed_prompt(&msg(MessageRole::System, "ParsingError")));
}

#[test]
fn reconcile_without_snapshot_keeps_view() {
    let mut view = vec![msg(MessageRole::User, "x")];
    assert!(!reconcile(&mut view, None));
    assert_eq!(view, vec![msg(MessageRole::User, "x")]);
}

#[test]
fn reconcile_takes_longer_history() {
    let mut view = vec![msg(MessageRole::System, "s"), msg(MessageRole::User, "q")];
    let history = vec![
        msg(MessageRole::System, "s"),
        msg(MessageRole::User, "q"),
        msg(MessageRole::Assistant, "a"),
    ];
    assert!(reconcile(&mut view, Some(history.clone())));
    assert_eq!(view, history);
}

#[test]
fn reconcile_ignores_shorter_history() {
    let original = vec![msg(MessageRole::User, "q"), msg(MessageRole::User, "r")];
    let mut view = original.clone();
    assert!(!reconcile(&mut view, Some(vec![msg(MessageRole::System, "s")])));
    assert_eq!(view, original);
}

#[test]
fn reconcile_ignores_same_last_message() {
    let mut view = vec![msg(MessageRole::Assistant, "a")];
    let history = vec![msg(MessageRole::User, "q"), msg(MessageRole::Assistant, "a")];
    assert!(!reconcile(&mut view, Some(history)));
    assert_eq!(view, vec![msg(MessageRole::Assistant, "a")]);
}

#[test]
fn reconcile_fills_empty_view() {
    let mut view: Vec<Message> = Vec::new();
    let history = vec![msg(MessageRole::System, "s")];
    assert!(reconcile(&mut view, Some(history.clone())));
    assert_eq!(view, history);
    let mut view: Vec<Message> = Vec::new();
    assert!(!reconcile(&mut view, Some(Vec::new())));
    assert!(view.is_empty());
}

#[test]
fn reconciling_twice_is_idempotent() {
    let mut view = vec![msg(MessageRole::User, "q")];
    let history = vec![msg(MessageRole::User, "q"), msg(MessageRole::Assistant, "a")];
    assert!(reconcile(&mut view, Some(history.clone())));
    let after_first = view.clone();
    assert!(!reconcile(&mut view, Some(history)));
    assert_eq!(view, after_first);
}

#[test]
fn successful_submission_adds_two_messages() {
    let mut state = ConversationState::directed(
        "k".to_string(),
        "u".to_string(),
        DEFAULT_ENGINE.to_string(),
        "seed".to_string(),
    );
    for round in 1..=3usize {
        state.begin_submission(format!("q{round}"));
        state.record_reply(msg(MessageRole::Assistant, &format!("a{round}")));
        assert_eq!(state.history.len(), 1 + 2 * round);
    }
    assert_eq!(state.history[5], msg(MessageRole::User, "q3"));
    assert_eq!(state.history[6], msg(MessageRole::Assistant, "a3"));
}

#[test]
fn failed_submission_records_rendered_error() {
    let mut state = ConversationState::directed(
        "k".to_string(),
        "u".to_string(),
        DEFAULT_ENGINE.to_string(),
        "seed".to_string(),
    );
    state.begin_submission("q".to_string());
    let error = chatgpt::err::Error::ParsingError("bad reply".to_string());
    state.record_failure(&error);
    assert_eq!(state.history.len(), 3);
    assert_eq!(state.history[1], msg(MessageRole::User, "q"));
    let last = &state.history[2];
    assert_eq!(last.role, MessageRole::System);
    assert!(last.content.contains("ParsingError"));
    assert!(last.content.contains("bad reply"));
    assert_eq!(state.history[0], msg(MessageRole::System, "seed"));
}

#[test]
fn view_catches_up_after_reply() {
    let mut core = ChatCore::new(two_roles());
    let mut input = "hello".to_string();
    let sub = core.prepare_submission(&mut input).expect("sent");
    {
        let mut state = sub.session.try_lock().expect("free");
        state.begin_submission(sub.prompt.clone());
        state.record_reply(msg(MessageRole::Assistant, "hi"));
    }
    assert!(core.sync_new_message());
    assert_eq!(
        core.view,
        vec![
            msg(MessageRole::System, "You are A"),
            msg(MessageRole::User, "hello"),
            msg(MessageRole::Assistant, "hi"),
        ]
    );
    assert!(!core.sync_new_message());
    assert_eq!(core.view.len(), 3);
}

#[test]
fn busy_while_submission_holds_session() {
    let runtime = tokio::runtime::Runtime::new().expect("runtime");
    let mut core = ChatCore::new(two_roles());
    let mut input = "hello".to_string();
    let sub = core.prepare_submission(&mut input).expect("sent");
    assert!(core.is_waiting_for_ai());
    let handle = sub.session.clone();
    let prompt = sub.prompt.clone();
    runtime.block_on(async {
        let task = tokio::spawn(async move {
            let mut state = handle.lock().await;
            state.begin_submission(prompt);
            tokio::time::sleep(Duration::from_millis(300)).await;
            state.record_reply(Message::new(MessageRole::Assistant, "late".to_string()));
        });
        tokio::time::sleep(Duration::from_millis(100)).await;
        assert!(core.is_waiting_for_ai());
        assert!(!core.sync_new_message());
        assert_eq!(core.view, vec![msg(MessageRole::User, "hello")]);
        task.await.expect("task");
    });
    assert!(core.is_waiting_for_ai());
    assert!(core.sync_new_message());
    assert!(!core.is_waiting_for_ai());
    assert_eq!(
        core.view,
        vec![
            msg(MessageRole::System, "You are A"),
            msg(MessageRole::User, "hello"),
            msg(MessageRole::Assistant, "late"),
        ]
    );
    assert!(!core.sync_new_message());
}

#[test]
fn shared_session_peek_copies_log() {
    let state = ConversationState::directed(
        "k".to_string(),
        "u".to_string(),
        DEFAULT_ENGINE.to_string(),
        "seed".to_string(),
    );
    let session = SharedSession::new(state);
    assert_eq!(session.try_history(), Some(vec![msg(MessageRole::System, "seed")]));
    let handle = session.handle();
    let guard = handle.try_lock().expect("free");
    assert_eq!(session.try_history(), None);
    drop(guard);
    assert!(session.try_history().is_some());
}

#[test]
fn merge_of_failed_peek_changes_nothing() {
    let mut core = ChatCore::new(two_roles());
    let mut input = "hello".to_string();
    core.prepare_submission(&mut input).expect("sent");
    assert!(!core.merge_peek(None));
    assert_eq!(core.view, vec![msg(MessageRole::User, "hello")]);
    assert_eq!(core.pending.as_deref(), Some("hello"));
    assert_eq!(core.committed, 1);
}

#[test]
fn merge_of_short_peek_keeps_prompt_in_flight() {
    let mut core = ChatCore::new(two_roles());
    let mut input = "hello".to_string();
    core.prepare_submission(&mut input).expect("sent");
    let peek = vec![msg(MessageRole::System, "You are A")];
    assert!(!core.merge_peek(Some(peek)));
    assert_eq!(core.view, vec![msg(MessageRole::User, "hello")]);
    assert_eq!(core.pending.as_deref(), Some("hello"));
    assert_eq!(core.committed, 1);
}

#[test]
fn merge_of_committed_peek_ends_submission() {
    let mut core = ChatCore::new(two_roles());
    let mut input = "hello".to_string();
    core.prepare_submission(&mut input).expect("sent");
    let peek = vec![
        msg(MessageRole::System, "You are A"),
        msg(MessageRole::User, "hello"),
        msg(MessageRole::System, "ClientError"),
    ];
    assert!(core.merge_peek(Some(peek.clone())));
    assert_eq!(core.view, peek);
    assert!(core.pending.is_none());
    assert_eq!(core.committed, 3);
    assert!(!core.merge_peek(Some(peek.clone())));
    assert_eq!(core.view, peek);
}

#[test]
fn merge_without_submission_follows_reconcile_rule() {
    let mut core = ChatCore::new(two_roles());
    let peek = vec![msg(MessageRole::System, "You are A")];
    assert!(core.merge_peek(Some(peek.clone())));
    assert_eq!(core.view, peek);
    assert!(!core.merge_peek(Some(peek.clone())));
    assert_eq!(core.committed, 0);
}
