//! What the bot does with an update.

use lexi::ai_interaction::admin_session::{
    admin_session_is_active, admin_session_key, end_admin_session, start_admin_session,
    update_admin_session_last_response_id, AdminSessionState,
};
use lexi::ai_interaction::topic_context::{
    clear_topic_response_id, get_topic_response_id, set_topic_response_id, topic_response_key,
    TopicResponseState,
};
use lexi::ai_interaction::AiConversationOutcome;
use lexi::bot::context_builder::{
    build_context_with_missed_messages, format_context_block, get_sender_display_name,
    unix_to_datetime,
};
use lexi::bot::conversation_context::{
    clear_response_id, get_response_id, update_response_id, ConversationKey, ResponsePlace,
};
use lexi::bot::polling::{get_updates_url, last_update_after, run_bot_loop, PollAnswer, PollStep};
use lexi::bot::proactive::{
    extract_slot_number_from_message, maybe_schedule_proactive_slot_check, read_slot_reply,
    run_proactive_slot_check, slot_check_arguments,
};
use lexi::bot::reply::{ReplyAction, ReplyEvent, ReplyState};
use lexi::bot::update::{
    mentions_can_be_read, read_session, step_reads_mentions, SessionRead, UpdateAction,
    UpdateEvent, UpdateState,
};
use lexi::bot::{
    can_log_mentions, handle_telegram_update, log_other_mentions, send_reply_and_update_state,
    strip_admin_code,
};
use lexi::db::{get_message_history, insert_message, MessageFromHistory, MessageWithSender};
use lexi::telegram::types::{ApiResponse, Chat, Message, MessageEntity, Update, User};
use lexi::time::Timestamp;

fn at(seconds: i64) -> Timestamp {
    Timestamp { seconds, nanos: 0 }
}

// ---------------------------------------------------------------------------------------------
// Missed messages

fn mock_message(
    text: &str,
    username: Option<&str>,
    first_name: &str,
    sender_id: i32,
    is_bot: bool,
) -> MessageWithSender {
    MessageWithSender {
        text: Some(text.to_string()),
        sender_username: username.map(String::from),
        sender_first_name: first_name.to_string(),
        sender_id,
        is_bot,
        sent_at: at(1_704_067_200),
    }
}

#[test]
fn test_get_sender_display_name_prefers_username() {
    let msg = mock_message("hello", Some("alice"), "Alice", 1, false);
    assert_eq!(get_sender_display_name(&msg), "@alice");
}

#[test]
fn test_get_sender_display_name_falls_back_to_first_name() {
    let msg = mock_message("hello", None, "Bob", 2, false);
    assert_eq!(get_sender_display_name(&msg), "Bob");
}

#[test]
fn test_format_context_block() {
    let msg1 = mock_message(
        "I think we should use Redis",
        Some("alice"),
        "Alice",
        1,
        false,
    );
    let msg2 = mock_message("What about Memcached?", None, "Bob", 2, false);
    let messages: Vec<&MessageWithSender> = vec![&msg1, &msg2];

    let block = format_context_block(&messages);

    assert!(block.contains("[Recent conversation in this chat:]"));
    assert!(block.contains("@alice: I think we should use Redis"));
    assert!(block.contains("Bob: What about Memcached?"));
    assert_eq!(
        block,
        "[Recent conversation in this chat:]\n@alice: I think we should use Redis\nBob: What about Memcached?"
    );
}

#[test]
fn test_unix_to_datetime_valid() {
    let dt = unix_to_datetime(1704067200); // 2024-01-01 00:00:00 UTC
    assert!(dt.is_some());
    assert_eq!(dt, Some(at(1_704_067_200)));
}

#[test]
fn test_unix_to_datetime_invalid() {
    // Extremely far future timestamp that might overflow
    let dt = unix_to_datetime(i64::MAX);
    assert!(dt.is_none());
}

#[test]
fn the_calendar_has_its_ends() {
    assert!(unix_to_datetime(8_210_266_876_799).is_some());
    assert!(unix_to_datetime(8_210_266_876_800).is_none());
    assert!(unix_to_datetime(-8_334_601_228_800 + 86_400 * 365).is_some());
    assert!(unix_to_datetime(i64::MIN).is_none());
}

#[test]
fn the_calendar_begins_where_it_does() {
    assert!(unix_to_datetime(-8_334_601_228_800).is_some());
    assert!(unix_to_datetime(-8_334_601_228_801).is_none());
}

#[test]
fn missed_messages_come_before_the_prompt() {
    let mut silent = mock_message("", None, "Carol", 3, false);
    silent.text = None;
    let missed = Some(vec![
        mock_message("hi", Some("alice"), "Alice", 1, false),
        mock_message("i am the bot", None, "Lexi", 9, true),
        silent,
    ]);
    assert_eq!(
        build_context_with_missed_messages(&missed, "what now?", 9),
        "[Recent conversation in this chat:]\n@alice: hi\n\n[Your message:]\nwhat now?"
    );
    let own = Some(vec![mock_message("i am the bot", None, "Lexi", 9, true)]);
    assert_eq!(
        build_context_with_missed_messages(&own, "what now?", 9),
        "what now?"
    );
    assert_eq!(
        build_context_with_missed_messages(&None, "what now?", 9),
        "what now?"
    );
}

#[test]
fn history_is_told_from_the_start() {
    let rows = (0..3)
        .map(|i| MessageFromHistory {
            sender_id: i,
            text: Some(format!("message {}", 2 - i)),
        })
        .collect();
    let history = get_message_history(rows);
    let texts: Vec<Option<String>> = history.into_iter().map(|m| m.text).collect();
    assert_eq!(
        texts,
        vec![
            Some("message 0".to_string()),
            Some("message 1".to_string()),
            Some("message 2".to_string())
        ]
    );
}

// ---------------------------------------------------------------------------------------------
// Where the last response is kept

#[test]
fn test_conversation_key_is_topic() {
    let chat_key = ConversationKey::new(1, None);
    assert!(!chat_key.is_topic());

    let topic_key = ConversationKey::new(1, Some(123));
    assert!(topic_key.is_topic());
}

#[test]
fn test_get_response_id_routes_to_chat_when_no_thread() {
    let key = ConversationKey::new(42, None);
    assert!(matches!(get_response_id(&key), ResponsePlace::Chat(42)));
}

#[test]
fn test_update_response_id_routes_to_chat_when_no_thread() {
    let key = ConversationKey::new(42, None);
    assert!(matches!(update_response_id(&key), ResponsePlace::Chat(42)));
}

#[test]
fn test_clear_response_id_routes_to_chat_when_no_thread() {
    let key = ConversationKey::new(42, None);
    assert!(matches!(clear_response_id(&key), ResponsePlace::Chat(42)));
}

#[test]
fn a_topic_has_a_place_of_its_own() {
    let key = ConversationKey::new(42, Some(123));
    match get_response_id(&key) {
        ResponsePlace::Topic(name) => assert_eq!(name, topic_response_key(42, 123)),
        ResponsePlace::Chat(_) => panic!("a topic is not a chat"),
    }
    assert_ne!(topic_response_key(4, 2123), topic_response_key(42, 123));
}

#[test]
fn test_get_topic_response_id_returns_value() {
    let state = TopicResponseState {
        last_openai_response_id: Some("resp_abc123".to_string()),
    };
    assert_eq!(
        get_topic_response_id(Some(state)),
        Some("resp_abc123".to_string())
    );
}

#[test]
fn test_get_topic_response_id_returns_none_when_not_set() {
    assert_eq!(get_topic_response_id(None), None);
}

#[test]
fn test_set_topic_response_id() {
    assert_eq!(
        set_topic_response_id("resp_xyz789").last_openai_response_id,
        Some("resp_xyz789".to_string())
    );
}

#[test]
fn test_clear_topic_response_id() {
    assert!(clear_topic_response_id().last_openai_response_id.is_none());
}

#[test]
fn test_start_admin_session_sets_state() {
    let last_response = Some("resp_before_admin".to_string());
    let state = start_admin_session(at(5), last_response.clone());
    assert!(state.active);
    assert_eq!(state.started_at, Some(at(5)));
    assert_eq!(state.last_response_id_before_admin, last_response);
    assert_eq!(admin_session_key(7), "admin_session:chat:7");
}

#[test]
fn test_end_admin_session_clears_state() {
    let state = end_admin_session();
    assert!(!state.active);
    assert!(state.started_at.is_none());
}

#[test]
fn a_session_is_active_only_where_it_can_be_read() {
    assert!(admin_session_is_active(&Ok(Some(start_admin_session(at(5), None)))));
    assert!(!admin_session_is_active(&Ok(Some(end_admin_session()))));
    assert!(!admin_session_is_active(&Ok(None)));
    assert!(!admin_session_is_active(&Err("the store is down".to_string())));
}

#[test]
fn another_response_leaves_the_session_as_it_is() {
    let state = start_admin_session(at(5), None);
    let later = update_admin_session_last_response_id(Some(state), Some("resp_9".to_string()));
    assert!(later.active);
    assert_eq!(later.started_at, Some(at(5)));
    assert_eq!(later.last_response_id_before_admin.as_deref(), Some("resp_9"));
    assert!(!update_admin_session_last_response_id(None, None).active);
}

// ---------------------------------------------------------------------------------------------
// Slot checks

const FAILED_BID: &str = "Proposer bid failed simulation in slot 11805092, builder 0x12";

#[test]
fn the_slot_is_the_first_number_behind_the_prefix() {
    assert_eq!(extract_slot_number_from_message(FAILED_BID), Some(11805092));
    assert_eq!(
        extract_slot_number_from_message("Proposer bid failed simulation in slot: #77x"),
        Some(77)
    );
    assert_eq!(
        extract_slot_number_from_message(
            "Proposer bid failed simulation in slot 99999999999999999999 12"
        ),
        None
    );
}

#[test]
fn without_the_prefix_the_slot_is_the_first_number() {
    assert_eq!(
        extract_slot_number_from_message("check slot 12a and 345 please"),
        Some(345)
    );
    assert_eq!(extract_slot_number_from_message("no number here"), None);
    assert_eq!(
        extract_slot_number_from_message("Proposer bid failed simulation in slot"),
        None
    );
}

#[test]
fn only_the_one_chat_is_checked() {
    assert!(maybe_schedule_proactive_slot_check(-702100346, FAILED_BID));
    assert!(!maybe_schedule_proactive_slot_check(1, FAILED_BID));
    assert!(!maybe_schedule_proactive_slot_check(-702100346, "hello"));
}

#[test]
fn a_check_asks_for_the_slot() {
    let arguments = slot_check_arguments(11805092);
    assert_eq!(arguments, "{\"slot_number\":11805092}");
    assert_eq!(
        lexi::ai_interaction::tools::beacon_slot_check::parse_slot_number_arg(&arguments),
        Ok(11805092)
    );
}

#[test]
fn the_chat_is_told_of_the_slot() {
    let told = |reply: &str| run_proactive_slot_check(Some(5), Ok(reply.to_string()));
    assert_eq!(told("{\"status\":\"not_missed\"}"), "slot 5 not missed");
    assert_eq!(told("{\"status\":\"missed\"}"), "slot 5 missed");
    assert_eq!(
        told("{\"status\":\"error\",\"details\":\"no node\"}"),
        "error checking slot 5: no node"
    );
    assert_eq!(told("{}"), "error checking slot 5");
    assert_eq!(told("not json"), "error checking slot 5");
    assert_eq!(
        run_proactive_slot_check(Some(5), Err("timeout".to_string())),
        "error checking slot 5: timeout"
    );
    assert_eq!(
        run_proactive_slot_check(None, Ok("{}".to_string())),
        "could not extract slot number from message"
    );
    assert_eq!(read_slot_reply(6, None), "error checking slot 6");
}

// ---------------------------------------------------------------------------------------------
// Polling

#[test]
fn updates_behind_the_last_one_are_asked_for() {
    assert_eq!(
        get_updates_url("123:abc", 41),
        "https://api.telegram.org/bot123:abc/getUpdates?offset=42&timeout=50"
    );
}

fn envelope(ok: bool, updates: Option<Vec<Update>>, code: Option<i32>) -> PollAnswer {
    PollAnswer::Envelope(ApiResponse {
        ok,
        result: updates,
        description: Some("Unauthorized".to_string()),
        error_code: code,
    })
}

#[test]
fn a_wrong_token_stops_the_polling() {
    match run_bot_loop(envelope(false, None, Some(401))) {
        PollStep::Stop(message) => assert_eq!(message, "telegram API error 401: Unauthorized"),
        _ => panic!("polling goes on"),
    }
    assert!(matches!(
        run_bot_loop(envelope(false, None, Some(404))),
        PollStep::Stop(_)
    ));
    assert!(matches!(
        run_bot_loop(envelope(false, None, Some(429))),
        PollStep::Pause
    ));
    assert!(matches!(run_bot_loop(envelope(false, None, None)), PollStep::Pause));
    assert!(matches!(run_bot_loop(PollAnswer::HttpError), PollStep::Pause));
}

#[test]
fn updates_are_handled() {
    let updates = vec![
        Update { update_id: 7, message: None },
        Update { update_id: 9, message: None },
    ];
    assert_eq!(last_update_after(3, &updates), 9);
    assert_eq!(last_update_after(3, &Vec::new()), 3);
    match run_bot_loop(envelope(true, Some(updates), None)) {
        PollStep::Handle(list) => assert_eq!(list.len(), 2),
        _ => panic!("the updates are not handled"),
    }
    match run_bot_loop(envelope(true, None, None)) {
        PollStep::Handle(list) => assert!(list.is_empty()),
        _ => panic!("an empty poll is no error"),
    }
}

// ---------------------------------------------------------------------------------------------
// The admin code

#[test]
fn the_admin_code_is_taken_out() {
    assert_eq!(
        strip_admin_code("please  admin code sesame  help", Some("sesame")),
        (true, "please help".to_string())
    );
    assert_eq!(
        strip_admin_code("please  help", Some("sesame")),
        (false, "please  help".to_string())
    );
    assert_eq!(
        strip_admin_code("admin code sesame", None),
        (false, "admin code sesame".to_string())
    );
}

// ---------------------------------------------------------------------------------------------
// Replies

#[test]
fn a_reply_is_sent_stored_and_remembered() {
    let (state, action) =
        send_reply_and_update_state(5, Some("resp_1"), ReplyState::Start, ReplyEvent::Begin);
    assert!(matches!(action, ReplyAction::Send));
    let (state, action) = send_reply_and_update_state(
        5,
        Some("resp_1"),
        state,
        ReplyEvent::Sent { message_id: 77 },
    );
    assert!(matches!(action, ReplyAction::StoreMessage));
    let (state, action) =
        send_reply_and_update_state(5, Some("resp_1"), state, ReplyEvent::Done);
    match action {
        ReplyAction::StoreResponse(id) => assert_eq!(id, "resp_1"),
        _ => panic!("the response is not remembered"),
    }
    let (_, action) = send_reply_and_update_state(5, Some("resp_1"), state, ReplyEvent::Failed);
    assert!(matches!(action, ReplyAction::Finish));
}

#[test]
fn a_response_without_a_number_is_forgotten() {
    let stored = || ReplyState::Storing { message_id: 77 };
    let (_, action) =
        send_reply_and_update_state(5, Some("error_no_id_x"), stored(), ReplyEvent::Done);
    assert!(matches!(action, ReplyAction::ClearResponse));
    let (_, action) = send_reply_and_update_state(5, None, stored(), ReplyEvent::Done);
    assert!(matches!(action, ReplyAction::ClearResponse));
}

#[test]
fn errors_in_a_reply_have_their_headings() {
    let heading = |state: ReplyState, event: ReplyEvent| {
        match send_reply_and_update_state(-5, None, state, event).1 {
            ReplyAction::Fail(heading) => heading,
            _ => panic!("the reply does not fail"),
        }
    };
    assert_eq!(
        heading(ReplyState::Sending, ReplyEvent::Failed),
        "failed to send final reply to chat_id -5"
    );
    assert_eq!(
        heading(ReplyState::Storing { message_id: 77 }, ReplyEvent::Unwritable),
        "failed to serialize bot reply message to json"
    );
    assert_eq!(
        heading(ReplyState::Storing { message_id: 77 }, ReplyEvent::Failed),
        "failed to insert bot final reply (id: 77) into database"
    );
}

// ---------------------------------------------------------------------------------------------
// Updates

fn incoming(chat_type: &str, text: Option<&str>) -> Message {
    Message {
        message_id: 33,
        message_thread_id: None,
        from: Some(User {
            id: 11,
            is_bot: false,
            first_name: "Ada".to_string(),
            last_name: None,
            username: None,
        }),
        chat: Chat {
            id: 22,
            chat_type: chat_type.to_string(),
            title: None,
            username: None,
            first_name: None,
            last_name: None,
        },
        date: 1_704_067_200,
        text: text.map(String::from),
        entities: None,
    }
}

fn update_of(message: Message) -> Update {
    Update { update_id: 1, message: Some(message) }
}

fn mention(offset: usize, length: usize) -> MessageEntity {
    MessageEntity {
        entity_type: "mention".to_string(),
        offset,
        length,
        url: None,
        user: None,
    }
}

fn step(update: &Update, state: UpdateState, event: UpdateEvent) -> (UpdateState, UpdateAction) {
    handle_telegram_update(update, Some("sesame"), state, event)
}

/// Takes an update up to the reading of the last response.
fn stored(update: &Update) -> (UpdateState, UpdateAction) {
    let (state, action) = step(update, UpdateState::Start, UpdateEvent::Begin);
    assert!(matches!(action, UpdateAction::StoreUser));
    let (state, action) = step(update, state, UpdateEvent::Stored(4));
    assert!(matches!(action, UpdateAction::StoreChat));
    let (state, action) = step(update, state, UpdateEvent::Stored(6));
    assert!(matches!(
        action,
        UpdateAction::StoreMessage { chat_id: 6, user_id: 4 }
    ));
    step(update, state, UpdateEvent::Done)
}

/// Takes an update up to the reading of the session.
fn considered(update: &Update) -> UpdateState {
    let (state, action) = stored(update);
    assert!(matches!(action, UpdateAction::ReadResponse { chat_id: 6 }));
    let (state, action) = step(
        update,
        state,
        UpdateEvent::ResponseRead(Some("resp_0".to_string())),
    );
    assert!(matches!(action, UpdateAction::ReadSession { chat_id: 6 }));
    state
}

fn no_session() -> UpdateEvent {
    UpdateEvent::SessionRead(read_session(Ok(None)))
}

#[test]
fn a_private_message_goes_to_the_model() {
    let update = update_of(incoming("private", Some("hello there")));
    let (state, action) = step(&update, considered(&update), no_session());
    match action {
        UpdateAction::Converse { prompt, previous, admin } => {
            assert_eq!(prompt, "hello there");
            assert_eq!(previous.as_deref(), Some("resp_0"));
            assert!(!admin);
        }
        _ => panic!("the model is not asked"),
    }
    let outcome = AiConversationOutcome::TextMessage("hi".to_string(), "resp_1".to_string());
    let (state, action) = step(&update, state, UpdateEvent::Concluded(outcome));
    match action {
        UpdateAction::Reply { chat_id, text, response_id } => {
            assert_eq!(chat_id, 6);
            assert_eq!(text, "hi");
            assert_eq!(response_id.as_deref(), Some("resp_1"));
        }
        _ => panic!("nothing is replied"),
    }
    let (_, action) = step(&update, state, UpdateEvent::Done);
    assert!(matches!(action, UpdateAction::Finish));
}

#[test]
fn a_message_in_a_group_needs_a_mention() {
    let update = update_of(incoming("group", Some("hello there")));
    let (state, action) = stored(&update);
    assert!(matches!(action, UpdateAction::LogOtherMentions));
    let (_, action) = step(&update, state, UpdateEvent::Done);
    assert!(matches!(action, UpdateAction::Finish));

    let mut message = incoming("group", Some("hey @lexi_alex_bot what now?"));
    message.entities = Some(vec![mention(4, 14)]);
    let update = update_of(message);
    let (_, action) = step(&update, considered(&update), no_session());
    match action {
        UpdateAction::Converse { prompt, .. } => assert_eq!(prompt, "hey what now?"),
        _ => panic!("the model is not asked"),
    }
}

#[test]
fn an_empty_prompt_is_acknowledged() {
    let mut message = incoming("group", Some("@lexi_alex_bot"));
    message.entities = Some(vec![mention(0, 14)]);
    let update = update_of(message);
    let (state, action) = step(&update, considered(&update), no_session());
    match action {
        UpdateAction::Reply { text, response_id, .. } => {
            assert_eq!(text, "hi Ada! you mentioned me, but your message seemed empty after processing. what can i help you with?");
            assert!(response_id.is_none());
        }
        _ => panic!("nothing is acknowledged"),
    }
    match step(&update, state, UpdateEvent::Failed("x".to_string())).1 {
        UpdateAction::Fail { heading } => assert_eq!(
            heading.as_deref(),
            Some("failed to send/store acknowledgement for empty prompt")
        ),
        _ => panic!("the failure is passed over"),
    }
}

#[test]
fn a_message_without_a_text_gets_no_reply() {
    let update = update_of(incoming("private", None));
    let (_, action) = step(&update, considered(&update), no_session());
    assert!(matches!(action, UpdateAction::Finish));
}

#[test]
fn a_message_without_a_sender_is_passed_over() {
    let mut message = incoming("channel", Some("news"));
    message.from = None;
    let update = update_of(message);
    let (_, action) = step(&update, UpdateState::Start, UpdateEvent::Begin);
    assert!(matches!(action, UpdateAction::LogOtherMentions));
    let nothing = Update { update_id: 1, message: None };
    let (_, action) = step(&nothing, UpdateState::Start, UpdateEvent::Begin);
    assert!(matches!(action, UpdateAction::Finish));
}

#[test]
fn other_mentions_are_logged() {
    let mut message = incoming("group", Some("hey @other_bot and @lexi_alex_bot"));
    message.entities = Some(vec![mention(4, 10), mention(19, 14)]);
    assert_eq!(log_other_mentions(&message), vec!["@other_bot".to_string()]);
}

#[test]
fn a_failed_bid_calls_for_a_check() {
    let mut message = incoming("group", Some(FAILED_BID));
    message.chat.id = -702100346;
    let update = update_of(message);
    let (state, action) = stored(&update);
    assert!(matches!(action, UpdateAction::ScheduleSlotCheck));
    let (_, action) = step(&update, state, UpdateEvent::Done);
    assert!(matches!(action, UpdateAction::LogOtherMentions));
}

#[test]
fn errors_in_storing_have_their_headings() {
    let update = update_of(incoming("private", Some("hello")));
    let heading = |state: UpdateState, event: UpdateEvent| match step(&update, state, event).1 {
        UpdateAction::Fail { heading } => heading.unwrap(),
        _ => panic!("the failure is passed over"),
    };
    let failed = || UpdateEvent::Failed("x".to_string());
    assert_eq!(
        heading(UpdateState::StoringUser, failed()),
        "upserting user (telegram_id: 11) failed"
    );
    assert_eq!(
        heading(UpdateState::StoringChat { user_id: 4 }, failed()),
        "upserting chat (telegram_id: 22) failed"
    );
    assert_eq!(
        heading(UpdateState::StoringMessage { chat_id: 6 }, UpdateEvent::Unwritable),
        "serializing message (id: 33) to json failed"
    );
    assert_eq!(
        heading(UpdateState::StoringMessage { chat_id: 6 }, failed()),
        "inserting incoming message (id: 33) failed"
    );
}

#[test]
fn the_admin_code_starts_a_session() {
    let update = update_of(incoming("private", Some("admin code sesame stop the relay")));
    let (state, action) = step(&update, considered(&update), no_session());
    match action {
        UpdateAction::StartSession { chat_id, last_response_before } => {
            assert_eq!(chat_id, 6);
            assert_eq!(last_response_before.as_deref(), Some("resp_0"));
        }
        _ => panic!("no session is started"),
    }
    match step(&update, state, UpdateEvent::Done).1 {
        UpdateAction::Converse { prompt, admin, .. } => {
            assert_eq!(prompt, "stop the relay");
            assert!(admin);
        }
        _ => panic!("the model is not asked"),
    }
    let state = UpdateState::StartingSession { chat_id: 6, previous: None };
    match step(&update, state, UpdateEvent::Failed("x".to_string())).1 {
        UpdateAction::Converse { admin, .. } => assert!(!admin),
        _ => panic!("the model is not asked"),
    }
}

#[test]
fn an_active_session_goes_on() {
    let update = update_of(incoming("private", Some("stop the relay")));
    let session = AdminSessionState {
        active: true,
        started_at: Some(at(5)),
        last_response_id_before_admin: Some("resp_b".to_string()),
    };
    let read = UpdateEvent::SessionRead(read_session(Ok(Some(session))));
    match step(&update, considered(&update), read).1 {
        UpdateAction::Converse { admin, .. } => assert!(admin),
        _ => panic!("the model is not asked"),
    }
    let unreadable = UpdateEvent::SessionRead(read_session(Err("x".to_string())));
    match step(&update, considered(&update), unreadable).1 {
        UpdateAction::Converse { admin, .. } => assert!(!admin),
        _ => panic!("the model is not asked"),
    }
}

fn notified(action: UpdateAction) -> String {
    match action {
        UpdateAction::Notify(text) => text,
        _ => panic!("the user is not told"),
    }
}

#[test]
fn a_reset_is_confirmed_and_forgets_the_response() {
    let update = update_of(incoming("private", Some("reset")));
    let outcome = AiConversationOutcome::ResetConversation(
        "{\"message\":\"conversation reset.\"}".to_string(),
        "resp_1".to_string(),
    );
    let (state, action) = step(
        &update,
        UpdateState::Conversing { chat_id: 6 },
        UpdateEvent::Concluded(outcome),
    );
    assert_eq!(notified(action), "system message: conversation reset.");
    let (_, action) = step(&update, state, UpdateEvent::Done);
    assert!(matches!(action, UpdateAction::ClearResponse { chat_id: 6 }));
    let state = UpdateState::ConfirmingReset { chat_id: 6 };
    match step(&update, state, UpdateEvent::Failed("x".to_string())).1 {
        UpdateAction::Fail { heading } => assert_eq!(
            heading.as_deref(),
            Some("failed to send conversation reset confirmation message")
        ),
        _ => panic!("the failure is passed over"),
    }
}

#[test]
fn a_confirmation_without_a_message_is_told_as_it_is() {
    let update = update_of(incoming("private", Some("reset")));
    for raw in ["{\"status\":\"success\"}", "not json", "{\"message\":5}"] {
        let outcome =
            AiConversationOutcome::ResetConversation(raw.to_string(), "resp_1".to_string());
        let (_, action) = step(
            &update,
            UpdateState::Conversing { chat_id: 6 },
            UpdateEvent::Concluded(outcome),
        );
        assert_eq!(notified(action), raw);
    }
}

#[test]
fn changes_are_made_and_then_confirmed() {
    let update = update_of(incoming("private", Some("change")));
    let text = || "{\"message\":\"done\"}".to_string();
    let id = || "resp_1".to_string();
    let changes = vec![
        (
            AiConversationOutcome::ChangeModel(text(), id(), "gpt-5-mini".to_string()),
            "failed to send model change confirmation message",
        ),
        (
            AiConversationOutcome::ChangeVerbosity(text(), id(), "low".to_string()),
            "failed to send verbosity change confirmation message",
        ),
        (
            AiConversationOutcome::ChangeReasoningEffort(text(), id(), "high".to_string()),
            "failed to send reasoning effort change confirmation message",
        ),
    ];
    for (outcome, expected) in changes {
        let (state, action) = step(
            &update,
            UpdateState::Conversing { chat_id: 6 },
            UpdateEvent::Concluded(outcome),
        );
        match action {
            UpdateAction::SetModel(value) => assert_eq!(value, "gpt-5-mini"),
            UpdateAction::SetVerbosity(value) => assert_eq!(value, "low"),
            UpdateAction::SetReasoningEffort(value) => assert_eq!(value, "high"),
            _ => panic!("nothing is changed"),
        }
        let (state, action) = step(&update, state, UpdateEvent::Done);
        assert_eq!(notified(action), "system message: done");
        match step(&update, state, UpdateEvent::Failed("x".to_string())).1 {
            UpdateAction::Fail { heading } => assert_eq!(heading.as_deref(), Some(expected)),
            _ => panic!("the failure is passed over"),
        }
    }
}

#[test]
fn the_end_of_a_session_restores_the_conversation() {
    let update = update_of(incoming("private", Some("end")));
    let end = || {
        let outcome = AiConversationOutcome::EndAdminSession(
            "{\"message\":\"session ended\"}".to_string(),
            "resp_9".to_string(),
        );
        let (state, action) = step(
            &update,
            UpdateState::Conversing { chat_id: 6 },
            UpdateEvent::Concluded(outcome),
        );
        assert!(matches!(action, UpdateAction::ReadSession { chat_id: 6 }));
        state
    };
    let found = |last: Option<&str>| {
        UpdateEvent::SessionRead(SessionRead::Found {
            active: true,
            last_response_before: last.map(String::from),
        })
    };
    let (state, action) = step(&update, end(), found(Some("resp_b")));
    match action {
        UpdateAction::StoreResponse { chat_id, response_id } => {
            assert_eq!((chat_id, response_id.as_str()), (6, "resp_b"))
        }
        _ => panic!("the response is not restored"),
    }
    let (state, action) = step(&update, state, UpdateEvent::Failed("x".to_string()));
    assert!(matches!(action, UpdateAction::EndSession { chat_id: 6 }));
    let (state, action) = step(&update, state, UpdateEvent::Failed("x".to_string()));
    assert_eq!(notified(action), "system message: session ended");
    let (_, action) = step(&update, state, UpdateEvent::Done);
    assert!(matches!(action, UpdateAction::Finish));

    let (_, action) = step(&update, end(), found(None));
    assert!(matches!(action, UpdateAction::ClearResponse { chat_id: 6 }));
    let (_, action) = step(&update, end(), no_session());
    assert!(matches!(action, UpdateAction::EndSession { chat_id: 6 }));
}

#[test]
fn a_failed_conversation_is_apologized_for_and_reported() {
    let update = update_of(incoming("private", Some("hello")));
    let (state, action) = step(
        &update,
        UpdateState::Conversing { chat_id: 6 },
        UpdateEvent::Failed("no quota".to_string()),
    );
    match action {
        UpdateAction::Reply { text, response_id, .. } => {
            assert_eq!(
                text,
                "sorry, an error occurred while generating the ai reply: no quota"
            );
            assert!(response_id.is_none());
        }
        _ => panic!("nothing is said"),
    }
    let (_, action) = step(&update, state, UpdateEvent::Failed("x".to_string()));
    assert!(matches!(action, UpdateAction::FailAsConversation));
}

#[test]
fn a_message_is_stored_with_its_date() {
    let message = incoming("private", Some("hello"));
    assert_eq!(insert_message(&message), Ok(at(1_704_067_200)));
    let mut message = incoming("private", Some("hello"));
    message.date = i64::MAX;
    assert_eq!(
        insert_message(&message),
        Err(
            "failed to convert telegram message date 9223372036854775807 to naivedatetime"
                .to_string()
        )
    );
}

#[test]
fn mentions_are_read_once_the_message_is_stored() {
    let mut message = incoming("group", Some("hi é @lexi_alex_bot"));
    message.entities = Some(vec![mention(6, 14), mention(4, 1)]);
    assert!(mentions_can_be_read(&message));
    assert!(!can_log_mentions(&message));
    message.entities = Some(vec![mention(4, 1)]);
    assert!(!mentions_can_be_read(&message));
    message.entities = Some(vec![mention(usize::MAX, 2)]);
    assert!(!mentions_can_be_read(&message));
    message.chat.chat_type = "private".to_string();
    assert!(mentions_can_be_read(&message));

    let done = UpdateEvent::Done;
    let storing = UpdateState::StoringMessage { chat_id: 6 };
    assert!(step_reads_mentions(&message, &storing, &done));
    assert!(!step_reads_mentions(&message, &storing, &UpdateEvent::Unwritable));
    assert!(!step_reads_mentions(&message, &UpdateState::Start, &UpdateEvent::Begin));

    message.chat.chat_type = "group".to_string();
    let update = update_of(message);
    let (state, action) = step(&update, UpdateState::Start, UpdateEvent::Begin);
    assert!(matches!(action, UpdateAction::StoreUser));
    let (state, _) = step(&update, state, UpdateEvent::Stored(5));
    let (_, action) = step(&update, state, UpdateEvent::Stored(6));
    assert!(matches!(
        action,
        UpdateAction::StoreMessage { chat_id: 6, user_id: 5 }
    ));
}
