use ai_core::{ChatHistory, ChatResponse, InMemoryChatStore, Message, Role};

#[test]
fn history_builds_a_request_with_its_messages() {
    let mut history = ChatHistory::new();
    history
        .user("hello")
        .assistant("hi there")
        .user("how are you?");

    assert_eq!(history.len(), 3);

    let request = history
        .to_request("llama3.1")
        .system("be brief")
        .build()
        .unwrap();
    assert_eq!(request.messages.len(), 3);
    assert_eq!(request.messages[0].role, Role::User);
    assert_eq!(request.messages[0].text(), "hello");
    assert_eq!(request.system.as_deref(), Some("be brief"));
}

#[test]
fn record_response_appends_assistant_message() {
    let mut history = ChatHistory::new();
    history.user("ping");
    let response = ChatResponse::from_message(Message::assistant("pong"));
    history.record_response(&response);

    assert_eq!(history.len(), 2);
    assert_eq!(history.last().unwrap().role, Role::Assistant);
    assert_eq!(history.last().unwrap().text(), "pong");
}

#[test]
fn store_appends_loads_and_clears() {
    let mut store = InMemoryChatStore::new();

    store.append("s1", Message::user("hi"));
    store.append_many(
        "s1",
        vec![Message::assistant("hello"), Message::user("bye")],
    );

    let loaded = store.load("s1");
    assert_eq!(loaded.len(), 3);
    assert_eq!(loaded[0].text(), "hi");
    assert_eq!(loaded[2].text(), "bye");

    store.clear("s1");
    assert!(store.load("s1").is_empty());
}

#[test]
fn store_save_replaces_and_isolates_sessions() {
    let mut store = InMemoryChatStore::new();

    store.append("a", Message::user("one"));
    store.append("b", Message::user("two"));

    // save() replaces a session wholesale.
    store.save("a", vec![Message::user("fresh")]);

    assert_eq!(store.load("a").len(), 1);
    assert_eq!(store.load("a")[0].text(), "fresh");
    // Other session untouched.
    assert_eq!(store.load("b")[0].text(), "two");
    assert_eq!(store.session_count(), 2);
}

#[test]
fn history_round_trips_through_a_store() {
    let mut store = InMemoryChatStore::new();

    let mut history = ChatHistory::new();
    history.user("remember me").assistant("done");
    store.save("session-1", history.clone().into_messages());

    // Resume in a "new process".
    let resumed = ChatHistory::from_messages(store.load("session-1"));
    assert_eq!(resumed, history);
    assert_eq!(resumed.messages().len(), 2);
}

#[test]
fn unknown_session_loads_empty_and_clear_forgets_it() {
    let mut store = InMemoryChatStore::new();
    assert!(store.load("nobody").is_empty());
    assert_eq!(store.session_count(), 0);
    store.append("x", Message::user("1"));
    assert_eq!(store.session_count(), 1);
    store.clear("x");
    assert_eq!(store.session_count(), 0);
    store.clear("never-there");
    assert_eq!(store.session_count(), 0);
}

#[test]
fn history_extend_push_and_clear() {
    let mut history = ChatHistory::from_messages(vec![Message::user("a")]);
    history
        .push(Message::tool_result("call_1", "42", false))
        .extend(vec![Message::assistant("b"), Message::user("c")]);
    assert_eq!(history.len(), 4);
    assert_eq!(history.messages()[1].role, Role::Tool);
    assert_eq!(history.last().unwrap().text(), "c");
    assert!(!history.is_empty());
    history.clear();
    assert!(history.is_empty());
    assert!(history.last().is_none());
}

#[test]
fn session_count_tracks_new_and_removed_sessions() {
    let mut store = InMemoryChatStore::new();
    store.save("a", vec![Message::user("1")]);
    assert_eq!(store.session_count(), 1);
    store.save("a", vec![]);
    assert_eq!(store.session_count(), 1);
    store.append("b", Message::user("2"));
    assert_eq!(store.session_count(), 2);
    store.append("b", Message::user("3"));
    assert_eq!(store.session_count(), 2);
    store.clear("a");
    assert_eq!(store.session_count(), 1);
}
