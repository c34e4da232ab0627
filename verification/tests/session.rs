use groqddbot::chat::{BackendError, Role, SessionBuilder};

fn builder(capacity: usize) -> SessionBuilder {
    SessionBuilder::new("key".to_string(), "model".to_string(), capacity)
}

fn ok(text: &str) -> Result<String, BackendError> {
    Ok(text.to_string())
}

fn err(message: &str) -> Result<String, BackendError> {
    Err(BackendError { message: message.to_string() })
}

#[test]
fn builder_creates_empty_sessions() {
    let b = builder(3);
    let s = b.create_chat();
    assert_eq!(s.history_len(), 0);
    assert_eq!(s.capacity(), 3);
    assert_eq!(b.key(), "key");
    assert_eq!(b.model(), "model");
    let s2 = b.create_chat();
    assert_eq!(s2.history_len(), 0);
}

#[test]
fn bounded_history_holds_min_of_sends_and_capacity() {
    let capacity = 3;
    let mut s = builder(capacity).create_chat();
    for n in 1..=7u32 {
        let user = format!("u{}", n);
        let reply = format!("a{}", n);
        let r = s.send_message(user.clone(), ok(&reply));
        assert_eq!(r.unwrap(), reply);
        assert_eq!(s.history_len(), (n as usize).min(capacity));
        // the retained interactions are exactly the most recent, in order
        let kept = s.history_len();
        for i in 0..kept {
            let oldest = n as usize - kept;
            let expected = oldest + i + 1;
            assert_eq!(s.interaction_at(i).user_text, format!("u{}", expected));
            assert_eq!(s.interaction_at(i).assistant_text, format!("a{}", expected));
        }
    }
}

#[test]
fn fifo_eviction_drops_exactly_the_oldest() {
    let mut s = builder(2).create_chat();
    s.send_message("one".to_string(), ok("1")).unwrap();
    s.send_message("two".to_string(), ok("2")).unwrap();
    s.send_message("three".to_string(), ok("3")).unwrap();
    assert_eq!(s.history_len(), 2);
    assert_eq!(s.interaction_at(0).user_text, "two");
    assert_eq!(s.interaction_at(0).assistant_text, "2");
    assert_eq!(s.interaction_at(1).user_text, "three");
    assert_eq!(s.interaction_at(1).assistant_text, "3");
}

#[test]
fn undo_after_send_restores_previous_history() {
    let mut s = builder(4).create_chat();
    s.send_message("first".to_string(), ok("F")).unwrap();
    s.send_message("second".to_string(), ok("S")).unwrap();
    s.pop_last_interaction();
    assert_eq!(s.history_len(), 1);
    assert_eq!(s.interaction_at(0).user_text, "first");
    assert_eq!(s.interaction_at(0).assistant_text, "F");
}

#[test]
fn undo_on_empty_history_is_a_no_op() {
    let mut s = builder(2).create_chat();
    s.pop_last_interaction();
    assert_eq!(s.history_len(), 0);
    s.pop_last_interaction();
    assert_eq!(s.history_len(), 0);
}

#[test]
fn failed_send_leaves_history_untouched_and_propagates() {
    let mut s = builder(2).create_chat();
    s.send_message("hello".to_string(), ok("world")).unwrap();
    let r = s.send_message("broken".to_string(), err("no route"));
    assert_eq!(r.unwrap_err().message, "no route");
    assert_eq!(s.history_len(), 1);
    assert_eq!(s.interaction_at(0).user_text, "hello");
    assert_eq!(s.interaction_at(0).assistant_text, "world");
}

#[test]
fn session_scenario_capacity_two() {
    let mut s = builder(2).create_chat();
    assert_eq!(s.send_message("a".to_string(), ok("A")).unwrap(), "A");
    assert_eq!(s.send_message("b".to_string(), ok("B")).unwrap(), "B");
    assert_eq!(s.send_message("c".to_string(), ok("C")).unwrap(), "C");
    assert_eq!(s.history_len(), 2);
    assert_eq!(s.interaction_at(0).user_text, "b");
    assert_eq!(s.interaction_at(0).assistant_text, "B");
    assert_eq!(s.interaction_at(1).user_text, "c");
    assert_eq!(s.interaction_at(1).assistant_text, "C");
    s.pop_last_interaction();
    assert_eq!(s.history_len(), 1);
    assert_eq!(s.interaction_at(0).user_text, "b");
    assert_eq!(s.interaction_at(0).assistant_text, "B");
    let r = s.send_message("d".to_string(), err("delivery failed"));
    assert!(r.is_err());
    assert_eq!(s.history_len(), 1);
    assert_eq!(s.interaction_at(0).user_text, "b");
    assert_eq!(s.interaction_at(0).assistant_text, "B");
}

#[test]
fn request_flattens_history_then_appends_new_message() {
    let mut s = builder(3).create_chat();
    s.send_message("q1".to_string(), ok("r1")).unwrap();
    s.send_message("q2".to_string(), ok("r2")).unwrap();
    let request = s.build_request("q3");
    assert_eq!(request.len(), 5);
    assert_eq!(request[0].role, Role::User);
    assert_eq!(request[0].content, "q1");
    assert_eq!(request[1].role, Role::Assistant);
    assert_eq!(request[1].content, "r1");
    assert_eq!(request[2].role, Role::User);
    assert_eq!(request[2].content, "q2");
    assert_eq!(request[3].role, Role::Assistant);
    assert_eq!(request[3].content, "r2");
    assert_eq!(request[4].role, Role::User);
    assert_eq!(request[4].content, "q3");
}

#[test]
fn request_on_empty_history_is_just_the_new_message() {
    let s = builder(2).create_chat();
    let request = s.build_request("hello");
    assert_eq!(request.len(), 1);
    assert_eq!(request[0].role, Role::User);
    assert_eq!(request[0].content, "hello");
}
