use groqddbot::bot::{BotData, FlushState, PromptGate, flush_interval_secs};
use groqddbot::chat::{BackendError, SessionBuilder};
use groqddbot::config::{AiProvider, App, Bot, Chat, Error};
use groqddbot::store::SessionStore;

fn store(capacity: usize) -> SessionStore {
    SessionStore::new(SessionBuilder::new("key".to_string(), "model".to_string(), capacity))
}

fn ok(text: &str) -> Result<String, BackendError> {
    Ok(text.to_string())
}

fn err(message: &str) -> Result<String, BackendError> {
    Err(BackendError { message: message.to_string() })
}

fn history(store: &SessionStore, tenant: u64, user: u64) -> Vec<(String, String)> {
    let session = store.session(tenant, user).expect("session should exist");
    let mut pairs = Vec::new();
    for i in 0..session.history_len() {
        let it = session.interaction_at(i);
        pairs.push((it.user_text.clone(), it.assistant_text.clone()));
    }
    pairs
}

fn pair(user: &str, assistant: &str) -> (String, String) {
    (user.to_string(), assistant.to_string())
}

#[test]
fn get_or_create_is_lazy_and_keeps_the_first_session() {
    let mut st = store(2);
    assert!(st.session(1, 10).is_none());
    st.get_or_create(1, 10);
    let s = st.session(1, 10).expect("created");
    assert_eq!(s.history_len(), 0);
    assert_eq!(s.capacity(), 2);
    // populate, then ask again: the existing session must survive
    st.send_message(1, 10, "q".to_string(), ok("r")).unwrap();
    st.get_or_create(1, 10);
    assert_eq!(history(&st, 1, 10), vec![pair("q", "r")]);
}

#[test]
fn single_winner_creation_for_one_key() {
    let mut st = store(2);
    for _ in 0..50 {
        st.get_or_create(7, 7);
    }
    st.send_message(7, 7, "only".to_string(), ok("one")).unwrap();
    for _ in 0..50 {
        st.get_or_create(7, 7);
    }
    // every call observed the same underlying session: its history evolved once
    assert_eq!(history(&st, 7, 7), vec![pair("only", "one")]);
}

#[test]
fn cross_key_isolation() {
    let mut st = store(4);
    st.send_message(1, 100, "to a-x".to_string(), ok("A")).unwrap();
    st.send_message(1, 200, "to a-y".to_string(), ok("B")).unwrap();
    st.send_message(2, 100, "to b-x".to_string(), ok("C")).unwrap();
    assert_eq!(history(&st, 1, 100), vec![pair("to a-x", "A")]);
    assert_eq!(history(&st, 1, 200), vec![pair("to a-y", "B")]);
    assert_eq!(history(&st, 2, 100), vec![pair("to b-x", "C")]);
    st.remove_last_interaction(1, 200);
    assert_eq!(history(&st, 1, 100), vec![pair("to a-x", "A")]);
    assert_eq!(history(&st, 1, 200), vec![]);
    assert_eq!(history(&st, 2, 100), vec![pair("to b-x", "C")]);
}

#[test]
fn clear_all_wipes_every_tenant_and_user() {
    let mut st = store(3);
    for tenant in [1u64, 2u64] {
        for user in [10u64, 20u64] {
            st.send_message(tenant, user, format!("t{}u{}", tenant, user), ok("r")).unwrap();
        }
    }
    st.clear_all();
    for tenant in [1u64, 2u64] {
        for user in [10u64, 20u64] {
            assert!(st.session(tenant, user).is_none());
            st.get_or_create(tenant, user);
            let s = st.session(tenant, user).expect("recreated");
            assert_eq!(s.history_len(), 0);
        }
    }
}

#[test]
fn failed_send_keeps_store_history() {
    let mut st = store(2);
    st.send_message(3, 4, "a".to_string(), ok("A")).unwrap();
    let r = st.send_message(3, 4, "b".to_string(), err("backend down"));
    assert_eq!(r.unwrap_err().message, "backend down");
    assert_eq!(history(&st, 3, 4), vec![pair("a", "A")]);
}

#[test]
fn failed_send_still_creates_the_session() {
    let mut st = store(2);
    let r = st.send_message(5, 6, "x".to_string(), err("nope"));
    assert!(r.is_err());
    assert_eq!(history(&st, 5, 6), vec![]);
}

#[test]
fn undo_on_absent_key_is_a_no_op() {
    let mut st = store(2);
    st.remove_last_interaction(9, 9);
    assert!(st.session(9, 9).is_none());
}

#[test]
fn store_scenario_capacity_two() {
    let mut st = store(2);
    assert_eq!(st.send_message(1, 1, "a".to_string(), ok("A")).unwrap(), "A");
    assert_eq!(st.send_message(1, 1, "b".to_string(), ok("B")).unwrap(), "B");
    assert_eq!(st.send_message(1, 1, "c".to_string(), ok("C")).unwrap(), "C");
    assert_eq!(history(&st, 1, 1), vec![pair("b", "B"), pair("c", "C")]);
    st.remove_last_interaction(1, 1);
    assert_eq!(history(&st, 1, 1), vec![pair("b", "B")]);
    let r = st.send_message(1, 1, "d".to_string(), err("not delivered"));
    assert!(r.is_err());
    assert_eq!(history(&st, 1, 1), vec![pair("b", "B")]);
}

fn conf(prompt_size: u16, flush_days: u8, history_size: u8) -> Result<App, Error> {
    App::parse(
        Bot { discord_token: "token".to_string() },
        Chat { prompt_size, flush_days, history_size },
        AiProvider { api_key: "api".to_string(), model: "m".to_string() },
    )
}

#[test]
fn config_accepts_values_in_range() {
    let app = conf(255, 1, 1).unwrap();
    assert_eq!(app.chat.prompt_size, 255);
    assert_eq!(app.chat.flush_days, 1);
    assert_eq!(app.chat.history_size, 1);
    assert_eq!(app.bot.discord_token, "token");
    assert_eq!(app.ai_provider.api_key, "api");
    assert_eq!(app.ai_provider.model, "m");
    assert!(conf(4096, 200, 30).is_ok());
}

#[test]
fn config_rejects_out_of_range_values() {
    assert_eq!(conf(254, 1, 1).unwrap_err(), Error::InvalidFlushDays);
    assert_eq!(conf(4097, 1, 1).unwrap_err(), Error::InvalidFlushDays);
    assert_eq!(conf(1000, 0, 1).unwrap_err(), Error::InvalidFlushDays);
    assert_eq!(conf(1000, 1, 0).unwrap_err(), Error::InvalidHistorySize);
}

#[test]
fn flush_state_publishes_scheduled_time() {
    let mut fs = FlushState::new();
    assert_eq!(fs.next_flush(), 0);
    assert!(!fs.is_flushing());
    fs.schedule_next_flush(1_000_000, 3600);
    assert_eq!(fs.next_flush(), 1_003_600);
    assert!(!fs.is_flushing());
    fs.flushing(true);
    assert!(fs.is_flushing());
    assert_eq!(fs.next_flush(), 1_003_600);
    fs.flushing(false);
    assert!(!fs.is_flushing());
}

#[test]
fn flush_schedule_saturates_instead_of_wrapping() {
    let mut fs = FlushState::new();
    fs.schedule_next_flush(i64::MAX - 10, 3600);
    assert_eq!(fs.next_flush(), i64::MAX);
}

#[test]
fn flush_interval_comes_from_configured_days() {
    assert_eq!(flush_interval_secs(1), 86400);
    assert_eq!(flush_interval_secs(7), 7 * 86400);
    assert_eq!(flush_interval_secs(255), 255 * 86400);
}

fn bot_data(prompt_size: u16, flush_days: u8, history_size: u8) -> BotData {
    let app = conf(prompt_size, flush_days, history_size).unwrap();
    let sbuilder = SessionBuilder::new(
        app.ai_provider.api_key.clone(),
        app.ai_provider.model.clone(),
        app.chat.history_size as usize,
    );
    BotData::new(sbuilder, app)
}

#[test]
fn bot_data_flush_clears_all_sessions_and_lowers_flag() {
    let mut data = bot_data(300, 2, 2);
    data.send_message(1, 1, "a".to_string(), ok("A")).unwrap();
    data.send_message(2, 2, "b".to_string(), ok("B")).unwrap();
    assert!(data.session(1, 1).is_some());
    data.flush();
    assert!(!data.is_flushing());
    assert!(data.session(1, 1).is_none());
    assert!(data.session(2, 2).is_none());
    data.get_or_create(1, 1);
    assert_eq!(data.session(1, 1).unwrap().history_len(), 0);
}

#[test]
fn bot_data_undo_rolls_back_one_key_only() {
    let mut data = bot_data(300, 1, 3);
    data.send_message(1, 1, "one".to_string(), ok("1")).unwrap();
    data.send_message(1, 2, "two".to_string(), ok("2")).unwrap();
    data.remove_last_interaction(1, 1);
    assert_eq!(data.session(1, 1).unwrap().history_len(), 0);
    assert_eq!(data.session(1, 2).unwrap().history_len(), 1);
}

#[test]
fn prompt_gate_orders_its_checks() {
    let data = bot_data(300, 1, 2);
    assert_eq!(data.prompt_gate(300), PromptGate::Proceed);
    assert_eq!(data.prompt_gate(301), PromptGate::TooLong);
    assert_eq!(data.conf().chat.prompt_size, 300);
}

#[test]
fn bot_data_starts_with_no_flush_published() {
    let data = bot_data(256, 3, 1);
    assert_eq!(data.next_flush(), 0);
    assert!(!data.is_flushing());
}
