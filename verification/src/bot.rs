//! The bot's shared state: the session store, the flush scheduler's
//! published state, and the caller-side gate applied to a prompt
//! before any send.
//!
//! The flush loop itself (sleep for the interval, then clear) is run
//! by the embedding program; the decisions it takes between sleeps
//! live here, as verified transitions on [`BotData`].

use crate::chat::{BackendError, Session, SessionBuilder};
use crate::config::App;
use crate::store::{get_or_create_post, SessionStore};
use vstd::prelude::*;

verus! {

/// One day, in seconds: the unit the configured `flush_days` counts.
pub const ONE_DAY_IN_SECS: u64 = 86400;

/// The fixed flush interval for a configured number of days.
pub fn flush_interval_secs(flush_days: u8) -> (secs: u64)
    ensures
        secs == ONE_DAY_IN_SECS * flush_days,
{
    ONE_DAY_IN_SECS * (flush_days as u64)
}

/// The advertised next flush time after scheduling at `now`: the
/// current time plus the interval, saturating at the top of the
/// timestamp range rather than wrapping.
pub open spec fn spec_next_flush_time(now: i64, interval_secs: u64) -> int {
    if now + interval_secs > i64::MAX {
        i64::MAX as int
    } else {
        now + interval_secs
    }
}

/// Relies on chrono::Utc::now for the current wall-clock time as a
/// Unix timestamp in seconds; the value depends on the clock, so
/// nothing is promised of it.
#[verifier::external_body]
fn now_timestamp() -> i64 {
    chrono::Utc::now().timestamp()
}

/// The flush scheduler's published state: the advertised next flush
/// time (a Unix timestamp in seconds) and whether a clear is in
/// progress right now.
pub struct FlushState {
    next_flush: i64,
    flushing: bool,
}

impl FlushState {
    /// The advertised next flush time.
    pub closed spec fn spec_next_flush(&self) -> i64 {
        self.next_flush
    }

    /// Whether a clear is in progress.
    pub closed spec fn spec_flushing(&self) -> bool {
        self.flushing
    }

    /// A scheduler that has not yet published a flush time and is not
    /// flushing.
    pub fn new() -> (state: FlushState)
        ensures
            state.spec_next_flush() == 0,
            !state.spec_flushing(),
    {
        FlushState { next_flush: 0, flushing: false }
    }

    /// Publishes the next flush time computed from the given current
    /// time and interval; the flushing flag is untouched.
    pub fn schedule_next_flush(&mut self, now: i64, interval_secs: u64)
        requires
            interval_secs <= i64::MAX as u64,
        ensures
            final(self).spec_next_flush() == spec_next_flush_time(now, interval_secs),
            final(self).spec_flushing() == old(self).spec_flushing(),
    {
        let interval = interval_secs as i64;
        self.next_flush = if now > i64::MAX - interval {
            i64::MAX
        } else {
            now + interval
        };
    }

    /// The advertised next flush time, for status reporting.
    pub fn next_flush(&self) -> (timestamp: i64)
        ensures
            timestamp == self.spec_next_flush(),
    {
        self.next_flush
    }

    /// Whether a clear is in progress, for callers that prefer not to
    /// race a wipe.
    pub fn is_flushing(&self) -> (yes: bool)
        ensures
            yes == self.spec_flushing(),
    {
        self.flushing
    }

    /// Sets the advisory flushing flag; the published time is untouched.
    pub fn flushing(&mut self, yes: bool)
        ensures
            final(self).spec_flushing() == yes,
            final(self).spec_next_flush() == old(self).spec_next_flush(),
    {
        self.flushing = yes;
    }
}

/// Why a prompt is turned away before any send, if it is.
#[derive(Debug, Clone, Copy, PartialEq, Eq, Structural)]
pub enum PromptGate {
    /// The message exceeds the configured prompt size limit.
    TooLong,
    /// Histories are being flushed; the send should wait.
    Flushing,
    /// The prompt may proceed to a send.
    Proceed,
}

/// The caller-side gate before a send: an over-long message is turned
/// away first, then a store mid-flush; otherwise the prompt proceeds.
pub open spec fn spec_prompt_gate(content_len: nat, prompt_size: u16, flushing: bool) -> PromptGate {
    if content_len > prompt_size {
        PromptGate::TooLong
    } else if flushing {
        PromptGate::Flushing
    } else {
        PromptGate::Proceed
    }
}

/// Everything the bot shares between requests and with the flusher:
/// the session store, the flush schedule, the fixed flush interval and
/// the validated configuration.
pub struct BotData {
    next_flush: FlushState,
    flush_interval_secs: u64,
    sessions: SessionStore,
    conf: App,
}

impl BotData {
    /// The session store.
    pub closed spec fn spec_store(&self) -> SessionStore {
        self.sessions
    }

    /// The flush scheduler's published state.
    pub closed spec fn spec_flush(&self) -> FlushState {
        self.next_flush
    }

    /// The fixed flush interval in seconds.
    pub closed spec fn spec_flush_interval_secs(&self) -> u64 {
        self.flush_interval_secs
    }

    /// The validated configuration.
    pub closed spec fn spec_conf(&self) -> App {
        self.conf
    }

    /// The invariant: the store is well formed and the interval fits a
    /// timestamp.
    pub open spec fn wf(&self) -> bool {
        &&& self.spec_store().wf()
        &&& self.spec_flush_interval_secs() <= i64::MAX as u64
    }

    /// Fresh shared state: an empty store around the factory, no flush
    /// time published yet, the interval fixed from the configured
    /// number of flush days.
    pub fn new(sbuilder: SessionBuilder, conf: App) -> (data: BotData)
        requires
            sbuilder.wf(),
        ensures
            data.wf(),
            data.spec_flush_interval_secs() == ONE_DAY_IN_SECS * conf.chat.flush_days,
            data.spec_store().spec_history_size() == sbuilder.spec_history_size(),
            forall|t: u64, u: u64| data.spec_store().spec_session(t, u) is None,
            data.spec_flush().spec_next_flush() == 0,
            !data.spec_flush().spec_flushing(),
            data.spec_conf() == conf,
    {
        let flush_interval_secs = flush_interval_secs(conf.chat.flush_days);
        BotData {
            next_flush: FlushState::new(),
            flush_interval_secs,
            sessions: SessionStore::new(sbuilder),
            conf,
        }
    }

    /// Recomputes and publishes the next flush time: whatever the wall
    /// clock read, the published value is that reading plus the fixed
    /// interval (saturating); everything else is untouched.
    pub fn schedule_next_flush(&mut self)
        requires
            old(self).wf(),
        ensures
            final(self).wf(),
            exists|now: i64|
                final(self).spec_flush().spec_next_flush() == spec_next_flush_time(
                    now,
                    old(self).spec_flush_interval_secs(),
                ),
            final(self).spec_flush().spec_flushing() == old(self).spec_flush().spec_flushing(),
            final(self).spec_store() == old(self).spec_store(),
            final(self).spec_flush_interval_secs() == old(self).spec_flush_interval_secs(),
            final(self).spec_conf() == old(self).spec_conf(),
    {
        let ghost interval = self.flush_interval_secs;
        let now = now_timestamp();
        self.next_flush.schedule_next_flush(now, self.flush_interval_secs);
        proof {
            assert(self.next_flush.spec_next_flush() == spec_next_flush_time(now, interval));
        }
    }

    /// The advertised next flush time, for status reporting.
    pub fn next_flush(&self) -> (timestamp: i64)
        ensures
            timestamp == self.spec_flush().spec_next_flush(),
    {
        self.next_flush.next_flush()
    }

    /// The fixed flush interval in seconds, for the loop that sleeps it
    /// out between clears.
    pub fn flush_interval(&self) -> (secs: u64)
        ensures
            secs == self.spec_flush_interval_secs(),
    {
        self.flush_interval_secs
    }

    /// Whether histories are being flushed right now.
    pub fn is_flushing(&self) -> (yes: bool)
        ensures
            yes == self.spec_flush().spec_flushing(),
    {
        self.next_flush.is_flushing()
    }

    /// One flush cycle's clearing step: raises the advisory flag,
    /// removes every session of every tenant, then lowers the flag.
    pub fn flush(&mut self)
        requires
            old(self).wf(),
        ensures
            final(self).wf(),
            !final(self).spec_flush().spec_flushing(),
            forall|t: u64, u: u64| final(self).spec_store().spec_session(t, u) is None,
            final(self).spec_store().spec_history_size() == old(
                self,
            ).spec_store().spec_history_size(),
            final(self).spec_flush().spec_next_flush() == old(self).spec_flush().spec_next_flush(),
            final(self).spec_flush_interval_secs() == old(self).spec_flush_interval_secs(),
            final(self).spec_conf() == old(self).spec_conf(),
    {
        self.next_flush.flushing(true);
        self.sessions.clear_all();
        self.next_flush.flushing(false);
    }

    /// The caller-side gate for a prompt of the given length against
    /// this state's configured limit and flush flag.
    pub fn prompt_gate(&self, content_len: usize) -> (gate: PromptGate)
        ensures
            gate == spec_prompt_gate(
                content_len as nat,
                self.spec_conf().chat.prompt_size,
                self.spec_flush().spec_flushing(),
            ),
    {
        if content_len > self.conf.chat.prompt_size as usize {
            PromptGate::TooLong
        } else if (self.next_flush.is_flushing()) {
            PromptGate::Flushing
        } else {
            PromptGate::Proceed
        }
    }

    /// Looks up or lazily creates the session for a key.
    pub fn get_or_create(&mut self, tenant_id: u64, user_id: u64)
        requires
            old(self).wf(),
        ensures
            final(self).wf(),
            get_or_create_post(
                old(self).spec_store(),
                final(self).spec_store(),
                tenant_id,
                user_id,
            ),
            final(self).spec_flush() == old(self).spec_flush(),
            final(self).spec_flush_interval_secs() == old(self).spec_flush_interval_secs(),
            final(self).spec_conf() == old(self).spec_conf(),
    {
        self.sessions.get_or_create(tenant_id, user_id);
    }

    /// Read-only lookup of a key's session.
    pub fn session(&self, tenant_id: u64, user_id: u64) -> (r: Option<&Session>)
        requires
            self.wf(),
        ensures
            match r {
                Some(session) => self.spec_store().spec_session(tenant_id, user_id) == Some(
                    *session,
                ),
                None => self.spec_store().spec_session(tenant_id, user_id) is None,
            },
    {
        self.sessions.session(tenant_id, user_id)
    }

    /// Records the outcome of one send for a key, creating the session
    /// first if absent; no other key's session is touched.
    pub fn send_message(
        &mut self,
        tenant_id: u64,
        user_id: u64,
        content: String,
        response: Result<String, BackendError>,
    ) -> (r: Result<String, BackendError>)
        requires
            old(self).wf(),
        ensures
            final(self).wf(),
            r == response,
            final(self).spec_store().spec_contains(tenant_id, user_id),
            response is Ok ==> final(self).spec_store().spec_history_of(tenant_id, user_id)
                == crate::chat::fifo_push(
                old(self).spec_store().spec_history_of(tenant_id, user_id),
                old(self).spec_store().spec_history_size(),
                (content@, response->Ok_0@),
            ),
            response is Err ==> final(self).spec_store().spec_history_of(tenant_id, user_id)
                == old(self).spec_store().spec_history_of(tenant_id, user_id),
            forall|t: u64, u: u64|
                !(t == tenant_id && u == user_id) ==> final(self).spec_store().spec_session(t, u)
                    == old(self).spec_store().spec_session(t, u),
            final(self).spec_store().spec_history_size() == old(
                self,
            ).spec_store().spec_history_size(),
            final(self).spec_flush() == old(self).spec_flush(),
            final(self).spec_flush_interval_secs() == old(self).spec_flush_interval_secs(),
            final(self).spec_conf() == old(self).spec_conf(),
    {
        self.sessions.send_message(tenant_id, user_id, content, response)
    }

    /// Rolls back the most recent exchange of a key's session; a safe
    /// no-op where there is nothing to remove.
    pub fn remove_last_interaction(&mut self, tenant_id: u64, user_id: u64)
        requires
            old(self).wf(),
        ensures
            final(self).wf(),
            old(self).spec_store().spec_history_of(tenant_id, user_id).len() == 0 ==> final(self)
                .spec_store().spec_history_of(tenant_id, user_id) == old(
                self,
            ).spec_store().spec_history_of(tenant_id, user_id),
            old(self).spec_store().spec_history_of(tenant_id, user_id).len() > 0 ==> final(self)
                .spec_store().spec_history_of(tenant_id, user_id) == old(
                self,
            ).spec_store().spec_history_of(tenant_id, user_id).drop_last(),
            forall|t: u64, u: u64|
                !(t == tenant_id && u == user_id) ==> final(self).spec_store().spec_session(t, u)
                    == old(self).spec_store().spec_session(t, u),
            final(self).spec_store().spec_history_size() == old(
                self,
            ).spec_store().spec_history_size(),
            final(self).spec_flush() == old(self).spec_flush(),
            final(self).spec_flush_interval_secs() == old(self).spec_flush_interval_secs(),
            final(self).spec_conf() == old(self).spec_conf(),
    {
        self.sessions.remove_last_interaction(tenant_id, user_id);
    }

    /// The validated configuration, for status reporting.
    pub fn conf(&self) -> (conf: &App)
        ensures
            conf == self.spec_conf(),
    {
        &self.conf
    }
}

} // verus!
