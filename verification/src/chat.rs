//! One conversation: a bounded FIFO history of exchanges plus the
//! identity needed to reach the remote chat-completion backend.
//!
//! The remote call itself is asynchronous I/O and happens outside this
//! library: a caller asks [`Session::build_request`] for the ordered
//! message list, performs the call, and hands the outcome to
//! [`Session::send_message`], which records it (or, on failure, leaves
//! the history untouched).

use std::collections::VecDeque;
use vstd::prelude::*;

verus! {

/// One completed user/assistant exchange, the atomic unit of history;
/// immutable once recorded.
#[derive(Debug)]
pub struct Interaction {
    pub user_text: String,
    pub assistant_text: String,
}

impl View for Interaction {
    type V = (Seq<char>, Seq<char>);

    open spec fn view(&self) -> (Seq<char>, Seq<char>) {
        (self.user_text@, self.assistant_text@)
    }
}

/// The remote call failed or returned unusable content; propagated to
/// the caller unchanged, with no history mutation.
#[derive(Debug)]
pub struct BackendError {
    pub message: String,
}

/// Who produced a message of an outgoing request.
#[derive(Debug, Clone, Copy, PartialEq, Eq, Structural)]
pub enum Role {
    User,
    Assistant,
}

/// One message of an outgoing backend request.
#[derive(Debug)]
pub struct Message {
    pub role: Role,
    pub content: String,
}

impl View for Message {
    type V = (Role, Seq<char>);

    open spec fn view(&self) -> (Role, Seq<char>) {
        (self.role, self.content@)
    }
}

/// A bounded history after one more exchange: append, evicting the
/// oldest entry first when the buffer already holds `capacity` entries.
pub open spec fn fifo_push(
    history: Seq<(Seq<char>, Seq<char>)>,
    capacity: nat,
    exchange: (Seq<char>, Seq<char>),
) -> Seq<(Seq<char>, Seq<char>)> {
    if history.len() < capacity {
        history.push(exchange)
    } else {
        history.drop_first().push(exchange)
    }
}

/// The history obtained by starting from an empty buffer of the given
/// capacity and recording every exchange of `sends` in order, each
/// under the FIFO-eviction rule.
pub open spec fn replay_sends(
    sends: Seq<(Seq<char>, Seq<char>)>,
    capacity: nat,
) -> Seq<(Seq<char>, Seq<char>)>
    decreases sends.len(),
{
    if sends.len() == 0 {
        Seq::empty()
    } else {
        fifo_push(replay_sends(sends.drop_last(), capacity), capacity, sends.last())
    }
}

/// Bounded history: after any sequence of successful sends against a
/// capacity of at least one, the history holds `min(sends, capacity)`
/// exchanges, and they are exactly the most recent sends, in
/// chronological order.
pub proof fn lemma_bounded_history(sends: Seq<(Seq<char>, Seq<char>)>, capacity: nat)
    requires
        capacity >= 1,
    ensures
        replay_sends(sends, capacity).len() == if sends.len() <= capacity {
            sends.len()
        } else {
            capacity
        },
        replay_sends(sends, capacity) == sends.subrange(
            sends.len() - replay_sends(sends, capacity).len(),
            sends.len() as int,
        ),
    decreases sends.len(),
{
    if sends.len() == 0 {
        assert(replay_sends(sends, capacity) =~= sends.subrange(0, 0));
    } else {
        let n = sends.len() as int;
        let prior = sends.drop_last();
        lemma_bounded_history(prior, capacity);
        let prev = replay_sends(prior, capacity);
        let start = prior.len() - prev.len();
        assert(forall|i: int| 0 <= i < prior.len() ==> prior[i] == sends[i]);
        assert(forall|j: int| 0 <= j < prev.len() ==> prev[j] == prior[start + j]);
        let result = replay_sends(sends, capacity);
        assert(result =~= sends.subrange(n - result.len(), n));
    }
}

/// FIFO eviction: recording an exchange against a full history drops
/// exactly the oldest entry, keeps every other entry in order, and
/// places the new exchange last.
pub proof fn lemma_fifo_eviction(
    history: Seq<(Seq<char>, Seq<char>)>,
    capacity: nat,
    exchange: (Seq<char>, Seq<char>),
)
    requires
        capacity >= 1,
        history.len() == capacity,
    ensures
        fifo_push(history, capacity, exchange) == history.drop_first().push(exchange),
        fifo_push(history, capacity, exchange).len() == capacity,
        fifo_push(history, capacity, exchange).last() == exchange,
        forall|i: int|
            0 <= i < capacity - 1 ==> fifo_push(history, capacity, exchange)[i] == history[i + 1],
{
}

/// Undo correctness: as long as the history was not yet full, removing
/// the last exchange right after recording one restores the exact
/// pre-send history. (A send against a full history discards the
/// oldest exchange, which no undo can bring back.)
pub proof fn lemma_send_then_undo(
    history: Seq<(Seq<char>, Seq<char>)>,
    capacity: nat,
    exchange: (Seq<char>, Seq<char>),
)
    requires
        capacity >= 1,
        history.len() < capacity,
    ensures
        fifo_push(history, capacity, exchange).drop_last() == history,
{
    assert(fifo_push(history, capacity, exchange).drop_last() =~= history);
}

/// A history flattened into request messages: each exchange contributes
/// its user message followed by its assistant message, in history order.
pub open spec fn flatten_history(history: Seq<(Seq<char>, Seq<char>)>) -> Seq<(Role, Seq<char>)>
    decreases history.len(),
{
    if history.len() == 0 {
        Seq::empty()
    } else {
        flatten_history(history.drop_last())
            + seq![(Role::User, history.last().0), (Role::Assistant, history.last().1)]
    }
}

/// The views of a list of request messages, in order.
pub open spec fn messages_view(messages: Seq<Message>) -> Seq<(Role, Seq<char>)> {
    messages.map_values(|m: Message| m@)
}

/// One conversation's bounded memory: an ordered FIFO buffer of at most
/// `capacity` interactions (the capacity is fixed at creation).
#[derive(Debug)]
pub struct Session {
    history: VecDeque<Interaction>,
    capacity: usize,
}

impl Session {
    /// The recorded exchanges, oldest first.
    pub closed spec fn spec_history(&self) -> Seq<(Seq<char>, Seq<char>)> {
        self.history@.map_values(|i: Interaction| i@)
    }

    /// The fixed bound on how many exchanges the history retains.
    pub closed spec fn spec_capacity(&self) -> nat {
        self.capacity as nat
    }

    /// The session invariant: the capacity is at least one and the
    /// history never exceeds it.
    pub open spec fn wf(&self) -> bool {
        &&& self.spec_capacity() >= 1
        &&& self.spec_history().len() <= self.spec_capacity()
    }

    fn new(capacity: usize) -> (s: Session)
        requires
            capacity >= 1,
        ensures
            s.wf(),
            s.spec_history() == Seq::<(Seq<char>, Seq<char>)>::empty(),
            s.spec_capacity() == capacity as nat,
    {
        let s = Session { history: VecDeque::with_capacity(capacity), capacity };
        proof {
            assert(s.spec_history() =~= Seq::<(Seq<char>, Seq<char>)>::empty());
        }
        s
    }

    /// How many exchanges are currently retained.
    pub fn history_len(&self) -> (n: usize)
        ensures
            n == self.spec_history().len(),
    {
        self.history.len()
    }

    /// The fixed history capacity.
    pub fn capacity(&self) -> (c: usize)
        ensures
            c == self.spec_capacity(),
    {
        self.capacity
    }

    /// The `i`-th oldest retained exchange.
    pub fn interaction_at(&self, i: usize) -> (interaction: &Interaction)
        requires
            i < self.spec_history().len(),
        ensures
            interaction@ == self.spec_history()[i as int],
    {
        &self.history[i]
    }

    /// Appends one exchange, evicting the oldest first when the buffer
    /// is full, so that the history stays within its capacity.
    fn append_to_history(&mut self, interaction: Interaction)
        requires
            old(self).wf(),
        ensures
            final(self).wf(),
            final(self).spec_capacity() == old(self).spec_capacity(),
            final(self).spec_history() == fifo_push(
                old(self).spec_history(),
                old(self).spec_capacity(),
                interaction@,
            ),
    {
        if self.history.len() == self.capacity {
            let ghost before = self.history@;
            self.history.pop_front();
            proof {
                assert(self.history@.map_values(|i: Interaction| i@) =~= before.map_values(
                    |i: Interaction| i@,
                ).drop_first());
            }
        }
        let ghost mid = self.history@;
        self.history.push_back(interaction);
        proof {
            assert(self.history@.map_values(|i: Interaction| i@) =~= mid.map_values(
                |i: Interaction| i@,
            ).push(interaction@));
        }
    }

    /// The ordered request for the backend: every retained exchange,
    /// flattened into user and assistant messages in chronological
    /// order, followed by the new user message.
    pub fn build_request(&self, content: &str) -> (request: Vec<Message>)
        ensures
            messages_view(request@) == flatten_history(self.spec_history()).push(
                (Role::User, content@),
            ),
    {
        let ghost history = self.spec_history();
        let mut request: Vec<Message> = Vec::new();
        proof {
            assert(messages_view(request@) =~= flatten_history(history.take(0)));
        }
        let n = self.history.len();
        for i in 0..n
            invariant
                n == self.history@.len(),
                history == self.spec_history(),
                messages_view(request@) == flatten_history(history.take(i as int)),
        {
            let ghost prefix = request@;
            let interaction = &self.history[i];
            request.push(Message { role: Role::User, content: interaction.user_text.clone() });
            request.push(
                Message { role: Role::Assistant, content: interaction.assistant_text.clone() },
            );
            proof {
                assert(history.take(i + 1).drop_last() =~= history.take(i as int));
                assert(messages_view(request@) =~= messages_view(prefix) + seq![
                    (Role::User, history[i as int].0),
                    (Role::Assistant, history[i as int].1),
                ]);
            }
        }
        proof {
            assert(history.take(n as int) =~= history);
        }
        let ghost full = request@;
        request.push(Message { role: Role::User, content: content.to_owned() });
        proof {
            assert(messages_view(request@) =~= messages_view(full).push((Role::User, content@)));
        }
        request
    }

    /// Records the outcome of one send: on success the new exchange is
    /// appended under the FIFO-eviction rule and the reply is returned;
    /// on failure the history is left untouched and the error is
    /// propagated unchanged.
    pub fn send_message(&mut self, content: String, response: Result<String, BackendError>) -> (r:
        Result<String, BackendError>)
        requires
            old(self).wf(),
        ensures
            final(self).wf(),
            final(self).spec_capacity() == old(self).spec_capacity(),
            r == response,
            response is Ok ==> final(self).spec_history() == fifo_push(
                old(self).spec_history(),
                old(self).spec_capacity(),
                (content@, response->Ok_0@),
            ),
            response is Err ==> *final(self) == *old(self),
    {
        match response {
            Ok(text) => {
                let assistant_text = text.clone();
                self.append_to_history(Interaction { user_text: content, assistant_text });
                Ok(text)
            },
            Err(err) => Err(err),
        }
    }

    /// Removes the most recently appended exchange if one is present; a
    /// safe no-op on an empty history. Callers use this to roll back a
    /// reply that could not be delivered onward.
    pub fn pop_last_interaction(&mut self)
        requires
            old(self).wf(),
        ensures
            final(self).wf(),
            final(self).spec_capacity() == old(self).spec_capacity(),
            old(self).spec_history().len() == 0 ==> final(self).spec_history() == old(
                self,
            ).spec_history(),
            old(self).spec_history().len() > 0 ==> final(self).spec_history() == old(
                self,
            ).spec_history().drop_last(),
    {
        let ghost before = self.history@;
        let _popped = self.history.pop_back();
        proof {
            if before.len() > 0 {
                assert(self.history@.map_values(|i: Interaction| i@) =~= before.map_values(
                    |i: Interaction| i@,
                ).drop_last());
            }
        }
    }
}

/// Builds fresh sessions bound to one backend credential, model and
/// history capacity; stateless beyond its construction parameters.
pub struct SessionBuilder {
    key: String,
    model: String,
    history_size: usize,
}

impl SessionBuilder {
    /// The backend credential each built session will use.
    pub closed spec fn spec_key(&self) -> Seq<char> {
        self.key@
    }

    /// The backend model each built session will use.
    pub closed spec fn spec_model(&self) -> Seq<char> {
        self.model@
    }

    /// The history capacity each built session will have.
    pub closed spec fn spec_history_size(&self) -> nat {
        self.history_size as nat
    }

    /// The builder invariant: sessions hold at least one exchange.
    pub open spec fn wf(&self) -> bool {
        self.spec_history_size() >= 1
    }

    pub fn new(key: String, model: String, history_size: usize) -> (b: SessionBuilder)
        requires
            history_size >= 1,
        ensures
            b.wf(),
            b.spec_key() == key@,
            b.spec_model() == model@,
            b.spec_history_size() == history_size as nat,
    {
        SessionBuilder { key, model, history_size }
    }

    /// A fresh, independent session with empty history and this
    /// builder's capacity.
    pub fn create_chat(&self) -> (s: Session)
        requires
            self.wf(),
        ensures
            s.wf(),
            s.spec_history() == Seq::<(Seq<char>, Seq<char>)>::empty(),
            s.spec_capacity() == self.spec_history_size(),
    {
        Session::new(self.history_size)
    }

    /// The backend credential, for the caller that performs the call.
    pub fn key(&self) -> (k: &String)
        ensures
            k@ == self.spec_key(),
    {
        &self.key
    }

    /// The backend model name, for the caller that performs the call.
    pub fn model(&self) -> (m: &String)
        ensures
            m@ == self.spec_model(),
    {
        &self.model
    }
}

} // verus!
