//! The session store: a two-level keyed cache (tenant, then user) of
//! mutable conversation state, with get-or-create semantics, per-key
//! isolation, and a store-wide clear.

use crate::chat::{fifo_push, BackendError, Session, SessionBuilder};
use vstd::prelude::*;

verus! {

/// One user's session within a tenant.
struct UserEntry {
    user_id: u64,
    session: Session,
}

/// All sessions of one tenant.
struct TenantEntry {
    tenant_id: u64,
    users: Vec<UserEntry>,
}

spec fn find_user(users: Seq<UserEntry>, user_id: u64) -> Option<Session>
    decreases users.len(),
{
    if users.len() == 0 {
        None
    } else if users.last().user_id == user_id {
        Some(users.last().session)
    } else {
        find_user(users.drop_last(), user_id)
    }
}

spec fn find_tenant(tenants: Seq<TenantEntry>, tenant_id: u64) -> Option<TenantEntry>
    decreases tenants.len(),
{
    if tenants.len() == 0 {
        None
    } else if tenants.last().tenant_id == tenant_id {
        Some(tenants.last())
    } else {
        find_tenant(tenants.drop_last(), tenant_id)
    }
}

spec fn unique_user_ids(users: Seq<UserEntry>) -> bool {
    forall|i: int, j: int|
        0 <= i < j < users.len() ==> users[i].user_id != users[j].user_id
}

spec fn unique_tenant_ids(tenants: Seq<TenantEntry>) -> bool {
    forall|i: int, j: int|
        0 <= i < j < tenants.len() ==> tenants[i].tenant_id != tenants[j].tenant_id
}

spec fn user_entry_wf(entry: UserEntry, capacity: nat) -> bool {
    &&& entry.session.wf()
    &&& entry.session.spec_capacity() == capacity
}

spec fn tenant_entry_wf(entry: TenantEntry, capacity: nat) -> bool {
    &&& unique_user_ids(entry.users@)
    &&& forall|j: int| 0 <= j < entry.users@.len() ==> user_entry_wf(#[trigger] entry.users@[j], capacity)
}

proof fn lemma_find_user_none(users: Seq<UserEntry>, user_id: u64)
    ensures
        (find_user(users, user_id) is None) <==> (forall|i: int|
            0 <= i < users.len() ==> users[i].user_id != user_id),
    decreases users.len(),
{
    if users.len() > 0 {
        lemma_find_user_none(users.drop_last(), user_id);
        assert(forall|i: int| 0 <= i < users.len() - 1 ==> users.drop_last()[i] == users[i]);
    }
}

proof fn lemma_find_user_at(users: Seq<UserEntry>, user_id: u64, i: int)
    requires
        unique_user_ids(users),
        0 <= i < users.len(),
        users[i].user_id == user_id,
    ensures
        find_user(users, user_id) == Some(users[i].session),
    decreases users.len(),
{
    if i < users.len() - 1 {
        lemma_find_user_at(users.drop_last(), user_id, i);
    }
}

proof fn lemma_find_tenant_none(tenants: Seq<TenantEntry>, tenant_id: u64)
    ensures
        (find_tenant(tenants, tenant_id) is None) <==> (forall|i: int|
            0 <= i < tenants.len() ==> tenants[i].tenant_id != tenant_id),
    decreases tenants.len(),
{
    if tenants.len() > 0 {
        lemma_find_tenant_none(tenants.drop_last(), tenant_id);
        assert(forall|i: int| 0 <= i < tenants.len() - 1 ==> tenants.drop_last()[i] == tenants[i]);
    }
}

proof fn lemma_find_tenant_at(tenants: Seq<TenantEntry>, tenant_id: u64, i: int)
    requires
        unique_tenant_ids(tenants),
        0 <= i < tenants.len(),
        tenants[i].tenant_id == tenant_id,
    ensures
        find_tenant(tenants, tenant_id) == Some(tenants[i]),
    decreases tenants.len(),
{
    if i < tenants.len() - 1 {
        lemma_find_tenant_at(tenants.drop_last(), tenant_id, i);
    }
}

/// Appending an entry with a fresh user id keeps the ids unique, maps
/// that id to the new entry, and leaves every other lookup unchanged.
proof fn lemma_user_push(users: Seq<UserEntry>, entry: UserEntry)
    requires
        unique_user_ids(users),
        find_user(users, entry.user_id) is None,
    ensures
        unique_user_ids(users.push(entry)),
        find_user(users.push(entry), entry.user_id) == Some(entry.session),
        forall|u: u64|
            u != entry.user_id ==> find_user(users.push(entry), u) == find_user(users, u),
{
    lemma_find_user_none(users, entry.user_id);
    assert(users.push(entry).drop_last() =~= users);
}

/// Replacing the entry at one index (keeping its user id) keeps the ids
/// unique, maps that id to the new session, and leaves every other
/// lookup unchanged.
proof fn lemma_user_update(users: Seq<UserEntry>, i: int, entry: UserEntry)
    requires
        unique_user_ids(users),
        0 <= i < users.len(),
        entry.user_id == users[i].user_id,
    ensures
        unique_user_ids(users.update(i, entry)),
        find_user(users.update(i, entry), entry.user_id) == Some(entry.session),
        forall|u: u64|
            u != entry.user_id ==> find_user(users.update(i, entry), u) == find_user(users, u),
{
    let updated = users.update(i, entry);
    lemma_find_user_at(updated, entry.user_id, i);
    assert forall|u: u64| u != entry.user_id implies find_user(updated, u) == find_user(
        users,
        u,
    ) by {
        lemma_find_user_none(users, u);
        lemma_find_user_none(updated, u);
        if find_user(users, u) is Some {
            let w = choose|w: int| 0 <= w < users.len() && users[w].user_id == u;
            lemma_find_user_at(users, u, w);
            lemma_find_user_at(updated, u, w);
        }
    }
}

/// Appending an entry for a fresh tenant id keeps the ids unique, maps
/// that id to the new entry, and leaves every other lookup unchanged.
proof fn lemma_tenant_push(tenants: Seq<TenantEntry>, entry: TenantEntry)
    requires
        unique_tenant_ids(tenants),
        find_tenant(tenants, entry.tenant_id) is None,
    ensures
        unique_tenant_ids(tenants.push(entry)),
        find_tenant(tenants.push(entry), entry.tenant_id) == Some(entry),
        forall|t: u64|
            t != entry.tenant_id ==> find_tenant(tenants.push(entry), t) == find_tenant(tenants, t),
{
    lemma_find_tenant_none(tenants, entry.tenant_id);
    assert(tenants.push(entry).drop_last() =~= tenants);
}

/// Replacing the entry at one index (keeping its tenant id) keeps the
/// ids unique, maps that id to the new entry, and leaves every other
/// lookup unchanged.
proof fn lemma_tenant_update(tenants: Seq<TenantEntry>, i: int, entry: TenantEntry)
    requires
        unique_tenant_ids(tenants),
        0 <= i < tenants.len(),
        entry.tenant_id == tenants[i].tenant_id,
    ensures
        unique_tenant_ids(tenants.update(i, entry)),
        find_tenant(tenants.update(i, entry), entry.tenant_id) == Some(entry),
        forall|t: u64|
            t != entry.tenant_id ==> find_tenant(tenants.update(i, entry), t) == find_tenant(
                tenants,
                t,
            ),
{
    let updated = tenants.update(i, entry);
    lemma_find_tenant_at(updated, entry.tenant_id, i);
    assert forall|t: u64| t != entry.tenant_id implies find_tenant(updated, t) == find_tenant(
        tenants,
        t,
    ) by {
        lemma_find_tenant_none(tenants, t);
        lemma_find_tenant_none(updated, t);
        if find_tenant(tenants, t) is Some {
            let w = choose|w: int| 0 <= w < tenants.len() && tenants[w].tenant_id == t;
            lemma_find_tenant_at(tenants, t, w);
            lemma_find_tenant_at(updated, t, w);
        }
    }
}

/// Finds the position of a user id, or establishes that none matches.
fn find_user_index(users: &Vec<UserEntry>, user_id: u64) -> (r: Option<usize>)
    ensures
        match r {
            Some(i) => i < users@.len() && users@[i as int].user_id == user_id,
            None => forall|i: int| 0 <= i < users@.len() ==> users@[i].user_id != user_id,
        },
{
    let n = users.len();
    for i in 0..n
        invariant
            n == users@.len(),
            forall|j: int| 0 <= j < i ==> users@[j].user_id != user_id,
    {
        if users[i].user_id == user_id {
            return Some(i);
        }
    }
    None
}

/// The concurrent two-level map of the system: tenant, then user, to
/// that user's session. Sessions are created lazily through the owned
/// factory and destroyed only en masse by a store-wide clear.
pub struct SessionStore {
    sbuilder: SessionBuilder,
    tenants: Vec<TenantEntry>,
}

impl SessionStore {
    /// The session held for a key, if any.
    pub closed spec fn spec_session(&self, tenant_id: u64, user_id: u64) -> Option<Session> {
        match find_tenant(self.tenants@, tenant_id) {
            Some(entry) => find_user(entry.users@, user_id),
            None => None,
        }
    }

    /// Whether a key currently has a session.
    pub open spec fn spec_contains(&self, tenant_id: u64, user_id: u64) -> bool {
        self.spec_session(tenant_id, user_id) is Some
    }

    /// A key's recorded exchanges; empty where no session exists.
    pub open spec fn spec_history_of(&self, tenant_id: u64, user_id: u64) -> Seq<
        (Seq<char>, Seq<char>),
    > {
        match self.spec_session(tenant_id, user_id) {
            Some(session) => session.spec_history(),
            None => Seq::empty(),
        }
    }

    /// The history capacity every session of this store is created with.
    pub closed spec fn spec_history_size(&self) -> nat {
        self.sbuilder.spec_history_size()
    }

    /// The store invariant: the factory is well formed, keys are
    /// unique at both levels, and every session is well formed with
    /// this store's capacity.
    pub closed spec fn wf(&self) -> bool {
        &&& self.sbuilder.wf()
        &&& unique_tenant_ids(self.tenants@)
        &&& forall|i: int|
            0 <= i < self.tenants@.len() ==> tenant_entry_wf(
                #[trigger] self.tenants@[i],
                self.sbuilder.spec_history_size(),
            )
    }

    /// An empty store around the given session factory.
    pub fn new(sbuilder: SessionBuilder) -> (store: SessionStore)
        requires
            sbuilder.wf(),
        ensures
            store.wf(),
            store.spec_history_size() == sbuilder.spec_history_size(),
            forall|t: u64, u: u64| store.spec_session(t, u) is None,
    {
        SessionStore { sbuilder, tenants: Vec::new() }
    }

    /// Finds the position of a tenant id, or establishes that none
    /// matches.
    fn find_tenant_index(&self, tenant_id: u64) -> (r: Option<usize>)
        ensures
            match r {
                Some(i) => i < self.tenants@.len() && self.tenants@[i as int].tenant_id
                    == tenant_id,
                None => forall|i: int|
                    0 <= i < self.tenants@.len() ==> self.tenants@[i].tenant_id != tenant_id,
            },
    {
        let n = self.tenants.len();
        for i in 0..n
            invariant
                n == self.tenants@.len(),
                forall|j: int| 0 <= j < i ==> self.tenants@[j].tenant_id != tenant_id,
        {
            if self.tenants[i].tenant_id == tenant_id {
                return Some(i);
            }
        }
        None
    }

    /// Returns the key's existing session, or creates, inserts and
    /// returns a fresh one; also yields the entry's position.
    fn get_or_create_idx(&mut self, tenant_id: u64, user_id: u64) -> (idx: (usize, usize))
        requires
            old(self).wf(),
        ensures
            final(self).wf(),
            get_or_create_post(*old(self), *final(self), tenant_id, user_id),
            idx.0 < final(self).tenants@.len(),
            (final(self).tenants@[idx.0 as int].tenant_id == tenant_id),
            idx.1 < final(self).tenants@[idx.0 as int].users@.len(),
            (final(self).tenants@[idx.0 as int].users@[idx.1 as int].user_id == user_id),
            (final(self).spec_session(tenant_id, user_id) == Some(
                final(self).tenants@[idx.0 as int].users@[idx.1 as int].session,
            )),
    {
        let ghost pre = *self;
        match self.find_tenant_index(tenant_id) {
            Some(ti) => {
                proof {
                    lemma_find_tenant_at(self.tenants@, tenant_id, ti as int);
                }
                match find_user_index(&self.tenants[ti].users, user_id) {
                    Some(ui) => {
                        proof {
                            assert(tenant_entry_wf(
                                self.tenants@[ti as int],
                                self.sbuilder.spec_history_size(),
                            ));
                            lemma_find_user_at(
                                self.tenants@[ti as int].users@,
                                user_id,
                                ui as int,
                            );
                        }
                        (ti, ui)
                    },
                    None => {
                        let session = self.sbuilder.create_chat();
                        let ghost new_entry = UserEntry { user_id, session };
                        let ghost old_entry = self.tenants@[ti as int];
                        let tenant = &mut self.tenants[ti];
                        let ui = tenant.users.len();
                        tenant.users.push(UserEntry { user_id, session });
                        proof {
                            assert(tenant_entry_wf(old_entry, pre.sbuilder.spec_history_size()));
                            lemma_find_user_none(old_entry.users@, user_id);
                            lemma_user_push(old_entry.users@, new_entry);
                            let updated = *final(tenant);
                            assert(updated.users@ =~= old_entry.users@.push(new_entry));
                            assert(updated.tenant_id == tenant_id);
                            lemma_tenant_update(pre.tenants@, ti as int, updated);
                            assert(self.tenants@ =~= pre.tenants@.update(ti as int, updated));
                            assert(tenant_entry_wf(updated, self.sbuilder.spec_history_size()));
                            assert(self.wf());
                            assert(find_tenant(self.tenants@, tenant_id) == Some(updated));
                            assert(self.spec_session(tenant_id, user_id) == Some(
                                new_entry.session,
                            ));
                            assert(!pre.spec_contains(tenant_id, user_id));
                            assert forall|t: u64, u: u64|
                                !(t == tenant_id && u == user_id) implies self.spec_session(t, u)
                                == pre.spec_session(t, u) by {
                                if t == tenant_id {
                                    assert(find_user(updated.users@, u) == find_user(
                                        old_entry.users@,
                                        u,
                                    ));
                                }
                            }
                        }
                        (ti, ui)
                    },
                }
            },
            None => {
                proof {
                    lemma_find_tenant_none(self.tenants@, tenant_id);
                }
                let session = self.sbuilder.create_chat();
                let mut users: Vec<UserEntry> = Vec::new();
                users.push(UserEntry { user_id, session });
                let ti = self.tenants.len();
                let ghost new_tenant = TenantEntry { tenant_id, users };
                self.tenants.push(TenantEntry { tenant_id, users });
                proof {
                    let new_user = new_tenant.users@[0];
                    assert(new_tenant.users@ =~= Seq::empty().push(new_user));
                    lemma_user_push(Seq::empty(), new_user);
                    assert(tenant_entry_wf(new_tenant, self.sbuilder.spec_history_size()));
                    lemma_tenant_push(pre.tenants@, new_tenant);
                    assert(self.tenants@ =~= pre.tenants@.push(new_tenant));
                    assert(self.wf());
                    assert(find_tenant(self.tenants@, tenant_id) == Some(new_tenant));
                    assert(self.spec_session(tenant_id, user_id) == Some(new_user.session));
                    assert(!pre.spec_contains(tenant_id, user_id));
                    assert forall|t: u64, u: u64|
                        !(t == tenant_id && u == user_id) implies self.spec_session(t, u)
                        == pre.spec_session(t, u) by {
                        if t == tenant_id {
                            assert(find_user(new_tenant.users@, u) == find_user(
                                Seq::empty(),
                                u,
                            ));
                        }
                    }
                }
                (ti, 0)
            },
        }
    }

    /// Returns the existing session for the key if present, otherwise
    /// atomically constructs one via the factory and inserts it. A key
    /// that already has a session keeps it: later callers observe the
    /// first ("winning") session, never a replacement.
    pub fn get_or_create(&mut self, tenant_id: u64, user_id: u64)
        requires
            old(self).wf(),
        ensures
            final(self).wf(),
            get_or_create_post(*old(self), *final(self), tenant_id, user_id),
    {
        let _indexes: (usize, usize) = self.get_or_create_idx(tenant_id, user_id);
    }

    /// Read-only lookup of a key's session.
    pub fn session(&self, tenant_id: u64, user_id: u64) -> (r: Option<&Session>)
        requires
            self.wf(),
        ensures
            match r {
                Some(session) => self.spec_session(tenant_id, user_id) == Some(*session),
                None => self.spec_session(tenant_id, user_id) is None,
            },
    {
        match self.find_tenant_index(tenant_id) {
            Some(ti) => {
                proof {
                    lemma_find_tenant_at(self.tenants@, tenant_id, ti as int);
                    assert(tenant_entry_wf(
                        self.tenants@[ti as int],
                        self.sbuilder.spec_history_size(),
                    ));
                }
                match find_user_index(&self.tenants[ti].users, user_id) {
                    Some(ui) => {
                        proof {
                            lemma_find_user_at(self.tenants@[ti as int].users@, user_id, ui as int);
                        }
                        Some(&self.tenants[ti].users[ui].session)
                    },
                    None => {
                        proof {
                            lemma_find_user_none(self.tenants@[ti as int].users@, user_id);
                        }
                        None
                    },
                }
            },
            None => {
                proof {
                    lemma_find_tenant_none(self.tenants@, tenant_id);
                }
                None
            },
        }
    }

    /// Records the outcome of one send for a key, creating the session
    /// first if absent. On success the exchange is appended to that
    /// key's history under the FIFO-eviction rule; on failure that
    /// history is left as get-or-create left it. No other key's session
    /// is touched.
    pub fn send_message(
        &mut self,
        tenant_id: u64,
        user_id: u64,
        content: String,
        response: Result<String, BackendError>,
    ) -> (r: Result<String, BackendError>)
        requires
            old(self).wf(),
        ensures
            final(self).wf(),
            final(self).spec_history_size() == old(self).spec_history_size(),
            r == response,
            final(self).spec_contains(tenant_id, user_id),
            response is Ok ==> final(self).spec_history_of(tenant_id, user_id) == fifo_push(
                old(self).spec_history_of(tenant_id, user_id),
                old(self).spec_history_size(),
                (content@, response->Ok_0@),
            ),
            response is Err ==> final(self).spec_history_of(tenant_id, user_id) == old(
                self,
            ).spec_history_of(tenant_id, user_id),
            forall|t: u64, u: u64|
                !(t == tenant_id && u == user_id) ==> final(self).spec_session(t, u) == old(
                    self,
                ).spec_session(t, u),
    {
        let (ti, ui) = self.get_or_create_idx(tenant_id, user_id);
        let ghost mid = *self;
        let tenant = &mut self.tenants[ti];
        let ghost mid_entry = *tenant;
        let user = &mut tenant.users[ui];
        let ghost mid_user = *user;
        proof {
            assert(tenant_entry_wf(mid.tenants@[ti as int], mid.sbuilder.spec_history_size()));
            assert(user_entry_wf(
                mid.tenants@[ti as int].users@[ui as int],
                mid.sbuilder.spec_history_size(),
            ));
        }
        let r = user.session.send_message(content, response);
        proof {
            let new_user = *final(user);
            let updated = *final(tenant);
            assert(new_user.user_id == user_id);
            assert(updated.users@ =~= mid_entry.users@.update(ui as int, new_user));
            assert(updated.tenant_id == tenant_id);
            lemma_find_tenant_at(mid.tenants@, tenant_id, ti as int);
            lemma_user_update(mid_entry.users@, ui as int, new_user);
            lemma_tenant_update(mid.tenants@, ti as int, updated);
            assert(self.tenants@ =~= mid.tenants@.update(ti as int, updated));
            assert(tenant_entry_wf(updated, self.sbuilder.spec_history_size()));
            assert(self.wf());
            assert(find_tenant(self.tenants@, tenant_id) == Some(updated));
            assert(self.spec_session(tenant_id, user_id) == Some(new_user.session));
            assert(mid.spec_session(tenant_id, user_id) == Some(mid_user.session));
            assert forall|t: u64, u: u64|
                !(t == tenant_id && u == user_id) implies self.spec_session(t, u)
                == mid.spec_session(t, u) by {
                if t == tenant_id {
                    assert(find_user(updated.users@, u) == find_user(mid_entry.users@, u));
                }
            }
        }
        r
    }

    /// Removes the most recently appended exchange of a key's session;
    /// a safe no-op where the session is absent or its history empty.
    /// No other key's session is touched, and no session is created.
    pub fn remove_last_interaction(&mut self, tenant_id: u64, user_id: u64)
        requires
            old(self).wf(),
        ensures
            final(self).wf(),
            final(self).spec_history_size() == old(self).spec_history_size(),
            final(self).spec_contains(tenant_id, user_id) == old(self).spec_contains(
                tenant_id,
                user_id,
            ),
            old(self).spec_history_of(tenant_id, user_id).len() == 0 ==> final(self)
                .spec_history_of(tenant_id, user_id) == old(self).spec_history_of(
                tenant_id,
                user_id,
            ),
            old(self).spec_history_of(tenant_id, user_id).len() > 0 ==> final(self)
                .spec_history_of(tenant_id, user_id) == old(self).spec_history_of(
                tenant_id,
                user_id,
            ).drop_last(),
            forall|t: u64, u: u64|
                !(t == tenant_id && u == user_id) ==> final(self).spec_session(t, u) == old(
                    self,
                ).spec_session(t, u),
    {
        let ghost pre = *self;
        let ti = match self.find_tenant_index(tenant_id) {
            Some(ti) => ti,
            None => {
                proof {
                    lemma_find_tenant_none(self.tenants@, tenant_id);
                }
                return ;
            },
        };
        proof {
            lemma_find_tenant_at(self.tenants@, tenant_id, ti as int);
            assert(tenant_entry_wf(self.tenants@[ti as int], self.sbuilder.spec_history_size()));
        }
        let ui = match find_user_index(&self.tenants[ti].users, user_id) {
            Some(ui) => ui,
            None => {
                proof {
                    lemma_find_user_none(self.tenants@[ti as int].users@, user_id);
                }
                return ;
            },
        };
        proof {
            lemma_find_user_at(self.tenants@[ti as int].users@, user_id, ui as int);
            assert(user_entry_wf(
                self.tenants@[ti as int].users@[ui as int],
                self.sbuilder.spec_history_size(),
            ));
        }
        let tenant = &mut self.tenants[ti];
        let ghost mid_entry = *tenant;
        let user = &mut tenant.users[ui];
        let ghost mid_user = *user;
        user.session.pop_last_interaction();
        proof {
            let new_user = *final(user);
            let updated = *final(tenant);
            assert(new_user.user_id == user_id);
            assert(updated.users@ =~= mid_entry.users@.update(ui as int, new_user));
            assert(updated.tenant_id == tenant_id);
            lemma_user_update(mid_entry.users@, ui as int, new_user);
            lemma_tenant_update(pre.tenants@, ti as int, updated);
            assert(self.tenants@ =~= pre.tenants@.update(ti as int, updated));
            assert(tenant_entry_wf(updated, self.sbuilder.spec_history_size()));
            assert(self.wf());
            assert(find_tenant(self.tenants@, tenant_id) == Some(updated));
            assert(self.spec_session(tenant_id, user_id) == Some(new_user.session));
            assert(pre.spec_session(tenant_id, user_id) == Some(mid_user.session));
            assert forall|t: u64, u: u64|
                !(t == tenant_id && u == user_id) implies self.spec_session(t, u)
                == pre.spec_session(t, u) by {
                if t == tenant_id {
                    assert(find_user(updated.users@, u) == find_user(mid_entry.users@, u));
                }
            }
        }
    }

    /// Removes every tenant and every session beneath it; the factory
    /// and its capacity are kept.
    pub fn clear_all(&mut self)
        requires
            old(self).wf(),
        ensures
            final(self).wf(),
            final(self).spec_history_size() == old(self).spec_history_size(),
            forall|t: u64, u: u64| final(self).spec_session(t, u) is None,
    {
        self.tenants.clear();
    }
}

/// What one get-or-create call does to the store, observed through its
/// model: the key now has a session; a key that already had one keeps
/// exactly it; a key that had none gets a fresh empty session of the
/// store's capacity; every other key is untouched.
pub open spec fn get_or_create_post(
    pre: SessionStore,
    post: SessionStore,
    tenant_id: u64,
    user_id: u64,
) -> bool {
    &&& post.spec_history_size() == pre.spec_history_size()
    &&& post.spec_contains(tenant_id, user_id)
    &&& pre.spec_contains(tenant_id, user_id) ==> post.spec_session(tenant_id, user_id)
        == pre.spec_session(tenant_id, user_id)
    &&& !pre.spec_contains(tenant_id, user_id) ==> (post.spec_session(tenant_id, user_id) matches
    Some(session) && session.wf() && session.spec_history() == Seq::<(Seq<char>, Seq<char>)>::empty()
        && session.spec_capacity() == pre.spec_history_size())
    &&& forall|t: u64, u: u64|
        !(t == tenant_id && u == user_id) ==> post.spec_session(t, u) == pre.spec_session(t, u)
}

/// Single-winner creation: however many get-or-create calls race for
/// one key, every call after the first observes the first call's
/// session and changes nothing at all.
pub proof fn lemma_get_or_create_single_winner(
    first: SessionStore,
    second: SessionStore,
    third: SessionStore,
    tenant_id: u64,
    user_id: u64,
)
    requires
        get_or_create_post(first, second, tenant_id, user_id),
        get_or_create_post(second, third, tenant_id, user_id),
    ensures
        third.spec_session(tenant_id, user_id) == second.spec_session(tenant_id, user_id),
        forall|t: u64, u: u64| third.spec_session(t, u) == second.spec_session(t, u),
{
}

/// Flush wipes everything: once the store has been cleared, a
/// get-or-create for any key — used before or not — yields a session
/// with empty history.
pub proof fn lemma_flush_then_get(
    cleared: SessionStore,
    after: SessionStore,
    tenant_id: u64,
    user_id: u64,
)
    requires
        forall|t: u64, u: u64| cleared.spec_session(t, u) is None,
        get_or_create_post(cleared, after, tenant_id, user_id),
    ensures
        after.spec_contains(tenant_id, user_id),
        after.spec_history_of(tenant_id, user_id) == Seq::<(Seq<char>, Seq<char>)>::empty(),
{
}

} // verus!
