//! Decisions of the tunnel connection manager.
//!
//! All tunnel-connect requests are serialized through one dedicated
//! background thread that owns the active-tunnels table, so the
//! admission check below runs race-free: at most one live forwarding
//! session exists per tunnel identity, and a connect request for an
//! identity whose previous session is still live is rejected without
//! starting anything.  Entries of finished sessions are not evicted
//! eagerly; they are overwritten by the next accepted connect for the same
//! identity, and removed all at once on shutdown.

use vstd::prelude::*;

verus! {

/// The time allowed for the local target-port leg of the handshake.
pub const LOCAL_PORT_CONNECTION_TIMEOUT_SECS: u64 = 5;

/// The time allowed for the remote endpoint leg of the handshake.
pub const REMOTE_CONNECTION_TIMEOUT_SECS: u64 = 20;

/// Everything a forwarding session needs: the tunnel identity (the 128-bit
/// value of its UUID), the local target port, the remote secure endpoint
/// URI, and the optional trace-correlation header.
#[derive(Debug, Clone)]
pub struct ConnectionDetails {
    pub tunnel_id: u128,
    pub target_port: u16,
    pub tunnel_secure_uri: String,
    pub traceparent_header: Option<String>,
}

/// Why a connect request failed; never retried internally, surfaced to the
/// caller of `connect`.
#[derive(Debug)]
pub enum ConnectionError {
    /// A forwarding session for the same tunnel identity is still live.
    PreviousAttemptStillActive(u128),
    /// The local target port could not be reached; the remote leg was
    /// never attempted.
    TargetPortConnectionFailed(String),
    /// The remote secure endpoint could not be reached.
    ServerConnectionFailed(String),
}

/// The admission check the manager thread runs for one connect command,
/// given whether the table holds an entry for the identity and whether
/// that entry's session has finished.  Exactly the requests whose previous
/// session is still live are rejected; everything else may start a new
/// session (overwriting a finished entry lazily).
pub fn connect_admission(prior_exists: bool, prior_finished: bool, tunnel_id: u128) -> (r: Option<
    ConnectionError,
>)
    ensures
        prior_exists && !prior_finished ==> (r matches Some(
            ConnectionError::PreviousAttemptStillActive(id),
        ) && id == tunnel_id),
        !(prior_exists && !prior_finished) ==> r is None,
{
    if prior_exists && !prior_finished {
        Some(ConnectionError::PreviousAttemptStillActive(tunnel_id))
    } else {
        None
    }
}

/// The manager's table as a model: which identities have an entry, and
/// whether that entry's session is still live.  One connect command either
/// is rejected (table unchanged) or starts a live session for its
/// identity; this is [`connect_admission`] plus the table update.
pub open spec fn connect_step(active: Map<u128, bool>, id: u128) -> (Map<u128, bool>, Option<
    ConnectionError,
>) {
    if active.contains_key(id) && active[id] {
        (active, Some(ConnectionError::PreviousAttemptStillActive(id)))
    } else {
        (active.insert(id, true), None)
    }
}

/// Law: of two connect commands with the same tunnel identity, serialized
/// through the manager thread, the first is admitted on its own merits,
/// and the second — arriving while the session the first started is still
/// live — is rejected as still active.
pub proof fn lemma_second_connect_rejected(active: Map<u128, bool>, id: u128)
    requires
        !(active.contains_key(id) && active[id]),
    ensures
        connect_step(active, id).1 is None,
        connect_step(connect_step(active, id).0, id).1 == Some::<ConnectionError>(
            ConnectionError::PreviousAttemptStillActive(id),
        ),
{
}

/// The first entry for `id`, scanning front to back.
pub open spec fn spec_find<H>(s: Seq<(u128, H)>, id: u128) -> Option<H>
    decreases s.len(),
{
    if s.len() == 0 {
        None
    } else if s[0].0 == id {
        Some(s[0].1)
    } else {
        spec_find(s.skip(1), id)
    }
}

proof fn lemma_spec_find_at<H>(s: Seq<(u128, H)>, id: u128, i: int)
    requires
        0 <= i < s.len(),
        s[i].0 == id,
        forall|j: int| 0 <= j < i ==> (#[trigger] s[j]).0 != id,
    ensures
        spec_find(s, id) == Some(s[i].1),
    decreases s.len(),
{
    if i == 0 {
    } else {
        lemma_spec_find_at(s.skip(1), id, i - 1);
    }
}

proof fn lemma_spec_find_absent<H>(s: Seq<(u128, H)>, id: u128)
    requires
        forall|j: int| 0 <= j < s.len() ==> (#[trigger] s[j]).0 != id,
    ensures
        spec_find(s, id) is None,
    decreases s.len(),
{
    if s.len() > 0 {
        lemma_spec_find_absent(s.skip(1), id);
    }
}

proof fn lemma_spec_find_update_other<H>(s: Seq<(u128, H)>, i: int, x: (u128, H), id2: u128)
    requires
        0 <= i < s.len(),
        x.0 != id2,
        s[i].0 != id2,
    ensures
        spec_find(s.update(i, x), id2) == spec_find(s, id2),
    decreases s.len(),
{
    if i == 0 {
        assert(s.update(0, x).skip(1) =~= s.skip(1));
    } else {
        lemma_spec_find_update_other(s.skip(1), i - 1, x, id2);
        assert(s.update(i, x).skip(1) =~= s.skip(1).update(i - 1, x));
    }
}

proof fn lemma_spec_find_push_other<H>(s: Seq<(u128, H)>, x: (u128, H), id2: u128)
    requires
        x.0 != id2,
    ensures
        spec_find(s.push(x), id2) == spec_find(s, id2),
    decreases s.len(),
{
    if s.len() == 0 {
        assert(s.push(x)[0] == x);
        assert(s.push(x).skip(1) =~= Seq::<(u128, H)>::empty());
        assert(spec_find(Seq::<(u128, H)>::empty(), id2) is None);
    } else {
        assert(s.push(x)[0] == s[0]);
        lemma_spec_find_push_other(s.skip(1), x, id2);
        assert(s.push(x).skip(1) =~= s.skip(1).push(x));
    }
}

/// The active-tunnels table: tunnel identity to the handle of the session
/// started for it.  Owned exclusively by the manager's background thread.
pub struct TunnelTable<H> {
    entries: Vec<(u128, H)>,
}

impl<H> TunnelTable<H> {
    /// The entries, in insertion order.
    pub closed spec fn entries_view(&self) -> Seq<(u128, H)> {
        self.entries@
    }

    /// Each tunnel identity has at most one entry.
    pub open spec fn wf(&self) -> bool {
        forall|i: int, j: int|
            0 <= i < j < self.entries_view().len() ==> (#[trigger] self.entries_view()[i]).0 != (
            #[trigger] self.entries_view()[j]).0
    }

    /// The handle stored for `id`, if any.
    pub open spec fn lookup(&self, id: u128) -> Option<H> {
        spec_find(self.entries_view(), id)
    }

    pub fn new() -> (r: Self)
        ensures
            r.wf(),
            r.entries_view() == Seq::<(u128, H)>::empty(),
    {
        TunnelTable { entries: Vec::new() }
    }

    /// The handle stored for `id`, to ask whether its session finished.
    pub fn find(&self, id: u128) -> (r: Option<&H>)
        requires
            self.wf(),
        ensures
            match r {
                Some(h) => self.lookup(id) == Some(*h),
                None => self.lookup(id) is None,
            },
    {
        let n = self.entries.len();
        let mut i: usize = 0;
        while i < n
            invariant
                n == self.entries@.len(),
                i <= n,
                forall|j: int| 0 <= j < i ==> (#[trigger] self.entries@[j]).0 != id,
            decreases n - i,
        {
            if self.entries[i].0 == id {
                proof {
                    lemma_spec_find_at(self.entries@, id, i as int);
                }
                return Some(&self.entries[i].1);
            }
            i = i + 1;
        }
        proof {
            lemma_spec_find_absent(self.entries@, id);
        }
        None
    }

    /// Stores the handle of a freshly started session, replacing the entry
    /// of a finished one for the same identity if present.  Every other
    /// identity's entry is untouched.
    pub fn upsert(&mut self, id: u128, handle: H)
        requires
            old(self).wf(),
        ensures
            final(self).wf(),
            final(self).lookup(id) == Some(handle),
            forall|other: u128|
                other != id ==> #[trigger] final(self).lookup(other) == old(self).lookup(other),
    {
        let n = self.entries.len();
        let mut i: usize = 0;
        while i < n
            invariant
                n == self.entries@.len(),
                i <= n,
                self.wf(),
                self.entries@ == old(self).entries@,
                forall|j: int| 0 <= j < i ==> (#[trigger] self.entries@[j]).0 != id,
            decreases n - i,
        {
            if self.entries[i].0 == id {
                let ghost before = self.entries@;
                let ghost ii = i as int;
                proof {
                    assert(self.entries_view() == before);
                    assert(forall|a: int, b: int|
                        0 <= a < b < before.len() ==> (#[trigger] before[a]).0 != (
                        #[trigger] before[b]).0);
                }
                self.entries.remove(i);
                self.entries.insert(i, (id, handle));
                proof {
                    assert(self.entries@ =~= before.update(ii, (id, handle)));
                    assert forall|a: int|
                        0 <= a < self.entries@.len() implies (#[trigger] self.entries@[a]).0
                        == before[a].0 by {
                        if a == ii {
                            assert(before[ii].0 == id);
                        } else {
                            assert(self.entries@[a] == before.update(ii, (id, handle))[a]);
                        }
                    }
                    assert forall|a: int, b: int|
                        0 <= a < b < self.entries@.len() implies (
                    #[trigger] self.entries@[a]).0 != (#[trigger] self.entries@[b]).0 by {
                        assert(self.entries@[a].0 == before[a].0);
                        assert(self.entries@[b].0 == before[b].0);
                        assert(before[a].0 != before[b].0);
                    }
                    lemma_spec_find_at(self.entries@, id, ii);
                    assert forall|other: u128| other != id implies #[trigger] spec_find(
                        self.entries@,
                        other,
                    ) == spec_find(before, other) by {
                        lemma_spec_find_update_other(before, ii, (id, handle), other);
                    }
                }
                return ;
            }
            i = i + 1;
        }
        let ghost before = self.entries@;
        self.entries.push((id, handle));
        proof {
            assert(self.entries@ =~= before.push((id, handle)));
            lemma_spec_find_at(self.entries@, id, before.len() as int);
            assert forall|other: u128| other != id implies #[trigger] spec_find(
                self.entries@,
                other,
            ) == spec_find(before, other) by {
                lemma_spec_find_push_other(before, (id, handle), other);
            }
        }
    }

    /// Empties the table, handing every stored handle back; only manager
    /// shutdown does this, to abort every still-running session.
    pub fn take_all(&mut self) -> (r: Vec<(u128, H)>)
        ensures
            r@ == old(self).entries_view(),
            final(self).entries_view() == Seq::<(u128, H)>::empty(),
            final(self).wf(),
    {
        let mut out: Vec<(u128, H)> = Vec::new();
        core::mem::swap(&mut out, &mut self.entries);
        out
    }
}

} // verus!
