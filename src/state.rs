use vstd::prelude::*;
use crate::error::Error;

verus! {

/// A locally issued connection ID: up to 20 bytes, `len` of them in use.
#[derive(Clone, Copy, Debug, PartialEq, Eq, Hash)]
pub struct ConnectionId {
    pub len: u8,
    pub bytes: [u8; 20],
}

/// Identifies one network path (a pair of socket addresses) of a connection.
#[derive(Clone, Copy, Debug, PartialEq, Eq, Structural)]
pub struct Pathway {
    pub id: u64,
}

/// A network path, with its congestion controller's probe timeout for the
/// application-data space and the time a packet was last received on it,
/// both in microseconds.
#[derive(Clone, Copy, Debug, PartialEq, Eq, Structural)]
pub struct Path {
    pub pathway: Pathway,
    pub pto_micros: u64,
    pub last_recv_micros: u64,
}

/// What an active connection holds that its lifecycle depends on.
#[derive(Debug)]
pub struct RawConnection {
    /// The connection IDs registered in the router for this connection.
    pub local_cids: Vec<ConnectionId>,
    /// The known network paths.
    pub paths: Vec<Path>,
    /// The handshake space's keys have not been discarded yet.
    pub handshake_keys: bool,
    /// The 1-RTT data space's keys have not been discarded yet.
    pub one_rtt_keys: bool,
    /// The token to send in Initial packets.
    pub token: Vec<u8>,
    /// The destination connection ID of Initial packets.
    pub initial_dcid: ConnectionId,
    /// The largest packet number sent in the Initial space.
    pub initial_largest_pn: u64,
}

/// A connection waiting for the peer's close confirmation. It keeps the keys
/// of the spaces that were still available, to answer retransmissions.
#[derive(Debug)]
pub struct ClosingConnection {
    pub error: Error,
    pub local_cids: Vec<ConnectionId>,
    pub handshake_keys: bool,
    pub one_rtt_keys: bool,
}

/// A connection that only absorbs late packets until its timer fires.
#[derive(Debug)]
pub struct DrainingConnection {
    pub local_cids: Vec<ConnectionId>,
    pub error: Error,
}

/// The one state a connection is in.
#[derive(Debug)]
pub enum ConnState {
    Raw(RawConnection),
    Closing(ClosingConnection),
    Draining(DrainingConnection),
    Closed,
}

/// The phase of a connection's life.
#[derive(Clone, Copy, Debug, PartialEq, Eq, Structural)]
pub enum Phase {
    Active,
    Closing,
    Draining,
    Terminated,
}

/// Phases in the only order in which a connection may go through them.
pub open spec fn phase_rank(p: Phase) -> int {
    match p {
        Phase::Active => 0,
        Phase::Closing => 1,
        Phase::Draining => 2,
        Phase::Terminated => 3,
    }
}

/// The largest probe timeout over the given paths (0 for none).
pub open spec fn max_pto(paths: Seq<Path>) -> u64
    decreases paths.len(),
{
    if paths.len() == 0 {
        0
    } else {
        let rest = max_pto(paths.drop_last());
        if paths.last().pto_micros > rest {
            paths.last().pto_micros
        } else {
            rest
        }
    }
}

/// Three probe timeouts: how long to wait for the close confirmation, and
/// how long to drain. It saturates at the largest `u64`.
pub open spec fn closing_wait(pto: u64) -> u64 {
    if pto <= u64::MAX / 3 {
        (3 * pto) as u64
    } else {
        u64::MAX
    }
}

/// What is left of a `wait` after `elapsed` has passed (0 once it is over).
pub open spec fn remaining_wait(wait: u64, elapsed: u64) -> u64 {
    if elapsed < wait {
        (wait - elapsed) as u64
    } else {
        0
    }
}

/// The state after a closing procedure starts with `error`: from active to
/// draining when no keys are left to answer with, else to closing; any other
/// state stays as it is.
pub open spec fn closed_by(s: ConnState, error: Error) -> ConnState {
    match s {
        ConnState::Raw(r) => if !r.handshake_keys && !r.one_rtt_keys {
            ConnState::Draining(DrainingConnection { local_cids: r.local_cids, error })
        } else {
            ConnState::Closing(
                ClosingConnection {
                    error,
                    local_cids: r.local_cids,
                    handshake_keys: r.handshake_keys,
                    one_rtt_keys: r.one_rtt_keys,
                },
            )
        },
        _ => s,
    }
}

/// The state after a draining procedure starts with `error`: from active
/// straight to draining; any other state stays as it is.
pub open spec fn drained_by(s: ConnState, error: Error) -> ConnState {
    match s {
        ConnState::Raw(r) => ConnState::Draining(
            DrainingConnection { local_cids: r.local_cids, error },
        ),
        _ => s,
    }
}

/// The state after the close confirmation came while closing: draining,
/// with the same error and connection IDs.
pub open spec fn confirmed(s: ConnState) -> ConnState {
    match s {
        ConnState::Closing(c) => ConnState::Draining(
            DrainingConnection { local_cids: c.local_cids, error: c.error },
        ),
        _ => s,
    }
}

/// The state after every path failed: an active connection terminates at
/// once; any other state stays as it is.
pub open spec fn without_path(s: ConnState) -> ConnState {
    match s {
        ConnState::Raw(_) => ConnState::Closed,
        _ => s,
    }
}

impl ConnState {
    pub open spec fn phase(self) -> Phase {
        match self {
            ConnState::Raw(_) => Phase::Active,
            ConnState::Closing(_) => Phase::Closing,
            ConnState::Draining(_) => Phase::Draining,
            ConnState::Closed => Phase::Terminated,
        }
    }

    /// The connection IDs that this state still holds in the router.
    pub open spec fn owned_cids(self) -> Seq<ConnectionId> {
        match self {
            ConnState::Raw(r) => r.local_cids@,
            ConnState::Closing(c) => c.local_cids@,
            ConnState::Draining(d) => d.local_cids@,
            ConnState::Closed => Seq::empty(),
        }
    }

    /// The error that ended the connection, once it is closing or draining.
    pub open spec fn stored_error(self) -> Option<Error> {
        match self {
            ConnState::Closing(c) => Some(c.error),
            ConnState::Draining(d) => Some(d.error),
            _ => None,
        }
    }

    /// An active connection has a path whose probe timeout can be asked.
    pub open spec fn has_path(self) -> bool {
        self is Raw ==> self->Raw_0.paths@.len() > 0
    }
}

/// The largest probe timeout over `paths`.
pub fn max_pto_of(paths: &Vec<Path>) -> (r: u64)
    ensures
        r == max_pto(paths@),
{
    let mut m: u64 = 0;
    let mut i: usize = 0;
    while i < paths.len()
        invariant
            i <= paths@.len(),
            m == max_pto(paths@.subrange(0, i as int)),
        decreases paths@.len() - i,
    {
        assert(paths@.subrange(0, i + 1).drop_last() == paths@.subrange(0, i as int));
        if paths[i].pto_micros > m {
            m = paths[i].pto_micros;
        }
        i = i + 1;
    }
    assert(paths@.subrange(0, paths@.len() as int) == paths@);
    m
}

/// Three times `pto`, saturating.
pub fn closing_wait_of(pto: u64) -> (r: u64)
    ensures
        r == closing_wait(pto),
{
    if pto <= u64::MAX / 3 {
        3 * pto
    } else {
        u64::MAX
    }
}

/// What is left of `wait` after `elapsed`.
pub fn remaining_wait_of(wait: u64, elapsed: u64) -> (r: u64)
    ensures
        r == remaining_wait(wait, elapsed),
{
    if elapsed < wait {
        wait - elapsed
    } else {
        0
    }
}

impl ConnState {
    /// Moves the state out, leaving `Closed` in its place.
    pub(crate) fn take(&mut self) -> (r: ConnState)
        ensures
            r == *old(self),
            *final(self) == ConnState::Closed,
    {
        let mut r = ConnState::Closed;
        core::mem::swap(self, &mut r);
        r
    }

    /// Starts the closing procedure. From the active state it moves to
    /// closing (or to draining when no keys are left) and returns whether it
    /// went to closing, with the largest probe timeout of the paths. In any
    /// other state it does nothing and returns `None`.
    pub fn should_enter_close(&mut self, error: Error) -> (r: Option<(bool, u64)>)
        requires
            old(self).has_path(),
        ensures
            *final(self) == closed_by(*old(self), error),
            (*old(self)) is Raw ==> r == Some(((*final(self)) is Closing, max_pto((*old(self))->Raw_0.paths@))),
            !((*old(self)) is Raw) ==> r is None,
    {
        let conn = self.take();
        match conn {
            ConnState::Raw(raw) => {
                let pto = max_pto_of(&raw.paths);
                if !raw.handshake_keys && !raw.one_rtt_keys {
                    *self = ConnState::Draining(
                        DrainingConnection { local_cids: raw.local_cids, error },
                    );
                    Some((false, pto))
                } else {
                    *self = ConnState::Closing(
                        ClosingConnection {
                            error,
                            local_cids: raw.local_cids,
                            handshake_keys: raw.handshake_keys,
                            one_rtt_keys: raw.one_rtt_keys,
                        },
                    );
                    Some((true, pto))
                }
            },
            other => {
                *self = other;
                None
            },
        }
    }

    /// Starts the draining procedure. From the active state it moves straight
    /// to draining and returns the largest probe timeout of the paths. In any
    /// other state it does nothing and returns `None`.
    pub fn enter_draining(&mut self, error: Error) -> (r: Option<u64>)
        requires
            old(self).has_path(),
        ensures
            *final(self) == drained_by(*old(self), error),
            (*old(self)) is Raw ==> r == Some(max_pto((*old(self))->Raw_0.paths@)),
            !((*old(self)) is Raw) ==> r is None,
    {
        let conn = self.take();
        match conn {
            ConnState::Raw(raw) => {
                let pto = max_pto_of(&raw.paths);
                *self = ConnState::Draining(DrainingConnection { local_cids: raw.local_cids, error });
                Some(pto)
            },
            other => {
                *self = other;
                None
            },
        }
    }

    /// The close confirmation came: a closing connection starts draining and
    /// `true` is returned. In any other state nothing changes.
    pub fn confirm_close(&mut self) -> (r: bool)
        ensures
            *final(self) == confirmed(*old(self)),
            r == ((*old(self)) is Closing),
    {
        let conn = self.take();
        match conn {
            ConnState::Closing(closing) => {
                *self = ConnState::Draining(
                    DrainingConnection { local_cids: closing.local_cids, error: closing.error },
                );
                true
            },
            other => {
                *self = other;
                false
            },
        }
    }

    /// No path is left: an active connection terminates at once and its
    /// connection IDs are returned, to be removed from the router. In any
    /// other state nothing changes and nothing is returned.
    pub fn no_vaiable_path(&mut self) -> (released: Vec<ConnectionId>)
        ensures
            *final(self) == without_path(*old(self)),
            old(self).owned_cids() == released@ + final(self).owned_cids(),
    {
        let conn = self.take();
        match conn {
            ConnState::Raw(raw) => {
                assert(raw.local_cids@ + Seq::<ConnectionId>::empty() == raw.local_cids@);
                raw.local_cids
            },
            other => {
                *self = other;
                assert(Seq::<ConnectionId>::empty() + self.owned_cids() == self.owned_cids());
                Vec::new()
            },
        }
    }

    /// Terminates a closing or draining connection and returns its connection
    /// IDs, to be removed from the router. A terminated connection stays so
    /// and returns none.
    pub fn die(&mut self) -> (released: Vec<ConnectionId>)
        requires
            !((*old(self)) is Raw),
        ensures
            *final(self) == ConnState::Closed,
            released@ == old(self).owned_cids(),
    {
        let conn = self.take();
        match conn {
            ConnState::Closing(closing) => closing.local_cids,
            ConnState::Draining(draining) => draining.local_cids,
            _ => Vec::new(),
        }
    }
}

/// The paths after a packet was received over `pathway` at `now`.
pub open spec fn paths_received(paths: Seq<Path>, pathway: Pathway, now: u64) -> Seq<Path> {
    paths.map_values(
        |p: Path|
            if p.pathway == pathway {
                Path { last_recv_micros: now, ..p }
            } else {
                p
            },
    )
}

/// The paths after the probe timeout of `pathway` became `pto`.
pub open spec fn paths_with_pto(paths: Seq<Path>, pathway: Pathway, pto: u64) -> Seq<Path> {
    paths.map_values(
        |p: Path|
            if p.pathway == pathway {
                Path { pto_micros: pto, ..p }
            } else {
                p
            },
    )
}

/// The paths after `pathway` was added, unless a path over it exists.
pub open spec fn paths_added(paths: Seq<Path>, pathway: Pathway, pto: u64) -> Seq<Path> {
    if exists|i: int| 0 <= i < paths.len() && #[trigger] paths[i].pathway == pathway {
        paths
    } else {
        paths.push(Path { pathway, pto_micros: pto, last_recv_micros: 0 })
    }
}

impl RawConnection {
    /// A connection that has not sent anything yet: `scid` is its one
    /// registered connection ID, `initial_dcid` the destination of its first
    /// Initial packets; it has no path yet and holds the keys of every space.
    pub fn new(scid: ConnectionId, initial_dcid: ConnectionId) -> (r: RawConnection)
        ensures
            r.local_cids@ == seq![scid],
            r.paths@.len() == 0,
            r.handshake_keys,
            r.one_rtt_keys,
            r.token@.len() == 0,
            r.initial_dcid == initial_dcid,
            r.initial_largest_pn == 0,
    {
        let mut local_cids = Vec::new();
        local_cids.push(scid);
        assert(local_cids@ == seq![scid]);
        RawConnection {
            local_cids,
            paths: Vec::new(),
            handshake_keys: true,
            one_rtt_keys: true,
            token: Vec::new(),
            initial_dcid,
            initial_largest_pn: 0,
        }
    }

    /// Records that a packet was received over `pathway` at `now`.
    pub fn update_path_recv_time(&mut self, pathway: Pathway, now: u64)
        ensures
            final(self).paths@ == paths_received(old(self).paths@, pathway, now),
            *final(self) == (RawConnection { paths: final(self).paths, ..*old(self) }),
    {
        let ghost before = self.paths@;
        let mut i: usize = 0;
        while i < self.paths.len()
            invariant
                i <= self.paths@.len(),
                self.paths@.len() == before.len(),
                forall|j: int|
                    0 <= j < i ==> #[trigger] self.paths@[j] == paths_received(
                        before,
                        pathway,
                        now,
                    )[j],
                forall|j: int| i <= j < before.len() ==> #[trigger] self.paths@[j] == before[j],
                *self == (RawConnection { paths: self.paths, ..*old(self) }),
            decreases before.len() - i,
        {
            if self.paths[i].pathway == pathway {
                let p = Path { last_recv_micros: now, ..self.paths[i] };
                self.paths.set(i, p);
            }
            i = i + 1;
        }
        assert(self.paths@ == paths_received(before, pathway, now));
    }

    /// Sets the probe timeout of the path over `pathway` to `pto`.
    pub fn update_path_pto(&mut self, pathway: Pathway, pto: u64)
        ensures
            final(self).paths@ == paths_with_pto(old(self).paths@, pathway, pto),
            *final(self) == (RawConnection { paths: final(self).paths, ..*old(self) }),
    {
        let ghost before = self.paths@;
        let mut i: usize = 0;
        while i < self.paths.len()
            invariant
                i <= self.paths@.len(),
                self.paths@.len() == before.len(),
                forall|j: int|
                    0 <= j < i ==> #[trigger] self.paths@[j] == paths_with_pto(
                        before,
                        pathway,
                        pto,
                    )[j],
                forall|j: int| i <= j < before.len() ==> #[trigger] self.paths@[j] == before[j],
                *self == (RawConnection { paths: self.paths, ..*old(self) }),
            decreases before.len() - i,
        {
            if self.paths[i].pathway == pathway {
                let p = Path { pto_micros: pto, ..self.paths[i] };
                self.paths.set(i, p);
            }
            i = i + 1;
        }
        assert(self.paths@ == paths_with_pto(before, pathway, pto));
    }

    /// Adds a path over `pathway` with probe timeout `pto`, unless one exists.
    pub fn get_or_create_path(&mut self, pathway: Pathway, pto: u64)
        ensures
            final(self).paths@ == paths_added(old(self).paths@, pathway, pto),
            *final(self) == (RawConnection { paths: final(self).paths, ..*old(self) }),
    {
        let mut i: usize = 0;
        while i < self.paths.len()
            invariant
                i <= self.paths@.len(),
                forall|j: int| 0 <= j < i ==> #[trigger] self.paths@[j].pathway != pathway,
                *self == *old(self),
            decreases self.paths@.len() - i,
        {
            if self.paths[i].pathway == pathway {
                return;
            }
            i = i + 1;
        }
        self.paths.push(Path { pathway, pto_micros: pto, last_recv_micros: 0 });
    }
}

} // verus!
