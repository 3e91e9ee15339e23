use vstd::prelude::*;
use crate::datagram::{
    DatagramFlow, DatagramReader, DatagramWriter, RawDatagramFlow, flow_after_error,
};
use crate::error::{Error, ErrorKind, DEFAULT_FRAME_TYPE};
use crate::laws::lifecycle_step;
use crate::state::{
    ConnState, ConnectionId, Path, Pathway, RawConnection, closed_by, closing_wait,
    closing_wait_of, confirmed, drained_by, max_pto, paths_added, paths_received, paths_with_pto,
    remaining_wait, remaining_wait_of, without_path,
};

verus! {

/// The fields of a Retry packet that the connection takes over.
#[derive(Clone, Debug, PartialEq, Eq)]
pub struct RetryHeader {
    /// The token to send in later Initial packets.
    pub token: Vec<u8>,
    /// The server's new connection ID, the new destination of Initial packets.
    pub scid: ConnectionId,
}

/// What the caller runs once a closing procedure has started.
#[derive(Clone, Copy, Debug, PartialEq, Eq, Structural)]
pub enum ClosePlan {
    /// Forward the packets that the receive tasks still deliver to the
    /// closing state, and race the close confirmation against `wait_micros`.
    Closing { wait_micros: u64 },
    /// Stop the receive tasks and terminate after `wait_micros`.
    Draining { wait_micros: u64 },
}

/// What the caller runs after a connection error was dispatched.
#[derive(Debug, PartialEq, Eq)]
pub enum Reaction {
    /// Nothing: the error was handled already, or the connection was no
    /// longer active.
    Ignored,
    /// A closing procedure started.
    Close(ClosePlan),
    /// Draining started: terminate after `wait_micros`.
    Drain { wait_micros: u64 },
    /// The connection terminated: remove these IDs from the router.
    Released(Vec<ConnectionId>),
}

/// What the caller runs when the race of a closing connection is decided.
#[derive(Debug, PartialEq, Eq)]
pub enum TimerOutcome {
    /// The confirmation came in time: terminate after `remaining_micros`.
    Drain { remaining_micros: u64 },
    /// The connection terminated: remove these IDs from the router.
    Released(Vec<ConnectionId>),
}

/// The error an application close is recorded with.
pub open spec fn app_error(reason: String) -> Error {
    Error { kind: ErrorKind::Application, code: 0, frame_type: DEFAULT_FRAME_TYPE, reason }
}

/// Whether `e` is the error recorded when every path has failed.
pub open spec fn is_no_path_error(e: Error) -> bool {
    &&& e.kind == ErrorKind::NoViablePath
    &&& e.code == 0
    &&& e.frame_type == DEFAULT_FRAME_TYPE
    &&& e.reason@ == "No viable path"@
}

/// The flow `new` is `old` after it was told that every path has failed.
pub open spec fn flow_after_no_path(old: RawDatagramFlow, new: RawDatagramFlow) -> bool {
    &&& old.error is Some ==> new == old
    &&& old.error is None ==> {
        &&& new == (RawDatagramFlow { error: new.error, ..old })
        &&& new.error is Some
        &&& is_no_path_error(new.error->Some_0)
    }
}

/// The plan for a closing procedure that led to state `s`, whose paths had
/// `pto` as their largest probe timeout.
pub open spec fn close_plan(s: ConnState, pto: u64) -> ClosePlan {
    if s is Closing {
        ClosePlan::Closing { wait_micros: closing_wait(pto) }
    } else {
        ClosePlan::Draining { wait_micros: closing_wait(pto) }
    }
}

/// The paths of an active connection (none in any other state).
pub open spec fn raw_paths(s: ConnState) -> Seq<Path> {
    match s {
        ConnState::Raw(r) => r.paths@,
        _ => Seq::empty(),
    }
}

/// `new` is `old` with the paths of an active connection replaced by
/// `paths`; any other state stays as it is.
pub open spec fn paths_replaced(old: ConnState, new: ConnState, paths: Seq<Path>) -> bool {
    match old {
        ConnState::Raw(r) => {
            &&& new is Raw
            &&& new->Raw_0 == (RawConnection { paths: new->Raw_0.paths, ..r })
            &&& new->Raw_0.paths@ == paths
        },
        _ => new == old,
    }
}

/// A connection: its lifecycle state and its datagram flow, which outlives
/// the active state so that readers and writers observe the final error.
#[derive(Debug)]
pub struct ArcConnection {
    pub state: ConnState,
    pub datagrams: DatagramFlow,
}

impl ArcConnection {
    /// An active connection.
    pub fn new(raw: RawConnection, datagrams: DatagramFlow) -> (r: ArcConnection)
        ensures
            r.state == ConnState::Raw(raw),
            r.datagrams == datagrams,
    {
        ArcConnection { state: ConnState::Raw(raw), datagrams }
    }

    /// Whether the connection is still active.
    pub fn is_active(&self) -> (r: bool)
        ensures
            r == (self.state is Raw),
    {
        match &self.state {
            ConnState::Raw(_) => true,
            _ => false,
        }
    }

    /// Starts the closing procedure with `error`: from the active state the
    /// datagram flow records the error, the state moves to closing (or to
    /// draining when no keys are left) and the plan to run is returned. In
    /// any other state nothing changes.
    pub fn should_enter_closing(&mut self, error: Error) -> (r: Option<ClosePlan>)
        requires
            old(self).state.has_path(),
        ensures
            lifecycle_step(old(self).state, final(self).state),
            final(self).state.owned_cids() == old(self).state.owned_cids(),
            final(self).state == closed_by(old(self).state, error),
            old(self).state is Raw ==> {
                &&& final(self).datagrams.raw_flow == flow_after_error(
                    old(self).datagrams.raw_flow,
                    error,
                )
                &&& r == Some(
                    close_plan(final(self).state, max_pto(old(self).state->Raw_0.paths@)),
                )
            },
            !(old(self).state is Raw) ==> {
                &&& r is None
                &&& *final(self) == *old(self)
            },
    {
        if !self.is_active() {
            return None;
        }
        self.datagrams.on_conn_error(&error);
        match self.state.should_enter_close(error) {
            Some((to_closing, pto)) => {
                let wait = closing_wait_of(pto);
                if to_closing {
                    Some(ClosePlan::Closing { wait_micros: wait })
                } else {
                    Some(ClosePlan::Draining { wait_micros: wait })
                }
            },
            None => None,
        }
    }

    /// Closes the connection on the application's behalf with `reason`.
    /// From the active state this is the closing procedure with an
    /// application error; in any other state nothing changes.
    pub fn close(&mut self, reason: String) -> (r: Option<ClosePlan>)
        requires
            old(self).state.has_path(),
        ensures
            lifecycle_step(old(self).state, final(self).state),
            final(self).state.owned_cids() == old(self).state.owned_cids(),
            final(self).state == closed_by(old(self).state, app_error(reason)),
            old(self).state is Raw ==> {
                &&& final(self).datagrams.raw_flow == flow_after_error(
                    old(self).datagrams.raw_flow,
                    app_error(reason),
                )
                &&& r == Some(
                    close_plan(final(self).state, max_pto(old(self).state->Raw_0.paths@)),
                )
            },
            !(old(self).state is Raw) ==> {
                &&& r is None
                &&& *final(self) == *old(self)
            },
    {
        if !self.is_active() {
            return None;
        }
        let error = Error::with_default_fty(ErrorKind::Application, reason);
        self.should_enter_closing(error)
    }

    /// Starts the draining procedure with `error`: from the active state the
    /// datagram flow records the error, the state moves straight to draining
    /// and the time to drain is returned. In any other state nothing changes.
    pub fn enter_draining(&mut self, error: Error) -> (r: Option<u64>)
        requires
            old(self).state.has_path(),
        ensures
            lifecycle_step(old(self).state, final(self).state),
            final(self).state.owned_cids() == old(self).state.owned_cids(),
            final(self).state == drained_by(old(self).state, error),
            old(self).state is Raw ==> {
                &&& final(self).datagrams.raw_flow == flow_after_error(
                    old(self).datagrams.raw_flow,
                    error,
                )
                &&& r == Some(closing_wait(max_pto(old(self).state->Raw_0.paths@)))
            },
            !(old(self).state is Raw) ==> {
                &&& r is None
                &&& *final(self) == *old(self)
            },
    {
        if !self.is_active() {
            return None;
        }
        self.datagrams.on_conn_error(&error);
        match self.state.enter_draining(error) {
            Some(pto) => Some(closing_wait_of(pto)),
            None => None,
        }
    }

    /// Every path failed: an active connection records the error in its
    /// datagram flow and terminates at once, and its connection IDs are
    /// returned to be removed from the router. In any other state nothing
    /// changes.
    pub fn no_vaiable_path(&mut self) -> (released: Vec<ConnectionId>)
        ensures
            lifecycle_step(old(self).state, final(self).state),
            final(self).state == without_path(old(self).state),
            old(self).state.owned_cids() == released@ + final(self).state.owned_cids(),
            old(self).state is Raw ==> flow_after_no_path(
                old(self).datagrams.raw_flow,
                final(self).datagrams.raw_flow,
            ),
            !(old(self).state is Raw) ==> *final(self) == *old(self),
    {
        if !self.is_active() {
            let released = Vec::new();
            assert(released@ + self.state.owned_cids() == self.state.owned_cids());
            return released;
        }
        let error = Error::with_default_fty(ErrorKind::NoViablePath, "No viable path".to_string());
        proof {
            reveal_strlit("No viable path");
        }
        self.datagrams.on_conn_error(&error);
        self.state.no_vaiable_path()
    }

    /// Terminates the connection and returns the connection IDs to remove
    /// from the router; once terminated, it returns none.
    pub fn die(&mut self) -> (released: Vec<ConnectionId>)
        requires
            !(old(self).state is Raw),
        ensures
            lifecycle_step(old(self).state, final(self).state),
            final(self).state == ConnState::Closed,
            final(self).datagrams == old(self).datagrams,
            released@ == old(self).state.owned_cids(),
    {
        self.state.die()
    }

    /// Dispatches a connection error by its kind: an application error was
    /// handled by `close`; a transport error starts the closing procedure; a
    /// received close confirmation starts the draining procedure; a lost last
    /// path terminates the connection.
    pub fn on_conn_error(&mut self, error: Error) -> (r: Reaction)
        requires
            (error.kind == ErrorKind::Transport || error.kind == ErrorKind::CcfReceived)
                ==> old(self).state.has_path(),
        ensures
            lifecycle_step(old(self).state, final(self).state),
            error.kind == ErrorKind::Application ==> {
                &&& r == Reaction::Ignored
                &&& *final(self) == *old(self)
            },
            error.kind == ErrorKind::Transport ==> {
                &&& final(self).state == closed_by(old(self).state, error)
                &&& old(self).state is Raw ==> r == Reaction::Close(
                    close_plan(final(self).state, max_pto(old(self).state->Raw_0.paths@)),
                )
                &&& !(old(self).state is Raw) ==> r == Reaction::Ignored && *final(self)
                    == *old(self)
            },
            error.kind == ErrorKind::CcfReceived ==> {
                &&& final(self).state == drained_by(old(self).state, error)
                &&& old(self).state is Raw ==> r == (Reaction::Drain {
                    wait_micros: closing_wait(max_pto(old(self).state->Raw_0.paths@)),
                })
                &&& !(old(self).state is Raw) ==> r == Reaction::Ignored && *final(self)
                    == *old(self)
            },
            error.kind == ErrorKind::NoViablePath ==> {
                &&& final(self).state == without_path(old(self).state)
                &&& old(self).state is Raw ==> r is Released && old(self).state.owned_cids()
                    == r->Released_0@
                &&& !(old(self).state is Raw) ==> r == Reaction::Ignored && *final(self)
                    == *old(self)
            },
            old(self).state is Raw && (error.kind == ErrorKind::Transport || error.kind
                == ErrorKind::CcfReceived) ==> final(self).datagrams.raw_flow == flow_after_error(
                old(self).datagrams.raw_flow,
                error,
            ),
            old(self).state is Raw && error.kind == ErrorKind::NoViablePath ==> flow_after_no_path(
                old(self).datagrams.raw_flow,
                final(self).datagrams.raw_flow,
            ),
    {
        match error.kind {
            ErrorKind::Application => Reaction::Ignored,
            ErrorKind::Transport => match self.should_enter_closing(error) {
                Some(plan) => Reaction::Close(plan),
                None => Reaction::Ignored,
            },
            ErrorKind::CcfReceived => match self.enter_draining(error) {
                Some(wait) => Reaction::Drain { wait_micros: wait },
                None => Reaction::Ignored,
            },
            ErrorKind::NoViablePath => {
                if !self.is_active() {
                    return Reaction::Ignored;
                }
                let released = self.no_vaiable_path();
                proof {
                    assert(released@ + Seq::<ConnectionId>::empty() == released@);
                }
                Reaction::Released(released)
            },
        }
    }

    /// Decides the race of a closing connection, which waited `wait_micros`
    /// for the close confirmation. `confirmed_after` is when the confirmation
    /// came, if it did. If it came in time the connection drains for what is
    /// left of the wait; otherwise it terminates and its connection IDs are
    /// returned to be removed from the router.
    pub fn on_closing_timer(&mut self, confirmed_after: Option<u64>, wait_micros: u64) -> (r:
        TimerOutcome)
        requires
            !(old(self).state is Raw),
        ensures
            lifecycle_step(old(self).state, final(self).state),
            final(self).datagrams == old(self).datagrams,
            ({
                let in_time = confirmed_after is Some && confirmed_after->Some_0 < wait_micros
                    && old(self).state is Closing;
                &&& in_time ==> {
                    &&& final(self).state == confirmed(old(self).state)
                    &&& r == (TimerOutcome::Drain {
                        remaining_micros: remaining_wait(wait_micros, confirmed_after->Some_0),
                    })
                }
                &&& !in_time ==> {
                    &&& final(self).state == ConnState::Closed
                    &&& r is Released
                    &&& r->Released_0@ == old(self).state.owned_cids()
                }
            }),
    {
        if let Some(elapsed) = confirmed_after {
            if elapsed < wait_micros {
                if self.state.confirm_close() {
                    return TimerOutcome::Drain {
                        remaining_micros: remaining_wait_of(wait_micros, elapsed),
                    };
                }
            }
        }
        TimerOutcome::Released(self.state.die())
    }
}

impl ArcConnection {
    /// Adds the first path of the connection (or any path not known yet),
    /// with its initial probe timeout. Only an active connection changes.
    pub fn add_initial_path(&mut self, pathway: Pathway, pto_micros: u64)
        ensures
            lifecycle_step(old(self).state, final(self).state),
            final(self).state.owned_cids() == old(self).state.owned_cids(),
            final(self).datagrams == old(self).datagrams,
            paths_replaced(
                old(self).state,
                final(self).state,
                paths_added(raw_paths(old(self).state), pathway, pto_micros),
            ),
    {
        match self.state.take() {
            ConnState::Raw(mut raw) => {
                raw.get_or_create_path(pathway, pto_micros);
                self.state = ConnState::Raw(raw);
            },
            other => {
                self.state = other;
            },
        }
    }

    /// Records that a packet was received over `pathway` at `now_micros`.
    /// Only an active connection changes.
    pub fn update_path_recv_time(&mut self, pathway: Pathway, now_micros: u64)
        ensures
            lifecycle_step(old(self).state, final(self).state),
            final(self).state.owned_cids() == old(self).state.owned_cids(),
            final(self).datagrams == old(self).datagrams,
            paths_replaced(
                old(self).state,
                final(self).state,
                paths_received(raw_paths(old(self).state), pathway, now_micros),
            ),
    {
        match self.state.take() {
            ConnState::Raw(mut raw) => {
                raw.update_path_recv_time(pathway, now_micros);
                self.state = ConnState::Raw(raw);
            },
            other => {
                self.state = other;
            },
        }
    }

    /// Takes a new probe timeout of the path over `pathway` from its
    /// congestion controller. Only an active connection changes.
    pub fn update_path_pto(&mut self, pathway: Pathway, pto_micros: u64)
        ensures
            lifecycle_step(old(self).state, final(self).state),
            final(self).state.owned_cids() == old(self).state.owned_cids(),
            final(self).datagrams == old(self).datagrams,
            paths_replaced(
                old(self).state,
                final(self).state,
                paths_with_pto(raw_paths(old(self).state), pathway, pto_micros),
            ),
    {
        match self.state.take() {
            ConnState::Raw(mut raw) => {
                raw.update_path_pto(pathway, pto_micros);
                self.state = ConnState::Raw(raw);
            },
            other => {
                self.state = other;
            },
        }
    }

    /// Takes a Retry packet: an active connection keeps its token and sends
    /// later Initial packets to its source connection ID. The result is the
    /// bound below which every Initial packet sent so far must have its
    /// crypto data sent again: the largest Initial packet number, or 0 when
    /// the connection is no longer active.
    pub fn recv_retry_packet(&mut self, retry: &RetryHeader) -> (r: u64)
        ensures
            lifecycle_step(old(self).state, final(self).state),
            final(self).state.owned_cids() == old(self).state.owned_cids(),
            final(self).datagrams == old(self).datagrams,
            old(self).state is Raw ==> {
                let raw = old(self).state->Raw_0;
                &&& final(self).state is Raw
                &&& final(self).state->Raw_0 == (RawConnection {
                    token: final(self).state->Raw_0.token,
                    initial_dcid: retry.scid,
                    ..raw
                })
                &&& final(self).state->Raw_0.token@ == retry.token@
                &&& r == raw.initial_largest_pn
            },
            !(old(self).state is Raw) ==> {
                &&& *final(self) == *old(self)
                &&& r == 0
            },
    {
        match self.state.take() {
            ConnState::Raw(mut raw) => {
                raw.token = retry.token.clone();
                raw.initial_dcid = retry.scid;
                let largest = raw.initial_largest_pn;
                self.state = ConnState::Raw(raw);
                largest
            },
            other => {
                self.state = other;
                0
            },
        }
    }

    /// A reader of the connection's datagrams. Once the connection is closing
    /// or draining this is the error that ended it.
    pub fn datagram_reader(&self) -> (r: Result<DatagramReader, Error>)
        requires
            !(self.state is Closed),
        ensures
            self.state is Raw ==> r == self.datagrams.spec_reader(),
            !(self.state is Raw) ==> r == Err::<DatagramReader, Error>(
                self.state.stored_error()->Some_0,
            ),
    {
        match self.ensure_active() {
            Ok(()) => self.datagrams.reader(),
            Err(e) => Err(e),
        }
    }

    /// A writer of datagrams, once the peer's parameters have announced the
    /// largest frame it accepts. Once the connection is closing or draining this is the
    /// error that ended it; a limit below the one known is a protocol
    /// violation.
    pub fn datagram_writer(&mut self, params: &RemoteParameters) -> (r: Result<
        DatagramWriter,
        Error,
    >)
        requires
            !(old(self).state is Closed),
        ensures
            lifecycle_step(old(self).state, final(self).state),
            final(self).state.owned_cids() == old(self).state.owned_cids(),
            final(self).state == old(self).state,
            !(old(self).state is Raw) ==> {
                &&& r == Err::<DatagramWriter, Error>(old(self).state.stored_error()->Some_0)
                &&& *final(self) == *old(self)
            },
            old(self).state is Raw && params.max_datagram_frame_size
                < old(self).datagrams.raw_flow.remote_max_datagram_frame_size ==> {
                &&& r is Err
                &&& r->Err_0.kind == ErrorKind::Transport
                &&& r->Err_0.code == crate::error::PROTOCOL_VIOLATION
                &&& *final(self) == *old(self)
            },
            old(self).state is Raw && params.max_datagram_frame_size
                >= old(self).datagrams.raw_flow.remote_max_datagram_frame_size ==> {
                &&& final(self).datagrams.raw_flow == (RawDatagramFlow {
                    remote_max_datagram_frame_size: params.max_datagram_frame_size,
                    ..old(self).datagrams.raw_flow
                })
                &&& r == final(self).datagrams.spec_writer()
            },
    {
        if let Err(e) = self.ensure_active() {
            return Err(e);
        }
        match self.datagrams.update_remote_max_datagram_frame_size(params.max_datagram_frame_size) {
            Ok(()) => self.datagrams.writer(),
            Err(e) => Err(e),
        }
    }
}

/// The peer's transport parameters that the accessors read once the
/// negotiation has completed.
#[derive(Clone, Copy, Debug, PartialEq, Eq, Structural)]
pub struct RemoteParameters {
    pub initial_max_stream_data_bidi_local: u64,
    pub initial_max_stream_data_bidi_remote: u64,
    pub initial_max_stream_data_uni: u64,
    pub max_datagram_frame_size: u64,
}

/// What an accessor returns: the go-ahead with `ok` while the connection is
/// active, else the error that ended it.
pub open spec fn gated<T>(s: ConnState, ok: T) -> Result<T, Error> {
    if s is Raw {
        Ok(ok)
    } else {
        Err(s.stored_error()->Some_0)
    }
}

impl ArcConnection {
    /// Ok while the connection is active; once it is closing or draining,
    /// the error that ended it.
    pub fn ensure_active(&self) -> (r: Result<(), Error>)
        requires
            !(self.state is Closed),
        ensures
            r == gated(self.state, ()),
    {
        match &self.state {
            ConnState::Raw(_) => Ok(()),
            ConnState::Closing(closing) => Err(closing.error.duplicate()),
            ConnState::Draining(draining) => Err(draining.error.duplicate()),
            ConnState::Closed => Ok(()),
        }
    }

    /// Opening a bidirectional stream: the data the peer lets the new stream
    /// send first (its limit for bidirectional streams that it did not
    /// open), or the error that ended the connection.
    pub fn open_bi_stream(&self, params: &RemoteParameters) -> (r: Result<u64, Error>)
        requires
            !(self.state is Closed),
        ensures
            r == gated(self.state, params.initial_max_stream_data_bidi_remote),
    {
        match self.ensure_active() {
            Ok(()) => Ok(params.initial_max_stream_data_bidi_remote),
            Err(e) => Err(e),
        }
    }

    /// Opening a unidirectional stream: the data the peer lets it send
    /// first, or the error that ended the connection.
    pub fn open_uni_stream(&self, params: &RemoteParameters) -> (r: Result<u64, Error>)
        requires
            !(self.state is Closed),
        ensures
            r == gated(self.state, params.initial_max_stream_data_uni),
    {
        match self.ensure_active() {
            Ok(()) => Ok(params.initial_max_stream_data_uni),
            Err(e) => Err(e),
        }
    }

    /// Accepting a bidirectional stream opened by the peer: the data the
    /// peer lets it send first (its limit for the streams that it opened),
    /// or the error that ended the connection.
    pub fn accept_bi_stream(&self, params: &RemoteParameters) -> (r: Result<u64, Error>)
        requires
            !(self.state is Closed),
        ensures
            r == gated(self.state, params.initial_max_stream_data_bidi_local),
    {
        match self.ensure_active() {
            Ok(()) => Ok(params.initial_max_stream_data_bidi_local),
            Err(e) => Err(e),
        }
    }

    /// Accepting a unidirectional stream opened by the peer, which needs no
    /// limit: the go-ahead, or the error that ended the connection.
    pub fn accept_uni_stream(&self) -> (r: Result<(), Error>)
        requires
            !(self.state is Closed),
        ensures
            r == gated(self.state, ()),
    {
        self.ensure_active()
    }
}

} // verus!
