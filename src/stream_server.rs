use vstd::prelude::*;

verus! {

/// What the accept loop of a stream server observed.
#[derive(Debug, Clone, Copy, PartialEq, Eq, Structural)]
pub enum ServerEvent {
    /// A peer connection was accepted.
    Accepted,
    /// Accepting the next connection failed.
    AcceptFailed,
    /// A dispatched connection reached its end, by any path.
    ConnectionClosed,
    /// The server's own shutdown signal fired.
    ShutdownSignal,
    /// An interrupt arrived from outside the process.
    Interrupt,
}

/// What the accept loop must do next.
#[derive(Debug, Clone, Copy, PartialEq, Eq, Structural)]
pub enum ServerAction {
    /// Run the accepted connection's read/echo loop as its own unit of work.
    Dispatch,
    /// Drop the accepted connection at once, without any response.
    Reject,
    /// Go on accepting.
    Continue,
    /// Stop accepting; connections already dispatched run to their own end.
    Stop,
}

/// The admission state of a stream server.
pub ghost struct AdmissionModel {
    pub max_connections: nat,
    pub active: nat,
    pub accepting: bool,
}

/// One decision of the accept loop.
pub open spec fn admission_next(m: AdmissionModel, e: ServerEvent) -> (AdmissionModel, ServerAction) {
    match e {
        ServerEvent::Accepted => {
            if m.accepting && m.active < m.max_connections {
                (AdmissionModel { active: m.active + 1, ..m }, ServerAction::Dispatch)
            } else {
                (m, ServerAction::Reject)
            }
        },
        ServerEvent::AcceptFailed => {
            if m.accepting {
                (m, ServerAction::Continue)
            } else {
                (m, ServerAction::Stop)
            }
        },
        ServerEvent::ConnectionClosed => {
            let active = if m.active > 0 { (m.active - 1) as nat } else { 0 };
            let action = if m.accepting { ServerAction::Continue } else { ServerAction::Stop };
            (AdmissionModel { active, ..m }, action)
        },
        ServerEvent::ShutdownSignal | ServerEvent::Interrupt => {
            (AdmissionModel { accepting: false, ..m }, ServerAction::Stop)
        },
    }
}

/// The state after a run of events, and the action taken on each.
pub open spec fn admission_run(m: AdmissionModel, events: Seq<ServerEvent>) -> (AdmissionModel, Seq<ServerAction>)
    decreases events.len(),
{
    if events.len() == 0 {
        (m, Seq::empty())
    } else {
        let (before, actions) = admission_run(m, events.drop_last());
        let (after, action) = admission_next(before, events.last());
        (after, actions.push(action))
    }
}

/// A server that has not yet accepted anything.
pub open spec fn fresh_server(max_connections: nat) -> AdmissionModel {
    AdmissionModel { max_connections, active: 0, accepting: true }
}

/// Admission control and shutdown of one stream server.
///
/// The connection counter is checked and incremented in one step, so it never
/// exceeds the limit; a connection that ends decrements it whatever its exit path.
pub struct StreamServerState {
    max_connections: usize,
    active: usize,
    accepting: bool,
}

impl View for StreamServerState {
    type V = AdmissionModel;

    closed spec fn view(&self) -> AdmissionModel {
        AdmissionModel {
            max_connections: self.max_connections as nat,
            active: self.active as nat,
            accepting: self.accepting,
        }
    }
}

impl StreamServerState {
    /// The counter stays within the limit.
    pub open spec fn wf(&self) -> bool {
        self@.active <= self@.max_connections
    }

    pub fn new(max_connections: usize) -> (r: Self)
        ensures
            r@ == fresh_server(max_connections as nat),
            r.wf(),
    {
        StreamServerState { max_connections, active: 0, accepting: true }
    }

    /// Decides what to do on one event of the accept loop.
    pub fn step(&mut self, event: ServerEvent) -> (action: ServerAction)
        requires
            old(self).wf(),
        ensures
            final(self).wf(),
            (final(self)@, action) == admission_next(old(self)@, event),
    {
        match event {
            ServerEvent::Accepted => {
                if self.accepting && self.active < self.max_connections {
                    self.active = self.active + 1;
                    ServerAction::Dispatch
                } else {
                    ServerAction::Reject
                }
            },
            ServerEvent::AcceptFailed => {
                if self.accepting {
                    ServerAction::Continue
                } else {
                    ServerAction::Stop
                }
            },
            ServerEvent::ConnectionClosed => {
                if self.active > 0 {
                    self.active = self.active - 1;
                }
                if self.accepting {
                    ServerAction::Continue
                } else {
                    ServerAction::Stop
                }
            },
            ServerEvent::ShutdownSignal | ServerEvent::Interrupt => {
                self.accepting = false;
                ServerAction::Stop
            },
        }
    }

    pub fn active_connections(&self) -> (r: usize)
        ensures
            r as nat == self@.active,
    {
        self.active
    }

    pub fn max_connections(&self) -> (r: usize)
        ensures
            r as nat == self@.max_connections,
    {
        self.max_connections
    }

    pub fn is_accepting(&self) -> (r: bool)
        ensures
            r == self@.accepting,
    {
        self.accepting
    }
}

/// The live connection count never exceeds the limit, after any run of events.
pub proof fn lemma_active_within_limit(m: AdmissionModel, events: Seq<ServerEvent>)
    requires
        m.active <= m.max_connections,
    ensures
        admission_run(m, events).0.active <= m.max_connections,
        admission_run(m, events).0.max_connections == m.max_connections,
    decreases events.len(),
{
    if events.len() > 0 {
        lemma_active_within_limit(m, events.drop_last());
    }
}

/// With a limit of `n`, the first `n` simultaneous connections are dispatched
/// and the next one is refused, leaving the `n` open ones untouched.
pub proof fn lemma_connection_beyond_limit_refused(n: nat)
    ensures
        ({
            let events = Seq::new(n + 1, |i: int| ServerEvent::Accepted);
            let (end, actions) = admission_run(fresh_server(n), events);
            &&& forall|i: int| 0 <= i < n ==> actions[i] == ServerAction::Dispatch
            &&& actions[n as int] == ServerAction::Reject
            &&& actions.len() == n + 1
            &&& end.active == n
        }),
{
    lemma_accepts_fill_up(n, n);
    let events = Seq::new(n + 1, |i: int| ServerEvent::Accepted);
    assert(events.drop_last() =~= Seq::new(n, |i: int| ServerEvent::Accepted));
}

proof fn lemma_accepts_fill_up(n: nat, k: nat)
    requires
        k <= n,
    ensures
        ({
            let (end, actions) = admission_run(fresh_server(n), Seq::new(k, |i: int| ServerEvent::Accepted));
            &&& end == AdmissionModel { max_connections: n, active: k, accepting: true }
            &&& actions.len() == k
            &&& forall|i: int| 0 <= i < k ==> actions[i] == ServerAction::Dispatch
        }),
    decreases k,
{
    if k > 0 {
        lemma_accepts_fill_up(n, (k - 1) as nat);
        let events = Seq::new(k, |i: int| ServerEvent::Accepted);
        assert(events.drop_last() =~= Seq::new((k - 1) as nat, |i: int| ServerEvent::Accepted));
    }
}

/// Once the shutdown signal or an interrupt has been seen, no connection that
/// is accepted afterwards is dispatched, and the connections already running
/// are neither counted out nor cut off: only their own end lowers the count.
pub proof fn lemma_no_dispatch_after_shutdown(m: AdmissionModel, stop: ServerEvent, events: Seq<ServerEvent>)
    requires
        stop == ServerEvent::ShutdownSignal || stop == ServerEvent::Interrupt,
    ensures
        admission_next(m, stop).0.active == m.active,
        ({
            let (end, actions) = admission_run(admission_next(m, stop).0, events);
            &&& !end.accepting
            &&& forall|i: int| 0 <= i < actions.len() ==> actions[i] != ServerAction::Dispatch
            &&& actions.len() == events.len()
        }),
    decreases events.len(),
{
    if events.len() > 0 {
        lemma_no_dispatch_after_shutdown(m, stop, events.drop_last());
    }
}

/// Firing the shutdown signal on a server that has stopped changes nothing.
pub proof fn lemma_shutdown_idempotent(m: AdmissionModel)
    requires
        !m.accepting,
    ensures
        admission_next(m, ServerEvent::ShutdownSignal) == (m, ServerAction::Stop),
{
}

// ---------------------------------------------------------------------------
// One connection: Reading -> Echoing -> Reading -> ... -> Closed
// ---------------------------------------------------------------------------

/// Why a connection ended.
#[derive(Debug, Clone, Copy, PartialEq, Eq, Structural)]
pub enum CloseReason {
    /// The peer closed its side: a read returned no bytes.
    PeerClosed,
    /// A read or write exceeded its deadline (a warning, not an error).
    TimedOut,
    /// A read, write or flush failed.
    Failed,
}

/// Where a connection stands.
#[derive(Debug, Clone, Copy, PartialEq, Eq, Structural)]
pub enum ConnectionPhase {
    /// Waiting for the next read to complete.
    Reading,
    /// Waiting for the echo of `len` bytes to be written and flushed.
    Echoing { len: usize },
    /// Finished.
    Closed { reason: CloseReason },
}

/// The outcome of the I/O step that a connection was waiting for.
#[derive(Debug, Clone, Copy, PartialEq, Eq, Structural)]
pub enum ConnectionEvent {
    /// A read completed with `n` bytes (zero: the peer closed).
    Read { n: usize },
    /// No data arrived within the read deadline.
    ReadTimedOut,
    /// The read failed.
    ReadFailed,
    /// The echo was written and flushed.
    Written,
    /// The write did not complete within the write deadline.
    WriteTimedOut,
    /// The write or the flush failed.
    WriteFailed,
}

/// What the connection's driver must do next.
#[derive(Debug, Clone, Copy, PartialEq, Eq, Structural)]
pub enum ConnectionAction {
    /// Read into the buffer, with the read deadline.
    Read,
    /// Write back the first `len` bytes of the buffer and flush, with the write deadline.
    Write { len: usize },
    /// Close the connection.
    Close { reason: CloseReason },
}

/// The action that a phase asks for.
pub open spec fn phase_action(p: ConnectionPhase) -> ConnectionAction {
    match p {
        ConnectionPhase::Reading => ConnectionAction::Read,
        ConnectionPhase::Echoing { len } => ConnectionAction::Write { len },
        ConnectionPhase::Closed { reason } => ConnectionAction::Close { reason },
    }
}

/// One transition of a connection. An outcome that does not belong to the
/// current phase leaves it as it is.
pub open spec fn connection_next(p: ConnectionPhase, e: ConnectionEvent) -> ConnectionPhase {
    match (p, e) {
        (ConnectionPhase::Reading, ConnectionEvent::Read { n }) => {
            if n == 0 {
                ConnectionPhase::Closed { reason: CloseReason::PeerClosed }
            } else {
                ConnectionPhase::Echoing { len: n }
            }
        },
        (ConnectionPhase::Reading, ConnectionEvent::ReadTimedOut) => ConnectionPhase::Closed {
            reason: CloseReason::TimedOut,
        },
        (ConnectionPhase::Reading, ConnectionEvent::ReadFailed) => ConnectionPhase::Closed {
            reason: CloseReason::Failed,
        },
        (ConnectionPhase::Echoing { .. }, ConnectionEvent::Written) => ConnectionPhase::Reading,
        (ConnectionPhase::Echoing { .. }, ConnectionEvent::WriteTimedOut) => ConnectionPhase::Closed {
            reason: CloseReason::TimedOut,
        },
        (ConnectionPhase::Echoing { .. }, ConnectionEvent::WriteFailed) => ConnectionPhase::Closed {
            reason: CloseReason::Failed,
        },
        _ => p,
    }
}

/// The read/echo loop of one accepted stream connection.
pub struct Connection {
    phase: ConnectionPhase,
}

impl Connection {
    pub closed spec fn spec_phase(&self) -> ConnectionPhase {
        self.phase
    }

    pub fn new() -> (r: Self)
        ensures
            r.spec_phase() == ConnectionPhase::Reading,
    {
        Connection { phase: ConnectionPhase::Reading }
    }

    pub fn phase(&self) -> (r: ConnectionPhase)
        ensures
            r == self.spec_phase(),
    {
        self.phase
    }

    /// Takes the outcome of the last I/O step and says what to do next.
    pub fn step(&mut self, event: ConnectionEvent) -> (action: ConnectionAction)
        ensures
            final(self).spec_phase() == connection_next(old(self).spec_phase(), event),
            action == phase_action(final(self).spec_phase()),
    {
        let next = match (self.phase, event) {
            (ConnectionPhase::Reading, ConnectionEvent::Read { n }) => {
                if n == 0 {
                    ConnectionPhase::Closed { reason: CloseReason::PeerClosed }
                } else {
                    ConnectionPhase::Echoing { len: n }
                }
            },
            (ConnectionPhase::Reading, ConnectionEvent::ReadTimedOut) => ConnectionPhase::Closed {
                reason: CloseReason::TimedOut,
            },
            (ConnectionPhase::Reading, ConnectionEvent::ReadFailed) => ConnectionPhase::Closed {
                reason: CloseReason::Failed,
            },
            (ConnectionPhase::Echoing { .. }, ConnectionEvent::Written) => ConnectionPhase::Reading,
            (ConnectionPhase::Echoing { .. }, ConnectionEvent::WriteTimedOut) => {
                ConnectionPhase::Closed { reason: CloseReason::TimedOut }
            },
            (ConnectionPhase::Echoing { .. }, ConnectionEvent::WriteFailed) => {
                ConnectionPhase::Closed { reason: CloseReason::Failed }
            },
            (p, _) => p,
        };
        self.phase = next;
        match next {
            ConnectionPhase::Reading => ConnectionAction::Read,
            ConnectionPhase::Echoing { len } => ConnectionAction::Write { len },
            ConnectionPhase::Closed { reason } => ConnectionAction::Close { reason },
        }
    }
}

/// A connection whose peer sends nothing is closed at its first read
/// deadline, whatever it exchanged before; it never waits on a second one.
pub proof fn lemma_silent_peer_closed_at_deadline(p: ConnectionPhase)
    requires
        p == ConnectionPhase::Reading,
    ensures
        connection_next(p, ConnectionEvent::ReadTimedOut) == (ConnectionPhase::Closed {
            reason: CloseReason::TimedOut,
        }),
        phase_action(connection_next(p, ConnectionEvent::ReadTimedOut)) == (ConnectionAction::Close {
            reason: CloseReason::TimedOut,
        }),
{
}

/// A closed connection stays closed, whatever is reported to it.
pub proof fn lemma_closed_is_final(reason: CloseReason, e: ConnectionEvent)
    ensures
        connection_next(ConnectionPhase::Closed { reason }, e) == (ConnectionPhase::Closed { reason }),
{
}

} // verus!
