use vstd::prelude::*;

verus! {

/// What the receive loop of a datagram server observed.
#[derive(Debug, Clone, Copy, PartialEq, Eq, Structural)]
pub enum DatagramEvent {
    /// A datagram of `n` bytes arrived.
    Received { n: usize },
    /// Nothing arrived within the receive deadline.
    ReceiveTimedOut,
    /// Receiving failed.
    ReceiveFailed,
    /// The server's own shutdown signal fired.
    ShutdownSignal,
    /// An interrupt arrived from outside the process.
    Interrupt,
}

/// What the receive loop must do next.
#[derive(Debug, Clone, Copy, PartialEq, Eq, Structural)]
pub enum DatagramAction {
    /// Send the first `len` bytes of the buffer back to the sender, then receive again.
    Reply { len: usize },
    /// Log and receive again.
    Continue,
    /// Leave the loop.
    Stop,
}

/// One decision of the receive loop, given whether the loop still runs.
/// Timeouts and receive failures are not fatal; nothing is answered once stopped.
pub open spec fn datagram_next(running: bool, e: DatagramEvent) -> (bool, DatagramAction) {
    if !running {
        (false, DatagramAction::Stop)
    } else {
        match e {
            DatagramEvent::Received { n } => (true, DatagramAction::Reply { len: n }),
            DatagramEvent::ReceiveTimedOut | DatagramEvent::ReceiveFailed => (true, DatagramAction::Continue),
            DatagramEvent::ShutdownSignal | DatagramEvent::Interrupt => (false, DatagramAction::Stop),
        }
    }
}

/// The receive-and-reply loop of a datagram server. It keeps no per-peer state
/// and replies to each datagram before receiving the next.
pub struct DatagramLoop {
    running: bool,
}

impl DatagramLoop {
    pub closed spec fn spec_running(&self) -> bool {
        self.running
    }

    pub fn new() -> (r: Self)
        ensures
            r.spec_running(),
    {
        DatagramLoop { running: true }
    }

    pub fn is_running(&self) -> (r: bool)
        ensures
            r == self.spec_running(),
    {
        self.running
    }

    /// Decides what to do on one event of the receive loop.
    pub fn step(&mut self, event: DatagramEvent) -> (action: DatagramAction)
        ensures
            (final(self).spec_running(), action) == datagram_next(old(self).spec_running(), event),
    {
        if !self.running {
            return DatagramAction::Stop;
        }
        match event {
            DatagramEvent::Received { n } => DatagramAction::Reply { len: n },
            DatagramEvent::ReceiveTimedOut | DatagramEvent::ReceiveFailed => DatagramAction::Continue,
            DatagramEvent::ShutdownSignal | DatagramEvent::Interrupt => {
                self.running = false;
                DatagramAction::Stop
            },
        }
    }
}

/// The bytes that answer a datagram: exactly the `n` bytes that were received.
pub fn reply_payload(buffer: &[u8], n: usize) -> (r: Vec<u8>)
    requires
        n <= buffer@.len(),
    ensures
        r@ == buffer@.subrange(0, n as int),
{
    let mut out: Vec<u8> = Vec::new();
    let mut i: usize = 0;
    while i < n
        invariant
            n <= buffer@.len(),
            i <= n,
            out@ == buffer@.subrange(0, i as int),
        decreases n - i,
    {
        out.push(buffer[i]);
        i = i + 1;
        assert(out@ =~= buffer@.subrange(0, i as int));
    }
    out
}

} // verus!
