use vstd::prelude::*;
use std::time::Duration;
use bytes::BytesMut;
use crate::bytes_buf::{bytes_contents, empty_buffer, append_bytes, buffer_len, buffer_to_vec};
use crate::error::EchoError;
use crate::config::seconds;

verus! {

/// Largest response a client accepts unless told otherwise: 10 MiB.
pub const DEFAULT_MAX_RESPONSE_SIZE: usize = 10 * 1024 * 1024;

/// Read buffer size of a client unless told otherwise.
pub const DEFAULT_CLIENT_BUFFER_SIZE: usize = 1024;

/// Configuration of a stream client.
#[derive(Debug, Clone, Copy)]
pub struct ClientConfig {
    /// Deadline of each read.
    pub read_timeout: Duration,
    /// Deadline of the write, and of the flush after it.
    pub write_timeout: Duration,
    /// Deadline for establishing the connection.
    pub connect_timeout: Duration,
    /// Size of the buffer each read fills.
    pub buffer_size: usize,
    /// Largest request sent and largest response accepted, in bytes.
    pub max_response_size: usize,
}

impl Default for ClientConfig {
    /// Reads and writes time out after 30 s, connecting after 10 s; 1 KiB
    /// reads; responses up to 10 MiB.
    fn default() -> (r: Self)
        ensures
            r.buffer_size == DEFAULT_CLIENT_BUFFER_SIZE,
            r.max_response_size == DEFAULT_MAX_RESPONSE_SIZE,
    {
        ClientConfig {
            read_timeout: seconds(30),
            write_timeout: seconds(30),
            connect_timeout: seconds(10),
            buffer_size: DEFAULT_CLIENT_BUFFER_SIZE,
            max_response_size: DEFAULT_MAX_RESPONSE_SIZE,
        }
    }
}

/// Builds a [`ClientConfig`] from the defaults, one setting at a time.
pub struct ClientConfigBuilder {
    config: ClientConfig,
}

impl ClientConfigBuilder {
    pub closed spec fn spec_config(&self) -> ClientConfig {
        self.config
    }

    pub fn new() -> (r: Self)
        ensures
            r.spec_config().buffer_size == DEFAULT_CLIENT_BUFFER_SIZE,
            r.spec_config().max_response_size == DEFAULT_MAX_RESPONSE_SIZE,
    {
        ClientConfigBuilder { config: ClientConfig::default() }
    }

    pub fn read_timeout(self, timeout: Duration) -> (r: Self)
        ensures
            r.spec_config() == (ClientConfig { read_timeout: timeout, ..self.spec_config() }),
    {
        ClientConfigBuilder { config: ClientConfig { read_timeout: timeout, ..self.config } }
    }

    pub fn write_timeout(self, timeout: Duration) -> (r: Self)
        ensures
            r.spec_config() == (ClientConfig { write_timeout: timeout, ..self.spec_config() }),
    {
        ClientConfigBuilder { config: ClientConfig { write_timeout: timeout, ..self.config } }
    }

    pub fn connect_timeout(self, timeout: Duration) -> (r: Self)
        ensures
            r.spec_config() == (ClientConfig { connect_timeout: timeout, ..self.spec_config() }),
    {
        ClientConfigBuilder { config: ClientConfig { connect_timeout: timeout, ..self.config } }
    }

    pub fn buffer_size(self, size: usize) -> (r: Self)
        ensures
            r.spec_config() == (ClientConfig { buffer_size: size, ..self.spec_config() }),
    {
        ClientConfigBuilder { config: ClientConfig { buffer_size: size, ..self.config } }
    }

    pub fn max_response_size(self, size: usize) -> (r: Self)
        ensures
            r.spec_config() == (ClientConfig { max_response_size: size, ..self.spec_config() }),
    {
        ClientConfigBuilder { config: ClientConfig { max_response_size: size, ..self.config } }
    }

    pub fn build(self) -> (r: ClientConfig)
        ensures
            r == self.spec_config(),
    {
        self.config
    }
}

/// How a request is to be handled before any I/O.
#[derive(Debug, Clone, Copy, PartialEq, Eq, Structural)]
pub enum RequestPlan {
    /// Nothing to send: the echo of an empty request is empty.
    Empty,
    /// Send the request and read its echo.
    Send,
}

/// Whether a request of `len` bytes is sent, answered at once, or refused.
pub open spec fn request_plan(len: nat, max_response_size: nat) -> Option<RequestPlan> {
    if len == 0 {
        Some(RequestPlan::Empty)
    } else if len > max_response_size {
        None
    } else {
        Some(RequestPlan::Send)
    }
}

/// Checks a request against the client's size limit.
pub fn check_request(data: &[u8], max_response_size: usize) -> (r: Result<RequestPlan, EchoError>)
    ensures
        request_plan(data@.len(), max_response_size as nat) == Some(RequestPlan::Empty) <==> r == Ok::<
            RequestPlan,
            EchoError,
        >(RequestPlan::Empty),
        request_plan(data@.len(), max_response_size as nat) == Some(RequestPlan::Send) <==> r == Ok::<
            RequestPlan,
            EchoError,
        >(RequestPlan::Send),
        request_plan(data@.len(), max_response_size as nat) is None <==> (r is Err && r->Err_0 is Config),
{
    if data.len() == 0 {
        Ok(RequestPlan::Empty)
    } else if data.len() > max_response_size {
        Err(EchoError::Config(String::from_str("Request too large")))
    } else {
        Ok(RequestPlan::Send)
    }
}

/// The reading side of one echo request.
pub ghost struct AccumulatorModel {
    /// Bytes received so far.
    pub received: Seq<u8>,
    /// Length of the request, which the echo is expected to match.
    pub expected: nat,
    /// Largest response accepted.
    pub max_response_size: nat,
}

/// How a read left the response.
#[derive(Debug, Clone, Copy, PartialEq, Eq, Structural)]
pub enum ReadProgress {
    /// Stop reading: as many bytes as were sent have arrived, or the peer closed.
    Complete,
    /// Read again.
    Incomplete,
}

/// How a read is judged, in the model.
pub enum ReceiveVerdict {
    Complete,
    Incomplete,
    TooLarge,
}

/// The size beyond which a response is refused: the configured maximum, and
/// never more than a buffer can hold.
pub open spec fn response_limit(m: AccumulatorModel) -> nat {
    if m.max_response_size <= isize::MAX {
        m.max_response_size
    } else {
        isize::MAX as nat
    }
}

/// One read of `chunk`. An empty read means the peer closed: the response is
/// what arrived. A chunk that would carry the response past its limit is an
/// error and is not kept.
pub open spec fn receive_next(m: AccumulatorModel, chunk: Seq<u8>) -> (AccumulatorModel, ReceiveVerdict) {
    if chunk.len() == 0 {
        (m, ReceiveVerdict::Complete)
    } else if m.received.len() + chunk.len() > response_limit(m) {
        (m, ReceiveVerdict::TooLarge)
    } else {
        let received = m.received + chunk;
        let verdict = if received.len() >= m.expected {
            ReceiveVerdict::Complete
        } else {
            ReceiveVerdict::Incomplete
        };
        (AccumulatorModel { received, ..m }, verdict)
    }
}

/// Collects the echo of one request, read by read, up to a size limit.
pub struct ResponseAccumulator {
    response: BytesMut,
    expected: usize,
    max_response_size: usize,
}

impl View for ResponseAccumulator {
    type V = AccumulatorModel;

    closed spec fn view(&self) -> AccumulatorModel {
        AccumulatorModel {
            received: bytes_contents(self.response),
            expected: self.expected as nat,
            max_response_size: self.max_response_size as nat,
        }
    }
}

impl ResponseAccumulator {
    /// Starts reading the echo of a request of `expected` bytes.
    pub fn new(expected: usize, max_response_size: usize) -> (r: Self)
        ensures
            r@ == (AccumulatorModel {
                received: Seq::empty(),
                expected: expected as nat,
                max_response_size: max_response_size as nat,
            }),
    {
        ResponseAccumulator { response: empty_buffer(), expected, max_response_size }
    }

    /// Takes the bytes of one completed read.
    pub fn receive(&mut self, chunk: &[u8]) -> (r: Result<ReadProgress, EchoError>)
        ensures
            final(self)@ == receive_next(old(self)@, chunk@).0,
            match receive_next(old(self)@, chunk@).1 {
                ReceiveVerdict::Complete => r == Ok::<ReadProgress, EchoError>(ReadProgress::Complete),
                ReceiveVerdict::Incomplete => r == Ok::<ReadProgress, EchoError>(ReadProgress::Incomplete),
                ReceiveVerdict::TooLarge => r is Err && r->Err_0 is Config,
            },
    {
        let n = chunk.len();
        if n == 0 {
            return Ok(ReadProgress::Complete);
        }
        let held = buffer_len(&self.response);
        let limit: usize = if self.max_response_size <= isize::MAX as usize {
            self.max_response_size
        } else {
            isize::MAX as usize
        };
        if n > limit || held > limit - n {
            return Err(EchoError::Config(String::from_str("Response too large")));
        }
        append_bytes(&mut self.response, chunk);
        if buffer_len(&self.response) >= self.expected {
            Ok(ReadProgress::Complete)
        } else {
            Ok(ReadProgress::Incomplete)
        }
    }

    /// A read deadline passed: that ends the response normally when at least
    /// as many bytes as were sent have arrived, and is an error otherwise.
    pub fn timed_out(&self) -> (r: Result<(), EchoError>)
        ensures
            self@.received.len() >= self@.expected <==> r is Ok,
            r is Err ==> r->Err_0 is Timeout,
    {
        if buffer_len(&self.response) >= self.expected {
            Ok(())
        } else {
            Err(EchoError::Timeout(String::from_str("Read timeout")))
        }
    }

    /// Number of bytes received so far.
    pub fn received_len(&self) -> (r: usize)
        ensures
            r as nat == self@.received.len(),
    {
        buffer_len(&self.response)
    }

    /// The response as received.
    pub fn into_response(self) -> (r: Vec<u8>)
        ensures
            r@ == self@.received,
    {
        buffer_to_vec(&self.response)
    }
}

/// Feeds reads in order until one ends the response or fails; the verdict is
/// that of the last read taken (`Incomplete` when the reads ran out first).
pub open spec fn receive_all(m: AccumulatorModel, chunks: Seq<Seq<u8>>) -> (AccumulatorModel, ReceiveVerdict)
    decreases chunks.len(),
{
    if chunks.len() == 0 {
        (m, ReceiveVerdict::Incomplete)
    } else {
        let (next, verdict) = receive_next(m, chunks[0]);
        match verdict {
            ReceiveVerdict::Incomplete => receive_all(next, chunks.drop_first()),
            _ => (next, verdict),
        }
    }
}

/// What the client returns for request `s` when the reads deliver `chunks`:
/// `None` where it fails.
pub open spec fn echo_outcome(s: Seq<u8>, chunks: Seq<Seq<u8>>, max_response_size: nat) -> Option<Seq<u8>> {
    match request_plan(s.len(), max_response_size) {
        Some(RequestPlan::Empty) => Some(Seq::empty()),
        Some(RequestPlan::Send) => {
            let start = AccumulatorModel { received: Seq::empty(), expected: s.len(), max_response_size };
            match receive_all(start, chunks) {
                (end, ReceiveVerdict::Complete) => Some(end.received),
                _ => None,
            }
        },
        None => None,
    }
}

/// Round trip: whatever request of at most 64 KiB is sent, and however an echo
/// server's reply is cut into reads, the client returns exactly the request.
pub proof fn lemma_echo_round_trip(s: Seq<u8>, chunks: Seq<Seq<u8>>, max_response_size: nat)
    requires
        s.len() <= 65536,
        s.len() <= max_response_size,
        chunks.flatten() == s,
        forall|i: int| 0 <= i < chunks.len() ==> #[trigger] chunks[i].len() > 0,
    ensures
        echo_outcome(s, chunks, max_response_size) == Some(s),
{
    if s.len() > 0 {
        let start = AccumulatorModel { received: Seq::empty(), expected: s.len(), max_response_size };
        lemma_receive_rest(start, chunks, s);
    }
}

proof fn lemma_receive_rest(m: AccumulatorModel, chunks: Seq<Seq<u8>>, s: Seq<u8>)
    requires
        s.len() <= 65536,
        s.len() <= m.max_response_size,
        m.expected == s.len(),
        m.received + chunks.flatten() == s,
        m.received.len() < s.len(),
        forall|i: int| 0 <= i < chunks.len() ==> #[trigger] chunks[i].len() > 0,
    ensures
        receive_all(m, chunks) == (AccumulatorModel { received: s, ..m }, ReceiveVerdict::Complete),
    decreases chunks.len(),
{
    if chunks.len() == 0 {
        assert(m.received + chunks.flatten() =~= m.received);
    } else {
        let rest = chunks.drop_first();
        assert(chunks.flatten() == chunks[0] + rest.flatten());
        assert(m.received + chunks.flatten() =~= (m.received + chunks[0]) + rest.flatten());
        assert(chunks[0].len() > 0);
        let received = m.received + chunks[0];
        if received.len() >= s.len() {
            assert(rest.flatten().len() == 0);
            assert(received =~= s);
        } else {
            assert forall|i: int| 0 <= i < rest.len() implies #[trigger] rest[i].len() > 0 by {
                assert(rest[i] == chunks[i + 1]);
            }
            lemma_receive_rest(AccumulatorModel { received, ..m }, rest, s);
        }
    }
}

} // verus!
