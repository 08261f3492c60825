use vstd::prelude::*;
use vstd::string::StringSliceAdditionalSpecFns;
use crate::text::opt_view;

verus! {

/// The kind of an edge message, with its one-byte code on the wire.
#[derive(PartialEq, Eq, Structural, Clone, Copy, Debug)]
pub enum MessageType {
    Ping,
    Pong,
    SubmitJob,
    JobSubmitted,
    ClaimJob,
    JobClaimed,
    JobResult,
    GridCommand,
    CommandResponse,
    AssertionCheck,
    AssertionResult,
    Error,
}

/// The wire code of a message type.
pub open spec fn type_code(t: MessageType) -> u8 {
    match t {
        MessageType::Ping => 0x01,
        MessageType::Pong => 0x02,
        MessageType::SubmitJob => 0x10,
        MessageType::JobSubmitted => 0x11,
        MessageType::ClaimJob => 0x12,
        MessageType::JobClaimed => 0x13,
        MessageType::JobResult => 0x14,
        MessageType::GridCommand => 0x20,
        MessageType::CommandResponse => 0x21,
        MessageType::AssertionCheck => 0x30,
        MessageType::AssertionResult => 0x31,
        MessageType::Error => 0xFF,
    }
}

/// The message type with the given wire code, if any.
pub open spec fn type_of_code(b: u8) -> Option<MessageType> {
    if b == 0x01 {
        Some(MessageType::Ping)
    } else if b == 0x02 {
        Some(MessageType::Pong)
    } else if b == 0x10 {
        Some(MessageType::SubmitJob)
    } else if b == 0x11 {
        Some(MessageType::JobSubmitted)
    } else if b == 0x12 {
        Some(MessageType::ClaimJob)
    } else if b == 0x13 {
        Some(MessageType::JobClaimed)
    } else if b == 0x14 {
        Some(MessageType::JobResult)
    } else if b == 0x20 {
        Some(MessageType::GridCommand)
    } else if b == 0x21 {
        Some(MessageType::CommandResponse)
    } else if b == 0x30 {
        Some(MessageType::AssertionCheck)
    } else if b == 0x31 {
        Some(MessageType::AssertionResult)
    } else if b == 0xFF {
        Some(MessageType::Error)
    } else {
        None
    }
}

impl MessageType {
    /// The wire code (`msg_type as u8`).
    pub fn code(&self) -> (b: u8)
        ensures
            b == type_code(*self),
    {
        match self {
            MessageType::Ping => 0x01,
            MessageType::Pong => 0x02,
            MessageType::SubmitJob => 0x10,
            MessageType::JobSubmitted => 0x11,
            MessageType::ClaimJob => 0x12,
            MessageType::JobClaimed => 0x13,
            MessageType::JobResult => 0x14,
            MessageType::GridCommand => 0x20,
            MessageType::CommandResponse => 0x21,
            MessageType::AssertionCheck => 0x30,
            MessageType::AssertionResult => 0x31,
            MessageType::Error => 0xFF,
        }
    }

    /// The message type with the given wire code, if any.
    pub fn from_code(b: u8) -> (r: Option<MessageType>)
        ensures
            r == type_of_code(b),
    {
        if b == 0x01 {
            Some(MessageType::Ping)
        } else if b == 0x02 {
            Some(MessageType::Pong)
        } else if b == 0x10 {
            Some(MessageType::SubmitJob)
        } else if b == 0x11 {
            Some(MessageType::JobSubmitted)
        } else if b == 0x12 {
            Some(MessageType::ClaimJob)
        } else if b == 0x13 {
            Some(MessageType::JobClaimed)
        } else if b == 0x14 {
            Some(MessageType::JobResult)
        } else if b == 0x20 {
            Some(MessageType::GridCommand)
        } else if b == 0x21 {
            Some(MessageType::CommandResponse)
        } else if b == 0x30 {
            Some(MessageType::AssertionCheck)
        } else if b == 0x31 {
            Some(MessageType::AssertionResult)
        } else if b == 0xFF {
            Some(MessageType::Error)
        } else {
            None
        }
    }
}

/// Why a message could not be built or read.
#[derive(PartialEq, Eq, Structural, Clone, Copy, Debug)]
pub enum ProtocolError {
    InvalidMessage,
    UnknownMessageType,
    SerializationError,
    DeserializationError,
}

impl ProtocolError {
    /// The error's message.
    pub fn message(&self) -> (s: String)
        ensures
            s@ == (match self {
                ProtocolError::InvalidMessage => "Invalid message format"@,
                ProtocolError::UnknownMessageType => "Unknown message type"@,
                ProtocolError::SerializationError => "Failed to serialize data"@,
                ProtocolError::DeserializationError => "Failed to deserialize data"@,
            }),
    {
        match self {
            ProtocolError::InvalidMessage => String::from_str("Invalid message format"),
            ProtocolError::UnknownMessageType => String::from_str("Unknown message type"),
            ProtocolError::SerializationError => String::from_str("Failed to serialize data"),
            ProtocolError::DeserializationError => String::from_str("Failed to deserialize data"),
        }
    }
}

/// A framed message between edge workers and the grid.
pub struct EdgeMessage {
    pub version: u8,
    pub msg_type: MessageType,
    pub request_id: u64,
    pub payload: Vec<u8>,
}

/// The abstract value of an `EdgeMessage`.
pub struct EdgeMessageView {
    pub version: u8,
    pub msg_type: MessageType,
    pub request_id: u64,
    pub payload: Seq<u8>,
}

impl View for EdgeMessage {
    type V = EdgeMessageView;

    open spec fn view(&self) -> EdgeMessageView {
        EdgeMessageView {
            version: self.version,
            msg_type: self.msg_type,
            request_id: self.request_id,
            payload: self.payload@,
        }
    }
}

/// The eight big-endian bytes of `x`.
pub open spec fn u64_be(x: u64) -> Seq<u8> {
    seq![
        (x >> 56u64) as u8,
        (x >> 48u64) as u8,
        (x >> 40u64) as u8,
        (x >> 32u64) as u8,
        (x >> 24u64) as u8,
        (x >> 16u64) as u8,
        (x >> 8u64) as u8,
        x as u8,
    ]
}

/// The four big-endian bytes of `x`.
pub open spec fn u32_be(x: u32) -> Seq<u8> {
    seq![(x >> 24u32) as u8, (x >> 16u32) as u8, (x >> 8u32) as u8, x as u8]
}

/// The `u64` whose big-endian bytes are `b[i..i + 8]`.
pub open spec fn read_u64_be(b: Seq<u8>, i: int) -> u64 {
    ((b[i] as u64) << 56u64) | ((b[i + 1] as u64) << 48u64) | ((b[i + 2] as u64) << 40u64) | ((b[i
        + 3] as u64) << 32u64) | ((b[i + 4] as u64) << 24u64) | ((b[i + 5] as u64) << 16u64) | ((b[i
        + 6] as u64) << 8u64) | (b[i + 7] as u64)
}

/// The `u32` whose big-endian bytes are `b[i..i + 4]`.
pub open spec fn read_u32_be(b: Seq<u8>, i: int) -> u32 {
    ((b[i] as u32) << 24u32) | ((b[i + 1] as u32) << 16u32) | ((b[i + 2] as u32) << 8u32) | (b[i
        + 3] as u32)
}

/// The wire form of a message: version, type code, request id (8 bytes,
/// big-endian), payload length (4 bytes, big-endian, the length taken
/// modulo 2^32), then the payload.
pub open spec fn encode_spec(m: EdgeMessageView) -> Seq<u8> {
    seq![m.version, type_code(m.msg_type)] + u64_be(m.request_id) + u32_be(m.payload.len() as u32)
        + m.payload
}

/// What reading `b` as a message gives.
pub open spec fn decode_spec(b: Seq<u8>) -> Result<EdgeMessageView, ProtocolError> {
    if b.len() < 10 {
        Err(ProtocolError::InvalidMessage)
    } else {
        match type_of_code(b[1]) {
            None => Err(ProtocolError::UnknownMessageType),
            Some(t) => {
                let n = read_u32_be(b, 10) as int;
                if b.len() < 14 + n {
                    Err(ProtocolError::InvalidMessage)
                } else {
                    Ok(
                        EdgeMessageView {
                            version: b[0],
                            msg_type: t,
                            request_id: read_u64_be(b, 2),
                            payload: b.subrange(14, 14 + n),
                        },
                    )
                }
            },
        }
    }
}

/// Inputs on which reading a message is defined: a known type code with
/// fewer than 14 bytes but at least 10 has no complete length field.
pub open spec fn decodable(b: Seq<u8>) -> bool {
    b.len() < 10 || b.len() >= 14 || type_of_code(b[1]) is None
}

fn push_u64_be(out: &mut Vec<u8>, x: u64)
    ensures
        final(out)@ == old(out)@ + u64_be(x),
{
    out.push((x >> 56u64) as u8);
    out.push((x >> 48u64) as u8);
    out.push((x >> 40u64) as u8);
    out.push((x >> 32u64) as u8);
    out.push((x >> 24u64) as u8);
    out.push((x >> 16u64) as u8);
    out.push((x >> 8u64) as u8);
    out.push(x as u8);
    assert(final(out)@ =~= old(out)@ + u64_be(x));
}

fn push_u32_be(out: &mut Vec<u8>, x: u32)
    ensures
        final(out)@ == old(out)@ + u32_be(x),
{
    out.push((x >> 24u32) as u8);
    out.push((x >> 16u32) as u8);
    out.push((x >> 8u32) as u8);
    out.push(x as u8);
    assert(final(out)@ =~= old(out)@ + u32_be(x));
}

impl EdgeMessage {
    pub fn new(msg_type: MessageType, request_id: u64, payload: Vec<u8>) -> (r: Self)
        ensures
            r.version == 1,
            r.msg_type == msg_type,
            r.request_id == request_id,
            r.payload == payload,
    {
        EdgeMessage { version: 1, msg_type, request_id, payload }
    }

    pub fn ping() -> (r: Self)
        ensures
            r@ == (EdgeMessageView { version: 1, msg_type: MessageType::Ping, request_id: 0, payload: Seq::empty() }),
    {
        let r = Self::new(MessageType::Ping, 0, Vec::new());
        assert(r@.payload =~= Seq::<u8>::empty());
        r
    }

    pub fn pong() -> (r: Self)
        ensures
            r@ == (EdgeMessageView { version: 1, msg_type: MessageType::Pong, request_id: 0, payload: Seq::empty() }),
    {
        let r = Self::new(MessageType::Pong, 0, Vec::new());
        assert(r@.payload =~= Seq::<u8>::empty());
        r
    }

    /// A job submission carrying the job's serialized description.
    pub fn submit_job(payload: Vec<u8>, request_id: u64) -> (r: Result<Self, ProtocolError>)
        ensures
            r matches Ok(m) && m@ == (EdgeMessageView { version: 1, msg_type: MessageType::SubmitJob, request_id, payload: payload@ }),
    {
        Ok(Self::new(MessageType::SubmitJob, request_id, payload))
    }

    /// A claim by a worker: the payload is the worker id's UTF-8 bytes.
    pub fn claim_job(worker_id: &str, request_id: u64) -> (r: Self)
        ensures
            r@ == (EdgeMessageView {
                version: 1,
                msg_type: MessageType::ClaimJob,
                request_id,
                payload: worker_id.spec_bytes(),
            }),
    {
        let payload = worker_id.as_bytes_vec();
        Self::new(MessageType::ClaimJob, request_id, payload)
    }

    /// A job result carrying the result's serialized description.
    pub fn job_result(payload: Vec<u8>) -> (r: Result<Self, ProtocolError>)
        ensures
            r matches Ok(m) && m@ == (EdgeMessageView { version: 1, msg_type: MessageType::JobResult, request_id: 0, payload: payload@ }),
    {
        Ok(Self::new(MessageType::JobResult, 0, payload))
    }

    /// A grid command carrying the command's serialized description.
    pub fn grid_command(payload: Vec<u8>, request_id: u64) -> (r: Result<Self, ProtocolError>)
        ensures
            r matches Ok(m) && m@ == (EdgeMessageView { version: 1, msg_type: MessageType::GridCommand, request_id, payload: payload@ }),
    {
        Ok(Self::new(MessageType::GridCommand, request_id, payload))
    }

    /// An assertion check carrying the check's serialized description.
    pub fn assertion_check(payload: Vec<u8>, request_id: u64) -> (r: Result<Self, ProtocolError>)
        ensures
            r matches Ok(m) && m@ == (EdgeMessageView { version: 1, msg_type: MessageType::AssertionCheck, request_id, payload: payload@ }),
    {
        Ok(Self::new(MessageType::AssertionCheck, request_id, payload))
    }

    /// The wire form of the message.
    pub fn encode(&self) -> (bytes: Vec<u8>)
        ensures
            bytes@ == encode_spec(self@),
    {
        let mut bytes: Vec<u8> = Vec::new();
        bytes.push(self.version);
        bytes.push(self.msg_type.code());
        push_u64_be(&mut bytes, self.request_id);
        let len = self.payload.len() as u32;
        push_u32_be(&mut bytes, len);
        let ghost before = bytes@;
        let mut i: usize = 0;
        while i < self.payload.len()
            invariant
                i <= self.payload.len(),
                bytes@ == before + self.payload@.take(i as int),
            decreases self.payload.len() - i,
        {
            bytes.push(self.payload[i]);
            i = i + 1;
            assert(bytes@ =~= before + self.payload@.take(i as int));
        }
        assert(self.payload@.take(self.payload.len() as int) =~= self.payload@);
        assert(bytes@ =~= encode_spec(self@));
        bytes
    }

    /// Reads a message from its wire form.
    pub fn decode(bytes: &[u8]) -> (r: Result<Self, ProtocolError>)
        requires
            decodable(bytes@),
        ensures
            match r {
                Ok(m) => decode_spec(bytes@) == Ok::<EdgeMessageView, ProtocolError>(m@),
                Err(e) => decode_spec(bytes@) == Err::<EdgeMessageView, ProtocolError>(e),
            },
    {
        if bytes.len() < 10 {
            return Err(ProtocolError::InvalidMessage);
        }
        let version = bytes[0];
        let msg_type = match MessageType::from_code(bytes[1]) {
            Some(t) => t,
            None => { return Err(ProtocolError::UnknownMessageType); },
        };
        let request_id: u64 = ((bytes[2] as u64) << 56u64) | ((bytes[3] as u64) << 48u64) | ((
        bytes[4] as u64) << 40u64) | ((bytes[5] as u64) << 32u64) | ((bytes[6] as u64) << 24u64) | ((
        bytes[7] as u64) << 16u64) | ((bytes[8] as u64) << 8u64) | (bytes[9] as u64);
        let len32: u32 = ((bytes[10] as u32) << 24u32) | ((bytes[11] as u32) << 16u32) | ((bytes[12] as u32)
            << 8u32) | (bytes[13] as u32);
        let payload_len = len32 as usize;
        assert(payload_len as int == read_u32_be(bytes@, 10) as int);
        if bytes.len() - 14 < payload_len {
            return Err(ProtocolError::InvalidMessage);
        }
        let mut payload: Vec<u8> = Vec::new();
        let mut i: usize = 0;
        assert(bytes@.len() == bytes.len());
        while i < payload_len
            invariant
                i <= payload_len,
                14 + payload_len <= bytes@.len(),
                bytes@.len() <= usize::MAX,
                payload@ == bytes@.subrange(14, 14 + i),
            decreases payload_len - i,
        {
            payload.push(bytes[14 + i]);
            i = i + 1;
            assert(payload@ =~= bytes@.subrange(14, 14 + i));
        }
        let m = EdgeMessage { version, msg_type, request_id, payload };
        assert(decode_spec(bytes@) == Ok::<EdgeMessageView, ProtocolError>(m@));
        Ok(m)
    }
}

proof fn lemma_u64_be_roundtrip(x: u64)
    ensures
        ((((x >> 56u64) as u8) as u64) << 56u64) | ((((x >> 48u64) as u8) as u64) << 48u64) | ((((x
            >> 40u64) as u8) as u64) << 40u64) | ((((x >> 32u64) as u8) as u64) << 32u64) | ((((x
            >> 24u64) as u8) as u64) << 24u64) | ((((x >> 16u64) as u8) as u64) << 16u64) | ((((x
            >> 8u64) as u8) as u64) << 8u64) | ((x as u8) as u64) == x,
{
    assert(((((x >> 56u64) as u8) as u64) << 56u64) | ((((x >> 48u64) as u8) as u64) << 48u64) | ((((x
        >> 40u64) as u8) as u64) << 40u64) | ((((x >> 32u64) as u8) as u64) << 32u64) | ((((x
        >> 24u64) as u8) as u64) << 24u64) | ((((x >> 16u64) as u8) as u64) << 16u64) | ((((x
        >> 8u64) as u8) as u64) << 8u64) | ((x as u8) as u64) == x) by (bit_vector);
}

proof fn lemma_u32_be_roundtrip(x: u32)
    ensures
        ((((x >> 24u32) as u8) as u32) << 24u32) | ((((x >> 16u32) as u8) as u32) << 16u32) | ((((x
            >> 8u32) as u8) as u32) << 8u32) | ((x as u8) as u32) == x,
{
    assert(((((x >> 24u32) as u8) as u32) << 24u32) | ((((x >> 16u32) as u8) as u32) << 16u32) | ((((x
        >> 8u32) as u8) as u32) << 8u32) | ((x as u8) as u32) == x) by (bit_vector);
}

proof fn lemma_code_roundtrip(t: MessageType)
    ensures
        type_of_code(type_code(t)) == Some(t),
{
}

/// Reading back what `encode` wrote gives the same message, whenever the
/// payload's length fits the four-byte length field.
pub proof fn law_decode_inverts_encode(m: EdgeMessageView)
    requires
        m.payload.len() <= u32::MAX,
    ensures
        decodable(encode_spec(m)),
        decode_spec(encode_spec(m)) == Ok::<EdgeMessageView, ProtocolError>(m),
{
    let b = encode_spec(m);
    lemma_code_roundtrip(m.msg_type);
    lemma_u64_be_roundtrip(m.request_id);
    lemma_u32_be_roundtrip(m.payload.len() as u32);
    assert(b[1] == type_code(m.msg_type));
    assert(read_u64_be(b, 2) == m.request_id);
    assert(read_u32_be(b, 10) == m.payload.len() as u32);
    assert(b.subrange(14, 14 + m.payload.len() as int) =~= m.payload);
}


/// The place of a message type in the protocol's list of types.
pub open spec fn type_rank(t: MessageType) -> int {
    match t {
        MessageType::Ping => 0,
        MessageType::Pong => 1,
        MessageType::SubmitJob => 2,
        MessageType::JobSubmitted => 3,
        MessageType::ClaimJob => 4,
        MessageType::JobClaimed => 5,
        MessageType::JobResult => 6,
        MessageType::GridCommand => 7,
        MessageType::CommandResponse => 8,
        MessageType::AssertionCheck => 9,
        MessageType::AssertionResult => 10,
        MessageType::Error => 11,
    }
}

/// The type of the message that answers a request of type `t`, if any:
/// a ping is answered by a pong, a submitted job by its acknowledgement, a
/// claim by the claimed job, a grid command by its response, an assertion
/// check by its result.
pub open spec fn reply_type(t: MessageType) -> Option<MessageType> {
    match t {
        MessageType::Ping => Some(MessageType::Pong),
        MessageType::SubmitJob => Some(MessageType::JobSubmitted),
        MessageType::ClaimJob => Some(MessageType::JobClaimed),
        MessageType::GridCommand => Some(MessageType::CommandResponse),
        MessageType::AssertionCheck => Some(MessageType::AssertionResult),
        _ => None,
    }
}

/// The family a message type belongs to, which is the high half of its
/// code: 0 for liveness, 1 for jobs, 2 for grid commands, 3 for
/// assertions, 15 for errors.
pub open spec fn type_family(t: MessageType) -> int {
    match t {
        MessageType::Ping | MessageType::Pong => 0,
        MessageType::SubmitJob | MessageType::JobSubmitted | MessageType::ClaimJob | MessageType::JobClaimed
        | MessageType::JobResult => 1,
        MessageType::GridCommand | MessageType::CommandResponse => 2,
        MessageType::AssertionCheck | MessageType::AssertionResult => 3,
        MessageType::Error => 15,
    }
}

/// A reply's code is one above the code of the request it answers, on
/// the wire: the second byte of an encoded reply is one more than that of
/// an encoded request.
pub proof fn law_reply_code_follows_request(t: MessageType, request: EdgeMessageView, reply: EdgeMessageView)
    requires
        reply_type(t) is Some,
        request.msg_type == t,
        reply.msg_type == reply_type(t).unwrap(),
    ensures
        type_code(reply_type(t).unwrap()) == type_code(t) + 1,
        encode_spec(reply)[1] == encode_spec(request)[1] + 1,
{
}

/// Codes rise in the order the types are listed, so no two types share a
/// code and a code names one type.
pub proof fn law_codes_rise_in_listed_order(t1: MessageType, t2: MessageType)
    requires
        type_rank(t1) < type_rank(t2),
    ensures
        type_code(t1) < type_code(t2),
{
}

/// Each code is its family in the high half and, in the low half, the
/// type's place within the family, counted from 0 (from 1 for liveness,
/// and 15 for the error): ping 0x01, pong 0x02, submit 0x10 … result
/// 0x14, command 0x20, response 0x21, check 0x30, assertion result 0x31,
/// error 0xFF.
pub proof fn law_code_layout(t: MessageType)
    ensures
        type_code(t) / 16 == type_family(t),
        type_code(t) % 16 == (if type_family(t) == 0 {
            type_rank(t) + 1
        } else if type_family(t) == 1 {
            type_rank(t) - 2
        } else if type_family(t) == 2 {
            type_rank(t) - 7
        } else if type_family(t) == 3 {
            type_rank(t) - 9
        } else {
            15
        }),
{
}

} // verus!

verus! {

/// A job as sent to the grid.
pub struct EdgeJobPayload {
    pub id: String,
    pub test_file: String,
    pub browser: String,
    pub priority: u8,
    pub timeout_secs: u64,
    pub tenant_id: Option<String>,
    pub assertions: Vec<AssertionSpecPayload>,
}

/// An assertion as sent to the grid.
pub struct AssertionSpecPayload {
    pub kind: String,
    pub target: String,
    pub expected: String,
    pub timeout_ms: u64,
}

/// A job's result as sent to the grid.
pub struct JobResultPayload {
    pub job_id: String,
    pub status: String,
    pub duration_ms: u64,
    pub error: Option<String>,
    pub assertions_passed: u32,
    pub assertions_failed: u32,
}

/// A browser command forwarded to the grid.
pub struct GridCommand {
    pub command_type: GridCommandType,
    pub params: CommandParams,
}

/// The browser commands the grid runs.
#[derive(PartialEq, Eq, Structural, Clone, Copy, Debug)]
pub enum GridCommandType {
    Navigate,
    Click,
    Fill,
    Select,
    Hover,
    Screenshot,
    Evaluate,
    GetAttribute,
    GetText,
    WaitForSelector,
    WaitForNavigation,
}

/// The arguments of a grid command.
pub struct CommandParams {
    pub selector: Option<String>,
    pub url: Option<String>,
    pub value: Option<String>,
    pub timeout_ms: Option<u64>,
}

/// An assertion to check, as sent to the grid.
pub struct AssertionCheckPayload {
    pub assertion_id: String,
    pub job_id: String,
    pub kind: String,
    pub target: String,
    pub expected: String,
    pub timeout_ms: u64,
}

/// The outcome of an assertion check, as received from the grid.
pub struct AssertionResultPayload {
    pub assertion_id: String,
    pub passed: bool,
    pub actual: Option<String>,
    pub error: Option<String>,
    pub duration_ms: u64,
}

/// Builds the messages and commands of the protocol.
pub struct MessageBuilder;

impl MessageBuilder {
    pub fn build_ping() -> (r: EdgeMessage)
        ensures
            r@ == (EdgeMessageView { version: 1, msg_type: MessageType::Ping, request_id: 0, payload: Seq::empty() }),
    {
        EdgeMessage::ping()
    }

    pub fn build_pong() -> (r: EdgeMessage)
        ensures
            r@ == (EdgeMessageView { version: 1, msg_type: MessageType::Pong, request_id: 0, payload: Seq::empty() }),
    {
        EdgeMessage::pong()
    }

    /// A navigation to `url`.
    pub fn build_navigate(url: &str, timeout_ms: u64) -> (r: Result<GridCommand, ProtocolError>)
        ensures
            r matches Ok(c) && c.command_type == GridCommandType::Navigate && opt_view(c.params.selector) is None
                && opt_view(c.params.url) == Some(url@) && opt_view(c.params.value) is None
                && c.params.timeout_ms == Some(timeout_ms),
    {
        Ok(GridCommand {
            command_type: GridCommandType::Navigate,
            params: CommandParams {
                selector: None,
                url: Some(String::from_str(url)),
                value: None,
                timeout_ms: Some(timeout_ms),
            },
        })
    }

    /// A click on the element `selector` finds.
    pub fn build_click(selector: &str, timeout_ms: u64) -> (r: Result<GridCommand, ProtocolError>)
        ensures
            r matches Ok(c) && c.command_type == GridCommandType::Click && opt_view(c.params.selector) == Some(selector@)
                && opt_view(c.params.url) is None && opt_view(c.params.value) is None
                && c.params.timeout_ms == Some(timeout_ms),
    {
        Ok(GridCommand {
            command_type: GridCommandType::Click,
            params: CommandParams {
                selector: Some(String::from_str(selector)),
                url: None,
                value: None,
                timeout_ms: Some(timeout_ms),
            },
        })
    }

    /// Filling the element `selector` finds with `value`.
    pub fn build_fill(selector: &str, value: &str, timeout_ms: u64) -> (r: Result<GridCommand, ProtocolError>)
        ensures
            r matches Ok(c) && c.command_type == GridCommandType::Fill && opt_view(c.params.selector) == Some(selector@)
                && opt_view(c.params.url) is None && opt_view(c.params.value) == Some(value@)
                && c.params.timeout_ms == Some(timeout_ms),
    {
        Ok(GridCommand {
            command_type: GridCommandType::Fill,
            params: CommandParams {
                selector: Some(String::from_str(selector)),
                url: None,
                value: Some(String::from_str(value)),
                timeout_ms: Some(timeout_ms),
            },
        })
    }
}

} // verus!
