//! How the reply to a command is framed on a serial line.
//!
//! Nothing here touches a port. A caller writes the bytes of a command, then
//! feeds a `ReplyReader` the outcome of each read, one byte at a time, until
//! the reader says that the exchange is over.

use crate::mount::MountError;
use vstd::prelude::*;

verus! {

/// No reply may be longer than this many bytes.
pub const MAX_REPLY_LEN: usize = 1024;

/// How the end of a reply is recognised.
#[derive(Clone, Debug)]
pub enum ResponseType {
    /// The command has no reply.
    Nothing,
    /// The reply ends with the given byte.
    EndsWith(u8),
    /// The reply has exactly this many bytes.
    NumCharsReceived(usize),
    /// The reply is exactly these bytes.
    CharsReceived(Vec<u8>),
}

/// `ResponseType` as a mathematical value.
pub enum ResponseSpec {
    Nothing,
    EndsWith(u8),
    NumCharsReceived(nat),
    CharsReceived(Seq<u8>),
}

impl View for ResponseType {
    type V = ResponseSpec;

    open spec fn view(&self) -> ResponseSpec {
        match self {
            ResponseType::Nothing => ResponseSpec::Nothing,
            ResponseType::EndsWith(b) => ResponseSpec::EndsWith(*b),
            ResponseType::NumCharsReceived(n) => ResponseSpec::NumCharsReceived(*n as nat),
            ResponseType::CharsReceived(c) => ResponseSpec::CharsReceived(c@),
        }
    }
}

/// What to do with a reply that is not the expected one. Some mounts leave
/// out the confirmation of a command, so a caller may choose to go on.
#[derive(Clone, Copy, Debug, PartialEq, Eq, Structural)]
pub enum InvalidResponseTreatment {
    /// The exchange fails.
    Fail,
    /// The exchange succeeds with what was received; the flag asks for a
    /// warning in the log.
    IgnoreAndLog(bool),
}

/// Whether a command with this kind of response is followed by any reply.
pub open spec fn expects_reply(rt: ResponseSpec) -> bool {
    match rt {
        ResponseSpec::Nothing => false,
        ResponseSpec::EndsWith(_) => true,
        ResponseSpec::NumCharsReceived(n) => n != 0,
        ResponseSpec::CharsReceived(c) => c.len() != 0,
    }
}

/// Whether `buf`, which is not empty, holds a whole reply.
pub open spec fn reply_complete(rt: ResponseSpec, buf: Seq<u8>) -> bool {
    match rt {
        ResponseSpec::Nothing => true,
        ResponseSpec::EndsWith(b) => buf.last() == b,
        ResponseSpec::NumCharsReceived(n) => buf.len() == n,
        ResponseSpec::CharsReceived(c) => buf.len() == c.len(),
    }
}

/// Whether a complete reply is the expected one.
pub open spec fn reply_expected(rt: ResponseSpec, buf: Seq<u8>) -> bool {
    match rt {
        ResponseSpec::CharsReceived(c) => buf == c,
        _ => true,
    }
}

/// The end of an exchange as a mathematical value.
pub struct ReplySpec {
    /// The bytes of the reply, or why there are none.
    pub result: Result<Seq<u8>, MountError>,
    /// Whether a warning is due because an invalid reply was let pass.
    pub warn: bool,
}

/// A reader's state as a mathematical value.
pub enum ReadingSpec {
    /// More bytes are needed; these were received so far.
    Pending(Seq<u8>),
    /// The exchange is over.
    Done(ReplySpec),
}

/// The end of an exchange whose reply `buf` was found invalid.
pub open spec fn invalid_reply(on_invalid: InvalidResponseTreatment, buf: Seq<u8>) -> ReplySpec {
    match on_invalid {
        InvalidResponseTreatment::Fail => ReplySpec {
            result: Err(MountError::UnexpectedReply),
            warn: false,
        },
        InvalidResponseTreatment::IgnoreAndLog(log) => ReplySpec { result: Ok(buf), warn: log },
    }
}

/// Where an exchange stands once the command is written.
pub open spec fn begin_spec(rt: ResponseSpec) -> ReadingSpec {
    if expects_reply(rt) {
        ReadingSpec::Pending(Seq::empty())
    } else {
        ReadingSpec::Done(ReplySpec { result: Ok(Seq::empty()), warn: false })
    }
}

/// Where an exchange stands after one more read, which gave a byte or
/// failed. A failed read ends the exchange with an invalid reply, in which
/// the slot of the missing byte holds zero. A byte that completes the reply
/// ends it too; one that brings the reply to `MAX_REPLY_LEN` bytes without
/// completing it is a protocol error.
pub open spec fn feed_spec(
    rt: ResponseSpec,
    on_invalid: InvalidResponseTreatment,
    received: Seq<u8>,
    input: Option<u8>,
) -> ReadingSpec {
    match input {
        None => ReadingSpec::Done(invalid_reply(on_invalid, received.push(0u8))),
        Some(b) => {
            let buf = received.push(b);
            if reply_complete(rt, buf) {
                if reply_expected(rt, buf) {
                    ReadingSpec::Done(ReplySpec { result: Ok(buf), warn: false })
                } else {
                    ReadingSpec::Done(invalid_reply(on_invalid, buf))
                }
            } else if buf.len() >= MAX_REPLY_LEN {
                ReadingSpec::Done(ReplySpec { result: Err(MountError::ReplyTooLong), warn: false })
            } else {
                ReadingSpec::Pending(buf)
            }
        },
    }
}

/// Where an exchange stands after the reads `inputs`, in order. Reads after
/// the end of the exchange do not count.
pub open spec fn run_spec(
    rt: ResponseSpec,
    on_invalid: InvalidResponseTreatment,
    start: ReadingSpec,
    inputs: Seq<Option<u8>>,
) -> ReadingSpec
    decreases inputs.len(),
{
    match start {
        ReadingSpec::Done(_) => start,
        ReadingSpec::Pending(received) => if inputs.len() == 0 {
            start
        } else {
            run_spec(
                rt,
                on_invalid,
                feed_spec(rt, on_invalid, received, inputs[0]),
                inputs.subrange(1, inputs.len() as int),
            )
        },
    }
}

/// The end of an exchange.
#[derive(Debug)]
pub struct Reply {
    /// The bytes of the reply, or why there are none.
    pub result: Result<Vec<u8>, MountError>,
    /// Whether a warning is due because an invalid reply was let pass.
    pub warn: bool,
}

impl View for Reply {
    type V = ReplySpec;

    open spec fn view(&self) -> ReplySpec {
        ReplySpec {
            result: match self.result {
                Ok(v) => Ok(v@),
                Err(e) => Err(e),
            },
            warn: self.warn,
        }
    }
}

/// Reads the reply to one command, byte by byte.
#[derive(Debug)]
pub struct ReplyReader {
    response_type: ResponseType,
    on_invalid: InvalidResponseTreatment,
    received: Vec<u8>,
}

/// An exchange that waits for its next byte, or its end.
#[derive(Debug)]
pub enum Reading {
    Pending(ReplyReader),
    Done(Reply),
}

impl ReplyReader {
    /// How the end of the reply is recognised.
    pub closed spec fn response_type(&self) -> ResponseSpec {
        self.response_type@
    }

    /// What happens to an invalid reply.
    pub closed spec fn on_invalid(&self) -> InvalidResponseTreatment {
        self.on_invalid
    }

    /// The bytes received so far.
    pub closed spec fn received(&self) -> Seq<u8> {
        self.received@
    }

    /// A reader that waits for a byte has room for it, and reads an exchange
    /// that has a reply.
    #[verifier::type_invariant]
    closed spec fn wf(&self) -> bool {
        &&& self.received@.len() < MAX_REPLY_LEN
        &&& expects_reply(self.response_type@)
    }
}

impl Reading {
    /// This state as a mathematical value.
    pub open spec fn view(&self) -> ReadingSpec {
        match self {
            Reading::Pending(reader) => ReadingSpec::Pending(reader.received()),
            Reading::Done(reply) => ReadingSpec::Done(reply@),
        }
    }

    /// Whether this state, where it waits for a byte, belongs to an exchange
    /// with the given kind of response and treatment of invalid replies.
    pub open spec fn reads(&self, rt: ResponseSpec, on_invalid: InvalidResponseTreatment) -> bool {
        self matches Reading::Pending(reader) ==> {
            &&& reader.response_type() == rt
            &&& reader.on_invalid() == on_invalid
        }
    }
}

fn same_bytes(a: &Vec<u8>, b: &Vec<u8>) -> (r: bool)
    ensures
        r == (a@ == b@),
{
    if a.len() != b.len() {
        return false;
    }
    let mut i: usize = 0;
    while i < a.len()
        invariant
            a.len() == b.len(),
            i <= a.len(),
            forall|j: int| 0 <= j < i ==> a@[j] == b@[j],
        decreases a.len() - i,
    {
        if a[i] != b[i] {
            return false;
        }
        i = i + 1;
    }
    assert(a@ =~= b@);
    true
}

impl ReplyReader {
    /// Starts the exchange: to be called once the command is written.
    pub fn begin(response_type: ResponseType, on_invalid: InvalidResponseTreatment) -> (r: Reading)
        ensures
            r@ == begin_spec(response_type@),
            r.reads(response_type@, on_invalid),
    {
        let expects = match &response_type {
            ResponseType::Nothing => false,
            ResponseType::EndsWith(_) => true,
            ResponseType::NumCharsReceived(n) => *n != 0,
            ResponseType::CharsReceived(c) => c.len() != 0,
        };
        if expects {
            Reading::Pending(ReplyReader { response_type, on_invalid, received: Vec::new() })
        } else {
            Reading::Done(Reply { result: Ok(Vec::new()), warn: false })
        }
    }

    /// Takes the outcome of one read: a byte, or `None` where the read
    /// failed or timed out.
    pub fn feed(self, input: Option<u8>) -> (r: Reading)
        ensures
            r@ == feed_spec(self.response_type(), self.on_invalid(), self.received(), input),
            r.reads(self.response_type(), self.on_invalid()),
    {
        proof {
            use_type_invariant(&self);
        }
        let ReplyReader { response_type, on_invalid, received } = self;
        let mut buf = received;
        match input {
            None => {
                buf.push(0u8);
                Reading::Done(Self::invalid(on_invalid, buf))
            },
            Some(b) => {
                buf.push(b);
                let complete = match &response_type {
                    ResponseType::Nothing => true,
                    ResponseType::EndsWith(end) => b == *end,
                    ResponseType::NumCharsReceived(n) => buf.len() == *n,
                    ResponseType::CharsReceived(c) => buf.len() == c.len(),
                };
                if complete {
                    let expected = match &response_type {
                        ResponseType::CharsReceived(c) => same_bytes(&buf, c),
                        _ => true,
                    };
                    if expected {
                        Reading::Done(Reply { result: Ok(buf), warn: false })
                    } else {
                        Reading::Done(Self::invalid(on_invalid, buf))
                    }
                } else if buf.len() >= MAX_REPLY_LEN {
                    Reading::Done(Reply { result: Err(MountError::ReplyTooLong), warn: false })
                } else {
                    Reading::Pending(ReplyReader { response_type, on_invalid, received: buf })
                }
            },
        }
    }

    fn invalid(on_invalid: InvalidResponseTreatment, buf: Vec<u8>) -> (r: Reply)
        ensures
            r@ == invalid_reply(on_invalid, buf@),
    {
        match on_invalid {
            InvalidResponseTreatment::Fail => Reply {
                result: Err(MountError::UnexpectedReply),
                warn: false,
            },
            InvalidResponseTreatment::IgnoreAndLog(log) => Reply { result: Ok(buf), warn: log },
        }
    }
}

/// No exchange needs more reads than a reply may have bytes: a reader that
/// holds fewer than `MAX_REPLY_LEN` bytes is done after as many reads as
/// it has room for, whatever they give.
pub proof fn lemma_exchange_ends(
    rt: ResponseSpec,
    on_invalid: InvalidResponseTreatment,
    received: Seq<u8>,
    inputs: Seq<Option<u8>>,
)
    requires
        received.len() < MAX_REPLY_LEN,
        inputs.len() >= MAX_REPLY_LEN - received.len(),
    ensures
        run_spec(rt, on_invalid, ReadingSpec::Pending(received), inputs) is Done,
    decreases inputs.len(),
{
    let next = feed_spec(rt, on_invalid, received, inputs[0]);
    let rest = inputs.subrange(1, inputs.len() as int);
    match next {
        ReadingSpec::Done(_) => {
            assert(run_spec(rt, on_invalid, next, rest) == next);
        },
        ReadingSpec::Pending(buf) => {
            lemma_exchange_ends(rt, on_invalid, buf, rest);
        },
    }
}

/// The bytes that the reads `inputs` gave, zero for a read that failed.
pub open spec fn bytes_of(inputs: Seq<Option<u8>>) -> Seq<u8> {
    Seq::new(
        inputs.len(),
        |i: int|
            match inputs[i] {
                Some(b) => b,
                None => 0u8,
            },
    )
}

/// A reply of a given length is made of the bytes received, as they come:
/// where so many reads succeed, the exchange ends with their bytes.
pub proof fn lemma_counted_reply(
    n: nat,
    on_invalid: InvalidResponseTreatment,
    received: Seq<u8>,
    inputs: Seq<Option<u8>>,
)
    requires
        0 < n <= MAX_REPLY_LEN,
        received.len() + inputs.len() == n,
        inputs.len() > 0,
        forall|i: int| 0 <= i < inputs.len() ==> inputs[i] is Some,
    ensures
        run_spec(
            ResponseSpec::NumCharsReceived(n),
            on_invalid,
            ReadingSpec::Pending(received),
            inputs,
        ) == ReadingSpec::Done(
            ReplySpec { result: Ok(received + bytes_of(inputs)), warn: false },
        ),
    decreases inputs.len(),
{
    let rt = ResponseSpec::NumCharsReceived(n);
    let next = feed_spec(rt, on_invalid, received, inputs[0]);
    let rest = inputs.subrange(1, inputs.len() as int);
    let buf = received.push(inputs[0]->0);
    if inputs.len() == 1 {
        assert(buf =~= received + bytes_of(inputs));
        assert(run_spec(rt, on_invalid, next, rest) == next);
    } else {
        assert(next == ReadingSpec::Pending(buf));
        lemma_counted_reply(n, on_invalid, buf, rest);
        assert(buf + bytes_of(rest) =~= received + bytes_of(inputs));
    }
}

/// Whether an exchange that stands at `state` has ended with the reply
/// `buf`.
pub open spec fn ended_with(state: ReadingSpec, buf: Seq<u8>) -> bool {
    state matches ReadingSpec::Done(reply) && reply.result == Ok::<Seq<u8>, MountError>(buf)
}

/// Where invalid replies fail the exchange, a reply that is handed out is
/// whole, is the expected one, and is not longer than a reply may be.
pub proof fn lemma_accepted_reply_is_framed(
    rt: ResponseSpec,
    received: Seq<u8>,
    inputs: Seq<Option<u8>>,
    buf: Seq<u8>,
)
    requires
        expects_reply(rt),
        received.len() < MAX_REPLY_LEN,
        ended_with(
            run_spec(rt, InvalidResponseTreatment::Fail, ReadingSpec::Pending(received), inputs),
            buf,
        ),
    ensures
        reply_complete(rt, buf),
        reply_expected(rt, buf),
        0 < buf.len() <= MAX_REPLY_LEN,
    decreases inputs.len(),
{
    let on_invalid = InvalidResponseTreatment::Fail;
    if inputs.len() > 0 {
        let next = feed_spec(rt, on_invalid, received, inputs[0]);
        let rest = inputs.subrange(1, inputs.len() as int);
        match next {
            ReadingSpec::Done(_) => {
                assert(run_spec(rt, on_invalid, next, rest) == next);
            },
            ReadingSpec::Pending(more) => {
                lemma_accepted_reply_is_framed(rt, more, rest, buf);
            },
        }
    }
}

} // verus!
