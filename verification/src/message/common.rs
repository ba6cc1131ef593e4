use crate::message::error::MessageError;
use crate::message::types::{Message, MessageType};
use vstd::prelude::*;

verus! {

/// The longest frame: its length travels in one byte.
pub const MAX_FRAME_LEN: usize = 255;

/// The byte that stands for a message type in a frame.
pub open spec fn type_code(t: MessageType) -> u8 {
    match t {
        MessageType::Empty => 0,
        MessageType::Heartbeat => 1,
        MessageType::Service => 2,
        MessageType::Proxy => 3,
        MessageType::Close => 4,
        MessageType::Error => 5,
    }
}

/// The message type that a byte stands for.
pub open spec fn type_of_code(code: u8) -> Option<MessageType> {
    if code == 0 {
        Some(MessageType::Empty)
    } else if code == 1 {
        Some(MessageType::Heartbeat)
    } else if code == 2 {
        Some(MessageType::Service)
    } else if code == 3 {
        Some(MessageType::Proxy)
    } else if code == 4 {
        Some(MessageType::Close)
    } else if code == 5 {
        Some(MessageType::Error)
    } else {
        None
    }
}

/// A message as a frame: the version, the type code, then the payload.
pub open spec fn encoding(version: u8, t: MessageType, payload: Seq<u8>) -> Seq<u8> {
    seq![version, type_code(t)] + payload
}

/// Whether a message with this payload fits in one frame.
pub open spec fn fits_frame(payload: Seq<u8>) -> bool {
    payload.len() + 2 <= MAX_FRAME_LEN
}

/// The message that a frame holds.
pub open spec fn decoding(frame: Seq<u8>) -> Result<(u8, MessageType, Seq<u8>), MessageError> {
    if frame.len() < 2 {
        Err(MessageError::Truncated)
    } else {
        match type_of_code(frame[1]) {
            None => Err(MessageError::UnknownType(frame[1])),
            Some(t) => Ok((frame[0], t, frame.skip(2))),
        }
    }
}

pub open spec fn message_is(m: Message, d: (u8, MessageType, Seq<u8>)) -> bool {
    m.version == d.0 && m.message_type == d.1 && m.message_payload@ == d.2
}

/// Writes messages into frames.
pub struct MessageBuilder;

/// Reads messages from frames.
pub struct MessageParser;

fn code_of(t: MessageType) -> (r: u8)
    ensures
        r == type_code(t),
{
    match t {
        MessageType::Empty => 0,
        MessageType::Heartbeat => 1,
        MessageType::Service => 2,
        MessageType::Proxy => 3,
        MessageType::Close => 4,
        MessageType::Error => 5,
    }
}

fn type_from_code(code: u8) -> (r: Option<MessageType>)
    ensures
        r == type_of_code(code),
{
    if code == 0 {
        Some(MessageType::Empty)
    } else if code == 1 {
        Some(MessageType::Heartbeat)
    } else if code == 2 {
        Some(MessageType::Service)
    } else if code == 3 {
        Some(MessageType::Proxy)
    } else if code == 4 {
        Some(MessageType::Close)
    } else if code == 5 {
        Some(MessageType::Error)
    } else {
        None
    }
}

impl MessageBuilder {
    /// Appends the frame of `message` to `buffer`; `TooLong` (and `buffer`
    /// unchanged) where the message does not fit in one frame.
    pub fn encode(message: &Message, buffer: &mut Vec<u8>) -> (r: Result<(), MessageError>)
        ensures
            r is Ok <==> fits_frame(message.message_payload@),
            r is Ok ==> final(buffer)@ == old(buffer)@ + encoding(
                message.version,
                message.message_type,
                message.message_payload@,
            ),
            r is Err ==> r == Err::<(), MessageError>(MessageError::TooLong) && final(buffer)@
                == old(buffer)@,
    {
        let n = message.message_payload.len();
        if n > MAX_FRAME_LEN - 2 {
            return Err(MessageError::TooLong);
        }
        let ghost start = buffer@;
        buffer.push(message.version);
        buffer.push(code_of(message.message_type));
        let mut i: usize = 0;
        while i < n
            invariant
                i <= n,
                n == message.message_payload@.len(),
                buffer@ == start + seq![message.version, type_code(message.message_type)]
                    + message.message_payload@.take(i as int),
            decreases n - i,
        {
            buffer.push(message.message_payload[i]);
            assert(message.message_payload@.take(i + 1) =~= message.message_payload@.take(
                i as int,
            ).push(message.message_payload@[i as int]));
            i = i + 1;
        }
        assert(message.message_payload@.take(n as int) =~= message.message_payload@);
        assert(start + seq![message.version, type_code(message.message_type)]
            + message.message_payload@ =~= start + encoding(
            message.version,
            message.message_type,
            message.message_payload@,
        ));
        Ok(())
    }
}

impl MessageParser {
    /// Reads the message that `frame` holds.
    pub fn parse(frame: &[u8]) -> (r: Result<Message, MessageError>)
        ensures
            match decoding(frame@) {
                Ok(d) => r matches Ok(m) && message_is(m, d),
                Err(e) => r == Err::<Message, MessageError>(e),
            },
    {
        if frame.len() < 2 {
            return Err(MessageError::Truncated);
        }
        let message_type = match type_from_code(frame[1]) {
            Some(t) => t,
            None => return Err(MessageError::UnknownType(frame[1])),
        };
        let mut payload: Vec<u8> = Vec::new();
        let mut i: usize = 2;
        while i < frame.len()
            invariant
                2 <= i <= frame@.len(),
                payload@ == frame@.subrange(2, i as int),
            decreases frame@.len() - i,
        {
            payload.push(frame[i]);
            assert(frame@.subrange(2, i + 1) =~= frame@.subrange(2, i as int).push(frame@[i as int]));
            i = i + 1;
        }
        assert(frame@.subrange(2, frame@.len() as int) =~= frame@.skip(2));
        Ok(Message { version: frame[0], message_type, message_payload: payload })
    }
}

/// Reading a frame gives back the message that was written into it.
pub proof fn lemma_parse_undoes_encode(version: u8, t: MessageType, payload: Seq<u8>)
    ensures
        decoding(encoding(version, t, payload)) == Ok::<(u8, MessageType, Seq<u8>), MessageError>(
            (version, t, payload),
        ),
{
    assert(encoding(version, t, payload).skip(2) =~= payload);
}

/// A frame that reads as a message is exactly that message's encoding.
pub proof fn lemma_encode_undoes_parse(frame: Seq<u8>)
    requires
        decoding(frame) is Ok,
    ensures
        ({
            let d = decoding(frame)->Ok_0;
            encoding(d.0, d.1, d.2) == frame
        }),
{
    let d = decoding(frame)->Ok_0;
    assert(encoding(d.0, d.1, d.2) =~= frame);
}

} // verus!
