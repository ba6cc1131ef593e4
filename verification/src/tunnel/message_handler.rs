use crate::message::common::{encoding, fits_frame, MessageBuilder};
use crate::message::error::MessageError;
use crate::message::types::Message;
use crate::tunnel::error::TunnelError;
use vstd::prelude::*;

verus! {

/// The frame to send for `message`: what `buffer` held, followed by the
/// message's encoding. `buffer` is left empty. Where the message does not fit
/// in a frame, the error is `TooLong` and `buffer` is unchanged.
pub fn frame_message(message: &Message, buffer: &mut Vec<u8>) -> (r: Result<Vec<u8>, TunnelError>)
    ensures
        r is Ok <==> fits_frame(message.message_payload@),
        r matches Ok(frame) ==> frame@ == old(buffer)@ + encoding(
            message.version,
            message.message_type,
            message.message_payload@,
        ) && final(buffer)@.len() == 0,
        r is Err ==> r == Err::<Vec<u8>, TunnelError>(TunnelError::MessageError(MessageError::TooLong))
            && final(buffer)@ == old(buffer)@,
{
    match MessageBuilder::encode(message, buffer) {
        Ok(()) => {
            let mut frame: Vec<u8> = Vec::new();
            std::mem::swap(&mut frame, buffer);
            Ok(frame)
        },
        Err(e) => Err(TunnelError::from(e)),
    }
}

} // verus!
