//! The application message that a decrypted payload carries.

use meshtastic_protobufs::meshtastic::Data;
use prost::Message;
use vstd::prelude::*;
use crate::bytes::{copy_fitted, fitted, kept_len, MAX_PAYLOAD};

verus! {

/// The error `prost` reports for bytes that are no valid message.
#[verifier::external_type_specification]
#[verifier::external_body]
pub struct ExDecodeError(prost::DecodeError);

/// An application message as the wire format carries it: the payload has
/// whatever length the sender gave it.
#[derive(Clone, Debug)]
pub struct DataMessage {
    /// Number of the port (the application) the message is for.
    pub portnum: i32,
    /// The application's bytes.
    pub payload: Vec<u8>,
    /// Whether the sender asks for a response in kind.
    pub want_response: bool,
    /// Address of the destination node.
    pub dest: u32,
    /// Address of the node the message started from.
    pub source: u32,
    /// Identifier of the message this one reports on.
    pub request_id: u32,
    /// Identifier of the message this one replies to.
    pub reply_id: u32,
    /// Reaction code.
    pub emoji: u32,
}

/// The mathematical content of a message, shared by its wire form and its
/// owned form.
pub struct MessageContent {
    pub portnum: i32,
    pub payload: Seq<u8>,
    pub want_response: bool,
    pub dest: u32,
    pub source: u32,
    pub request_id: u32,
    pub reply_id: u32,
    pub emoji: u32,
}

impl MessageContent {
    /// This content with its payload cut to what an owned message holds.
    pub open spec fn truncated(self) -> MessageContent {
        MessageContent { payload: self.payload.take(kept_len(self.payload, MAX_PAYLOAD as nat) as int), ..self }
    }
}

impl View for DataMessage {
    type V = MessageContent;

    open spec fn view(&self) -> MessageContent {
        MessageContent {
            portnum: self.portnum,
            payload: self.payload@,
            want_response: self.want_response,
            dest: self.dest,
            source: self.source,
            request_id: self.request_id,
            reply_id: self.reply_id,
            emoji: self.emoji,
        }
    }
}

/// The message that `bytes` encode in the protocol-buffer wire format of the
/// mesh's `Data` schema (its optional bitfield left aside); `None` where the
/// decoder rejects them.
pub uninterp spec fn data_message_decoded(bytes: Seq<u8>) -> Option<MessageContent>;

/// Calls `prost::Message::decode` for `meshtastic_protobufs::meshtastic::Data`
/// and moves the fields of the result over.
///
/// Trusted: the decoder accepts or rejects `bytes` and fills the fields as a
/// function of `bytes` alone.
#[verifier::external_body]
pub(crate) fn decode_data_message(bytes: &[u8]) -> (r: Result<DataMessage, prost::DecodeError>)
    ensures
        match data_message_decoded(bytes@) {
            Some(content) => r matches Ok(message) && message@ == content,
            None => r is Err,
        },
{
    match Data::decode(bytes) {
        Ok(d) => Ok(DataMessage {
            portnum: d.portnum,
            payload: d.payload,
            want_response: d.want_response,
            dest: d.dest,
            source: d.source,
            request_id: d.request_id,
            reply_id: d.reply_id,
            emoji: d.emoji,
        }),
        Err(e) => Err(e),
    }
}

/// An application message that owns its payload in a fixed buffer.
#[derive(Clone, Debug)]
pub struct OwnedData {
    /// Number of the port (the application) the message is for. Numbers
    /// that no application is registered for are kept as they are.
    pub portnum: i32,
    /// The payload buffer; only the first `payload_len` bytes are data.
    pub payload: [u8; 240],
    /// Number of payload bytes in use.
    pub payload_len: usize,
    /// Whether the sender asks for a response in kind.
    pub want_response: bool,
    /// Address of the destination node.
    pub dest: u32,
    /// Address of the node the message started from.
    pub source: u32,
    /// Identifier of the message this one reports on.
    pub request_id: u32,
    /// Identifier of the message this one replies to.
    pub reply_id: u32,
    /// Reaction code.
    pub emoji: u32,
}

impl OwnedData {
    /// The payload length stays within the buffer.
    pub open spec fn wf(self) -> bool {
        self.payload_len <= MAX_PAYLOAD
    }

    /// The payload bytes in use.
    pub open spec fn payload_bytes(self) -> Seq<u8> {
        self.payload@.take(self.payload_len as int)
    }

    /// Copies a decoded message into its owned form.
    ///
    /// At most 240 payload bytes are kept; what lies beyond is dropped, and
    /// the unused part of the buffer is zero.
    pub fn from_protobuf(data: &DataMessage) -> (owned: OwnedData)
        ensures
            owned.wf(),
            owned@ == data@.truncated(),
            owned.payload@ == fitted(data.payload@, MAX_PAYLOAD as nat),
            owned.payload_len == kept_len(data.payload@, MAX_PAYLOAD as nat),
    {
        let copy_len: usize = if data.payload.len() < MAX_PAYLOAD {
            data.payload.len()
        } else {
            MAX_PAYLOAD
        };
        let owned = OwnedData {
            portnum: data.portnum,
            payload: copy_fitted(data.payload.as_slice()),
            payload_len: copy_len,
            want_response: data.want_response,
            dest: data.dest,
            source: data.source,
            request_id: data.request_id,
            reply_id: data.reply_id,
            emoji: data.emoji,
        };
        assert(owned.payload_bytes() =~= data@.truncated().payload);
        owned
    }
}

impl View for OwnedData {
    type V = MessageContent;

    open spec fn view(&self) -> MessageContent {
        MessageContent {
            portnum: self.portnum,
            payload: self.payload_bytes(),
            want_response: self.want_response,
            dest: self.dest,
            source: self.source,
            request_id: self.request_id,
            reply_id: self.reply_id,
            emoji: self.emoji,
        }
    }
}

} // verus!
