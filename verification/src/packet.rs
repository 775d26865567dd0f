//! The packet pipeline: a received frame is built as an encrypted packet,
//! decrypted, and decoded, each step consuming the packet of the step
//! before.

use core::marker::PhantomData;
use vstd::prelude::*;
use crate::bytes::{copy_fitted, fitted, kept_len, HEADER_LEN, MAX_PAYLOAD};
use crate::header::Header;
use crate::key::ChannelKey;
use crate::message::{data_message_decoded, decode_data_message, OwnedData};

verus! {

/// Stage marker: the payload is still ciphertext.
#[derive(Clone)]
pub struct Encrypted;

/// Stage marker: the payload has been decrypted.
#[derive(Clone)]
pub struct Decrypted;

/// Stage marker: the payload has been decoded.
#[derive(Clone)]
pub struct Decoded;

/// A packet at stage `S` of the pipeline.
///
/// The stage is one of [`Encrypted`] and [`Decrypted`]. Each step of the
/// pipeline is a method of the packet at one stage only and takes the
/// packet by value, so a payload cannot be decoded before it is decrypted,
/// nor processed twice.
pub struct Packet<S> {
    /// The parsed header.
    pub header: Header,
    /// Received signal strength.
    pub rssi: i8,
    /// Signal-to-noise ratio.
    pub snr: i8,
    /// The payload buffer; only the first `payload_len` bytes are data.
    pub payload: [u8; 240],
    /// Number of payload bytes in use.
    pub payload_len: usize,
    /// Carries the stage in the type; holds no data.
    pub _marker: PhantomData<S>,
}

/// A packet whose payload has been decoded into an application message.
#[derive(Clone)]
pub struct DecodedPacket {
    /// The parsed header.
    pub header: Header,
    /// Received signal strength.
    pub rssi: i8,
    /// Signal-to-noise ratio.
    pub snr: i8,
    /// The decoded message.
    pub data: OwnedData,
}

impl<S> Clone for Packet<S> {
    fn clone(&self) -> (copy: Self)
        ensures
            copy == *self,
    {
        Packet {
            header: self.header,
            rssi: self.rssi,
            snr: self.snr,
            payload: self.payload,
            payload_len: self.payload_len,
            _marker: PhantomData,
        }
    }
}

impl<S> Packet<S> {
    /// The payload length stays within the buffer.
    pub open spec fn wf(self) -> bool {
        self.payload_len <= MAX_PAYLOAD
    }

    /// The payload bytes in use.
    pub open spec fn data(self) -> Seq<u8> {
        self.payload@.take(self.payload_len as int)
    }

    /// Builds a packet from its parts. The payload length must not exceed
    /// the buffer.
    pub fn new(
        header: Header,
        rssi: i8,
        snr: i8,
        payload: [u8; 240],
        payload_len: usize,
    ) -> (packet: Self)
        requires
            payload_len <= MAX_PAYLOAD,
        ensures
            packet.wf(),
            packet.header == header,
            packet.rssi == rssi,
            packet.snr == snr,
            packet.payload == payload,
            packet.payload_len == payload_len,
    {
        Self { header, rssi, snr, payload, payload_len, _marker: PhantomData }
    }
}

impl Packet<Encrypted> {
    /// Builds an encrypted packet from a received frame: a 16-byte header
    /// followed by ciphertext.
    ///
    /// A frame shorter than a header is refused. Of the ciphertext at most
    /// 240 bytes are kept; what lies beyond is dropped.
    pub fn from_bytes(buffer: &[u8], rssi: i8, snr: i8) -> (packet: Option<Packet<Encrypted>>)
        ensures
            packet is Some <==> buffer@.len() >= HEADER_LEN,
            buffer@.len() == HEADER_LEN ==> (packet matches Some(p) && p.payload_len == 0),
            packet matches Some(p) ==> {
                &&& p.wf()
                &&& p.header == Header::parsed(buffer@)
                &&& p.rssi == rssi
                &&& p.snr == snr
                &&& p.payload@ == fitted(buffer@.skip(HEADER_LEN as int), MAX_PAYLOAD as nat)
                &&& p.payload_len == kept_len(buffer@.skip(HEADER_LEN as int), MAX_PAYLOAD as nat)
            },
    {
        if buffer.len() < HEADER_LEN {
            return None;
        }
        let (head, body) = buffer.split_at(HEADER_LEN);
        let header = match Header::from_bytes(head) {
            Some(h) => h,
            None => { return None; },
        };
        let payload_len: usize = if body.len() < MAX_PAYLOAD {
            body.len()
        } else {
            MAX_PAYLOAD
        };
        Some(
            Packet { header, rssi, snr, payload: copy_fitted(body), payload_len, _marker: PhantomData },
        )
    }

    /// Decrypts the payload with the key of the packet's channel.
    ///
    /// The initialization vector comes from the header alone. The cipher is
    /// applied to the bytes in use; the result has the same header, signal
    /// values and length, and zeros behind the bytes in use.
    pub fn decrypt(self, key: &ChannelKey) -> (r: Result<Packet<Decrypted>, ()>)
        requires
            self.wf(),
        ensures
            match key.transformed(self.data(), self.header.iv()) {
                Some(plain) => r matches Ok(p) && {
                    &&& p.wf()
                    &&& p.header == self.header
                    &&& p.rssi == self.rssi
                    &&& p.snr == self.snr
                    &&& p.payload@ == fitted(plain, MAX_PAYLOAD as nat)
                    &&& p.payload_len == self.payload_len
                },
                None => r is Err,
            },
    {
        let iv = self.header.create_iv();
        let (used, _) = self.payload.as_slice().split_at(self.payload_len);
        let mut work: [u8; 240] = copy_fitted(used);
        let (front, _) = work.split_at_mut(self.payload_len);
        match key.transform(front, &iv) {
            Ok(()) => {
                Ok(
                    Packet {
                        header: self.header,
                        rssi: self.rssi,
                        snr: self.snr,
                        payload: work,
                        payload_len: self.payload_len,
                        _marker: PhantomData,
                    },
                )
            },
            Err(_) => Err(()),
        }
    }
}

impl Packet<Decrypted> {
    /// Decodes the decrypted payload into an application message.
    ///
    /// An empty payload is refused, and so are bytes that are no valid
    /// message. Of the message's payload at most 240 bytes are kept.
    pub fn decode(self) -> (r: Result<DecodedPacket, ()>)
        requires
            self.wf(),
        ensures
            self.payload_len == 0 ==> r is Err,
            match r {
                Ok(p) => {
                    &&& self.payload_len > 0
                    &&& data_message_decoded(self.data()) matches Some(content)
                    &&& p.header == self.header
                    &&& p.rssi == self.rssi
                    &&& p.snr == self.snr
                    &&& p.data.wf()
                    &&& p.data@ == content.truncated()
                    &&& p.data.payload@ == fitted(content.payload, MAX_PAYLOAD as nat)
                },
                Err(_) => self.payload_len == 0 || data_message_decoded(self.data()) is None,
            },
    {
        if self.payload_len == 0 {
            return Err(());
        }
        let (used, _) = self.payload.as_slice().split_at(self.payload_len);
        let message = match decode_data_message(used) {
            Ok(m) => m,
            Err(_) => { return Err(()); },
        };
        let data = OwnedData::from_protobuf(&message);
        Ok(DecodedPacket { header: self.header, rssi: self.rssi, snr: self.snr, data })
    }
}

impl DecodedPacket {
    /// The message's payload length stays within its buffer.
    pub open spec fn wf(self) -> bool {
        self.data.wf()
    }

    /// The number of the port the message is for.
    pub fn port_num(&self) -> (port: i32)
        ensures
            port == self.data.portnum,
    {
        self.data.portnum
    }

    /// The message's payload: exactly the bytes in use.
    pub fn payload_data(&self) -> (bytes: &[u8])
        requires
            self.wf(),
        ensures
            bytes@ == self.data.payload_bytes(),
    {
        let (used, _) = self.data.payload.as_slice().split_at(self.data.payload_len);
        used
    }

    /// The decoded message. This never fails.
    pub fn data(&self) -> (r: Result<&OwnedData, ()>)
        ensures
            r == Ok::<&OwnedData, ()>(&self.data),
    {
        Ok(&self.data)
    }
}

} // verus!
