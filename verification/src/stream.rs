use crate::error::Error;
use crate::frame::copy_range;
use crate::message::{ControlMessageType, Message, MessageView};
use crate::service::control::CONTROL_CHANNEL;
use vstd::prelude::*;

verus! {

/// The largest number of bytes that one bulk read brings.
pub const BULK_READ_SIZE: usize = 131072;

/// The buffers between the bulk endpoints and the readers of frames and of
/// TLS records. The endpoints themselves are the caller's: it hands in what
/// a bulk read brought and sends what comes out.
#[derive(Debug)]
pub struct UsbAapStream {
    /// Set once, when the TLS handshake is over.
    pub handshake_done: bool,
    /// Bytes that the bulk endpoint brought and no reader took yet.
    pub raw_buffer_in: Vec<u8>,
    /// Bytes for the TLS engine that it did not read yet.
    pub read_buffer: Vec<u8>,
    /// Bytes that the TLS engine wrote and that were not sent yet.
    pub write_buffer: Vec<u8>,
    pub endpoint_in: u8,
    pub endpoint_out: u8,
}

/// What a read of the TLS engine has to wait for.
#[derive(Debug, Clone, Copy, PartialEq, Eq, Structural)]
pub enum Want {
    /// Nothing: bytes wait for the engine, or it asked for none.
    Nothing,
    /// The next handshake message of the peer.
    HandshakeRecord,
    /// The payload of the next encrypted frame.
    Ciphertext,
}

/// The message that carries TLS records during the handshake.
pub open spec fn handshake_message(records: Seq<u8>) -> MessageView {
    MessageView {
        channel: CONTROL_CHANNEL,
        is_control: false,
        msg_type: ControlMessageType::Handshake.spec_to_u16(),
        data: records,
    }
}

/// What one bulk read does to the bytes that wait, and whether another read
/// is wanted to reach `len` bytes. Data is put behind what waits. A timeout
/// brings nothing; the very first one, with nothing waiting, ends the
/// filling: there is no data yet. Any other error is handed on.
pub open spec fn spec_fill(raw: Seq<u8>, len: nat, first: bool, polled: Result<Seq<u8>, Error>) -> (
    Seq<u8>,
    Result<bool, Error>,
) {
    match polled {
        Ok(data) => (raw + data, Ok((raw + data).len() < len)),
        Err(Error::IoTimeout) => (raw, Ok(raw.len() < len && !(first && raw.len() == 0))),
        Err(e) => (raw, Err(e)),
    }
}

/// The result of a bulk read as a mathematical value.
pub open spec fn polled_view(polled: Result<Vec<u8>, Error>) -> Result<Seq<u8>, Error> {
    match polled {
        Ok(data) => Ok(data@),
        Err(e) => Err(e),
    }
}

/// Takes up to `len` bytes off the front of a buffer.
pub fn take_front(buffer: &mut Vec<u8>, len: usize) -> (bytes: Vec<u8>)
    ensures
        bytes@ == old(buffer)@.take(vstd::math::min(len as int, old(buffer)@.len() as int)),
        final(buffer)@ == old(buffer)@.skip(vstd::math::min(len as int, old(buffer)@.len() as int)),
{
    let n: usize = if len < buffer.len() {
        len
    } else {
        buffer.len()
    };
    let bytes = copy_range(buffer.as_slice(), 0, n);
    let rest = copy_range(buffer.as_slice(), n, buffer.len());
    assert(bytes@ =~= buffer@.take(n as int));
    assert(rest@ =~= buffer@.skip(n as int));
    *buffer = rest;
    bytes
}

impl UsbAapStream {
    pub fn new(endpoint_in: u8, endpoint_out: u8) -> (stream: Self)
        ensures
            !stream.handshake_done,
            stream.raw_buffer_in@.len() == 0,
            stream.read_buffer@.len() == 0,
            stream.write_buffer@.len() == 0,
            stream.endpoint_in == endpoint_in,
            stream.endpoint_out == endpoint_out,
    {
        UsbAapStream {
            handshake_done: false,
            raw_buffer_in: Vec::new(),
            read_buffer: Vec::new(),
            write_buffer: Vec::new(),
            endpoint_in,
            endpoint_out,
        }
    }

    /// Whether everything but the bytes that wait from the endpoint is the
    /// same in two streams.
    pub open spec fn same_but_raw(&self, other: &Self) -> bool {
        &&& self.handshake_done == other.handshake_done
        &&& self.read_buffer == other.read_buffer
        &&& self.write_buffer == other.write_buffer
        &&& self.endpoint_in == other.endpoint_in
        &&& self.endpoint_out == other.endpoint_out
    }

    /// Whether a reader that wants `len` bytes has to wait for the endpoint.
    pub fn needs_fill(&self, len: usize) -> (needed: bool)
        ensures
            needed == (self.raw_buffer_in@.len() < len),
    {
        self.raw_buffer_in.len() < len
    }

    /// Takes in what one bulk read brought while a reader waits for `len`
    /// bytes, and says whether another read is wanted. `first` tells that
    /// this was the first read for this reader.
    pub fn fill_in_buffer(&mut self, len: usize, first: bool, polled: Result<Vec<u8>, Error>) -> (more:
        Result<bool, Error>)
        ensures
            final(self).same_but_raw(old(self)),
            final(self).raw_buffer_in@ == spec_fill(
                old(self).raw_buffer_in@,
                len as nat,
                first,
                polled_view(polled),
            ).0,
            more == spec_fill(old(self).raw_buffer_in@, len as nat, first, polled_view(polled)).1,
    {
        match polled {
            Ok(data) => {
                self.raw_buffer_in.extend_from_slice(data.as_slice());
                Ok(self.raw_buffer_in.len() < len)
            },
            Err(Error::IoTimeout) => {
                let canceled = first && self.raw_buffer_in.len() == 0;
                Ok(self.raw_buffer_in.len() < len && !canceled)
            },
            Err(e) => Err(e),
        }
    }

    /// Takes up to `len` bytes that the endpoint brought. No bytes means
    /// that there is no data yet.
    pub fn read_raw(&mut self, len: usize) -> (bytes: Vec<u8>)
        ensures
            final(self).same_but_raw(old(self)),
            bytes@ == old(self).raw_buffer_in@.take(
                vstd::math::min(len as int, old(self).raw_buffer_in@.len() as int),
            ),
            final(self).raw_buffer_in@ == old(self).raw_buffer_in@.skip(
                vstd::math::min(len as int, old(self).raw_buffer_in@.len() as int),
            ),
    {
        take_front(&mut self.raw_buffer_in, len)
    }

    /// Takes one message in the clear off the bytes that the endpoint
    /// brought, if a whole one waits there. Bytes of an incomplete message
    /// stay; so does everything when the bytes do not begin with such a
    /// message.
    pub fn read_unencrypted_message(&mut self) -> (read: Result<Option<Message>, Error>)
        ensures
            final(self).same_but_raw(old(self)),
            match read {
                Ok(Some(message)) => {
                    &&& MessageView::read_single(old(self).raw_buffer_in@).is_ok()
                    &&& MessageView::read_single(old(self).raw_buffer_in@).unwrap().is_some()
                    &&& MessageView::read_single(old(self).raw_buffer_in@).unwrap().unwrap().0
                        == message@
                    &&& final(self).raw_buffer_in@ == old(self).raw_buffer_in@.skip(
                        MessageView::read_single(
                            old(self).raw_buffer_in@,
                        ).unwrap().unwrap().1 as int,
                    )
                },
                Ok(None) => {
                    &&& MessageView::read_single(old(self).raw_buffer_in@) == Ok::<
                        Option<(MessageView, nat)>,
                        Error,
                    >(None)
                    &&& final(self).raw_buffer_in@ == old(self).raw_buffer_in@
                },
                Err(e) => {
                    &&& MessageView::read_single(old(self).raw_buffer_in@) == Err::<
                        Option<(MessageView, nat)>,
                        Error,
                    >(e)
                    &&& final(self).raw_buffer_in@ == old(self).raw_buffer_in@
                },
            },
    {
        match Message::read_unencrypted(self.raw_buffer_in.as_slice()) {
            Ok(Some((message, used))) => {
                proof {
                    crate::frame::lemma_decode_well_formed(self.raw_buffer_in@);
                }
                let taken = take_front(&mut self.raw_buffer_in, used);
                Ok(Some(message))
            },
            Ok(None) => Ok(None),
            Err(e) => Err(e),
        }
    }

    /// What taking a handshake record off the raw bytes gives: whether one
    /// was there. A whole message in the clear that is no handshake message
    /// on the control channel is a violation of the protocol.
    pub open spec fn spec_handshake_record(raw: Seq<u8>) -> Result<Option<(Seq<u8>, nat)>, Error> {
        match MessageView::read_single(raw) {
            Err(e) => Err(e),
            Ok(None) => Ok(None),
            Ok(Some((message, used))) => {
                if message.channel == CONTROL_CHANNEL && message.msg_type
                    == ControlMessageType::Handshake.spec_to_u16() {
                    Ok(Some((message.data, used)))
                } else {
                    Err(Error::ProtocolViolation)
                }
            },
        }
    }

    /// Takes one handshake message off the bytes that the endpoint brought
    /// and puts its data behind the bytes that wait for the TLS engine. Says
    /// whether a whole message was there. On an error, and while the message
    /// is incomplete, nothing changes.
    pub fn read_handshake_record(&mut self) -> (taken: Result<bool, Error>)
        ensures
            final(self).handshake_done == old(self).handshake_done,
            final(self).write_buffer == old(self).write_buffer,
            final(self).endpoint_in == old(self).endpoint_in,
            final(self).endpoint_out == old(self).endpoint_out,
            match Self::spec_handshake_record(old(self).raw_buffer_in@) {
                Ok(Some((data, used))) => {
                    &&& taken == Ok::<bool, Error>(true)
                    &&& final(self).read_buffer@ == old(self).read_buffer@ + data
                    &&& final(self).raw_buffer_in@ == old(self).raw_buffer_in@.skip(used as int)
                },
                Ok(None) => {
                    &&& taken == Ok::<bool, Error>(false)
                    &&& final(self).read_buffer@ == old(self).read_buffer@
                    &&& final(self).raw_buffer_in@ == old(self).raw_buffer_in@
                },
                Err(e) => {
                    &&& taken == Err::<bool, Error>(e)
                    &&& final(self).read_buffer@ == old(self).read_buffer@
                    &&& final(self).raw_buffer_in@ == old(self).raw_buffer_in@
                },
            },
    {
        match Message::read_unencrypted(self.raw_buffer_in.as_slice()) {
            Ok(Some((message, used))) => {
                if message.channel == CONTROL_CHANNEL && message.msg_type
                    == ControlMessageType::Handshake.to_u16() {
                    proof {
                        crate::frame::lemma_decode_well_formed(self.raw_buffer_in@);
                    }
                    let taken = take_front(&mut self.raw_buffer_in, used);
                    self.read_buffer.extend_from_slice(message.data.as_slice());
                    Ok(true)
                } else {
                    Err(Error::ProtocolViolation)
                }
            },
            Ok(None) => Ok(false),
            Err(e) => Err(e),
        }
    }

    /// Puts bytes for the TLS engine behind those that wait for it: the data
    /// of a handshake message, or what the endpoint brought once the
    /// handshake is over.
    pub fn feed(&mut self, data: &[u8])
        ensures
            final(self).read_buffer@ == old(self).read_buffer@ + data@,
            final(self).handshake_done == old(self).handshake_done,
            final(self).raw_buffer_in == old(self).raw_buffer_in,
            final(self).write_buffer == old(self).write_buffer,
            final(self).endpoint_in == old(self).endpoint_in,
            final(self).endpoint_out == old(self).endpoint_out,
    {
        self.read_buffer.extend_from_slice(data);
    }

    /// What a read of `len` bytes by the TLS engine has to wait for. While
    /// bytes wait for the engine it gets those. Else it waits for a handshake
    /// message during the handshake, and afterwards for the payload of an
    /// encrypted frame.
    pub open spec fn spec_wants(&self, len: usize) -> Want {
        if len == 0 || self.read_buffer@.len() > 0 {
            Want::Nothing
        } else if self.handshake_done {
            Want::Ciphertext
        } else {
            Want::HandshakeRecord
        }
    }

    #[verifier::when_used_as_spec(spec_wants)]
    pub fn wants(&self, len: usize) -> (want: Want)
        ensures
            want == self.spec_wants(len),
    {
        if len == 0 || self.read_buffer.len() > 0 {
            Want::Nothing
        } else if self.handshake_done {
            Want::Ciphertext
        } else {
            Want::HandshakeRecord
        }
    }

    /// Gives the TLS engine up to `len` of the bytes that wait for it.
    pub fn read(&mut self, len: usize) -> (bytes: Vec<u8>)
        ensures
            bytes@ == old(self).read_buffer@.take(
                vstd::math::min(len as int, old(self).read_buffer@.len() as int),
            ),
            final(self).read_buffer@ == old(self).read_buffer@.skip(
                vstd::math::min(len as int, old(self).read_buffer@.len() as int),
            ),
            final(self).handshake_done == old(self).handshake_done,
            final(self).raw_buffer_in == old(self).raw_buffer_in,
            final(self).write_buffer == old(self).write_buffer,
            final(self).endpoint_in == old(self).endpoint_in,
            final(self).endpoint_out == old(self).endpoint_out,
    {
        take_front(&mut self.read_buffer, len)
    }

    /// Whether everything but the bytes that the TLS engine wrote is the
    /// same in two streams.
    pub open spec fn same_but_written(&self, other: &Self) -> bool {
        &&& self.handshake_done == other.handshake_done
        &&& self.raw_buffer_in == other.raw_buffer_in
        &&& self.read_buffer == other.read_buffer
        &&& self.endpoint_in == other.endpoint_in
        &&& self.endpoint_out == other.endpoint_out
    }

    /// Takes in bytes that the TLS engine wrote. All of them are taken.
    pub fn write(&mut self, data: &[u8]) -> (taken: usize)
        ensures
            final(self).same_but_written(old(self)),
            final(self).write_buffer@ == old(self).write_buffer@ + data@,
            taken == data@.len(),
    {
        self.write_buffer.extend_from_slice(data);
        data.len()
    }

    /// Takes out all that the TLS engine wrote since the last time.
    pub fn extract_write_buffer(&mut self) -> (bytes: Vec<u8>)
        ensures
            final(self).same_but_written(old(self)),
            bytes@ == old(self).write_buffer@,
            final(self).write_buffer@ == Seq::<u8>::empty(),
    {
        let mut bytes: Vec<u8> = Vec::new();
        bytes.append(&mut self.write_buffer);
        assert(bytes@ =~= old(self).write_buffer@);
        bytes
    }

    /// What flushing gives. During the handshake, all that the TLS engine
    /// wrote leaves as the data of one handshake message in the clear on the
    /// control channel; more than one frame holds is a framing error. After
    /// the handshake nothing leaves this way.
    pub open spec fn spec_flush(handshake_done: bool, written: Seq<u8>) -> Result<
        Option<Seq<u8>>,
        Error,
    > {
        if handshake_done {
            Ok(None)
        } else if written.len() + 2 > 0xFFFF {
            Err(Error::FramingError)
        } else {
            Ok(Some(handshake_message(written).single_frame()))
        }
    }

    /// Flushes what the TLS engine wrote: gives the bytes for the transport,
    /// if there are any to send now. What was sent leaves the buffer; what
    /// was not stays.
    pub fn flush(&mut self) -> (sent: Result<Option<Vec<u8>>, Error>)
        ensures
            final(self).same_but_written(old(self)),
            match sent {
                Ok(Some(bytes)) => {
                    &&& Self::spec_flush(old(self).handshake_done, old(self).write_buffer@) == Ok::<
                        Option<Seq<u8>>,
                        Error,
                    >(Some(bytes@))
                    &&& final(self).write_buffer@ == Seq::<u8>::empty()
                },
                Ok(None) => {
                    &&& old(self).handshake_done
                    &&& final(self).write_buffer == old(self).write_buffer
                },
                Err(e) => {
                    &&& Self::spec_flush(old(self).handshake_done, old(self).write_buffer@) == Err::<
                        Option<Seq<u8>>,
                        Error,
                    >(e)
                    &&& final(self).write_buffer == old(self).write_buffer
                },
            },
    {
        if self.handshake_done {
            return Ok(None);
        }
        if self.write_buffer.len() > 0xFFFF - 2 {
            return Err(Error::FramingError);
        }
        let data = self.extract_write_buffer();
        let message = Message::new(
            CONTROL_CHANNEL,
            false,
            ControlMessageType::Handshake.to_u16(),
            data,
        );
        Ok(Some(message.write_unencrypted()))
    }

    /// Marks the end of the TLS handshake. The mark stays.
    pub fn finish_handshake(&mut self)
        ensures
            final(self).handshake_done,
            final(self).raw_buffer_in == old(self).raw_buffer_in,
            final(self).read_buffer == old(self).read_buffer,
            final(self).write_buffer == old(self).write_buffer,
            final(self).endpoint_in == old(self).endpoint_in,
            final(self).endpoint_out == old(self).endpoint_out,
    {
        self.handshake_done = true;
    }
}

/// Handshake tunnelling in the buffers. Whatever the TLS engine writes in
/// one or in several pieces before a flush during the handshake is the
/// payload, behind the tag, of the one handshake frame that the flush
/// gives, and that frame is read back as a handshake message on the control
/// channel with exactly these bytes.
pub proof fn lemma_flush_tunnels(first: Seq<u8>, second: Seq<u8>)
    requires
        first.len() + second.len() + 2 <= 0xFFFF,
    ensures
        UsbAapStream::spec_flush(false, first + second) == Ok::<Option<Seq<u8>>, Error>(
            Some(handshake_message(first + second).single_frame()),
        ),
        MessageView::read_single(handshake_message(first + second).single_frame()) == Ok::<
            Option<(MessageView, nat)>,
            Error,
        >(
            Some(
                (
                    handshake_message(first + second),
                    handshake_message(first + second).single_frame().len(),
                ),
            ),
        ),
{
    let message = handshake_message(first + second);
    crate::message::lemma_single_frame_round_trip(message, Seq::<u8>::empty());
    assert(message.single_frame() + Seq::<u8>::empty() =~= message.single_frame());
}

} // verus!
