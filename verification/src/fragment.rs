use crate::error::Error;
use crate::frame::{copy_range, Frame, FrameHeader, FrameType, FrameView};
use crate::message::{lemma_wire_payload_round_trip, Message, MessageView};
use vstd::prelude::*;

verus! {

/// The largest payload that one frame carries unless the caller says otherwise.
pub const DEFAULT_CHUNK_LIMIT: usize = 16384;

/// The frame of the given kind around `payload`.
pub open spec fn frame_of(
    channel: u8,
    is_control: bool,
    encrypted: bool,
    kind: FrameType,
    payload: Seq<u8>,
    total: nat,
) -> FrameView {
    FrameView {
        header: FrameHeader {
            channel,
            length: payload.len() as u16,
            frame_type: kind,
            is_control_message: is_control,
            encrypted,
        },
        total_length: if kind == FrameType::First {
            Some(total as u32)
        } else {
            None
        },
        payload,
    }
}

/// The frames after the first one: middle frames of `limit` bytes each while
/// more than `limit` bytes are left, then one last frame with what remains.
pub open spec fn continuation(
    channel: u8,
    is_control: bool,
    encrypted: bool,
    rest: Seq<u8>,
    limit: nat,
) -> Seq<FrameView>
    decreases rest.len(),
{
    if limit == 0 || rest.len() <= limit {
        seq![frame_of(channel, is_control, encrypted, FrameType::Last, rest, 0)]
    } else {
        seq![
            frame_of(channel, is_control, encrypted, FrameType::Middle, rest.take(limit as int), 0),
        ] + continuation(channel, is_control, encrypted, rest.skip(limit as int), limit)
    }
}

/// The frames that carry `payload`: a single frame if it fits into `limit`
/// bytes, else a first frame that announces the whole length, followed by
/// middle frames and a last frame.
pub open spec fn spec_fragment(
    channel: u8,
    is_control: bool,
    encrypted: bool,
    payload: Seq<u8>,
    limit: nat,
) -> Seq<FrameView> {
    if payload.len() <= limit {
        seq![frame_of(channel, is_control, encrypted, FrameType::Single, payload, 0)]
    } else {
        seq![
            frame_of(
                channel,
                is_control,
                encrypted,
                FrameType::First,
                payload.take(limit as int),
                payload.len(),
            ),
        ] + continuation(channel, is_control, encrypted, payload.skip(limit as int), limit)
    }
}

/// The payloads of the frames, one after the other.
pub open spec fn payloads(frames: Seq<FrameView>) -> Seq<u8>
    decreases frames.len(),
{
    if frames.len() == 0 {
        Seq::<u8>::empty()
    } else {
        frames[0].payload + payloads(frames.skip(1))
    }
}

/// The frames on the wire, one after the other.
pub open spec fn encode_all(frames: Seq<FrameView>) -> Seq<u8>
    decreases frames.len(),
{
    if frames.len() == 0 {
        Seq::<u8>::empty()
    } else {
        frames[0].encode() + encode_all(frames.skip(1))
    }
}

/// The frames of a vector as mathematical values.
pub open spec fn frame_views(frames: Seq<Frame>) -> Seq<FrameView> {
    frames.map_values(|frame: Frame| frame@)
}

/// Frames that belong to one message of a channel: a first frame, any number
/// of middle frames, a last frame.
pub open spec fn is_run(frames: Seq<FrameView>) -> bool {
    &&& frames.len() >= 2
    &&& frames[0].header.frame_type == FrameType::First
    &&& is_run_tail(frames.skip(1))
}

/// Any number of middle frames and then a last frame.
pub open spec fn is_run_tail(frames: Seq<FrameView>) -> bool {
    &&& frames.len() >= 1
    &&& frames.last().header.frame_type == FrameType::Last
    &&& forall|i: int|
        0 <= i < frames.len() - 1 ==> (#[trigger] frames[i]).header.frame_type == FrameType::Middle
}

/// Whether every frame is well formed, belongs to the channel, carries the
/// two marks, and holds at most `limit` bytes.
pub open spec fn all_within(
    frames: Seq<FrameView>,
    channel: u8,
    is_control: bool,
    encrypted: bool,
    limit: nat,
) -> bool {
    forall|i: int|
        0 <= i < frames.len() ==> {
            &&& (#[trigger] frames[i]).well_formed()
            &&& frames[i].payload.len() <= limit
            &&& frames[i].header.channel == channel
            &&& frames[i].header.is_control_message == is_control
            &&& frames[i].header.encrypted == encrypted
        }
}

/// Writing two runs of frames one after the other is writing their
/// concatenation.
pub proof fn lemma_encode_all_concat(first: Seq<FrameView>, second: Seq<FrameView>)
    ensures
        encode_all(first + second) == encode_all(first) + encode_all(second),
    decreases first.len(),
{
    if first.len() == 0 {
        assert(first + second =~= second);
        assert(encode_all(first) + encode_all(second) =~= encode_all(second));
    } else {
        let both = first + second;
        assert(both.skip(1) =~= first.skip(1) + second);
        lemma_encode_all_concat(first.skip(1), second);
        assert(encode_all(both) =~= encode_all(first) + encode_all(second));
    }
}

/// The frames after a first frame are middle frames and one last frame, all
/// well formed and within the limit, and together they hold `rest`.
pub proof fn lemma_continuation(
    channel: u8,
    is_control: bool,
    encrypted: bool,
    rest: Seq<u8>,
    limit: nat,
)
    requires
        1 <= limit <= 0xFFFF,
    ensures
        is_run_tail(continuation(channel, is_control, encrypted, rest, limit)),
        all_within(
            continuation(channel, is_control, encrypted, rest, limit),
            channel,
            is_control,
            encrypted,
            limit,
        ),
        payloads(continuation(channel, is_control, encrypted, rest, limit)) == rest,
    decreases rest.len(),
{
    let frames = continuation(channel, is_control, encrypted, rest, limit);
    if rest.len() <= limit {
        reveal_with_fuel(payloads, 2);
        assert(frames.skip(1) =~= Seq::<FrameView>::empty());
        assert(payloads(frames) =~= rest);
    } else {
        let tail = continuation(channel, is_control, encrypted, rest.skip(limit as int), limit);
        lemma_continuation(channel, is_control, encrypted, rest.skip(limit as int), limit);
        assert(frames.skip(1) =~= tail);
        assert(payloads(frames) =~= rest.take(limit as int) + rest.skip(limit as int));
        assert(rest.take(limit as int) + rest.skip(limit as int) =~= rest);
        assert forall|i: int| 0 <= i < frames.len() - 1 implies (#[trigger] frames[i]).header.frame_type
            == FrameType::Middle by {
            if i > 0 {
                assert(frames[i] == tail[i - 1]);
            }
        }
        assert(frames.last() == tail.last());
        assert forall|i: int| 0 <= i < frames.len() implies {
            &&& (#[trigger] frames[i]).well_formed()
            &&& frames[i].payload.len() <= limit
            &&& frames[i].header.channel == channel
            &&& frames[i].header.is_control_message == is_control
            &&& frames[i].header.encrypted == encrypted
        } by {
            if i > 0 {
                assert(frames[i] == tail[i - 1]);
            }
        }
    }
}

/// What fragmenting gives: one single frame, or a run of first, middle and
/// last frames; every frame well formed and within the limit; the payloads
/// together are the payload that was given; a first frame announces its
/// length.
pub proof fn lemma_fragment(
    channel: u8,
    is_control: bool,
    encrypted: bool,
    payload: Seq<u8>,
    limit: nat,
)
    requires
        1 <= limit <= 0xFFFF,
        payload.len() <= u32::MAX,
    ensures
        ({
            let frames = spec_fragment(channel, is_control, encrypted, payload, limit);
            &&& all_within(frames, channel, is_control, encrypted, limit)
            &&& payloads(frames) == payload
            &&& if payload.len() <= limit {
                frames.len() == 1 && frames[0].header.frame_type == FrameType::Single
            } else {
                is_run(frames) && frames[0].total_length == Some(payload.len() as u32)
            }
        }),
{
    let frames = spec_fragment(channel, is_control, encrypted, payload, limit);
    if payload.len() <= limit {
        reveal_with_fuel(payloads, 2);
        assert(frames.skip(1) =~= Seq::<FrameView>::empty());
        assert(payloads(frames) =~= payload);
    } else {
        let tail = continuation(channel, is_control, encrypted, payload.skip(limit as int), limit);
        lemma_continuation(channel, is_control, encrypted, payload.skip(limit as int), limit);
        assert(frames.skip(1) =~= tail);
        assert(payloads(frames) =~= payload.take(limit as int) + payload.skip(limit as int));
        assert(payload.take(limit as int) + payload.skip(limit as int) =~= payload);
        assert forall|i: int| 0 <= i < frames.len() implies {
            &&& (#[trigger] frames[i]).well_formed()
            &&& frames[i].payload.len() <= limit
            &&& frames[i].header.channel == channel
            &&& frames[i].header.is_control_message == is_control
            &&& frames[i].header.encrypted == encrypted
        } by {
            if i > 0 {
                assert(frames[i] == tail[i - 1]);
            }
        }
    }
}

/// Splits a payload into the frames that carry it.
pub fn fragment(channel: u8, is_control: bool, encrypted: bool, payload: &[u8], limit: usize) -> (frames:
    Vec<Frame>)
    requires
        1 <= limit <= 0xFFFF,
        payload@.len() <= u32::MAX,
    ensures
        frame_views(frames@) == spec_fragment(
            channel,
            is_control,
            encrypted,
            payload@,
            limit as nat,
        ),
{
    let n: usize = payload.len();
    let mut frames: Vec<Frame> = Vec::new();
    if n <= limit {
        let chunk = copy_range(payload, 0, n);
        assert(chunk@ =~= payload@);
        frames.push(
            Frame {
                header: FrameHeader {
                    channel,
                    length: n as u16,
                    frame_type: FrameType::Single,
                    is_control_message: is_control,
                    encrypted,
                },
                total_length: None,
                payload: chunk,
            },
        );
        assert(frame_views(frames@) =~= spec_fragment(
            channel,
            is_control,
            encrypted,
            payload@,
            limit as nat,
        ));
        return frames;
    }
    let head = copy_range(payload, 0, limit);
    assert(head@ =~= payload@.take(limit as int));
    frames.push(
        Frame {
            header: FrameHeader {
                channel,
                length: limit as u16,
                frame_type: FrameType::First,
                is_control_message: is_control,
                encrypted,
            },
            total_length: Some(n as u32),
            payload: head,
        },
    );
    let mut pos: usize = limit;
    assert(frame_views(frames@) + continuation(
        channel,
        is_control,
        encrypted,
        payload@.skip(pos as int),
        limit as nat,
    ) =~= spec_fragment(channel, is_control, encrypted, payload@, limit as nat));
    while n - pos > limit
        invariant
            1 <= limit <= 0xFFFF,
            limit <= pos <= n,
            n == payload@.len(),
            frame_views(frames@) + continuation(
                channel,
                is_control,
                encrypted,
                payload@.skip(pos as int),
                limit as nat,
            ) == spec_fragment(channel, is_control, encrypted, payload@, limit as nat),
        decreases n - pos,
    {
        let chunk = copy_range(payload, pos, pos + limit);
        let ghost before = frame_views(frames@);
        let ghost rest = payload@.skip(pos as int);
        assert(chunk@ =~= rest.take(limit as int));
        assert(rest.skip(limit as int) =~= payload@.skip(pos + limit));
        frames.push(
            Frame {
                header: FrameHeader {
                    channel,
                    length: limit as u16,
                    frame_type: FrameType::Middle,
                    is_control_message: is_control,
                    encrypted,
                },
                total_length: None,
                payload: chunk,
            },
        );
        pos += limit;
        assert(frame_views(frames@) + continuation(
            channel,
            is_control,
            encrypted,
            payload@.skip(pos as int),
            limit as nat,
        ) =~= before + continuation(channel, is_control, encrypted, rest, limit as nat));
    }
    let chunk = copy_range(payload, pos, n);
    let ghost before = frame_views(frames@);
    assert(chunk@ =~= payload@.skip(pos as int));
    frames.push(
        Frame {
            header: FrameHeader {
                channel,
                length: (n - pos) as u16,
                frame_type: FrameType::Last,
                is_control_message: is_control,
                encrypted,
            },
            total_length: None,
            payload: chunk,
        },
    );
    assert(frame_views(frames@) =~= before + continuation(
        channel,
        is_control,
        encrypted,
        payload@.skip(pos as int),
        limit as nat,
    ));
    frames
}

/// The bytes of the frames, one after the other, for the transport.
pub fn encode_frames(frames: &Vec<Frame>) -> (bytes: Vec<u8>)
    requires
        forall|i: int| 0 <= i < frames@.len() ==> (#[trigger] frames@[i])@.well_formed(),
    ensures
        bytes@ == encode_all(frame_views(frames@)),
{
    let mut bytes: Vec<u8> = Vec::new();
    let mut i: usize = 0;
    assert(frame_views(frames@).take(0) =~= Seq::<FrameView>::empty());
    while i < frames.len()
        invariant
            i <= frames@.len(),
            forall|k: int| 0 <= k < frames@.len() ==> (#[trigger] frames@[k])@.well_formed(),
            bytes@ == encode_all(frame_views(frames@).take(i as int)),
        decreases frames@.len() - i,
    {
        let one = frames[i].encode();
        proof {
            let all = frame_views(frames@);
            let done = all.take(i as int);
            lemma_encode_all_concat(done, seq![all[i as int]]);
            assert(all.take(i + 1) =~= done + seq![all[i as int]]);
            reveal_with_fuel(encode_all, 2);
            assert(seq![all[i as int]].skip(1) =~= Seq::<FrameView>::empty());
            assert(encode_all(seq![all[i as int]]) =~= all[i as int].encode());
        }
        bytes.extend_from_slice(one.as_slice());
        i += 1;
    }
    assert(frame_views(frames@).take(i as int) =~= frame_views(frames@));
    bytes
}

/// A message under way: what a first frame began and middle frames extended.
pub struct Partial {
    pub channel: u8,
    pub is_control: bool,
    /// The length that the first frame announced. It is kept as it came and
    /// not held against what arrives.
    pub expected: Option<u32>,
    pub buffer: Seq<u8>,
}

/// Puts the frames of one channel together into messages.
#[derive(Debug, PartialEq, Eq)]
pub struct Reassembler {
    pub active: bool,
    pub channel: u8,
    pub is_control: bool,
    pub expected: Option<u32>,
    pub buffer: Vec<u8>,
}

impl View for Reassembler {
    type V = Option<Partial>;

    open spec fn view(&self) -> Option<Partial> {
        if self.active {
            Some(
                Partial {
                    channel: self.channel,
                    is_control: self.is_control,
                    expected: self.expected,
                    buffer: self.buffer@,
                },
            )
        } else {
            None
        }
    }
}

/// What one frame does to a message under way. `chunk` is the frame's
/// payload in the clear.
///
/// A single frame gives its message at once. A first frame begins a
/// message, middle frames extend it, a last frame completes it; tag and data
/// are read from all the chunks together. A frame out of place (a single or
/// first frame while a message is under way, a middle or last frame while
/// none is) is a framing error and leaves the state as it was; so is a
/// complete payload too short to hold a tag.
pub open spec fn spec_step(
    state: Option<Partial>,
    header: FrameHeader,
    total_length: Option<u32>,
    chunk: Seq<u8>,
) -> (Option<Partial>, Result<Option<MessageView>, Error>) {
    match header.frame_type {
        FrameType::Single => {
            if state.is_some() || chunk.len() < 2 {
                (state, Err(Error::FramingError))
            } else {
                (
                    state,
                    Ok(
                        Some(
                            MessageView::from_wire_payload(
                                header.channel,
                                header.is_control_message,
                                chunk,
                            ),
                        ),
                    ),
                )
            }
        },
        FrameType::First => {
            if state.is_some() {
                (state, Err(Error::FramingError))
            } else {
                (
                    Some(
                        Partial {
                            channel: header.channel,
                            is_control: header.is_control_message,
                            expected: total_length,
                            buffer: chunk,
                        },
                    ),
                    Ok(None),
                )
            }
        },
        FrameType::Middle => {
            match state {
                None => (state, Err(Error::FramingError)),
                Some(partial) => (
                    Some(Partial { buffer: partial.buffer + chunk, ..partial }),
                    Ok(None),
                ),
            }
        },
        FrameType::Last => {
            match state {
                None => (state, Err(Error::FramingError)),
                Some(partial) => {
                    let all = partial.buffer + chunk;
                    if all.len() < 2 {
                        (None, Err(Error::FramingError))
                    } else {
                        (
                            None,
                            Ok(
                                Some(
                                    MessageView::from_wire_payload(
                                        partial.channel,
                                        partial.is_control,
                                        all,
                                    ),
                                ),
                            ),
                        )
                    }
                },
            }
        },
    }
}

/// What a run of frames received in the clear does: the state after the last
/// of them, and what each of them gave.
pub open spec fn feed(state: Option<Partial>, frames: Seq<FrameView>) -> (
    Option<Partial>,
    Seq<Result<Option<MessageView>, Error>>,
)
    decreases frames.len(),
{
    if frames.len() == 0 {
        (state, Seq::empty())
    } else {
        let step = spec_step(state, frames[0].header, frames[0].total_length, frames[0].payload);
        let later = feed(step.0, frames.skip(1));
        (later.0, seq![step.1] + later.1)
    }
}

/// The result of a read as a mathematical value.
pub open spec fn read_view(read: Result<Option<Message>, Error>) -> Result<
    Option<MessageView>,
    Error,
> {
    match read {
        Ok(Some(message)) => Ok(Some(message@)),
        Ok(None) => Ok(None),
        Err(e) => Err(e),
    }
}

impl Reassembler {
    /// A reassembler with no message under way.
    pub fn new() -> (state: Self)
        ensures
            state@.is_none(),
    {
        Reassembler {
            active: false,
            channel: 0,
            is_control: false,
            expected: None,
            buffer: Vec::new(),
        }
    }

    /// Whether a message is under way.
    pub fn is_active(&self) -> (active: bool)
        ensures
            active == self@.is_some(),
    {
        self.active
    }
}

impl Message {
    /// Takes in one frame of a channel: its header, the total that a first
    /// frame announced, and its payload in the clear. Gives the message that
    /// this frame completes, or nothing while more frames are needed.
    pub fn try_read(
        state: &mut Reassembler,
        header: &FrameHeader,
        total_length: Option<u32>,
        chunk: &[u8],
    ) -> (read: Result<Option<Message>, Error>)
        ensures
            final(state)@ == spec_step(old(state)@, *header, total_length, chunk@).0,
            read_view(read) == spec_step(old(state)@, *header, total_length, chunk@).1,
    {
        let ghost before = state@;
        let ghost expected = spec_step(before, *header, total_length, chunk@);
        match header.frame_type {
            FrameType::Single => {
                if state.active {
                    return Err(Error::FramingError);
                }
                match Message::from_wire_payload(header.channel, header.is_control_message, chunk) {
                    Ok(message) => {
                        assert(expected.1 == Ok::<Option<MessageView>, Error>(Some(message@)));
                        Ok(Some(message))
                    },
                    Err(e) => Err(e),
                }
            },
            FrameType::First => {
                if state.active {
                    return Err(Error::FramingError);
                }
                let buffer = copy_range(chunk, 0, chunk.len());
                assert(buffer@ =~= chunk@);
                state.active = true;
                state.channel = header.channel;
                state.is_control = header.is_control_message;
                state.expected = total_length;
                state.buffer = buffer;
                assert(state@ == expected.0);
                Ok(None)
            },
            FrameType::Middle => {
                if !state.active {
                    return Err(Error::FramingError);
                }
                state.buffer.extend_from_slice(chunk);
                assert(state.buffer@ == before.unwrap().buffer + chunk@);
                assert(state@.unwrap() == expected.0.unwrap());
                Ok(None)
            },
            FrameType::Last => {
                if !state.active {
                    return Err(Error::FramingError);
                }
                state.buffer.extend_from_slice(chunk);
                assert(state.buffer@ == before.unwrap().buffer + chunk@);
                state.active = false;
                let read = Message::from_wire_payload(
                    state.channel,
                    state.is_control,
                    state.buffer.as_slice(),
                );
                state.buffer = Vec::new();
                assert(state@ == expected.0);
                match read {
                    Ok(message) => {
                        assert(expected.1 == Ok::<Option<MessageView>, Error>(Some(message@)));
                        Ok(Some(message))
                    },
                    Err(e) => Err(e),
                }
            },
        }
    }

    /// The bytes that carry this message over the transport, in one frame or
    /// in several. For an encrypted message `sealed` is what the TLS engine
    /// made of `wire_payload()`; for a message in the clear it is not read.
    pub fn write(&self, encrypted: bool, sealed: &[u8], limit: usize) -> (bytes: Vec<u8>)
        requires
            1 <= limit <= 0xFFFF,
            encrypted ==> sealed@.len() <= u32::MAX,
            !encrypted ==> self.data@.len() + 2 <= u32::MAX,
        ensures
            bytes@ == self@.spec_write(encrypted, sealed@, limit as nat),
    {
        let frames = if encrypted {
            fragment(self.channel, self.is_control, true, sealed, limit)
        } else {
            let payload = self.wire_payload();
            fragment(self.channel, self.is_control, false, payload.as_slice(), limit)
        };
        proof {
            let carried = if encrypted {
                sealed@
            } else {
                self@.wire_payload()
            };
            lemma_fragment(self.channel, self.is_control, encrypted, carried, limit as nat);
            assert forall|i: int| 0 <= i < frames@.len() implies (#[trigger] frames@[i])@.well_formed() by {
                assert(frame_views(frames@)[i] == frames@[i]@);
            }
        }
        encode_frames(&frames)
    }
}

impl MessageView {
    /// What this message puts into frames: the ciphertext if it is sent
    /// encrypted, else its tag and data.
    pub open spec fn carried(self, encrypted: bool, sealed: Seq<u8>) -> Seq<u8> {
        if encrypted {
            sealed
        } else {
            self.wire_payload()
        }
    }

    /// The bytes that carry this message over the transport.
    pub open spec fn spec_write(self, encrypted: bool, sealed: Seq<u8>, limit: nat) -> Seq<u8> {
        encode_all(
            spec_fragment(
                self.channel,
                self.is_control,
                encrypted,
                self.carried(encrypted, sealed),
                limit,
            ),
        )
    }
}

/// Middle frames and a last frame complete the message under way: the
/// state is idle afterwards, every frame but the last gives nothing, and the
/// last gives the message read from all chunks together.
pub proof fn lemma_feed_tail(partial: Partial, frames: Seq<FrameView>)
    requires
        is_run_tail(frames),
        partial.buffer.len() + payloads(frames).len() >= 2,
    ensures
        feed(Some(partial), frames).0.is_none(),
        feed(Some(partial), frames).1.len() == frames.len(),
        forall|i: int|
            0 <= i < frames.len() - 1 ==> #[trigger] feed(Some(partial), frames).1[i] == Ok::<
                Option<MessageView>,
                Error,
            >(None),
        feed(Some(partial), frames).1.last() == Ok::<Option<MessageView>, Error>(
            Some(
                MessageView::from_wire_payload(
                    partial.channel,
                    partial.is_control,
                    partial.buffer + payloads(frames),
                ),
            ),
        ),
    decreases frames.len(),
{
    let tail = frames.skip(1);
    let step = spec_step(Some(partial), frames[0].header, frames[0].total_length, frames[0].payload);
    let later = feed(step.0, tail);
    if frames.len() == 1 {
        reveal_with_fuel(payloads, 2);
        assert(tail =~= Seq::<FrameView>::empty());
        assert(payloads(frames) =~= frames[0].payload);
        assert(later.1 =~= Seq::empty());
    } else {
        let next = Partial { buffer: partial.buffer + frames[0].payload, ..partial };
        assert(frames[0].header.frame_type == FrameType::Middle);
        assert(step.0 == Some(next));
        assert(tail.last() == frames.last());
        assert forall|i: int| 0 <= i < tail.len() - 1 implies (#[trigger] tail[i]).header.frame_type
            == FrameType::Middle by {
            assert(tail[i] == frames[i + 1]);
        }
        assert(next.buffer + payloads(tail) =~= partial.buffer + payloads(frames));
        lemma_feed_tail(next, tail);
        let results = feed(Some(partial), frames).1;
        assert forall|i: int| 0 <= i < frames.len() - 1 implies #[trigger] results[i] == Ok::<
            Option<MessageView>,
            Error,
        >(None) by {
            if i > 0 {
                assert(results[i] == later.1[i - 1]);
            }
        }
        assert(results.last() == later.1.last());
    }
}

/// Reassembly: a first frame, any middle frames and a last frame, received
/// with no message under way, give exactly one message, on the last frame.
/// Its tag and data are those of the chunks put together, whatever the sizes
/// of the chunks.
pub proof fn lemma_reassembly(frames: Seq<FrameView>)
    requires
        is_run(frames),
        payloads(frames).len() >= 2,
    ensures
        feed(None, frames).0.is_none(),
        feed(None, frames).1.len() == frames.len(),
        forall|i: int|
            0 <= i < frames.len() - 1 ==> #[trigger] feed(None, frames).1[i] == Ok::<
                Option<MessageView>,
                Error,
            >(None),
        feed(None, frames).1.last() == Ok::<Option<MessageView>, Error>(
            Some(
                MessageView::from_wire_payload(
                    frames[0].header.channel,
                    frames[0].header.is_control_message,
                    payloads(frames),
                ),
            ),
        ),
{
    let tail = frames.skip(1);
    let begun = Partial {
        channel: frames[0].header.channel,
        is_control: frames[0].header.is_control_message,
        expected: frames[0].total_length,
        buffer: frames[0].payload,
    };
    lemma_feed_tail(begun, tail);
    let later = feed(Some(begun), tail);
    let results = feed(None, frames).1;
    assert forall|i: int| 0 <= i < frames.len() - 1 implies #[trigger] results[i] == Ok::<
        Option<MessageView>,
        Error,
    >(None) by {
        if i > 0 {
            assert(results[i] == later.1[i - 1]);
        }
    }
    assert(results.last() == later.1.last());
}

/// A message split into frames with any limit and put together again is the
/// same message: the last frame gives it, the frames before give nothing, and
/// no message is under way afterwards.
pub proof fn lemma_fragment_reassembles(message: MessageView, limit: nat)
    requires
        1 <= limit <= 0xFFFF,
        message.data.len() + 2 <= u32::MAX,
    ensures
        ({
            let frames = spec_fragment(
                message.channel,
                message.is_control,
                false,
                message.wire_payload(),
                limit,
            );
            &&& feed(None, frames).0.is_none()
            &&& feed(None, frames).1.len() == frames.len()
            &&& forall|i: int|
                0 <= i < frames.len() - 1 ==> #[trigger] feed(None, frames).1[i] == Ok::<
                    Option<MessageView>,
                    Error,
                >(None)
            &&& feed(None, frames).1.last() == Ok::<Option<MessageView>, Error>(Some(message))
        }),
{
    let payload = message.wire_payload();
    let frames = spec_fragment(message.channel, message.is_control, false, payload, limit);
    lemma_wire_payload_round_trip(message);
    lemma_fragment(message.channel, message.is_control, false, payload, limit);
    if payload.len() <= limit {
        assert(frames.skip(1) =~= Seq::<FrameView>::empty());
        assert(feed(None, frames.skip(1)).1 =~= Seq::empty());
    } else {
        lemma_reassembly(frames);
    }
}

} // verus!
