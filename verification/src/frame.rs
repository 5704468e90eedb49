use vstd::prelude::*;

verus! {

/// Position of a frame within a message.
#[derive(Debug, Clone, Copy, PartialEq, Eq, Structural)]
pub enum FrameType {
    Middle,
    First,
    Last,
    Single,
}

impl FrameType {
    /// The frame kind that a two-bit number names, and nothing for larger numbers.
    pub open spec fn spec_from_u8(value: u8) -> Option<FrameType> {
        if value == 0 {
            Some(FrameType::Middle)
        } else if value == 1 {
            Some(FrameType::First)
        } else if value == 2 {
            Some(FrameType::Last)
        } else if value == 3 {
            Some(FrameType::Single)
        } else {
            None
        }
    }

    #[verifier::when_used_as_spec(spec_from_u8)]
    pub fn from_u8(value: u8) -> (kind: Option<Self>)
        ensures
            kind == Self::spec_from_u8(value),
    {
        match value {
            0 => Some(FrameType::Middle),
            1 => Some(FrameType::First),
            2 => Some(FrameType::Last),
            3 => Some(FrameType::Single),
            _ => None,
        }
    }

    /// The two-bit number of a frame kind.
    pub open spec fn spec_to_u8(self) -> u8 {
        match self {
            FrameType::Middle => 0,
            FrameType::First => 1,
            FrameType::Last => 2,
            FrameType::Single => 3,
        }
    }

    #[verifier::when_used_as_spec(spec_to_u8)]
    pub fn to_u8(self) -> (value: u8)
        ensures
            value == self.spec_to_u8(),
    {
        match self {
            FrameType::Middle => 0,
            FrameType::First => 1,
            FrameType::Last => 2,
            FrameType::Single => 3,
        }
    }

    /// The frame kind in the low two bits of a flags byte.
    pub open spec fn of_flags(flags: u8) -> FrameType {
        let low = flags % 4;
        if low == 0 {
            FrameType::Middle
        } else if low == 1 {
            FrameType::First
        } else if low == 2 {
            FrameType::Last
        } else {
            FrameType::Single
        }
    }

    /// Every frame kind is found again from its number.
    pub proof fn lemma_number_round_trip(kind: FrameType)
        ensures
            FrameType::spec_from_u8(kind.spec_to_u8()) == Some(kind),
            kind.spec_to_u8() < 4,
    {
    }

    /// A number names a frame kind exactly when it is below four, and is then
    /// the number of that kind.
    pub proof fn lemma_from_number(value: u8)
        ensures
            FrameType::spec_from_u8(value).is_some() <==> value < 4,
            value < 4 ==> FrameType::spec_from_u8(value).unwrap().spec_to_u8() == value,
    {
    }
}

/// The fixed four-byte header in front of every frame.
#[derive(Debug, Clone, Copy, PartialEq, Eq, Structural)]
pub struct FrameHeader {
    pub channel: u8,
    pub length: u16,
    pub frame_type: FrameType,
    pub is_control_message: bool,
    pub encrypted: bool,
}

impl FrameHeader {
    /// The flags byte: the frame kind in bits 0 and 1, the control mark in
    /// bit 2, the encryption mark in bit 3, the upper four bits zero.
    pub open spec fn spec_flags(self) -> u8 {
        (self.frame_type.spec_to_u8() + (if self.is_control_message {
            4int
        } else {
            0int
        }) + (if self.encrypted {
            8int
        } else {
            0int
        })) as u8
    }

    /// The header on the wire: channel, flags, length in big-endian order.
    pub open spec fn spec_to_bytes(self) -> Seq<u8> {
        seq![
            self.channel,
            self.spec_flags(),
            (self.length / 256) as u8,
            (self.length % 256) as u8,
        ]
    }

    /// The header that the first four bytes of `data` spell. The upper four
    /// bits of the flags byte are not read.
    pub open spec fn spec_from_bytes(data: Seq<u8>) -> FrameHeader
        recommends
            data.len() >= 4,
    {
        FrameHeader {
            channel: data[0],
            length: (data[2] * 256 + data[3]) as u16,
            frame_type: FrameType::of_flags(data[1]),
            is_control_message: (data[1] / 4) % 2 == 1,
            encrypted: (data[1] / 8) % 2 == 1,
        }
    }

    pub fn from_bytes(data: &[u8]) -> (header: Self)
        requires
            data@.len() >= 4,
        ensures
            header == Self::spec_from_bytes(data@),
    {
        let channel: u8 = data[0];
        let flags: u8 = data[1];
        let high: u8 = data[2];
        let low: u8 = data[3];
        let length: u16 = ((high as u16) << 8) | (low as u16);
        assert(((high as u16) << 8) | (low as u16) == high * 256 + low) by (bit_vector);

        let kind_bits: u8 = flags & 0b0011;
        assert(flags & 0b0011 == flags % 4) by (bit_vector);
        let frame_type = match kind_bits {
            0 => FrameType::Middle,
            1 => FrameType::First,
            2 => FrameType::Last,
            _ => FrameType::Single,
        };

        let is_control_message = (flags & 0b0100) >> 2 == 1;
        assert((flags & 0b0100) >> 2 == (flags / 4) % 2) by (bit_vector);

        let encrypted = (flags & 0b1000) >> 3 == 1;
        assert((flags & 0b1000) >> 3 == (flags / 8) % 2) by (bit_vector);

        FrameHeader { channel, length, frame_type, is_control_message, encrypted }
    }

    pub fn to_bytes(&self) -> (bytes: Vec<u8>)
        ensures
            bytes@ == self.spec_to_bytes(),
    {
        let kind: u8 = self.frame_type.to_u8();
        let control: u8 = if self.is_control_message {
            4
        } else {
            0
        };
        let secret: u8 = if self.encrypted {
            8
        } else {
            0
        };
        let flags: u8 = (secret | control | kind) & 0b0000_1111;
        assert((secret | control | kind) & 0b0000_1111 == kind + control + secret) by (bit_vector)
            requires
                kind < 4,
                control == 0 || control == 4,
                secret == 0 || secret == 8,
        ;
        let length = self.length;
        let high: u8 = (length >> 8) as u8;
        let low: u8 = (length & 0xFF) as u8;
        assert((length >> 8) as u8 == length / 256) by (bit_vector);
        assert((length & 0xFF) as u8 == length % 256) by (bit_vector);

        let mut bytes: Vec<u8> = Vec::with_capacity(4);
        bytes.push(self.channel);
        bytes.push(flags);
        bytes.push(high);
        bytes.push(low);
        assert(bytes@ =~= self.spec_to_bytes());
        bytes
    }

    /// A header written out and read back is the same header, whatever
    /// follows it in the buffer.
    pub proof fn lemma_header_round_trip(header: FrameHeader, rest: Seq<u8>)
        ensures
            FrameHeader::spec_from_bytes(header.spec_to_bytes() + rest) == header,
            header.spec_to_bytes().len() == 4,
            header.spec_flags() < 16,
    {
        let bytes = header.spec_to_bytes() + rest;
        assert(bytes[0] == header.channel);
        assert(bytes[1] == header.spec_flags());
        assert(bytes[2] == (header.length / 256) as u8);
        assert(bytes[3] == (header.length % 256) as u8);
        FrameType::lemma_number_round_trip(header.frame_type);
    }
}

/// A 32-bit number in big-endian order.
pub open spec fn be32(value: u32) -> Seq<u8> {
    seq![
        (value / 0x100_0000) as u8,
        ((value / 0x1_0000) % 256) as u8,
        ((value / 0x100) % 256) as u8,
        (value % 256) as u8,
    ]
}

/// The 32-bit number that four bytes spell in big-endian order.
pub open spec fn from_be32(bytes: Seq<u8>) -> u32
    recommends
        bytes.len() >= 4,
{
    (bytes[0] * 0x100_0000 + bytes[1] * 0x1_0000 + bytes[2] * 0x100 + bytes[3]) as u32
}

/// Reading back what `be32` wrote gives the number.
pub proof fn lemma_be32_round_trip(value: u32)
    ensures
        from_be32(be32(value)) == value,
        be32(value).len() == 4,
{
}

/// One unit on the wire: header, the announced total for a first frame, payload.
#[derive(Debug, PartialEq, Eq)]
pub struct Frame {
    pub header: FrameHeader,
    /// Length of the whole message that a first frame announces.
    pub total_length: Option<u32>,
    pub payload: Vec<u8>,
}

/// A frame as a mathematical value.
pub struct FrameView {
    pub header: FrameHeader,
    pub total_length: Option<u32>,
    pub payload: Seq<u8>,
}

impl View for Frame {
    type V = FrameView;

    open spec fn view(&self) -> FrameView {
        FrameView { header: self.header, total_length: self.total_length, payload: self.payload@ }
    }
}

impl FrameView {
    /// The header's length is that of the payload, and exactly the first
    /// frame of a message announces a total.
    pub open spec fn well_formed(self) -> bool {
        &&& self.payload.len() == self.header.length
        &&& self.total_length.is_some() <==> self.header.frame_type == FrameType::First
    }

    /// The announced total as it stands on the wire: four bytes or none.
    pub open spec fn total_bytes(self) -> Seq<u8> {
        match self.total_length {
            Some(total) => be32(total),
            None => Seq::<u8>::empty(),
        }
    }

    /// The frame on the wire.
    pub open spec fn encode(self) -> Seq<u8> {
        self.header.spec_to_bytes() + self.total_bytes() + self.payload
    }

    /// The number of bytes between the header and the payload.
    pub open spec fn prefix_len(header: FrameHeader) -> nat {
        if header.frame_type == FrameType::First {
            8
        } else {
            4
        }
    }

    /// The frame at the start of `bytes` and the number of bytes it takes, or
    /// nothing while the frame is not yet complete.
    pub open spec fn decode(bytes: Seq<u8>) -> Option<(FrameView, nat)> {
        if bytes.len() < 4 {
            None
        } else {
            let header = FrameHeader::spec_from_bytes(bytes);
            let start = FrameView::prefix_len(header);
            let end = (start + header.length) as nat;
            if bytes.len() < end {
                None
            } else {
                Some(
                    (
                        FrameView {
                            header,
                            total_length: if header.frame_type == FrameType::First {
                                Some(from_be32(bytes.subrange(4, 8)))
                            } else {
                                None
                            },
                            payload: bytes.subrange(start as int, end as int),
                        },
                        end,
                    ),
                )
            }
        }
    }
}

/// A copy of the bytes of `source` from `start` up to `end`.
pub fn copy_range(source: &[u8], start: usize, end: usize) -> (bytes: Vec<u8>)
    requires
        start <= end <= source@.len(),
    ensures
        bytes@ == source@.subrange(start as int, end as int),
{
    let mut bytes: Vec<u8> = Vec::with_capacity(end - start);
    let mut i: usize = start;
    while i < end
        invariant
            start <= i <= end <= source@.len(),
            bytes@ == source@.subrange(start as int, i as int),
        decreases end - i,
    {
        bytes.push(source[i]);
        i += 1;
        assert(bytes@ =~= source@.subrange(start as int, i as int));
    }
    bytes
}

/// The number of bytes of a frame header.
pub const HEADER_LEN: usize = 4;

impl FrameHeader {
    /// The number of bytes that the frame of this header takes on the wire,
    /// the header included.
    pub fn wire_len(&self) -> (len: usize)
        ensures
            len == FrameView::prefix_len(*self) + self.length,
    {
        let prefix: usize = match self.frame_type {
            FrameType::First => 8,
            _ => 4,
        };
        prefix + self.length as usize
    }
}

impl Frame {
    /// The frame as bytes for the transport.
    pub fn encode(&self) -> (bytes: Vec<u8>)
        requires
            self@.well_formed(),
        ensures
            bytes@ == self@.encode(),
    {
        let mut bytes = self.header.to_bytes();
        match self.total_length {
            Some(total) => {
                let b0: u8 = (total >> 24) as u8;
                let b1: u8 = ((total >> 16) & 0xFF) as u8;
                let b2: u8 = ((total >> 8) & 0xFF) as u8;
                let b3: u8 = (total & 0xFF) as u8;
                assert((total >> 24) as u8 == total / 0x100_0000) by (bit_vector);
                assert(((total >> 16) & 0xFF) as u8 == (total / 0x1_0000) % 256) by (bit_vector);
                assert(((total >> 8) & 0xFF) as u8 == (total / 0x100) % 256) by (bit_vector);
                assert((total & 0xFF) as u8 == total % 256) by (bit_vector);
                bytes.push(b0);
                bytes.push(b1);
                bytes.push(b2);
                bytes.push(b3);
                assert(bytes@ =~= self.header.spec_to_bytes() + be32(total));
            },
            None => {
                assert(bytes@ =~= self.header.spec_to_bytes() + Seq::<u8>::empty());
            },
        }
        bytes.extend_from_slice(self.payload.as_slice());
        bytes
    }

    /// Takes one frame off the start of `bytes`: the frame and the number of
    /// bytes it took, or nothing while the buffer does not yet hold all of it.
    pub fn decode(bytes: &[u8]) -> (found: Option<(Frame, usize)>)
        ensures
            match found {
                Some((frame, used)) => FrameView::decode(bytes@) == Some((frame@, used as nat)),
                None => FrameView::decode(bytes@).is_none(),
            },
    {
        if bytes.len() < 4 {
            return None;
        }
        let header = FrameHeader::from_bytes(bytes);
        let start: usize = match header.frame_type {
            FrameType::First => 8,
            _ => 4,
        };
        let length: usize = header.length as usize;
        if bytes.len() < start || bytes.len() - start < length {
            return None;
        }
        let end: usize = start + length;
        let total_length: Option<u32> = match header.frame_type {
            FrameType::First => {
                let b0: u8 = bytes[4];
                let b1: u8 = bytes[5];
                let b2: u8 = bytes[6];
                let b3: u8 = bytes[7];
                let total: u32 = ((b0 as u32) << 24) | ((b1 as u32) << 16) | ((b2 as u32) << 8) | (
                b3 as u32);
                assert(((b0 as u32) << 24) | ((b1 as u32) << 16) | ((b2 as u32) << 8) | (b3 as u32)
                    == b0 * 0x100_0000 + b1 * 0x1_0000 + b2 * 0x100 + b3) by (bit_vector);
                Some(total)
            },
            _ => None,
        };
        let payload = copy_range(bytes, start, end);
        Some((Frame { header, total_length, payload }, end))
    }
}

/// Frame round trip: a well-formed frame written to the wire and read back is
/// the same frame, and reading takes exactly the bytes that were written,
/// whatever follows them.
pub proof fn lemma_frame_round_trip(frame: FrameView, rest: Seq<u8>)
    requires
        frame.well_formed(),
    ensures
        FrameView::decode(frame.encode() + rest) == Some((frame, frame.encode().len())),
{
    let bytes = frame.encode() + rest;
    let tail = frame.total_bytes() + frame.payload + rest;
    assert(bytes =~= frame.header.spec_to_bytes() + tail);
    FrameHeader::lemma_header_round_trip(frame.header, tail);
    let start = FrameView::prefix_len(frame.header);
    let end = start + frame.header.length;
    match frame.total_length {
        Some(total) => {
            lemma_be32_round_trip(total);
            assert(bytes.subrange(4, 8) =~= be32(total));
        },
        None => {},
    }
    assert(bytes.subrange(start as int, end as int) =~= frame.payload);
    assert(frame.encode().len() == end);
    let decoded = FrameView::decode(bytes).unwrap().0;
    assert(decoded.payload == frame.payload);
    assert(decoded.total_length == frame.total_length);
}

/// A header read from four bytes and written out again gives these bytes,
/// as long as the reserved bits of the flags byte are zero.
pub proof fn lemma_header_of_bytes(bytes: Seq<u8>)
    requires
        bytes.len() >= 4,
        bytes[1] < 16,
    ensures
        FrameHeader::spec_from_bytes(bytes).spec_to_bytes() == bytes.take(4),
{
    let header = FrameHeader::spec_from_bytes(bytes);
    let flags = bytes[1];
    let high = bytes[2];
    let low = bytes[3];
    assert(header.frame_type.spec_to_u8() == flags % 4);
    assert(flags < 16 ==> (flags % 4) + 4 * ((flags / 4) % 2) + 8 * ((flags / 8) % 2) == flags)
        by (bit_vector);
    assert(header.spec_flags() == flags);
    assert(header.length == high * 256 + low);
    assert(header.length / 256 == high && header.length % 256 == low);
    assert(header.spec_to_bytes() =~= bytes.take(4));
}

/// Four bytes read as a number and written out again are the same bytes.
pub proof fn lemma_be32_of_bytes(bytes: Seq<u8>)
    requires
        bytes.len() == 4,
    ensures
        be32(from_be32(bytes)) == bytes,
{
    let b0 = bytes[0];
    let b1 = bytes[1];
    let b2 = bytes[2];
    let b3 = bytes[3];
    let value = from_be32(bytes);
    assert(b0 * 0x100_0000 + b1 * 0x1_0000 + b2 * 0x100 + b3 <= 0xFFFF_FFFF) by (bit_vector);
    assert((b0 * 0x100_0000 + b1 * 0x1_0000 + b2 * 0x100 + b3) / 0x100_0000 == b0)
        by (bit_vector);
    assert(((b0 * 0x100_0000 + b1 * 0x1_0000 + b2 * 0x100 + b3) / 0x1_0000) % 256 == b1)
        by (bit_vector);
    assert(((b0 * 0x100_0000 + b1 * 0x1_0000 + b2 * 0x100 + b3) / 0x100) % 256 == b2)
        by (bit_vector);
    assert((b0 * 0x100_0000 + b1 * 0x1_0000 + b2 * 0x100 + b3) % 256 == b3) by (bit_vector);
    assert(be32(value) =~= bytes);
}

/// What was read from a buffer and is written out again is what stood in
/// the buffer, as long as the reserved bits of the flags byte were zero there.
pub proof fn lemma_decode_then_encode(bytes: Seq<u8>)
    requires
        FrameView::decode(bytes).is_some(),
        bytes[1] < 16,
    ensures
        FrameView::decode(bytes).unwrap().0.encode() == bytes.take(
            FrameView::decode(bytes).unwrap().1 as int,
        ),
{
    let (frame, used) = FrameView::decode(bytes).unwrap();
    lemma_header_of_bytes(bytes);
    match frame.total_length {
        Some(total) => {
            lemma_be32_of_bytes(bytes.subrange(4, 8));
        },
        None => {},
    }
    assert(frame.encode() =~= bytes.take(used as int));
}

/// What `decode` finds is well formed and lies within the buffer.
pub proof fn lemma_decode_well_formed(bytes: Seq<u8>)
    ensures
        match FrameView::decode(bytes) {
            Some((frame, used)) => frame.well_formed() && 4 <= used <= bytes.len(),
            None => true,
        },
{
}

} // verus!
