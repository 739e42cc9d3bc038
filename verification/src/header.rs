//! The decoded DTX header record, its byte layout, and the codec between
//! the two.

use vstd::prelude::*;
use crate::bytes::{le_u16, le_u32, le_i32, u16_to_le, u32_to_le, i32_to_le};

verus! {

/// Encoded length of the whole header, in bytes.
pub const HEADER_SIZE: usize = 164;

/// Length of the extra region, in bytes.
pub const EXTRA_SIZE: usize = 12;

/// Length of the command string region, in bytes.
pub const COMMAND_STRING_SIZE: usize = 128;

/// Why a header could not be decoded. A short source (fewer than
/// `HEADER_SIZE` bytes past the offset) is kept apart from a failure of the
/// read itself, which only a caller that performs reads can observe.
#[derive(Debug, Clone, Copy, PartialEq, Eq, Structural)]
pub enum HeaderError {
    /// Fewer than `HEADER_SIZE` bytes were available at the given offset.
    ShortRead,
    /// The underlying read operation failed.
    IoFailure,
}

/// The 12-byte extra region. It has two readings — twelve bytes, or three
/// little-endian 32-bit words — computed on demand from the one stored blob.
#[derive(Debug)]
pub struct ExtraData {
    pub bytes: Vec<u8>,
}

impl View for ExtraData {
    type V = Seq<u8>;

    open spec fn view(&self) -> Seq<u8> {
        self.bytes@
    }
}

impl ExtraData {
    /// The blob holds exactly `EXTRA_SIZE` bytes.
    pub open spec fn wf(&self) -> bool {
        self@.len() == EXTRA_SIZE
    }

    /// The byte reading: one of the twelve sub-fields.
    pub fn byte(&self, i: usize) -> (r: u8)
        requires
            self.wf(),
            i < EXTRA_SIZE,
        ensures
            r == self@[i as int],
    {
        self.bytes[i]
    }

    /// The word reading: one of the three little-endian 32-bit words at
    /// byte offsets 0, 4 and 8.
    pub fn word(&self, i: usize) -> (r: u32)
        requires
            self.wf(),
            i < 3,
        ensures
            r == le_u32(self@, 4 * i as int),
    {
        crate::bytes::read_u32_le(self.bytes.as_slice(), 4 * i)
    }

    /// Texture group (byte 0).
    pub fn texture_group(&self) -> (r: u8)
        requires
            self.wf(),
        ensures
            r == self@[0],
    {
        self.byte(0)
    }

    /// How many of the stored mipmaps to use at runtime (byte 1).
    pub fn mipmaps_to_use(&self) -> (r: u8)
        requires
            self.wf(),
        ensures
            r == self@[1],
    {
        self.byte(1)
    }

    /// Identifier of the pixel format the texture data is in (byte 2).
    pub fn pixel_format(&self) -> (r: u8)
        requires
            self.wf(),
        ensures
            r == self@[2],
    {
        self.byte(2)
    }

    /// Mipmap offset used when S3TC compression is unsupported (byte 3).
    pub fn non_s3tc_mipmap_offset(&self) -> (r: u8)
        requires
            self.wf(),
        ensures
            r == self@[3],
    {
        self.byte(3)
    }

    /// Mipmap offset applied to texture coordinates (byte 4).
    pub fn ui_mipmap_offset(&self) -> (r: u8)
        requires
            self.wf(),
        ensures
            r == self@[4],
    {
        self.byte(4)
    }

    /// Texture priority (byte 5).
    pub fn texture_priority(&self) -> (r: u8)
        requires
            self.wf(),
        ensures
            r == self@[5],
    {
        self.byte(5)
    }

    /// The packed bits of the detail texture scale (bytes 6..10, read as a
    /// little-endian word). The caller owns any floating-point reading.
    pub fn detail_scale_bits(&self) -> (r: u32)
        requires
            self.wf(),
        ensures
            r == le_u32(self@, 6),
    {
        crate::bytes::read_u32_le(self.bytes.as_slice(), 6)
    }

    /// Detail texture angle in integer degrees (bytes 10..12).
    pub fn detail_angle(&self) -> (r: u16)
        requires
            self.wf(),
        ensures
            r == le_u16(self@, 10),
    {
        crate::bytes::read_u16_le(self.bytes.as_slice(), 10)
    }
}

/// The mathematical reading of a header: each scalar field as its value,
/// the extra and command regions as byte sequences.
pub ghost struct HeaderView {
    pub resource_type: u32,
    pub base_width: u16,
    pub base_height: u16,
    pub version: i32,
    pub mipmap_count: u16,
    pub section_count: u16,
    pub internal_flags: i32,
    pub user_flags: i32,
    pub extra: Seq<u8>,
    pub command_string: Seq<u8>,
}

impl HeaderView {
    /// The regions have their fixed lengths.
    pub open spec fn wf(self) -> bool {
        &&& self.extra.len() == EXTRA_SIZE
        &&& self.command_string.len() == COMMAND_STRING_SIZE
    }
}

/// The decoded header record.
#[derive(Debug)]
pub struct Header {
    pub resource_type: u32,
    pub base_width: u16,
    pub base_height: u16,
    pub version: i32,
    pub mipmap_count: u16,
    pub section_count: u16,
    pub internal_flags: i32,
    pub user_flags: i32,
    pub extra: ExtraData,
    pub command_string: Vec<u8>,
}

impl View for Header {
    type V = HeaderView;

    open spec fn view(&self) -> HeaderView {
        HeaderView {
            resource_type: self.resource_type,
            base_width: self.base_width,
            base_height: self.base_height,
            version: self.version,
            mipmap_count: self.mipmap_count,
            section_count: self.section_count,
            internal_flags: self.internal_flags,
            user_flags: self.user_flags,
            extra: self.extra@,
            command_string: self.command_string@,
        }
    }
}

/// The header read from the first `HEADER_SIZE` bytes of `b`: every field
/// is the little-endian value at its documented offset, the extra region
/// is bytes 24..36 verbatim, the command string bytes 36..164 verbatim.
pub open spec fn spec_parse(b: Seq<u8>) -> HeaderView
    recommends
        b.len() >= HEADER_SIZE,
{
    HeaderView {
        resource_type: le_u32(b, 0),
        base_width: le_u16(b, 4),
        base_height: le_u16(b, 6),
        version: le_i32(b, 8),
        mipmap_count: le_u16(b, 12),
        section_count: le_u16(b, 14),
        internal_flags: le_i32(b, 16),
        user_flags: le_i32(b, 20),
        extra: b.subrange(24, 36),
        command_string: b.subrange(36, 164),
    }
}

/// A vector of `n` zero bytes.
fn zero_vec(n: usize) -> (r: Vec<u8>)
    ensures
        r@ == Seq::new(n as nat, |i: int| 0u8),
{
    let mut out: Vec<u8> = Vec::new();
    let mut i: usize = 0;
    while i < n
        invariant
            i <= n,
            out@ =~= Seq::new(i as nat, |j: int| 0u8),
        decreases n - i,
    {
        out.push(0u8);
        i = i + 1;
    }
    out
}

impl Header {
    /// The regions have their fixed lengths.
    pub open spec fn wf(&self) -> bool {
        self@.wf()
    }

    /// A header with every scalar field zero, the extra region twelve zero
    /// bytes, and the command string 128 zero bytes.
    pub fn new() -> (r: Header)
        ensures
            r.wf(),
            r.resource_type == 0,
            r.base_width == 0,
            r.base_height == 0,
            r.version == 0,
            r.mipmap_count == 0,
            r.section_count == 0,
            r.internal_flags == 0,
            r.user_flags == 0,
            r.extra@ == Seq::new(EXTRA_SIZE as nat, |i: int| 0u8),
            r.command_string@ == Seq::new(COMMAND_STRING_SIZE as nat, |i: int| 0u8),
    {
        Header {
            resource_type: 0,
            base_width: 0,
            base_height: 0,
            version: 0,
            mipmap_count: 0,
            section_count: 0,
            internal_flags: 0,
            user_flags: 0,
            extra: ExtraData { bytes: zero_vec(EXTRA_SIZE) },
            command_string: zero_vec(COMMAND_STRING_SIZE),
        }
    }

    /// Decodes a header from `HEADER_SIZE` bytes of `data` starting at
    /// `offset`. Succeeds exactly when that many bytes are available there,
    /// and then returns the record that `spec_parse` reads from them; with
    /// fewer bytes available it returns `ShortRead` and nothing else.
    pub fn parse(data: &[u8], offset: usize) -> (r: Result<Header, HeaderError>)
        ensures
            match r {
                Ok(h) => {
                    &&& offset + HEADER_SIZE <= data@.len()
                    &&& h.wf()
                    &&& h@ == spec_parse(data@.subrange(offset as int, offset + HEADER_SIZE))
                },
                Err(e) => {
                    &&& offset + HEADER_SIZE > data@.len()
                    &&& e == HeaderError::ShortRead
                },
            },
    {
        if data.len() < HEADER_SIZE || offset > data.len() - HEADER_SIZE {
            return Err(HeaderError::ShortRead);
        }
        let ghost window = data@.subrange(offset as int, offset + HEADER_SIZE);

        let mut extra_bytes: Vec<u8> = Vec::new();
        let mut i: usize = 0;
        while i < EXTRA_SIZE
            invariant
                i <= EXTRA_SIZE,
                offset + HEADER_SIZE <= data@.len(),
                data@.len() <= usize::MAX,
                extra_bytes@ =~= data@.subrange(offset + 24, offset + 24 + i),
            decreases EXTRA_SIZE - i,
        {
            extra_bytes.push(data[offset + 24 + i]);
            i = i + 1;
        }

        let mut command: Vec<u8> = Vec::new();
        let mut j: usize = 0;
        while j < COMMAND_STRING_SIZE
            invariant
                j <= COMMAND_STRING_SIZE,
                offset + HEADER_SIZE <= data@.len(),
                data@.len() <= usize::MAX,
                command@ =~= data@.subrange(offset + 36, offset + 36 + j),
            decreases COMMAND_STRING_SIZE - j,
        {
            command.push(data[offset + 36 + j]);
            j = j + 1;
        }

        let h = Header {
            resource_type: crate::bytes::read_u32_le(data, offset),
            base_width: crate::bytes::read_u16_le(data, offset + 4),
            base_height: crate::bytes::read_u16_le(data, offset + 6),
            version: crate::bytes::read_i32_le(data, offset + 8),
            mipmap_count: crate::bytes::read_u16_le(data, offset + 12),
            section_count: crate::bytes::read_u16_le(data, offset + 14),
            internal_flags: crate::bytes::read_i32_le(data, offset + 16),
            user_flags: crate::bytes::read_i32_le(data, offset + 20),
            extra: ExtraData { bytes: extra_bytes },
            command_string: command,
        };
        proof {
            assert(h@.extra =~= window.subrange(24, 36));
            assert(h@.command_string =~= window.subrange(36, 164));
            assert(h@ == spec_parse(window));
        }
        Ok(h)
    }
}

/// The 164-byte layout of a header: every field written little-endian at
/// its documented offset, in declaration order, with no padding.
pub open spec fn spec_encode(v: HeaderView) -> Seq<u8> {
    u32_to_le(v.resource_type) + u16_to_le(v.base_width) + u16_to_le(v.base_height) + i32_to_le(
        v.version,
    ) + u16_to_le(v.mipmap_count) + u16_to_le(v.section_count) + i32_to_le(v.internal_flags)
        + i32_to_le(v.user_flags) + v.extra + v.command_string
}

impl Header {
    /// Writes the header back to its 164-byte layout.
    pub fn encode(&self) -> (r: Vec<u8>)
        requires
            self.wf(),
        ensures
            r@ == spec_encode(self@),
            r@.len() == HEADER_SIZE,
    {
        let mut out: Vec<u8> = Vec::new();
        crate::bytes::push_u32_le(&mut out, self.resource_type);
        crate::bytes::push_u16_le(&mut out, self.base_width);
        crate::bytes::push_u16_le(&mut out, self.base_height);
        crate::bytes::push_i32_le(&mut out, self.version);
        crate::bytes::push_u16_le(&mut out, self.mipmap_count);
        crate::bytes::push_u16_le(&mut out, self.section_count);
        crate::bytes::push_i32_le(&mut out, self.internal_flags);
        crate::bytes::push_i32_le(&mut out, self.user_flags);
        let ghost scalars = out@;

        let mut i: usize = 0;
        while i < EXTRA_SIZE
            invariant
                i <= EXTRA_SIZE,
                self.wf(),
                out@ =~= scalars + self.extra@.subrange(0, i as int),
            decreases EXTRA_SIZE - i,
        {
            out.push(self.extra.bytes[i]);
            i = i + 1;
        }

        let mut j: usize = 0;
        while j < COMMAND_STRING_SIZE
            invariant
                j <= COMMAND_STRING_SIZE,
                self.wf(),
                out@ =~= scalars + self.extra@ + self.command_string@.subrange(0, j as int),
            decreases COMMAND_STRING_SIZE - j,
        {
            out.push(self.command_string[j]);
            j = j + 1;
        }

        proof {
            assert(out@ =~= spec_encode(self@));
        }
        out
    }

    /// Whether `flag` — usually one of the named constants — is set in
    /// `internal_flags`.
    pub fn has_internal_flag(&self, flag: i32) -> (r: bool)
        ensures
            r == crate::flags::spec_flag_set(self.internal_flags, flag),
    {
        crate::flags::flag_set(self.internal_flags, flag)
    }
}

/// Decoding is a pure function of the bytes: the same input decodes to
/// field-for-field identical headers, however often it is read.
pub proof fn lemma_parse_deterministic(b1: Seq<u8>, b2: Seq<u8>)
    requires
        b1 == b2,
    ensures
        spec_parse(b1) == spec_parse(b2),
{
}

/// Round trip: writing a well-formed header to its 164-byte layout and
/// decoding those bytes again reproduces every field exactly, the two
/// readings of the extra region included.
pub proof fn lemma_encode_parse_round_trip(v: HeaderView)
    requires
        v.wf(),
    ensures
        spec_encode(v).len() == HEADER_SIZE,
        spec_parse(spec_encode(v)) == v,
{
    let b = spec_encode(v);
    assert(b.subrange(0, 4) =~= u32_to_le(v.resource_type));
    assert(b.subrange(4, 6) =~= u16_to_le(v.base_width));
    assert(b.subrange(6, 8) =~= u16_to_le(v.base_height));
    assert(b.subrange(8, 12) =~= i32_to_le(v.version));
    assert(b.subrange(12, 14) =~= u16_to_le(v.mipmap_count));
    assert(b.subrange(14, 16) =~= u16_to_le(v.section_count));
    assert(b.subrange(16, 20) =~= i32_to_le(v.internal_flags));
    assert(b.subrange(20, 24) =~= i32_to_le(v.user_flags));
    assert(b.subrange(24, 36) =~= v.extra);
    assert(b.subrange(36, 164) =~= v.command_string);
    crate::bytes::lemma_u32_round_trip(v.resource_type);
    crate::bytes::lemma_u16_round_trip(v.base_width);
    crate::bytes::lemma_u16_round_trip(v.base_height);
    crate::bytes::lemma_i32_round_trip(v.version);
    crate::bytes::lemma_u16_round_trip(v.mipmap_count);
    crate::bytes::lemma_u16_round_trip(v.section_count);
    crate::bytes::lemma_i32_round_trip(v.internal_flags);
    crate::bytes::lemma_i32_round_trip(v.user_flags);
    assert(spec_parse(b) == v);
}

/// Round trip the other way: decoding a full 164-byte block and writing
/// the record back reproduces the block byte for byte — the header holds
/// no information outside its documented fields.
pub proof fn lemma_parse_encode_round_trip(b: Seq<u8>)
    requires
        b.len() == HEADER_SIZE,
    ensures
        spec_encode(spec_parse(b)) == b,
{
    let v = spec_parse(b);
    crate::bytes::lemma_u32_bytes_round_trip(b[0], b[1], b[2], b[3]);
    crate::bytes::lemma_u16_bytes_round_trip(b[4], b[5]);
    crate::bytes::lemma_u16_bytes_round_trip(b[6], b[7]);
    crate::bytes::lemma_i32_bytes_round_trip(b[8], b[9], b[10], b[11]);
    crate::bytes::lemma_u16_bytes_round_trip(b[12], b[13]);
    crate::bytes::lemma_u16_bytes_round_trip(b[14], b[15]);
    crate::bytes::lemma_i32_bytes_round_trip(b[16], b[17], b[18], b[19]);
    crate::bytes::lemma_i32_bytes_round_trip(b[20], b[21], b[22], b[23]);
    assert(spec_encode(v) =~= b);
}

} // verus!
