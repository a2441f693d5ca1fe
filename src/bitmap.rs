use vstd::prelude::*;

verus! {

/// Size in bytes of the bitmap file header.
pub const FILE_HEADER_LEN: u32 = 14;

/// Size in bytes of the bitmap info header.
pub const INFO_HEADER_LEN: u32 = 40;

/// Offset of the pixel data in an encoded bitmap: both headers.
pub const PIXEL_OFFSET: u32 = 54;

/// Compression code of uncompressed RGB data.
pub const BI_RGB: u32 = 0;

/// The device-independent bitmap header that describes a pixel buffer.
#[derive(Debug, Clone, Copy, PartialEq, Eq, Structural)]
pub struct InfoHeader {
    pub size: u32,
    pub width: i32,
    /// Positive for rows stored bottom-up, negative for rows stored top-down.
    pub height: i32,
    pub planes: u16,
    pub bit_count: u16,
    pub compression: u32,
    pub size_image: u32,
    pub x_pels_per_meter: i32,
    pub y_pels_per_meter: i32,
    pub clr_used: u32,
    pub clr_important: u32,
}

/// Little-endian bytes of a 16-bit value.
pub open spec fn le16(x: u16) -> Seq<u8> {
    seq![(x % 256) as u8, (x / 256) as u8]
}

/// Little-endian bytes of a 32-bit value.
pub open spec fn le32(x: u32) -> Seq<u8> {
    seq![(x % 256) as u8, (x / 256 % 256) as u8, (x / 65536 % 256) as u8, (x / 16777216) as u8]
}

/// The 16-bit little-endian value stored at `at`.
pub open spec fn read_le16(b: Seq<u8>, at: int) -> int {
    b[at] + 256 * b[at + 1]
}

/// The 32-bit little-endian value stored at `at`.
pub open spec fn read_le32(b: Seq<u8>, at: int) -> int {
    b[at] + 256 * b[at + 1] + 65536 * b[at + 2] + 16777216 * b[at + 3]
}

impl InfoHeader {
    /// The header's 40 bytes, fields in declaration order.
    pub open spec fn bytes(self) -> Seq<u8> {
        le32(self.size) + le32(self.width as u32) + le32(self.height as u32) + le16(self.planes)
            + le16(self.bit_count) + le32(self.compression) + le32(self.size_image) + le32(
            self.x_pels_per_meter as u32,
        ) + le32(self.y_pels_per_meter as u32) + le32(self.clr_used) + le32(self.clr_important)
    }
}

/// The file header of a bitmap stream of `total` bytes: signature "BM",
/// total size, two reserved words and the offset of the pixel data.
pub open spec fn file_header_bytes(total: u32) -> Seq<u8> {
    seq![0x42u8, 0x4Du8] + le32(total) + le16(0) + le16(0) + le32(PIXEL_OFFSET)
}

/// The bitmap stream of `header` and `pixels`: file header, info header and
/// pixel bytes, back to back.
pub open spec fn bitmap_stream(header: InfoHeader, pixels: Seq<u8>) -> Seq<u8> {
    file_header_bytes((PIXEL_OFFSET + pixels.len()) as u32) + header.bytes() + pixels
}

/// The header to read pixels back with, from the one the device reported:
/// 32 bits per pixel, uncompressed, rows top to bottom. The image size the
/// device reported is kept.
pub open spec fn readback_header_of(queried: InfoHeader) -> InfoHeader {
    InfoHeader {
        height: if queried.height < 0 { queried.height } else { (-queried.height) as i32 },
        bit_count: 32,
        compression: BI_RGB,
        ..queried
    }
}

/// Sets up the header for reading pixels back from the one the device
/// reported (see [`readback_header_of`]).
pub fn readback_header(queried: &InfoHeader) -> (r: InfoHeader)
    ensures
        r == readback_header_of(*queried),
{
    let height = if queried.height < 0 { queried.height } else { -queried.height };
    InfoHeader { height, bit_count: 32, compression: BI_RGB, ..*queried }
}

fn push_le16(out: &mut Vec<u8>, x: u16)
    ensures
        final(out)@ == old(out)@ + le16(x),
{
    out.push((x % 256) as u8);
    out.push((x / 256) as u8);
    assert(final(out)@ =~= old(out)@ + le16(x));
}

fn push_le32(out: &mut Vec<u8>, x: u32)
    ensures
        final(out)@ == old(out)@ + le32(x),
{
    out.push((x % 256) as u8);
    out.push((x / 256 % 256) as u8);
    out.push((x / 65536 % 256) as u8);
    out.push((x / 16777216) as u8);
    assert(final(out)@ =~= old(out)@ + le32(x));
}

/// Serializes `header` and `pixels` into a bitmap stream that an image
/// reader decodes.
pub fn encode_bitmap(header: &InfoHeader, pixels: &Vec<u8>) -> (r: Vec<u8>)
    requires
        pixels.len() + PIXEL_OFFSET <= u32::MAX,
    ensures
        r@ == bitmap_stream(*header, pixels@),
{
    let total: u32 = PIXEL_OFFSET + pixels.len() as u32;
    let mut out: Vec<u8> = Vec::new();
    out.push(0x42u8);
    out.push(0x4Du8);
    push_le32(&mut out, total);
    push_le16(&mut out, 0);
    push_le16(&mut out, 0);
    push_le32(&mut out, PIXEL_OFFSET);
    assert(out@ =~= file_header_bytes(total));
    push_le32(&mut out, header.size);
    push_le32(&mut out, header.width as u32);
    push_le32(&mut out, header.height as u32);
    push_le16(&mut out, header.planes);
    push_le16(&mut out, header.bit_count);
    push_le32(&mut out, header.compression);
    push_le32(&mut out, header.size_image);
    push_le32(&mut out, header.x_pels_per_meter as u32);
    push_le32(&mut out, header.y_pels_per_meter as u32);
    push_le32(&mut out, header.clr_used);
    push_le32(&mut out, header.clr_important);
    assert(out@ =~= file_header_bytes(total) + header.bytes());
    let mut i: usize = 0;
    while i < pixels.len()
        invariant
            i <= pixels.len(),
            out@ == file_header_bytes(total) + header.bytes() + pixels@.subrange(0, i as int),
        decreases pixels.len() - i,
    {
        out.push(pixels[i]);
        i = i + 1;
        assert(out@ =~= file_header_bytes(total) + header.bytes() + pixels@.subrange(0, i as int));
    }
    assert(pixels@.subrange(0, i as int) =~= pixels@);
    out
}

proof fn lemma_le32_reads_back(x: u32)
    ensures
        read_le32(le32(x), 0) == x,
{
    let b = le32(x);
    assert(b[0] == x % 256);
    assert(b[1] == x / 256 % 256);
    assert(b[2] == x / 65536 % 256);
    assert(b[3] == x / 16777216);
    assert(x / 256 % 256 + 256 * (x / 65536) == x / 256) by (nonlinear_arith);
    assert(x / 65536 % 256 + 256 * (x / 16777216) == x / 65536) by (nonlinear_arith);
    assert(x % 256 + 256 * (x / 256) == x) by (nonlinear_arith);
}

proof fn lemma_le16_reads_back(x: u16)
    ensures
        read_le16(le16(x), 0) == x,
{
}

proof fn lemma_read_le32_at(b: Seq<u8>, at: int, x: u32)
    requires
        0 <= at,
        at + 4 <= b.len(),
        b.subrange(at, at + 4) == le32(x),
    ensures
        read_le32(b, at) == x,
{
    lemma_le32_reads_back(x);
    assert(b[at] == le32(x)[0]);
    assert(b[at + 1] == le32(x)[1]);
    assert(b[at + 2] == le32(x)[2]);
    assert(b[at + 3] == le32(x)[3]);
}

/// A reader of the stream finds, at the bitmap format's fixed offsets, the
/// signature, the stream's own length, the pixel offset, the header's
/// width, height and depth, and then the pixel bytes unchanged.
pub proof fn law_encoded_bitmap_reads_back(header: InfoHeader, pixels: Seq<u8>)
    requires
        pixels.len() + PIXEL_OFFSET <= u32::MAX,
    ensures
        ({
            let b = bitmap_stream(header, pixels);
            &&& b.len() == PIXEL_OFFSET + pixels.len()
            &&& b[0] == 0x42u8 && b[1] == 0x4Du8
            &&& read_le32(b, 2) == b.len()
            &&& read_le32(b, 10) == PIXEL_OFFSET
            &&& read_le32(b, 14) == header.size
            &&& read_le32(b, 18) == header.width as u32
            &&& read_le32(b, 22) == header.height as u32
            &&& read_le16(b, 28) == header.bit_count
            &&& read_le32(b, 30) == header.compression
            &&& b.subrange(PIXEL_OFFSET as int, b.len() as int) == pixels
        }),
{
    let b = bitmap_stream(header, pixels);
    let total = (PIXEL_OFFSET + pixels.len()) as u32;
    let h = header.bytes();
    assert(h.len() == INFO_HEADER_LEN);
    assert(file_header_bytes(total).len() == FILE_HEADER_LEN);
    assert(b.subrange(2, 6) =~= le32(total));
    assert(b.subrange(10, 14) =~= le32(PIXEL_OFFSET));
    assert(b.subrange(14, 18) =~= le32(header.size));
    assert(b.subrange(18, 22) =~= le32(header.width as u32));
    assert(b.subrange(22, 26) =~= le32(header.height as u32));
    assert(b.subrange(30, 34) =~= le32(header.compression));
    lemma_read_le32_at(b, 2, total);
    lemma_read_le32_at(b, 10, PIXEL_OFFSET);
    lemma_read_le32_at(b, 14, header.size);
    lemma_read_le32_at(b, 18, header.width as u32);
    lemma_read_le32_at(b, 22, header.height as u32);
    lemma_read_le32_at(b, 30, header.compression);
    lemma_le16_reads_back(header.bit_count);
    assert(b[28] == le16(header.bit_count)[0]);
    assert(b[29] == le16(header.bit_count)[1]);
    assert(b.subrange(PIXEL_OFFSET as int, b.len() as int) =~= pixels);
}

} // verus!
