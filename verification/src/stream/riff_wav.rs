//! The RIFF/WAVE header that precedes a live stream of PCM samples.

use bytes::BufMut;
use bytes::BytesMut;
use vstd::prelude::*;

verus! {

/// `bytes::BytesMut`, a growable byte buffer. Its inside is not visible here;
/// [`contents`] names the bytes it holds.
#[verifier::external_type_specification]
#[verifier::external_body]
pub struct ExBytesMut(bytes::BytesMut);

/// The bytes that a buffer holds, first written first.
pub uninterp spec fn contents(buffer: BytesMut) -> Seq<u8>;

/// `bytes::BytesMut::with_capacity`: a buffer that holds no bytes yet. The
/// capacity only reserves room; it is passed on to `Vec::with_capacity`, which
/// refuses more than `isize::MAX` bytes.
#[verifier::external_body]
fn buffer_with_capacity(capacity: usize) -> (buffer: BytesMut)
    requires
        capacity <= isize::MAX,
    ensures
        contents(buffer) == Seq::<u8>::empty(),
{
    BytesMut::with_capacity(capacity)
}

/// `bytes::BufMut::put` on a `BytesMut`, with a byte slice as the source: all
/// of the slice is appended. The buffer grows as needed, up to `isize::MAX`
/// bytes.
#[verifier::external_body]
fn put(buffer: &mut BytesMut, src: &[u8])
    requires
        contents(*old(buffer)).len() + src@.len() <= isize::MAX,
    ensures
        contents(*final(buffer)) == contents(*old(buffer)) + src@,
{
    buffer.put(src)
}

/// `bytes::BufMut::put_u32_le` on a `BytesMut`: the four bytes of `n` are
/// appended, least significant first.
#[verifier::external_body]
fn put_u32_le(buffer: &mut BytesMut, n: u32)
    requires
        contents(*old(buffer)).len() + 4 <= isize::MAX,
    ensures
        contents(*final(buffer)) == contents(*old(buffer)) + le_bytes_u32(n),
{
    buffer.put_u32_le(n)
}

/// `bytes::BufMut::put_u16_le` on a `BytesMut`: the two bytes of `n` are
/// appended, least significant first.
#[verifier::external_body]
fn put_u16_le(buffer: &mut BytesMut, n: u16)
    requires
        contents(*old(buffer)).len() + 2 <= isize::MAX,
    ensures
        contents(*final(buffer)) == contents(*old(buffer)) + le_bytes_u16(n),
{
    buffer.put_u16_le(n)
}

/// `to_vec` on the byte slice that a `BytesMut` dereferences to: a copy of
/// the bytes it holds.
#[verifier::external_body]
fn to_vec(buffer: &BytesMut) -> (bytes: Vec<u8>)
    ensures
        bytes@ == contents(*buffer),
{
    buffer.to_vec()
}

/// The two bytes of `n`, least significant first.
#[verifier::opaque]
pub open spec fn le_bytes_u16(n: u16) -> Seq<u8> {
    seq![(n % 256) as u8, (n / 256) as u8]
}

/// The four bytes of `n`, least significant first.
#[verifier::opaque]
pub open spec fn le_bytes_u32(n: u32) -> Seq<u8> {
    seq![
        (n % 256) as u8,
        (n / 256 % 256) as u8,
        (n / 65536 % 256) as u8,
        (n / 16777216) as u8,
    ]
}

/// The size that the header announces for the sample data: the stream has no
/// known end, so a large constant stands in.
pub const DATA_SIZE: u32 = 10240000;

/// Samples per second of the announced format.
pub const AUDIO_RATE: u32 = 48000;

/// Channels of the announced format.
pub const CHANNELS: u32 = 1;

/// Both encodings have the width of their type.
pub proof fn lemma_le_bytes_len(a: u16, b: u32)
    ensures
        le_bytes_u16(a).len() == 2,
        le_bytes_u32(b).len() == 4,
{
    reveal(le_bytes_u16);
    reveal(le_bytes_u32);
}

/// The tag `RIFF`, which opens the file.
pub open spec fn tag_riff() -> Seq<u8> {
    seq![0x52u8, 0x49, 0x46, 0x46]
}

/// The tag `WAVE`, which names the kind of file.
pub open spec fn tag_wave() -> Seq<u8> {
    seq![0x57u8, 0x41, 0x56, 0x45]
}

/// The tag `fmt `, which opens the format chunk.
pub open spec fn tag_fmt() -> Seq<u8> {
    seq![0x66u8, 0x6d, 0x74, 0x20]
}

/// The tag of the data chunk, as this header writes it: with a space after it.
pub open spec fn tag_data() -> Seq<u8> {
    seq![0x64u8, 0x61, 0x74, 0x61, 0x20]
}

/// The header for mono PCM at 48 kHz with `bits_per_sample` bits per sample.
pub open spec fn riff_wav_header(bits_per_sample: u32) -> Seq<u8> {
    let bytes_per_second = (AUDIO_RATE * CHANNELS * bits_per_sample / 8) as u32;
    let block_align = (CHANNELS * bits_per_sample / 8) as u32;
    tag_riff()
     + le_bytes_u32((DATA_SIZE + 36) as u32)  // bytes that follow this field
     + tag_wave()
     + tag_fmt()
     + le_bytes_u32(16)  // length of the format chunk
     + le_bytes_u16(1)  // PCM
     + le_bytes_u16(CHANNELS as u16)
     + le_bytes_u32(AUDIO_RATE)
     + le_bytes_u32(bytes_per_second)
     + le_bytes_u16(block_align as u16)
     + le_bytes_u16(bits_per_sample as u16)  // the low sixteen bits
     + tag_data()
     + le_bytes_u32(DATA_SIZE)
}

/// Builds the header for a stream of `bits_per_sample`-bit samples.
pub fn build_riff_wav_header(bits_per_sample: u32) -> (header: Vec<u8>)
    requires
        AUDIO_RATE * CHANNELS * bits_per_sample <= u32::MAX,
    ensures
        header@ == riff_wav_header(bits_per_sample),
        header@.len() == 45,
{
    let datasize: u32 = DATA_SIZE;
    let audio_rate: u32 = AUDIO_RATE;
    let channels: u32 = CHANNELS;
    assert(bits_per_sample <= 89478) by {
        assert(AUDIO_RATE * CHANNELS * bits_per_sample == 48000 * bits_per_sample);
    }
    let bytes_per_second: u32 = audio_rate * channels * bits_per_sample / 8;
    let block_align: u16 = (channels * bits_per_sample / 8) as u16;
    let sample_bits: u16 = #[verifier::truncate] (bits_per_sample as u16);
    let mut header = buffer_with_capacity(bytes_per_second as usize);
    let riff: [u8; 4] = [0x52, 0x49, 0x46, 0x46];
    let wave: [u8; 4] = [0x57, 0x41, 0x56, 0x45];
    let fmt: [u8; 4] = [0x66, 0x6d, 0x74, 0x20];
    let data: [u8; 5] = [0x64, 0x61, 0x74, 0x61, 0x20];
    proof {
        assert(riff@ =~= tag_riff());
        assert(wave@ =~= tag_wave());
        assert(fmt@ =~= tag_fmt());
        assert(data@ =~= tag_data());
        assert(Seq::<u8>::empty() + tag_riff() =~= tag_riff());
        lemma_le_bytes_len(1, (datasize + 36) as u32);
        lemma_le_bytes_len(channels as u16, 16);
        lemma_le_bytes_len(block_align, audio_rate);
        lemma_le_bytes_len(sample_bits, bytes_per_second);
        lemma_le_bytes_len(1, datasize);
    }
    put(&mut header, riff.as_slice());
    put_u32_le(&mut header, datasize + 36);
    put(&mut header, wave.as_slice());
    put(&mut header, fmt.as_slice());
    put_u32_le(&mut header, 16);
    put_u16_le(&mut header, 1);
    put_u16_le(&mut header, channels as u16);
    put_u32_le(&mut header, audio_rate);
    put_u32_le(&mut header, bytes_per_second);
    put_u16_le(&mut header, block_align);
    put_u16_le(&mut header, sample_bits);
    put(&mut header, data.as_slice());
    put_u32_le(&mut header, datasize);
    to_vec(&header)
}

} // verus!
