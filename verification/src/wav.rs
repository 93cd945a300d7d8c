//! The WAV container: byte-exact encoding of the header and the sample
//! body, and a header parser used to state and check the round trip.
//!
//! The layout is the canonical 44-byte form: a RIFF chunk wrapping a WAVE
//! identifier, a 16-byte fmt chunk (format tag 1 for integer samples, 3 for
//! IEEE floats), and a data chunk holding the samples.  Integer samples of
//! 16 and 32 bits are stored little-endian in two's complement; 8-bit
//! samples are stored offset-binary (the value plus 128), as WAV requires
//! unsigned 8-bit data; float samples are stored as the little-endian bytes
//! of their IEEE 754 bit pattern.

use vstd::arithmetic::div_mod::lemma_fundamental_div_mod;
use vstd::prelude::*;

use crate::format::DeviceConfig;
use crate::format::SampleFormat;
use crate::format::Sample;
use crate::format::SampleKind;
use crate::format::WavSpec;
use crate::format::kind_width;
use crate::format::spec_for;
use crate::format::supported_kind;
use crate::format::wav_kind;

verus! {

/// Lowest byte of a non-negative value.
pub open spec fn byte0(v: int) -> u8 {
    (v % 256) as u8
}

/// Second-lowest byte.
pub open spec fn byte1(v: int) -> u8 {
    ((v / 256) % 256) as u8
}

/// Third-lowest byte.
pub open spec fn byte2(v: int) -> u8 {
    ((v / 256 / 256) % 256) as u8
}

/// Highest byte of a 32-bit value.
pub open spec fn byte3(v: int) -> u8 {
    ((v / 256 / 256 / 256) % 256) as u8
}

/// Little-endian encoding of a 16-bit value.
pub open spec fn le16(v: int) -> Seq<u8> {
    seq![byte0(v), byte1(v)]
}

/// Little-endian encoding of a 32-bit value.
pub open spec fn le32(v: int) -> Seq<u8> {
    seq![byte0(v), byte1(v), byte2(v), byte3(v)]
}

/// The stored byte of an 8-bit sample: offset-binary, value plus 128.
pub open spec fn pattern_i8(v: i8) -> int {
    v + 128
}

/// The stored 16-bit pattern of a sample: two's complement.
pub open spec fn pattern_i16(v: i16) -> int {
    if v >= 0 {
        v as int
    } else {
        v + 0x10000
    }
}

/// The stored 32-bit pattern of a sample: two's complement.
pub open spec fn pattern_i32(v: i32) -> int {
    if v >= 0 {
        v as int
    } else {
        v + 0x1_0000_0000
    }
}

/// The bytes one converted sample contributes to the data chunk.
pub open spec fn sample_bytes(s: Sample) -> Seq<u8> {
    match s {
        Sample::I8(v) => seq![byte0(pattern_i8(v))],
        Sample::I16(v) => le16(pattern_i16(v)),
        Sample::I32(v) => le32(pattern_i32(v)),
        Sample::F32(bits) => le32(bits as int),
    }
}

/// The data chunk contents for a sequence of samples, in arrival order.
pub open spec fn body_bytes(samples: Seq<Sample>) -> Seq<u8>
    decreases samples.len(),
{
    if samples.len() == 0 {
        Seq::empty()
    } else {
        body_bytes(samples.drop_last()) + sample_bytes(samples.last())
    }
}

/// Appending one sample appends exactly its bytes.
pub proof fn lemma_body_bytes_push(samples: Seq<Sample>, s: Sample)
    ensures
        body_bytes(samples.push(s)) == body_bytes(samples) + sample_bytes(s),
{
    assert(samples.push(s).drop_last() =~= samples);
    assert(samples.push(s).last() == s);
}

/// One sample's bytes are exactly as wide as its kind says.
pub proof fn lemma_sample_bytes_len(s: Sample)
    ensures
        sample_bytes(s).len() == kind_width(s.kind()),
{
}

/// A body of samples of one kind is exactly count times width bytes long.
pub proof fn lemma_body_bytes_len(samples: Seq<Sample>, k: SampleKind)
    requires
        forall|i: int| 0 <= i < samples.len() ==> #[trigger] samples[i].kind() == k,
    ensures
        body_bytes(samples).len() == samples.len() * kind_width(k),
    decreases samples.len(),
{
    if samples.len() == 0 {
    } else {
        let prefix = samples.drop_last();
        assert(forall|i: int| 0 <= i < prefix.len() ==> #[trigger] prefix[i].kind() == k);
        lemma_body_bytes_len(prefix, k);
        assert(samples.last().kind() == k);
        assert(sample_bytes(samples.last()).len() == kind_width(k));
        assert(prefix.len() * kind_width(k) + kind_width(k) == samples.len() * kind_width(k))
            by (nonlinear_arith)
            requires prefix.len() + 1 == samples.len(),
        ;
    }
}

/// The fmt-chunk format tag: 1 for integer samples, 3 for IEEE floats.
pub open spec fn format_tag(f: SampleFormat) -> int {
    match f {
        SampleFormat::Int => 1,
        SampleFormat::Float => 3,
    }
}

/// Bytes per frame: channel count times bytes per sample.
pub open spec fn block_align(s: WavSpec) -> int {
    s.channels * (s.bits_per_sample / 8)
}

/// Bytes per second of audio: sample rate times block alignment.
pub open spec fn byte_rate(s: WavSpec) -> int {
    s.sample_rate * block_align(s)
}

/// The 44 header bytes for a given specification and data chunk length.
pub open spec fn header_bytes(s: WavSpec, data_len: int) -> Seq<u8> {
    let riff_len = 36 + data_len;
    let tag = format_tag(s.sample_format);
    let ba = block_align(s);
    let br = byte_rate(s);
    seq![
        82u8, 73u8, 70u8, 70u8,                                       // "RIFF"
        byte0(riff_len), byte1(riff_len), byte2(riff_len), byte3(riff_len),
        87u8, 65u8, 86u8, 69u8,                                       // "WAVE"
        102u8, 109u8, 116u8, 32u8,                                    // "fmt "
        16u8, 0u8, 0u8, 0u8,                                          // fmt chunk length
        byte0(tag), byte1(tag),
        byte0(s.channels as int), byte1(s.channels as int),
        byte0(s.sample_rate as int), byte1(s.sample_rate as int),
        byte2(s.sample_rate as int), byte3(s.sample_rate as int),
        byte0(br), byte1(br), byte2(br), byte3(br),
        byte0(ba), byte1(ba),
        byte0(s.bits_per_sample as int), byte1(s.bits_per_sample as int),
        100u8, 97u8, 116u8, 97u8,                                     // "data"
        byte0(data_len), byte1(data_len), byte2(data_len), byte3(data_len),
    ]
}

/// The complete WAV file for a specification and its written samples.
pub open spec fn wav_file_bytes(s: WavSpec, samples: Seq<Sample>) -> Seq<u8> {
    header_bytes(s, body_bytes(samples).len() as int) + body_bytes(samples)
}

/// Appends the two little-endian bytes of `v`.
fn push_le16(out: &mut Vec<u8>, v: u16)
    ensures
        final(out)@ == old(out)@ + le16(v as int),
{
    out.push((v % 256) as u8);
    out.push(((v / 256) % 256) as u8);
    assert(out@ =~= old(out)@ + le16(v as int));
}

/// Appends the four little-endian bytes of `v`.
fn push_le32(out: &mut Vec<u8>, v: u32)
    ensures
        final(out)@ == old(out)@ + le32(v as int),
{
    out.push((v % 256) as u8);
    out.push(((v / 256) % 256) as u8);
    out.push(((v / 256 / 256) % 256) as u8);
    out.push(((v / 256 / 256 / 256) % 256) as u8);
    assert(out@ =~= old(out)@ + le32(v as int));
}

/// Appends the stored bytes of one converted sample to the data chunk.
pub fn encode_sample(out: &mut Vec<u8>, s: Sample)
    ensures
        final(out)@ == old(out)@ + sample_bytes(s),
{
    match s {
        Sample::I8(v) => {
            let b: u8 = ((v as i16) + 128) as u8;
            out.push(b);
            assert(out@ =~= old(out)@ + sample_bytes(s));
        },
        Sample::I16(v) => {
            let p: u16 = if v >= 0 {
                v as u16
            } else {
                ((v as i32) + 0x10000) as u16
            };
            assert(p == pattern_i16(v));
            push_le16(out, p);
        },
        Sample::I32(v) => {
            let p: u32 = if v >= 0 {
                v as u32
            } else {
                ((v as i64) + 0x1_0000_0000i64) as u32
            };
            assert(p == pattern_i32(v));
            push_le32(out, p);
        },
        Sample::F32(bits) => {
            push_le32(out, bits);
        },
    }
}

/// Header fields small enough for their fixed-width slots; all are, as long
/// as the specification satisfies `crate::format::representable` bounds.
pub open spec fn header_representable(s: WavSpec) -> bool {
    &&& 1 <= s.channels
    &&& block_align(s) <= u16::MAX
    &&& byte_rate(s) <= u32::MAX
}

/// Builds the 44 header bytes for a data chunk of `data_len` bytes.
pub fn encode_header(s: &WavSpec, data_len: u32) -> (r: Vec<u8>)
    requires
        header_representable(*s),
        data_len + 36 <= u32::MAX,
    ensures
        r@ == header_bytes(*s, data_len as int),
{
    let mut out: Vec<u8> = Vec::new();
    out.push(82u8);
    out.push(73u8);
    out.push(70u8);
    out.push(70u8);
    push_le32(&mut out, 36 + data_len);
    out.push(87u8);
    out.push(65u8);
    out.push(86u8);
    out.push(69u8);
    out.push(102u8);
    out.push(109u8);
    out.push(116u8);
    out.push(32u8);
    push_le32(&mut out, 16);
    let tag: u16 = match s.sample_format {
        SampleFormat::Int => 1,
        SampleFormat::Float => 3,
    };
    push_le16(&mut out, tag);
    push_le16(&mut out, s.channels);
    push_le32(&mut out, s.sample_rate);
    let ba: u16 = s.channels * (s.bits_per_sample / 8);
    push_le32(&mut out, s.sample_rate * (ba as u32));
    push_le16(&mut out, ba);
    push_le16(&mut out, s.bits_per_sample);
    out.push(100u8);
    out.push(97u8);
    out.push(116u8);
    out.push(97u8);
    push_le32(&mut out, data_len);
    assert(out@ =~= header_bytes(*s, data_len as int));
    out
}

/// The 16-bit little-endian value stored at offset `i`.
pub open spec fn field_u16(b: Seq<u8>, i: int) -> int {
    b[i] + 256 * b[i + 1]
}

/// The 32-bit little-endian value stored at offset `i`.
pub open spec fn field_u32(b: Seq<u8>, i: int) -> int {
    b[i] + 256 * b[i + 1] + 65536 * b[i + 2] + 16777216 * b[i + 3]
}

/// Splitting a 16-bit value into bytes and reassembling them is lossless.
pub proof fn lemma_le16_value(v: int)
    requires
        0 <= v < 0x10000,
    ensures
        byte0(v) + 256 * byte1(v) == v,
{
    lemma_fundamental_div_mod(v, 256);
    assert(v / 256 < 256) by {
        if v / 256 >= 256 {
            assert(256 * (v / 256) >= 256 * 256);
        }
    }
    assert((v / 256) % 256 == v / 256);
}

/// Splitting a 32-bit value into bytes and reassembling them is lossless.
pub proof fn lemma_le32_value(v: int)
    requires
        0 <= v < 0x1_0000_0000,
    ensures
        byte0(v) + 256 * byte1(v) + 65536 * byte2(v) + 16777216 * byte3(v) == v,
{
    lemma_fundamental_div_mod(v, 256);
    lemma_fundamental_div_mod(v / 256, 256);
    lemma_fundamental_div_mod(v / 256 / 256, 256);
    assert(v / 256 < 0x100_0000) by {
        if v / 256 >= 0x100_0000 {
            assert(256 * (v / 256) >= 256 * 0x100_0000);
        }
    }
    assert(v / 256 / 256 < 0x1_0000) by {
        if v / 256 / 256 >= 0x1_0000 {
            assert(256 * (v / 256 / 256) >= 256 * 0x1_0000);
        }
    }
    assert(v / 256 / 256 / 256 < 256) by {
        if v / 256 / 256 / 256 >= 256 {
            assert(256 * (v / 256 / 256 / 256) >= 256 * 256);
        }
    }
    assert((v / 256 / 256 / 256) % 256 == v / 256 / 256 / 256);
}

/// The fixed marker bytes a well-formed header carries: the RIFF and WAVE
/// identifiers, the fmt chunk with its 16-byte length, and the data chunk.
pub open spec fn magic_ok(b: Seq<u8>) -> bool {
    &&& b[0] == 82 && b[1] == 73 && b[2] == 70 && b[3] == 70
    &&& b[8] == 87 && b[9] == 65 && b[10] == 86 && b[11] == 69
    &&& b[12] == 102 && b[13] == 109 && b[14] == 116 && b[15] == 32
    &&& field_u32(b, 16) == 16
    &&& b[36] == 100 && b[37] == 97 && b[38] == 116 && b[39] == 97
}

/// What a byte stream's header says, if it is a well-formed canonical WAV
/// header: the specification fields and the data chunk length.
pub open spec fn spec_parse_header(b: Seq<u8>) -> Option<(WavSpec, int)> {
    if b.len() >= 44 && magic_ok(b) && (field_u16(b, 20) == 1 || field_u16(b, 20) == 3)
        && field_u32(b, 4) == 36 + field_u32(b, 40) {
        Some(
            (
                WavSpec {
                    channels: field_u16(b, 22) as u16,
                    sample_rate: field_u32(b, 24) as u32,
                    bits_per_sample: field_u16(b, 34) as u16,
                    sample_format: if field_u16(b, 20) == 1 {
                        SampleFormat::Int
                    } else {
                        SampleFormat::Float
                    },
                },
                field_u32(b, 40),
            ),
        )
    } else {
        None
    }
}

/// Reads the 16-bit little-endian value at offset `i`.
fn read_u16(b: &Vec<u8>, i: usize) -> (r: u16)
    requires
        i <= 40,
        i + 1 < b@.len(),
    ensures
        r == field_u16(b@, i as int),
{
    (b[i] as u16) + 256 * (b[i + 1] as u16)
}

/// Reads the 32-bit little-endian value at offset `i`.
fn read_u32(b: &Vec<u8>, i: usize) -> (r: u32)
    requires
        i <= 40,
        i + 3 < b@.len(),
    ensures
        r == field_u32(b@, i as int),
{
    (b[i] as u32) + 256 * (b[i + 1] as u32) + 65536 * (b[i + 2] as u32) + 16777216 * (b[i + 3]
        as u32)
}

/// Parses a canonical WAV header back into its specification fields and
/// data chunk length, or reports that the bytes are not such a header.
pub fn parse_wav_header(bytes: &Vec<u8>) -> (r: Option<(WavSpec, u32)>)
    ensures
        match spec_parse_header(bytes@) {
            Some((s, n)) => r matches Some(p) && p.0 == s && p.1 == n,
            None => r is None,
        },
{
    if bytes.len() < 44 {
        return None;
    }
    let magic_ok_exec = bytes[0] == 82 && bytes[1] == 73 && bytes[2] == 70 && bytes[3] == 70
        && bytes[8] == 87 && bytes[9] == 65 && bytes[10] == 86 && bytes[11] == 69 && bytes[12]
        == 102 && bytes[13] == 109 && bytes[14] == 116 && bytes[15] == 32 && bytes[36] == 100
        && bytes[37] == 97 && bytes[38] == 116 && bytes[39] == 97;
    if !magic_ok_exec {
        return None;
    }
    if read_u32(bytes, 16) != 16 {
        return None;
    }
    let tag = read_u16(bytes, 20);
    if !(tag == 1 || tag == 3) {
        return None;
    }
    let data_len = read_u32(bytes, 40);
    if data_len > u32::MAX - 36 {
        return None;
    }
    if read_u32(bytes, 4) != 36 + data_len {
        return None;
    }
    Some(
        (
            WavSpec {
                channels: read_u16(bytes, 22),
                sample_rate: read_u32(bytes, 24),
                bits_per_sample: read_u16(bytes, 34),
                sample_format: if tag == 1 {
                    SampleFormat::Int
                } else {
                    SampleFormat::Float
                },
            },
            data_len,
        ),
    )
}

/// Encoding a header and parsing it back yields exactly the fields and the
/// data length that went in.
pub proof fn lemma_header_round_trip(s: WavSpec, data_len: int)
    requires
        header_representable(s),
        0 <= data_len <= u32::MAX - 36,
    ensures
        header_bytes(s, data_len).len() == 44,
        spec_parse_header(header_bytes(s, data_len)) == Some((s, data_len)),
{
    let b = header_bytes(s, data_len);
    lemma_le32_value(36 + data_len);
    lemma_le16_value(format_tag(s.sample_format));
    lemma_le16_value(s.channels as int);
    lemma_le32_value(s.sample_rate as int);
    lemma_le32_value(byte_rate(s));
    lemma_le16_value(block_align(s));
    lemma_le16_value(s.bits_per_sample as int);
    lemma_le32_value(data_len);
    assert(field_u32(b, 16) == 16);
    assert(field_u16(b, 20) == format_tag(s.sample_format));
    assert(field_u16(b, 22) == s.channels);
    assert(field_u32(b, 24) == s.sample_rate);
    assert(field_u16(b, 34) == s.bits_per_sample);
    assert(field_u32(b, 40) == data_len);
    assert(field_u32(b, 4) == 36 + data_len);
}

/// Writing any number of samples of the header's kind and finalizing gives
/// a stream whose header parses back to the same specification, and whose
/// data chunk holds exactly those samples: its length is the sample count
/// times the declared sample width.
pub proof fn lemma_wav_round_trip(s: WavSpec, samples: Seq<Sample>, k: SampleKind)
    requires
        header_representable(s),
        wav_kind(s) == Some(k),
        forall|i: int| 0 <= i < samples.len() ==> #[trigger] samples[i].kind() == k,
        samples.len() * kind_width(k) <= u32::MAX - 36,
    ensures
        wav_file_bytes(s, samples).len() == 44 + samples.len() * kind_width(k),
        spec_parse_header(wav_file_bytes(s, samples)) == Some(
            (s, samples.len() * kind_width(k) as int),
        ),
{
    lemma_body_bytes_len(samples, k);
    let data_len = body_bytes(samples).len() as int;
    let h = header_bytes(s, data_len);
    let b = wav_file_bytes(s, samples);
    lemma_header_round_trip(s, data_len);
    assert(b.len() == 44 + data_len);
    assert(forall|i: int| 0 <= i < 44 ==> b[i] == h[i]);
    assert(spec_parse_header(b) == Some((s, data_len)));
}

/// For each of the four supported native representations, the converted
/// sample occupies exactly the bit width that the header specification
/// derived from the configuration declares, and its storage class is float
/// exactly when the header's sample-format flag says float.
pub proof fn lemma_sample_matches_header(c: DeviceConfig, s: Sample)
    requires
        supported_kind(c.format) == Some(s.kind()),
    ensures
        sample_bytes(s).len() * 8 == spec_for(c, s.kind()).bits_per_sample,
        (spec_for(c, s.kind()).sample_format == SampleFormat::Float) <==> (s.kind()
            == SampleKind::F32),
{
    lemma_sample_bytes_len(s);
}

} // verus!
