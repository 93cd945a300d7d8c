//! Device configurations, sample representations and the header
//! specification derived from them.

use vstd::prelude::*;

verus! {

/// The sample encoding an input device reports for its native stream,
/// as the operating system describes it.
#[derive(Clone, Copy, PartialEq, Eq, Structural, Debug)]
pub enum NativeFormat {
    I8,
    I16,
    I24,
    I32,
    I64,
    U8,
    U16,
    U24,
    U32,
    U64,
    F32,
    F64,
    /// Any further encoding the operating system may report; never one of
    /// the supported kinds.
    Other,
}

/// The four native representations the recorder supports; every other
/// `NativeFormat` is a configuration error raised before streaming starts.
#[derive(Clone, Copy, PartialEq, Eq, Structural, Debug)]
pub enum SampleKind {
    I8,
    I16,
    I32,
    F32,
}

/// Whether the stored samples are integers or IEEE floats; this is the
/// sample-format flag of the WAV header.
#[derive(Clone, Copy, PartialEq, Eq, Structural, Debug)]
pub enum SampleFormat {
    Int,
    Float,
}

/// The error kinds a recording run can end with.  `SampleWriteDropped` has no
/// variant here on purpose: a dropped sample write is recovered locally by the
/// sink and never surfaces as an error value.
#[derive(Clone, Copy, PartialEq, Eq, Structural, Debug)]
pub enum CaptureError {
    /// No input device was found.
    DeviceUnavailable,
    /// The device cannot report a supported stream configuration.
    ConfigQueryFailed,
    /// The negotiated native format is outside the four supported kinds.
    UnsupportedSampleFormat,
    /// The audio subsystem refused to open the callback stream.
    StreamStartFailed,
    /// Closing and flushing the WAV output failed.
    FinalizeFailed,
    /// The finalized file could not be read back for upload.
    FileReadFailed,
    /// The remote transcription service returned an error.
    TranscriptionFailed,
}

/// The stream configuration of the default input device, obtained once at
/// startup and immutable for the session's lifetime.
#[derive(Clone, Copy, PartialEq, Eq, Structural, Debug)]
pub struct DeviceConfig {
    pub channels: u16,
    pub sample_rate: u32,
    pub format: NativeFormat,
}

/// The WAV header fields derived from a device configuration.  Its fields
/// must exactly match the format of every sample subsequently written, or
/// the output file is corrupt.
#[derive(Clone, Copy, PartialEq, Eq, Structural, Debug)]
pub struct WavSpec {
    pub channels: u16,
    pub sample_rate: u32,
    pub bits_per_sample: u16,
    pub sample_format: SampleFormat,
}

/// One converted sample in the uniform output representation.  A float
/// sample is carried by its IEEE 754 bit pattern, which is exactly what the
/// WAV body stores for it.
#[derive(Clone, Copy, PartialEq, Eq, Structural, Debug)]
pub enum Sample {
    I8(i8),
    I16(i16),
    I32(i32),
    F32(u32),
}

/// The supported output kind a native format maps to, if any.
pub open spec fn supported_kind(f: NativeFormat) -> Option<SampleKind> {
    match f {
        NativeFormat::I8 => Some(SampleKind::I8),
        NativeFormat::I16 => Some(SampleKind::I16),
        NativeFormat::I32 => Some(SampleKind::I32),
        NativeFormat::F32 => Some(SampleKind::F32),
        _ => None,
    }
}

/// Whether the native format is a floating-point encoding.
pub open spec fn native_is_float(f: NativeFormat) -> bool {
    f is F32 || f is F64
}

/// Bits per sample of a supported kind.
pub open spec fn kind_bits(k: SampleKind) -> u16 {
    match k {
        SampleKind::I8 => 8,
        SampleKind::I16 => 16,
        SampleKind::I32 => 32,
        SampleKind::F32 => 32,
    }
}

/// Bytes per stored sample of a supported kind.
pub open spec fn kind_width(k: SampleKind) -> u16 {
    match k {
        SampleKind::I8 => 1,
        SampleKind::I16 => 2,
        SampleKind::I32 => 4,
        SampleKind::F32 => 4,
    }
}

/// Storage class (integer or float) of a supported kind.
pub open spec fn kind_format(k: SampleKind) -> SampleFormat {
    match k {
        SampleKind::F32 => SampleFormat::Float,
        _ => SampleFormat::Int,
    }
}

impl Sample {
    /// The kind of representation this sample carries.
    pub open spec fn kind(self) -> SampleKind {
        match self {
            Sample::I8(_) => SampleKind::I8,
            Sample::I16(_) => SampleKind::I16,
            Sample::I32(_) => SampleKind::I32,
            Sample::F32(_) => SampleKind::F32,
        }
    }
}

/// The header specification a given configuration and supported kind yield:
/// channel count and sample rate are taken over unchanged, bit width and
/// storage class come from the kind.
pub open spec fn spec_for(c: DeviceConfig, k: SampleKind) -> WavSpec {
    WavSpec {
        channels: c.channels,
        sample_rate: c.sample_rate,
        bits_per_sample: kind_bits(k),
        sample_format: kind_format(k),
    }
}

/// The supported kind a header specification was derived from, if its bit
/// width and storage class fit one.
pub open spec fn wav_kind(s: WavSpec) -> Option<SampleKind> {
    match s.sample_format {
        SampleFormat::Int => {
            if s.bits_per_sample == 8 {
                Some(SampleKind::I8)
            } else if s.bits_per_sample == 16 {
                Some(SampleKind::I16)
            } else if s.bits_per_sample == 32 {
                Some(SampleKind::I32)
            } else {
                None
            }
        },
        SampleFormat::Float => {
            if s.bits_per_sample == 32 {
                Some(SampleKind::F32)
            } else {
                None
            }
        },
    }
}

/// Machine limits on a configuration: every derived header field must fit
/// its fixed-width slot.  A WAV header stores channel count and block
/// alignment as 16-bit fields and the byte rate as a 32-bit field, so a
/// configuration beyond these bounds cannot be represented at all.
pub open spec fn representable(c: DeviceConfig) -> bool {
    &&& 1 <= c.channels
    &&& c.channels * 4 <= u16::MAX
    &&& c.sample_rate * c.channels * 4 <= u32::MAX
}

/// Classifies a native format, yielding the supported output kind or the
/// configuration error raised before any stream or file exists.
pub fn classify_format(f: NativeFormat) -> (r: Result<SampleKind, CaptureError>)
    ensures
        match supported_kind(f) {
            Some(k) => r == Ok::<SampleKind, CaptureError>(k),
            None => r == Err::<SampleKind, CaptureError>(CaptureError::UnsupportedSampleFormat),
        },
{
    match f {
        NativeFormat::I8 => Ok(SampleKind::I8),
        NativeFormat::I16 => Ok(SampleKind::I16),
        NativeFormat::I32 => Ok(SampleKind::I32),
        NativeFormat::F32 => Ok(SampleKind::F32),
        _ => Err(CaptureError::UnsupportedSampleFormat),
    }
}

/// The sample-format flag a native format maps to: `Float` for the
/// floating-point encodings, `Int` for every integer encoding.
pub fn sample_format(format: NativeFormat) -> (r: SampleFormat)
    ensures
        r == (if native_is_float(format) {
            SampleFormat::Float
        } else {
            SampleFormat::Int
        }),
{
    match format {
        NativeFormat::F32 => SampleFormat::Float,
        NativeFormat::F64 => SampleFormat::Float,
        _ => SampleFormat::Int,
    }
}

/// Derives the WAV header specification from a device configuration, or
/// reports the unsupported native format.  On the error path nothing else
/// has happened yet: no sink and no file exist.
pub fn wav_spec_from_config(config: &DeviceConfig) -> (r: Result<WavSpec, CaptureError>)
    ensures
        match supported_kind(config.format) {
            Some(k) => r == Ok::<WavSpec, CaptureError>(spec_for(*config, k)),
            None => r == Err::<WavSpec, CaptureError>(CaptureError::UnsupportedSampleFormat),
        },
{
    let kind = classify_format(config.format)?;
    let bits: u16 = match kind {
        SampleKind::I8 => 8,
        SampleKind::I16 => 16,
        SampleKind::I32 => 32,
        SampleKind::F32 => 32,
    };
    Ok(WavSpec {
        channels: config.channels,
        sample_rate: config.sample_rate,
        bits_per_sample: bits,
        sample_format: sample_format(config.format),
    })
}

/// Checks the machine limits of `representable` on a configuration, so a
/// caller can establish them before opening a session.
pub fn config_representable(c: &DeviceConfig) -> (b: bool)
    ensures
        b == representable(*c),
{
    if c.channels < 1 || c.channels > 16383 {
        return false;
    }
    let rate = c.sample_rate as u64;
    let ch = c.channels as u64;
    assert(rate * ch * 4 <= 0xFFFF_FFFFu64 * 16383 * 4) by (nonlinear_arith)
        requires
            rate <= 0xFFFF_FFFFu64,
            ch <= 16383,
    ;
    rate * ch * 4 <= (u32::MAX as u64)
}

/// The sample converter for an 8-bit integer stream: the output
/// representation equals the native one, so the value is carried over
/// unchanged.
pub fn convert_i8(v: i8) -> (s: Sample)
    ensures
        s == Sample::I8(v),
{
    Sample::I8(v)
}

/// The sample converter for a 16-bit integer stream.
pub fn convert_i16(v: i16) -> (s: Sample)
    ensures
        s == Sample::I16(v),
{
    Sample::I16(v)
}

/// The sample converter for a 32-bit integer stream.
pub fn convert_i32(v: i32) -> (s: Sample)
    ensures
        s == Sample::I32(v),
{
    Sample::I32(v)
}

/// The sample converter for a 32-bit float stream; the caller hands in the
/// IEEE 754 bit pattern, which is also what the output stores.
pub fn convert_f32_bits(bits: u32) -> (s: Sample)
    ensures
        s == Sample::F32(bits),
{
    Sample::F32(bits)
}

/// An 8-bit buffer after conversion, sample for sample.
pub open spec fn as_samples_i8(input: Seq<i8>) -> Seq<Sample> {
    Seq::new(input.len(), |i: int| Sample::I8(input[i]))
}

/// A 16-bit buffer after conversion, sample for sample.
pub open spec fn as_samples_i16(input: Seq<i16>) -> Seq<Sample> {
    Seq::new(input.len(), |i: int| Sample::I16(input[i]))
}

/// A 32-bit buffer after conversion, sample for sample.
pub open spec fn as_samples_i32(input: Seq<i32>) -> Seq<Sample> {
    Seq::new(input.len(), |i: int| Sample::I32(input[i]))
}

/// A float buffer (as bit patterns) after conversion, sample for sample.
pub open spec fn as_samples_f32_bits(input: Seq<u32>) -> Seq<Sample> {
    Seq::new(input.len(), |i: int| Sample::F32(input[i]))
}

/// Converts one callback buffer of 8-bit samples, preserving order.
pub fn convert_buffer_i8(input: &Vec<i8>) -> (out: Vec<Sample>)
    ensures
        out@ == as_samples_i8(input@),
{
    let mut out: Vec<Sample> = Vec::new();
    let len = input.len();
    let mut i: usize = 0;
    while i < len
        invariant
            i <= len,
            len == input@.len(),
            out@.len() == i,
            forall|j: int| 0 <= j < i ==> out@[j] == Sample::I8(input@[j]),
        decreases len - i,
    {
        out.push(convert_i8(input[i]));
        i += 1;
    }
    assert(out@ =~= as_samples_i8(input@));
    out
}

/// Converts one callback buffer of 16-bit samples, preserving order.
pub fn convert_buffer_i16(input: &Vec<i16>) -> (out: Vec<Sample>)
    ensures
        out@ == as_samples_i16(input@),
{
    let mut out: Vec<Sample> = Vec::new();
    let len = input.len();
    let mut i: usize = 0;
    while i < len
        invariant
            i <= len,
            len == input@.len(),
            out@.len() == i,
            forall|j: int| 0 <= j < i ==> out@[j] == Sample::I16(input@[j]),
        decreases len - i,
    {
        out.push(convert_i16(input[i]));
        i += 1;
    }
    assert(out@ =~= as_samples_i16(input@));
    out
}

/// Converts one callback buffer of 32-bit samples, preserving order.
pub fn convert_buffer_i32(input: &Vec<i32>) -> (out: Vec<Sample>)
    ensures
        out@ == as_samples_i32(input@),
{
    let mut out: Vec<Sample> = Vec::new();
    let len = input.len();
    let mut i: usize = 0;
    while i < len
        invariant
            i <= len,
            len == input@.len(),
            out@.len() == i,
            forall|j: int| 0 <= j < i ==> out@[j] == Sample::I32(input@[j]),
        decreases len - i,
    {
        out.push(convert_i32(input[i]));
        i += 1;
    }
    assert(out@ =~= as_samples_i32(input@));
    out
}

/// Converts one callback buffer of float samples given as bit patterns,
/// preserving order.
pub fn convert_buffer_f32_bits(input: &Vec<u32>) -> (out: Vec<Sample>)
    ensures
        out@ == as_samples_f32_bits(input@),
{
    let mut out: Vec<Sample> = Vec::new();
    let len = input.len();
    let mut i: usize = 0;
    while i < len
        invariant
            i <= len,
            len == input@.len(),
            out@.len() == i,
            forall|j: int| 0 <= j < i ==> out@[j] == Sample::F32(input@[j]),
        decreases len - i,
    {
        out.push(convert_f32_bits(input[i]));
        i += 1;
    }
    assert(out@ =~= as_samples_f32_bits(input@));
    out
}

} // verus!
