use micwav::format::CaptureError;
use micwav::format::DeviceConfig;
use micwav::format::NativeFormat;
use micwav::format::Sample;
use micwav::format::SampleFormat;
use micwav::format::SampleKind;
use micwav::format::WavSpec;
use micwav::format::classify_format;
use micwav::format::config_representable;
use micwav::format::convert_buffer_f32_bits;
use micwav::format::convert_buffer_i16;
use micwav::format::convert_buffer_i32;
use micwav::format::convert_buffer_i8;
use micwav::format::convert_f32_bits;
use micwav::format::convert_i16;
use micwav::format::convert_i32;
use micwav::format::convert_i8;
use micwav::format::sample_format;
use micwav::format::wav_spec_from_config;
use micwav::session::CaptureSession;
use micwav::session::DeviceProbe;
use micwav::session::RECORD_SECONDS;
use micwav::session::SessionState;
use micwav::sink::AudioSink;
use micwav::sink::write_input_data;
use micwav::wav::parse_wav_header;

fn config_with(format: NativeFormat) -> DeviceConfig {
    DeviceConfig { channels: 1, sample_rate: 8000, format }
}

fn open_and_start(config: DeviceConfig) -> (CaptureSession, AudioSink) {
    assert!(config_representable(&config));
    let mut session = match CaptureSession::open(DeviceProbe::Found(config)) {
        Ok(s) => s,
        Err(e) => panic!("open failed: {:?}", e),
    };
    let sink = match session.start() {
        Ok(s) => s,
        Err(e) => panic!("start failed: {:?}", e),
    };
    (session, sink)
}

#[test]
fn recording_duration_is_five_seconds() {
    assert_eq!(RECORD_SECONDS, 5);
}

#[test]
fn classify_accepts_exactly_the_four_supported_kinds() {
    assert_eq!(classify_format(NativeFormat::I8), Ok(SampleKind::I8));
    assert_eq!(classify_format(NativeFormat::I16), Ok(SampleKind::I16));
    assert_eq!(classify_format(NativeFormat::I32), Ok(SampleKind::I32));
    assert_eq!(classify_format(NativeFormat::F32), Ok(SampleKind::F32));
    let unsupported = [
        NativeFormat::I24,
        NativeFormat::I64,
        NativeFormat::U8,
        NativeFormat::U16,
        NativeFormat::U24,
        NativeFormat::U32,
        NativeFormat::U64,
        NativeFormat::F64,
        NativeFormat::Other,
    ];
    for f in unsupported {
        assert_eq!(classify_format(f), Err(CaptureError::UnsupportedSampleFormat));
    }
}

#[test]
fn sample_format_flag_is_float_only_for_float_encodings() {
    assert_eq!(sample_format(NativeFormat::F32), SampleFormat::Float);
    assert_eq!(sample_format(NativeFormat::F64), SampleFormat::Float);
    assert_eq!(sample_format(NativeFormat::I16), SampleFormat::Int);
    assert_eq!(sample_format(NativeFormat::U8), SampleFormat::Int);
}

#[test]
fn header_spec_matches_each_supported_representation() {
    let cases = [
        (NativeFormat::I8, 8u16, SampleFormat::Int),
        (NativeFormat::I16, 16u16, SampleFormat::Int),
        (NativeFormat::I32, 32u16, SampleFormat::Int),
        (NativeFormat::F32, 32u16, SampleFormat::Float),
    ];
    for (format, bits, flag) in cases {
        let config = DeviceConfig { channels: 2, sample_rate: 44100, format };
        let spec = wav_spec_from_config(&config).unwrap();
        assert_eq!(
            spec,
            WavSpec { channels: 2, sample_rate: 44100, bits_per_sample: bits, sample_format: flag }
        );
    }
}

#[test]
fn converters_carry_each_value_over_unchanged() {
    assert_eq!(convert_i8(-5), Sample::I8(-5));
    assert_eq!(convert_i16(-20000), Sample::I16(-20000));
    assert_eq!(convert_i32(123456789), Sample::I32(123456789));
    assert_eq!(convert_f32_bits(0.25f32.to_bits()), Sample::F32(0.25f32.to_bits()));
    let buf = convert_buffer_i16(&vec![3, -4, 5]);
    assert_eq!(buf, vec![Sample::I16(3), Sample::I16(-4), Sample::I16(5)]);
}

#[test]
fn open_fails_without_a_device_or_a_configuration() {
    assert!(matches!(
        CaptureSession::open(DeviceProbe::NoDevice),
        Err(CaptureError::DeviceUnavailable)
    ));
    assert!(matches!(
        CaptureSession::open(DeviceProbe::NoConfig),
        Err(CaptureError::ConfigQueryFailed)
    ));
}

#[test]
fn unsupported_native_format_fails_before_any_sink_exists() {
    let config = config_with(NativeFormat::U16);
    let mut session = CaptureSession::open(DeviceProbe::Found(config)).unwrap();
    let r = session.start();
    assert!(matches!(r, Err(CaptureError::UnsupportedSampleFormat)));
    // The session is exactly as it was: still merely opened, nothing created.
    assert_eq!(session.state, SessionState::Opened);
    assert_eq!(session.fmt, None);
}

#[test]
fn stereo_i16_session_round_trip() {
    let config = DeviceConfig { channels: 2, sample_rate: 44100, format: NativeFormat::I16 };
    let (mut session, mut sink) = open_and_start(config);
    assert_eq!(session.state, SessionState::Streaming);
    assert_eq!(
        sink.wav_spec(),
        WavSpec { channels: 2, sample_rate: 44100, bits_per_sample: 16, sample_format: SampleFormat::Int }
    );
    let buffer: Vec<i16> = vec![0, 1, -1, 32767, -32768, 100];
    let n = write_input_data(&convert_buffer_i16(&buffer), &mut sink);
    assert_eq!(n, 6);
    session.stop();
    assert_eq!(session.state, SessionState::Stopped);
    let bytes = session.finish(&mut sink).unwrap();
    assert_eq!(session.state, SessionState::Finalized);
    let (spec, data_len) = parse_wav_header(&bytes).unwrap();
    assert_eq!(
        spec,
        WavSpec { channels: 2, sample_rate: 44100, bits_per_sample: 16, sample_format: SampleFormat::Int }
    );
    assert_eq!(data_len, 12);
    assert!(data_len > 0);
    assert_eq!(bytes.len(), 44 + 12);
    // Little-endian two's complement, in arrival (interleaved channel) order.
    assert_eq!(
        &bytes[44..],
        &[0, 0, 1, 0, 0xff, 0xff, 0xff, 0x7f, 0x00, 0x80, 100, 0]
    );
}

#[test]
fn eight_bit_samples_are_stored_offset_binary() {
    let (mut session, mut sink) = open_and_start(config_with(NativeFormat::I8));
    let n = write_input_data(&convert_buffer_i8(&vec![-128, 0, 127]), &mut sink);
    assert_eq!(n, 3);
    session.stop();
    let bytes = session.finish(&mut sink).unwrap();
    assert_eq!(&bytes[44..], &[0u8, 128u8, 255u8]);
}

#[test]
fn empty_recording_has_a_header_and_an_empty_body() {
    let (mut session, mut sink) = open_and_start(config_with(NativeFormat::I32));
    session.stop();
    let bytes = session.finish(&mut sink).unwrap();
    assert_eq!(bytes.len(), 44);
    let (spec, data_len) = parse_wav_header(&bytes).unwrap();
    assert_eq!(data_len, 0);
    assert_eq!(spec.bits_per_sample, 32);
}

#[test]
fn second_finalize_fails_deterministically() {
    let (_session, mut sink) = open_and_start(config_with(NativeFormat::I16));
    assert!(sink.write(convert_i16(41)));
    let first = sink.finalize();
    assert!(first.is_ok());
    let second = sink.finalize();
    assert!(matches!(second, Err(CaptureError::FinalizeFailed)));
}

#[test]
fn write_after_finalize_is_always_a_dropped_no_op() {
    let (_session, mut sink) = open_and_start(config_with(NativeFormat::I16));
    assert!(sink.write(convert_i16(1)));
    let bytes = sink.finalize().unwrap();
    assert_eq!(bytes.len(), 44 + 2);
    // The slot is empty now: single writes and whole buffers are dropped.
    assert!(!sink.write(convert_i16(2)));
    let n = write_input_data(&convert_buffer_i16(&vec![3, 4, 5]), &mut sink);
    assert_eq!(n, 0);
}

#[test]
fn parse_rejects_bytes_that_are_no_wav_header() {
    assert!(parse_wav_header(&vec![0u8; 10]).is_none());
    assert!(parse_wav_header(&vec![0u8; 64]).is_none());
    let (mut session, mut sink) = open_and_start(config_with(NativeFormat::I16));
    session.stop();
    let mut bytes = session.finish(&mut sink).unwrap();
    bytes[0] = b'X';
    assert!(parse_wav_header(&bytes).is_none());
}

#[test]
fn hound_reads_back_an_i16_stream() {
    let config = DeviceConfig { channels: 2, sample_rate: 44100, format: NativeFormat::I16 };
    let (mut session, mut sink) = open_and_start(config);
    let written: Vec<i16> = vec![7, -7, 2500, -2500, 32767, -32768];
    write_input_data(&convert_buffer_i16(&written), &mut sink);
    session.stop();
    let bytes = session.finish(&mut sink).unwrap();
    let mut reader = hound::WavReader::new(std::io::Cursor::new(bytes)).unwrap();
    let spec = reader.spec();
    assert_eq!(spec.channels, 2);
    assert_eq!(spec.sample_rate, 44100);
    assert_eq!(spec.bits_per_sample, 16);
    assert_eq!(spec.sample_format, hound::SampleFormat::Int);
    let samples: Vec<i16> = reader.samples::<i16>().map(|s| s.unwrap()).collect();
    assert_eq!(samples, written);
}

#[test]
fn hound_reads_back_an_i8_stream() {
    let (mut session, mut sink) = open_and_start(config_with(NativeFormat::I8));
    let written: Vec<i8> = vec![-128, -1, 0, 1, 127];
    write_input_data(&convert_buffer_i8(&written), &mut sink);
    session.stop();
    let bytes = session.finish(&mut sink).unwrap();
    let mut reader = hound::WavReader::new(std::io::Cursor::new(bytes)).unwrap();
    assert_eq!(reader.spec().bits_per_sample, 8);
    let samples: Vec<i8> = reader.samples::<i8>().map(|s| s.unwrap()).collect();
    assert_eq!(samples, written);
}

#[test]
fn hound_reads_back_an_i32_stream() {
    let (mut session, mut sink) = open_and_start(config_with(NativeFormat::I32));
    let written: Vec<i32> = vec![0, 1, -1, i32::MAX, i32::MIN, 987654321];
    write_input_data(&convert_buffer_i32(&written), &mut sink);
    session.stop();
    let bytes = session.finish(&mut sink).unwrap();
    let mut reader = hound::WavReader::new(std::io::Cursor::new(bytes)).unwrap();
    assert_eq!(reader.spec().bits_per_sample, 32);
    assert_eq!(reader.spec().sample_format, hound::SampleFormat::Int);
    let samples: Vec<i32> = reader.samples::<i32>().map(|s| s.unwrap()).collect();
    assert_eq!(samples, written);
}

#[test]
fn hound_reads_back_an_f32_stream() {
    let (mut session, mut sink) = open_and_start(config_with(NativeFormat::F32));
    let written: Vec<f32> = vec![0.0, 1.0, -1.0, 0.5, -0.25];
    let bits: Vec<u32> = written.iter().map(|v| v.to_bits()).collect();
    write_input_data(&convert_buffer_f32_bits(&bits), &mut sink);
    session.stop();
    let bytes = session.finish(&mut sink).unwrap();
    let mut reader = hound::WavReader::new(std::io::Cursor::new(bytes)).unwrap();
    assert_eq!(reader.spec().bits_per_sample, 32);
    assert_eq!(reader.spec().sample_format, hound::SampleFormat::Float);
    let samples: Vec<f32> = reader.samples::<f32>().map(|s| s.unwrap()).collect();
    assert_eq!(samples, written);
}
