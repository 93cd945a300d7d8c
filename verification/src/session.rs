//! The capture session's state machine: `Opened` (a session value exists
//! only from this phase on), then `Streaming`, `Stopped` and `Finalized`.
//!
//! The surrounding program drives the machine with plain events: the
//! outcome of probing the default input device, the elapse of the fixed
//! recording duration, and the buffers its hardware callback receives.
//! The machine's requires clauses encode the ordering guarantee the design
//! rests on: the sink can only be finalized from `Stopped`, after the
//! stream has been stopped and no further callback can fire.

use vstd::prelude::*;

use crate::format::CaptureError;
use crate::format::DeviceConfig;
use crate::format::SampleKind;
use crate::format::WavSpec;
use crate::format::representable;
use crate::format::spec_for;
use crate::format::supported_kind;
use crate::format::wav_kind;
use crate::format::wav_spec_from_config;
use crate::sink::AudioSink;
use crate::sink::SinkModel;
use crate::sink::finalize_step;
use crate::wav::block_align;
use crate::wav::byte_rate;
use crate::wav::header_representable;

verus! {

/// The fixed recording duration, in seconds; elapse of this duration is
/// the only termination trigger for the capture phase.
pub const RECORD_SECONDS: u64 = 5;

/// What probing the default input device produced.
#[derive(Clone, Copy, PartialEq, Eq, Structural, Debug)]
pub enum DeviceProbe {
    /// No input device is available.
    NoDevice,
    /// A device exists but could not report a default configuration.
    NoConfig,
    /// The default configuration the device reported.
    Found(DeviceConfig),
}

/// The phases a capture session passes through, in order.  The idle phase
/// before a device is opened has no session value: `open` either yields a
/// session already in `Opened` or fails.
#[derive(Clone, Copy, PartialEq, Eq, Structural, Debug)]
pub enum SessionState {
    Opened,
    Streaming,
    Stopped,
    Finalized,
}

/// A capture session: the immutable device configuration, the current
/// phase, and (once streaming has begun) the derived header specification.
#[derive(Clone, Copy, PartialEq, Eq, Structural, Debug)]
pub struct CaptureSession {
    pub state: SessionState,
    pub config: DeviceConfig,
    pub fmt: Option<WavSpec>,
}

/// A header specification derived from a representable configuration fits
/// all its fixed-width slots and names back the kind it came from.
pub proof fn lemma_spec_for_representable(c: DeviceConfig, k: SampleKind)
    requires
        representable(c),
    ensures
        header_representable(spec_for(c, k)),
        wav_kind(spec_for(c, k)) == Some(k),
{
    let f = spec_for(c, k);
    assert(f.bits_per_sample / 8 == 1 || f.bits_per_sample / 8 == 2 || f.bits_per_sample / 8
        == 4);
    assert(block_align(f) <= c.channels * 4);
    assert(byte_rate(f) <= c.sample_rate * (c.channels * 4)) by (nonlinear_arith)
        requires
            block_align(f) <= c.channels * 4,
            block_align(f) >= 0,
            c.sample_rate >= 0,
            byte_rate(f) == c.sample_rate * block_align(f),
    ;
    assert(c.sample_rate * (c.channels * 4) == c.sample_rate * c.channels * 4)
        by (nonlinear_arith);
}

impl CaptureSession {
    /// Session consistency: once streaming has begun, the recorded header
    /// specification is exactly the one derived from the configuration.
    pub open spec fn wf(self) -> bool {
        &&& representable(self.config)
        &&& match self.fmt {
            Some(f) => supported_kind(self.config.format) matches Some(k) && f == spec_for(
                self.config,
                k,
            ),
            None => self.state == SessionState::Opened,
        }
    }

    /// Idle to `Opened`: selects the default input device and its reported
    /// default configuration, or fails before anything else has happened:
    /// with `DeviceUnavailable` when no input device exists, and with
    /// `ConfigQueryFailed` when the device cannot report a configuration.
    pub fn open(probe: DeviceProbe) -> (r: Result<CaptureSession, CaptureError>)
        requires
            probe matches DeviceProbe::Found(c) ==> representable(c),
        ensures
            probe is NoDevice ==> r == Err::<CaptureSession, CaptureError>(
                CaptureError::DeviceUnavailable,
            ),
            probe is NoConfig ==> r == Err::<CaptureSession, CaptureError>(
                CaptureError::ConfigQueryFailed,
            ),
            probe matches DeviceProbe::Found(c) ==> r matches Ok(s) && s.wf() && s.state
                == SessionState::Opened && s.config == c && s.fmt is None,
    {
        match probe {
            DeviceProbe::NoDevice => Err(CaptureError::DeviceUnavailable),
            DeviceProbe::NoConfig => Err(CaptureError::ConfigQueryFailed),
            DeviceProbe::Found(config) => Ok(
                CaptureSession { state: SessionState::Opened, config, fmt: None },
            ),
        }
    }

    /// `Opened` to `Streaming`: derives the header specification from the
    /// configuration and creates the sink, present and empty, that the
    /// hardware callback will write into.  A native format outside the
    /// four supported kinds fails with `UnsupportedSampleFormat` before
    /// any sink exists, leaving the session exactly as it was.
    pub fn start(&mut self) -> (r: Result<AudioSink, CaptureError>)
        requires
            old(self).wf(),
            old(self).state == SessionState::Opened,
        ensures
            final(self).wf(),
            final(self).config == old(self).config,
            match supported_kind(old(self).config.format) {
                Some(k) => {
                    &&& r matches Ok(sink)
                    &&& sink.wf()
                    &&& sink.model() == (SinkModel {
                        present: true,
                        fmt: spec_for(old(self).config, k),
                        written: Seq::empty(),
                    })
                    &&& final(self).state == SessionState::Streaming
                    &&& final(self).fmt == Some(spec_for(old(self).config, k))
                },
                None => {
                    &&& r == Err::<AudioSink, CaptureError>(CaptureError::UnsupportedSampleFormat)
                    &&& *final(self) == *old(self)
                },
            },
    {
        match wav_spec_from_config(&self.config) {
            Ok(fmt) => {
                proof {
                    let k = supported_kind(self.config.format).unwrap();
                    lemma_spec_for_representable(self.config, k);
                }
                let sink = AudioSink::new(fmt);
                self.fmt = Some(fmt);
                self.state = SessionState::Streaming;
                Ok(sink)
            },
            Err(e) => Err(e),
        }
    }

    /// `Streaming` to `Stopped`: the fixed duration has elapsed and the
    /// stream has been stopped and dropped, which the audio subsystem
    /// guarantees prevents any further callback invocation before
    /// returning.  From here on the sink can no longer be written by the
    /// callback, only finalized.
    pub fn stop(&mut self)
        requires
            old(self).wf(),
            old(self).state == SessionState::Streaming,
        ensures
            final(self).wf(),
            *final(self) == (CaptureSession { state: SessionState::Stopped, ..*old(self) }),
    {
        self.state = SessionState::Stopped;
    }

    /// `Stopped` to `Finalized`: finalizes the sink exactly once, yielding
    /// the complete WAV stream.  The requires clause enforces the ordering
    /// the design depends on: finalize is only reachable after the stream
    /// has been stopped, so no write can race it.
    pub fn finish(&mut self, sink: &mut AudioSink) -> (r: Result<Vec<u8>, CaptureError>)
        requires
            old(self).wf(),
            old(self).state == SessionState::Stopped,
            old(sink).wf(),
        ensures
            final(self).wf(),
            *final(self) == (CaptureSession { state: SessionState::Finalized, ..*old(self) }),
            final(sink).wf(),
            final(sink).model() == finalize_step(old(sink).model()).0,
            match finalize_step(old(sink).model()).1 {
                Ok(bytes) => r matches Ok(v) && v@ == bytes,
                Err(e) => r matches Err(a) && a == e,
            },
    {
        self.state = SessionState::Finalized;
        sink.finalize()
    }
}

} // verus!
