//! The audio sink: an exclusively-owned sequential writer that appends
//! converted samples to a growing WAV byte stream and is finalized exactly
//! once.
//!
//! The sink is the one resource shared between the device callback and the
//! main thread.  The surrounding program keeps it behind a mutual-exclusion
//! lock and calls `write` only under a non-blocking acquire, so a callback
//! never blocks; a failed acquire simply drops that buffer's contribution.
//! Everything the sink itself guarantees is stated here over its abstract
//! model: writes append in arrival order while the slot is present, nothing
//! is ever written after finalize has emptied the slot, and only the first
//! finalize succeeds.

use vstd::prelude::*;

use crate::format::CaptureError;
use crate::format::Sample;
use crate::format::SampleKind;
use crate::format::WavSpec;
use crate::format::kind_width;
use crate::format::wav_kind;
use crate::wav::body_bytes;
use crate::wav::encode_header;
use crate::wav::encode_sample;
use crate::wav::header_representable;
use crate::wav::lemma_body_bytes_push;
use crate::wav::lemma_sample_bytes_len;
use crate::wav::wav_file_bytes;

verus! {

/// The largest data chunk the sink accepts; keeping it below the 32-bit
/// RIFF length slot (with room for the 36 header bytes counted there)
/// means a finalized stream always has a representable header.
pub const MAX_DATA_BYTES: u32 = 0xFFFF_FF00;

/// The abstract state of an audio sink: whether the writer slot is still
/// present, the header specification it was created with, and the samples
/// accepted so far, in arrival order.
#[verifier::ext_equal]
pub struct SinkModel {
    pub present: bool,
    pub fmt: WavSpec,
    pub written: Seq<Sample>,
}

/// Whether a write attempt is accepted: the slot must be present and the
/// data chunk must have room for one more sample of this width.
pub open spec fn sink_accepts(m: SinkModel, s: Sample) -> bool {
    m.present && body_bytes(m.written).len() + kind_width(s.kind()) <= MAX_DATA_BYTES
}

/// One write attempt: an accepted sample is appended, a rejected one
/// leaves the sink exactly as it was.
pub open spec fn write_step(m: SinkModel, s: Sample) -> (SinkModel, bool) {
    if sink_accepts(m, s) {
        (SinkModel { written: m.written.push(s), ..m }, true)
    } else {
        (m, false)
    }
}

/// The one finalize attempt that can succeed: on a present sink it empties
/// the slot and yields the complete WAV stream; on an already-emptied sink
/// it fails deterministically and changes nothing.
pub open spec fn finalize_step(m: SinkModel) -> (SinkModel, Result<Seq<u8>, CaptureError>) {
    if m.present {
        (
            SinkModel { present: false, ..m },
            Ok(wav_file_bytes(m.fmt, m.written)),
        )
    } else {
        (m, Err(CaptureError::FinalizeFailed))
    }
}

/// The sequential writer behind the shared slot.  The body holds the data
/// chunk built so far; the written samples are carried alongside as the
/// abstract history the byte stream encodes.
pub struct AudioSink {
    fmt: WavSpec,
    present: bool,
    body: Vec<u8>,
    written: Ghost<Seq<Sample>>,
}

impl AudioSink {
    /// The abstract state this sink is in.
    pub closed spec fn model(self) -> SinkModel {
        SinkModel { present: self.present, fmt: self.fmt, written: self.written@ }
    }

    /// Internal consistency: the header specification fits its slots and
    /// names a supported kind, every accepted sample is of that kind, and
    /// the body is exactly the byte encoding of the accepted samples.
    pub closed spec fn wf(self) -> bool {
        &&& header_representable(self.fmt)
        &&& wav_kind(self.fmt) is Some
        &&& self.body@ == body_bytes(self.written@)
        &&& forall|i: int|
            0 <= i < self.written@.len() ==> Some(#[trigger] self.written@[i].kind()) == wav_kind(
                self.fmt,
            )
        &&& self.body@.len() <= MAX_DATA_BYTES
    }

    /// Creates the sink in present state, with an empty data chunk, for a
    /// header specification that names one of the supported kinds.
    pub fn new(fmt: WavSpec) -> (s: AudioSink)
        requires
            header_representable(fmt),
            wav_kind(fmt) is Some,
        ensures
            s.wf(),
            s.model() == (SinkModel { present: true, fmt, written: Seq::empty() }),
    {
        AudioSink { fmt, present: true, body: Vec::new(), written: Ghost(Seq::empty()) }
    }

    /// The header specification this sink was created with.
    pub fn wav_spec(&self) -> (r: WavSpec)
        ensures
            r == self.model().fmt,
    {
        self.fmt
    }

    /// Appends one converted sample to the open writer if the slot is
    /// present and has room; otherwise the sample is silently dropped and
    /// the sink is left untouched.  Never blocks and never fails.
    pub fn write(&mut self, s: Sample) -> (accepted: bool)
        requires
            old(self).wf(),
            Some(s.kind()) == wav_kind(old(self).model().fmt),
        ensures
            final(self).wf(),
            final(self).model() == write_step(old(self).model(), s).0,
            accepted == write_step(old(self).model(), s).1,
    {
        if !self.present {
            return false;
        }
        let width: usize = match s {
            Sample::I8(_) => 1,
            Sample::I16(_) => 2,
            Sample::I32(_) => 4,
            Sample::F32(_) => 4,
        };
        assert(width == kind_width(s.kind()));
        if self.body.len() > (MAX_DATA_BYTES as usize) - width {
            return false;
        }
        encode_sample(&mut self.body, s);
        proof {
            lemma_body_bytes_push(self.written@, s);
            lemma_sample_bytes_len(s);
        }
        self.written = Ghost(self.written@.push(s));
        true
    }

    /// Takes the writer out of the slot, leaving it empty thereafter, and
    /// returns the complete WAV stream: header followed by data chunk.  A
    /// second attempt on the emptied slot fails deterministically.
    pub fn finalize(&mut self) -> (r: Result<Vec<u8>, CaptureError>)
        requires
            old(self).wf(),
        ensures
            final(self).wf(),
            final(self).model() == finalize_step(old(self).model()).0,
            match finalize_step(old(self).model()).1 {
                Ok(bytes) => r matches Ok(v) && v@ == bytes,
                Err(e) => r matches Err(a) && a == e,
            },
    {
        if !self.present {
            return Err(CaptureError::FinalizeFailed);
        }
        self.present = false;
        let data_len: u32 = self.body.len() as u32;
        let mut out = encode_header(&self.fmt, data_len);
        let len = self.body.len();
        let mut i: usize = 0;
        while i < len
            invariant
                i <= len,
                len == self.body@.len(),
                out@ == crate::wav::header_bytes(self.fmt, len as int) + self.body@.subrange(
                    0,
                    i as int,
                ),
            decreases len - i,
        {
            let b = self.body[i];
            out.push(b);
            assert(self.body@.subrange(0, i + 1 as int) =~= self.body@.subrange(0, i as int)
                + seq![self.body@[i as int]]);
            i += 1;
        }
        assert(self.body@.subrange(0, len as int) =~= self.body@);
        assert(out@ == wav_file_bytes(self.fmt, self.written@));
        Ok(out)
    }
}

/// The effect of draining one buffer of converted samples through the
/// sink, first to last: the final state, and how many were accepted.
pub open spec fn write_all_step(m: SinkModel, xs: Seq<Sample>) -> (SinkModel, nat)
    decreases xs.len(),
{
    if xs.len() == 0 {
        (m, 0)
    } else {
        let first = write_step(m, xs[0]);
        let rest = write_all_step(first.0, xs.drop_first());
        (rest.0, rest.1 + if first.1 { 1nat } else { 0nat })
    }
}

/// Drains one callback buffer into the sink, in arrival order, preserving
/// the interleaved channel order exactly as the device delivered it.  Each
/// sample is appended if the slot is present and has room, and silently
/// dropped otherwise; a dropped sample never aborts the buffer.  Returns
/// how many samples were accepted.
pub fn write_input_data(input: &Vec<Sample>, writer: &mut AudioSink) -> (n: usize)
    requires
        old(writer).wf(),
        forall|i: int|
            0 <= i < input@.len() ==> Some(#[trigger] input@[i].kind()) == wav_kind(
                old(writer).model().fmt,
            ),
    ensures
        final(writer).wf(),
        final(writer).model() == write_all_step(old(writer).model(), input@).0,
        n == write_all_step(old(writer).model(), input@).1,
{
    let ghost m0 = writer.model();
    proof {
        assert(input@.skip(0) =~= input@);
    }
    let mut n: usize = 0;
    let len = input.len();
    let mut i: usize = 0;
    while i < len
        invariant
            i <= len,
            n <= i,
            len == input@.len(),
            writer.wf(),
            writer.model().fmt == m0.fmt,
            forall|j: int|
                0 <= j < input@.len() ==> Some(#[trigger] input@[j].kind()) == wav_kind(m0.fmt),
            write_all_step(m0, input@).0 == write_all_step(writer.model(), input@.skip(i as int)).0,
            write_all_step(m0, input@).1 == n + write_all_step(
                writer.model(),
                input@.skip(i as int),
            ).1,
        decreases len - i,
    {
        let ghost m_before = writer.model();
        proof {
            assert(input@.skip(i as int).len() == len - i);
            assert(input@.skip(i as int)[0] == input@[i as int]);
            assert(input@.skip(i as int).drop_first() =~= input@.skip(i as int + 1));
        }
        let s = input[i];
        let accepted = writer.write(s);
        if accepted {
            n += 1;
        }
        proof {
            assert(write_all_step(m_before, input@.skip(i as int)).0 == write_all_step(
                writer.model(),
                input@.skip(i as int + 1),
            ).0);
        }
        i += 1;
    }
    proof {
        assert(input@.skip(len as int) =~= Seq::<Sample>::empty());
    }
    n
}

/// For any buffer of N write attempts made while the sink is present,
/// uncontended and within capacity, every attempt is accepted: the sink
/// ends with exactly those N samples appended in order.
pub proof fn lemma_write_all_accepts(m: SinkModel, xs: Seq<Sample>, k: SampleKind)
    requires
        m.present,
        forall|i: int| 0 <= i < xs.len() ==> #[trigger] xs[i].kind() == k,
        body_bytes(m.written).len() + xs.len() * kind_width(k) <= MAX_DATA_BYTES,
    ensures
        write_all_step(m, xs).0 == (SinkModel { written: m.written + xs, ..m }),
        write_all_step(m, xs).1 == xs.len(),
    decreases xs.len(),
{
    if xs.len() == 0 {
        assert(m.written + xs =~= m.written);
        assert(SinkModel { written: m.written + xs, ..m } =~= m);
    } else {
        let s = xs[0];
        assert(s.kind() == k);
        assert(kind_width(k) <= xs.len() * kind_width(k)) by (nonlinear_arith)
            requires
                xs.len() >= 1,
                kind_width(k) >= 0,
        ;
        assert(sink_accepts(m, s));
        let m1 = write_step(m, s).0;
        lemma_body_bytes_push(m.written, s);
        lemma_sample_bytes_len(s);
        assert(body_bytes(m1.written).len() == body_bytes(m.written).len() + kind_width(k));
        assert((xs.len() - 1) * kind_width(k) + kind_width(k) == xs.len() * kind_width(k))
            by (nonlinear_arith)
        ;
        lemma_write_all_accepts(m1, xs.drop_first(), k);
        assert(m.written.push(s) + xs.drop_first() =~= m.written + xs);
        assert(write_all_step(m1, xs.drop_first()).0 =~= (SinkModel {
            written: m.written + xs,
            ..m
        }));
    }
}

/// For any sequence of N write attempts on a fresh sink that stays
/// present, uncontended and within capacity, every attempt is accepted and
/// finalize produces a WAV stream whose header parses back to exactly the
/// specification the sink was created with, and whose data chunk holds
/// exactly those N samples: its length is N times the sample width.
pub proof fn lemma_uncontended_run(m: SinkModel, xs: Seq<Sample>, k: SampleKind)
    requires
        m.present,
        m.written == Seq::<Sample>::empty(),
        header_representable(m.fmt),
        wav_kind(m.fmt) == Some(k),
        forall|i: int| 0 <= i < xs.len() ==> #[trigger] xs[i].kind() == k,
        xs.len() * kind_width(k) <= MAX_DATA_BYTES,
    ensures
        write_all_step(m, xs).1 == xs.len(),
        finalize_step(write_all_step(m, xs).0).1 matches Ok(bytes)
            && crate::wav::spec_parse_header(bytes) == Some(
            (m.fmt, xs.len() * kind_width(k) as int),
        ),
{
    lemma_write_all_accepts(m, xs, k);
    let after = write_all_step(m, xs).0;
    assert(after.written =~= xs);
    assert(after.present);
    crate::wav::lemma_wav_round_trip(m.fmt, xs, k);
}

/// Exactly one finalize ever succeeds per session: finalize succeeds
/// precisely on a present sink, always leaves the slot absent, and a
/// second attempt on the emptied sink fails deterministically.
pub proof fn lemma_finalize_exactly_once(m: SinkModel)
    ensures
        finalize_step(m).1 is Ok <==> m.present,
        !finalize_step(m).0.present,
        finalize_step(finalize_step(m).0).1 == Err::<Seq<u8>, CaptureError>(
            CaptureError::FinalizeFailed,
        ),
{
}

/// No sample write occurs after finalize has emptied the slot: a write
/// attempt on the finalized sink accepts nothing and changes nothing, so
/// it can never corrupt the stream.
pub proof fn lemma_write_after_finalize_noop(m: SinkModel, s: Sample)
    ensures
        write_step(finalize_step(m).0, s).0 == finalize_step(m).0,
        write_step(finalize_step(m).0, s).1 == false,
{
}

} // verus!
