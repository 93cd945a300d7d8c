//! The orchestrator's decisions around the transcription step.  The upload
//! itself is an external collaborator reached over the network; the
//! library only decides what its outcome means for the run.

use vstd::prelude::*;

use crate::format::CaptureError;

verus! {

/// The text the run prints, from the transcription service's outcome:
/// success yields exactly the service's text, and any service failure
/// (network, auth, quota, malformed response) is fatal as
/// `TranscriptionFailed`.
pub fn transcript_text(outcome: Result<String, String>) -> (r: Result<String, CaptureError>)
    ensures
        outcome matches Ok(t) ==> r matches Ok(s) && s@ == t@,
        outcome is Err ==> r == Err::<String, CaptureError>(CaptureError::TranscriptionFailed),
{
    match outcome {
        Ok(t) => Ok(t),
        Err(_) => Err(CaptureError::TranscriptionFailed),
    }
}

/// Whether the temporary recording is deleted after the transcription
/// step: only on the success path.  On failure the file is left behind —
/// a latent resource leak of this design, kept here as the observable
/// behavior rather than silently changed.
pub fn should_delete_recording(transcription: &Result<String, CaptureError>) -> (b: bool)
    ensures
        b == (transcription is Ok),
{
    match transcription {
        Ok(_) => true,
        Err(_) => false,
    }
}

} // verus!
