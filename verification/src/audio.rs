//! The audio that goes into recognition: the samples of a WAVE file, which
//! the `hound` crate decodes, and the check that there are any.

use vstd::prelude::*;
use crate::pipeline::{JobError, JobErrorView};

verus! {

/// What `hound` reads from the bytes of a WAVE file as 16-bit samples: the
/// samples of all channels in the order of the file, or nothing where the
/// bytes are no such file.
pub uninterp spec fn wav_samples(bytes: Seq<u8>) -> Option<Seq<i16>>;

/// Decodes the bytes of a WAVE file with `hound::WavReader::new` and its
/// `samples::<i16>()`. The contract names what comes back and says nothing
/// of how `hound` decodes; on failure the string is `hound`'s description of
/// the error, of which nothing is claimed.
#[verifier::external_body]
fn decode_wav(bytes: &[u8]) -> (r: Result<Vec<i16>, String>)
    ensures
        r matches Ok(v) ==> wav_samples(bytes@) == Some(v@),
        r is Err ==> wav_samples(bytes@) is None,
{
    let mut reader = hound::WavReader::new(bytes).map_err(|e| format!("{:?}", e))?;
    let samples: Result<Vec<i16>, hound::Error> = reader.samples::<i16>().collect();
    samples.map_err(|e| format!("{:?}", e))
}

/// The check before inference: audio without samples is refused, and the
/// model is not run on it.
pub fn check_samples(count: usize) -> (r: Result<(), JobError>)
    ensures
        r is Ok <==> count > 0,
        r matches Err(e) ==> e@ == JobErrorView::EmptyInput,
{
    if count == 0 {
        Err(JobError::EmptyInput)
    } else {
        Ok(())
    }
}

/// The message for a WAVE file that cannot be read.
pub open spec fn unreadable_audio_message(description: Seq<char>) -> Seq<char> {
    "Failed to open WAV file: "@ + description
}

/// What the audio of a job is, given what the decoder made of the file: the
/// samples where there are any; an empty-input failure where the file holds
/// none; a filesystem failure, with the decoder's description, where the
/// file could not be decoded.
pub open spec fn audio_outcome(decoded: Result<Seq<i16>, Seq<char>>) -> Result<
    Seq<i16>,
    JobErrorView,
> {
    match decoded {
        Ok(samples) => if samples.len() > 0 {
            Ok(samples)
        } else {
            Err(JobErrorView::EmptyInput)
        },
        Err(description) => Err(
            JobErrorView::Filesystem { detail: unreadable_audio_message(description) },
        ),
    }
}

/// The plain values of a decoder's result.
pub open spec fn decoded_view(decoded: Result<Vec<i16>, String>) -> Result<Seq<i16>, Seq<char>> {
    match decoded {
        Ok(v) => Ok(v@),
        Err(e) => Err(e@),
    }
}

/// The plain values of the audio of a job.
pub open spec fn audio_view(audio: Result<Vec<i16>, JobError>) -> Result<Seq<i16>, JobErrorView> {
    match audio {
        Ok(v) => Ok(v@),
        Err(e) => Err(e@),
    }
}

/// Judges what the decoder made of a file.
pub fn audio_from(decoded: Result<Vec<i16>, String>) -> (r: Result<Vec<i16>, JobError>)
    ensures
        audio_view(r) == audio_outcome(decoded_view(decoded)),
{
    match decoded {
        Ok(samples) => match check_samples(samples.len()) {
            Ok(()) => Ok(samples),
            Err(e) => Err(e),
        },
        Err(description) => {
            let mut detail = String::new();
            detail.push_str("Failed to open WAV file: ");
            detail.push_str(description.as_str());
            Err(JobError::Filesystem { detail: detail })
        },
    }
}

/// Reads the samples of a WAVE file from its bytes: the samples that the
/// decoder names where it names any, an empty-input failure where it names
/// none, and a filesystem failure where it cannot decode the bytes.
pub fn read_audio(bytes: &[u8]) -> (r: Result<Vec<i16>, JobError>)
    ensures
        match wav_samples(bytes@) {
            Some(samples) => audio_view(r) == audio_outcome(Ok(samples)),
            None => r matches Err(JobError::Filesystem { .. }),
        },
{
    audio_from(decode_wav(bytes))
}

} // verus!
