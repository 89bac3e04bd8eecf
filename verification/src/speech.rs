//! Transcription models on disk and the settings of a transcription.

use crate::audio_loopback::audio_processor::{decode_pcm16, spec_decode_pcm16};
use crate::audio_loopback::encoding::{
    base64_decode, base64_standard, is_base64, DecodeFailure,
};
use crate::text::same_text;
use vstd::prelude::*;
use vstd::string::StringExecFns;

verus! {

/// A model file of no more than this many bytes cannot be whole.
pub const MIN_MODEL_BYTES: u64 = 1_000_000;

/// The name of the file that holds a model of the given size.
pub open spec fn spec_model_file_name(model_size: Seq<char>) -> Seq<char> {
    "ggml-"@ + model_size + ".bin"@
}

/// The name of the file that holds a model of the given size.
pub fn model_file_name(model_size: &str) -> (r: String)
    ensures
        r@ == spec_model_file_name(model_size@),
{
    String::from_str("ggml-").concat(model_size).concat(".bin")
}

/// The address from which a model of the given size is fetched.
pub fn model_url(model_size: &str) -> (r: String)
    ensures
        r@ == "https://huggingface.co/ggerganov/whisper.cpp/resolve/main/"@ + spec_model_file_name(
            model_size@,
        ),
{
    let r = String::from_str("https://huggingface.co/ggerganov/whisper.cpp/resolve/main/").concat(
        "ggml-",
    ).concat(model_size).concat(".bin");
    assert(r@ =~= "https://huggingface.co/ggerganov/whisper.cpp/resolve/main/"@
        + spec_model_file_name(model_size@));
    r
}

/// Whether a model file can be whole: it has more than a megabyte. `len` is
/// `None` for a file that is not there.
pub fn is_valid_model_file(len: Option<u64>) -> (r: bool)
    ensures
        r == (len matches Some(n) && n > MIN_MODEL_BYTES),
{
    match len {
        Some(n) => n > MIN_MODEL_BYTES,
        None => false,
    }
}

/// Whether a model has to be fetched: its file is not there or cannot be
/// whole.
pub fn needs_download(len: Option<u64>) -> (r: bool)
    ensures
        r == !(len matches Some(n) && n > MIN_MODEL_BYTES),
{
    !is_valid_model_file(len)
}

/// Whether the samples are those of audio that arrives for transcription:
/// the text is the base64 of bytes that hold them as signed 16-bit
/// little-endian integers.
pub open spec fn are_audio_samples(audio_data: Seq<char>, samples: Seq<i32>) -> bool {
    exists|bytes: Seq<u8>|
        #[trigger] base64_standard(bytes) == audio_data && samples == spec_decode_pcm16(bytes)
}

/// Decodes audio that arrives for transcription. The samples are integers;
/// divided by 32768 they are the signal. A text that is no base64 is
/// refused.
pub fn decode_audio_base64(audio_data: &str) -> (r: Result<Vec<i32>, DecodeFailure>)
    ensures
        match r {
            Ok(samples) => are_audio_samples(audio_data@, samples@),
            Err(_) => !is_base64(audio_data@),
        },
{
    match base64_decode(audio_data) {
        Ok(bytes) => {
            let samples = decode_pcm16(bytes.as_slice());
            assert(base64_standard(bytes@) == audio_data@ && samples@ == spec_decode_pcm16(bytes@));
            Ok(samples)
        },
        Err(e) => Err(e),
    }
}

/// The samples of a file of raw audio: signed 16-bit little-endian samples,
/// an odd last byte left out.
pub fn load_audio_file(file_bytes: &[u8]) -> (r: Vec<i32>)
    ensures
        r@ == spec_decode_pcm16(file_bytes@),
{
    decode_pcm16(file_bytes)
}

/// The language to transcribe in, or `None` to have it detected: a language
/// that is set, is not empty and is not `auto`.
pub open spec fn spec_language(language: Option<Seq<char>>) -> Option<Seq<char>> {
    match language {
        Some(l) => if l == "auto"@ || l.len() == 0 {
            None
        } else {
            Some(l)
        },
        None => None,
    }
}

/// The language to transcribe in, or `None` to have it detected.
pub fn transcription_language<'a>(language: Option<&'a str>) -> (r: Option<&'a str>)
    ensures
        match r {
            Some(l) => spec_language(
                match language {
                    Some(x) => Some(x@),
                    None => None,
                },
            ) == Some(l@),
            None => spec_language(
                match language {
                    Some(x) => Some(x@),
                    None => None,
                },
            ) is None,
        },
{
    match language {
        Some(l) => {
            if same_text(l, "auto") || l.is_empty() {
                None
            } else {
                Some(l)
            }
        },
        None => None,
    }
}

} // verus!
