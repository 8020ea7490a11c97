//! The single-call text-to-speech provider: credential detection, the request
//! it sends for a text and a voice profile, and the decoding of the audio it
//! returns. The HTTP call itself stands outside the library.
use vstd::prelude::*;
use vstd::string::{StrSliceExecFns, StringExecFns};
use base64::Engine;
use crate::channels::{AudioFormat, AudioOutput};
use crate::text::{contains_char, contains_char_spec};
use crate::voice::{VoiceError, VoiceProfile};

verus! {

pub const INWORLD_TTS_URL: &'static str = "https://api.inworld.ai/tts/v1/voice";

/// Maximum text length per request, in characters.
pub const MAX_TEXT_LENGTH: usize = 2000;

/// Default model.
pub const DEFAULT_MODEL: &'static str = "inworld-tts-1.5-max";

/// Default voice when none is configured.
pub const DEFAULT_VOICE: &'static str = "Dennis";

/// The text synthesized by a health check.
pub const HEALTH_CHECK_TEXT: &'static str = "ok";

/// `base64::DecodeError`, the error of `Engine::decode`, carried through
/// opaque: the library only tells it apart from success.
#[verifier::external_type_specification]
#[verifier::external_body]
pub struct ExDecodeError(base64::DecodeError);

/// The bytes that standard base64 decodes the text to, or `None` where it is
/// not valid standard base64.
pub uninterp spec fn base64_decoding(s: Seq<char>) -> Option<Seq<u8>>;

/// The standard base64 encoding (with padding) of the text's UTF-8 bytes.
pub uninterp spec fn base64_encoding(s: Seq<char>) -> Seq<char>;

/// Relies on `base64::Engine::decode` of the `STANDARD` engine: it decodes
/// the text's bytes, or fails where they are not valid standard base64.
#[verifier::external_body]
fn decode_base64(s: &str) -> (r: Result<Vec<u8>, base64::DecodeError>)
    ensures
        match r {
            Ok(v) => base64_decoding(s@) == Some(v@),
            Err(_) => base64_decoding(s@) is None,
        },
{
    base64::engine::general_purpose::STANDARD.decode(s)
}

/// Relies on `base64::Engine::encode` of the `STANDARD` engine: the padded
/// standard base64 encoding of the text's bytes.
#[verifier::external_body]
fn encode_base64(s: &str) -> (r: String)
    ensures
        r@ == base64_encoding(s@),
{
    base64::engine::general_purpose::STANDARD.encode(s)
}

/// The provider's name for each audio format: WAV is linear PCM, and WebM,
/// which the provider does not offer, falls back to MP3.
pub open spec fn inworld_encoding_of(f: AudioFormat) -> Seq<char> {
    match f {
        AudioFormat::OggOpus => "OGG_OPUS"@,
        AudioFormat::Mp3 => "MP3"@,
        AudioFormat::Wav => "LINEAR16"@,
        AudioFormat::Webm => "MP3"@,
    }
}

/// Map an `AudioFormat` to the provider's encoding names.
pub fn audio_format_to_inworld_encoding(format: AudioFormat) -> (r: &'static str)
    ensures
        r@ == inworld_encoding_of(format),
{
    match format {
        AudioFormat::OggOpus => "OGG_OPUS",
        AudioFormat::Mp3 => "MP3",
        AudioFormat::Wav => "LINEAR16",
        AudioFormat::Webm => "MP3",
    }
}

/// A key is taken as already encoded when it decodes as base64 and holds no
/// colon (a raw key is a `workspace_id:api_secret` pair).
pub open spec fn is_pre_encoded_spec(key: Seq<char>, decodes: bool) -> bool {
    decodes && !contains_char_spec(key, ':')
}

/// The credential sent for an API key: the key itself where it is already
/// encoded, otherwise its base64 encoding.
pub open spec fn credential_spec(key: Seq<char>) -> Seq<char> {
    if is_pre_encoded_spec(key, base64_decoding(key) is Some) {
        key
    } else {
        base64_encoding(key)
    }
}

/// Whether `key`, of which `decodes` tells whether it decodes as base64, is
/// used as the credential unchanged.
pub fn is_pre_encoded(key: &str, decodes: bool) -> (r: bool)
    ensures
        r == is_pre_encoded_spec(key@, decodes),
{
    decodes && !contains_char(key, ':')
}

/// The credential for Basic authentication, from either a pre-encoded
/// credential or a raw `workspace_id:api_secret` pair.
pub fn basic_credential(api_key: String) -> (r: String)
    ensures
        r@ == credential_spec(api_key@),
{
    let decodes = decode_base64(api_key.as_str()).is_ok();
    if is_pre_encoded(api_key.as_str(), decodes) {
        api_key
    } else {
        encode_base64(api_key.as_str())
    }
}

/// The text sent for synthesis: its first `MAX_TEXT_LENGTH` characters.
pub open spec fn truncated_spec(s: Seq<char>) -> Seq<char> {
    if s.len() > MAX_TEXT_LENGTH {
        s.subrange(0, MAX_TEXT_LENGTH as int)
    } else {
        s
    }
}

/// The outcome of decoding a synthesis payload that `decoded` holds.
pub open spec fn audio_outcome_ok(decoded: Option<Seq<u8>>, format: AudioFormat, r: Result<
    AudioOutput,
    VoiceError,
>) -> bool {
    match decoded {
        Some(bytes) => (r matches Ok(a) && a.data@ == bytes && a.format == format
            && a.duration_ms is None),
        None => r matches Err(VoiceError::AudioDecode),
    }
}

/// Package decoded audio bytes in `format`, or fail on a decode error. The
/// provider reports no duration.
pub fn audio_from_decoded(decoded: Result<Vec<u8>, base64::DecodeError>, format: AudioFormat) -> (r:
    Result<AudioOutput, VoiceError>)
    ensures
        audio_outcome_ok(
            match decoded {
                Ok(v) => Some(v@),
                Err(_) => None,
            },
            format,
            r,
        ),
{
    match decoded {
        Ok(data) => Ok(AudioOutput { data, format, duration_ms: None }),
        Err(_) => Err(VoiceError::AudioDecode),
    }
}

/// Decode the base64 audio payload of a synthesis response.
pub fn decode_audio(audio_content: &str, format: AudioFormat) -> (r: Result<AudioOutput, VoiceError>)
    ensures
        audio_outcome_ok(base64_decoding(audio_content@), format, r),
{
    audio_from_decoded(decode_base64(audio_content), format)
}

/// One synthesis request, ready to be sent as the provider's JSON body with
/// the given `authorization` header.
#[derive(Debug, Clone)]
pub struct TtsRequest {
    pub text: String,
    pub voice_id: String,
    pub model_id: String,
    pub audio_encoding: &'static str,
    pub authorization: String,
}

/// Text-to-speech provider settings: the resolved credential, the default
/// voice and the model.
#[derive(Debug, Clone)]
pub struct InworldTts {
    /// Base64-encoded credential for Basic authentication.
    pub api_credential: String,
    /// Voice used when a profile names none.
    pub default_voice: String,
    /// Model identifier.
    pub model: String,
}

impl InworldTts {
    /// `api_key` may be a pre-encoded base64 credential or a raw
    /// `workspace_id:api_secret` pair, which is encoded here.
    pub fn new(api_key: String, default_voice: Option<String>, model: Option<String>) -> (r:
        InworldTts)
        ensures
            r.api_credential@ == credential_spec(api_key@),
            r.default_voice@ == match default_voice {
                Some(v) => v@,
                None => DEFAULT_VOICE@,
            },
            r.model@ == match model {
                Some(m) => m@,
                None => DEFAULT_MODEL@,
            },
    {
        let default_voice = match default_voice {
            Some(v) => v,
            None => DEFAULT_VOICE.to_owned(),
        };
        let model = match model {
            Some(m) => m,
            None => DEFAULT_MODEL.to_owned(),
        };
        InworldTts { api_credential: basic_credential(api_key), default_voice, model }
    }

    /// Human-readable provider name.
    pub fn name(&self) -> (r: &'static str)
        ensures
            r@ == "inworld"@,
    {
        "inworld"
    }

    /// The request that synthesizes `text` with `profile`: empty text is
    /// refused; longer text is cut to its first `MAX_TEXT_LENGTH` characters;
    /// the profile's voice is used, or the default voice.
    pub fn synthesis_request(&self, text: &str, profile: &VoiceProfile) -> (r: Result<
        TtsRequest,
        VoiceError,
    >)
        ensures
            text@.len() == 0 ==> r matches Err(VoiceError::EmptyText),
            text@.len() > 0 ==> (r matches Ok(q) && q.text@ == truncated_spec(text@)
                && q.voice_id@ == match profile.voice_id {
                Some(v) => v@,
                None => self.default_voice@,
            } && q.model_id@ == self.model@ && q.audio_encoding@ == inworld_encoding_of(
                profile.output_format,
            ) && q.authorization@ == "Basic "@ + self.api_credential@),
    {
        let n = text.unicode_len();
        if n == 0 {
            return Err(VoiceError::EmptyText);
        }
        let sent = if n > MAX_TEXT_LENGTH {
            text.substring_char(0, MAX_TEXT_LENGTH)
        } else {
            text
        };
        let voice_id = match &profile.voice_id {
            Some(v) => v.clone(),
            None => self.default_voice.clone(),
        };
        let mut authorization = String::from_str("Basic ");
        authorization.append(self.api_credential.as_str());
        Ok(
            TtsRequest {
                text: sent.to_owned(),
                voice_id,
                model_id: self.model.clone(),
                audio_encoding: audio_format_to_inworld_encoding(profile.output_format),
                authorization,
            },
        )
    }

    /// The profile that a health check synthesizes `HEALTH_CHECK_TEXT` with:
    /// the default voice, in MP3.
    pub fn health_profile(&self) -> (r: VoiceProfile)
        ensures
            r.voice_id matches Some(v) && v@ == self.default_voice@,
            r.output_format == AudioFormat::Mp3,
            r.speed_percent is None,
    {
        VoiceProfile {
            voice_id: Some(self.default_voice.clone()),
            output_format: AudioFormat::Mp3,
            speed_percent: None,
        }
    }
}

} // verus!
