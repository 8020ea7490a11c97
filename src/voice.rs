//! Value types of the voice pipeline and its error type.
use vstd::prelude::*;
use crate::channels::AudioFormat;

verus! {

/// How the pipeline decides whether to reply with voice.
#[derive(Debug, Clone, Copy, PartialEq, Eq, Structural)]
pub enum ReplyMode {
    /// Always reply with a voice message.
    VoiceOnly,
    /// Reply with both text and voice.
    TextAndVoice,
    /// Mirror the input: voice replies to voice, text to text.
    MatchInput,
}

/// Configuration for voice synthesis.
#[derive(Debug, Clone)]
pub struct VoiceProfile {
    /// Provider-specific voice/character identifier; `None` means the
    /// provider's default voice.
    pub voice_id: Option<String>,
    /// Target audio format for the output.
    pub output_format: AudioFormat,
    /// Speech rate in hundredths of the normal rate (100 = normal).
    pub speed_percent: Option<u32>,
}

impl VoiceProfile {
    /// A copy of this profile, equal to it field by field.
    pub fn duplicate(&self) -> (r: VoiceProfile)
        ensures
            r == *self,
    {
        let voice_id = match &self.voice_id {
            Some(v) => Some(v.clone()),
            None => None,
        };
        VoiceProfile { voice_id, output_format: self.output_format, speed_percent: self.speed_percent }
    }
}

/// Incremental speech-to-text result from a streaming transcription.
#[derive(Debug, Clone)]
pub struct TranscriptChunk {
    pub text: String,
    /// Whether this chunk represents a finalized segment.
    pub is_final: bool,
}

/// Incremental audio chunk from a streaming synthesis.
#[derive(Debug, Clone)]
pub struct AudioChunk {
    pub data: Vec<u8>,
    pub format: AudioFormat,
    /// Monotonically increasing sequence number within a stream.
    pub sequence: u32,
}

/// Failures of the voice pipeline, its providers and its configuration.
#[derive(Debug, Clone)]
pub enum VoiceError {
    /// A configured audio format name that is not recognised (lower-cased).
    UnknownAudioFormat(String),
    /// A configured reply mode name that is not recognised (lower-cased).
    UnknownReplyMode(String),
    /// The configured speech-to-text provider is not supported.
    UnsupportedSttProvider(String),
    /// The configured text-to-speech provider is not supported.
    UnsupportedTtsProvider(String),
    /// No API key inline and none in the named environment variable.
    MissingApiKey(String),
    /// Text-to-speech was asked to synthesize empty text.
    EmptyText,
    /// Speech-to-text produced empty or all-white-space text.
    EmptyTranscription,
    /// The synthesized audio payload was not valid base64.
    AudioDecode,
    /// The transcription job reported an error, with the provider's detail.
    TranscriptionFailed(String),
    /// The transcription job did not finish within the given seconds.
    TranscriptionTimedOut(u64),
}

} // verus!
