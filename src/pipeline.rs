//! The default voice pipeline: when to answer with voice, and which
//! transcripts to accept.
use vstd::prelude::*;
use crate::channels::{AudioOutput, VoiceOutput};
use crate::text::{is_blank, is_blank_spec};
use crate::voice::{ReplyMode, VoiceError, VoiceProfile};

verus! {

/// Whether a reply is voiced under `mode`, given whether the input was voice.
pub open spec fn should_voice_spec(mode: ReplyMode, was_voice_input: bool) -> bool {
    match mode {
        ReplyMode::VoiceOnly | ReplyMode::TextAndVoice => true,
        ReplyMode::MatchInput => was_voice_input,
    }
}

/// The next step of answering with `text`: either the finished output, or a
/// synthesis of that text with that profile, whose audio `with_audio` then
/// packages.
#[derive(Debug)]
pub enum ResponseStep {
    Done(VoiceOutput),
    Synthesize { text: String, profile: VoiceProfile },
}

/// Batch-mode pipeline policy: the voice profile handed to synthesis and the
/// reply mode.
#[derive(Debug, Clone)]
pub struct DefaultVoicePipeline {
    pub voice_profile: VoiceProfile,
    pub reply_mode: ReplyMode,
}

impl DefaultVoicePipeline {
    pub fn new(voice_profile: VoiceProfile, reply_mode: ReplyMode) -> (r: DefaultVoicePipeline)
        ensures
            r.voice_profile == voice_profile,
            r.reply_mode == reply_mode,
    {
        DefaultVoicePipeline { voice_profile, reply_mode }
    }

    /// Human-readable pipeline name.
    pub fn name(&self) -> (r: &'static str)
        ensures
            r@ == "default"@,
    {
        "default"
    }

    /// Whether this pipeline supports streaming audio; the batch pipeline
    /// does not.
    pub fn supports_streaming(&self) -> (r: bool)
        ensures
            !r,
    {
        false
    }

    /// Whether a reply to an input (voice or not) is voiced.
    pub fn should_voice(&self, was_voice_input: bool) -> (r: bool)
        ensures
            r == should_voice_spec(self.reply_mode, was_voice_input),
    {
        match self.reply_mode {
            ReplyMode::VoiceOnly | ReplyMode::TextAndVoice => true,
            ReplyMode::MatchInput => was_voice_input,
        }
    }

    /// First step of answering with `text`: text only when the reply mode
    /// does not call for voice, otherwise a synthesis of the text with the
    /// configured profile.
    pub fn plan_response(&self, text: &str, was_voice_input: bool) -> (r: ResponseStep)
        ensures
            should_voice_spec(self.reply_mode, was_voice_input) ==> (r matches
                ResponseStep::Synthesize { text: t, profile } && t@ == text@ && profile
                == self.voice_profile),
            !should_voice_spec(self.reply_mode, was_voice_input) ==> (r matches
                ResponseStep::Done(VoiceOutput::TextOnly(t)) && t@ == text@),
    {
        if self.should_voice(was_voice_input) {
            ResponseStep::Synthesize { text: text.to_owned(), profile: self.voice_profile.duplicate() }
        } else {
            ResponseStep::Done(VoiceOutput::TextOnly(text.to_owned()))
        }
    }

    /// Accept the text of a transcript, refusing one that is empty or all
    /// white space.
    pub fn accept_transcript(text: String) -> (r: Result<String, VoiceError>)
        ensures
            is_blank_spec(text@) ==> r matches Err(VoiceError::EmptyTranscription),
            !is_blank_spec(text@) ==> r == Ok::<String, VoiceError>(text),
    {
        if is_blank(text.as_str()) {
            Err(VoiceError::EmptyTranscription)
        } else {
            Ok(text)
        }
    }
}

/// Under `VoiceOnly` and `TextAndVoice` every reply is voiced, whatever the
/// input was; under `MatchInput` exactly the replies to voice input are.
pub proof fn lemma_reply_policy(was_voice_input: bool)
    ensures
        should_voice_spec(ReplyMode::VoiceOnly, was_voice_input),
        should_voice_spec(ReplyMode::TextAndVoice, was_voice_input),
        should_voice_spec(ReplyMode::MatchInput, was_voice_input) == was_voice_input,
{
}

/// Package a response text with its synthesized audio.
pub fn with_audio(text: &str, audio: AudioOutput) -> (r: VoiceOutput)
    ensures
        r matches VoiceOutput::WithAudio { text: t, audio: a } && t@ == text@ && a == audio,
{
    VoiceOutput::WithAudio { text: text.to_owned(), audio }
}

} // verus!
