//! Boundary types that channels produce and consume, and the outbound
//! message builder.
use vstd::prelude::*;

verus! {

/// Supported audio formats for voice messages.
#[derive(Debug, Clone, Copy, PartialEq, Eq, Structural)]
pub enum AudioFormat {
    /// OGG container with the Opus codec.
    OggOpus,
    Mp3,
    Wav,
    Webm,
}

/// The MIME type of each format.
pub open spec fn mime_type_of(f: AudioFormat) -> Seq<char> {
    match f {
        AudioFormat::OggOpus => "audio/ogg"@,
        AudioFormat::Mp3 => "audio/mpeg"@,
        AudioFormat::Wav => "audio/wav"@,
        AudioFormat::Webm => "audio/webm"@,
    }
}

/// The file extension of each format.
pub open spec fn extension_of(f: AudioFormat) -> Seq<char> {
    match f {
        AudioFormat::OggOpus => "ogg"@,
        AudioFormat::Mp3 => "mp3"@,
        AudioFormat::Wav => "wav"@,
        AudioFormat::Webm => "webm"@,
    }
}

impl AudioFormat {
    /// MIME type for this format.
    pub fn mime_type(&self) -> (r: &'static str)
        ensures
            r@ == mime_type_of(*self),
    {
        match self {
            AudioFormat::OggOpus => "audio/ogg",
            AudioFormat::Mp3 => "audio/mpeg",
            AudioFormat::Wav => "audio/wav",
            AudioFormat::Webm => "audio/webm",
        }
    }

    /// File extension for this format.
    pub fn extension(&self) -> (r: &'static str)
        ensures
            r@ == extension_of(*self),
    {
        match self {
            AudioFormat::OggOpus => "ogg",
            AudioFormat::Mp3 => "mp3",
            AudioFormat::Wav => "wav",
            AudioFormat::Webm => "webm",
        }
    }
}

/// Every format has a MIME type and an extension, neither of them empty, and
/// no two formats share either: the mapping is total and fixed.
pub proof fn lemma_format_names(f: AudioFormat, g: AudioFormat)
    ensures
        mime_type_of(f).len() > 0,
        extension_of(f).len() > 0,
        f != g ==> mime_type_of(f) != mime_type_of(g),
        f != g ==> extension_of(f) != extension_of(g),
{
    reveal_strlit("audio/ogg");
    reveal_strlit("audio/mpeg");
    reveal_strlit("audio/wav");
    reveal_strlit("audio/webm");
    reveal_strlit("ogg");
    reveal_strlit("mp3");
    reveal_strlit("wav");
    reveal_strlit("webm");
    if f != g {
        if mime_type_of(f) == mime_type_of(g) {
            assert(mime_type_of(f)[6] == mime_type_of(g)[6]);
            assert(mime_type_of(f).len() == mime_type_of(g).len());
        }
        if extension_of(f) == extension_of(g) {
            assert(extension_of(f)[0] == extension_of(g)[0]);
            assert(extension_of(f).len() == extension_of(g).len());
        }
    }
}

/// Audio data produced by text-to-speech synthesis.
#[derive(Debug, Clone)]
pub struct AudioOutput {
    pub data: Vec<u8>,
    pub format: AudioFormat,
    pub duration_ms: Option<u64>,
}

/// Voice attachment metadata extracted from an incoming message.
#[derive(Debug, Clone)]
pub struct VoiceAttachment {
    pub url: String,
    pub format: AudioFormat,
    pub duration_secs: Option<u32>,
}

/// Result of outgoing voice processing.
#[derive(Debug)]
pub enum VoiceOutput {
    /// Response includes synthesized audio.
    WithAudio { text: String, audio: AudioOutput },
    /// Response is text-only (no voice synthesis needed).
    TextOnly(String),
}

/// A message received from or sent to a channel.
#[derive(Debug, Clone)]
pub struct ChannelMessage {
    pub id: String,
    pub sender: String,
    pub reply_target: String,
    pub content: String,
    pub channel: String,
    pub timestamp: u64,
    /// Platform thread identifier; when set, replies go to that thread.
    pub thread_ts: Option<String>,
    /// Present when the incoming message is a voice/audio message.
    pub voice_attachment: Option<VoiceAttachment>,
}

/// Message to send through a channel.
#[derive(Debug, Clone)]
pub struct SendMessage {
    pub content: String,
    pub recipient: String,
    pub subject: Option<String>,
    /// Platform thread identifier for threaded replies.
    pub thread_ts: Option<String>,
}

impl SendMessage {
    /// Create a new message with content and recipient.
    pub fn new(content: &str, recipient: &str) -> (r: SendMessage)
        ensures
            r.content@ == content@,
            r.recipient@ == recipient@,
            r.subject is None,
            r.thread_ts is None,
    {
        SendMessage {
            content: content.to_owned(),
            recipient: recipient.to_owned(),
            subject: None,
            thread_ts: None,
        }
    }

    /// Create a new message with content, recipient, and subject.
    pub fn with_subject(content: &str, recipient: &str, subject: &str) -> (r: SendMessage)
        ensures
            r.content@ == content@,
            r.recipient@ == recipient@,
            r.subject matches Some(s) && s@ == subject@,
            r.thread_ts is None,
    {
        SendMessage {
            content: content.to_owned(),
            recipient: recipient.to_owned(),
            subject: Some(subject.to_owned()),
            thread_ts: None,
        }
    }

    /// Set the thread identifier for threaded replies.
    pub fn in_thread(self, thread_ts: Option<String>) -> (r: SendMessage)
        ensures
            r.content == self.content,
            r.recipient == self.recipient,
            r.subject == self.subject,
            r.thread_ts == thread_ts,
    {
        SendMessage { thread_ts, ..self }
    }
}

} // verus!
