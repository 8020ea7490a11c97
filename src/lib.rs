//! Voice support for messaging channels: the boundary types shared with
//! channels, the reply policy of the voice pipeline, the job-polling decisions
//! of the speech-to-text provider, the request building of the text-to-speech
//! provider, and the configuration rules that assemble a pipeline.

pub mod text;
pub mod channels;

pub use channels::{AudioFormat, AudioOutput, ChannelMessage, SendMessage, VoiceAttachment, VoiceOutput};
pub mod voice;
pub mod pipeline;

pub use voice::{AudioChunk, ReplyMode, TranscriptChunk, VoiceError, VoiceProfile};
pub use pipeline::{DefaultVoicePipeline, ResponseStep};
pub mod assemblyai;

pub use assemblyai::AssemblyAiStt;
pub mod inworld;

pub use inworld::{audio_format_to_inworld_encoding, InworldTts, TtsRequest};
pub mod config;

pub use config::{create_voice_pipeline, parse_audio_format, parse_reply_mode, PipelineParts, SttConfig, TtsConfig, VoiceConfig};
