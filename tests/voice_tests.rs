use voice_channels::assemblyai::{
    check_deadline, job_status, poll_deadline_ms, poll_step, JobStatus, PollStep,
    POLL_INTERVAL_MS, TRANSCRIPTION_TIMEOUT_SECS,
};
use voice_channels::config::{
    key_env_name, resolve_api_key, ASSEMBLYAI_KEY_ENV, INWORLD_KEY_ENV,
};
use voice_channels::inworld::{
    audio_from_decoded, basic_credential, decode_audio, is_pre_encoded, MAX_TEXT_LENGTH,
};
use voice_channels::pipeline::with_audio;
use voice_channels::{
    audio_format_to_inworld_encoding, create_voice_pipeline, parse_audio_format,
    parse_reply_mode, AssemblyAiStt, AudioFormat, AudioOutput, DefaultVoicePipeline,
    InworldTts, ReplyMode, ResponseStep, VoiceConfig, VoiceError, VoiceOutput, VoiceProfile,
};

fn profile(voice_id: Option<&str>, format: AudioFormat) -> VoiceProfile {
    VoiceProfile {
        voice_id: voice_id.map(|v| v.to_string()),
        output_format: format,
        speed_percent: None,
    }
}

fn make_pipeline(reply_mode: ReplyMode) -> DefaultVoicePipeline {
    DefaultVoicePipeline::new(profile(None, AudioFormat::OggOpus), reply_mode)
}

/// Runs a response through the pipeline with a synthesizer that returns the
/// text's bytes as audio.
fn respond(pipeline: &DefaultVoicePipeline, text: &str, was_voice: bool) -> VoiceOutput {
    match pipeline.plan_response(text, was_voice) {
        ResponseStep::Done(out) => out,
        ResponseStep::Synthesize { text: t, profile: _ } => with_audio(
            &t,
            AudioOutput {
                data: t.as_bytes().to_vec(),
                format: AudioFormat::OggOpus,
                duration_ms: Some(1000),
            },
        ),
    }
}

fn enabled_config() -> VoiceConfig {
    let mut c = VoiceConfig::default();
    c.enabled = true;
    c.stt.api_key = Some("stt-key".to_string());
    c.tts.api_key = Some("ws:secret".to_string());
    c
}

#[test]
fn assemblyai_stt_name() {
    let stt = AssemblyAiStt::new("test-key".into());
    assert_eq!(stt.name(), "assemblyai");
}

#[test]
fn assemblyai_auth_header_carries_raw_key() {
    let stt = AssemblyAiStt::new("test-key".into());
    assert_eq!(stt.auth_header(), ("authorization", "test-key"));
}

#[test]
fn inworld_tts_name() {
    let tts = InworldTts::new("test-key".into(), None, None);
    assert_eq!(tts.name(), "inworld");
}

#[test]
fn audio_format_mapping() {
    assert_eq!(audio_format_to_inworld_encoding(AudioFormat::OggOpus), "OGG_OPUS");
    assert_eq!(audio_format_to_inworld_encoding(AudioFormat::Mp3), "MP3");
    assert_eq!(audio_format_to_inworld_encoding(AudioFormat::Wav), "LINEAR16");
}

#[test]
fn webm_falls_back_to_mp3() {
    assert_eq!(audio_format_to_inworld_encoding(AudioFormat::Webm), "MP3");
}

#[test]
fn default_voice_and_model() {
    let tts = InworldTts::new("key".into(), None, None);
    assert_eq!(tts.default_voice, "Dennis");
    assert_eq!(tts.model, "inworld-tts-1.5-max");
}

#[test]
fn custom_voice_and_model() {
    let tts = InworldTts::new("key".into(), Some("Celeste".into()), Some("tts-1".into()));
    assert_eq!(tts.default_voice, "Celeste");
    assert_eq!(tts.model, "tts-1");
}

#[test]
fn raw_key_pair_is_base64_encoded() {
    assert_eq!(basic_credential("ws:secret".to_string()), "d3M6c2VjcmV0");
    assert_eq!(basic_credential("test-key".to_string()), "dGVzdC1rZXk=");
    let tts = InworldTts::new("ws:secret".into(), None, None);
    assert_eq!(tts.api_credential, "d3M6c2VjcmV0");
}

#[test]
fn pre_encoded_key_is_kept() {
    assert_eq!(basic_credential("d3M6c2VjcmV0".to_string()), "d3M6c2VjcmV0");
    assert!(is_pre_encoded("abcd", true));
    assert!(!is_pre_encoded("ab:cd", true));
    assert!(!is_pre_encoded("abcd", false));
}

#[test]
fn parse_audio_format_variants() {
    assert_eq!(parse_audio_format("ogg_opus").unwrap(), AudioFormat::OggOpus);
    assert_eq!(parse_audio_format("mp3").unwrap(), AudioFormat::Mp3);
    assert_eq!(parse_audio_format("wav").unwrap(), AudioFormat::Wav);
    assert!(parse_audio_format("unknown").is_err());
}

#[test]
fn parse_audio_format_ignores_case_and_accepts_synonyms() {
    assert_eq!(parse_audio_format("OGG").unwrap(), AudioFormat::OggOpus);
    assert_eq!(parse_audio_format("Opus").unwrap(), AudioFormat::OggOpus);
    assert_eq!(parse_audio_format("MP3").unwrap(), AudioFormat::Mp3);
    assert_eq!(parse_audio_format("WebM").unwrap(), AudioFormat::Webm);
    match parse_audio_format("FLAC") {
        Err(VoiceError::UnknownAudioFormat(name)) => assert_eq!(name, "flac"),
        other => panic!("unexpected {:?}", other),
    }
}

#[test]
fn parse_reply_mode_variants() {
    assert_eq!(parse_reply_mode("match_input").unwrap(), ReplyMode::MatchInput);
    assert_eq!(parse_reply_mode("voice_only").unwrap(), ReplyMode::VoiceOnly);
    assert!(parse_reply_mode("bad").is_err());
}

#[test]
fn parse_reply_mode_ignores_case() {
    assert_eq!(parse_reply_mode("Text_And_Voice").unwrap(), ReplyMode::TextAndVoice);
    match parse_reply_mode("Loud") {
        Err(VoiceError::UnknownReplyMode(name)) => assert_eq!(name, "loud"),
        other => panic!("unexpected {:?}", other),
    }
}

#[test]
fn create_pipeline_disabled() {
    let config = VoiceConfig::default();
    let result = create_voice_pipeline(&config, None, None).unwrap();
    assert!(result.is_none());
}

#[test]
fn disabled_pipeline_ignores_other_settings() {
    let mut config = VoiceConfig::default();
    config.stt.provider = "nobody".to_string();
    config.reply_mode = Some("bad".to_string());
    assert!(create_voice_pipeline(&config, None, None).unwrap().is_none());
}

#[test]
fn create_pipeline_builds_parts() {
    let mut config = enabled_config();
    config.tts.voice_id = Some("Celeste".to_string());
    config.tts.output_format = Some("MP3".to_string());
    config.reply_mode = Some("voice_only".to_string());
    let parts = create_voice_pipeline(&config, None, None).unwrap().unwrap();
    assert_eq!(parts.stt.api_key, "stt-key");
    assert_eq!(parts.tts.api_credential, "d3M6c2VjcmV0");
    assert_eq!(parts.tts.default_voice, "Celeste");
    assert_eq!(parts.tts.model, "inworld-tts-1.5-max");
    assert_eq!(parts.pipeline.voice_profile.voice_id.as_deref(), Some("Celeste"));
    assert_eq!(parts.pipeline.voice_profile.output_format, AudioFormat::Mp3);
    assert_eq!(parts.pipeline.reply_mode, ReplyMode::VoiceOnly);
}

#[test]
fn create_pipeline_defaults_format_and_mode() {
    let parts = create_voice_pipeline(&enabled_config(), None, None).unwrap().unwrap();
    assert_eq!(parts.pipeline.voice_profile.output_format, AudioFormat::OggOpus);
    assert_eq!(parts.pipeline.reply_mode, ReplyMode::MatchInput);
    assert_eq!(parts.tts.default_voice, "Dennis");
}

#[test]
fn create_pipeline_rejects_unknown_providers() {
    let mut config = enabled_config();
    config.stt.provider = "whisper".to_string();
    match create_voice_pipeline(&config, None, None) {
        Err(VoiceError::UnsupportedSttProvider(p)) => assert_eq!(p, "whisper"),
        other => panic!("unexpected {:?}", other),
    }
    let mut config = enabled_config();
    config.tts.provider = "polly".to_string();
    match create_voice_pipeline(&config, None, None) {
        Err(VoiceError::UnsupportedTtsProvider(p)) => assert_eq!(p, "polly"),
        other => panic!("unexpected {:?}", other),
    }
}

#[test]
fn create_pipeline_rejects_bad_format_and_mode() {
    let mut config = enabled_config();
    config.tts.output_format = Some("aiff".to_string());
    assert!(matches!(
        create_voice_pipeline(&config, None, None),
        Err(VoiceError::UnknownAudioFormat(_))
    ));
    let mut config = enabled_config();
    config.reply_mode = Some("shout".to_string());
    assert!(matches!(
        create_voice_pipeline(&config, None, None),
        Err(VoiceError::UnknownReplyMode(_))
    ));
}

#[test]
fn create_pipeline_names_missing_key_variable() {
    let mut config = enabled_config();
    config.tts.api_key = None;
    match create_voice_pipeline(&config, None, None) {
        Err(VoiceError::MissingApiKey(var)) => assert_eq!(var, INWORLD_KEY_ENV),
        other => panic!("unexpected {:?}", other),
    }
    let mut config = enabled_config();
    config.stt.api_key = None;
    match create_voice_pipeline(&config, None, Some("x".to_string())) {
        Err(VoiceError::MissingApiKey(var)) => assert_eq!(var, ASSEMBLYAI_KEY_ENV),
        other => panic!("unexpected {:?}", other),
    }
    let parts = create_voice_pipeline(&config, Some("from-env".to_string()), None)
        .unwrap()
        .unwrap();
    assert_eq!(parts.stt.api_key, "from-env");
}

#[test]
fn inline_key_takes_priority_over_environment() {
    let inline = Some("inline".to_string());
    let r = resolve_api_key(&inline, &None, "INWORLD_API_KEY", Some("env".to_string()));
    assert_eq!(r.unwrap(), "inline");
}

#[test]
fn environment_key_used_without_inline_key() {
    let r = resolve_api_key(&None, &None, "INWORLD_API_KEY", Some("env".to_string()));
    assert_eq!(r.unwrap(), "env");
    let empty = Some(String::new());
    let r = resolve_api_key(&empty, &None, "INWORLD_API_KEY", Some("env".to_string()));
    assert_eq!(r.unwrap(), "env");
}

#[test]
fn missing_key_names_expected_variable() {
    match resolve_api_key(&None, &None, "INWORLD_API_KEY", None) {
        Err(VoiceError::MissingApiKey(var)) => assert_eq!(var, "INWORLD_API_KEY"),
        other => panic!("unexpected {:?}", other),
    }
    let custom = Some("MY_TTS_KEY".to_string());
    assert_eq!(key_env_name(&custom, "INWORLD_API_KEY"), "MY_TTS_KEY");
    assert_eq!(key_env_name(&None, "INWORLD_API_KEY"), "INWORLD_API_KEY");
    match resolve_api_key(&None, &custom, "INWORLD_API_KEY", None) {
        Err(VoiceError::MissingApiKey(var)) => assert_eq!(var, "MY_TTS_KEY"),
        other => panic!("unexpected {:?}", other),
    }
}

#[test]
fn synthesize_response_match_input_voice() {
    let pipeline = make_pipeline(ReplyMode::MatchInput);
    let result = respond(&pipeline, "test response", true);
    assert!(matches!(result, VoiceOutput::WithAudio { .. }));
}

#[test]
fn synthesize_response_match_input_text() {
    let pipeline = make_pipeline(ReplyMode::MatchInput);
    let result = respond(&pipeline, "test response", false);
    assert!(matches!(result, VoiceOutput::TextOnly(_)));
}

#[test]
fn synthesize_response_voice_only_always_voices() {
    let pipeline = make_pipeline(ReplyMode::VoiceOnly);
    let result = respond(&pipeline, "test", false);
    assert!(matches!(result, VoiceOutput::WithAudio { .. }));
}

#[test]
fn match_input_on_x_gives_audio_or_text() {
    let pipeline = make_pipeline(ReplyMode::MatchInput);
    match respond(&pipeline, "x", true) {
        VoiceOutput::WithAudio { text, audio } => {
            assert_eq!(text, "x");
            assert_eq!(audio.data, b"x".to_vec());
        }
        other => panic!("unexpected {:?}", other),
    }
    match respond(&pipeline, "x", false) {
        VoiceOutput::TextOnly(text) => assert_eq!(text, "x"),
        other => panic!("unexpected {:?}", other),
    }
}

#[test]
fn text_and_voice_always_voices_with_profile() {
    let pipeline = DefaultVoicePipeline::new(profile(Some("Celeste"), AudioFormat::Wav), ReplyMode::TextAndVoice);
    assert!(pipeline.should_voice(false));
    assert!(pipeline.should_voice(true));
    match pipeline.plan_response("hi", false) {
        ResponseStep::Synthesize { text, profile } => {
            assert_eq!(text, "hi");
            assert_eq!(profile.voice_id.as_deref(), Some("Celeste"));
            assert_eq!(profile.output_format, AudioFormat::Wav);
        }
        other => panic!("unexpected {:?}", other),
    }
    assert_eq!(pipeline.name(), "default");
    assert!(!pipeline.supports_streaming());
}

#[test]
fn transcript_text_is_returned_exactly() {
    let r = DefaultVoicePipeline::accept_transcript("hello world".to_string());
    assert_eq!(r.unwrap(), "hello world");
    let r = DefaultVoicePipeline::accept_transcript("  padded  ".to_string());
    assert_eq!(r.unwrap(), "  padded  ");
}

#[test]
fn blank_transcripts_are_refused() {
    for text in ["", " ", " \t\r\n ", "\u{3000}\u{a0}\u{2009}"] {
        let r = DefaultVoicePipeline::accept_transcript(text.to_string());
        assert!(matches!(r, Err(VoiceError::EmptyTranscription)), "{:?}", text);
    }
}

#[test]
fn job_statuses_are_classified() {
    assert_eq!(job_status("completed"), JobStatus::Completed);
    assert_eq!(job_status("error"), JobStatus::Error);
    assert_eq!(job_status("queued"), JobStatus::Pending);
    assert_eq!(job_status("processing"), JobStatus::Pending);
    assert_eq!(job_status("Completed"), JobStatus::Pending);
}

#[test]
fn failed_job_reports_detail() {
    match poll_step("error", Some("bad audio".to_string())) {
        PollStep::Failed(VoiceError::TranscriptionFailed(d)) => assert_eq!(d, "bad audio"),
        other => panic!("unexpected {:?}", other),
    }
    match poll_step("error", None) {
        PollStep::Failed(VoiceError::TranscriptionFailed(d)) => assert_eq!(d, "unknown error"),
        other => panic!("unexpected {:?}", other),
    }
    assert!(matches!(poll_step("completed", None), PollStep::Finished));
    assert!(matches!(poll_step("queued", None), PollStep::Wait));
}

#[test]
fn deadline_is_inclusive() {
    let deadline = poll_deadline_ms(5_000).unwrap();
    assert_eq!(deadline, 125_000);
    assert!(check_deadline(125_000, deadline).is_ok());
    assert!(matches!(
        check_deadline(125_001, deadline),
        Err(VoiceError::TranscriptionTimedOut(120))
    ));
    assert_eq!(poll_deadline_ms(u64::MAX), None);
}

#[test]
fn job_stuck_processing_times_out() {
    // The job reports "processing" for 200 s; the loop polls every interval
    // and must stop with a timeout, not a transcript.
    let start: u64 = 0;
    let deadline = poll_deadline_ms(start).unwrap();
    let mut now = start;
    let mut polls = 0;
    let outcome = loop {
        if let Err(e) = check_deadline(now, deadline) {
            break Err(e);
        }
        let status = if now < 200_000 { "processing" } else { "completed" };
        polls += 1;
        match poll_step(status, None) {
            PollStep::Finished => break Ok(()),
            PollStep::Failed(e) => break Err(e),
            PollStep::Wait => now += POLL_INTERVAL_MS,
        }
    };
    assert!(matches!(outcome, Err(VoiceError::TranscriptionTimedOut(s)) if s == TRANSCRIPTION_TIMEOUT_SECS));
    assert!(now > 120_000 && now < 200_000);
    assert_eq!(polls, 81);
}

#[test]
fn long_text_is_truncated_to_ceiling() {
    let tts = InworldTts::new("ws:secret".into(), None, None);
    let text = "a".repeat(2500);
    let req = tts.synthesis_request(&text, &profile(None, AudioFormat::OggOpus)).unwrap();
    assert_eq!(req.text.chars().count(), MAX_TEXT_LENGTH);
    assert_eq!(req.text, "a".repeat(2000));
}

#[test]
fn truncation_counts_characters() {
    let tts = InworldTts::new("ws:secret".into(), None, None);
    let text = "é".repeat(2001);
    let req = tts.synthesis_request(&text, &profile(None, AudioFormat::Mp3)).unwrap();
    assert_eq!(req.text, "é".repeat(2000));
    let short = "ü".repeat(1500);
    let req = tts.synthesis_request(&short, &profile(None, AudioFormat::Mp3)).unwrap();
    assert_eq!(req.text, short);
}

#[test]
fn synthesis_request_fields() {
    let tts = InworldTts::new("ws:secret".into(), None, Some("tts-1".into()));
    let req = tts.synthesis_request("hello", &profile(None, AudioFormat::Wav)).unwrap();
    assert_eq!(req.text, "hello");
    assert_eq!(req.voice_id, "Dennis");
    assert_eq!(req.model_id, "tts-1");
    assert_eq!(req.audio_encoding, "LINEAR16");
    assert_eq!(req.authorization, "Basic d3M6c2VjcmV0");
    let req = tts.synthesis_request("hello", &profile(Some("Celeste"), AudioFormat::Webm)).unwrap();
    assert_eq!(req.voice_id, "Celeste");
    assert_eq!(req.audio_encoding, "MP3");
}

#[test]
fn empty_text_is_refused() {
    let tts = InworldTts::new("ws:secret".into(), None, None);
    let r = tts.synthesis_request("", &profile(None, AudioFormat::Mp3));
    assert!(matches!(r, Err(VoiceError::EmptyText)));
}

#[test]
fn health_profile_uses_default_voice_in_mp3() {
    let tts = InworldTts::new("k".into(), Some("Celeste".into()), None);
    let p = tts.health_profile();
    assert_eq!(p.voice_id.as_deref(), Some("Celeste"));
    assert_eq!(p.output_format, AudioFormat::Mp3);
    assert!(p.speed_percent.is_none());
}

#[test]
fn audio_payload_is_decoded() {
    let a = decode_audio("aGVsbG8=", AudioFormat::Mp3).unwrap();
    assert_eq!(a.data, b"hello".to_vec());
    assert_eq!(a.format, AudioFormat::Mp3);
    assert!(a.duration_ms.is_none());
}

#[test]
fn malformed_audio_payload_fails() {
    assert!(matches!(decode_audio("not base64!", AudioFormat::Mp3), Err(VoiceError::AudioDecode)));
    let r = audio_from_decoded(Err(base64::DecodeError::InvalidPadding), AudioFormat::Wav);
    assert!(matches!(r, Err(VoiceError::AudioDecode)));
    let r = audio_from_decoded(Ok(vec![1, 2, 3]), AudioFormat::Wav).unwrap();
    assert_eq!(r.data, vec![1, 2, 3]);
    assert_eq!(r.format, AudioFormat::Wav);
}
