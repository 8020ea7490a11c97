//! Configuration rules: the audio format and reply mode names, API key
//! resolution, and the assembly of a pipeline from a voice configuration.
use vstd::prelude::*;
use vstd::string::StrSliceExecFns;
use crate::assemblyai::AssemblyAiStt;
use crate::channels::AudioFormat;
use crate::inworld::{credential_spec, InworldTts, DEFAULT_MODEL, DEFAULT_VOICE};
use crate::pipeline::DefaultVoicePipeline;
use crate::text::same_text;
use crate::voice::{ReplyMode, VoiceError, VoiceProfile};

verus! {

/// Environment variable consulted for the speech-to-text key by default.
pub const ASSEMBLYAI_KEY_ENV: &'static str = "ASSEMBLYAI_API_KEY";

/// Environment variable consulted for the text-to-speech key by default.
pub const INWORLD_KEY_ENV: &'static str = "INWORLD_API_KEY";

/// The lower-case form of a text, as `str::to_lowercase` gives it.
pub uninterp spec fn lower_of(s: Seq<char>) -> Seq<char>;

/// A text of ASCII lower-case letters, digits and underscores.
pub open spec fn is_lower_word(s: Seq<char>) -> bool {
    forall|i: int|
        0 <= i < s.len() ==> ('a' <= #[trigger] s[i] && s[i] <= 'z') || ('0' <= s[i] && s[i]
            <= '9') || s[i] == '_'
}

/// Relies on `str::to_lowercase`: the result depends on the characters
/// alone, and lower-case ASCII letters, digits and `_` are left unchanged.
#[verifier::external_body]
fn lowercase(s: &str) -> (r: String)
    ensures
        r@ == lower_of(s@),
        is_lower_word(s@) ==> r@ == s@,
{
    s.to_lowercase()
}

/// The format that a lower-case configuration name denotes.
pub open spec fn audio_format_named(s: Seq<char>) -> Option<AudioFormat> {
    if s == "ogg_opus"@ || s == "ogg"@ || s == "opus"@ {
        Some(AudioFormat::OggOpus)
    } else if s == "mp3"@ {
        Some(AudioFormat::Mp3)
    } else if s == "wav"@ {
        Some(AudioFormat::Wav)
    } else if s == "webm"@ {
        Some(AudioFormat::Webm)
    } else {
        None
    }
}

/// The reply mode that a lower-case configuration name denotes.
pub open spec fn reply_mode_named(s: Seq<char>) -> Option<ReplyMode> {
    if s == "voice_only"@ {
        Some(ReplyMode::VoiceOnly)
    } else if s == "text_and_voice"@ {
        Some(ReplyMode::TextAndVoice)
    } else if s == "match_input"@ {
        Some(ReplyMode::MatchInput)
    } else {
        None
    }
}

/// The canonical configuration name of each format.
pub open spec fn format_config_name(f: AudioFormat) -> Seq<char> {
    match f {
        AudioFormat::OggOpus => "ogg_opus"@,
        AudioFormat::Mp3 => "mp3"@,
        AudioFormat::Wav => "wav"@,
        AudioFormat::Webm => "webm"@,
    }
}

/// The configuration name of each reply mode.
pub open spec fn reply_mode_config_name(m: ReplyMode) -> Seq<char> {
    match m {
        ReplyMode::VoiceOnly => "voice_only"@,
        ReplyMode::TextAndVoice => "text_and_voice"@,
        ReplyMode::MatchInput => "match_input"@,
    }
}

/// What parsing a configured format name gives: the format, or the
/// lower-cased name that was not recognised.
pub open spec fn parse_audio_format_spec(s: Seq<char>) -> Result<AudioFormat, Seq<char>> {
    match audio_format_named(lower_of(s)) {
        Some(f) => Ok(f),
        None => Err(lower_of(s)),
    }
}

/// What parsing a configured reply mode name gives.
pub open spec fn parse_reply_mode_spec(s: Seq<char>) -> Result<ReplyMode, Seq<char>> {
    match reply_mode_named(lower_of(s)) {
        Some(m) => Ok(m),
        None => Err(lower_of(s)),
    }
}

/// The format named by an already lower-cased configuration value.
pub fn audio_format_from_lowercase(s: String) -> (r: Result<AudioFormat, VoiceError>)
    ensures
        match audio_format_named(s@) {
            Some(f) => r == Ok::<AudioFormat, VoiceError>(f),
            None => r == Err::<AudioFormat, VoiceError>(VoiceError::UnknownAudioFormat(s)),
        },
{
    if same_text(s.as_str(), "ogg_opus") || same_text(s.as_str(), "ogg") || same_text(
        s.as_str(),
        "opus",
    ) {
        Ok(AudioFormat::OggOpus)
    } else if same_text(s.as_str(), "mp3") {
        Ok(AudioFormat::Mp3)
    } else if same_text(s.as_str(), "wav") {
        Ok(AudioFormat::Wav)
    } else if same_text(s.as_str(), "webm") {
        Ok(AudioFormat::Webm)
    } else {
        Err(VoiceError::UnknownAudioFormat(s))
    }
}

/// The reply mode named by an already lower-cased configuration value.
pub fn reply_mode_from_lowercase(s: String) -> (r: Result<ReplyMode, VoiceError>)
    ensures
        match reply_mode_named(s@) {
            Some(m) => r == Ok::<ReplyMode, VoiceError>(m),
            None => r == Err::<ReplyMode, VoiceError>(VoiceError::UnknownReplyMode(s)),
        },
{
    if same_text(s.as_str(), "voice_only") {
        Ok(ReplyMode::VoiceOnly)
    } else if same_text(s.as_str(), "text_and_voice") {
        Ok(ReplyMode::TextAndVoice)
    } else if same_text(s.as_str(), "match_input") {
        Ok(ReplyMode::MatchInput)
    } else {
        Err(VoiceError::UnknownReplyMode(s))
    }
}

/// Parse a configured audio format name, ignoring case; `ogg` and `opus` are
/// synonyms of `ogg_opus`.
pub fn parse_audio_format(s: &str) -> (r: Result<AudioFormat, VoiceError>)
    ensures
        match parse_audio_format_spec(s@) {
            Ok(f) => r == Ok::<AudioFormat, VoiceError>(f),
            Err(t) => (r matches Err(VoiceError::UnknownAudioFormat(u)) && u@ == t),
        },
        is_lower_word(s@) ==> match audio_format_named(s@) {
            Some(f) => r == Ok::<AudioFormat, VoiceError>(f),
            None => (r matches Err(VoiceError::UnknownAudioFormat(u)) && u@ == s@),
        },
{
    audio_format_from_lowercase(lowercase(s))
}

/// Parse a configured reply mode name, ignoring case.
pub fn parse_reply_mode(s: &str) -> (r: Result<ReplyMode, VoiceError>)
    ensures
        match parse_reply_mode_spec(s@) {
            Ok(m) => r == Ok::<ReplyMode, VoiceError>(m),
            Err(t) => (r matches Err(VoiceError::UnknownReplyMode(u)) && u@ == t),
        },
        is_lower_word(s@) ==> match reply_mode_named(s@) {
            Some(m) => r == Ok::<ReplyMode, VoiceError>(m),
            None => (r matches Err(VoiceError::UnknownReplyMode(u)) && u@ == s@),
        },
{
    reply_mode_from_lowercase(lowercase(s))
}


/// Round trip: the configuration name of every format, in any case that
/// lower-cases to it, parses back to that format.
pub proof fn lemma_format_name_round_trip(f: AudioFormat, s: Seq<char>)
    requires
        lower_of(s) == format_config_name(f),
    ensures
        parse_audio_format_spec(s) == Ok::<AudioFormat, Seq<char>>(f),
{
    reveal_strlit("ogg_opus");
    reveal_strlit("ogg");
    reveal_strlit("opus");
    reveal_strlit("mp3");
    reveal_strlit("wav");
    reveal_strlit("webm");
    let n = format_config_name(f);
    match f {
        AudioFormat::OggOpus => {},
        AudioFormat::Mp3 => {
            assert(n[0] != "ogg_opus"@[0] && n[0] != "ogg"@[0] && n[0] != "opus"@[0]);
        },
        AudioFormat::Wav => {
            assert(n[0] != "ogg_opus"@[0] && n[0] != "ogg"@[0] && n[0] != "opus"@[0]);
            assert(n[0] != "mp3"@[0]);
        },
        AudioFormat::Webm => {
            assert(n[0] != "ogg_opus"@[0] && n[0] != "ogg"@[0] && n[0] != "opus"@[0]);
            assert(n[0] != "mp3"@[0] && n.len() != "wav"@.len());
        },
    }
}

/// Round trip: the configuration name of every reply mode, in any case that
/// lower-cases to it, parses back to that mode.
pub proof fn lemma_reply_mode_name_round_trip(m: ReplyMode, s: Seq<char>)
    requires
        lower_of(s) == reply_mode_config_name(m),
    ensures
        parse_reply_mode_spec(s) == Ok::<ReplyMode, Seq<char>>(m),
{
    reveal_strlit("voice_only");
    reveal_strlit("text_and_voice");
    reveal_strlit("match_input");
    let n = reply_mode_config_name(m);
    match m {
        ReplyMode::VoiceOnly => {},
        ReplyMode::TextAndVoice => {
            assert(n[0] != "voice_only"@[0]);
        },
        ReplyMode::MatchInput => {
            assert(n[0] != "voice_only"@[0] && n[0] != "text_and_voice"@[0]);
        },
    }
}

/// The configuration names are lower-case words, which lower-casing keeps.
pub proof fn lemma_config_names_are_lower(f: AudioFormat, m: ReplyMode)
    ensures
        is_lower_word(format_config_name(f)),
        is_lower_word(reply_mode_config_name(m)),
{
    reveal_strlit("ogg_opus");
    reveal_strlit("mp3");
    reveal_strlit("wav");
    reveal_strlit("webm");
    reveal_strlit("voice_only");
    reveal_strlit("text_and_voice");
    reveal_strlit("match_input");
}

/// The name of the environment variable that holds a key: the configured
/// one, else the provider's default.
pub open spec fn key_env_name_spec(env_name: Option<String>, default_env: Seq<char>) -> Seq<
    char,
> {
    match env_name {
        Some(n) => n@,
        None => default_env,
    }
}

/// Key resolution: a non-empty inline key first, then the environment
/// variable's value; with neither, the name of the variable that was
/// expected.
pub open spec fn resolve_key_spec(
    inline_key: Option<String>,
    env_name: Option<String>,
    default_env: Seq<char>,
    env_value: Option<String>,
) -> Result<Seq<char>, Seq<char>> {
    if inline_key is Some && inline_key->0@.len() > 0 {
        Ok(inline_key->0@)
    } else if env_value is Some {
        Ok(env_value->0@)
    } else {
        Err(key_env_name_spec(env_name, default_env))
    }
}

/// The environment variable consulted for a key.
pub fn key_env_name(env_name: &Option<String>, default_env: &str) -> (r: String)
    ensures
        r@ == key_env_name_spec(*env_name, default_env@),
{
    match env_name {
        Some(n) => n.clone(),
        None => default_env.to_owned(),
    }
}

/// Resolve an API key. `env_value` is the value of the environment variable
/// that `key_env_name` names, where it is set.
pub fn resolve_api_key(
    inline_key: &Option<String>,
    env_name: &Option<String>,
    default_env: &str,
    env_value: Option<String>,
) -> (r: Result<String, VoiceError>)
    ensures
        match resolve_key_spec(*inline_key, *env_name, default_env@, env_value) {
            Ok(k) => (r matches Ok(s) && s@ == k),
            Err(n) => (r matches Err(VoiceError::MissingApiKey(v)) && v@ == n),
        },
{
    if let Some(key) = inline_key {
        if key.as_str().unicode_len() > 0 {
            return Ok(key.clone());
        }
    }
    match env_value {
        Some(v) => Ok(v),
        None => Err(VoiceError::MissingApiKey(key_env_name(env_name, default_env))),
    }
}

/// Speech-to-text provider settings.
#[derive(Debug, Clone)]
pub struct SttConfig {
    pub provider: String,
    pub api_key: Option<String>,
    pub api_key_env: Option<String>,
}

/// Text-to-speech provider settings.
#[derive(Debug, Clone)]
pub struct TtsConfig {
    pub provider: String,
    pub api_key: Option<String>,
    pub api_key_env: Option<String>,
    pub voice_id: Option<String>,
    pub model: Option<String>,
    pub output_format: Option<String>,
}

/// Voice settings: whether voice is on, the two providers, and the reply
/// mode name.
#[derive(Debug, Clone)]
pub struct VoiceConfig {
    pub enabled: bool,
    pub stt: SttConfig,
    pub tts: TtsConfig,
    pub reply_mode: Option<String>,
}

impl Default for SttConfig {
    fn default() -> (r: SttConfig)
        ensures
            r.provider@ == "assemblyai"@,
            r.api_key is None,
            r.api_key_env is None,
    {
        SttConfig { provider: "assemblyai".to_owned(), api_key: None, api_key_env: None }
    }
}

impl Default for TtsConfig {
    fn default() -> (r: TtsConfig)
        ensures
            r.provider@ == "inworld"@,
            r.api_key is None,
            r.api_key_env is None,
            r.voice_id is None,
            r.model is None,
            r.output_format is None,
    {
        TtsConfig {
            provider: "inworld".to_owned(),
            api_key: None,
            api_key_env: None,
            voice_id: None,
            model: None,
            output_format: None,
        }
    }
}

impl Default for VoiceConfig {
    /// Voice is off by default.
    fn default() -> (r: VoiceConfig)
        ensures
            !r.enabled,
            r.stt.provider@ == "assemblyai"@,
            r.tts.provider@ == "inworld"@,
            r.reply_mode is None,
    {
        VoiceConfig {
            enabled: false,
            stt: SttConfig::default(),
            tts: TtsConfig::default(),
            reply_mode: None,
        }
    }
}

/// What a pipeline is made of: the two providers' settings and the policy.
#[derive(Debug, Clone)]
pub struct PipelineParts {
    pub stt: AssemblyAiStt,
    pub tts: InworldTts,
    pub pipeline: DefaultVoicePipeline,
}

/// The format configured for synthesized audio: OGG/Opus when none is named.
pub open spec fn configured_format_spec(s: Option<String>) -> Result<AudioFormat, Seq<char>> {
    match s {
        Some(t) => parse_audio_format_spec(t@),
        None => Ok(AudioFormat::OggOpus),
    }
}

/// The configured reply mode: match-input when none is named.
pub open spec fn configured_reply_mode_spec(s: Option<String>) -> Result<ReplyMode, Seq<char>> {
    match s {
        Some(t) => parse_reply_mode_spec(t@),
        None => Ok(ReplyMode::MatchInput),
    }
}

/// The key resolved for the speech-to-text provider of `c`.
pub open spec fn stt_key_spec(c: VoiceConfig, stt_env_value: Option<String>) -> Result<
    Seq<char>,
    Seq<char>,
> {
    resolve_key_spec(c.stt.api_key, c.stt.api_key_env, ASSEMBLYAI_KEY_ENV@, stt_env_value)
}

/// The key resolved for the text-to-speech provider of `c`.
pub open spec fn tts_key_spec(c: VoiceConfig, tts_env_value: Option<String>) -> Result<
    Seq<char>,
    Seq<char>,
> {
    resolve_key_spec(c.tts.api_key, c.tts.api_key_env, INWORLD_KEY_ENV@, tts_env_value)
}

/// The parts built from an enabled configuration whose every setting
/// resolved: the keys, the voice and model, the profile and the reply mode.
pub open spec fn parts_match(
    p: PipelineParts,
    c: VoiceConfig,
    stt_key: Seq<char>,
    tts_key: Seq<char>,
    format: AudioFormat,
    mode: ReplyMode,
) -> bool {
    &&& p.stt.api_key@ == stt_key
    &&& p.tts.api_credential@ == credential_spec(tts_key)
    &&& p.tts.default_voice@ == match c.tts.voice_id {
        Some(v) => v@,
        None => DEFAULT_VOICE@,
    }
    &&& p.tts.model@ == match c.tts.model {
        Some(m) => m@,
        None => DEFAULT_MODEL@,
    }
    &&& p.pipeline.voice_profile.voice_id == c.tts.voice_id
    &&& p.pipeline.voice_profile.output_format == format
    &&& p.pipeline.voice_profile.speed_percent is None
    &&& p.pipeline.reply_mode == mode
}

/// What building a pipeline from `c` gives, checked in order: nothing when
/// voice is off; then the speech-to-text provider and its key, the
/// text-to-speech provider and its key, the output format and the reply
/// mode, the first that fails giving the error.
pub open spec fn creates_pipeline(
    c: VoiceConfig,
    stt_env_value: Option<String>,
    tts_env_value: Option<String>,
    r: Result<Option<PipelineParts>, VoiceError>,
) -> bool {
    if !c.enabled {
        r matches Ok(None)
    } else if c.stt.provider@ != "assemblyai"@ {
        r matches Err(VoiceError::UnsupportedSttProvider(p)) && p@ == c.stt.provider@
    } else if stt_key_spec(c, stt_env_value) is Err {
        r matches Err(VoiceError::MissingApiKey(n)) && n@ == stt_key_spec(c, stt_env_value)->Err_0
    } else if c.tts.provider@ != "inworld"@ {
        r matches Err(VoiceError::UnsupportedTtsProvider(p)) && p@ == c.tts.provider@
    } else if tts_key_spec(c, tts_env_value) is Err {
        r matches Err(VoiceError::MissingApiKey(n)) && n@ == tts_key_spec(c, tts_env_value)->Err_0
    } else if configured_format_spec(c.tts.output_format) is Err {
        r matches Err(VoiceError::UnknownAudioFormat(t)) && t@ == configured_format_spec(
            c.tts.output_format,
        )->Err_0
    } else if configured_reply_mode_spec(c.reply_mode) is Err {
        r matches Err(VoiceError::UnknownReplyMode(t)) && t@ == configured_reply_mode_spec(
            c.reply_mode,
        )->Err_0
    } else {
        r matches Ok(Some(p)) && parts_match(
            p,
            c,
            stt_key_spec(c, stt_env_value)->Ok_0,
            tts_key_spec(c, tts_env_value)->Ok_0,
            configured_format_spec(c.tts.output_format)->Ok_0,
            configured_reply_mode_spec(c.reply_mode)->Ok_0,
        )
    }
}

/// Build a pipeline's parts from configuration. `stt_env_value` and
/// `tts_env_value` are the values, where set, of the environment variables
/// that `key_env_name` names for each provider (by default
/// `ASSEMBLYAI_KEY_ENV` and `INWORLD_KEY_ENV`). With voice disabled there is
/// no pipeline, which is not an error.
pub fn create_voice_pipeline(
    config: &VoiceConfig,
    stt_env_value: Option<String>,
    tts_env_value: Option<String>,
) -> (r: Result<Option<PipelineParts>, VoiceError>)
    ensures
        creates_pipeline(*config, stt_env_value, tts_env_value, r),
{
    if !config.enabled {
        return Ok(None);
    }
    if !same_text(config.stt.provider.as_str(), "assemblyai") {
        return Err(VoiceError::UnsupportedSttProvider(config.stt.provider.clone()));
    }
    let stt_key = match resolve_api_key(
        &config.stt.api_key,
        &config.stt.api_key_env,
        ASSEMBLYAI_KEY_ENV,
        stt_env_value,
    ) {
        Ok(k) => k,
        Err(e) => return Err(e),
    };
    let stt = AssemblyAiStt::new(stt_key);
    if !same_text(config.tts.provider.as_str(), "inworld") {
        return Err(VoiceError::UnsupportedTtsProvider(config.tts.provider.clone()));
    }
    let tts_key = match resolve_api_key(
        &config.tts.api_key,
        &config.tts.api_key_env,
        INWORLD_KEY_ENV,
        tts_env_value,
    ) {
        Ok(k) => k,
        Err(e) => return Err(e),
    };
    let tts = InworldTts::new(tts_key, config.tts.voice_id.clone(), config.tts.model.clone());
    let output_format = match &config.tts.output_format {
        Some(s) => match parse_audio_format(s.as_str()) {
            Ok(f) => f,
            Err(e) => return Err(e),
        },
        None => AudioFormat::OggOpus,
    };
    let reply_mode = match &config.reply_mode {
        Some(s) => match parse_reply_mode(s.as_str()) {
            Ok(m) => m,
            Err(e) => return Err(e),
        },
        None => ReplyMode::MatchInput,
    };
    let voice_profile = VoiceProfile {
        voice_id: config.tts.voice_id.clone(),
        output_format,
        speed_percent: None,
    };
    Ok(Some(PipelineParts { stt, tts, pipeline: DefaultVoicePipeline::new(voice_profile, reply_mode) }))
}

} // verus!
