//! The job-based speech-to-text provider: upload, submit, then poll until the
//! job completes, fails, or the deadline passes. The network calls stand
//! outside the library; what is decided between them is here.
use vstd::prelude::*;
use crate::text::same_text;
use crate::voice::VoiceError;

verus! {

pub const ASSEMBLYAI_UPLOAD_URL: &'static str = "https://api.assemblyai.com/v2/upload";

pub const ASSEMBLYAI_TRANSCRIPT_URL: &'static str = "https://api.assemblyai.com/v2/transcript";

/// Maximum time to wait for a transcription job to complete.
pub const TRANSCRIPTION_TIMEOUT_SECS: u64 = 120;

/// Polling interval for transcription status.
pub const POLL_INTERVAL_MS: u64 = 1500;

/// Speech-to-text provider credentials: the raw API key, sent as the
/// `authorization` header of each call.
#[derive(Debug, Clone)]
pub struct AssemblyAiStt {
    pub api_key: String,
}

/// What a job status reported by the provider means for the poll loop.
#[derive(Debug, Clone, Copy, PartialEq, Eq, Structural)]
pub enum JobStatus {
    Completed,
    Error,
    /// Any other status (`queued`, `processing`, ...): poll again.
    Pending,
}

pub open spec fn job_status_spec(status: Seq<char>) -> JobStatus {
    if status == "completed"@ {
        JobStatus::Completed
    } else if status == "error"@ {
        JobStatus::Error
    } else {
        JobStatus::Pending
    }
}

/// What the poll loop does after one status response.
#[derive(Debug, Clone)]
pub enum PollStep {
    /// The job completed: its transcript is in the response.
    Finished,
    /// The job failed with this error.
    Failed(VoiceError),
    /// Wait `POLL_INTERVAL_MS` and poll again.
    Wait,
}

/// The deadline of a poll loop that starts at `start_ms`, in milliseconds.
pub open spec fn poll_deadline_spec(start_ms: u64) -> int {
    start_ms + TRANSCRIPTION_TIMEOUT_SECS * 1000
}

impl AssemblyAiStt {
    pub fn new(api_key: String) -> (r: AssemblyAiStt)
        ensures
            r.api_key == api_key,
    {
        AssemblyAiStt { api_key }
    }

    /// Human-readable provider name.
    pub fn name(&self) -> (r: &'static str)
        ensures
            r@ == "assemblyai"@,
    {
        "assemblyai"
    }

    /// The header that authenticates each call: the raw API key.
    pub fn auth_header(&self) -> (r: (&'static str, &str))
        ensures
            r.0@ == "authorization"@,
            r.1@ == self.api_key@,
    {
        ("authorization", self.api_key.as_str())
    }
}

/// Classify a job status string.
pub fn job_status(status: &str) -> (r: JobStatus)
    ensures
        r == job_status_spec(status@),
{
    if same_text(status, "completed") {
        JobStatus::Completed
    } else if same_text(status, "error") {
        JobStatus::Error
    } else {
        JobStatus::Pending
    }
}

/// The deadline, in milliseconds, of a poll loop that starts at `start_ms`;
/// `None` where it would not fit a `u64`.
pub fn poll_deadline_ms(start_ms: u64) -> (r: Option<u64>)
    ensures
        r matches Some(d) ==> d == poll_deadline_spec(start_ms),
        r is None <==> poll_deadline_spec(start_ms) > u64::MAX,
{
    start_ms.checked_add(TRANSCRIPTION_TIMEOUT_SECS * 1000)
}

/// The check made before each poll: past the deadline the job has timed
/// out; at or before it, polling goes on.
pub fn check_deadline(now_ms: u64, deadline_ms: u64) -> (r: Result<(), VoiceError>)
    ensures
        now_ms <= deadline_ms ==> r is Ok,
        now_ms > deadline_ms ==> (r matches Err(VoiceError::TranscriptionTimedOut(s)) && s
            == TRANSCRIPTION_TIMEOUT_SECS),
{
    if now_ms > deadline_ms {
        Err(VoiceError::TranscriptionTimedOut(TRANSCRIPTION_TIMEOUT_SECS))
    } else {
        Ok(())
    }
}

/// The decision after one status response: finish on `completed`, fail with
/// the reported detail (or `unknown error`) on `error`, otherwise wait.
pub fn poll_step(status: &str, error: Option<String>) -> (r: PollStep)
    ensures
        job_status_spec(status@) == JobStatus::Completed ==> r is Finished,
        job_status_spec(status@) == JobStatus::Pending ==> r is Wait,
        job_status_spec(status@) == JobStatus::Error ==> (r matches PollStep::Failed(
            VoiceError::TranscriptionFailed(d)) && d@ == match error {
            Some(e) => e@,
            None => "unknown error"@,
        }),
{
    match job_status(status) {
        JobStatus::Completed => PollStep::Finished,
        JobStatus::Error => {
            let detail = match error {
                Some(e) => e,
                None => "unknown error".to_owned(),
            };
            PollStep::Failed(VoiceError::TranscriptionFailed(detail))
        },
        JobStatus::Pending => PollStep::Wait,
    }
}

} // verus!
