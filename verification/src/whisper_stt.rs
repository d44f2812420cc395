//! Push-to-talk speech recognition: the model table, the configuration, the
//! errors and their messages, and the decisions of the recording session and
//! of the recognizer (when to decode, what to report). Capturing audio,
//! running the model and the threads that do so are the caller's part.

use vstd::prelude::*;
use crate::text::{is_blank, is_blank_chars, chars_of, join, normalize_whitespace, words};

verus! {

/// A downloadable model: the name shown to the user, where to fetch it and
/// the SHA-1 of the file.
#[derive(Clone, Copy, Debug)]
pub struct WhisperModel {
    pub name: &'static str,
    pub url: &'static str,
    pub hash: &'static str,
}

impl View for WhisperModel {
    type V = (Seq<char>, Seq<char>, Seq<char>);

    open spec fn view(&self) -> (Seq<char>, Seq<char>, Seq<char>) {
        (self.name@, self.url@, self.hash@)
    }
}

/// Model `i`: name, URL and hash.
pub open spec fn stt_model_entry(i: int) -> (Seq<char>, Seq<char>, Seq<char>) {
    if i == 0 {
        ("Base Q8 (78MiB)"@, "https://huggingface.co/ggerganov/whisper.cpp/resolve/main/ggml-base-q8_0.bin"@, "7bb89bb49ed6955013b166f1b6a6c04584a20fbe"@)
    } else if i == 1 {
        ("Small Q8 (252MiB)"@, "https://huggingface.co/ggerganov/whisper.cpp/resolve/main/ggml-small-q8_0.bin"@, "bcad8a2083f4e53d648d586b7dbc0cd673d8afad"@)
    } else if i == 2 {
        ("Turbo Q5 (574MiB)"@, "https://huggingface.co/ggerganov/whisper.cpp/resolve/main/ggml-large-v3-turbo-q5_0.bin"@, "e050f7970618a659205450ad97eb95a18d69c9ee"@)
    } else if i == 3 {
        ("Turbo Q8 (874MiB)"@, "https://huggingface.co/ggerganov/whisper.cpp/resolve/main/ggml-large-v3-turbo-q8_0.bin"@, "01bf15bedffe9f39d65c1b6ff9b687ea91f59e0e"@)
    } else {
        ("Turbo (1.5GiB)"@, "https://huggingface.co/ggerganov/whisper.cpp/resolve/main/ggml-large-v3-turbo.bin"@, "4af2b29d7ec73d781377bfd1758ca957a807e941"@)
    }
}

/// The models, smallest first.
pub fn whisper_models() -> (v: Vec<WhisperModel>)
    ensures
        v@.len() == 5,
        forall|i: int| 0 <= i < 5 ==> (#[trigger] v@[i])@ == stt_model_entry(i),
{
    let mut v: Vec<WhisperModel> = Vec::new();
    v.push(WhisperModel {
        name: "Base Q8 (78MiB)",
        url: "https://huggingface.co/ggerganov/whisper.cpp/resolve/main/ggml-base-q8_0.bin",
        hash: "7bb89bb49ed6955013b166f1b6a6c04584a20fbe",
    });
    v.push(WhisperModel {
        name: "Small Q8 (252MiB)",
        url: "https://huggingface.co/ggerganov/whisper.cpp/resolve/main/ggml-small-q8_0.bin",
        hash: "bcad8a2083f4e53d648d586b7dbc0cd673d8afad",
    });
    v.push(WhisperModel {
        name: "Turbo Q5 (574MiB)",
        url: "https://huggingface.co/ggerganov/whisper.cpp/resolve/main/ggml-large-v3-turbo-q5_0.bin",
        hash: "e050f7970618a659205450ad97eb95a18d69c9ee",
    });
    v.push(WhisperModel {
        name: "Turbo Q8 (874MiB)",
        url: "https://huggingface.co/ggerganov/whisper.cpp/resolve/main/ggml-large-v3-turbo-q8_0.bin",
        hash: "01bf15bedffe9f39d65c1b6ff9b687ea91f59e0e",
    });
    v.push(WhisperModel {
        name: "Turbo (1.5GiB)",
        url: "https://huggingface.co/ggerganov/whisper.cpp/resolve/main/ggml-large-v3-turbo.bin",
        hash: "4af2b29d7ec73d781377bfd1758ca957a807e941",
    });
    v
}

/// Samples per second that the model takes.
pub const WHISPER_SAMPLE_RATE: usize = 16000;

/// Longest recording, in milliseconds; a longer one is stopped.
pub const MAX_DURATION_MS: u64 = 30000;

/// How the recognizer is set up.
#[derive(Clone, Debug)]
pub struct WhisperSttConfig {
    pub model_path: String,
    pub language: Option<String>,
    pub initial_prompt: Option<String>,
    pub n_threads: i32,
    /// lower values reduce release-time lag but cost more CPU/GPU
    pub partial_decode_interval_ms: u64,
    /// ignore extremely short accidental taps
    pub min_audio_ms: u64,
    /// mic object name from `pw-dump`, None for the default
    pub pipewire_target_object: Option<String>,
    pub use_gpu: bool,
    pub gpu_device: i32,
    pub flash_attn: bool,
}

impl WhisperSttConfig {
    /// The default configuration for the model at `model_path`, using as
    /// many threads as the machine offers (`available_parallelism`, if it
    /// could be found), but at most 4.
    pub fn new(model_path: &str, available_parallelism: Option<usize>) -> (c: Self)
        ensures
            c.model_path@ == model_path@,
            c.language is None,
            c.initial_prompt is None,
            c.n_threads == match available_parallelism {
                Some(n) => if n < 4 { n as int } else { 4 },
                None => 4,
            },
            c.partial_decode_interval_ms == 700,
            c.min_audio_ms == 250,
            c.pipewire_target_object is None,
            c.use_gpu,
            c.gpu_device == 0,
            !c.flash_attn,
    {
        let n_threads: i32 = match available_parallelism {
            Some(n) => if n < 4 {
                n as i32
            } else {
                4
            },
            None => 4,
        };
        WhisperSttConfig {
            model_path: crate::text::string_of(chars_of(model_path).as_slice()),
            language: None,
            initial_prompt: None,
            n_threads,
            partial_decode_interval_ms: 700,
            min_audio_ms: 250,
            pipewire_target_object: None,
            use_gpu: true,
            gpu_device: 0,
            flash_attn: false,
        }
    }
}

/// What can go wrong in a speech-to-text session.
#[derive(Debug)]
pub enum WhisperSttError {
    ModelLoad(String),
    Whisper(String),
    PipeWire(String),
    CaptureInit(String),
    ThreadSpawn(String),
    CaptureThreadPanicked,
    AlreadyRecording,
    NotRecording,
}

/// The text shown for an error.
pub open spec fn error_message(e: WhisperSttError) -> Seq<char> {
    match e {
        WhisperSttError::ModelLoad(s) => "failed to load whisper model: "@ + s@,
        WhisperSttError::Whisper(s) => "whisper error: "@ + s@,
        WhisperSttError::PipeWire(s) => "pipewire error: "@ + s@,
        WhisperSttError::CaptureInit(s) => "failed to initialize capture: "@ + s@,
        WhisperSttError::ThreadSpawn(s) => "failed to spawn thread: "@ + s@,
        WhisperSttError::CaptureThreadPanicked => "capture thread panicked"@,
        WhisperSttError::AlreadyRecording => "PTT is already active"@,
        WhisperSttError::NotRecording => "PTT is not active"@,
    }
}

fn prefixed(prefix: &str, detail: &String) -> (r: String)
    ensures
        r@ == prefix@ + detail@,
{
    let mut r = String::from_str(prefix);
    r.append(detail.as_str());
    r
}

impl WhisperSttError {
    /// The text shown for the error (what `to_string` gives).
    pub fn message(&self) -> (r: String)
        ensures
            r@ == error_message(*self),
    {
        match self {
            WhisperSttError::ModelLoad(e) => prefixed("failed to load whisper model: ", e),
            WhisperSttError::Whisper(e) => prefixed("whisper error: ", e),
            WhisperSttError::PipeWire(e) => prefixed("pipewire error: ", e),
            WhisperSttError::CaptureInit(e) => prefixed("failed to initialize capture: ", e),
            WhisperSttError::ThreadSpawn(e) => prefixed("failed to spawn thread: ", e),
            WhisperSttError::CaptureThreadPanicked => String::from_str("capture thread panicked"),
            WhisperSttError::AlreadyRecording => String::from_str("PTT is already active"),
            WhisperSttError::NotRecording => String::from_str("PTT is not active"),
        }
    }
}

/// How many samples `ms` milliseconds of audio are at the model's rate.
pub fn ms_to_samples(ms: u64) -> (n: usize)
    requires
        ms * WHISPER_SAMPLE_RATE <= usize::MAX,
    ensures
        n == ms * WHISPER_SAMPLE_RATE / 1000,
{
    ((ms as usize) * WHISPER_SAMPLE_RATE) / 1000
}

/// A transcript with its words separated by single spaces and no space
/// before the first or after the last word.
pub fn normalize_transcript(text: String) -> (r: String)
    ensures
        r@ == join(words(text@), seq![' ']),
{
    normalize_whitespace(text.as_str())
}

/// The recognizer's state between audio chunks: how far it has decoded and
/// the last partial transcript.
pub struct Recognizer {
    pub partial_stride_samples: usize,
    pub min_samples: usize,
    pub last_decoded_len: usize,
    pub latest_partial: String,
}

/// Samples of new audio after which a partial decode is tried: the
/// configured interval, but at least a quarter second.
pub open spec fn partial_stride(config: WhisperSttConfig) -> int {
    let n = config.partial_decode_interval_ms * WHISPER_SAMPLE_RATE / 1000;
    if n < WHISPER_SAMPLE_RATE / 4 {
        (WHISPER_SAMPLE_RATE / 4) as int
    } else {
        n
    }
}

/// The partial-decode stride is the configured interval in samples at
/// 16 kHz, but at least a quarter second (4000 samples); nothing else in the
/// configuration changes it.
pub proof fn lemma_partial_stride_is_floored_interval(a: WhisperSttConfig, b: WhisperSttConfig)
    ensures
        partial_stride(a) == if a.partial_decode_interval_ms * 16 < 4000 {
            4000
        } else {
            a.partial_decode_interval_ms * 16
        },
        partial_stride(a) >= 4000,
        partial_stride(a) >= a.partial_decode_interval_ms * 16,
        a.partial_decode_interval_ms == b.partial_decode_interval_ms ==> partial_stride(a)
            == partial_stride(b),
{
}

impl Recognizer {
    pub fn new(config: &WhisperSttConfig) -> (r: Self)
        requires
            config.partial_decode_interval_ms * WHISPER_SAMPLE_RATE <= usize::MAX,
            config.min_audio_ms * WHISPER_SAMPLE_RATE <= usize::MAX,
        ensures
            r.partial_stride_samples == partial_stride(*config),
            r.partial_stride_samples == if config.partial_decode_interval_ms * 16 < 4000 {
                4000
            } else {
                config.partial_decode_interval_ms * 16
            },
            r.min_samples == config.min_audio_ms * WHISPER_SAMPLE_RATE / 1000,
            r.last_decoded_len == 0,
            r.latest_partial@ == Seq::<char>::empty(),
    {
        let stride = ms_to_samples(config.partial_decode_interval_ms);
        let quarter = WHISPER_SAMPLE_RATE / 4;
        Recognizer {
            partial_stride_samples: if stride < quarter {
                quarter
            } else {
                stride
            },
            min_samples: ms_to_samples(config.min_audio_ms),
            last_decoded_len: 0,
            latest_partial: String::new(),
        }
    }

    /// Whether, with `audio_len` samples collected, a partial decode is due:
    /// enough audio in all, and a stride of it since the last decode.
    pub fn wants_partial_decode(&self, audio_len: usize) -> (r: bool)
        ensures
            r == (audio_len >= self.min_samples && (if audio_len >= self.last_decoded_len {
                audio_len - self.last_decoded_len
            } else {
                0
            }) >= self.partial_stride_samples),
    {
        let new_audio = if audio_len >= self.last_decoded_len {
            audio_len - self.last_decoded_len
        } else {
            0
        };
        audio_len >= self.min_samples && new_audio >= self.partial_stride_samples
    }

    /// Records the outcome of a partial decode of `audio_len` samples; a
    /// failed one is ignored (the final decode reports).
    pub fn on_partial_decoded(&mut self, audio_len: usize, result: Result<String, WhisperSttError>)
        ensures
            final(self).partial_stride_samples == old(self).partial_stride_samples,
            final(self).min_samples == old(self).min_samples,
            match result {
                Ok(text) => final(self).last_decoded_len == audio_len && final(self).latest_partial@ == text@,
                Err(_) => final(self).last_decoded_len == old(self).last_decoded_len && final(self).latest_partial@ == old(self).latest_partial@,
            },
    {
        match result {
            Ok(text) => {
                self.latest_partial = text;
                self.last_decoded_len = audio_len;
            },
            Err(_) => {},
        }
    }

    /// Whether the whole recording (`audio_len` samples) is long enough to
    /// be decoded at all.
    pub fn wants_final_decode(&self, audio_len: usize) -> (r: bool)
        ensures
            r == (audio_len >= self.min_samples),
    {
        audio_len >= self.min_samples
    }

    /// What is reported when the recording ends: an empty transcript if it
    /// was too short to decode (`None`), the final transcript, or, when the
    /// final decode failed, the last partial transcript (if it has any text)
    /// followed by the error.
    pub fn finish(self, final_result: Option<Result<String, WhisperSttError>>) -> (msgs: Vec<Result<String, String>>)
        ensures
            match final_result {
                None => msgs@.len() == 1 && (msgs@[0] matches Ok(t) && t@ == Seq::<char>::empty()),
                Some(Ok(text)) => msgs@.len() == 1 && (msgs@[0] matches Ok(t) && t@ == text@),
                Some(Err(e)) => if !is_blank(self.latest_partial@) {
                    &&& msgs@.len() == 2
                    &&& msgs@[0] matches Ok(t) && t@ == self.latest_partial@
                    &&& msgs@[1] matches Err(m) && m@ == error_message(e)
                } else {
                    msgs@.len() == 1 && (msgs@[0] matches Err(m) && m@ == error_message(e))
                },
            },
    {
        let mut msgs: Vec<Result<String, String>> = Vec::new();
        match final_result {
            None => {
                msgs.push(Ok(String::new()));
            },
            Some(Ok(text)) => {
                msgs.push(Ok(text));
            },
            Some(Err(e)) => {
                let partial = chars_of(self.latest_partial.as_str());
                if !is_blank_chars(partial.as_slice()) {
                    msgs.push(Ok(self.latest_partial));
                }
                msgs.push(Err(e.message()));
            },
        }
        msgs
    }
}

/// The push-to-talk session: whether a recording is running (and when it
/// must stop), and the last error to report.
pub struct PttState {
    pub deadline_ms: Option<u64>,
    pub last_error: Option<String>,
}

/// What the caller must do after polling for a transcript.
#[derive(Debug)]
pub enum PollOutcome {
    /// A transcript arrived.
    Transcript(String),
    /// Nothing arrived and the recording ran past its deadline: stop it.
    StopCapture,
    /// Nothing to do.
    Idle,
}

impl PttState {
    pub fn new() -> (s: Self)
        ensures
            s.deadline_ms is None,
            s.last_error is None,
    {
        PttState { deadline_ms: None, last_error: None }
    }

    pub fn is_recording(&self) -> (r: bool)
        ensures
            r == self.deadline_ms is Some,
    {
        self.deadline_ms.is_some()
    }

    /// Whether a recording may start: not while one is running.
    pub fn check_start(&self) -> (r: Result<(), WhisperSttError>)
        ensures
            match r {
                Ok(()) => self.deadline_ms is None,
                Err(e) => self.deadline_ms is Some && e is AlreadyRecording,
            },
    {
        if self.deadline_ms.is_some() {
            Err(WhisperSttError::AlreadyRecording)
        } else {
            Ok(())
        }
    }

    /// The capture reported whether it is ready (at time `now_ms`): on
    /// success the recording runs until `now_ms + MAX_DURATION_MS`.
    pub fn on_capture_ready(&mut self, ready: Result<(), String>, now_ms: u64) -> (r: Result<(), WhisperSttError>)
        requires
            now_ms + MAX_DURATION_MS <= u64::MAX,
        ensures
            final(self).last_error == old(self).last_error,
            match ready {
                Ok(()) => r is Ok && final(self).deadline_ms == Some((now_ms + MAX_DURATION_MS) as u64),
                Err(msg) => final(self).deadline_ms == old(self).deadline_ms && (r matches Err(
                    WhisperSttError::CaptureInit(m),
                ) && m@ == msg@),
            },
    {
        match ready {
            Ok(()) => {
                self.deadline_ms = Some(now_ms + MAX_DURATION_MS);
                Ok(())
            },
            Err(e) => Err(WhisperSttError::CaptureInit(e)),
        }
    }

    /// Ends the running recording; there must be one.
    pub fn stop(&mut self) -> (r: Result<(), WhisperSttError>)
        ensures
            final(self).deadline_ms is None,
            final(self).last_error == old(self).last_error,
            match r {
                Ok(()) => old(self).deadline_ms is Some,
                Err(e) => old(self).deadline_ms is None && e is NotRecording,
            },
    {
        if self.deadline_ms.is_none() {
            return Err(WhisperSttError::NotRecording);
        }
        self.deadline_ms = None;
        Ok(())
    }

    /// Takes in the recognizer's reports, oldest first: the latest transcript
    /// that has text after normalising wins, and an error is remembered
    /// (a later one replacing an earlier one).
    pub fn drain_completed(&mut self, results: Vec<Result<String, String>>) -> (latest: Option<String>)
        ensures
            final(self).deadline_ms == old(self).deadline_ms,
            match latest {
                Some(s) => drained_transcript(results@) == Some(s@),
                None => drained_transcript(results@) is None,
            },
            final(self).last_error == drained_error(results@, old(self).last_error),
    {
        let mut latest: Option<String> = None;
        let mut i: usize = 0;
        let ghost start_error = self.last_error;
        let ghost all = results@;
        let mut results = results;
        let n = results.len();
        while results.len() > 0
            invariant
                all.len() == n,
                self.deadline_ms == old(self).deadline_ms,
                start_error == old(self).last_error,
                i <= all.len(),
                results@ == all.skip(i as int),
                match latest {
                    Some(s) => drained_transcript(all.take(i as int)) == Some(s@),
                    None => drained_transcript(all.take(i as int)) is None,
                },
                self.last_error == drained_error(all.take(i as int), start_error),
            decreases results@.len(),
        {
            let item = results.remove(0);
            proof {
                assert(item == all[i as int]);
                assert(all.take(i + 1).drop_last() =~= all.take(i as int));
                assert(all.skip(i as int).remove(0) =~= all.skip(i + 1));
            }
            match item {
                Ok(text) => {
                    let text = normalize_transcript(text);
                    let v = chars_of(text.as_str());
                    if v.len() > 0 {
                        latest = Some(text);
                    }
                },
                Err(e) => {
                    self.last_error = Some(e);
                },
            }
            i = i + 1;
        }
        assert(all.take(all.len() as int) =~= all);
        latest
    }

    /// Polls the session at time `now_ms` with the recognizer's reports: a
    /// transcript is handed on; otherwise a recording past its deadline is
    /// stopped.
    pub fn poll(&mut self, results: Vec<Result<String, String>>, now_ms: u64) -> (out: PollOutcome)
        ensures
            final(self).last_error == drained_error(results@, old(self).last_error),
            match drained_transcript(results@) {
                Some(t) => (out matches PollOutcome::Transcript(s) && s@ == t) && final(self).deadline_ms
                    == old(self).deadline_ms,
                None => match old(self).deadline_ms {
                    Some(d) => if now_ms >= d {
                        out is StopCapture && final(self).deadline_ms is None
                    } else {
                        out is Idle && final(self).deadline_ms == old(self).deadline_ms
                    },
                    None => out is Idle && final(self).deadline_ms is None,
                },
            },
    {
        let latest = self.drain_completed(results);
        match latest {
            Some(t) => PollOutcome::Transcript(t),
            None => {
                let due = match self.deadline_ms {
                    Some(d) => now_ms >= d,
                    None => false,
                };
                if due {
                    self.deadline_ms = None;
                    PollOutcome::StopCapture
                } else {
                    PollOutcome::Idle
                }
            },
        }
    }

    /// Hands out the remembered error, forgetting it.
    pub fn take_error(&mut self) -> (e: Option<String>)
        ensures
            e == old(self).last_error,
            final(self).last_error is None,
            final(self).deadline_ms == old(self).deadline_ms,
    {
        self.last_error.take()
    }

    /// Remembers an error to report.
    pub fn record_error(&mut self, message: String)
        ensures
            final(self).last_error == Some(message),
            final(self).deadline_ms == old(self).deadline_ms,
    {
        self.last_error = Some(message);
    }
}

/// The transcript that draining `results` (oldest first) yields: the last
/// one whose normalised text is not empty.
pub open spec fn drained_transcript(results: Seq<Result<String, String>>) -> Option<Seq<char>>
    decreases results.len(),
{
    if results.len() == 0 {
        None
    } else {
        match results.last() {
            Ok(t) => {
                let n = join(words(t@), seq![' ']);
                if n.len() > 0 {
                    Some(n)
                } else {
                    drained_transcript(results.drop_last())
                }
            },
            Err(_) => drained_transcript(results.drop_last()),
        }
    }
}

/// The error remembered after draining `results`, starting from `start`.
pub open spec fn drained_error(results: Seq<Result<String, String>>, start: Option<String>) -> Option<String>
    decreases results.len(),
{
    if results.len() == 0 {
        start
    } else {
        match results.last() {
            Err(e) => Some(e),
            Ok(_) => drained_error(results.drop_last(), start),
        }
    }
}

} // verus!
