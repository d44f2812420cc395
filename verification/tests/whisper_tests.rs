use wayvr::whisper_models::{whisper_model_from_name, whisper_model_path, whisper_models};
use wayvr::whisper_stt::{
    ms_to_samples, normalize_transcript, PollOutcome, PttState, Recognizer, WhisperSttConfig,
    WhisperSttError,
};

#[test]
fn model_lookup_by_file_name() {
    let m = whisper_model_from_name("ggml-small-q8_0.bin").unwrap();
    assert_eq!(m.display_name, "Small Q8 (252MiB)");
    assert_eq!(m.hash, "bcad8a2083f4e53d648d586b7dbc0cd673d8afad");
    assert!(whisper_model_from_name("ggml-tiny.bin").is_none());
    assert_eq!(whisper_models().len(), 5);
    assert_eq!(wayvr::whisper_stt::whisper_models()[4].name, "Turbo (1.5GiB)");
}

#[test]
fn model_path_joins_folder_and_file() {
    assert_eq!(
        whisper_model_path("/home/u/.local/share/wayvr/whisper", "ggml-base-q8_0.bin"),
        "/home/u/.local/share/wayvr/whisper/ggml-base-q8_0.bin"
    );
    assert_eq!(whisper_model_path("/data/whisper/", "m.bin"), "/data/whisper/m.bin");
    assert_eq!(whisper_model_path("/data/whisper", "/abs/m.bin"), "/abs/m.bin");
    assert_eq!(whisper_model_path("", "m.bin"), "m.bin");
    assert_eq!(whisper_model_path("/data", ""), "/data/");
    for (base, name) in [("/a/b", "c"), ("/a/b/", "c"), ("", "c"), ("/a", ""), ("", ""), ("rel", "/x"), ("/", "y")] {
        let joined = std::path::Path::new(base).join(name);
        assert_eq!(whisper_model_path(base, name), joined.to_string_lossy(), "{base:?} {name:?}");
    }
}

#[test]
fn samples_for_milliseconds() {
    assert_eq!(ms_to_samples(700), 11200);
    assert_eq!(ms_to_samples(250), 4000);
    assert_eq!(ms_to_samples(0), 0);
    assert_eq!(ms_to_samples(1), 16);
}

#[test]
fn transcript_normalisation() {
    assert_eq!(normalize_transcript("  Hello,\n  world!  ".to_string()), "Hello, world!");
    assert_eq!(normalize_transcript(" \n ".to_string()), "");
}

#[test]
fn config_defaults() {
    let c = WhisperSttConfig::new("/m/ggml-base.bin", Some(16));
    assert_eq!(c.model_path, "/m/ggml-base.bin");
    assert_eq!(c.n_threads, 4);
    assert_eq!(c.partial_decode_interval_ms, 700);
    assert_eq!(c.min_audio_ms, 250);
    assert!(c.use_gpu && !c.flash_attn && c.gpu_device == 0);
    assert!(c.language.is_none() && c.initial_prompt.is_none() && c.pipewire_target_object.is_none());
    assert_eq!(WhisperSttConfig::new("x", Some(2)).n_threads, 2);
    assert_eq!(WhisperSttConfig::new("x", None).n_threads, 4);
}

#[test]
fn stt_error_messages() {
    assert_eq!(WhisperSttError::ModelLoad("no file".into()).message(), "failed to load whisper model: no file");
    assert_eq!(WhisperSttError::Whisper("x".into()).message(), "whisper error: x");
    assert_eq!(WhisperSttError::PipeWire("y".into()).message(), "pipewire error: y");
    assert_eq!(WhisperSttError::CaptureInit("z".into()).message(), "failed to initialize capture: z");
    assert_eq!(WhisperSttError::ThreadSpawn("w".into()).message(), "failed to spawn thread: w");
    assert_eq!(WhisperSttError::CaptureThreadPanicked.message(), "capture thread panicked");
    assert_eq!(WhisperSttError::AlreadyRecording.message(), "PTT is already active");
    assert_eq!(WhisperSttError::NotRecording.message(), "PTT is not active");
}

#[test]
fn recognizer_decode_schedule() {
    let c = WhisperSttConfig::new("m", None);
    let mut r = Recognizer::new(&c);
    assert_eq!(r.partial_stride_samples, 11200);
    assert_eq!(r.min_samples, 4000);
    assert!(!r.wants_partial_decode(3999));
    assert!(!r.wants_partial_decode(11199));
    assert!(r.wants_partial_decode(11200));
    r.on_partial_decoded(11200, Ok("hello".to_string()));
    assert_eq!(r.last_decoded_len, 11200);
    assert!(!r.wants_partial_decode(20000));
    assert!(r.wants_partial_decode(22400));
    r.on_partial_decoded(22400, Err(WhisperSttError::Whisper("busy".into())));
    assert_eq!(r.last_decoded_len, 11200);
    assert_eq!(r.latest_partial, "hello");
    assert!(r.wants_final_decode(4000));
    assert!(!r.wants_final_decode(3999));
}

#[test]
fn small_stride_is_raised_to_a_quarter_second() {
    let mut c = WhisperSttConfig::new("m", None);
    c.partial_decode_interval_ms = 100;
    assert_eq!(Recognizer::new(&c).partial_stride_samples, 4000);
}

#[test]
fn recognizer_final_reports() {
    let c = WhisperSttConfig::new("m", None);
    let r = Recognizer::new(&c);
    assert_eq!(r.finish(None), vec![Ok(String::new())]);
    let r = Recognizer::new(&c);
    assert_eq!(r.finish(Some(Ok("done".into()))), vec![Ok("done".to_string())]);
    let mut r = Recognizer::new(&c);
    r.on_partial_decoded(5000, Ok("partial text".into()));
    assert_eq!(
        r.finish(Some(Err(WhisperSttError::Whisper("boom".into())))),
        vec![Ok("partial text".to_string()), Err("whisper error: boom".to_string())]
    );
    let mut r = Recognizer::new(&c);
    r.on_partial_decoded(5000, Ok("  ".into()));
    assert_eq!(
        r.finish(Some(Err(WhisperSttError::Whisper("boom".into())))),
        vec![Err("whisper error: boom".to_string())]
    );
}

#[test]
fn push_to_talk_session() {
    let mut s = PttState::new();
    assert!(!s.is_recording());
    assert!(matches!(s.stop(), Err(WhisperSttError::NotRecording)));
    assert!(s.check_start().is_ok());
    assert!(matches!(s.on_capture_ready(Err("no mic".into()), 5), Err(WhisperSttError::CaptureInit(m)) if m == "no mic"));
    assert!(!s.is_recording());
    assert!(s.on_capture_ready(Ok(()), 1000).is_ok());
    assert!(s.is_recording());
    assert_eq!(s.deadline_ms, Some(31000));
    assert!(matches!(s.check_start(), Err(WhisperSttError::AlreadyRecording)));
    assert!(s.stop().is_ok());
    assert!(!s.is_recording());
}

#[test]
fn polling_hands_on_transcripts_and_enforces_the_deadline() {
    let mut s = PttState::new();
    s.on_capture_ready(Ok(()), 0).unwrap();
    let out = s.poll(vec![Ok(" a  b ".into()), Err("late".into()), Ok("   ".into())], 10);
    assert!(matches!(out, PollOutcome::Transcript(t) if t == "a b"));
    assert_eq!(s.take_error(), Some("late".to_string()));
    assert_eq!(s.take_error(), None);
    assert!(matches!(s.poll(vec![], 29999), PollOutcome::Idle));
    assert!(s.is_recording());
    assert!(matches!(s.poll(vec![], 30000), PollOutcome::StopCapture));
    assert!(!s.is_recording());
    assert!(matches!(s.poll(vec![], 90000), PollOutcome::Idle));
    s.record_error("capture thread panicked".into());
    assert_eq!(s.take_error(), Some("capture thread panicked".to_string()));
}

#[test]
fn later_transcript_wins() {
    let mut s = PttState::new();
    let latest = s.drain_completed(vec![Ok("first".into()), Ok("second".into()), Ok(" ".into())]);
    assert_eq!(latest, Some("second".to_string()));
    assert_eq!(s.last_error, None);
}
