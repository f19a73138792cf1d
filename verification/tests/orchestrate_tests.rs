use slidevoice::ErrorKind;
use slidevoice::Outcome;
use slidevoice::Slide;
use slidevoice::cache::CacheKey;
use slidevoice::cache::SynthesisConfig;
use slidevoice::cache::serialize_cache_key;
use slidevoice::orchestrate::Phase;
use slidevoice::orchestrate::SlideAction;
use slidevoice::orchestrate::SlideEvent;
use slidevoice::orchestrate::is_sandbox_provider;
use slidevoice::orchestrate::resolve_credential;
use slidevoice::orchestrate::start_slide;
use slidevoice::orchestrate::step;
use slidevoice::orchestrate::str_contains;

fn slide(idx: u64, note: &str) -> Slide {
    Slide { idx, note: note.to_string() }
}

fn config(bytes: &[u8]) -> SynthesisConfig {
    SynthesisConfig { canonical: bytes.to_vec() }
}

fn record_for(note: &str, cfg: &[u8]) -> Vec<u8> {
    serialize_cache_key(&CacheKey { text: note.to_string(), config: config(cfg) })
}

#[test]
fn cache_hit_skips_without_synthesis_or_writes() {
    let s = slide(4, "unchanged note");
    let cfg = config(&[1, 2]);
    let (state, action) = start_slide(&s, &cfg, true, "out", "mp3");
    match action {
        SlideAction::ProbeCache { artifact_path, record_path } => {
            assert_eq!(artifact_path, "out/4.mp3");
            assert_eq!(record_path, "out/4.cachekey.txt");
        }
        _ => panic!("caching enabled must start with a cache probe"),
    }
    let rec = record_for("unchanged note", &[1, 2]);
    let (state, action) = step(
        state,
        SlideEvent::Probed { artifact_exists: true, record: Some(rec) },
    );
    assert_eq!(state.phase, Phase::Done(Outcome::Skipped));
    match action {
        SlideAction::Report { result } => assert_eq!(result.unwrap(), Outcome::Skipped),
        _ => panic!("a valid cache entry must end the slide"),
    }
}

#[test]
fn text_change_regenerates() {
    let s = slide(4, "new note");
    let cfg = config(&[1, 2]);
    let (state, _) = start_slide(&s, &cfg, true, "out", "mp3");
    // the artifact from the previous run still exists at the same path,
    // but its record was made from the old note
    let old_rec = record_for("old note", &[1, 2]);
    let (state, action) = step(
        state,
        SlideEvent::Probed { artifact_exists: true, record: Some(old_rec) },
    );
    assert_eq!(state.phase, Phase::Synthesizing);
    match action {
        SlideAction::Synthesize { text } => assert_eq!(text, "new note"),
        _ => panic!("a changed note must trigger synthesis"),
    }
}

#[test]
fn config_change_regenerates() {
    let s = slide(4, "same note");
    let cfg = config(&[9, 9]);
    let (state, _) = start_slide(&s, &cfg, true, "out", "mp3");
    let old_rec = record_for("same note", &[1, 2]);
    let (state, action) = step(
        state,
        SlideEvent::Probed { artifact_exists: true, record: Some(old_rec) },
    );
    assert_eq!(state.phase, Phase::Synthesizing);
    assert!(matches!(action, SlideAction::Synthesize { .. }));
}

#[test]
fn missing_record_regenerates_despite_artifact() {
    let s = slide(0, "note");
    let (state, _) = start_slide(&s, &config(&[]), true, "out", "mp3");
    let (state, action) = step(
        state,
        SlideEvent::Probed { artifact_exists: true, record: None },
    );
    assert_eq!(state.phase, Phase::Synthesizing);
    assert!(matches!(action, SlideAction::Synthesize { .. }));
}

#[test]
fn cache_disabled_always_synthesizes_and_never_writes_record() {
    let s = slide(7, "spoken text");
    let cfg = config(&[3]);
    let (state, action) = start_slide(&s, &cfg, false, "out", "mp3");
    // no probe: synthesis is requested at once
    assert_eq!(state.phase, Phase::Synthesizing);
    match action {
        SlideAction::Synthesize { text } => assert_eq!(text, "spoken text"),
        _ => panic!("with caching disabled the first action must be synthesis"),
    }
    let (state, action) = step(
        state,
        SlideEvent::Synthesized { result: Ok(vec![0xAA, 0xBB]) },
    );
    match action {
        SlideAction::WriteArtifact { path, bytes } => {
            assert_eq!(path, "out/7.mp3");
            assert_eq!(bytes, vec![0xAA, 0xBB]);
        }
        _ => panic!("successful synthesis must write the artifact"),
    }
    let (state, action) = step(state, SlideEvent::ArtifactWritten { ok: true });
    // no record write: the slide is done as soon as the artifact is written
    assert_eq!(state.phase, Phase::Done(Outcome::Generated));
    match action {
        SlideAction::Report { result } => assert_eq!(result.unwrap(), Outcome::Generated),
        _ => panic!("with caching disabled no cache record may be written"),
    }
}

#[test]
fn record_write_follows_artifact_write_and_failure_is_loud() {
    let s = slide(2, "note");
    let cfg = config(&[5]);
    let (state, _) = start_slide(&s, &cfg, true, "out", "wav");
    let (state, action) = step(
        state,
        SlideEvent::Probed { artifact_exists: false, record: None },
    );
    assert!(matches!(action, SlideAction::Synthesize { .. }));
    let (state, action) = step(
        state,
        SlideEvent::Synthesized { result: Ok(vec![1, 2, 3]) },
    );
    assert!(matches!(action, SlideAction::WriteArtifact { .. }));
    let (state, action) = step(state, SlideEvent::ArtifactWritten { ok: true });
    // only now, after the artifact write succeeded, is the record written
    let expected_rec = record_for("note", &[5]);
    match action {
        SlideAction::WriteRecord { path, bytes } => {
            assert_eq!(path, "out/2.cachekey.txt");
            assert_eq!(bytes, expected_rec);
        }
        _ => panic!("a successful artifact write with caching on must write the record"),
    }
    // simulated fault injection: the record write fails
    let (state, action) = step(state, SlideEvent::RecordWritten { ok: false });
    assert_eq!(state.phase, Phase::Failed(ErrorKind::Persistence));
    match action {
        SlideAction::Report { result } => {
            let err = result.unwrap_err();
            assert_eq!(err.kind, ErrorKind::Persistence);
        }
        _ => panic!("a failed record write must be reported"),
    }
    // a subsequent run sees the artifact but a missing/stale record: miss
    let (state2, _) = start_slide(&s, &cfg, true, "out", "wav");
    let (_, action) = step(
        state2,
        SlideEvent::Probed { artifact_exists: true, record: None },
    );
    assert!(matches!(action, SlideAction::Synthesize { .. }));
}

#[test]
fn synthesis_failure_aborts_slide() {
    let s = slide(1, "note");
    let (state, _) = start_slide(&s, &config(&[]), false, "out", "mp3");
    let (state, action) = step(
        state,
        SlideEvent::Synthesized { result: Err("provider unreachable".to_string()) },
    );
    assert_eq!(state.phase, Phase::Failed(ErrorKind::Synthesis));
    match action {
        SlideAction::Report { result } => {
            let err = result.unwrap_err();
            assert_eq!(err.kind, ErrorKind::Synthesis);
            assert_eq!(err.message, "provider unreachable");
        }
        _ => panic!("a synthesis failure must be reported"),
    }
}

#[test]
fn artifact_write_failure_is_persistence_error() {
    let s = slide(1, "note");
    let (state, _) = start_slide(&s, &config(&[]), false, "out", "mp3");
    let (state, _) = step(state, SlideEvent::Synthesized { result: Ok(vec![1]) });
    let (state, action) = step(state, SlideEvent::ArtifactWritten { ok: false });
    assert_eq!(state.phase, Phase::Failed(ErrorKind::Persistence));
    match action {
        SlideAction::Report { result } => {
            assert_eq!(result.unwrap_err().kind, ErrorKind::Persistence);
        }
        _ => panic!("a failed artifact write must be reported"),
    }
}

#[test]
fn credential_resolution_policy() {
    // the sandbox escape hatch: a fixed placeholder credential
    let r = resolve_credential(None, true);
    assert_eq!(r.unwrap(), "test");
    // a configured credential is passed through
    let r = resolve_credential(Some("SECRET-REDACTED".to_string()), false);
    assert_eq!(r.unwrap(), "SECRET-REDACTED");
    // no credential and no escape hatch: fatal configuration error
    let r = resolve_credential(None, false);
    assert_eq!(r.unwrap_err().kind, ErrorKind::Configuration);
}

#[test]
fn sandbox_provider_detection() {
    assert!(is_sandbox_provider("https://kokoros.transformrs.org/v1"));
    assert!(is_sandbox_provider("kokoros.transformrs.org"));
    assert!(!is_sandbox_provider("https://api.example.com/v1"));
    assert!(!is_sandbox_provider(""));
}

#[test]
fn str_contains_basics() {
    assert!(str_contains("abcdef", "cde"));
    assert!(str_contains("abcdef", ""));
    assert!(str_contains("", ""));
    assert!(!str_contains("", "a"));
    assert!(!str_contains("abc", "abcd"));
    assert!(!str_contains("abcdef", "cdf"));
}
