//! Per-slide synthesis orchestration.
//!
//! Whether a slide's audio must be regenerated is decided here, as a small
//! state machine.  The caller (an unverified shell that owns the network,
//! the filesystem and the clock) performs each emitted [`SlideAction`] and
//! feeds the observed [`SlideEvent`] back through [`step`], until a
//! [`SlideAction::Report`] ends the slide.  The machine itself never touches
//! the outside world, so every decision it takes is verified:
//!
//! * with caching disabled, synthesis is requested at once and no cache
//!   record is ever probed or written;
//! * with caching enabled, synthesis is skipped exactly when the artifact
//!   exists and the persisted record equals the canonical bytes of the key
//!   freshly computed from the slide's note and the run's configuration;
//! * a cache record write is requested only in response to a successful
//!   artifact write, so a crash between the two leaves a stale or absent
//!   record and the next run regenerates — never a false skip;
//! * every collaborator failure is reported loudly and ends the slide.

use vstd::prelude::*;

use crate::ErrorKind;
use crate::GenerationError;
use crate::Outcome;
use crate::Slide;
use crate::cache::CacheKey;
use crate::cache::SynthesisConfig;
use crate::cache::bytes_equal;
use crate::cache::serialize_cache_key;
use crate::codec::clone_bytes;
use crate::codec::spec_cache_record;
use crate::paths::audio_cache_key_path;
use crate::paths::audio_path;
use crate::paths::spec_audio_path;
use crate::paths::spec_record_path;

verus! {

/// Where the machine stands for one slide.
#[derive(Clone, Copy, Debug, PartialEq, Eq, Structural)]
pub enum Phase {
    /// The cache is being probed (artifact existence and record bytes).
    Probing,
    /// The synthesis collaborator has been asked for audio.
    Synthesizing,
    /// The audio bytes are being written to the artifact path.
    WritingArtifact,
    /// The fresh cache record is being written.
    WritingRecord,
    /// The slide is complete.
    Done(Outcome),
    /// The slide failed; the batch must abort.
    Failed(ErrorKind),
}

/// The verified state for one slide.
pub struct SlideState {
    pub cache_enabled: bool,
    pub text: String,
    pub key_bytes: Vec<u8>,
    pub artifact_path: String,
    pub record_path: String,
    pub phase: Phase,
}

/// The mathematical value of a [`SlideState`].
pub struct SlideStateModel {
    pub cache_enabled: bool,
    pub text: Seq<char>,
    pub key_bytes: Seq<u8>,
    pub artifact_path: Seq<char>,
    pub record_path: Seq<char>,
    pub phase: Phase,
}

impl View for SlideState {
    type V = SlideStateModel;

    open spec fn view(&self) -> SlideStateModel {
        SlideStateModel {
            cache_enabled: self.cache_enabled,
            text: self.text@,
            key_bytes: self.key_bytes@,
            artifact_path: self.artifact_path@,
            record_path: self.record_path@,
            phase: self.phase,
        }
    }
}

/// What the outside world reports back to the machine.
pub enum SlideEvent {
    /// Whether the artifact exists, and the record bytes if readable.
    Probed { artifact_exists: bool, record: Option<Vec<u8>> },
    /// The collaborator's audio bytes, or its diagnostic message.
    Synthesized { result: Result<Vec<u8>, String> },
    /// Whether the artifact write succeeded.
    ArtifactWritten { ok: bool },
    /// Whether the record write succeeded.
    RecordWritten { ok: bool },
}

/// The mathematical value of a [`SlideEvent`].
pub enum SlideEventModel {
    Probed { artifact_exists: bool, record: Option<Seq<u8>> },
    Synthesized { result: Result<Seq<u8>, Seq<char>> },
    ArtifactWritten { ok: bool },
    RecordWritten { ok: bool },
}

impl View for SlideEvent {
    type V = SlideEventModel;

    open spec fn view(&self) -> SlideEventModel {
        match self {
            SlideEvent::Probed { artifact_exists, record } => SlideEventModel::Probed {
                artifact_exists: *artifact_exists,
                record: match record {
                    Some(r) => Some(r@),
                    None => None,
                },
            },
            SlideEvent::Synthesized { result } => SlideEventModel::Synthesized {
                result: match result {
                    Ok(b) => Ok(b@),
                    Err(m) => Err(m@),
                },
            },
            SlideEvent::ArtifactWritten { ok } => SlideEventModel::ArtifactWritten { ok: *ok },
            SlideEvent::RecordWritten { ok } => SlideEventModel::RecordWritten { ok: *ok },
        }
    }
}

/// What the outside world must do next for this slide.
pub enum SlideAction {
    /// Check artifact existence and read the record bytes.
    ProbeCache { artifact_path: String, record_path: String },
    /// Ask the synthesis collaborator for audio of this text.
    Synthesize { text: String },
    /// Write these audio bytes to this path (creating parent directories).
    WriteArtifact { path: String, bytes: Vec<u8> },
    /// Persist this fresh cache record at this path.
    WriteRecord { path: String, bytes: Vec<u8> },
    /// The slide is finished: success with its outcome, or a hard failure.
    Report { result: Result<Outcome, GenerationError> },
}

/// The mathematical value of a [`GenerationError`].
pub struct GenerationErrorModel {
    pub kind: ErrorKind,
    pub message: Seq<char>,
}

impl View for GenerationError {
    type V = GenerationErrorModel;

    open spec fn view(&self) -> GenerationErrorModel {
        GenerationErrorModel { kind: self.kind, message: self.message@ }
    }
}

/// The mathematical value of a [`SlideAction`].
pub enum SlideActionModel {
    ProbeCache { artifact_path: Seq<char>, record_path: Seq<char> },
    Synthesize { text: Seq<char> },
    WriteArtifact { path: Seq<char>, bytes: Seq<u8> },
    WriteRecord { path: Seq<char>, bytes: Seq<u8> },
    Report { result: Result<Outcome, GenerationErrorModel> },
}

impl View for SlideAction {
    type V = SlideActionModel;

    open spec fn view(&self) -> SlideActionModel {
        match self {
            SlideAction::ProbeCache { artifact_path, record_path } => SlideActionModel::ProbeCache {
                artifact_path: artifact_path@,
                record_path: record_path@,
            },
            SlideAction::Synthesize { text } => SlideActionModel::Synthesize { text: text@ },
            SlideAction::WriteArtifact { path, bytes } => SlideActionModel::WriteArtifact {
                path: path@,
                bytes: bytes@,
            },
            SlideAction::WriteRecord { path, bytes } => SlideActionModel::WriteRecord {
                path: path@,
                bytes: bytes@,
            },
            SlideAction::Report { result } => SlideActionModel::Report {
                result: match result {
                    Ok(o) => Ok(*o),
                    Err(e) => Err(e@),
                },
            },
        }
    }
}

/// Which event a state can consume.
pub open spec fn event_fits(phase: Phase, e: SlideEventModel) -> bool {
    match (phase, e) {
        (Phase::Probing, SlideEventModel::Probed { .. }) => true,
        (Phase::Synthesizing, SlideEventModel::Synthesized { .. }) => true,
        (Phase::WritingArtifact, SlideEventModel::ArtifactWritten { .. }) => true,
        (Phase::WritingRecord, SlideEventModel::RecordWritten { .. }) => true,
        _ => false,
    }
}

/// A probe outcome that permits a skip: the artifact exists and the record
/// bytes equal the state's freshly computed key bytes.
pub open spec fn spec_hit(
    s: SlideStateModel,
    artifact_exists: bool,
    record: Option<Seq<u8>>,
) -> bool {
    artifact_exists && record == Some(s.key_bytes)
}

/// The state with only its phase changed.
pub open spec fn with_phase(s: SlideStateModel, phase: Phase) -> SlideStateModel {
    SlideStateModel { phase, ..s }
}

/// The transition function of the per-slide machine.
pub open spec fn next(s: SlideStateModel, e: SlideEventModel) -> (SlideStateModel, SlideActionModel) {
    match e {
        SlideEventModel::Probed { artifact_exists, record } => {
            if spec_hit(s, artifact_exists, record) {
                (
                    with_phase(s, Phase::Done(Outcome::Skipped)),
                    SlideActionModel::Report { result: Ok(Outcome::Skipped) },
                )
            } else {
                (
                    with_phase(s, Phase::Synthesizing),
                    SlideActionModel::Synthesize { text: s.text },
                )
            }
        },
        SlideEventModel::Synthesized { result } => match result {
            Ok(bytes) => (
                with_phase(s, Phase::WritingArtifact),
                SlideActionModel::WriteArtifact { path: s.artifact_path, bytes },
            ),
            Err(message) => (
                with_phase(s, Phase::Failed(ErrorKind::Synthesis)),
                SlideActionModel::Report {
                    result: Err(GenerationErrorModel { kind: ErrorKind::Synthesis, message }),
                },
            ),
        },
        SlideEventModel::ArtifactWritten { ok } => {
            if !ok {
                (
                    with_phase(s, Phase::Failed(ErrorKind::Persistence)),
                    SlideActionModel::Report {
                        result: Err(
                            GenerationErrorModel {
                                kind: ErrorKind::Persistence,
                                message: "artifact write failed"@,
                            },
                        ),
                    },
                )
            } else if s.cache_enabled {
                (
                    with_phase(s, Phase::WritingRecord),
                    SlideActionModel::WriteRecord { path: s.record_path, bytes: s.key_bytes },
                )
            } else {
                (
                    with_phase(s, Phase::Done(Outcome::Generated)),
                    SlideActionModel::Report { result: Ok(Outcome::Generated) },
                )
            }
        },
        SlideEventModel::RecordWritten { ok } => {
            if ok {
                (
                    with_phase(s, Phase::Done(Outcome::Generated)),
                    SlideActionModel::Report { result: Ok(Outcome::Generated) },
                )
            } else {
                (
                    with_phase(s, Phase::Failed(ErrorKind::Persistence)),
                    SlideActionModel::Report {
                        result: Err(
                            GenerationErrorModel {
                                kind: ErrorKind::Persistence,
                                message: "cache record write failed"@,
                            },
                        ),
                    },
                )
            }
        },
    }
}

/// The initial state and first action for a slide: probe the cache when it
/// is enabled, otherwise ask for synthesis at once.
pub open spec fn spec_start(
    note: Seq<char>,
    config: Seq<u8>,
    cache_enabled: bool,
    dir: Seq<char>,
    audio_ext: Seq<char>,
    idx: u64,
) -> (SlideStateModel, SlideActionModel) {
    let s = SlideStateModel {
        cache_enabled,
        text: note,
        key_bytes: spec_cache_record(note, config),
        artifact_path: spec_audio_path(dir, idx, audio_ext),
        record_path: spec_record_path(dir, idx),
        phase: if cache_enabled {
            Phase::Probing
        } else {
            Phase::Synthesizing
        },
    };
    if cache_enabled {
        (
            s,
            SlideActionModel::ProbeCache {
                artifact_path: s.artifact_path,
                record_path: s.record_path,
            },
        )
    } else {
        (s, SlideActionModel::Synthesize { text: note })
    }
}

/// Whether `n` occurs in `h` starting at position `i`.
pub open spec fn spec_contains_at(h: Seq<char>, n: Seq<char>, i: int) -> bool {
    0 <= i && i + n.len() <= h.len() && h.subrange(i, i + n.len()) == n
}

/// Whether `n` occurs anywhere in `h`.
pub open spec fn spec_contains(h: Seq<char>, n: Seq<char>) -> bool {
    exists|i: int| spec_contains_at(h, n, i)
}

/// Whether `n` occurs in `h` at position `i`, as executable code.
fn match_at(h: &str, n: &str, i: usize, hl: usize, nl: usize) -> (r: bool)
    requires
        hl == h@.len(),
        nl == n@.len(),
        i + nl <= hl,
    ensures
        r == (h@.subrange(i as int, i + nl) == n@),
{
    let mut j: usize = 0;
    while j < nl
        invariant
            hl == h@.len(),
            nl == n@.len(),
            i + nl <= hl,
            j <= nl,
            forall|k: int| 0 <= k < j ==> h@[i + k] == n@[k],
        decreases nl - j,
    {
        if h.get_char(i + j) != n.get_char(j) {
            proof {
                assert(h@.subrange(i as int, i + nl)[j as int] == h@[i + j]);
            }
            return false;
        }
        j = j + 1;
    }
    proof {
        assert(h@.subrange(i as int, i + nl) =~= n@);
    }
    true
}

/// Whether the needle occurs anywhere in the haystack.
pub fn str_contains(haystack: &str, needle: &str) -> (r: bool)
    ensures
        r == spec_contains(haystack@, needle@),
{
    let hl = haystack.unicode_len();
    let nl = needle.unicode_len();
    if nl > hl {
        proof {
            assert(!spec_contains(haystack@, needle@)) by {
                if spec_contains(haystack@, needle@) {
                    let i = choose|i: int| spec_contains_at(haystack@, needle@, i);
                    assert(i + needle@.len() <= haystack@.len());
                }
            }
        }
        return false;
    }
    let mut i: usize = 0;
    loop
        invariant
            hl == haystack@.len(),
            nl == needle@.len(),
            nl <= hl,
            i <= hl - nl,
            forall|k: int| 0 <= k < i ==> #[trigger] haystack@.subrange(
                k, k + needle@.len() as int) != needle@,
        decreases hl - nl - i,
    {
        if match_at(haystack, needle, i, hl, nl) {
            proof {
                assert(spec_contains_at(haystack@, needle@, i as int));
            }
            return true;
        }
        if i == hl - nl {
            proof {
                assert(!spec_contains(haystack@, needle@)) by {
                    if spec_contains(haystack@, needle@) {
                        let k = choose|k: int| spec_contains_at(haystack@, needle@, k);
                        assert(0 <= k <= hl - nl);
                        assert(haystack@.subrange(k, k + needle@.len() as int) == needle@);
                    }
                }
            }
            return false;
        }
        i = i + 1;
    }
}

/// The test provider's domain: against this endpoint a run may proceed with
/// the fixed placeholder credential instead of a configured one.
pub fn sandbox_domain() -> (r: &'static str)
    ensures
        r@ == "kokoros.transformrs.org"@,
{
    "kokoros.transformrs.org"
}

/// Whether a provider domain is the designated test/sandbox endpoint, by the
/// documented substring convention.
pub fn is_sandbox_provider(domain: &str) -> (r: bool)
    ensures
        r == spec_contains(domain@, "kokoros.transformrs.org"@),
{
    str_contains(domain, sandbox_domain())
}

/// Resolves the credential for a batch.  With the explicit test switch set
/// (the sandbox-endpoint escape hatch) the fixed placeholder credential is
/// used; otherwise the configured credential is required, and its absence is
/// a fatal configuration error for the whole batch.
pub fn resolve_credential(configured: Option<String>, use_test_credential: bool) -> (r: Result<
    String,
    GenerationError,
>)
    ensures
        use_test_credential ==> (r matches Ok(k) && k@ == "test"@),
        !use_test_credential ==> (match configured {
            Some(c) => r matches Ok(k) && k == c,
            None => r matches Err(e) && e.kind == ErrorKind::Configuration,
        }),
{
    if use_test_credential {
        Ok(String::from_str("test"))
    } else {
        match configured {
            Some(c) => Ok(c),
            None => Err(
                GenerationError {
                    kind: ErrorKind::Configuration,
                    message: String::from_str("no credential configured for provider"),
                },
            ),
        }
    }
}

/// Law: for a slide with unchanged note text and configuration, an existing
/// artifact and a matching cache record, the machine skips: after the probe
/// it is done, and the only actions it ever emitted are the probe itself and
/// the success report — no synthesis request, no write.
pub proof fn law_cache_hit_skips(
    note: Seq<char>,
    config: Seq<u8>,
    dir: Seq<char>,
    audio_ext: Seq<char>,
    idx: u64,
    record: Option<Seq<u8>>,
)
    requires
        record == Some(spec_cache_record(note, config)),
    ensures
        spec_start(note, config, true, dir, audio_ext, idx).1 matches
            SlideActionModel::ProbeCache { .. },
        ({
            let s0 = spec_start(note, config, true, dir, audio_ext, idx).0;
            let e = SlideEventModel::Probed { artifact_exists: true, record };
            next(s0, e).0.phase == Phase::Done(Outcome::Skipped) && next(s0, e).1
                == (SlideActionModel::Report { result: Ok(Outcome::Skipped) })
        }),
{
}

/// Law: changing the note text between two runs forces regeneration, even
/// though an old artifact still exists at the unchanged artifact path: the
/// record persisted for the old note cannot match the fresh key.
pub proof fn law_text_change_regenerates(
    old_note: Seq<char>,
    note: Seq<char>,
    config: Seq<u8>,
    dir: Seq<char>,
    audio_ext: Seq<char>,
    idx: u64,
)
    requires
        old_note != note,
        old_note.len() <= u64::MAX,
        note.len() <= u64::MAX,
        config.len() <= u64::MAX,
    ensures
        ({
            let s0 = spec_start(note, config, true, dir, audio_ext, idx).0;
            let e = SlideEventModel::Probed {
                artifact_exists: true,
                record: Some(spec_cache_record(old_note, config)),
            };
            next(s0, e).0.phase == Phase::Synthesizing && next(s0, e).1
                == (SlideActionModel::Synthesize { text: note })
        }),
{
    if spec_cache_record(old_note, config) == spec_cache_record(note, config) {
        crate::codec::lemma_cache_record_injective(old_note, config, note, config);
    }
}

/// Law: an identical note with a different configuration value forces
/// regeneration.
pub proof fn law_config_change_regenerates(
    note: Seq<char>,
    old_config: Seq<u8>,
    config: Seq<u8>,
    dir: Seq<char>,
    audio_ext: Seq<char>,
    idx: u64,
)
    requires
        old_config != config,
        note.len() <= u64::MAX,
        old_config.len() <= u64::MAX,
        config.len() <= u64::MAX,
    ensures
        ({
            let s0 = spec_start(note, config, true, dir, audio_ext, idx).0;
            let e = SlideEventModel::Probed {
                artifact_exists: true,
                record: Some(spec_cache_record(note, old_config)),
            };
            next(s0, e).0.phase == Phase::Synthesizing && next(s0, e).1
                == (SlideActionModel::Synthesize { text: note })
        }),
{
    if spec_cache_record(note, old_config) == spec_cache_record(note, config) {
        crate::codec::lemma_cache_record_injective(note, old_config, note, config);
    }
}

/// Law: with caching disabled the very first action is a synthesis request,
/// regardless of any prior state on disk.
pub proof fn law_disabled_starts_synthesis(
    note: Seq<char>,
    config: Seq<u8>,
    dir: Seq<char>,
    audio_ext: Seq<char>,
    idx: u64,
)
    ensures
        spec_start(note, config, false, dir, audio_ext, idx).1 == (SlideActionModel::Synthesize {
            text: note,
        }),
        spec_start(note, config, false, dir, audio_ext, idx).0.phase == Phase::Synthesizing,
{
}

/// Law: with caching disabled the machine never reads or writes a cache
/// record, in any state and on any event; and caching never becomes enabled
/// mid-slide.
pub proof fn law_disabled_never_touches_cache(s: SlideStateModel, e: SlideEventModel)
    requires
        !s.cache_enabled,
        event_fits(s.phase, e),
    ensures
        !(next(s, e).1 matches SlideActionModel::ProbeCache { .. }),
        !(next(s, e).1 matches SlideActionModel::WriteRecord { .. }),
        !next(s, e).0.cache_enabled,
{
}

/// Law: a cache record write is requested only as the response to a
/// successful artifact write, with caching enabled, and it carries exactly
/// the canonical key bytes to the record path.  (So a record is never
/// written speculatively: a crash after the artifact write but before the
/// record write leaves a stale or absent record, and the next run
/// regenerates.)
pub proof fn law_record_write_only_after_artifact_success(s: SlideStateModel, e: SlideEventModel)
    requires
        event_fits(s.phase, e),
        next(s, e).1 matches SlideActionModel::WriteRecord { .. },
    ensures
        s.phase == Phase::WritingArtifact,
        s.cache_enabled,
        e == (SlideEventModel::ArtifactWritten { ok: true }),
        next(s, e).1 == (SlideActionModel::WriteRecord {
            path: s.record_path,
            bytes: s.key_bytes,
        }),
{
}

/// Law: the very first action of a slide is never a write.
pub proof fn law_start_never_writes(
    note: Seq<char>,
    config: Seq<u8>,
    cache_enabled: bool,
    dir: Seq<char>,
    audio_ext: Seq<char>,
    idx: u64,
)
    ensures
        !(spec_start(note, config, cache_enabled, dir, audio_ext, idx).1 matches
            SlideActionModel::WriteRecord { .. }),
        !(spec_start(note, config, cache_enabled, dir, audio_ext, idx).1 matches
            SlideActionModel::WriteArtifact { .. }),
{
}

/// Law: record absence or staleness wins over artifact presence.  Whenever
/// the probed record is anything but the fresh canonical key bytes, the
/// machine regenerates, even if the artifact exists.
pub proof fn law_stale_record_regenerates(
    s: SlideStateModel,
    artifact_exists: bool,
    record: Option<Seq<u8>>,
)
    requires
        s.phase == Phase::Probing,
        record != Some(s.key_bytes),
    ensures
        ({
            let e = SlideEventModel::Probed { artifact_exists, record };
            next(s, e).0.phase == Phase::Synthesizing && next(s, e).1
                == (SlideActionModel::Synthesize { text: s.text })
        }),
{
}

/// Law: a failed record write fails the slide loudly; it is never masked.
pub proof fn law_record_write_failure_is_loud(s: SlideStateModel)
    ensures
        ({
            let e = SlideEventModel::RecordWritten { ok: false };
            next(s, e).0.phase == Phase::Failed(ErrorKind::Persistence) && (next(s, e).1 matches
                SlideActionModel::Report { result } && (result matches Err(err) && err.kind
                == ErrorKind::Persistence))
        }),
{
}

/// Begins orchestration of one slide, returning the initial state and the
/// first action the caller must perform.
pub fn start_slide(
    slide: &Slide,
    config: &SynthesisConfig,
    cache_enabled: bool,
    dir: &str,
    audio_ext: &str,
) -> (r: (SlideState, SlideAction))
    ensures
        r.0@ == spec_start(slide.note@, config@, cache_enabled, dir@, audio_ext@, slide.idx).0,
        r.1@ == spec_start(slide.note@, config@, cache_enabled, dir@, audio_ext@, slide.idx).1,
{
    let key = CacheKey { text: slide.note.clone(), config: config.clone() };
    let key_bytes = serialize_cache_key(&key);
    let artifact_path = audio_path(dir, slide, audio_ext);
    let record_path = audio_cache_key_path(dir, slide);
    if cache_enabled {
        let action = SlideAction::ProbeCache {
            artifact_path: artifact_path.clone(),
            record_path: record_path.clone(),
        };
        let state = SlideState {
            cache_enabled,
            text: slide.note.clone(),
            key_bytes,
            artifact_path,
            record_path,
            phase: Phase::Probing,
        };
        (state, action)
    } else {
        let action = SlideAction::Synthesize { text: slide.note.clone() };
        let state = SlideState {
            cache_enabled,
            text: slide.note.clone(),
            key_bytes,
            artifact_path,
            record_path,
            phase: Phase::Synthesizing,
        };
        (state, action)
    }
}

/// Consumes one event and returns the successor state and the next action.
pub fn step(s: SlideState, e: SlideEvent) -> (r: (SlideState, SlideAction))
    requires
        event_fits(s@.phase, e@),
    ensures
        r.0@ == next(s@, e@).0,
        r.1@ == next(s@, e@).1,
{
    match e {
        SlideEvent::Probed { artifact_exists, record } => {
            let hit = if !artifact_exists {
                false
            } else {
                match &record {
                    None => false,
                    Some(rec) => bytes_equal(rec, &s.key_bytes),
                }
            };
            if hit {
                let s2 = SlideState { phase: Phase::Done(Outcome::Skipped), ..s };
                (s2, SlideAction::Report { result: Ok(Outcome::Skipped) })
            } else {
                let action = SlideAction::Synthesize { text: s.text.clone() };
                let s2 = SlideState { phase: Phase::Synthesizing, ..s };
                (s2, action)
            }
        },
        SlideEvent::Synthesized { result } => match result {
            Ok(bytes) => {
                let action = SlideAction::WriteArtifact {
                    path: s.artifact_path.clone(),
                    bytes,
                };
                let s2 = SlideState { phase: Phase::WritingArtifact, ..s };
                (s2, action)
            },
            Err(message) => {
                let s2 = SlideState { phase: Phase::Failed(ErrorKind::Synthesis), ..s };
                (
                    s2,
                    SlideAction::Report {
                        result: Err(GenerationError { kind: ErrorKind::Synthesis, message }),
                    },
                )
            },
        },
        SlideEvent::ArtifactWritten { ok } => {
            if !ok {
                let s2 = SlideState { phase: Phase::Failed(ErrorKind::Persistence), ..s };
                (
                    s2,
                    SlideAction::Report {
                        result: Err(
                            GenerationError {
                                kind: ErrorKind::Persistence,
                                message: String::from_str("artifact write failed"),
                            },
                        ),
                    },
                )
            } else if s.cache_enabled {
                let action = SlideAction::WriteRecord {
                    path: s.record_path.clone(),
                    bytes: clone_bytes(&s.key_bytes),
                };
                let s2 = SlideState { phase: Phase::WritingRecord, ..s };
                (s2, action)
            } else {
                let s2 = SlideState { phase: Phase::Done(Outcome::Generated), ..s };
                (s2, SlideAction::Report { result: Ok(Outcome::Generated) })
            }
        },
        SlideEvent::RecordWritten { ok } => {
            if ok {
                let s2 = SlideState { phase: Phase::Done(Outcome::Generated), ..s };
                (s2, SlideAction::Report { result: Ok(Outcome::Generated) })
            } else {
                let s2 = SlideState { phase: Phase::Failed(ErrorKind::Persistence), ..s };
                (
                    s2,
                    SlideAction::Report {
                        result: Err(
                            GenerationError {
                                kind: ErrorKind::Persistence,
                                message: String::from_str("cache record write failed"),
                            },
                        ),
                    },
                )
            }
        },
    }
}

} // verus!
