//! The background refresh of the registry, as a state machine: the caller
//! performs each action (a network request, a parse, a file operation) and
//! hands back what came of it; the machine decides what happens next.
//!
//! The cache file is replaced only by renaming a temporary file over it, and
//! only once that file has been written in full, so an interruption at any
//! point leaves either the old cache or the complete new one.
use vstd::prelude::*;

use crate::registry::{check_version, DependencyRegistryData, SUPPORTED_REGISTRY_VERSION};

verus! {

/// Where a refresh stands.
pub enum RefreshStage {
    /// The request for a newer snapshot was sent.
    Fetching,
    /// The response's body is being read.
    Reading,
    /// The body is being parsed.
    Parsing(String),
    /// The parsed snapshot is being installed in memory.
    Installing(String),
    /// A temporary file beside the cache is being placed.
    Placing(String),
    /// The temporary file is being written.
    Writing,
    /// The temporary file is being renamed over the cache.
    Renaming,
    /// Nothing more will happen.
    Finished,
}

/// What came of the last action.
pub enum RefreshEvent {
    /// Whether the request got a successful response.
    Responded(bool),
    /// The body, if it could be read.
    BodyRead(Option<String>),
    /// The snapshot, if the body parsed as one.
    Parsed(Option<DependencyRegistryData>),
    /// The snapshot replaced the one in memory.
    Installed,
    /// Whether the temporary file could be placed.
    Placed(bool),
    /// Whether the temporary file was written in full.
    Written(bool),
    /// Whether the rename succeeded.
    Renamed(bool),
}

/// What the caller is to do next.
pub enum RefreshAction {
    /// Send the request.
    Fetch,
    /// Read the response's body.
    ReadBody,
    /// Parse this text as a snapshot.
    Parse(String),
    /// Replace the snapshot in memory, as one write, by this one.
    Install(DependencyRegistryData),
    /// Place the temporary file.
    PlaceTemp,
    /// Write this text to the temporary file.
    WriteTemp(String),
    /// Rename the temporary file over the cache file.
    RenameOverCache,
    /// Stop; failures are only logged.
    Stop,
}

/// A character of the Unicode `White_Space` property.
pub open spec fn is_white_space(c: char) -> bool {
    ||| '\u{9}' <= c <= '\u{d}'
    ||| c == ' '
    ||| c == '\u{85}'
    ||| c == '\u{a0}'
    ||| c == '\u{1680}'
    ||| '\u{2000}' <= c <= '\u{200a}'
    ||| c == '\u{2028}'
    ||| c == '\u{2029}'
    ||| c == '\u{202f}'
    ||| c == '\u{205f}'
    ||| c == '\u{3000}'
}

/// The text without its leading white space.
pub open spec fn trimmed_start(s: Seq<char>) -> Seq<char>
    decreases s.len(),
{
    if s.len() > 0 && is_white_space(s[0]) {
        trimmed_start(s.drop_first())
    } else {
        s
    }
}

/// The text without its trailing white space.
pub open spec fn trimmed_end(s: Seq<char>) -> Seq<char>
    decreases s.len(),
{
    if s.len() > 0 && is_white_space(s.last()) {
        trimmed_end(s.drop_last())
    } else {
        s
    }
}

/// The text with leading and trailing white space removed.
pub open spec fn trimmed(s: Seq<char>) -> Seq<char> {
    trimmed_end(trimmed_start(s))
}

/// Relies on `str::trim`, which removes leading and trailing characters of
/// the Unicode `White_Space` property.
#[verifier::external_body]
fn trim(s: &String) -> (r: String)
    ensures
        r@ == trimmed(s@),
{
    s.trim().to_owned()
}

/// One step of the refresh: in stage `stage`, on `event`, the machine goes to
/// stage `next` and asks for `action`. Every failure, and every event that
/// does not belong to the stage, ends the refresh.
pub open spec fn refresh_step_spec(
    stage: RefreshStage,
    event: RefreshEvent,
    next: RefreshStage,
    action: RefreshAction,
) -> bool {
    match (stage, event) {
        (RefreshStage::Fetching, RefreshEvent::Responded(true)) => next is Reading && action is ReadBody,
        (RefreshStage::Reading, RefreshEvent::BodyRead(Some(b))) => next == RefreshStage::Parsing(b)
            && (action matches RefreshAction::Parse(c) && c@ == b@),
        (RefreshStage::Parsing(b), RefreshEvent::Parsed(Some(d))) => if d.version
            == SUPPORTED_REGISTRY_VERSION {
            next == RefreshStage::Installing(b) && action == RefreshAction::Install(d)
        } else {
            next is Finished && action is Stop
        },
        (RefreshStage::Installing(b), RefreshEvent::Installed) => next == RefreshStage::Placing(b)
            && action is PlaceTemp,
        (RefreshStage::Placing(b), RefreshEvent::Placed(true)) => next is Writing
            && (action matches RefreshAction::WriteTemp(c) && c@ == trimmed(b@)),
        (RefreshStage::Writing, RefreshEvent::Written(true)) => next is Renaming
            && action is RenameOverCache,
        _ => next is Finished && action is Stop,
    }
}

/// How a refresh begins: it sends the request.
pub fn refresh_start() -> (r: (RefreshStage, RefreshAction))
    ensures
        r.0 is Fetching,
        r.1 is Fetch,
{
    (RefreshStage::Fetching, RefreshAction::Fetch)
}

/// Decides the next stage and action of a refresh.
pub fn refresh_step(stage: RefreshStage, event: RefreshEvent) -> (r: (RefreshStage, RefreshAction))
    ensures
        refresh_step_spec(stage, event, r.0, r.1),
{
    match (stage, event) {
        (RefreshStage::Fetching, RefreshEvent::Responded(true)) => (RefreshStage::Reading, RefreshAction::ReadBody),
        (RefreshStage::Reading, RefreshEvent::BodyRead(Some(b))) => {
            let c = b.clone();
            (RefreshStage::Parsing(b), RefreshAction::Parse(c))
        },
        (RefreshStage::Parsing(b), RefreshEvent::Parsed(Some(d))) => match check_version(d) {
            Ok(d) => (RefreshStage::Installing(b), RefreshAction::Install(d)),
            Err(_) => (RefreshStage::Finished, RefreshAction::Stop),
        },
        (RefreshStage::Installing(b), RefreshEvent::Installed) => (RefreshStage::Placing(b), RefreshAction::PlaceTemp),
        (RefreshStage::Placing(b), RefreshEvent::Placed(true)) => {
            let c = trim(&b);
            (RefreshStage::Writing, RefreshAction::WriteTemp(c))
        },
        (RefreshStage::Writing, RefreshEvent::Written(true)) => (RefreshStage::Renaming, RefreshAction::RenameOverCache),
        _ => (RefreshStage::Finished, RefreshAction::Stop),
    }
}

/// `stages`, `events` and `actions` record a run of the refresh: it began by
/// fetching, and each event led from one stage to the next.
pub open spec fn valid_run(
    stages: Seq<RefreshStage>,
    events: Seq<RefreshEvent>,
    actions: Seq<RefreshAction>,
) -> bool {
    &&& stages.len() == events.len() + 1
    &&& actions.len() == events.len()
    &&& stages[0] is Fetching
    &&& forall|i: int|
        0 <= i < events.len() ==> refresh_step_spec(
            #[trigger] stages[i],
            events[i],
            stages[i + 1],
            actions[i],
        )
}

/// The cache file and the temporary file beside it.
pub struct CacheFiles {
    pub cache: Seq<char>,
    pub temp: Option<Seq<char>>,
}

/// What an action does to the files, given what came of it. Only a rename
/// that succeeded touches the cache file; a rename is atomic, so one that
/// failed leaves it as it was. A write that did not complete leaves no usable
/// temporary file.
pub open spec fn files_after_action(f: CacheFiles, a: RefreshAction, outcome: RefreshEvent) -> CacheFiles {
    match a {
        RefreshAction::WriteTemp(c) => CacheFiles {
            cache: f.cache,
            temp: if outcome == RefreshEvent::Written(true) {
                Some(c@)
            } else {
                None
            },
        },
        RefreshAction::RenameOverCache => if outcome == RefreshEvent::Renamed(true) {
            match f.temp {
                Some(t) => CacheFiles { cache: t, temp: None },
                None => f,
            }
        } else {
            f
        },
        _ => f,
    }
}

/// The files after `actions` were carried out in order, `outcomes[i]` being
/// what came of `actions[i]`. A run interrupted part way is the prefix of
/// the actions carried out.
pub open spec fn files_after(f: CacheFiles, actions: Seq<RefreshAction>, outcomes: Seq<RefreshEvent>) -> CacheFiles
    decreases actions.len(),
{
    if actions.len() == 0 || outcomes.len() < actions.len() {
        f
    } else {
        files_after_action(
            files_after(f, actions.drop_last(), outcomes.take(actions.len() - 1)),
            actions.last(),
            outcomes[actions.len() - 1],
        )
    }
}

/// In every run, the cache file is renamed over only right after the
/// temporary file was written and the write was reported complete.
pub proof fn lemma_rename_follows_complete_write(
    stages: Seq<RefreshStage>,
    events: Seq<RefreshEvent>,
    actions: Seq<RefreshAction>,
    j: int,
)
    requires
        valid_run(stages, events, actions),
        0 <= j < actions.len(),
        actions[j] is RenameOverCache,
    ensures
        j >= 1,
        actions[j - 1] is WriteTemp,
        events[j] == RefreshEvent::Written(true),
{
    assert(refresh_step_spec(stages[j], events[j], stages[j + 1], actions[j]));
    assert(stages[j] is Writing);
    assert(j != 0);
    assert(refresh_step_spec(stages[j - 1], events[j - 1], stages[j], actions[j - 1]));
}

/// A finished refresh stays finished and asks for nothing more.
pub proof fn lemma_finished_is_final(
    stages: Seq<RefreshStage>,
    events: Seq<RefreshEvent>,
    actions: Seq<RefreshAction>,
    i: int,
    k: int,
)
    requires
        valid_run(stages, events, actions),
        0 <= i <= k < stages.len(),
        stages[i] is Finished,
    ensures
        stages[k] is Finished,
        k < actions.len() ==> actions[k] is Stop,
    decreases k - i,
{
    if k > i {
        lemma_finished_is_final(stages, events, actions, i, k - 1);
        assert(refresh_step_spec(stages[k - 1], events[k - 1], stages[k], actions[k - 1]));
    }
    if k < actions.len() {
        assert(refresh_step_spec(stages[k], events[k], stages[k + 1], actions[k]));
    }
}

/// A refresh makes one attempt: it renames over the cache at most once.
pub proof fn lemma_single_rename(
    stages: Seq<RefreshStage>,
    events: Seq<RefreshEvent>,
    actions: Seq<RefreshAction>,
    j1: int,
    j2: int,
)
    requires
        valid_run(stages, events, actions),
        0 <= j1 < j2 < actions.len(),
        actions[j1] is RenameOverCache,
    ensures
        !(actions[j2] is RenameOverCache),
{
    assert(refresh_step_spec(stages[j1], events[j1], stages[j1 + 1], actions[j1]));
    assert(refresh_step_spec(stages[j1 + 1], events[j1 + 1], stages[j1 + 2], actions[j1 + 1]));
    if j2 > j1 + 1 {
        lemma_finished_is_final(stages, events, actions, j1 + 2, j2);
    }
    if actions[j2] is RenameOverCache {
        lemma_rename_follows_complete_write(stages, events, actions, j2);
    }
}

/// Interrupted at any point, or with its rename failed, a refresh leaves
/// the cache file as it was: only a rename reported successful changes it.
pub proof fn lemma_cache_untouched_unless_renamed(
    f: CacheFiles,
    actions: Seq<RefreshAction>,
    outcomes: Seq<RefreshEvent>,
)
    requires
        outcomes.len() == actions.len(),
        forall|i: int|
            0 <= i < actions.len() ==> !(#[trigger] actions[i] is RenameOverCache && outcomes[i]
                == RefreshEvent::Renamed(true)),
    ensures
        files_after(f, actions, outcomes).cache == f.cache,
    decreases actions.len(),
{
    if actions.len() > 0 {
        let n = actions.len() - 1;
        let prefix = actions.drop_last();
        let before = outcomes.take(n);
        assert forall|i: int| 0 <= i < prefix.len() implies !(#[trigger] prefix[i] is RenameOverCache
            && before[i] == RefreshEvent::Renamed(true)) by {
            assert(prefix[i] == actions[i]);
            assert(before[i] == outcomes[i]);
        }
        lemma_cache_untouched_unless_renamed(f, prefix, before);
        assert(!(actions[n] is RenameOverCache && outcomes[n] == RefreshEvent::Renamed(true)));
    }
}

/// Once a rename over it succeeds, the cache file holds exactly the text that
/// was written in full to the temporary file just before.
pub proof fn lemma_cache_replaced_by_complete_write(
    f: CacheFiles,
    stages: Seq<RefreshStage>,
    events: Seq<RefreshEvent>,
    actions: Seq<RefreshAction>,
    j: int,
)
    requires
        valid_run(stages, events, actions),
        0 <= j,
        j + 1 < events.len(),
        actions[j] is RenameOverCache,
        events[j + 1] == RefreshEvent::Renamed(true),
    ensures
        j >= 1,
        actions[j - 1] matches RefreshAction::WriteTemp(c) && files_after(
            f,
            actions.take(j + 1),
            events.subrange(1, j + 2),
        ).cache == c@,
{
    lemma_rename_follows_complete_write(stages, events, actions, j);
    let outcomes = events.subrange(1, j + 2);
    assert(actions.take(j + 1).drop_last() =~= actions.take(j));
    assert(actions.take(j).drop_last() =~= actions.take(j - 1));
    assert(outcomes.take(j) =~= events.subrange(1, j + 1));
    assert(events.subrange(1, j + 1).take(j - 1) =~= events.subrange(1, j));
    assert(actions.take(j + 1).last() == actions[j]);
    assert(actions.take(j).last() == actions[j - 1]);
    assert(outcomes[j] == events[j + 1]);
    assert(events.subrange(1, j + 1)[j - 1] == events[j]);
    let c = actions[j - 1]->WriteTemp_0;
    assert(files_after(f, actions.take(j), events.subrange(1, j + 1)).temp == Some(c@));
}

} // verus!
