//! The unblocking core: per-file classification, the aggregation of
//! outcomes over a directory walk, and the dispatch on the kind of target.
//!
//! Everything here is a decision on plain values.  The embedding program
//! walks the tree, attempts the deletion of each marker stream, and reports
//! what happened as a [`RemovalEvent`] or a [`WalkEvent`]; the functions
//! here turn those reports into results, statistics and the escalation
//! flag, under contracts that pin every count exactly.

use vstd::prelude::*;

use crate::config::{same_but_elevation, Config};
use crate::error::UnblockerError;
use crate::path_utils::{
    ads_path_of, invalid_path_error, is_dangerous_path, is_safe_path, path_ok, validate_path,
};
use crate::text::{dec_rep, usize_to_string};

verus! {

/// The counters accumulated over one run.
#[derive(Debug, Clone, Copy, PartialEq, Eq, Structural)]
pub struct UnblockStats {
    /// Regular files visited and classified.
    pub files_processed: usize,
    /// Files whose marker existed and was removed.
    pub files_unblocked: usize,
    /// Files that had no marker (not an error).
    pub files_no_ads: usize,
    /// Files that failed, plus entries that failed enumeration.
    pub files_failed: usize,
    /// The failures that were permission denials.
    pub permission_errors: usize,
}

impl Default for UnblockStats {
    /// All counters start at zero.
    fn default() -> (r: Self)
        ensures
            r == (UnblockStats {
                files_processed: 0,
                files_unblocked: 0,
                files_no_ads: 0,
                files_failed: 0,
                permission_errors: 0,
            }),
    {
        UnblockStats {
            files_processed: 0,
            files_unblocked: 0,
            files_no_ads: 0,
            files_failed: 0,
            permission_errors: 0,
        }
    }
}

/// The fixed summary line for a statistics value.
pub open spec fn summary_text(s: UnblockStats) -> Seq<char> {
    "Processed "@ + dec_rep(s.files_processed as nat) + " files: "@ + dec_rep(
        s.files_unblocked as nat,
    ) + " unblocked, "@ + dec_rep(s.files_no_ads as nat) + " had no ADS, "@ + dec_rep(
        s.files_failed as nat,
    ) + " failed ("@ + dec_rep(s.permission_errors as nat) + " permission errors)"@
}

impl UnblockStats {
    /// Renders the summary line for these counters.
    pub fn summary(&self) -> (r: String)
        ensures
            r@ == summary_text(*self),
    {
        let mut r = String::from_str("Processed ");
        let n = usize_to_string(self.files_processed);
        r.append(n.as_str());
        r.append(" files: ");
        let n = usize_to_string(self.files_unblocked);
        r.append(n.as_str());
        r.append(" unblocked, ");
        let n = usize_to_string(self.files_no_ads);
        r.append(n.as_str());
        r.append(" had no ADS, ");
        let n = usize_to_string(self.files_failed);
        r.append(n.as_str());
        r.append(" failed (");
        let n = usize_to_string(self.permission_errors);
        r.append(n.as_str());
        r.append(" permission errors)");
        proof {
            assert(r@ =~= summary_text(*self));
        }
        r
    }
}

/// What the embedding program observed when it attempted to delete a
/// marker stream.
#[derive(Debug)]
pub enum RemovalEvent {
    /// The marker stream existed and was deleted.
    Removed,
    /// No marker stream was present.
    NotFound,
    /// The operating system refused access.
    AccessDenied,
    /// Any other failure, rendered as text.
    Failed(String),
}

/// What to do for one file, decided before any filesystem access.
#[derive(Debug)]
pub enum UnblockAction {
    /// The path fails validation; nothing may be attempted for it.
    Reject,
    /// The path lies in a denylisted system location; it is skipped with a
    /// warning and counts as a no-op success.
    Skip,
    /// Delete the marker stream at the carried path.
    Remove(String),
}

/// The escalation flag after one removal report has been taken in: a
/// denial forces it, and nothing resets it.
pub open spec fn elevation_after(before: bool, removal: Option<RemovalEvent>) -> bool {
    before || removal matches Some(RemovalEvent::AccessDenied)
}

/// Decides what to do for one file path, before any filesystem access:
/// an invalid path is rejected, a denylisted one skipped, and for the rest
/// the marker's storage location is handed back.
pub fn plan_unblock(file_path: &str) -> (a: UnblockAction)
    ensures
        !path_ok(file_path@) ==> a is Reject,
        path_ok(file_path@) && is_dangerous_path(file_path@) ==> a is Skip,
        path_ok(file_path@) && !is_dangerous_path(file_path@) ==> (a matches UnblockAction::Remove(
            p,
        ) && p@ == ads_path_of(file_path@)),
{
    match validate_path(file_path) {
        Err(_) => UnblockAction::Reject,
        Ok(p) => {
            if !is_safe_path(file_path) {
                UnblockAction::Skip
            } else {
                UnblockAction::Remove(p.concat(":Zone.Identifier"))
            }
        },
    }
}

/// Classifies the unblock of one file and maintains the escalation flag.
///
/// `removal` is the report of the deletion attempt; there is one exactly
/// when [`plan_unblock`] asked for a deletion, that is when the path is
/// valid and outside the denylist.  An invalid path yields the validation
/// error, a denylisted one a no-op success; otherwise a deleted marker
/// yields `Ok(true)`, an absent one `Ok(false)`, a denial the
/// `PermissionDenied` error after setting the escalation flag, and any
/// other failure the `Io` error.
pub fn unblock_file(file_path: &str, removal: Option<RemovalEvent>, config: &mut Config) -> (r:
    Result<bool, UnblockerError>)
    requires
        removal is Some <==> path_ok(file_path@) && !is_dangerous_path(file_path@),
    ensures
        same_but_elevation(*old(config), *final(config)),
        final(config).requires_elevation == elevation_after(
            old(config).requires_elevation,
            removal,
        ),
        !path_ok(file_path@) ==> (r matches Err(e) && invalid_path_error(file_path@, e)),
        path_ok(file_path@) && is_dangerous_path(file_path@) ==> (r matches Ok(b) && !b),
        removal matches Some(RemovalEvent::Removed) ==> (r matches Ok(b) && b),
        removal matches Some(RemovalEvent::NotFound) ==> (r matches Ok(b) && !b),
        removal matches Some(RemovalEvent::AccessDenied) ==> (r matches Err(
            UnblockerError::PermissionDenied(p),
        ) && p@ == file_path@),
        removal matches Some(RemovalEvent::Failed(m)) ==> (r matches Err(UnblockerError::Io(im))
            && im@ == m@),
{
    match validate_path(file_path) {
        Err(e) => Err(e),
        Ok(_) => {
            if !is_safe_path(file_path) {
                Ok(false)
            } else {
                match removal {
                    Some(RemovalEvent::Removed) => Ok(true),
                    Some(RemovalEvent::NotFound) => Ok(false),
                    Some(RemovalEvent::AccessDenied) => {
                        config.set_requires_elevation();
                        Err(UnblockerError::PermissionDenied(String::from_str(file_path)))
                    },
                    Some(RemovalEvent::Failed(m)) => Err(UnblockerError::Io(m)),
                    None => {
                        proof {
                            assert(false);
                        }
                        Ok(false)
                    },
                }
            }
        },
    }
}

/// One step of a directory walk as the embedding program reports it.
#[derive(Debug)]
pub enum WalkEvent {
    /// A regular file was visited; carries its per-file unblock result.
    File(Result<bool, UnblockerError>),
    /// A directory entry could not be enumerated; `access_denied` tells a
    /// permission denial apart from any other failure.
    EnumerationError { access_denied: bool },
}

/// What one event adds to `files_processed`.
pub open spec fn adds_processed(ev: WalkEvent) -> nat {
    if ev is File {
        1
    } else {
        0
    }
}

/// What one event adds to `files_unblocked`.
pub open spec fn adds_unblocked(ev: WalkEvent) -> nat {
    match ev {
        WalkEvent::File(Ok(b)) => if b {
            1
        } else {
            0
        },
        _ => 0,
    }
}

/// What one event adds to `files_no_ads`.
pub open spec fn adds_no_ads(ev: WalkEvent) -> nat {
    match ev {
        WalkEvent::File(Ok(b)) => if b {
            0
        } else {
            1
        },
        _ => 0,
    }
}

/// What one event adds to `files_failed`.
pub open spec fn adds_failed(ev: WalkEvent) -> nat {
    match ev {
        WalkEvent::File(Ok(_)) => 0,
        WalkEvent::File(Err(_)) => 1,
        WalkEvent::EnumerationError { .. } => 1,
    }
}

/// What one event adds to `permission_errors`.
pub open spec fn adds_perm_errors(ev: WalkEvent) -> nat {
    match ev {
        WalkEvent::File(Err(UnblockerError::PermissionDenied(_))) => 1,
        WalkEvent::EnumerationError { access_denied } => if access_denied {
            1
        } else {
            0
        },
        _ => 0,
    }
}

/// What one event adds to the count of enumeration failures.
pub open spec fn adds_enum_errors(ev: WalkEvent) -> nat {
    if ev is EnumerationError {
        1
    } else {
        0
    }
}

/// Whether the event is an enumeration failure caused by a denial.
pub open spec fn is_enum_denied(ev: WalkEvent) -> bool {
    ev matches WalkEvent::EnumerationError { access_denied: true }
}

/// Sums a per-event contribution over a sequence of events.
pub open spec fn count_of(evs: Seq<WalkEvent>, f: spec_fn(WalkEvent) -> nat) -> nat
    decreases evs.len(),
{
    if evs.len() == 0 {
        0
    } else {
        count_of(evs.drop_last(), f) + f(evs.last())
    }
}

/// The number of regular files visited.
pub open spec fn count_processed(evs: Seq<WalkEvent>) -> nat {
    count_of(evs, |ev: WalkEvent| adds_processed(ev))
}

/// The number of files whose marker was removed.
pub open spec fn count_unblocked(evs: Seq<WalkEvent>) -> nat {
    count_of(evs, |ev: WalkEvent| adds_unblocked(ev))
}

/// The number of files that had no marker.
pub open spec fn count_no_ads(evs: Seq<WalkEvent>) -> nat {
    count_of(evs, |ev: WalkEvent| adds_no_ads(ev))
}

/// The number of failures, per-file and enumeration alike.
pub open spec fn count_failed(evs: Seq<WalkEvent>) -> nat {
    count_of(evs, |ev: WalkEvent| adds_failed(ev))
}

/// The number of failures that were permission denials.
pub open spec fn count_perm_errors(evs: Seq<WalkEvent>) -> nat {
    count_of(evs, |ev: WalkEvent| adds_perm_errors(ev))
}

/// The number of enumeration failures.
pub open spec fn count_enum_errors(evs: Seq<WalkEvent>) -> nat {
    count_of(evs, |ev: WalkEvent| adds_enum_errors(ev))
}

/// Whether any enumeration failure in the walk was a denial.
pub open spec fn any_enum_denied(evs: Seq<WalkEvent>) -> bool
    decreases evs.len(),
{
    if evs.len() == 0 {
        false
    } else {
        any_enum_denied(evs.drop_last()) || is_enum_denied(evs.last())
    }
}

/// Appending one event adds exactly its contribution to a count.
proof fn lemma_count_push(evs: Seq<WalkEvent>, f: spec_fn(WalkEvent) -> nat, ev: WalkEvent)
    ensures
        count_of(evs.push(ev), f) == count_of(evs, f) + f(ev),
{
    assert(evs.push(ev).drop_last() =~= evs);
    assert(evs.push(ev).last() == ev);
}

/// A contribution of at most one per event keeps every count within the
/// number of events.
proof fn lemma_count_le_len(evs: Seq<WalkEvent>, f: spec_fn(WalkEvent) -> nat)
    requires
        forall|ev: WalkEvent| #[trigger] f(ev) <= 1,
    ensures
        count_of(evs, f) <= evs.len(),
    decreases evs.len(),
{
    if evs.len() > 0 {
        lemma_count_le_len(evs.drop_last(), f);
    }
}

/// Counts add up over concatenation.
proof fn lemma_count_concat(a: Seq<WalkEvent>, b: Seq<WalkEvent>, f: spec_fn(WalkEvent) -> nat)
    ensures
        count_of(a + b, f) == count_of(a, f) + count_of(b, f),
    decreases b.len(),
{
    if b.len() == 0 {
        assert(a + b =~= a);
    } else {
        assert((a + b).drop_last() =~= a + b.drop_last());
        assert((a + b).last() == b.last());
        lemma_count_concat(a, b.drop_last(), f);
    }
}

/// Takes one walk event into the counters and the escalation flag,
/// exactly as the walk does: a visited file goes into `files_processed`
/// and one of the three outcome counters; a failed enumeration goes into
/// `files_failed`, and into `permission_errors` and the escalation flag
/// when it was a denial.
pub fn record_walk_event(stats: &mut UnblockStats, config: &mut Config, ev: &WalkEvent)
    requires
        old(stats).files_processed < usize::MAX,
        old(stats).files_unblocked < usize::MAX,
        old(stats).files_no_ads < usize::MAX,
        old(stats).files_failed < usize::MAX,
        old(stats).permission_errors < usize::MAX,
    ensures
        final(stats).files_processed == old(stats).files_processed + adds_processed(*ev),
        final(stats).files_unblocked == old(stats).files_unblocked + adds_unblocked(*ev),
        final(stats).files_no_ads == old(stats).files_no_ads + adds_no_ads(*ev),
        final(stats).files_failed == old(stats).files_failed + adds_failed(*ev),
        final(stats).permission_errors == old(stats).permission_errors + adds_perm_errors(*ev),
        same_but_elevation(*old(config), *final(config)),
        final(config).requires_elevation == (old(config).requires_elevation || is_enum_denied(
            *ev,
        )),
{
    match ev {
        WalkEvent::File(res) => {
            stats.files_processed = stats.files_processed + 1;
            match res {
                Ok(b) => {
                    if *b {
                        stats.files_unblocked = stats.files_unblocked + 1;
                    } else {
                        stats.files_no_ads = stats.files_no_ads + 1;
                    }
                },
                Err(e) => {
                    if e.requires_elevation() {
                        stats.permission_errors = stats.permission_errors + 1;
                    }
                    stats.files_failed = stats.files_failed + 1;
                },
            }
        },
        WalkEvent::EnumerationError { access_denied } => {
            if *access_denied {
                config.set_requires_elevation();
                stats.permission_errors = stats.permission_errors + 1;
            }
            stats.files_failed = stats.files_failed + 1;
        },
    }
}

/// Aggregates a whole directory walk.  The walk itself never fails: every
/// event, an enumeration failure as much as a file outcome, is absorbed
/// into the returned counters, whose values the contract pins to the
/// event sequence count by count.
pub fn unblock_directory(events: &Vec<WalkEvent>, config: &mut Config) -> (stats: UnblockStats)
    ensures
        stats.files_processed == count_processed(events@),
        stats.files_unblocked == count_unblocked(events@),
        stats.files_no_ads == count_no_ads(events@),
        stats.files_failed == count_failed(events@),
        stats.permission_errors == count_perm_errors(events@),
        stats.files_processed + count_enum_errors(events@) == stats.files_unblocked
            + stats.files_no_ads + stats.files_failed,
        stats.permission_errors <= stats.files_failed,
        same_but_elevation(*old(config), *final(config)),
        final(config).requires_elevation == (old(config).requires_elevation || any_enum_denied(
            events@,
        )),
{
    let mut stats = UnblockStats {
        files_processed: 0,
        files_unblocked: 0,
        files_no_ads: 0,
        files_failed: 0,
        permission_errors: 0,
    };
    let mut i: usize = 0;
    while i < events.len()
        invariant
            i <= events@.len(),
            stats.files_processed == count_processed(events@.subrange(0, i as int)),
            stats.files_unblocked == count_unblocked(events@.subrange(0, i as int)),
            stats.files_no_ads == count_no_ads(events@.subrange(0, i as int)),
            stats.files_failed == count_failed(events@.subrange(0, i as int)),
            stats.permission_errors == count_perm_errors(events@.subrange(0, i as int)),
            same_but_elevation(*old(config), *config),
            config.requires_elevation == (old(config).requires_elevation || any_enum_denied(
                events@.subrange(0, i as int),
            )),
        decreases events@.len() - i,
    {
        proof {
            let prefix = events@.subrange(0, i as int);
            lemma_count_le_len(prefix, |ev: WalkEvent| adds_processed(ev));
            lemma_count_le_len(prefix, |ev: WalkEvent| adds_unblocked(ev));
            lemma_count_le_len(prefix, |ev: WalkEvent| adds_no_ads(ev));
            lemma_count_le_len(prefix, |ev: WalkEvent| adds_failed(ev));
            lemma_count_le_len(prefix, |ev: WalkEvent| adds_perm_errors(ev));
        }
        record_walk_event(&mut stats, config, &events[i]);
        proof {
            let prefix = events@.subrange(0, i as int);
            let ev = events@[i as int];
            assert(events@.subrange(0, i as int + 1) =~= prefix.push(ev));
            lemma_count_push(prefix, |e: WalkEvent| adds_processed(e), ev);
            lemma_count_push(prefix, |e: WalkEvent| adds_unblocked(e), ev);
            lemma_count_push(prefix, |e: WalkEvent| adds_no_ads(e), ev);
            lemma_count_push(prefix, |e: WalkEvent| adds_failed(e), ev);
            lemma_count_push(prefix, |e: WalkEvent| adds_perm_errors(e), ev);
            assert(prefix.push(ev).drop_last() =~= prefix);
        }
        i += 1;
    }
    proof {
        assert(events@.subrange(0, events@.len() as int) =~= events@);
        lemma_walk_accounting(events@);
    }
    stats
}

/// Every event lands in exactly one outcome counter, so the files
/// processed plus the enumeration failures together equal the unblocked,
/// no-marker and failed counts, and the permission errors never exceed
/// the failures.
pub proof fn lemma_walk_accounting(evs: Seq<WalkEvent>)
    ensures
        count_processed(evs) + count_enum_errors(evs) == count_unblocked(evs) + count_no_ads(evs)
            + count_failed(evs),
        count_perm_errors(evs) <= count_failed(evs),
    decreases evs.len(),
{
    if evs.len() > 0 {
        lemma_walk_accounting(evs.drop_last());
    }
}

/// A walk without enumeration failures has none of their counts.
proof fn lemma_all_files_no_enum(evs: Seq<WalkEvent>)
    requires
        forall|i: int| 0 <= i < evs.len() ==> evs[i] is File,
    ensures
        count_enum_errors(evs) == 0,
        !any_enum_denied(evs),
    decreases evs.len(),
{
    if evs.len() > 0 {
        assert forall|i: int| 0 <= i < evs.drop_last().len() implies evs.drop_last()[i] is File by {
            assert(evs.drop_last()[i] == evs[i]);
        }
        lemma_all_files_no_enum(evs.drop_last());
        assert(evs.last() == evs[evs.len() - 1]);
    }
}

/// The statistics invariant of a walk in which every entry could be
/// enumerated: the processed count splits exactly into unblocked,
/// no-marker and failed, and the permission errors never exceed the
/// failures.
pub proof fn lemma_walk_balance(evs: Seq<WalkEvent>)
    requires
        forall|i: int| 0 <= i < evs.len() ==> evs[i] is File,
    ensures
        count_processed(evs) == count_unblocked(evs) + count_no_ads(evs) + count_failed(evs),
        count_perm_errors(evs) <= count_failed(evs),
{
    lemma_walk_accounting(evs);
    lemma_all_files_no_enum(evs);
}

/// Inserting one event into a walk adds exactly its own contribution to
/// each count.
proof fn lemma_count_insert(
    pre: Seq<WalkEvent>,
    ev: WalkEvent,
    post: Seq<WalkEvent>,
    f: spec_fn(WalkEvent) -> nat,
)
    ensures
        count_of(pre + seq![ev] + post, f) == count_of(pre + post, f) + f(ev),
{
    let mid = seq![ev];
    lemma_count_concat(pre, mid, f);
    lemma_count_concat(pre + mid, post, f);
    lemma_count_concat(pre, post, f);
    assert(mid.drop_last() =~= Seq::<WalkEvent>::empty());
    assert(mid.last() == ev);
    assert(count_of(Seq::<WalkEvent>::empty(), f) == 0);
    assert(count_of(mid, f) == f(ev));
}

/// An enumeration failure never aborts a walk; it is absorbed: with the
/// failed entry reported among the events, the processed, unblocked and
/// no-marker counts are exactly those of the other events, and the
/// failure count grows by one.
pub proof fn lemma_enumeration_failure_absorbed(
    pre: Seq<WalkEvent>,
    access_denied: bool,
    post: Seq<WalkEvent>,
)
    ensures
        count_processed(pre + seq![WalkEvent::EnumerationError { access_denied }] + post)
            == count_processed(pre + post),
        count_unblocked(pre + seq![WalkEvent::EnumerationError { access_denied }] + post)
            == count_unblocked(pre + post),
        count_no_ads(pre + seq![WalkEvent::EnumerationError { access_denied }] + post)
            == count_no_ads(pre + post),
        count_failed(pre + seq![WalkEvent::EnumerationError { access_denied }] + post)
            == count_failed(pre + post) + 1,
{
    let ev = WalkEvent::EnumerationError { access_denied };
    lemma_count_insert(pre, ev, post, |e: WalkEvent| adds_processed(e));
    lemma_count_insert(pre, ev, post, |e: WalkEvent| adds_unblocked(e));
    lemma_count_insert(pre, ev, post, |e: WalkEvent| adds_no_ads(e));
    lemma_count_insert(pre, ev, post, |e: WalkEvent| adds_failed(e));
}

/// The escalation flag after a whole sequence of removal reports has been
/// taken in, one after the other.
pub open spec fn elevation_after_all(before: bool, removals: Seq<Option<RemovalEvent>>) -> bool
    decreases removals.len(),
{
    if removals.len() == 0 {
        before
    } else {
        elevation_after(elevation_after_all(before, removals.drop_last()), removals.last())
    }
}

/// A denied removal forces the escalation flag, and no sequence of later
/// removal reports — however many of them succeed — can clear it again.
pub proof fn lemma_elevation_sticky(before: bool, later: Seq<Option<RemovalEvent>>)
    ensures
        elevation_after(before, Some(RemovalEvent::AccessDenied)),
        elevation_after_all(elevation_after(before, Some(RemovalEvent::AccessDenied)), later),
    decreases later.len(),
{
    if later.len() > 0 {
        lemma_elevation_sticky(before, later.drop_last());
    }
}

/// Taking in a no-marker report never changes the escalation flag, so
/// unblocking a file that has no marker is idempotent: doing it twice
/// leaves the flag exactly where it began, just as doing it once does.
pub proof fn lemma_no_marker_idempotent(before: bool)
    ensures
        elevation_after(before, Some(RemovalEvent::NotFound)) == before,
        elevation_after_all(
            before,
            seq![Some(RemovalEvent::NotFound), Some(RemovalEvent::NotFound)],
        ) == before,
{
    let s = seq![Some(RemovalEvent::NotFound), Some(RemovalEvent::NotFound)];
    assert(s.drop_last() =~= seq![Some(RemovalEvent::NotFound)]);
    assert(s.drop_last().drop_last() =~= Seq::<Option<RemovalEvent>>::empty());
    assert(elevation_after_all(before, s.drop_last().drop_last()) == before);
    assert(elevation_after_all(before, s.drop_last()) == before);
}

/// What the target path turned out to name when the embedding program
/// probed it.
#[derive(Debug, Clone, Copy, PartialEq, Eq, Structural)]
pub enum TargetKind {
    /// A regular file.
    File,
    /// A directory.
    Directory,
    /// Neither a file nor a directory.
    Missing,
}

/// The result owed for a single-file target, given the file's one event:
/// a deleted marker yields the one-unblocked statistics, an absent one the
/// one-no-marker statistics, a permission denial the one-failure
/// statistics, and any other failure is the call's own hard error.
pub open spec fn single_file_outcome(ev: WalkEvent, r: Result<UnblockStats, UnblockerError>) -> bool {
    match ev {
        WalkEvent::File(Ok(b)) => r == Ok::<UnblockStats, UnblockerError>(
            UnblockStats {
                files_processed: 1,
                files_unblocked: if b {
                    1
                } else {
                    0
                },
                files_no_ads: if b {
                    0
                } else {
                    1
                },
                files_failed: 0,
                permission_errors: 0,
            },
        ),
        WalkEvent::File(Err(e)) => if e is PermissionDenied {
            r == Ok::<UnblockStats, UnblockerError>(
                UnblockStats {
                    files_processed: 1,
                    files_unblocked: 0,
                    files_no_ads: 0,
                    files_failed: 1,
                    permission_errors: 1,
                },
            )
        } else {
            r == Err::<UnblockStats, UnblockerError>(e)
        },
        WalkEvent::EnumerationError { .. } => false,
    }
}

/// Dispatches on the kind of target, turning the reported events into the
/// run's statistics.
///
/// A missing target fails with `PathNotFound`.  A single-file target is
/// strict: its one event yields either the one-file statistics or, for a
/// failure that is not a permission denial, the failure itself as a hard
/// error.  A directory target is best-effort: every event is absorbed
/// into the counters as in [`unblock_directory`].
pub fn process_target(
    target_path: &str,
    kind: TargetKind,
    events: Vec<WalkEvent>,
    config: &mut Config,
) -> (r: Result<UnblockStats, UnblockerError>)
    requires
        kind is File ==> events@.len() == 1 && events@[0] is File,
        kind is Missing ==> events@.len() == 0,
    ensures
        same_but_elevation(*old(config), *final(config)),
        final(config).requires_elevation == (old(config).requires_elevation || any_enum_denied(
            events@,
        )),
        kind is Missing ==> (r matches Err(UnblockerError::PathNotFound(m)) && m@ == target_path@),
        kind is Directory ==> (r matches Ok(stats) && stats.files_processed == count_processed(
            events@,
        ) && stats.files_unblocked == count_unblocked(events@) && stats.files_no_ads
            == count_no_ads(events@) && stats.files_failed == count_failed(events@)
            && stats.permission_errors == count_perm_errors(events@)),
        kind is File ==> single_file_outcome(events@[0], r),
{
    match kind {
        TargetKind::Missing => {
            proof {
                assert(!any_enum_denied(events@));
            }
            Err(UnblockerError::PathNotFound(String::from_str(target_path)))
        },
        TargetKind::Directory => {
            let stats = unblock_directory(&events, config);
            Ok(stats)
        },
        TargetKind::File => {
            proof {
                assert(!any_enum_denied(events@.drop_last()));
                assert(events@.last() == events@[0]);
                assert(!any_enum_denied(events@));
            }
            let mut events = events;
            let ev = events.pop();
            match ev {
                Some(WalkEvent::File(res)) => {
                    match res {
                        Ok(true) => Ok(
                            UnblockStats {
                                files_processed: 1,
                                files_unblocked: 1,
                                files_no_ads: 0,
                                files_failed: 0,
                                permission_errors: 0,
                            },
                        ),
                        Ok(false) => Ok(
                            UnblockStats {
                                files_processed: 1,
                                files_unblocked: 0,
                                files_no_ads: 1,
                                files_failed: 0,
                                permission_errors: 0,
                            },
                        ),
                        Err(e) => {
                            if e.requires_elevation() {
                                Ok(
                                    UnblockStats {
                                        files_processed: 1,
                                        files_unblocked: 0,
                                        files_no_ads: 0,
                                        files_failed: 1,
                                        permission_errors: 1,
                                    },
                                )
                            } else {
                                Err(e)
                            }
                        },
                    }
                },
                _ => {
                    proof {
                        assert(false);
                    }
                    Err(UnblockerError::ElevationFailed)
                },
            }
        },
    }
}

} // verus!
