//! The reconciliation engine: which videos of the source playlists are
//! missing from the destination snapshot, and the outcome of the attempted
//! additions.

use vstd::prelude::*;
use crate::youtube::PlaylistItem;

verus! {

/// The set of video identifiers occurring in a member listing.
pub open spec fn member_ids(items: Seq<PlaylistItem>) -> Set<Seq<char>> {
    Set::new(|id: Seq<char>| exists|i: int| 0 <= i < items.len() && items[i].video_id@ == id)
}

/// The members of one source listing that are missing from the destination
/// snapshot `dest`, in listing order.
pub open spec fn missing_from(dest: Set<Seq<char>>, src: Seq<PlaylistItem>) -> Seq<PlaylistItem>
    decreases src.len(),
{
    if src.len() == 0 {
        Seq::empty()
    } else {
        let rest = missing_from(dest, src.drop_last());
        if dest.contains(src.last().video_id@) {
            rest
        } else {
            rest.push(src.last())
        }
    }
}

/// The candidates of a reconciliation run: for each source in order, its
/// members missing from the destination snapshot, concatenated.  Nothing is
/// deduplicated across sources.
pub open spec fn candidate_seq(dest: Set<Seq<char>>, sources: Seq<Seq<PlaylistItem>>) -> Seq<
    PlaylistItem,
>
    decreases sources.len(),
{
    if sources.len() == 0 {
        Seq::empty()
    } else {
        candidate_seq(dest, sources.drop_last()) + missing_from(dest, sources.last())
    }
}

/// The member listings of `lists`, as mathematical sequences.
pub open spec fn listing_seq(lists: Seq<Vec<PlaylistItem>>) -> Seq<Seq<PlaylistItem>> {
    lists.map_values(|l: Vec<PlaylistItem>| l@)
}

/// Whether some member of `items` carries the identifier `id`.
fn contains_id(items: &Vec<PlaylistItem>, id: &String) -> (r: bool)
    ensures
        r == member_ids(items@).contains(id@),
{
    let mut i: usize = 0;
    while i < items.len()
        invariant
            i <= items@.len(),
            forall|k: int| 0 <= k < i ==> items@[k].video_id@ != id@,
        decreases items@.len() - i,
    {
        if items[i].video_id == *id {
            return true;
        }
        i = i + 1;
    }
    false
}

/// Computes the candidates of one reconciliation run: the members of each
/// source listing, in the given order, whose identifier is absent from the
/// destination snapshot.  Membership is judged once, against the snapshot
/// `target_videos` taken at the start of the run.
pub fn compute_candidates(
    target_videos: &Vec<PlaylistItem>,
    source_videos: &Vec<Vec<PlaylistItem>>,
) -> (r: Vec<PlaylistItem>)
    ensures
        r@ == candidate_seq(member_ids(target_videos@), listing_seq(source_videos@)),
{
    let ghost dest: Set<Seq<char>> = member_ids(target_videos@);
    let ghost srcs: Seq<Seq<PlaylistItem>> = listing_seq(source_videos@);
    let mut out: Vec<PlaylistItem> = Vec::new();
    let mut s: usize = 0;
    while s < source_videos.len()
        invariant
            s <= source_videos@.len(),
            dest == member_ids(target_videos@),
            srcs == listing_seq(source_videos@),
            out@ == candidate_seq(dest, srcs.take(s as int)),
        decreases source_videos@.len() - s,
    {
        let src: &Vec<PlaylistItem> = &source_videos[s];
        proof {
            assert(srcs[s as int] == src@);
        }
        let mut j: usize = 0;
        while j < src.len()
            invariant
                j <= src@.len(),
                s < source_videos@.len(),
                dest == member_ids(target_videos@),
                srcs == listing_seq(source_videos@),
                src@ == srcs[s as int],
                out@ == candidate_seq(dest, srcs.take(s as int)) + missing_from(
                    dest,
                    src@.take(j as int),
                ),
            decreases src@.len() - j,
        {
            proof {
                assert(src@.take(j + 1 as int).drop_last() =~= src@.take(j as int));
                assert(src@.take(j + 1 as int).last() == src@[j as int]);
            }
            if !contains_id(target_videos, &src[j].video_id) {
                out.push(src[j].clone());
            }
            j = j + 1;
        }
        proof {
            assert(src@.take(src@.len() as int) =~= src@);
            assert(srcs.take(s + 1 as int).drop_last() =~= srcs.take(s as int));
            assert(srcs.take(s + 1 as int).last() == srcs[s as int]);
        }
        s = s + 1;
    }
    proof {
        assert(srcs.take(srcs.len() as int) =~= srcs);
    }
    out
}

proof fn lemma_missing_excluded(dest: Set<Seq<char>>, src: Seq<PlaylistItem>)
    ensures
        forall|i: int|
            0 <= i < missing_from(dest, src).len() ==> !dest.contains(
                (#[trigger] missing_from(dest, src)[i]).video_id@,
            ),
    decreases src.len(),
{
    if src.len() == 0 {
    } else {
        lemma_missing_excluded(dest, src.drop_last());
        let rest = missing_from(dest, src.drop_last());
        assert forall|i: int|
            0 <= i < missing_from(dest, src).len() implies !dest.contains(
            (missing_from(dest, src)[i]).video_id@,
        ) by {
            if !dest.contains(src.last().video_id@) {
                if i < rest.len() {
                    assert(missing_from(dest, src)[i] == rest[i]);
                } else {
                    assert(missing_from(dest, src)[i] == src.last());
                }
            } else {
                assert(missing_from(dest, src)[i] == rest[i]);
            }
        };
    }
}

/// Law: every computed candidate is absent from the destination snapshot
/// taken at the start of the run, whatever the destination and source
/// listings are.
pub proof fn lemma_candidates_excluded(dest: Set<Seq<char>>, sources: Seq<Seq<PlaylistItem>>)
    ensures
        forall|i: int|
            0 <= i < candidate_seq(dest, sources).len() ==> !dest.contains(
                (#[trigger] candidate_seq(dest, sources)[i]).video_id@,
            ),
    decreases sources.len(),
{
    if sources.len() == 0 {
    } else {
        lemma_candidates_excluded(dest, sources.drop_last());
        lemma_missing_excluded(dest, sources.last());
        let prefix = candidate_seq(dest, sources.drop_last());
        let tail = missing_from(dest, sources.last());
        assert forall|i: int|
            0 <= i < candidate_seq(dest, sources).len() implies !dest.contains(
            (candidate_seq(dest, sources)[i]).video_id@,
        ) by {
            if i < prefix.len() {
                assert(candidate_seq(dest, sources)[i] == prefix[i]);
            } else {
                assert(candidate_seq(dest, sources)[i] == tail[i - prefix.len()]);
            }
        };
    }
}

/// How many members of `items` carry the identifier `id`.
pub open spec fn occurrence_count(items: Seq<PlaylistItem>, id: Seq<char>) -> nat
    decreases items.len(),
{
    if items.len() == 0 {
        0
    } else {
        occurrence_count(items.drop_last(), id) + if items.last().video_id@ == id {
            1nat
        } else {
            0nat
        }
    }
}

/// How often `id` occurs over all source listings together.
pub open spec fn total_occurrences(sources: Seq<Seq<PlaylistItem>>, id: Seq<char>) -> nat
    decreases sources.len(),
{
    if sources.len() == 0 {
        0
    } else {
        total_occurrences(sources.drop_last(), id) + occurrence_count(sources.last(), id)
    }
}

proof fn lemma_occurrence_count_concat(a: Seq<PlaylistItem>, b: Seq<PlaylistItem>, id: Seq<char>)
    ensures
        occurrence_count(a + b, id) == occurrence_count(a, id) + occurrence_count(b, id),
    decreases b.len(),
{
    if b.len() == 0 {
        assert(a + b =~= a);
    } else {
        lemma_occurrence_count_concat(a, b.drop_last(), id);
        assert((a + b).drop_last() =~= a + b.drop_last());
        assert((a + b).last() == b.last());
    }
}

proof fn lemma_missing_keeps_count(dest: Set<Seq<char>>, src: Seq<PlaylistItem>, id: Seq<char>)
    requires
        !dest.contains(id),
    ensures
        occurrence_count(missing_from(dest, src), id) == occurrence_count(src, id),
    decreases src.len(),
{
    if src.len() == 0 {
    } else {
        lemma_missing_keeps_count(dest, src.drop_last(), id);
        if !dest.contains(src.last().video_id@) {
            let rest = missing_from(dest, src.drop_last());
            assert(rest.push(src.last()).drop_last() =~= rest);
            assert(rest.push(src.last()).last() == src.last());
        }
    }
}

/// Law: a video absent from the destination snapshot appears among the
/// candidates once per occurrence in the source listings — candidates are
/// not deduplicated across sources.
pub proof fn lemma_no_cross_source_dedup(
    dest: Set<Seq<char>>,
    sources: Seq<Seq<PlaylistItem>>,
    id: Seq<char>,
)
    requires
        !dest.contains(id),
    ensures
        occurrence_count(candidate_seq(dest, sources), id) == total_occurrences(sources, id),
    decreases sources.len(),
{
    if sources.len() == 0 {
    } else {
        lemma_no_cross_source_dedup(dest, sources.drop_last(), id);
        lemma_missing_keeps_count(dest, sources.last(), id);
        lemma_occurrence_count_concat(
            candidate_seq(dest, sources.drop_last()),
            missing_from(dest, sources.last()),
            id,
        );
    }
}

proof fn lemma_missing_empty(dest: Set<Seq<char>>, src: Seq<PlaylistItem>, dest2: Set<Seq<char>>)
    requires
        forall|id: Seq<char>| dest.contains(id) ==> dest2.contains(id),
        forall|id: Seq<char>|
            occurrence_count(missing_from(dest, src), id) > 0 ==> dest2.contains(id),
    ensures
        missing_from(dest2, src).len() == 0,
    decreases src.len(),
{
    if src.len() == 0 {
    } else {
        let v = src.last();
        let rest = missing_from(dest, src.drop_last());
        assert forall|id: Seq<char>|
            occurrence_count(missing_from(dest, src.drop_last()), id) > 0 implies dest2.contains(
            id,
        ) by {
            if !dest.contains(v.video_id@) {
                assert(rest.push(v).drop_last() =~= rest);
                assert(occurrence_count(missing_from(dest, src), id) >= occurrence_count(
                    rest,
                    id,
                ));
            }
        };
        lemma_missing_empty(dest, src.drop_last(), dest2);
        if !dest.contains(v.video_id@) {
            assert(rest.push(v).drop_last() =~= rest);
            assert(rest.push(v).last() == v);
            assert(occurrence_count(missing_from(dest, src), v.video_id@) > 0);
        }
        assert(dest2.contains(v.video_id@));
    }
}

/// Law: reconciliation is idempotent.  Once the destination also holds every
/// candidate the first run computed — as it does after all of that run's
/// insertions took effect, with no intervening remote change — a second run
/// over the same sources computes no candidate at all.
pub proof fn lemma_second_run_finds_nothing(
    dest: Set<Seq<char>>,
    sources: Seq<Seq<PlaylistItem>>,
    dest2: Set<Seq<char>>,
)
    requires
        forall|id: Seq<char>| dest.contains(id) ==> dest2.contains(id),
        forall|id: Seq<char>|
            occurrence_count(candidate_seq(dest, sources), id) > 0 ==> dest2.contains(id),
    ensures
        candidate_seq(dest2, sources).len() == 0,
    decreases sources.len(),
{
    if sources.len() == 0 {
    } else {
        assert forall|id: Seq<char>|
            occurrence_count(candidate_seq(dest, sources.drop_last()), id) > 0 implies dest2.contains(
            id,
        ) by {
            lemma_occurrence_count_concat(
                candidate_seq(dest, sources.drop_last()),
                missing_from(dest, sources.last()),
                id,
            );
        };
        lemma_second_run_finds_nothing(dest, sources.drop_last(), dest2);
        assert forall|id: Seq<char>|
            occurrence_count(missing_from(dest, sources.last()), id) > 0 implies dest2.contains(
            id,
        ) by {
            lemma_occurrence_count_concat(
                candidate_seq(dest, sources.drop_last()),
                missing_from(dest, sources.last()),
                id,
            );
        };
        lemma_missing_empty(dest, sources.last(), dest2);
    }
}

/// One reconciliation step, short of the remote calls: computes the
/// candidates of the run against the destination snapshot and opens the
/// batch that drives — or, on a dry run, merely reports — the insertions.
/// The caller performs each insertion the batch hands out and records its
/// outcome.
pub fn reconcile(
    target_videos: &Vec<PlaylistItem>,
    source_videos: &Vec<Vec<PlaylistItem>>,
    dry_run: bool,
) -> (b: SyncBatch)
    ensures
        b.wf(),
        b.spec_dry_run() == dry_run,
        b.spec_candidates() == candidate_seq(
            member_ids(target_videos@),
            listing_seq(source_videos@),
        ),
        b.spec_outcomes() == Seq::<AddOutcome>::empty(),
{
    let candidates = compute_candidates(target_videos, source_videos);
    SyncBatch::new(candidates, dry_run)
}

/// The recorded outcome of one attempted addition: the video it concerned
/// and, when the platform rejected it, the reported reason.
pub struct AddOutcome {
    /// The identifier of the attempted video.
    pub video_id: String,
    /// The display title of the attempted video.
    pub title: String,
    /// `None` when the addition succeeded; the platform's error text when it
    /// failed.
    pub failure: Option<String>,
}

/// How many of the recorded outcomes are successes.
pub open spec fn success_total(outcomes: Seq<AddOutcome>) -> nat
    decreases outcomes.len(),
{
    if outcomes.len() == 0 {
        0
    } else {
        success_total(outcomes.drop_last()) + if outcomes.last().failure is None {
            1nat
        } else {
            0nat
        }
    }
}

/// Drives the application phase of one reconciliation run.  The caller asks
/// which candidate to attempt next, performs the remote insertion, and hands
/// the outcome back; in dry-run mode no candidate is ever handed out, so no
/// insertion can be requested.  A failed insertion is recorded and the batch
/// moves on: one rejection never aborts the rest.
pub struct SyncBatch {
    dry_run: bool,
    candidates: Vec<PlaylistItem>,
    outcomes: Vec<AddOutcome>,
}

impl SyncBatch {
    /// Whether this batch only reports what it would add.
    pub closed spec fn spec_dry_run(&self) -> bool {
        self.dry_run
    }

    /// The candidates of the run, in attempt order.
    pub closed spec fn spec_candidates(&self) -> Seq<PlaylistItem> {
        self.candidates@
    }

    /// The outcomes recorded so far, one per attempted candidate, in order.
    pub closed spec fn spec_outcomes(&self) -> Seq<AddOutcome> {
        self.outcomes@
    }

    /// Each recorded outcome concerns the candidate of the same position,
    /// and in dry-run mode nothing is ever attempted.
    pub closed spec fn wf(&self) -> bool {
        &&& self.outcomes@.len() <= self.candidates@.len()
        &&& (self.dry_run ==> self.outcomes@.len() == 0)
        &&& forall|i: int|
            0 <= i < self.outcomes@.len() ==> #[trigger] self.outcomes@[i].video_id
                == self.candidates@[i].video_id && self.outcomes@[i].title
                == self.candidates@[i].title
    }

    /// Starts the application phase over the computed candidates.
    pub fn new(candidates: Vec<PlaylistItem>, dry_run: bool) -> (b: SyncBatch)
        ensures
            b.wf(),
            b.spec_dry_run() == dry_run,
            b.spec_candidates() == candidates@,
            b.spec_outcomes() == Seq::<AddOutcome>::empty(),
    {
        SyncBatch { dry_run, candidates, outcomes: Vec::new() }
    }

    /// How many candidates the run computed (each will be attempted once,
    /// unless the run is a dry run).
    pub fn candidate_count(&self) -> (n: usize)
        ensures
            n == self.spec_candidates().len(),
    {
        self.candidates.len()
    }

    /// The full candidate list, in order: exactly what a dry run reports it
    /// would add.
    pub fn would_add(&self) -> (r: &Vec<PlaylistItem>)
        ensures
            r@ == self.spec_candidates(),
    {
        &self.candidates
    }

    /// The next candidate to attempt, or `None` when the batch is done.  In
    /// dry-run mode this is `None` from the start, whatever the candidate
    /// count: a dry run never asks for an insertion.
    pub fn next_to_add(&self) -> (r: Option<&PlaylistItem>)
        requires
            self.wf(),
        ensures
            self.spec_dry_run() ==> r is None,
            r is None <==> (self.spec_dry_run() || self.spec_outcomes().len()
                >= self.spec_candidates().len()),
            r matches Some(v) ==> *v == self.spec_candidates()[self.spec_outcomes().len() as int],
    {
        if self.dry_run {
            None
        } else if self.outcomes.len() < self.candidates.len() {
            Some(&self.candidates[self.outcomes.len()])
        } else {
            None
        }
    }

    /// Records the outcome of the insertion of the current candidate:
    /// `None` for success, or the platform's error text.  The batch then
    /// moves to the next candidate regardless.
    pub fn record(&mut self, failure: Option<String>)
        requires
            old(self).wf(),
            !old(self).spec_dry_run(),
            old(self).spec_outcomes().len() < old(self).spec_candidates().len(),
        ensures
            final(self).wf(),
            final(self).spec_dry_run() == old(self).spec_dry_run(),
            final(self).spec_candidates() == old(self).spec_candidates(),
            final(self).spec_outcomes() == old(self).spec_outcomes().push(
                AddOutcome {
                    video_id: old(self).spec_candidates()[old(
                        self,
                    ).spec_outcomes().len() as int].video_id,
                    title: old(self).spec_candidates()[old(
                        self,
                    ).spec_outcomes().len() as int].title,
                    failure,
                },
            ),
    {
        let i = self.outcomes.len();
        let video_id = self.candidates[i].video_id.clone();
        let title = self.candidates[i].title.clone();
        self.outcomes.push(AddOutcome { video_id, title, failure });
    }

    /// Whether every candidate has been dealt with (immediately so on a dry
    /// run).
    pub fn finished(&self) -> (r: bool)
        requires
            self.wf(),
        ensures
            r == (self.spec_dry_run() || self.spec_outcomes().len()
                == self.spec_candidates().len()),
    {
        self.dry_run || self.outcomes.len() == self.candidates.len()
    }

    /// How many recorded insertions succeeded.
    pub fn success_count(&self) -> (n: usize)
        ensures
            n == success_total(self.spec_outcomes()),
    {
        let mut n: usize = 0;
        let mut i: usize = 0;
        while i < self.outcomes.len()
            invariant
                i <= self.outcomes@.len(),
                n == success_total(self.outcomes@.take(i as int)),
                n <= i,
            decreases self.outcomes@.len() - i,
        {
            proof {
                assert(self.outcomes@.take(i + 1).drop_last() =~= self.outcomes@.take(i as int));
                assert(self.outcomes@.take(i + 1).last() == self.outcomes@[i as int]);
            }
            if self.outcomes[i].failure.is_none() {
                n = n + 1;
            }
            i = i + 1;
        }
        proof {
            assert(self.outcomes@.take(self.outcomes@.len() as int) =~= self.outcomes@);
        }
        n
    }

    /// The recorded outcomes, one per attempted candidate, in attempt order.
    pub fn outcomes(&self) -> (r: &Vec<AddOutcome>)
        ensures
            r@ == self.spec_outcomes(),
    {
        &self.outcomes
    }
}

} // verus!
