use vstd::prelude::*;
use crate::builder::{build_row, lemma_run_completeness, row_check, row_matches};
use crate::engine::{GapModel, valid_block_size};
use crate::limiter::RateLimiter;
use crate::records::{ScoreRecord, SequenceRecord, ValidationError};

verus! {

/// Minimum spacing between upload starts: one second keeps a run well under
/// a sixty-requests-per-minute quota.
pub const UPLOAD_INTERVAL_MS: u64 = 1000;

/// Where a run stands.
#[derive(Clone, Copy, Debug, PartialEq, Eq, Structural)]
pub enum RunState {
    /// Waiting for the fetched collection.
    Fetching,
    /// Building and uploading one batch per reference.
    Iterating,
    /// Every batch was uploaded.
    Done,
    /// The run aborted; batches already uploaded stay uploaded.
    Failed,
}

/// Drives one run: after the collection arrives, each sequence in turn is
/// the reference of one batch, which is uploaded under the rate limiter.
/// The surrounding program performs the fetch, the uploads and the waiting,
/// and reports each outcome back; every decision is made here.
pub struct Orchestrator {
    pub state: RunState,
    pub records: Vec<SequenceRecord>,
    pub cursor: usize,
    pub batches_uploaded: usize,
    pub gaps: GapModel,
    pub block_size: usize,
    pub scope: String,
    pub limiter: RateLimiter,
    pub uploaded: Ghost<Seq<Seq<ScoreRecord>>>,
}

impl Orchestrator {
    /// The run's invariant: valid tunables, a well-formed limiter at the
    /// fixed interval, and one uploaded batch per reference behind the
    /// cursor — each batch holding exactly what `row_matches` demands for its
    /// reference — so a finished run has exactly as many batches as
    /// sequences, each of the collection's full width.
    pub open spec fn wf(self) -> bool {
        &&& self.gaps.wf()
        &&& valid_block_size(self.block_size as int)
        &&& self.limiter.wf()
        &&& self.limiter.interval_ms == UPLOAD_INTERVAL_MS
        &&& self.batches_uploaded <= self.records@.len()
        &&& self.uploaded@.len() == self.batches_uploaded
        &&& forall|i: int|
            0 <= i < self.uploaded@.len() ==> row_matches(
                #[trigger] self.uploaded@[i],
                self.records@[i],
                self.records@,
                self.scope@,
                self.gaps,
                self.block_size as int,
            )
        &&& self.state == RunState::Fetching ==> self.records@.len() == 0 && self.cursor == 0
            && self.batches_uploaded == 0
        &&& self.state == RunState::Iterating ==> self.cursor < self.records@.len()
            && self.batches_uploaded == self.cursor
        &&& self.state == RunState::Done ==> self.batches_uploaded == self.records@.len()
    }

    pub fn new(gaps: GapModel, block_size: usize, scope: String) -> (o: Orchestrator)
        requires
            gaps.wf(),
            valid_block_size(block_size as int),
        ensures
            o.wf(),
            o.state == RunState::Fetching,
            o.records@.len() == 0,
            o.batches_uploaded == 0,
            o.gaps == gaps,
            o.block_size == block_size,
            o.scope == scope,
            o.limiter.starts@ == Seq::<int>::empty(),
            o.uploaded@ == Seq::<Seq<ScoreRecord>>::empty(),
    {
        Orchestrator {
            state: RunState::Fetching,
            records: Vec::new(),
            cursor: 0,
            batches_uploaded: 0,
            gaps,
            block_size,
            scope,
            limiter: RateLimiter::new(UPLOAD_INTERVAL_MS),
            uploaded: Ghost(Seq::empty()),
        }
    }

    /// Takes the fetched collection. An empty collection means there is
    /// nothing to upload: the run is done at once.
    pub fn on_fetch_success(&mut self, records: Vec<SequenceRecord>)
        requires
            old(self).wf(),
            old(self).state == RunState::Fetching,
        ensures
            final(self).wf(),
            final(self).records == records,
            final(self).cursor == 0,
            final(self).batches_uploaded == 0,
            records@.len() == 0 ==> final(self).state == RunState::Done,
            records@.len() > 0 ==> final(self).state == RunState::Iterating,
            final(self).gaps == old(self).gaps,
            final(self).block_size == old(self).block_size,
            final(self).scope == old(self).scope,
            final(self).limiter == old(self).limiter,
            final(self).uploaded@ == old(self).uploaded@,
    {
        self.records = records;
        self.state = if self.records.len() == 0 {
            RunState::Done
        } else {
            RunState::Iterating
        };
    }

    /// A failed fetch aborts the whole run.
    pub fn on_fetch_failure(&mut self)
        requires
            old(self).wf(),
            old(self).state == RunState::Fetching,
        ensures
            final(self).wf(),
            final(self).state == RunState::Failed,
            final(self).batches_uploaded == 0,
            final(self).records == old(self).records,
            final(self).cursor == old(self).cursor,
            final(self).gaps == old(self).gaps,
            final(self).block_size == old(self).block_size,
            final(self).scope == old(self).scope,
            final(self).limiter == old(self).limiter,
            final(self).uploaded@ == old(self).uploaded@,
    {
        self.state = RunState::Failed;
    }

    /// The batch for the sequence at the cursor: every sequence of the
    /// collection scored against it, validation strictly first.
    pub fn build_current_batch(&self) -> (r: Result<Vec<ScoreRecord>, ValidationError>)
        requires
            self.wf(),
            self.state == RunState::Iterating,
        ensures
            r is Ok <==> row_check(self.records@[self.cursor as int], self.records@) is Ok,
            r is Ok ==> row_matches(
                r->Ok_0@,
                self.records@[self.cursor as int],
                self.records@,
                self.scope@,
                self.gaps,
                self.block_size as int,
            ),
            r is Err ==> r->Err_0 == row_check(
                self.records@[self.cursor as int],
                self.records@,
            )->Err_0,
    {
        build_row(
            &self.records[self.cursor],
            &self.records,
            self.scope.as_str(),
            self.gaps,
            self.block_size,
        )
    }

    /// The index and identifier of the reference now being processed.
    pub fn progress(&self) -> (r: (usize, String))
        requires
            self.wf(),
            self.state == RunState::Iterating,
        ensures
            r.0 == self.cursor,
            r.1@ == self.records@[self.cursor as int].identifier@,
    {
        (self.cursor, self.records[self.cursor].identifier.clone())
    }

    /// How long to wait, from `now_ms`, before the next upload may start.
    pub fn upload_delay(&self, now_ms: u64) -> (d: u64)
        ensures
            now_ms + d >= self.limiter.next_allowed_ms,
            d == if now_ms >= self.limiter.next_allowed_ms {
                0
            } else {
                self.limiter.next_allowed_ms - now_ms
            },
    {
        self.limiter.required_delay(now_ms)
    }

    /// Marks the start of the current batch's upload at `start_ms`, once the
    /// delay has been waited out.
    pub fn note_upload_start(&mut self, start_ms: u64)
        requires
            old(self).wf(),
            old(self).state == RunState::Iterating,
            start_ms >= old(self).limiter.next_allowed_ms,
            start_ms + UPLOAD_INTERVAL_MS <= u64::MAX,
        ensures
            final(self).wf(),
            final(self).limiter.starts@ == old(self).limiter.starts@.push(start_ms as int),
            final(self).limiter.next_allowed_ms == start_ms + UPLOAD_INTERVAL_MS,
            final(self).state == old(self).state,
            final(self).records == old(self).records,
            final(self).cursor == old(self).cursor,
            final(self).batches_uploaded == old(self).batches_uploaded,
            final(self).gaps == old(self).gaps,
            final(self).block_size == old(self).block_size,
            final(self).scope == old(self).scope,
            final(self).uploaded@ == old(self).uploaded@,
    {
        self.limiter.record_start(start_ms);
    }

    /// The batch for the current reference arrived: record it, advance the
    /// cursor, and finish the run when every reference has been processed.
    /// The caller hands back the batch it uploaded, which must be the one
    /// built for the current reference.
    pub fn on_upload_success(&mut self, batch: &Vec<ScoreRecord>)
        requires
            old(self).wf(),
            old(self).state == RunState::Iterating,
            row_matches(
                batch@,
                old(self).records@[old(self).cursor as int],
                old(self).records@,
                old(self).scope@,
                old(self).gaps,
                old(self).block_size as int,
            ),
        ensures
            final(self).wf(),
            final(self).cursor == old(self).cursor + 1,
            final(self).batches_uploaded == old(self).batches_uploaded + 1,
            final(self).uploaded@ == old(self).uploaded@.push(batch@),
            old(self).cursor + 1 == old(self).records@.len() ==> final(self).state
                == RunState::Done,
            old(self).cursor + 1 < old(self).records@.len() ==> final(self).state
                == RunState::Iterating,
            final(self).records == old(self).records,
            final(self).gaps == old(self).gaps,
            final(self).block_size == old(self).block_size,
            final(self).scope == old(self).scope,
            final(self).limiter == old(self).limiter,
    {
        let total = self.records.len();
        self.cursor = self.cursor + 1;
        self.batches_uploaded = self.batches_uploaded + 1;
        proof {
            self.uploaded@ = self.uploaded@.push(batch@);
        }
        if self.cursor == total {
            self.state = RunState::Done;
        }
    }

    /// A validation error or a failed upload aborts the run; rows already
    /// uploaded are not rolled back.
    pub fn on_row_failure(&mut self)
        requires
            old(self).wf(),
            old(self).state == RunState::Iterating,
        ensures
            final(self).wf(),
            final(self).state == RunState::Failed,
            final(self).batches_uploaded == old(self).batches_uploaded,
            final(self).records == old(self).records,
            final(self).cursor == old(self).cursor,
            final(self).gaps == old(self).gaps,
            final(self).block_size == old(self).block_size,
            final(self).scope == old(self).scope,
            final(self).limiter == old(self).limiter,
            final(self).uploaded@ == old(self).uploaded@,
    {
        self.state = RunState::Failed;
    }

    /// Completeness of a finished run over `N` sequences: exactly `N`
    /// batches went out, each of `N` records — `N · N` in all — the record
    /// at batch `i`, position `j` pairing reference `i` with entry `j`, and,
    /// with identifiers unique within the fetch, no ordered pair of
    /// identifiers in two places.
    pub proof fn lemma_done_run_complete(self)
        requires
            self.wf(),
            self.state == RunState::Done,
            forall|p: int, q: int|
                0 <= p < q < self.records@.len() ==> self.records@[p].identifier@
                    != self.records@[q].identifier@,
        ensures
            self.uploaded@.len() == self.records@.len(),
            forall|i: int|
                0 <= i < self.uploaded@.len() ==> (#[trigger] self.uploaded@[i]).len()
                    == self.records@.len(),
            forall|i: int, j: int|
                0 <= i < self.records@.len() && 0 <= j < self.records@.len() ==> {
                    &&& (#[trigger] self.uploaded@[i][j]).reference_id@
                        == self.records@[i].identifier@
                    &&& self.uploaded@[i][j].compared_id@ == self.records@[j].identifier@
                },
            forall|i: int, j: int, k: int, l: int|
                0 <= i < self.records@.len() && 0 <= j < self.records@.len() && 0 <= k
                    < self.records@.len() && 0 <= l < self.records@.len() && (
                #[trigger] self.uploaded@[i][j]).reference_id@ == (
                #[trigger] self.uploaded@[k][l]).reference_id@
                    && self.uploaded@[i][j].compared_id@ == self.uploaded@[k][l].compared_id@
                    ==> i == k && j == l,
    {
        lemma_run_completeness(
            self.uploaded@,
            self.records@,
            self.scope@,
            self.gaps,
            self.block_size as int,
        );
    }
}

} // verus!
