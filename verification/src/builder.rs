use vstd::prelude::*;
use crate::engine::{GapModel, valid_block_size, blosum62_score, align_blosum62};
use crate::records::{
    SequenceRecord, ScoreRecord, ValidationError, valid_sequence, residues_check,
    validate_residues,
};

verus! {

/// What one batch must hold: one record per entry of `universe`, in
/// `universe`'s order, each scoring that entry against the reference and
/// carrying the identifiers and the scope label.
pub open spec fn row_matches(
    row: Seq<ScoreRecord>,
    reference: SequenceRecord,
    universe: Seq<SequenceRecord>,
    scope: Seq<char>,
    gaps: GapModel,
    block_size: int,
) -> bool {
    &&& row.len() == universe.len()
    &&& forall|j: int|
        0 <= j < universe.len() ==> {
            &&& (#[trigger] row[j]).reference_id@ == reference.identifier@
            &&& row[j].compared_id@ == universe[j].identifier@
            &&& row[j].scope@ == scope
            &&& row[j].score == blosum62_score(
                universe[j].residues@,
                reference.residues@,
                gaps.open_cost as int,
                gaps.extend_cost as int,
                block_size,
            )
        }
}

/// The first validation failure over a whole collection, in order; `Ok` when
/// every sequence passes.
pub open spec fn batch_check(universe: Seq<SequenceRecord>) -> Result<(), ValidationError>
    decreases universe.len(),
{
    if universe.len() == 0 {
        Ok(())
    } else if residues_check(universe[0].residues@) is Err {
        residues_check(universe[0].residues@)
    } else {
        batch_check(universe.drop_first())
    }
}

/// The outcome of validating one row's inputs: the reference first, then the
/// collection in order.
pub open spec fn row_check(reference: SequenceRecord, universe: Seq<SequenceRecord>) -> Result<
    (),
    ValidationError,
> {
    if residues_check(reference.residues@) is Err {
        residues_check(reference.residues@)
    } else {
        batch_check(universe)
    }
}

proof fn lemma_batch_check_first_bad(universe: Seq<SequenceRecord>, k: int)
    requires
        0 <= k < universe.len(),
        forall|j: int| 0 <= j < k ==> residues_check(#[trigger] universe[j].residues@) is Ok,
        residues_check(universe[k].residues@) is Err,
    ensures
        batch_check(universe) == residues_check(universe[k].residues@),
    decreases universe.len(),
{
    if k > 0 {
        lemma_batch_check_first_bad(universe.drop_first(), k - 1);
    }
}

proof fn lemma_batch_check_all_ok(universe: Seq<SequenceRecord>)
    requires
        forall|j: int|
            0 <= j < universe.len() ==> residues_check(#[trigger] universe[j].residues@) is Ok,
    ensures
        batch_check(universe) is Ok,
    decreases universe.len(),
{
    if universe.len() > 0 {
        lemma_batch_check_all_ok(universe.drop_first());
    }
}

/// Builds one batch: validates the reference and every entry of `universe`
/// (all before any scoring), then scores each entry against the reference in
/// `universe`'s order.
pub fn build_row(
    reference: &SequenceRecord,
    universe: &Vec<SequenceRecord>,
    scope: &str,
    gaps: GapModel,
    block_size: usize,
) -> (r: Result<Vec<ScoreRecord>, ValidationError>)
    requires
        gaps.wf(),
        valid_block_size(block_size as int),
    ensures
        r is Ok <==> row_check(*reference, universe@) is Ok,
        r is Ok ==> row_matches(
            r->Ok_0@,
            *reference,
            universe@,
            scope@,
            gaps,
            block_size as int,
        ),
        r is Err ==> r->Err_0 == row_check(*reference, universe@)->Err_0,
{
    match validate_residues(&reference.residues) {
        Ok(_) => (),
        Err(e) => {
            return Err(e);
        },
    }
    let mut j: usize = 0;
    while j < universe.len()
        invariant
            0 <= j <= universe@.len(),
            residues_check(reference.residues@) is Ok,
            forall|k: int| 0 <= k < j ==> residues_check(#[trigger] universe@[k].residues@) is Ok,
        decreases universe@.len() - j,
    {
        match validate_residues(&universe[j].residues) {
            Ok(_) => (),
            Err(e) => {
                proof {
                    lemma_batch_check_first_bad(universe@, j as int);
                }
                return Err(e);
            },
        }
        j = j + 1;
    }
    proof {
        lemma_batch_check_all_ok(universe@);
    }
    let mut row: Vec<ScoreRecord> = Vec::new();
    let mut i: usize = 0;
    while i < universe.len()
        invariant
            0 <= i <= universe@.len(),
            row@.len() == i,
            gaps.wf(),
            valid_block_size(block_size as int),
            valid_sequence(reference.residues@),
            forall|k: int| 0 <= k < universe@.len() ==> valid_sequence(#[trigger] universe@[k].residues@),
            forall|k: int|
                0 <= k < i ==> {
                    &&& (#[trigger] row@[k]).reference_id@ == reference.identifier@
                    &&& row@[k].compared_id@ == universe@[k].identifier@
                    &&& row@[k].scope@ == scope@
                    &&& row@[k].score == blosum62_score(
                        universe@[k].residues@,
                        reference.residues@,
                        gaps.open_cost as int,
                        gaps.extend_cost as int,
                        block_size as int,
                    )
                },
        decreases universe@.len() - i,
    {
        let score = align_blosum62(&universe[i].residues, &reference.residues, gaps, block_size);
        let record = ScoreRecord {
            reference_id: reference.identifier.clone(),
            compared_id: universe[i].identifier.clone(),
            score,
            scope: scope.to_owned(),
        };
        row.push(record);
        i = i + 1;
    }
    Ok(row)
}

/// Completeness: when one batch is built per reference over a collection of
/// `N` sequences, there are exactly `N` batches of `N` records each — `N · N`
/// in all — the record at batch `i`, position `j` pairing reference `i` with
/// entry `j`; and with identifiers unique within the collection, no ordered
/// pair of identifiers appears in two places.
pub proof fn lemma_run_completeness(
    batches: Seq<Seq<ScoreRecord>>,
    records: Seq<SequenceRecord>,
    scope: Seq<char>,
    gaps: GapModel,
    block_size: int,
)
    requires
        batches.len() == records.len(),
        forall|i: int|
            0 <= i < batches.len() ==> row_matches(
                #[trigger] batches[i],
                records[i],
                records,
                scope,
                gaps,
                block_size,
            ),
        forall|p: int, q: int|
            0 <= p < q < records.len() ==> records[p].identifier@ != records[q].identifier@,
    ensures
        forall|i: int| 0 <= i < batches.len() ==> (#[trigger] batches[i]).len() == records.len(),
        forall|i: int, j: int|
            0 <= i < records.len() && 0 <= j < records.len() ==> {
                &&& (#[trigger] batches[i][j]).reference_id@ == records[i].identifier@
                &&& batches[i][j].compared_id@ == records[j].identifier@
            },
        forall|i: int, j: int, k: int, l: int|
            0 <= i < records.len() && 0 <= j < records.len() && 0 <= k < records.len() && 0 <= l
                < records.len() && (#[trigger] batches[i][j]).reference_id@ == (
            #[trigger] batches[k][l]).reference_id@ && batches[i][j].compared_id@
                == batches[k][l].compared_id@ ==> i == k && j == l,
{
    assert forall|i: int, j: int, k: int, l: int|
        0 <= i < records.len() && 0 <= j < records.len() && 0 <= k < records.len() && 0 <= l
            < records.len() && (#[trigger] batches[i][j]).reference_id@ == (
        #[trigger] batches[k][l]).reference_id@ && batches[i][j].compared_id@
            == batches[k][l].compared_id@ implies i == k && j == l by {
        assert(records[i].identifier@ == records[k].identifier@);
        assert(records[j].identifier@ == records[l].identifier@);
    }
}

} // verus!
