use vstd::prelude::*;
use crate::records::{valid_sequence, residues_check, validate_residues, ValidationError};

verus! {

/// Affine gap costs: opening a gap of length one costs `open_cost`, and each
/// further position costs `extend_cost`, so a gap of length `L` costs
/// `open_cost + (L - 1) * extend_cost`.
#[derive(Clone, Copy, Debug)]
pub struct GapModel {
    pub open_cost: i8,
    pub extend_cost: i8,
}

impl GapModel {
    /// The costs the scan accepts: both negative, and opening strictly more
    /// expensive than extending.
    pub open spec fn wf(self) -> bool {
        self.open_cost < self.extend_cost < 0
    }
}

/// A working-set width the blocked scan accepts: a power of two between 16
/// and 32768. The width trades memory for speed; it is not part of the
/// mathematical inputs of a score.
pub open spec fn valid_block_size(b: int) -> bool {
    b == 16 || b == 32 || b == 64 || b == 128 || b == 256 || b == 512 || b == 1024 || b == 2048
        || b == 4096 || b == 8192 || b == 16384 || b == 32768
}

/// Checks a block size against `valid_block_size`.
pub fn check_block_size(b: usize) -> (r: bool)
    ensures
        r == valid_block_size(b as int),
{
    b == 16 || b == 32 || b == 64 || b == 128 || b == 256 || b == 512 || b == 1024 || b == 2048
        || b == 4096 || b == 8192 || b == 16384 || b == 32768
}

/// The score the blocked BLOSUM62 scan settles on for an ordered pair of
/// residue strings under given gap costs and block size. It is a function of
/// these arguments alone: the scan is deterministic, but its banded search
/// may depend on the block width, so the width is one of the arguments.
pub uninterp spec fn blosum62_score(
    q: Seq<u8>,
    r: Seq<u8>,
    open_cost: int,
    extend_cost: int,
    block_size: int,
) -> int;

/// Relies on block_aligner's `Block::align` (global alignment: no x-drop, no
/// local start, no free end gaps) over the BLOSUM62 matrix, with
/// `PaddedBytes::from_bytes` converting each sequence and `res` reading the
/// score back. The requires mirror the scan's own input checks, so the call
/// cannot panic.
#[verifier::external_body]
pub(crate) fn align_blosum62(q: &Vec<u8>, r: &Vec<u8>, gaps: GapModel, block_size: usize) -> (s: i32)
    requires
        valid_sequence(q@),
        valid_sequence(r@),
        gaps.wf(),
        valid_block_size(block_size as int),
    ensures
        s == blosum62_score(
            q@,
            r@,
            gaps.open_cost as int,
            gaps.extend_cost as int,
            block_size as int,
        ),
{
    let qp = block_aligner::scan_block::PaddedBytes::from_bytes::<
        block_aligner::scores::AAMatrix,
    >(q.as_slice(), block_size);
    let rp = block_aligner::scan_block::PaddedBytes::from_bytes::<
        block_aligner::scores::AAMatrix,
    >(r.as_slice(), block_size);
    let mut block = block_aligner::scan_block::Block::<false, false>::new(q.len(), r.len(), block_size);
    let costs = block_aligner::scores::Gaps { open: gaps.open_cost, extend: gaps.extend_cost };
    block.align(&qp, &rp, &block_aligner::scores::BLOSUM62, costs, block_size..=block_size, 0);
    block.res().score
}

/// Validates both residue strings, then scores their global alignment.
/// Validation happens entirely before any scoring: an invalid input is
/// reported without touching the scan. `a` is validated first.
pub fn align(a: &Vec<u8>, b: &Vec<u8>, gaps: GapModel, block_size: usize) -> (r: Result<
    i32,
    ValidationError,
>)
    requires
        gaps.wf(),
        valid_block_size(block_size as int),
    ensures
        r is Ok <==> valid_sequence(a@) && valid_sequence(b@),
        r is Ok ==> r->Ok_0 == blosum62_score(
            a@,
            b@,
            gaps.open_cost as int,
            gaps.extend_cost as int,
            block_size as int,
        ),
        residues_check(a@) is Err ==> r == Err::<i32, ValidationError>(
            residues_check(a@)->Err_0,
        ),
        residues_check(a@) is Ok && residues_check(b@) is Err ==> r == Err::<
            i32,
            ValidationError,
        >(residues_check(b@)->Err_0),
{
    match validate_residues(a) {
        Ok(_) => (),
        Err(e) => {
            return Err(e);
        },
    }
    match validate_residues(b) {
        Ok(_) => (),
        Err(e) => {
            return Err(e);
        },
    }
    Ok(align_blosum62(a, b, gaps, block_size))
}

/// Determinism: the score of a pair is a function of the sequences, the gap
/// costs and the block width alone, so any two results of scoring the same
/// inputs are equal.
pub proof fn lemma_align_deterministic(
    a: Seq<u8>,
    b: Seq<u8>,
    gaps: GapModel,
    block_size: int,
    s1: int,
    s2: int,
)
    requires
        s1 == blosum62_score(a, b, gaps.open_cost as int, gaps.extend_cost as int, block_size),
        s2 == blosum62_score(a, b, gaps.open_cost as int, gaps.extend_cost as int, block_size),
    ensures
        s1 == s2,
{
}

} // verus!
