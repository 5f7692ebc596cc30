use vstd::prelude::*;

verus! {

/// Longest residue string the engine accepts. The blocked scan keeps its
/// scores in 32-bit integers. Every column of a global alignment consumes a
/// residue of at least one of the two sequences, so an alignment of two
/// sequences no longer than this bound has at most `2^23` columns; with
/// substitution and gap entries of magnitude at most 128, every alignment
/// score — of the whole or of any prefix — stays within `2^30`, inside that
/// range for any gap costs the engine admits.
pub const MAX_SEQ_LEN: usize = 0x40_0000;

/// One protein: a unique identifier and its residue string, stored as bytes.
#[derive(Clone, Debug)]
pub struct SequenceRecord {
    pub identifier: String,
    pub residues: Vec<u8>,
}

/// ASCII `A`.
pub const RESIDUE_MIN: u8 = 65;

/// ASCII `Z`.
pub const RESIDUE_MAX: u8 = 90;

/// ASCII `J`.
pub const RESIDUE_J: u8 = 74;

/// ASCII `O`.
pub const RESIDUE_O: u8 = 79;

/// ASCII `U`.
pub const RESIDUE_U: u8 = 85;

/// A residue the substitution matrix scores: an uppercase ASCII letter other
/// than `J`, `O` and `U`, which the amino-acid table leaves unscored.
pub open spec fn valid_residue(b: u8) -> bool {
    RESIDUE_MIN <= b <= RESIDUE_MAX && b != RESIDUE_J && b != RESIDUE_O && b != RESIDUE_U
}

/// A residue string the engine accepts: non-empty, within the machine bound,
/// and drawn entirely from the matrix alphabet.
pub open spec fn valid_sequence(s: Seq<u8>) -> bool {
    0 < s.len() <= MAX_SEQ_LEN && forall|i: int| 0 <= i < s.len() ==> valid_residue(s[i])
}

/// Why a residue string was rejected before scoring.
#[derive(Clone, Copy, Debug, PartialEq, Eq, Structural)]
pub enum ValidationError {
    /// The sequence has no residues.
    EmptySequence,
    /// The sequence is longer than `MAX_SEQ_LEN`.
    TooLong,
    /// The sequence holds a symbol outside the matrix alphabet.
    InvalidResidue,
}

/// The exact outcome of validating one residue string, error by error.
pub open spec fn residues_check(s: Seq<u8>) -> Result<(), ValidationError> {
    if s.len() == 0 {
        Err(ValidationError::EmptySequence)
    } else if s.len() > MAX_SEQ_LEN {
        Err(ValidationError::TooLong)
    } else if exists|i: int| 0 <= i < s.len() && !valid_residue(s[i]) {
        Err(ValidationError::InvalidResidue)
    } else {
        Ok(())
    }
}

/// Checks a residue string against the matrix alphabet, before any scoring.
pub fn validate_residues(s: &Vec<u8>) -> (r: Result<(), ValidationError>)
    ensures
        r == residues_check(s@),
        r is Ok <==> valid_sequence(s@),
{
    if s.len() == 0 {
        return Err(ValidationError::EmptySequence);
    }
    if s.len() > MAX_SEQ_LEN {
        return Err(ValidationError::TooLong);
    }
    let mut i: usize = 0;
    while i < s.len()
        invariant
            0 <= i <= s@.len(),
            0 < s@.len() <= MAX_SEQ_LEN,
            forall|k: int| 0 <= k < i ==> valid_residue(s@[k]),
        decreases s@.len() - i,
    {
        let b = s[i];
        if !(RESIDUE_MIN <= b && b <= RESIDUE_MAX) || b == RESIDUE_J || b == RESIDUE_O || b == RESIDUE_U {
            assert(!valid_residue(s@[i as int]));
            return Err(ValidationError::InvalidResidue);
        }
        i = i + 1;
    }
    Ok(())
}

/// One scored ordered pair, tagged with the scope label of the run.
#[derive(Clone, Debug, PartialEq, Eq)]
pub struct ScoreRecord {
    pub reference_id: String,
    pub compared_id: String,
    pub score: i32,
    pub scope: String,
}

} // verus!
