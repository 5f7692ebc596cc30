use pairscore::engine::{align, check_block_size, GapModel};
use pairscore::records::{validate_residues, ValidationError, MAX_SEQ_LEN};

fn gaps() -> GapModel {
    GapModel { open_cost: -11, extend_cost: -1 }
}

fn score(a: &[u8], b: &[u8], block_size: usize) -> i32 {
    align(&a.to_vec(), &b.to_vec(), gaps(), block_size).expect("valid inputs must score")
}

#[test]
fn determinism_repeated_calls() {
    let s1 = score(b"ACDE", b"ACDF", 256);
    let s2 = score(b"ACDE", b"ACDF", 256);
    let s3 = score(b"ACDE", b"ACDF", 256);
    assert_eq!(s1, s2);
    assert_eq!(s2, s3);
}

#[test]
fn determinism_across_block_sizes() {
    let reference = score(b"MKVLAAGICDE", b"MKVLSAGWCDE", 16);
    for block_size in [32usize, 64, 128, 256, 512] {
        assert_eq!(score(b"MKVLAAGICDE", b"MKVLSAGWCDE", block_size), reference);
    }
}

#[test]
fn exact_scores_from_matrix() {
    // A-A=4, C-C=9, D-D=6, E-E=5, F-F=6, E-F=-3 under BLOSUM62.
    assert_eq!(score(b"ACDE", b"ACDE", 256), 24);
    assert_eq!(score(b"ACDF", b"ACDF", 256), 25);
    assert_eq!(score(b"ACDE", b"ACDF", 256), 16);
}

#[test]
fn exact_score_with_gap() {
    // Three matches and one deleted residue: 4 + 9 + 6 - 11.
    assert_eq!(score(b"ACDE", b"ACD", 256), 8);
    assert_eq!(score(b"ACD", b"ACDE", 256), 8);
}

#[test]
fn commutativity_pairs() {
    let pairs: [(&[u8], &[u8]); 4] = [
        (b"ACDE", b"ACDF"),
        (b"ACDE", b"ACD"),
        (b"MKVLAAGICDE", b"MKVLSAGWCDE"),
        (b"W", b"A"),
    ];
    for (a, b) in pairs {
        assert_eq!(score(a, b, 256), score(b, a, 256));
    }
}

#[test]
fn self_alignment_extremum() {
    let a: &[u8] = b"ACDE";
    for b in [b"ACDF" as &[u8], b"WWWW", b"AAAA", b"ECDA"] {
        assert!(score(a, a, 256) >= score(a, b, 256));
    }
    let long: &[u8] = b"MKVLAAGICDE";
    let other: &[u8] = b"MKVLSAGWCDE";
    assert!(score(long, long, 256) >= score(long, other, 256));
}

#[test]
fn empty_sequence_rejected() {
    let empty: Vec<u8> = Vec::new();
    let ok = b"ACDE".to_vec();
    assert_eq!(align(&empty, &ok, gaps(), 256), Err(ValidationError::EmptySequence));
    assert_eq!(align(&ok, &empty, gaps(), 256), Err(ValidationError::EmptySequence));
}

#[test]
fn invalid_residue_rejected() {
    let ok = b"ACDE".to_vec();
    for bad in [b"ACJE".to_vec(), b"ACOE".to_vec(), b"ACUE".to_vec(), b"AC1E".to_vec(), b"acde".to_vec()] {
        assert_eq!(align(&bad, &ok, gaps(), 256), Err(ValidationError::InvalidResidue));
        assert_eq!(align(&ok, &bad, gaps(), 256), Err(ValidationError::InvalidResidue));
    }
}

#[test]
fn first_invalid_input_reported() {
    let empty: Vec<u8> = Vec::new();
    let bad = b"ACJE".to_vec();
    // The first argument is validated first.
    assert_eq!(align(&empty, &bad, gaps(), 256), Err(ValidationError::EmptySequence));
    assert_eq!(align(&bad, &empty, gaps(), 256), Err(ValidationError::InvalidResidue));
}

#[test]
fn validate_residues_outcomes() {
    assert_eq!(validate_residues(&b"ACDEFGHIKLMNPQRSTVWXYZB".to_vec()), Ok(()));
    assert_eq!(validate_residues(&Vec::new()), Err(ValidationError::EmptySequence));
    assert_eq!(validate_residues(&b"ACJ".to_vec()), Err(ValidationError::InvalidResidue));
    assert_eq!(validate_residues(&b"AC E".to_vec()), Err(ValidationError::InvalidResidue));
}

#[test]
fn overlong_sequence_rejected() {
    let long = vec![65u8; MAX_SEQ_LEN + 1];
    assert_eq!(validate_residues(&long), Err(ValidationError::TooLong));
}

#[test]
fn block_size_validity() {
    for good in [16usize, 32, 256, 32768] {
        assert!(check_block_size(good));
    }
    for bad in [0usize, 1, 15, 100, 65536] {
        assert!(!check_block_size(bad));
    }
}
