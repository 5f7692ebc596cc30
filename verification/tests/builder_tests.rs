use pairscore::builder::build_row;
use pairscore::engine::GapModel;
use pairscore::records::{SequenceRecord, ValidationError};

fn gaps() -> GapModel {
    GapModel { open_cost: -11, extend_cost: -1 }
}

fn record(id: &str, seq: &[u8]) -> SequenceRecord {
    SequenceRecord { identifier: id.to_string(), residues: seq.to_vec() }
}

#[test]
fn row_for_first_reference() {
    let universe = vec![record("P1", b"ACDE"), record("P2", b"ACDF")];
    let row = build_row(&universe[0], &universe, "test", gaps(), 256).unwrap();
    assert_eq!(row.len(), 2);
    assert_eq!(row[0].reference_id, "P1");
    assert_eq!(row[0].compared_id, "P1");
    assert_eq!(row[0].score, 24);
    assert_eq!(row[0].scope, "test");
    assert_eq!(row[1].reference_id, "P1");
    assert_eq!(row[1].compared_id, "P2");
    assert_eq!(row[1].score, 16);
    assert_eq!(row[1].scope, "test");
}

#[test]
fn row_order_follows_universe() {
    let universe = vec![
        record("P3", b"WYW"),
        record("P1", b"ACDE"),
        record("P2", b"ACDF"),
    ];
    let row = build_row(&universe[2], &universe, "fam", gaps(), 256).unwrap();
    assert_eq!(row.len(), 3);
    let compared: Vec<&str> = row.iter().map(|r| r.compared_id.as_str()).collect();
    assert_eq!(compared, vec!["P3", "P1", "P2"]);
    for r in &row {
        assert_eq!(r.reference_id, "P2");
        assert_eq!(r.scope, "fam");
    }
}

#[test]
fn cross_scores_commute_and_self_is_best() {
    let universe = vec![record("P1", b"ACDE"), record("P2", b"ACDF")];
    let row1 = build_row(&universe[0], &universe, "test", gaps(), 256).unwrap();
    let row2 = build_row(&universe[1], &universe, "test", gaps(), 256).unwrap();
    let s11 = row1[0].score;
    let s12 = row1[1].score;
    let s21 = row2[0].score;
    let s22 = row2[1].score;
    assert_eq!(s12, s21);
    assert!(s11 >= s12);
    assert!(s22 >= s21);
}

#[test]
fn invalid_reference_rejected_before_scoring() {
    let universe = vec![record("P1", b"ACDE")];
    let bad_ref = record("PX", b"ACJE");
    assert_eq!(
        build_row(&bad_ref, &universe, "test", gaps(), 256),
        Err(ValidationError::InvalidResidue)
    );
}

#[test]
fn invalid_universe_entry_rejected() {
    let universe = vec![
        record("P1", b"ACDE"),
        record("P2", b""),
        record("P3", b"AC*E"),
    ];
    let reference = record("P1", b"ACDE");
    // The first failing entry, in order, decides the error.
    assert_eq!(
        build_row(&reference, &universe, "test", gaps(), 256),
        Err(ValidationError::EmptySequence)
    );
}

#[test]
fn empty_universe_gives_empty_row() {
    let universe: Vec<SequenceRecord> = Vec::new();
    let reference = record("P1", b"ACDE");
    let row = build_row(&reference, &universe, "test", gaps(), 256).unwrap();
    assert_eq!(row.len(), 0);
}
