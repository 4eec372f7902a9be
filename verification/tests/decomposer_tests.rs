use codegraph::decomposer::{decompose, Segment};
use codegraph::queries::QueryError;

fn seg(kind: &str, start: i64, end: i64) -> Segment {
    Segment { entity_type: kind.to_string(), start_byte: start, end_byte: end }
}

#[test]
fn decompose_numbers_ranges_from_zero() {
    let pieces =
        decompose(0, 100, &vec![seg("function", 0, 10), seg("class", 10, 40), seg("block", 55, 100)])
            .unwrap();
    assert_eq!(pieces.len(), 3);
    let got: Vec<(&str, i64, i64, i64)> = pieces
        .iter()
        .map(|p| (p.entity_type.as_str(), p.start_byte, p.end_byte, p.order))
        .collect();
    assert_eq!(got, vec![("function", 0, 10, 0), ("class", 10, 40, 1), ("block", 55, 100, 2)]);
}

#[test]
fn decomposition_is_sorted_and_disjoint() {
    let pieces = decompose(5, 50, &vec![seg("a", 5, 5), seg("b", 5, 20), seg("c", 20, 50)]).unwrap();
    for i in 0..pieces.len() {
        for j in (i + 1)..pieces.len() {
            assert!(pieces[i].order < pieces[j].order);
            assert!(pieces[i].start_byte <= pieces[j].start_byte);
            assert!(pieces[i].end_byte <= pieces[j].start_byte);
        }
    }
}

#[test]
fn decompose_of_nothing_is_nothing() {
    assert!(decompose(0, 0, &Vec::new()).unwrap().is_empty());
}

#[test]
fn overlapping_ranges_are_refused() {
    let r = decompose(0, 100, &vec![seg("a", 0, 10), seg("b", 9, 20)]);
    assert!(matches!(r, Err(QueryError::RangeViolation)));
}

#[test]
fn ranges_out_of_order_are_refused() {
    let r = decompose(0, 100, &vec![seg("a", 20, 30), seg("b", 0, 10)]);
    assert!(matches!(r, Err(QueryError::RangeViolation)));
}

#[test]
fn ranges_outside_the_text_are_refused() {
    assert!(matches!(decompose(0, 10, &vec![seg("a", 0, 11)]), Err(QueryError::RangeViolation)));
    assert!(matches!(decompose(0, 10, &vec![seg("a", -1, 5)]), Err(QueryError::RangeViolation)));
    assert!(matches!(decompose(4, 10, &vec![seg("a", 3, 5)]), Err(QueryError::RangeViolation)));
}

#[test]
fn reversed_range_is_refused() {
    assert!(matches!(decompose(0, 10, &vec![seg("a", 6, 5)]), Err(QueryError::RangeViolation)));
}
