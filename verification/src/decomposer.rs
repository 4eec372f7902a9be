//! The decomposer's contract: a candidate segmentation of a text becomes a
//! numbered sequence of ranges, or is refused.

use vstd::prelude::*;
use crate::model::EntityView;
use crate::queries::QueryError;

verus! {

/// A candidate range of a text, as a splitter proposes it.
pub struct Segment {
    pub entity_type: String,
    pub start_byte: i64,
    pub end_byte: i64,
}

/// An accepted range, with its rank among its siblings.
pub struct Piece {
    pub entity_type: String,
    pub start_byte: i64,
    pub end_byte: i64,
    pub order: i64,
}

impl Piece {
    /// The entity that the piece becomes once it has its text and the time
    /// of its extraction.
    pub open spec fn as_entity(&self, text: Seq<char>, extracted_at: Seq<char>) -> EntityView {
        EntityView {
            entity_type: self.entity_type@,
            start_byte: self.start_byte as int,
            end_byte: self.end_byte as int,
            order: self.order as int,
            text,
            extracted_at,
        }
    }
}

/// Every range lies within `[lo, hi)`, and each ends before any later one
/// starts.
pub open spec fn in_order(segments: Seq<Segment>, lo: int, hi: int) -> bool {
    &&& forall|i: int|
        0 <= i < segments.len() ==> lo <= (#[trigger] segments[i]).start_byte
            <= segments[i].end_byte <= hi
    &&& forall|i: int, j: int|
        0 <= i < j < segments.len() ==> (#[trigger] segments[i]).end_byte
            <= (#[trigger] segments[j]).start_byte
}

/// Each piece is the segment at its position, and its rank is that position.
pub open spec fn numbered(pieces: Seq<Piece>, segments: Seq<Segment>) -> bool {
    &&& pieces.len() == segments.len()
    &&& forall|i: int|
        0 <= i < pieces.len() ==> {
            &&& (#[trigger] pieces[i]).entity_type@ == segments[i].entity_type@
            &&& pieces[i].start_byte == segments[i].start_byte
            &&& pieces[i].end_byte == segments[i].end_byte
            &&& pieces[i].order == i
        }
}

/// Ranks rise with position, starts never fall, and no two ranges overlap.
pub open spec fn disjoint_and_sorted(pieces: Seq<Piece>) -> bool {
    forall|i: int, j: int|
        0 <= i < j < pieces.len() ==> {
            &&& (#[trigger] pieces[i]).order < (#[trigger] pieces[j]).order
            &&& pieces[i].start_byte <= pieces[j].start_byte
            &&& pieces[i].end_byte <= pieces[j].start_byte
        }
}

/// Accepts a segmentation of the range `[lo, hi)` whose ranges are in order
/// and do not overlap, and numbers its ranges from 0 in ascending order of
/// their starts; refuses any other with `RangeViolation`.
pub fn decompose(lo: i64, hi: i64, segments: &Vec<Segment>) -> (r: Result<Vec<Piece>, QueryError>)
    requires
        segments.len() <= i64::MAX,
    ensures
        match r {
            Ok(pieces) => in_order(segments@, lo as int, hi as int) && numbered(
                pieces@,
                segments@,
            ) && disjoint_and_sorted(pieces@),
            Err(e) => e == QueryError::RangeViolation && !in_order(
                segments@,
                lo as int,
                hi as int,
            ),
        },
{
    let mut pieces: Vec<Piece> = Vec::new();
    let mut last_end: i64 = lo;
    let mut i: usize = 0;
    while i < segments.len()
        invariant
            i <= segments.len(),
            segments.len() <= i64::MAX,
            in_order(segments@.take(i as int), lo as int, hi as int),
            numbered(pieces@, segments@.take(i as int)),
            i > 0 ==> last_end == segments@[i - 1].end_byte,
            forall|k: int| 0 <= k < i ==> (#[trigger] segments@[k]).end_byte <= last_end,
        decreases segments.len() - i,
    {
        let s = &segments[i];
        if s.start_byte < lo || s.end_byte < s.start_byte || hi < s.end_byte {
            return Err(QueryError::RangeViolation);
        }
        if i > 0 && s.start_byte < last_end {
            proof {
                assert(segments@[i - 1].end_byte > segments@[i as int].start_byte);
            }
            return Err(QueryError::RangeViolation);
        }
        pieces.push(
            Piece {
                entity_type: s.entity_type.clone(),
                start_byte: s.start_byte,
                end_byte: s.end_byte,
                order: i as i64,
            },
        );
        last_end = s.end_byte;
        i += 1;
        proof {
            let now = segments@.take(i as int);
            assert forall|a: int, b: int| 0 <= a < b < now.len() implies (#[trigger] now[a]).end_byte
                <= (#[trigger] now[b]).start_byte by {
                if b < i - 1 {
                    let before = segments@.take(i - 1);
                    assert(before[a].end_byte <= before[b].start_byte);
                } else {
                    assert(segments@[a].end_byte <= segments@[i - 1].start_byte);
                }
            }
            assert forall|a: int| 0 <= a < now.len() implies lo <= (#[trigger] now[a]).start_byte
                <= now[a].end_byte <= hi by {
                if a < i - 1 {
                    let before = segments@.take(i - 1);
                    assert(lo <= before[a].start_byte);
                }
            }
        }
    }
    proof {
        segments@.lemma_take_len();
        assert forall|a: int, b: int| 0 <= a < b < pieces@.len() implies {
            &&& (#[trigger] pieces@[a]).order < (#[trigger] pieces@[b]).order
            &&& pieces@[a].start_byte <= pieces@[b].start_byte
            &&& pieces@[a].end_byte <= pieces@[b].start_byte
        } by {
            assert(segments@[a].end_byte <= segments@[b].start_byte);
            assert(segments@[a].start_byte <= segments@[a].end_byte);
        }
    }
    Ok(pieces)
}

} // verus!
