//! Scanning a byte buffer for the fixed automation-detection marker.
//!
//! The marker is the four ASCII bytes `cdc_`. The scan visits every starting
//! offset of the buffer in order and records each one where the marker begins,
//! so the result is the strictly increasing sequence of all marker offsets.

use vstd::prelude::*;

verus! {

/// Length in bytes of the marker pattern.
pub const MARKER_LEN: usize = 4;

/// The marker bytes: `c`, `d`, `c`, `_`.
pub open spec fn marker() -> Seq<u8> {
    seq![99u8, 100u8, 99u8, 95u8]
}

/// The marker begins at offset `i` of `s`.
pub open spec fn is_marker_at(s: Seq<u8>, i: int) -> bool {
    &&& 0 <= i
    &&& i + MARKER_LEN <= s.len()
    &&& s[i] == 99u8
    &&& s[i + 1] == 100u8
    &&& s[i + 2] == 99u8
    &&& s[i + 3] == 95u8
}

/// The increasing sequence of all marker offsets of `s` that are below `n`.
pub open spec fn marker_offsets_below(s: Seq<u8>, n: int) -> Seq<int>
    decreases n,
{
    if n <= 0 {
        Seq::empty()
    } else if is_marker_at(s, n - 1) {
        marker_offsets_below(s, n - 1).push(n - 1)
    } else {
        marker_offsets_below(s, n - 1)
    }
}

/// The increasing sequence of all marker offsets of `s`.
pub open spec fn marker_offsets(s: Seq<u8>) -> Seq<int> {
    marker_offsets_below(s, s.len() as int)
}

/// `marker_offsets_below(s, n)` holds exactly the marker offsets below `n`,
/// in strictly increasing order.
pub proof fn lemma_marker_offsets_below(s: Seq<u8>, n: int)
    ensures
        forall|k: int| 0 <= k < marker_offsets_below(s, n).len()
            ==> is_marker_at(s, #[trigger] marker_offsets_below(s, n)[k])
                && marker_offsets_below(s, n)[k] < n,
        forall|i: int| is_marker_at(s, i) && i < n ==> marker_offsets_below(s, n).contains(i),
        forall|k1: int, k2: int|
            #![trigger marker_offsets_below(s, n)[k1], marker_offsets_below(s, n)[k2]]
            0 <= k1 < k2 < marker_offsets_below(s, n).len()
                ==> marker_offsets_below(s, n)[k1] < marker_offsets_below(s, n)[k2],
    decreases n,
{
    if n > 0 {
        lemma_marker_offsets_below(s, n - 1);
        let prev = marker_offsets_below(s, n - 1);
        let cur = marker_offsets_below(s, n);
        if is_marker_at(s, n - 1) {
            assert(cur == prev.push(n - 1));
            assert forall|k: int| 0 <= k < cur.len()
                implies is_marker_at(s, cur[k]) && cur[k] < n by {
                if k < prev.len() {
                    assert(cur[k] == prev[k]);
                } else {
                    assert(cur[k] == n - 1);
                }
            }
            assert forall|k1: int, k2: int| 0 <= k1 < k2 < cur.len()
                implies cur[k1] < cur[k2] by {
                assert(cur[k1] == prev[k1]);
                if k2 < prev.len() {
                    assert(cur[k2] == prev[k2]);
                } else {
                    assert(cur[k2] == n - 1);
                    assert(prev[k1] < n - 1);
                }
            }
            assert forall|i: int| is_marker_at(s, i) && i < n
                implies cur.contains(i) by {
                if i < n - 1 {
                    let k = choose|k: int|
                        0 <= k < prev.len() && #[trigger] prev[k] == i;
                    assert(cur[k] == i);
                } else {
                    assert(cur.last() == i);
                }
            }
        } else {
            assert(cur == prev);
            assert forall|i: int| is_marker_at(s, i) && i < n
                implies cur.contains(i) by {
                assert(i != n - 1);
                assert(prev.contains(i));
            }
        }
    }
}

/// No marker offset lies at or beyond `s.len() - 3`, so the offsets below any
/// bound past that point are all of them.
pub proof fn lemma_marker_offsets_stable(s: Seq<u8>, n: int)
    requires
        forall|i: int| n <= i ==> !is_marker_at(s, i),
        0 <= n <= s.len(),
    ensures
        marker_offsets(s) == marker_offsets_below(s, n),
    decreases s.len() - n,
{
    if n < s.len() {
        lemma_marker_offsets_stable(s, n + 1);
    }
}

/// All marker offsets of `s`: every recorded offset carries the marker, every
/// marker offset is recorded, and the sequence increases strictly.
pub proof fn lemma_marker_offsets(s: Seq<u8>)
    ensures
        forall|k: int| 0 <= k < marker_offsets(s).len()
            ==> is_marker_at(s, #[trigger] marker_offsets(s)[k]),
        forall|i: int| is_marker_at(s, i) ==> marker_offsets(s).contains(i),
        forall|k1: int, k2: int|
            #![trigger marker_offsets(s)[k1], marker_offsets(s)[k2]]
            0 <= k1 < k2 < marker_offsets(s).len()
                ==> marker_offsets(s)[k1] < marker_offsets(s)[k2],
{
    lemma_marker_offsets_below(s, s.len() as int);
}

/// If `s` holds no marker at all, the scan result is empty.
pub proof fn lemma_no_marker_empty_scan(s: Seq<u8>)
    requires
        forall|i: int| !is_marker_at(s, i),
    ensures
        marker_offsets(s).len() == 0,
{
    if s.len() > 0 {
        lemma_marker_offsets_stable(s, 0);
    }
}

/// Scan `buf` for every occurrence of the marker, in order of offset.
pub fn scan(buf: &Vec<u8>) -> (offsets: Vec<usize>)
    ensures
        offsets@.map_values(|o: usize| o as int) == marker_offsets(buf@),
{
    let mut offsets: Vec<usize> = Vec::new();
    if buf.len() < MARKER_LEN {
        proof {
            assert(marker_offsets_below(buf@, 0) =~= Seq::<int>::empty());
            lemma_marker_offsets_stable(buf@, 0);
            assert(offsets@.map_values(|o: usize| o as int) =~= Seq::<int>::empty());
        }
        return offsets;
    }
    let end = buf.len() - MARKER_LEN;
    let mut i: usize = 0;
    proof {
        assert(offsets@.map_values(|o: usize| o as int) =~= marker_offsets_below(buf@, 0));
    }
    while i <= end
        invariant
            end + MARKER_LEN == buf@.len(),
            buf@.len() <= usize::MAX,
            i <= end + 1,
            offsets@.map_values(|o: usize| o as int) == marker_offsets_below(buf@, i as int),
        decreases end + 1 - i,
    {
        if buf[i] == 99u8 && buf[i + 1] == 100u8 && buf[i + 2] == 99u8 && buf[i + 3] == 95u8 {
            proof {
                assert(is_marker_at(buf@, i as int));
            }
            let ghost before = offsets@;
            offsets.push(i);
            proof {
                assert(offsets@.map_values(|o: usize| o as int)
                    =~= before.map_values(|o: usize| o as int).push(i as int));
            }
        } else {
            proof {
                assert(!is_marker_at(buf@, i as int));
            }
        }
        i = i + 1;
    }
    proof {
        assert(forall|j: int| i <= j ==> !is_marker_at(buf@, j));
        lemma_marker_offsets_stable(buf@, i as int);
    }
    offsets
}

} // verus!
