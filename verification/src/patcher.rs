//! Overwriting marker windows with random letters.
//!
//! Each discovered marker offset anchors a fixed-length window; every byte of
//! every window is replaced by a random upper- or lower-case ASCII letter, and
//! every byte outside the windows is kept as it is. The output buffer has the
//! same length as the input, so no offset inside the binary shifts.

use vstd::prelude::*;
use crate::scanner::{is_marker_at, marker_offsets, scan};
use vstd::set_lib::{lemma_int_range, lemma_set_disjoint_lens, set_int_range};

verus! {

/// Length in bytes of the window overwritten at each marker offset.
pub const WINDOW_LEN: usize = 22;

/// `b` is an upper- or lower-case ASCII letter: the replacement alphabet has
/// exactly these 52 symbols.
pub open spec fn is_patch_letter(b: u8) -> bool {
    (65 <= b && b <= 90) || (97 <= b && b <= 122)
}

/// Position `i` lies inside the window of one of `offsets`.
pub open spec fn in_patch_window(offsets: Seq<usize>, i: int) -> bool {
    exists|j: int| 0 <= j < offsets.len() && #[trigger] offsets[j] <= i < offsets[j] + WINDOW_LEN
}

/// Position `i` lies inside the window of some marker occurrence of `s`.
pub open spec fn near_marker(s: Seq<u8>, i: int) -> bool {
    exists|j: int| #[trigger] is_marker_at(s, j) && j <= i < j + WINDOW_LEN
}

/// The windows of the offsets never run into each other.
pub open spec fn non_overlapping(offsets: Seq<usize>) -> bool {
    forall|j1: int, j2: int|
        #![trigger offsets[j1], offsets[j2]]
        0 <= j1 < j2 < offsets.len() ==> offsets[j1] + WINDOW_LEN <= offsets[j2]
}

/// The set of positions covered by some window of `offsets`.
pub open spec fn patched_positions(offsets: Seq<usize>) -> Set<int> {
    Set::new(|i: int| in_patch_window(offsets, i))
}

/// With non-overlapping windows, the patch touches exactly
/// `WINDOW_LEN * offsets.len()` byte positions.
pub proof fn lemma_patched_positions_count(offsets: Seq<usize>)
    requires
        non_overlapping(offsets),
    ensures
        patched_positions(offsets).finite(),
        patched_positions(offsets).len() == WINDOW_LEN * offsets.len(),
    decreases offsets.len(),
{
    if offsets.len() == 0 {
        assert(patched_positions(offsets) =~= Set::<int>::empty());
    } else {
        let rest = offsets.drop_last();
        let last = offsets.last() as int;
        lemma_patched_positions_count(rest);
        let window = set_int_range(last, last + WINDOW_LEN);
        lemma_int_range(last, last + WINDOW_LEN);
        assert forall|i: int| in_patch_window(offsets, i)
            implies patched_positions(rest).union(window).contains(i) by {
            let j = choose|j: int|
                0 <= j < offsets.len() && #[trigger] offsets[j] <= i < offsets[j] + WINDOW_LEN;
            if j < rest.len() {
                assert(rest[j] == offsets[j]);
                assert(in_patch_window(rest, i));
            } else {
                assert(window.contains(i));
            }
        }
        assert forall|i: int| patched_positions(rest).union(window).contains(i)
            implies in_patch_window(offsets, i) by {
            if patched_positions(rest).contains(i) {
                let j = choose|j: int|
                    0 <= j < rest.len() && #[trigger] rest[j] <= i < rest[j] + WINDOW_LEN;
                assert(offsets[j] == rest[j]);
            } else {
                assert(offsets[offsets.len() - 1] <= i < offsets[offsets.len() - 1] + WINDOW_LEN);
            }
        }
        assert(patched_positions(offsets) =~= patched_positions(rest).union(window));
        assert(patched_positions(rest).disjoint(window)) by {
            assert forall|i: int| patched_positions(rest).contains(i)
                implies !window.contains(i) by {
                let j = choose|j: int|
                    0 <= j < rest.len() && #[trigger] rest[j] <= i < rest[j] + WINDOW_LEN;
                assert(offsets[j] + WINDOW_LEN <= offsets[offsets.len() - 1]);
            }
        }
        lemma_set_disjoint_lens(patched_positions(rest), window);
        assert(patched_positions(rest).union(window) == patched_positions(rest) + window);
        assert(WINDOW_LEN * offsets.len() == WINDOW_LEN * rest.len() + WINDOW_LEN) by (nonlinear_arith)
            requires offsets.len() == rest.len() + 1;
    }
}

/// The marker occurrences of `s` keep full window spacing between each other.
pub open spec fn markers_spaced(s: Seq<u8>) -> bool {
    forall|m1: int, m2: int|
        #![trigger is_marker_at(s, m1), is_marker_at(s, m2)]
        is_marker_at(s, m1) && is_marker_at(s, m2) && m1 < m2 ==> m1 + WINDOW_LEN <= m2
}

/// The set of positions the patch overwrites: those inside some marker window.
pub open spec fn marker_positions(s: Seq<u8>) -> Set<int> {
    Set::new(|i: int| near_marker(s, i))
}

/// With `k` marker occurrences whose windows keep clear of each other, the
/// patch footprint covers exactly `k * WINDOW_LEN` positions. Together with
/// the contract of `patch_image` this pins the shape of a patched buffer: it
/// can differ from the original only on those `k * WINDOW_LEN` positions, and
/// each of them comes back as a letter of the replacement alphabet.
pub proof fn lemma_patch_footprint(s: Seq<u8>)
    requires
        markers_spaced(s),
        s.len() <= usize::MAX,
    ensures
        marker_positions(s).finite(),
        marker_positions(s).len() == WINDOW_LEN * marker_offsets(s).len(),
{
    crate::scanner::lemma_marker_offsets(s);
    let offs_int = marker_offsets(s);
    let offs = offs_int.map_values(|i: int| i as usize);
    assert forall|j: int| 0 <= j < offs.len() implies offs[j] == offs_int[j] by {
        assert(is_marker_at(s, offs_int[j]));
    }
    assert(non_overlapping(offs)) by {
        assert forall|j1: int, j2: int|
            #![trigger offs[j1], offs[j2]]
            0 <= j1 < j2 < offs.len() implies offs[j1] + WINDOW_LEN <= offs[j2] by {
            assert(is_marker_at(s, offs_int[j1]));
            assert(is_marker_at(s, offs_int[j2]));
            assert(offs_int[j1] < offs_int[j2]);
        }
    }
    assert forall|i: int| in_patch_window(offs, i) implies near_marker(s, i) by {
        let j = choose|j: int|
            0 <= j < offs.len() && #[trigger] offs[j] <= i < offs[j] + WINDOW_LEN;
        assert(is_marker_at(s, offs_int[j]));
    }
    assert forall|i: int| near_marker(s, i) implies in_patch_window(offs, i) by {
        let m = choose|m: int| #[trigger] is_marker_at(s, m) && m <= i < m + WINDOW_LEN;
        assert(offs_int.contains(m));
        let j = choose|j: int| 0 <= j < offs_int.len() && #[trigger] offs_int[j] == m;
        assert(offs[j] == m);
    }
    assert(marker_positions(s) =~= patched_positions(offs));
    lemma_patched_positions_count(offs);
}

/// The letter of the 52-symbol replacement alphabet at index `i`: first the
/// lower-case letters, then the upper-case ones.
fn alphabet_letter(i: usize) -> (b: u8)
    requires
        i < 52,
    ensures
        is_patch_letter(b),
{
    if i < 26 {
        97 + (i as u8)
    } else {
        65 + (i as u8 - 26)
    }
}

/// Draw one random replacement letter.
pub fn random_letter() -> (b: u8)
    ensures
        is_patch_letter(b),
{
    let idx = crate::rng::random_in_range(0, 52);
    alphabet_letter(idx as usize)
}

/// Overwrite the window at every offset with random letters, leaving every
/// other byte of `buf` unchanged. The result keeps the length of `buf`.
pub fn patch(buf: &Vec<u8>, offsets: &Vec<usize>) -> (out: Vec<u8>)
    requires
        forall|j: int| 0 <= j < offsets@.len()
            ==> #[trigger] offsets@[j] + WINDOW_LEN <= buf@.len(),
    ensures
        out@.len() == buf@.len(),
        forall|i: int| 0 <= i < buf@.len() && !in_patch_window(offsets@, i)
            ==> out@[i] == buf@[i],
        forall|i: int| 0 <= i < buf@.len() && in_patch_window(offsets@, i)
            ==> is_patch_letter(#[trigger] out@[i]),
{
    let mut out: Vec<u8> = Vec::new();
    let mut k: usize = 0;
    while k < buf.len()
        invariant
            k <= buf@.len(),
            out@ =~= buf@.subrange(0, k as int),
        decreases buf@.len() - k,
    {
        out.push(buf[k]);
        k = k + 1;
    }
    proof {
        assert(out@ =~= buf@);
    }
    let mut j: usize = 0;
    while j < offsets.len()
        invariant
            j <= offsets@.len(),
            buf@.len() <= usize::MAX,
            out@.len() == buf@.len(),
            forall|j2: int| 0 <= j2 < offsets@.len()
                ==> #[trigger] offsets@[j2] + WINDOW_LEN <= buf@.len(),
            forall|i: int| 0 <= i < buf@.len()
                && !in_patch_window(offsets@.subrange(0, j as int), i)
                ==> out@[i] == buf@[i],
            forall|i: int| 0 <= i < buf@.len()
                && in_patch_window(offsets@.subrange(0, j as int), i)
                ==> is_patch_letter(#[trigger] out@[i]),
        decreases offsets@.len() - j,
    {
        let start = offsets[j];
        let mut x: usize = start;
        while x < start + WINDOW_LEN
            invariant
                start == offsets@[j as int],
                0 <= j < offsets@.len(),
                start <= x <= start + WINDOW_LEN,
                start + WINDOW_LEN <= buf@.len(),
                buf@.len() <= usize::MAX,
                out@.len() == buf@.len(),
                forall|i: int| 0 <= i < buf@.len()
                    && !in_patch_window(offsets@.subrange(0, j as int), i)
                    && !(start <= i < x)
                    ==> out@[i] == buf@[i],
                forall|i: int| 0 <= i < buf@.len()
                    && (in_patch_window(offsets@.subrange(0, j as int), i)
                        || (start <= i < x))
                    ==> is_patch_letter(#[trigger] out@[i]),
            decreases start + WINDOW_LEN - x,
        {
            let b = random_letter();
            out.set(x, b);
            x = x + 1;
        }
        proof {
            let before = offsets@.subrange(0, j as int);
            let after = offsets@.subrange(0, j as int + 1);
            assert(after == before.push(offsets@[j as int]));
            assert forall|i: int| in_patch_window(after, i)
                implies in_patch_window(before, i) || (start <= i < start + WINDOW_LEN) by {
                let j2 = choose|j2: int|
                    0 <= j2 < after.len() && #[trigger] after[j2] <= i < after[j2] + WINDOW_LEN;
                if j2 < before.len() {
                    assert(before[j2] == after[j2]);
                } else {
                    assert(after[j2] == offsets@[j as int]);
                }
            }
            assert forall|i: int| in_patch_window(before, i)
                implies in_patch_window(after, i) by {
                let j2 = choose|j2: int|
                    0 <= j2 < before.len() && #[trigger] before[j2] <= i < before[j2] + WINDOW_LEN;
                assert(after[j2] == before[j2]);
            }
            assert(start <= start < start + WINDOW_LEN);
            assert forall|i: int| start <= i < start + WINDOW_LEN
                implies in_patch_window(after, i) by {
                assert(after[j as int] == offsets@[j as int]);
            }
        }
        j = j + 1;
    }
    proof {
        assert(offsets@.subrange(0, offsets@.len() as int) =~= offsets@);
    }
    out
}

/// Scan `buf` for the marker and patch every window: the composed step of the
/// pipeline. Returns the patched buffer and the number of windows patched,
/// which equals the number of marker occurrences. A buffer without any marker
/// comes back byte-identical with a count of zero; every byte inside a marker
/// window comes back as a letter of the replacement alphabet, and every byte
/// outside all of them is kept.
pub fn patch_image(buf: &Vec<u8>) -> (r: (Vec<u8>, usize))
    requires
        forall|i: int| is_marker_at(buf@, i) ==> i + WINDOW_LEN <= buf@.len(),
    ensures
        r.0@.len() == buf@.len(),
        r.1 == marker_offsets(buf@).len(),
        forall|i: int| 0 <= i < buf@.len() && !near_marker(buf@, i)
            ==> r.0@[i] == buf@[i],
        forall|i: int| 0 <= i < buf@.len() && near_marker(buf@, i)
            ==> is_patch_letter(#[trigger] r.0@[i]),
        (forall|i: int| !is_marker_at(buf@, i)) ==> r.0@ == buf@,
{
    let offsets = scan(buf);
    proof {
        crate::scanner::lemma_marker_offsets(buf@);
        let view = offsets@.map_values(|o: usize| o as int);
        assert(view == marker_offsets(buf@));
        assert forall|j: int| 0 <= j < offsets@.len()
            implies #[trigger] offsets@[j] + WINDOW_LEN <= buf@.len() by {
            assert(view[j] == offsets@[j] as int);
            assert(is_marker_at(buf@, offsets@[j] as int));
        }
    }
    let out = patch(buf, &offsets);
    proof {
        let view = offsets@.map_values(|o: usize| o as int);
        assert forall|i: int| in_patch_window(offsets@, i) implies near_marker(buf@, i) by {
            let j = choose|j: int|
                0 <= j < offsets@.len() && #[trigger] offsets@[j] <= i < offsets@[j] + WINDOW_LEN;
            assert(view[j] == offsets@[j] as int);
            assert(is_marker_at(buf@, offsets@[j] as int));
        }
        assert forall|i: int| near_marker(buf@, i) implies in_patch_window(offsets@, i) by {
            let m = choose|m: int| is_marker_at(buf@, m) && m <= i < m + WINDOW_LEN;
            assert(view.contains(m));
            let j = choose|j: int| 0 <= j < view.len() && #[trigger] view[j] == m;
            assert(offsets@[j] == m);
        }
        if forall|i: int| !is_marker_at(buf@, i) {
            crate::scanner::lemma_no_marker_empty_scan(buf@);
            assert forall|i: int| 0 <= i < buf@.len() implies out@[i] == buf@[i] by {
                assert(!near_marker(buf@, i));
            }
            assert(out@ =~= buf@);
        }
    }
    (out, offsets.len())
}

} // verus!
