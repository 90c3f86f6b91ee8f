use vstd::prelude::*;

verus! {

/// The marker occurs in `text` starting at position `i`.
pub open spec fn matches_at(text: Seq<char>, marker: Seq<char>, i: int) -> bool {
    0 <= i && i + marker.len() <= text.len() && text.subrange(i, i + marker.len()) == marker
}

/// The marker occurs somewhere in `text`.
pub open spec fn contains_marker(text: Seq<char>, marker: Seq<char>) -> bool {
    exists|i: int| matches_at(text, marker, i)
}

/// Substring search: does `text` contain `marker`?
pub fn contains_substr(text: &str, marker: &str) -> (r: bool)
    ensures
        r == contains_marker(text@, marker@),
{
    let n = text.unicode_len();
    let m = marker.unicode_len();
    if m == 0 {
        proof {
            assert(text@.subrange(0, 0) =~= marker@);
            assert(matches_at(text@, marker@, 0));
        }
        return true;
    }
    if m > n {
        proof {
            assert(forall|i: int| !matches_at(text@, marker@, i));
        }
        return false;
    }
    let mut i: usize = 0;
    while i <= n - m
        invariant
            1 <= m <= n,
            n == text@.len(),
            m == marker@.len(),
            i <= n - m + 1,
            forall|k: int| 0 <= k < i ==> !matches_at(text@, marker@, k),
        decreases n - m + 1 - i,
    {
        let mut j: usize = 0;
        let mut mismatch = false;
        while j < m
            invariant
                i + m <= n,
                n == text@.len(),
                m == marker@.len(),
                j <= m,
                !mismatch ==> forall|t: int| 0 <= t < j ==> text@[i + t] == marker@[t],
                mismatch ==> !matches_at(text@, marker@, i as int),
            decreases m - j,
        {
            if text.get_char(i + j) != marker.get_char(j) {
                proof {
                    if matches_at(text@, marker@, i as int) {
                        assert(text@.subrange(i as int, i + m)[j as int] == text@[i + j]);
                    }
                }
                mismatch = true;
                j = m;
            } else {
                j = j + 1;
            }
        }
        if !mismatch {
            proof {
                assert(text@.subrange(i as int, i + m) =~= marker@);
                assert(matches_at(text@, marker@, i as int));
            }
            return true;
        }
        i = i + 1;
    }
    proof {
        assert(forall|k: int| matches_at(text@, marker@, k) ==> 0 <= k < i) by {
            assert(forall|k: int| matches_at(text@, marker@, k) ==> k + m <= n);
        }
    }
    false
}

} // verus!
