//! Thermal sensor selection: pick the sensor whose label marks it as
//! CPU-representative.
//!
//! The candidate substrings cover the AMD die sensor (`k10temp`), the Intel
//! core sensor (`coretemp`), a generic `cpu` label, and the AMD package
//! control temperature (`tctl`).  Matching is case-insensitive over ASCII;
//! the first matching sensor in enumeration order wins, and no match means
//! the temperature is unavailable.

use vstd::prelude::*;

verus! {

/// Whether label character `a` matches pattern character `p`, where the
/// patterns are lower-case ASCII: equal outright, or `a` is the upper-case
/// ASCII form of `p`.
pub open spec fn char_matches_ci(a: char, p: char) -> bool {
    a == p || ('A' <= a && a <= 'Z' && a as int + 32 == p as int)
}

/// Whether `pat` occurs in `label` starting at position `i`, matching
/// case-insensitively over ASCII.
pub open spec fn matches_at_ci(label: Seq<char>, pat: Seq<char>, i: int) -> bool {
    &&& 0 <= i
    &&& i + pat.len() <= label.len()
    &&& forall|j: int| 0 <= j < pat.len() ==> char_matches_ci(label[i + j], pat[j])
}

/// Whether `pat` occurs anywhere in `label`, matching case-insensitively
/// over ASCII.
pub open spec fn contains_ci(label: Seq<char>, pat: Seq<char>) -> bool {
    exists|i: int| matches_at_ci(label, pat, i)
}

/// Whether a sensor label marks a CPU-representative sensor: it contains
/// one of the candidate substrings, case-insensitively.
pub open spec fn is_cpu_sensor_label(label: Seq<char>) -> bool {
    ||| contains_ci(label, "k10temp"@)
    ||| contains_ci(label, "coretemp"@)
    ||| contains_ci(label, "cpu"@)
    ||| contains_ci(label, "tctl"@)
}

/// The selected sensor among the labels, in enumeration order: the index of
/// the first CPU-representative label, if any.
pub open spec fn selected_sensor(labels: Seq<Seq<char>>) -> Option<int>
    decreases labels.len(),
{
    if labels.len() == 0 {
        None
    } else if is_cpu_sensor_label(labels[0]) {
        Some(0)
    } else {
        match selected_sensor(labels.drop_first()) {
            Some(i) => Some(i + 1),
            None => None,
        }
    }
}

/// Whether label character `a` matches lower-case pattern character `p`,
/// executably.
fn char_match_ci(a: char, p: char) -> (r: bool)
    ensures
        r == char_matches_ci(a, p),
{
    a == p || ('A' <= a && a <= 'Z' && a as u32 + 32 == p as u32)
}

/// Whether `pat` occurs in `label`, matching case-insensitively over ASCII,
/// executably.
pub fn label_contains_ci(label: &str, pat: &str) -> (r: bool)
    ensures
        r == contains_ci(label@, pat@),
{
    let n = label.unicode_len();
    let m = pat.unicode_len();
    if m > n {
        proof {
            assert(forall|i: int| !matches_at_ci(label@, pat@, i));
        }
        return false;
    }
    let mut i: usize = 0;
    while i <= n - m
        invariant
            m <= n == label@.len(),
            m == pat@.len(),
            i <= n - m + 1,
            forall|k: int| 0 <= k < i ==> !matches_at_ci(label@, pat@, k),
        decreases n - m + 1 - i,
    {
        let mut j: usize = 0;
        let mut all: bool = true;
        while j < m
            invariant
                m <= n == label@.len(),
                m == pat@.len(),
                i + m <= n,
                j <= m,
                all <==> forall|q: int| 0 <= q < j ==> char_matches_ci(
                    label@[i + q],
                    pat@[q],
                ),
            decreases m - j,
        {
            if !char_match_ci(label.get_char(i + j), pat.get_char(j)) {
                all = false;
                proof {
                    assert(!char_matches_ci(label@[i + j], pat@[j as int]));
                }
                j = m;
            } else {
                j += 1;
            }
        }
        if all {
            proof {
                assert(matches_at_ci(label@, pat@, i as int));
            }
            return true;
        }
        i += 1;
    }
    proof {
        assert forall|k: int| !matches_at_ci(label@, pat@, k) by {
            if 0 <= k <= n - m {
                assert(!matches_at_ci(label@, pat@, k));
            }
        }
    }
    false
}

/// Whether a sensor label marks a CPU-representative sensor, executably.
pub fn is_cpu_sensor(label: &String) -> (r: bool)
    ensures
        r == is_cpu_sensor_label(label@),
{
    label_contains_ci(label.as_str(), "k10temp") || label_contains_ci(label.as_str(), "coretemp")
        || label_contains_ci(label.as_str(), "cpu") || label_contains_ci(label.as_str(), "tctl")
}

/// Select the CPU-representative sensor among the enumerated labels: the
/// first label containing one of the candidate substrings wins, and no
/// match yields `None` ("temperature unavailable").
pub fn select_cpu_sensor(labels: &Vec<String>) -> (r: Option<usize>)
    ensures
        match r {
            Some(i) => {
                &&& i < labels@.len()
                &&& is_cpu_sensor_label(labels@[i as int]@)
                &&& forall|j: int| 0 <= j < i ==> !is_cpu_sensor_label(labels@[j]@)
                &&& selected_sensor(labels@.map_values(|s: String| s@)) == Some(i as int)
            },
            None => {
                &&& forall|j: int| 0 <= j < labels@.len() ==> !is_cpu_sensor_label(labels@[j]@)
                &&& selected_sensor(labels@.map_values(|s: String| s@)) is None
            },
        },
{
    let mut i: usize = 0;
    while i < labels.len()
        invariant
            i <= labels@.len(),
            forall|j: int| 0 <= j < i ==> !is_cpu_sensor_label(labels@[j]@),
        decreases labels@.len() - i,
    {
        if is_cpu_sensor(&labels[i]) {
            proof {
                lemma_selected_by_characterization(labels@.map_values(|s: String| s@), i as int);
            }
            return Some(i);
        }
        i += 1;
    }
    proof {
        lemma_selected_none(labels@.map_values(|s: String| s@));
    }
    None
}

/// The recursive selection agrees with the first-match characterization:
/// if `i` is a matching index with no match before it, it is the one
/// selected.
proof fn lemma_selected_by_characterization(labels: Seq<Seq<char>>, i: int)
    requires
        0 <= i < labels.len(),
        is_cpu_sensor_label(labels[i]),
        forall|j: int| 0 <= j < i ==> !is_cpu_sensor_label(labels[j]),
    ensures
        selected_sensor(labels) == Some(i),
    decreases labels.len(),
{
    if i == 0 {
    } else {
        lemma_selected_by_characterization(labels.drop_first(), i - 1);
    }
}

/// When no label matches, nothing is selected.
proof fn lemma_selected_none(labels: Seq<Seq<char>>)
    requires
        forall|j: int| 0 <= j < labels.len() ==> !is_cpu_sensor_label(labels[j]),
    ensures
        selected_sensor(labels) is None,
    decreases labels.len(),
{
    if labels.len() > 0 {
        lemma_selected_none(labels.drop_first());
    }
}

/// A selected index is in bounds and names a matching label.
pub proof fn lemma_selected_in_bounds(labels: Seq<Seq<char>>)
    ensures
        selected_sensor(labels) matches Some(i) ==> 0 <= i < labels.len()
            && is_cpu_sensor_label(labels[i]),
    decreases labels.len(),
{
    if labels.len() > 0 {
        lemma_selected_in_bounds(labels.drop_first());
    }
}

/// Enumeration order among non-matching sensors does not disturb the
/// selection: placing any run of non-matching labels in front shifts the
/// selected index by the run's length and leaves the selected label itself
/// unchanged.
pub proof fn lemma_selection_skips_nonmatching(prefix: Seq<Seq<char>>, rest: Seq<Seq<char>>)
    requires
        forall|j: int| 0 <= j < prefix.len() ==> !is_cpu_sensor_label(prefix[j]),
    ensures
        selected_sensor(prefix + rest) == match selected_sensor(rest) {
            Some(i) => Some(i + prefix.len()),
            None => None,
        },
        selected_sensor(rest) matches Some(i) ==> (prefix + rest)[i + prefix.len()] == rest[i],
    decreases prefix.len(),
{
    lemma_selected_in_bounds(rest);
    if prefix.len() == 0 {
        assert(prefix + rest =~= rest);
    } else {
        lemma_selection_skips_nonmatching(prefix.drop_first(), rest);
        assert((prefix + rest).drop_first() =~= prefix.drop_first() + rest);
        assert(!is_cpu_sensor_label((prefix + rest)[0]));
    }
}

} // verus!
