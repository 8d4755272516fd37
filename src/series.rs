use vstd::prelude::*;

verus! {

/// A column of integers.
#[derive(Debug, Clone)]
pub struct Series {
    pub values: Vec<i64>,
}

/// Whether `s` is ordered: non-decreasing, or non-increasing when `descending`.
pub open spec fn is_sorted(s: Seq<i64>, descending: bool) -> bool {
    forall|i: int, j: int|
        0 <= i < j < s.len() ==> if descending {
            s[i] >= s[j]
        } else {
            s[i] <= s[j]
        }
}

/// Whether `v` comes strictly before `key` in the order.
pub open spec fn precedes(v: i64, key: i64, descending: bool) -> bool {
    if descending {
        v > key
    } else {
        v < key
    }
}

/// `p` is where `key` goes in `s`: everything before it precedes the key and
/// nothing from it on does.
pub open spec fn is_insertion_point(s: Seq<i64>, key: i64, descending: bool, p: int) -> bool {
    &&& 0 <= p <= s.len()
    &&& forall|j: int| 0 <= j < p ==> precedes(#[trigger] s[j], key, descending)
    &&& forall|j: int| p <= j < s.len() ==> !precedes(#[trigger] s[j], key, descending)
}

fn precedes_exec(v: i64, key: i64, descending: bool) -> (r: bool)
    ensures
        r == precedes(v, key, descending),
{
    if descending {
        v > key
    } else {
        v < key
    }
}

fn insertion_point(values: &Vec<i64>, key: i64, descending: bool) -> (r: usize)
    requires
        is_sorted(values@, descending),
    ensures
        is_insertion_point(values@, key, descending, r as int),
{
    let mut lo: usize = 0;
    let mut hi: usize = values.len();
    while lo < hi
        invariant
            0 <= lo <= hi <= values@.len(),
            is_sorted(values@, descending),
            forall|j: int| 0 <= j < lo ==> precedes(#[trigger] values@[j], key, descending),
            forall|j: int| hi <= j < values@.len() ==> !precedes(#[trigger] values@[j], key, descending),
        decreases hi - lo,
    {
        let mid = lo + (hi - lo) / 2;
        if precedes_exec(values[mid], key, descending) {
            assert forall|j: int| 0 <= j <= mid implies precedes(#[trigger] values@[j], key, descending) by {
                if j < mid {
                    assert(if descending { values@[j] >= values@[mid as int] } else { values@[j] <= values@[mid as int] });
                }
            }
            lo = mid + 1;
        } else {
            assert forall|j: int| mid <= j < values@.len() implies !precedes(#[trigger] values@[j], key, descending) by {
                if j > mid {
                    assert(if descending { values@[mid as int] >= values@[j] } else { values@[mid as int] <= values@[j] });
                }
            }
            hi = mid;
        }
    }
    lo
}

impl Series {
    /// For each key, the position at which it would be inserted into this
    /// sorted series to keep it sorted, before any equal values.
    pub fn search_sorted(&self, keys: &Series, descending: bool) -> (r: Vec<u64>)
        requires
            is_sorted(self.values@, descending),
        ensures
            r@.len() == keys.values@.len(),
            forall|i: int|
                0 <= i < r@.len() ==> is_insertion_point(
                    self.values@,
                    keys.values@[i],
                    descending,
                    #[trigger] r@[i] as int,
                ),
    {
        let mut out: Vec<u64> = Vec::new();
        let mut i: usize = 0;
        while i < keys.values.len()
            invariant
                i <= keys.values@.len(),
                out@.len() == i,
                is_sorted(self.values@, descending),
                forall|k: int|
                    0 <= k < i ==> is_insertion_point(
                        self.values@,
                        keys.values@[k],
                        descending,
                        #[trigger] out@[k] as int,
                    ),
            decreases keys.values@.len() - i,
        {
            let p = insertion_point(&self.values, keys.values[i], descending);
            out.push(p as u64);
            i = i + 1;
        }
        out
    }
}

} // verus!
