//! Sector membership as an incidence table, the structure behind a
//! sector-exposure constraint.
use vstd::prelude::*;

verus! {

/// Row `s` marks the assets whose sector is `s`: entry `[s][i]` holds exactly
/// when asset `i` belongs to sector `s`. Assets whose sector index is not
/// below `n_sectors` are in no row.
pub fn sector_incidence(membership: &Vec<usize>, n_sectors: usize) -> (r: Vec<Vec<bool>>)
    ensures
        r@.len() == n_sectors,
        forall|s: int| 0 <= s < n_sectors ==> (#[trigger] r@[s])@.len() == membership@.len(),
        forall|s: int, i: int|
            0 <= s < n_sectors && 0 <= i < membership@.len() ==> (#[trigger] r@[s]@[i]) == (
            membership@[i] == s),
{
    let n = membership.len();
    let mut rows: Vec<Vec<bool>> = Vec::new();
    let mut s: usize = 0;
    while s < n_sectors
        invariant
            0 <= s <= n_sectors,
            n == membership@.len(),
            rows@.len() == s,
            forall|t: int| 0 <= t < s ==> (#[trigger] rows@[t])@.len() == n,
            forall|t: int, i: int|
                0 <= t < s && 0 <= i < n ==> (#[trigger] rows@[t]@[i]) == (membership@[i] == t),
        decreases n_sectors - s,
    {
        let mut row: Vec<bool> = Vec::new();
        let mut i: usize = 0;
        while i < n
            invariant
                0 <= i <= n,
                n == membership@.len(),
                row@.len() == i,
                forall|j: int| 0 <= j < i ==> row@[j] == (membership@[j] == s),
            decreases n - i,
        {
            row.push(membership[i] == s);
            i = i + 1;
        }
        rows.push(row);
        s = s + 1;
    }
    rows
}

} // verus!
