use vstd::prelude::*;

verus! {

/// `(s, e)` is a maximal run of stable points: every point from `s` to `e`
/// is stable and neither neighbour outside that range is.
pub open spec fn is_stable_run(stable: Seq<bool>, s: int, e: int) -> bool {
    &&& 0 <= s <= e < stable.len()
    &&& forall|k: int| s <= k <= e ==> #[trigger] stable[k]
    &&& s == 0 || !stable[s - 1]
    &&& e == stable.len() - 1 || !stable[e + 1]
}

/// The point `i` lies in one of the listed runs.
pub open spec fn covered(runs: Seq<(usize, usize)>, i: int) -> bool {
    exists|k: int| 0 <= k < runs.len() && #[trigger] runs[k].0 <= i && i <= runs[k].1
}

/// `runs` lists exactly the maximal runs of stable points, in order.
pub open spec fn lists_stable_runs(stable: Seq<bool>, runs: Seq<(usize, usize)>) -> bool {
    &&& forall|k: int| 0 <= k < runs.len() ==> is_stable_run(stable, #[trigger] runs[k].0 as int, runs[k].1 as int)
    &&& forall|k: int| 0 < k < runs.len() ==> runs[k - 1].1 + 1 < #[trigger] runs[k].0
    &&& forall|i: int| 0 <= i < stable.len() && #[trigger] stable[i] ==> covered(runs, i)
}

/// The stretches of a branch on which every point is stable, given the
/// stability flag of each point in branch order: the first and last index of
/// each maximal run of stable points, in order.
pub fn stable_segments(stable: &Vec<bool>) -> (r: Vec<(usize, usize)>)
    ensures
        lists_stable_runs(stable@, r@),
{
    let n = stable.len();
    let mut runs: Vec<(usize, usize)> = Vec::new();
    let mut start: Option<usize> = None;
    let mut i: usize = 0;
    while i < n
        invariant
            n == stable@.len(),
            i <= n,
            forall|k: int| 0 <= k < runs@.len() ==> is_stable_run(stable@, #[trigger] runs@[k].0 as int, runs@[k].1 as int),
            forall|k: int| 0 < k < runs@.len() ==> runs@[k - 1].1 + 1 < #[trigger] runs@[k].0,
            match start {
                None => {
                    &&& i == 0 || !stable@[i - 1]
                    &&& forall|k: int| 0 <= k < runs@.len() ==> #[trigger] runs@[k].1 + 1 < i
                    &&& forall|j: int| 0 <= j < i && #[trigger] stable@[j] ==> covered(runs@, j)
                },
                Some(s) => {
                    &&& s < i
                    &&& s == 0 || !stable@[s - 1]
                    &&& forall|k: int| s <= k < i ==> #[trigger] stable@[k]
                    &&& forall|k: int| 0 <= k < runs@.len() ==> #[trigger] runs@[k].1 + 1 < s
                    &&& forall|j: int| 0 <= j < s && #[trigger] stable@[j] ==> covered(runs@, j)
                },
            },
        decreases n - i,
    {
        if stable[i] {
            if start.is_none() {
                start = Some(i);
            }
        } else {
            match start {
                Some(s) => {
                    let ghost old_runs = runs@;
                    runs.push((s, i - 1));
                    assert forall|j: int| 0 <= j < i + 1 && #[trigger] stable@[j] implies covered(
                        runs@,
                        j,
                    ) by {
                        if j < s {
                            let k = choose|k: int|
                                0 <= k < old_runs.len() && #[trigger] old_runs[k].0 <= j && j
                                    <= old_runs[k].1;
                            assert(runs@[k] == old_runs[k]);
                            assert(runs@[k].0 <= j && j <= runs@[k].1);
                        } else {
                            let k = old_runs.len() as int;
                            assert(runs@[k] == (s, (i - 1) as usize));
                            assert(j != i);
                            assert(runs@[k].0 <= j && j <= runs@[k].1);
                        }
                    }
                    start = None;
                },
                None => {},
            }
        }
        i += 1;
    }
    match start {
        Some(s) => {
            let ghost old_runs = runs@;
            runs.push((s, n - 1));
            assert forall|j: int| 0 <= j < n && #[trigger] stable@[j] implies covered(runs@, j) by {
                if j < s {
                    let k = choose|k: int|
                        0 <= k < old_runs.len() && #[trigger] old_runs[k].0 <= j && j
                            <= old_runs[k].1;
                    assert(runs@[k] == old_runs[k]);
                    assert(runs@[k].0 <= j && j <= runs@[k].1);
                } else {
                    let k = old_runs.len() as int;
                    assert(runs@[k] == (s, (n - 1) as usize));
                    assert(runs@[k].0 <= j && j <= runs@[k].1);
                }
            }
        },
        None => {},
    }
    runs
}

} // verus!
