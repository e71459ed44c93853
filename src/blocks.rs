use vstd::prelude::*;

verus! {

/// The size of the diagonal block that starts at row `i` of an `n`-row
/// quasi-upper-triangular matrix whose sub-diagonal entry below row `j` is
/// negligible exactly when `sub_negligible[j]`: one row when `i` is the last
/// row or the entry below it is negligible, two rows otherwise.
pub open spec fn block_size(sub_negligible: Seq<bool>, n: int, i: int) -> int {
    if i == n - 1 || sub_negligible[i] {
        1
    } else {
        2
    }
}

/// `blocks` lists (first row, size) of diagonal blocks that tile the rows
/// `0..n` in order, each of the size that `block_size` gives.
pub open spec fn tiles_rows(sub_negligible: Seq<bool>, n: int, blocks: Seq<(usize, usize)>) -> bool {
    &&& blocks.len() > 0
    &&& blocks[0].0 == 0
    &&& forall|k: int|
        0 < k < blocks.len() ==> #[trigger] blocks[k].0 == blocks[k - 1].0 + blocks[k - 1].1
    &&& blocks.last().0 + blocks.last().1 == n
    &&& forall|k: int|
        0 <= k < blocks.len() ==> #[trigger] blocks[k].1 == block_size(
            sub_negligible,
            n,
            blocks[k].0 as int,
        )
}

/// Splits the diagonal of an `n`-row quasi-upper-triangular matrix into the
/// 1x1 blocks of real eigenvalues and the 2x2 blocks of complex pairs, scanning
/// from the top; `sub_negligible[j]` says whether the entry below row `j` on
/// the sub-diagonal is negligible.
pub fn diagonal_blocks(n: usize, sub_negligible: &Vec<bool>) -> (r: Vec<(usize, usize)>)
    requires
        sub_negligible@.len() + 1 == n,
    ensures
        tiles_rows(sub_negligible@, n as int, r@),
{
    let mut blocks: Vec<(usize, usize)> = Vec::new();
    let mut i: usize = 0;
    while i < n
        invariant
            sub_negligible@.len() + 1 == n,
            i <= n,
            blocks@.len() == 0 <==> i == 0,
            blocks@.len() > 0 ==> blocks@[0].0 == 0,
            blocks@.len() > 0 ==> blocks@.last().0 + blocks@.last().1 == i,
            forall|k: int|
                0 < k < blocks@.len() ==> #[trigger] blocks@[k].0 == blocks@[k - 1].0 + blocks@[k
                    - 1].1,
            forall|k: int|
                0 <= k < blocks@.len() ==> #[trigger] blocks@[k].1 == block_size(
                    sub_negligible@,
                    n as int,
                    blocks@[k].0 as int,
                ),
        decreases n - i,
    {
        let size: usize = if i == n - 1 || sub_negligible[i] {
            1
        } else {
            2
        };
        blocks.push((i, size));
        i = i + size;
    }
    blocks
}

} // verus!
