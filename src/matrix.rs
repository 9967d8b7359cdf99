use vstd::prelude::*;

verus! {

/// The row without its entry at column `col`.
pub open spec fn without_column<T>(row: Seq<T>, col: int) -> Seq<T> {
    row.remove(col)
}

/// The minor used in a cofactor expansion along the first row: the matrix
/// without its first row and without column `col`.
pub fn minor<T: Copy>(mat: &Vec<Vec<T>>, col: usize) -> (r: Vec<Vec<T>>)
    requires
        mat@.len() >= 1,
        forall|i: int| 0 <= i < mat@.len() ==> col < (#[trigger] mat@[i])@.len(),
    ensures
        r@.len() == mat@.len() - 1,
        forall|i: int|
            0 <= i < r@.len() ==> (#[trigger] r@[i])@ == without_column(mat@[i + 1]@, col as int),
{
    let mut r: Vec<Vec<T>> = Vec::new();
    let mut i: usize = 1;
    while i < mat.len()
        invariant
            1 <= i <= mat@.len(),
            forall|k: int| 0 <= k < mat@.len() ==> col < (#[trigger] mat@[k])@.len(),
            r@.len() == i - 1,
            forall|k: int|
                0 <= k < r@.len() ==> (#[trigger] r@[k])@ == without_column(mat@[k + 1]@, col as int),
        decreases mat@.len() - i,
    {
        let src = &mat[i];
        let mut row: Vec<T> = Vec::new();
        let mut j: usize = 0;
        while j < src.len()
            invariant
                0 <= j <= src@.len(),
                col < src@.len(),
                row@ == (if j <= col { src@.take(j as int) } else { src@.take(j as int).remove(
                    col as int,
                ) }),
            decreases src@.len() - j,
        {
            if j != col {
                row.push(src[j]);
            }
            proof {
                if j < col {
                    assert(src@.take(j + 1) =~= src@.take(j as int).push(src@[j as int]));
                } else if j == col {
                    assert(src@.take(j + 1).remove(col as int) =~= src@.take(j as int));
                } else {
                    assert(src@.take(j + 1).remove(col as int) =~= src@.take(j as int).remove(
                        col as int,
                    ).push(src@[j as int]));
                }
            }
            j = j + 1;
        }
        proof {
            assert(src@.take(src@.len() as int) =~= src@);
        }
        r.push(row);
        i = i + 1;
    }
    r
}

} // verus!
