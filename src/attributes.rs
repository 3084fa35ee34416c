//! Vertex attribute data laid out as the tightly packed arrays that the
//! position and texture-coordinate buffers receive.
use vstd::prelude::*;

verus! {

/// Three components per vertex, in vertex order.
pub open spec fn flat3<T>(vs: Seq<[T; 3]>) -> Seq<T> {
    Seq::new((3 * vs.len()) as nat, |k: int| vs[k / 3][k % 3])
}

/// Two components per vertex, in vertex order.
pub open spec fn flat2<T>(vs: Seq<[T; 2]>) -> Seq<T> {
    Seq::new((2 * vs.len()) as nat, |k: int| vs[k / 2][k % 2])
}

proof fn lemma_div_mod(k: int, n: int, i: int, j: int)
    requires
        n > 0,
        0 <= j < n,
        k == n * i + j,
    ensures
        k / n == i,
        k % n == j,
{
    assert(k / n == i && k % n == j) by (nonlinear_arith)
        requires
            n > 0,
            0 <= j < n,
            k == n * i + j,
    ;
}

/// The vertices' components packed one after another, three per vertex.
pub fn flatten3<T: Copy>(vs: &Vec<[T; 3]>) -> (r: Vec<T>)
    requires
        3 * vs@.len() <= usize::MAX,
    ensures
        r@ == flat3(vs@),
{
    let mut r: Vec<T> = Vec::new();
    let mut i: usize = 0;
    while i < vs.len()
        invariant
            i <= vs@.len(),
            3 * vs@.len() <= usize::MAX,
            r@.len() == 3 * i,
            forall|k: int| 0 <= k < 3 * i ==> r@[k] == vs@[k / 3][k % 3],
        decreases vs@.len() - i,
    {
        let v = vs[i];
        r.push(v[0]);
        r.push(v[1]);
        r.push(v[2]);
        proof {
            assert forall|k: int| 0 <= k < 3 * (i + 1) implies r@[k] == vs@[k / 3][k % 3] by {
                if k >= 3 * i {
                    lemma_div_mod(k, 3, i as int, k - 3 * i);
                }
            }
        }
        i += 1;
    }
    assert(r@ =~= flat3(vs@));
    r
}

/// The vertices' components packed one after another, two per vertex.
pub fn flatten2<T: Copy>(vs: &Vec<[T; 2]>) -> (r: Vec<T>)
    requires
        2 * vs@.len() <= usize::MAX,
    ensures
        r@ == flat2(vs@),
{
    let mut r: Vec<T> = Vec::new();
    let mut i: usize = 0;
    while i < vs.len()
        invariant
            i <= vs@.len(),
            2 * vs@.len() <= usize::MAX,
            r@.len() == 2 * i,
            forall|k: int| 0 <= k < 2 * i ==> r@[k] == vs@[k / 2][k % 2],
        decreases vs@.len() - i,
    {
        let v = vs[i];
        r.push(v[0]);
        r.push(v[1]);
        proof {
            assert forall|k: int| 0 <= k < 2 * (i + 1) implies r@[k] == vs@[k / 2][k % 2] by {
                if k >= 2 * i {
                    lemma_div_mod(k, 2, i as int, k - 2 * i);
                }
            }
        }
        i += 1;
    }
    assert(r@ =~= flat2(vs@));
    r
}

} // verus!
