//! Triangle index data and its narrowing to the 16-bit index format.
use vstd::prelude::*;

verus! {

/// Triangle indices as a mesh stores them: 16-bit or 32-bit.
#[derive(Clone, Debug, PartialEq, Eq)]
pub enum Indices {
    U16(Vec<u16>),
    U32(Vec<u32>),
}

/// The index values, whatever their stored width.
pub open spec fn index_values(ix: &Indices) -> Seq<int> {
    match ix {
        Indices::U16(v) => Seq::new(v@.len(), |k: int| v@[k] as int),
        Indices::U32(v) => Seq::new(v@.len(), |k: int| v@[k] as int),
    }
}

/// An index value as the 16-bit format holds it: the value modulo 65536.
/// A value of 65536 or more does not survive this: it is truncated.
pub open spec fn narrowed(v: int) -> int {
    v % 65536
}

/// The index data that the 16-bit index buffer receives for `ix`.
pub open spec fn narrowed_values(ix: &Indices) -> Seq<u16> {
    Seq::new(index_values(ix).len(), |k: int| narrowed(index_values(ix)[k]) as u16)
}

impl Indices {
    /// The number of indices.
    pub fn len(&self) -> (r: usize)
        ensures
            r == index_values(self).len(),
    {
        match self {
            Indices::U16(v) => v.len(),
            Indices::U32(v) => v.len(),
        }
    }
}

/// Narrows one 32-bit index to 16 bits, keeping the value modulo 65536.
pub fn narrow_index(v: u32) -> (r: u16)
    ensures
        r as int == narrowed(v as int),
        v < 65536 ==> r as int == v as int,
{
    (v % 65536) as u16
}

/// The indices in the 16-bit format: 16-bit data is kept as it is, 32-bit data
/// is narrowed value by value.
pub fn to_u16_indices(ix: &Indices) -> (r: Vec<u16>)
    ensures
        r@ == narrowed_values(ix),
{
    match ix {
        Indices::U16(v) => {
            let mut r: Vec<u16> = Vec::new();
            let mut i: usize = 0;
            while i < v.len()
                invariant
                    i <= v@.len(),
                    r@.len() == i,
                    forall|k: int| 0 <= k < i ==> r@[k] == v@[k],
                decreases v@.len() - i,
            {
                r.push(v[i]);
                i += 1;
            }
            assert(r@ =~= narrowed_values(ix));
            r
        },
        Indices::U32(v) => {
            let mut r: Vec<u16> = Vec::new();
            let mut i: usize = 0;
            while i < v.len()
                invariant
                    i <= v@.len(),
                    r@.len() == i,
                    forall|k: int| 0 <= k < i ==> r@[k] as int == narrowed(v@[k] as int),
                decreases v@.len() - i,
            {
                r.push(narrow_index(v[i]));
                i += 1;
            }
            assert(r@ =~= narrowed_values(ix));
            r
        },
    }
}

/// Narrowing keeps every index below 65536 and changes every other one: an
/// index of 65536 or more comes out as its value modulo 65536, which differs
/// from the value itself.
pub proof fn narrowing_truncates_large_indices(ix: &Indices, k: int)
    requires
        0 <= k < index_values(ix).len(),
    ensures
        narrowed_values(ix)[k] as int == index_values(ix)[k] % 65536,
        index_values(ix)[k] < 65536 ==> narrowed_values(ix)[k] as int == index_values(ix)[k],
        index_values(ix)[k] >= 65536 ==> narrowed_values(ix)[k] as int != index_values(ix)[k],
{
}

} // verus!
