//! The functions exported by the example library.
use vstd::prelude::*;
use crate::error::{CamlError, Error};

verus! {

/// The reply to `ml_send_int` (which also prints what it received).
pub fn ml_send_int(x: isize) -> (r: isize)
    ensures
        r == 0xbeef,
{
    0xbeef
}

pub fn ml_send_int64(x: i64) -> (r: i64)
    requires
        x <= i64::MAX - 10,
    ensures
        r == x + 10,
{
    x + 10
}

pub fn ml_new_tuple(i: isize) -> (r: (isize, isize, isize))
    requires
        isize::MIN <= 3 * i <= isize::MAX,
    ensures
        r == (i, (2 * i) as isize, (3 * i) as isize),
{
    (i, i * 2, i * 3)
}

pub fn ml_new_array(i: isize) -> (r: Vec<isize>)
    requires
        isize::MIN <= 4 * i <= isize::MAX,
    ensures
        r@.len() == 5,
        forall|k: int| 0 <= k < 5 ==> r@[k] == k * i,
{
    let mut v: Vec<isize> = Vec::new();
    let mut x: isize = 0;
    while x < 5
        invariant
            0 <= x <= 5,
            isize::MIN <= 4 * i <= isize::MAX,
            v@.len() == x,
            forall|k: int| 0 <= k < x ==> v@[k] == k * i,
        decreases 5 - x,
    {
        proof {
            assert(isize::MIN <= x * i <= isize::MAX) by (nonlinear_arith)
                requires
                    isize::MIN <= 4 * i <= isize::MAX,
                    0 <= x < 5,
            ;
        }
        v.push(x * i);
        x += 1;
    }
    v
}

/// The list `[0; i; 2 i; 3 i; 4 i]`, front first.
pub fn ml_new_list(i: isize) -> (r: Vec<isize>)
    requires
        isize::MIN <= 4 * i <= isize::MAX,
    ensures
        r@ == seq![0, i, (2 * i) as isize, (3 * i) as isize, (4 * i) as isize],
{
    let mut l: Vec<isize> = Vec::new();
    l.push(0 * i);
    l.push(1 * i);
    l.push(2 * i);
    l.push(3 * i);
    l.push(4 * i);
    assert(l@ =~= seq![0, i, (2 * i) as isize, (3 * i) as isize, (4 * i) as isize]);
    l
}

pub fn ml_raise_not_found() -> (r: Result<(), Error>)
    ensures
        r == Err::<(), Error>(Error::Caml(CamlError::NotFound)),
{
    Error::not_found()
}

} // verus!
