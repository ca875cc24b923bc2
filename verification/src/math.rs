use vstd::prelude::*;

verus! {

/// The larger of two `u16` values.
pub fn compile_time_max_u16(a: u16, b: u16) -> (m: u16)
    ensures
        m == if b < a { a } else { b },
{
    if b < a {
        a
    } else {
        b
    }
}

} // verus!
