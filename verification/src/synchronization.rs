use vstd::prelude::*;

verus! {

/// Spins for `count` iterations: the delay primitive board bring-up uses to
/// give control signals their required setup and hold time.
pub fn sleep(count: i32) {
    let mut cnt: i32 = count;
    while cnt > 0
        decreases cnt,
    {
        cnt -= 1;
    }
}

} // verus!
