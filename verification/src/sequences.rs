//! Bounded integer sequences: countdown, counting up, and even numbers.

use vstd::prelude::*;

verus! {

/// Counts down from `start` to 1; the result never contains 0.
pub fn countdown(start: u32) -> (res: Vec<u32>)
    ensures
        res@.len() == start as int,
        forall|i: int| 0 <= i < start ==> res@[i] == start - i,
        forall|i: int| 0 <= i < res@.len() ==> res@[i] != 0,
{
    let mut res: Vec<u32> = Vec::new();
    let mut number: u32 = start;
    while number != 0
        invariant
            number <= start,
            res@.len() == start - number,
            forall|i: int| 0 <= i < res@.len() ==> res@[i] == start - i,
        decreases number,
    {
        res.push(number);
        number = number - 1;
    }
    res
}

/// Counts up through the half-open range `lo..hi`, in increasing order.
pub fn count_up(lo: u32, hi: u32) -> (res: Vec<u32>)
    ensures
        res@.len() == (if lo <= hi {
            hi - lo
        } else {
            0
        }),
        forall|i: int| 0 <= i < res@.len() ==> res@[i] == lo + i,
{
    let mut res: Vec<u32> = Vec::new();
    let mut number: u32 = lo;
    while number < hi
        invariant
            lo <= number,
            number <= hi || (number == lo && hi < lo),
            res@.len() == number - lo,
            forall|i: int| 0 <= i < res@.len() ==> res@[i] == lo + i,
        decreases hi - number,
    {
        res.push(number);
        number = number + 1;
    }
    res
}

/// The even integers of the half-open range `lo..hi`, in increasing order.
pub open spec fn evens_between(lo: int, hi: int) -> Seq<u32>
    recommends
        0 <= lo,
        hi <= u32::MAX + 1,
    decreases hi - lo,
{
    if hi <= lo {
        Seq::<u32>::empty()
    } else {
        let rest = evens_between(lo, hi - 1);
        if (hi - 1) % 2 == 0 {
            rest.push((hi - 1) as u32)
        } else {
            rest
        }
    }
}

/// The even integers of the half-open range `lo..hi`, produced in
/// increasing order by filtering the range for parity. The result is a
/// function of the bounds alone, so a fresh invocation restarts the
/// sequence from the beginning.
pub fn even_numbers(lo: u32, hi: u32) -> (res: Vec<u32>)
    ensures
        res@ == evens_between(lo as int, hi as int),
{
    let mut res: Vec<u32> = Vec::new();
    let mut number: u32 = lo;
    while number < hi
        invariant
            lo <= number,
            number <= hi || (number == lo && hi < lo),
            res@ == evens_between(lo as int, number as int),
        decreases hi - number,
    {
        if number % 2 == 0 {
            res.push(number);
        }
        number = number + 1;
    }
    res
}

/// The fixed parity label of `n`: `"even"` when 2 divides `n`, else `"odd"`.
pub fn parity_label(n: u32) -> (res: &'static str)
    ensures
        n % 2 == 0 ==> res@ == "even"@,
        n % 2 != 0 ==> res@ == "odd"@,
{
    if n % 2 == 0 {
        "even"
    } else {
        "odd"
    }
}

} // verus!
