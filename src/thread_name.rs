//! Allocation-free decimal encoding of a thread id, used as the thread name
//! when the OS cannot supply one.
use vstd::prelude::*;

use crate::MAX_THREAD_NAME;

verus! {

/// The decimal digits of `n`, most significant first, as ASCII bytes
/// (`0` is written as the single digit `"0"`).
pub open spec fn decimal(n: nat) -> Seq<u8>
    decreases n,
{
    if n < 10 {
        seq![(48 + n) as u8]
    } else {
        decimal(n / 10).push((48 + n % 10) as u8)
    }
}

/// The fallback name of thread `id`: its last `MAX_THREAD_NAME - 1` decimal
/// digits (all of them when it has no more), so the buffer always keeps a
/// terminating zero byte.
pub open spec fn fallback_name(id: nat) -> Seq<u8> {
    let d = decimal(id);
    if d.len() <= MAX_THREAD_NAME - 1 {
        d
    } else {
        d.subrange(d.len() - (MAX_THREAD_NAME - 1), d.len() as int)
    }
}

proof fn lemma_decimal_len_pos(n: nat)
    ensures
        decimal(n).len() >= 1,
    decreases n,
{
    if n >= 10 {
        lemma_decimal_len_pos(n / 10);
    }
}

proof fn lemma_decimal_step(m: nat)
    ensures
        m < 10 ==> decimal(m) == seq![(48 + m) as u8],
        m >= 10 ==> decimal(m) == decimal(m / 10).push((48 + m % 10) as u8),
        decimal(m).len() >= 1,
{
    lemma_decimal_len_pos(m);
}

/// Writes the fallback name of `current_thread` into `name`, zero-filling the
/// rest of the buffer, and returns the number of digits written.
pub fn write_thread_name_fallback(current_thread: u64, name: &mut [u8; MAX_THREAD_NAME]) -> (len:
    usize)
    ensures
        len as nat == fallback_name(current_thread as nat).len(),
        1 <= len < MAX_THREAD_NAME,
        final(name)@.subrange(0, len as int) == fallback_name(current_thread as nat),
        forall|i: int| len <= i < MAX_THREAD_NAME ==> final(name)@[i] == 0,
{
    let ghost dec = decimal(current_thread as nat);
    // Count the digits, up to the buffer's capacity.
    let mut m: u64 = current_thread;
    let mut digits: usize = 1;
    while m >= 10 && digits < MAX_THREAD_NAME
        invariant
            dec.len() == decimal(m as nat).len() + digits - 1,
            1 <= digits <= MAX_THREAD_NAME,
        decreases m,
    {
        proof {
            lemma_decimal_step(m as nat);
        }
        m = m / 10;
        digits = digits + 1;
    }
    proof {
        lemma_decimal_step(m as nat);
    }
    let len: usize = if digits < MAX_THREAD_NAME {
        digits
    } else {
        MAX_THREAD_NAME - 1
    };
    assert(len as nat == fallback_name(current_thread as nat).len());
    // Write the last `len` digits, from the right.
    let mut m: u64 = current_thread;
    let mut i: usize = 0;
    while i < len
        invariant
            0 <= i <= len < MAX_THREAD_NAME,
            1 <= len <= dec.len(),
            dec == (if m == 0 && i > 0 {
                Seq::<u8>::empty()
            } else {
                decimal(m as nat)
            }).add(name@.subrange(len - i, len as int)),
        decreases len - i,
    {
        proof {
            lemma_decimal_step(m as nat);
        }
        let ghost old_tail = name@.subrange(len - i, len as int);
        let d: u8 = (48 + m % 10) as u8;
        name[len - 1 - i] = d;
        assert(name@.subrange(len - i - 1, len as int) =~= seq![d].add(old_tail));
        m = m / 10;
        i = i + 1;
        proof {
            lemma_decimal_len_pos(m as nat);
            if m == 0 {
                assert(dec =~= Seq::<u8>::empty().add(name@.subrange(len - i, len as int)));
            } else {
                assert(dec =~= decimal(m as nat).add(name@.subrange(len - i, len as int)));
            }
        }
    }
    proof {
        let pre = if m == 0 && i > 0 {
            Seq::<u8>::empty()
        } else {
            decimal(m as nat)
        };
        assert(dec.subrange(pre.len() as int, dec.len() as int) =~= name@.subrange(0, len as int));
    }
    let mut j: usize = len;
    while j < MAX_THREAD_NAME
        invariant
            len <= j <= MAX_THREAD_NAME,
            name@.subrange(0, len as int) == fallback_name(current_thread as nat),
            forall|k: int| len <= k < j ==> name@[k] == 0,
        decreases MAX_THREAD_NAME - j,
    {
        name[j] = 0;
        assert(name@.subrange(0, len as int) =~= fallback_name(current_thread as nat));
        j = j + 1;
    }
    len
}

} // verus!
