//! Channel frequency timers: a countdown of T-cycles that, on reaching
//! zero, reloads with the channel's period and advances the waveform by one
//! step.

use vstd::arithmetic::div_mod::{lemma_fundamental_div_mod, lemma_fundamental_div_mod_converse};
use vstd::prelude::*;

verus! {

/// After `cycles` T-cycles from a timer at `t` (> 0) with period `p`: the
/// new timer value and how many times it reached zero.
pub open spec fn timer_advance(t: int, p: int, cycles: int) -> (int, int) {
    if cycles < t {
        (t - cycles, 0)
    } else {
        let c2 = cycles - t;
        (p - c2 % p, 1 + c2 / p)
    }
}

/// Consuming `c` more cycles, at most up to the timer reaching zero, moves
/// the closed form along: the timer drops by `c`, or reaches zero, reloads
/// and counts one more step.
pub proof fn lemma_timer_step(t0: int, p: int, u: int, c: int)
    requires
        p > 0,
        t0 > 0,
        u >= 0,
        0 < c <= timer_advance(t0, p, u).0,
    ensures
        timer_advance(t0, p, u).0 > 0,
        timer_advance(t0, p, u).0 <= (if u < t0 { t0 } else { p }),
        c < timer_advance(t0, p, u).0 ==> timer_advance(t0, p, u + c) == (
            timer_advance(t0, p, u).0 - c,
            timer_advance(t0, p, u).1,
        ),
        c == timer_advance(t0, p, u).0 ==> timer_advance(t0, p, u + c) == (p, timer_advance(t0, p, u).1 + 1),
{
    if u >= t0 {
        let c2 = u - t0;
        lemma_fundamental_div_mod(c2, p);
        let q = c2 / p;
        let r = c2 % p;
        if c < p - r {
            lemma_fundamental_div_mod_converse(c2 + c, p, q, r + c);
        } else {
            assert((q + 1) * p == p * q + p) by (nonlinear_arith);
            lemma_fundamental_div_mod_converse(c2 + c, p, q + 1, 0);
        }
    } else if u + c >= t0 {
        lemma_fundamental_div_mod_converse(u + c - t0, p, 0, 0);
    }
}

/// Running the timer for `a` cycles and then `b` more is running it for
/// `a + b`: the timer ends at the same value and the reloads add up.
pub proof fn lemma_timer_advance_split(t0: int, p: int, a: int, b: int)
    requires
        p > 0,
        t0 > 0,
        a >= 0,
        b >= 0,
    ensures
        timer_advance(t0, p, a).0 > 0,
        timer_advance(timer_advance(t0, p, a).0, p, b).0 == timer_advance(t0, p, a + b).0,
        timer_advance(t0, p, a).1 + timer_advance(timer_advance(t0, p, a).0, p, b).1 == timer_advance(
            t0,
            p,
            a + b,
        ).1,
{
    if a >= t0 {
        let c2 = a - t0;
        lemma_fundamental_div_mod(c2, p);
        let q = c2 / p;
        let r = c2 % p;
        let t1 = p - r;
        if b < t1 {
            lemma_fundamental_div_mod_converse(c2 + b, p, q, r + b);
        } else {
            let c3 = b - t1;
            lemma_fundamental_div_mod(c3, p);
            let q3 = c3 / p;
            let r3 = c3 % p;
            assert(c2 + b == (q + 1 + q3) * p + r3) by (nonlinear_arith)
                requires
                    c2 == p * q + r,
                    c3 == p * q3 + r3,
                    b == c3 + p - r,
            ;
            assert(0 <= r3 < p);
            lemma_fundamental_div_mod_converse(c2 + b, p, q + 1 + q3, r3);
        }
    } else if a + b >= t0 {
        let t1 = t0 - a;
        assert(b - t1 == a + b - t0);
    }
}

} // verus!
