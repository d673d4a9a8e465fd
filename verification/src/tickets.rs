//! Ticket-weighting math: deposits are converted into "tickets" through an
//! integer square root, so influence grows sublinearly in the amount, and a
//! loyalty-balance multiplier between 1.0x and 3.0x is applied on top.

use vstd::prelude::*;
use vstd::arithmetic::div_mod::{lemma_fundamental_div_mod, lemma_mod_bound};

verus! {

/// Minimum deposit amount in token base units.
pub const MIN_DEPOSIT_AMOUNT: u64 = 1_000_000;

/// Loyalty-token balance that counts as one whole unit for the multiplier.
pub const RIG_MULTIPLIER_BASE: u64 = 1_000_000_000;

/// Maximum multiplier bonus (2.0x), scaled by `SCALE`.
pub const MAX_MULTIPLIER_BONUS: u64 = 2_000_000;

/// Fixed-point scale factor.
pub const SCALE: u128 = 1_000_000;

/// Floor of the square root of `n`.
pub open spec fn sqrt_floor(n: nat) -> nat
    decreases n,
{
    if n == 0 {
        0
    } else {
        let r = sqrt_floor((n - 1) as nat);
        if (r + 1) * (r + 1) <= n {
            (r + 1) as nat
        } else {
            r
        }
    }
}

/// `sqrt_floor(n)` is the floor of the square root:
/// `sqrt_floor(n)^2 <= n < (sqrt_floor(n) + 1)^2`.
pub proof fn lemma_sqrt_floor_bounds(n: nat)
    ensures
        sqrt_floor(n) * sqrt_floor(n) <= n,
        n < (sqrt_floor(n) + 1) * (sqrt_floor(n) + 1),
    decreases n,
{
    if n == 0 {
        assert(sqrt_floor(0) == 0);
        assert(n < (sqrt_floor(n) + 1) * (sqrt_floor(n) + 1)) by (nonlinear_arith)
            requires
                n == 0,
                sqrt_floor(n) == 0,
        ;
    } else {
        lemma_sqrt_floor_bounds((n - 1) as nat);
        let r = sqrt_floor((n - 1) as nat);
        let s = sqrt_floor(n);
        if (r + 1) * (r + 1) <= n {
            assert(s == r + 1);
        } else {
            assert(s == r);
        }
        assert(s * s <= n && n < (s + 1) * (s + 1)) by (nonlinear_arith)
            requires
                r * r <= n - 1,
                n - 1 < (r + 1) * (r + 1),
                (r + 1) * (r + 1) <= n ==> s == r + 1,
                !((r + 1) * (r + 1) <= n) ==> s == r,
                n >= 1,
        ;
    }
}

/// Any `r` whose square brackets `n` is `sqrt_floor(n)`.
pub proof fn lemma_sqrt_floor_unique(n: nat, r: nat)
    requires
        r * r <= n,
        n < (r + 1) * (r + 1),
    ensures
        r == sqrt_floor(n),
{
    lemma_sqrt_floor_bounds(n);
    let s = sqrt_floor(n) as int;
    let ri = r as int;
    let m = n as int;
    assert(ri == s) by (nonlinear_arith)
        requires
            ri >= 0,
            s >= 0,
            ri * ri <= m,
            m < (ri + 1) * (ri + 1),
            s * s <= m,
            m < (s + 1) * (s + 1),
    ;
}

/// The square root floor is monotone.
pub proof fn lemma_sqrt_floor_monotonic(m: nat, n: nat)
    requires
        m <= n,
    ensures
        sqrt_floor(m) <= sqrt_floor(n),
{
    lemma_sqrt_floor_bounds(m);
    lemma_sqrt_floor_bounds(n);
    let a = sqrt_floor(m) as int;
    let b = sqrt_floor(n) as int;
    assert(a <= b) by (nonlinear_arith)
        requires
            a >= 0,
            b >= 0,
            a * a <= m as int,
            (m as int) <= n as int,
            (n as int) < (b + 1) * (b + 1),
    ;
}

/// An upper bound on the argument gives an upper bound on the root.
pub proof fn lemma_sqrt_floor_le(n: nat, b: nat)
    requires
        n < (b + 1) * (b + 1),
    ensures
        sqrt_floor(n) <= b,
{
    lemma_sqrt_floor_bounds(n);
    let s = sqrt_floor(n) as int;
    assert(s <= b as int) by (nonlinear_arith)
        requires
            s >= 0,
            b as int >= 0,
            s * s <= n as int,
            (n as int) < (b as int + 1) * (b as int + 1),
    ;
}

/// One Newton step from any `x` with `x <= n` lands at or above the root:
/// `(y + 1)^2 > n` for `y = (x + n/x) / 2`.
proof fn lemma_newton_step(n: int, x: int, q: int, y: int)
    requires
        x >= 1,
        n >= x,
        q == n / x,
        y == (x + q) / 2,
    ensures
        n < (y + 1) * (y + 1),
        y >= 1,
{
    lemma_fundamental_div_mod(n, x);
    lemma_mod_bound(n, x);
    let rem = n % x;
    lemma_fundamental_div_mod(x + q, 2);
    lemma_mod_bound(x + q, 2);
    assert(q >= 1) by (nonlinear_arith)
        requires
            x >= 1,
            n >= x,
            n == x * q + rem,
            0 <= rem < x,
    ;
    assert(n < (y + 1) * (y + 1)) by (nonlinear_arith)
        requires
            x >= 1,
            q >= 0,
            n == x * q + rem,
            0 <= rem < x,
            2 * y <= x + q,
            x + q <= 2 * y + 1,
    ;
    assert(y >= 1) by (nonlinear_arith)
        requires
            x >= 1,
            q >= 1,
            2 * y + 1 >= x + q,
        ;
}

/// When a Newton step no longer decreases, the current iterate is at or
/// below the root: `x^2 <= n`.
proof fn lemma_newton_exit(n: int, x: int, q: int, y: int)
    requires
        x >= 1,
        n >= 0,
        q == n / x,
        y == (x + q) / 2,
        y >= x,
    ensures
        x * x <= n,
{
    lemma_fundamental_div_mod(n, x);
    lemma_mod_bound(n, x);
    let rem = n % x;
    lemma_fundamental_div_mod(x + q, 2);
    lemma_mod_bound(x + q, 2);
    assert(x * x <= n) by (nonlinear_arith)
        requires
            x >= 1,
            n == x * q + rem,
            0 <= rem < x,
            2 * y <= x + q,
            y >= x,
    ;
}

/// The Newton iterate stays addable: `x + n/x` fits in a `u128`.
proof fn lemma_newton_no_overflow(n: int, x: int)
    requires
        1 <= x,
        x < n,
        n < (x + 1) * (x + 1),
        n <= u128::MAX as int,
    ensures
        x + n / x <= u128::MAX as int,
{
    lemma_fundamental_div_mod(n, x);
    lemma_mod_bound(n, x);
    let q = n / x;
    let rem = n % x;
    let half = 0x8000_0000_0000_0000_0000_0000_0000_0000int;  // 2^127
    let word = 0x1_0000_0000_0000_0000int;  // 2^64
    if x > half {
        // n < 2x, so the quotient is at most 1.
        assert(q <= 1) by (nonlinear_arith)
            requires
                x >= 1,
                n == x * q + rem,
                0 <= rem < x,
                n < 2 * x,
                q >= 0,
        ;
    } else if x >= word {
        // q <= n / 2^64 < 2^64 <= x, so x + q <= 2x <= 2^128.
        assert(q < word) by (nonlinear_arith)
            requires
                x >= word,
                word == 0x1_0000_0000_0000_0000int,
                n == x * q + rem,
                0 <= rem < x,
                n <= u128::MAX as int,
                q >= 0,
        ;
    } else {
        // n < (x+1)^2 gives q <= x + 2, so x + q <= 2x + 2 < 2^65 + 2.
        assert(q <= x + 2) by (nonlinear_arith)
            requires
                x >= 1,
                n == x * q + rem,
                0 <= rem < x,
                n < (x + 1) * (x + 1),
                q >= 0,
        ;
    }
}

/// Integer square root by Newton's method: returns `floor(sqrt(n))`.
pub fn integer_sqrt(n: u128) -> (r: u128)
    ensures
        r == sqrt_floor(n as nat),
        (r as int) * (r as int) <= n as int,
        (n as int) < (r as int + 1) * (r as int + 1),
{
    if n == 0 {
        proof { lemma_sqrt_floor_bounds(0); }
        return 0;
    }
    if n == 1 {
        proof { lemma_sqrt_floor_unique(1, 1); }
        return 1;
    }
    let mut x: u128 = n;
    let mut y: u128 = n / 2 + n % 2;
    proof {
        // Initially y == (x + n/x) / 2 because n / n == 1.
        lemma_fundamental_div_mod(n as int, n as int);
        lemma_mod_bound(n as int, n as int);
        assert((n as int) / (n as int) == 1) by (nonlinear_arith)
            requires n as int >= 1,
        ;
        lemma_fundamental_div_mod(n as int, 2);
        lemma_mod_bound(n as int, 2);
        assert((n as int) < (n as int + 1) * (n as int + 1)) by (nonlinear_arith)
            requires n as int >= 1,
        ;
    }
    while y < x
        invariant
            2 <= n,
            1 <= x <= n,
            (n as int) < (x as int + 1) * (x as int + 1),
            y as int == (x as int + (n as int) / (x as int)) / 2,
        decreases x,
    {
        proof {
            lemma_newton_step(n as int, x as int, (n as int) / (x as int), y as int);
        }
        x = y;
        proof {
            lemma_newton_no_overflow(n as int, x as int);
        }
        let q: u128 = n / x;
        y = (x + q) / 2;
    }
    proof {
        lemma_newton_exit(n as int, x as int, (n as int) / (x as int), y as int);
        lemma_sqrt_floor_unique(n as nat, x as nat);
    }
    x
}

/// Base tickets for a deposit: `floor(sqrt(amount * SCALE))`, so a 100x
/// deposit yields 10x tickets, with the scale factor adding precision.
pub open spec fn spec_base_tickets(amount: u64) -> nat {
    sqrt_floor((amount as nat) * (SCALE as nat))
}

/// Base tickets of a deposit; zero exactly on a zero amount.
pub fn calculate_base_tickets(amount: u64) -> (r: u128)
    ensures
        r == spec_base_tickets(amount),
{
    if amount == 0 {
        return 0;
    }
    let scaled: u128 = (amount as u128) * SCALE;
    integer_sqrt(scaled)
}

/// Loyalty multiplier, scaled by `SCALE`: `1.0x` base plus a bonus of
/// `sqrt(balance / RIG_MULTIPLIER_BASE)`, capped at `2.0x`.
pub open spec fn spec_rig_multiplier(balance: u64) -> nat {
    let bonus = sqrt_floor(((balance as nat) * (SCALE as nat)) / (RIG_MULTIPLIER_BASE as nat));
    if bonus > MAX_MULTIPLIER_BONUS as nat {
        (SCALE + MAX_MULTIPLIER_BONUS) as nat
    } else {
        ((SCALE as nat) + bonus) as nat
    }
}

/// The multiplier always lies in `[SCALE, 3 * SCALE]`.
pub proof fn lemma_rig_multiplier_range(balance: u64)
    ensures
        SCALE as nat <= spec_rig_multiplier(balance) <= 3 * SCALE as nat,
{
}

pub fn calculate_rig_multiplier(rig_balance: u64) -> (r: u128)
    ensures
        r == spec_rig_multiplier(rig_balance),
{
    if rig_balance == 0 {
        return SCALE;
    }
    let scaled: u128 = (rig_balance as u128) * SCALE / (RIG_MULTIPLIER_BASE as u128);
    let sqrt_bonus = integer_sqrt(scaled);
    let capped_bonus = if sqrt_bonus < MAX_MULTIPLIER_BONUS as u128 {
        sqrt_bonus
    } else {
        MAX_MULTIPLIER_BONUS as u128
    };
    SCALE + capped_bonus
}

/// Effective tickets: base tickets scaled by the loyalty multiplier.
pub open spec fn spec_effective_tickets(amount: u64, balance: u64) -> nat {
    (spec_base_tickets(amount) * spec_rig_multiplier(balance)) / (SCALE as nat)
}

/// Base tickets never exceed `sqrt(u64::MAX * SCALE)`.
pub proof fn lemma_base_tickets_bound(amount: u64)
    ensures
        spec_base_tickets(amount) <= 5_000_000_000_000,
{
    assert((amount as nat) * (SCALE as nat) < 5_000_000_000_001 * 5_000_000_000_001)
        by (nonlinear_arith)
        requires
            amount as nat <= 0xffff_ffff_ffff_ffffnat,
            SCALE as nat == 1_000_000,
    ;
    lemma_sqrt_floor_le((amount as nat) * (SCALE as nat), 5_000_000_000_000);
}

pub fn calculate_effective_tickets(deposit_amount: u64, rig_balance: u64) -> (r: u128)
    ensures
        r == spec_effective_tickets(deposit_amount, rig_balance),
{
    let base = calculate_base_tickets(deposit_amount);
    let multiplier = calculate_rig_multiplier(rig_balance);
    proof {
        lemma_base_tickets_bound(deposit_amount);
        lemma_rig_multiplier_range(rig_balance);
        assert((base as int) * (multiplier as int) <= 5_000_000_000_000int * 3_000_000int)
            by (nonlinear_arith)
            requires
                0 <= base as int <= 5_000_000_000_000int,
                0 <= multiplier as int <= 3_000_000int,
        ;
    }
    (base * multiplier) / SCALE
}

/// Base tickets are non-decreasing in the deposit amount, and zero at zero.
pub proof fn lemma_base_tickets_monotonic(a1: u64, a2: u64)
    requires
        a1 <= a2,
    ensures
        spec_base_tickets(a1) <= spec_base_tickets(a2),
        spec_base_tickets(0) == 0,
{
    assert((a1 as nat) * (SCALE as nat) <= (a2 as nat) * (SCALE as nat)) by (nonlinear_arith)
        requires a1 as nat <= a2 as nat, SCALE as nat > 0,
    ;
    lemma_sqrt_floor_monotonic((a1 as nat) * (SCALE as nat), (a2 as nat) * (SCALE as nat));
}

} // verus!
