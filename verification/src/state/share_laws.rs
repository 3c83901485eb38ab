use crate::error::VaultError;
use crate::state::vault::{proportion, Vault, PRICE_SCALE};
use vstd::prelude::*;

verus! {

/// Rounding a quotient down loses less than one unit: `floor(n / d) * d <= n < (floor(n / d) + 1) * d`.
pub proof fn lemma_floor_bounds(n: int, d: int)
    requires
        0 <= n,
        0 < d,
    ensures
        0 <= n / d,
        (n / d) * d <= n,
        n < (n / d + 1) * d,
{
    vstd::arithmetic::div_mod::lemma_fundamental_div_mod(n, d);
    vstd::arithmetic::div_mod::lemma_mod_bound(n, d);
    vstd::arithmetic::div_mod::lemma_div_pos_is_pos(n, d);
    assert((n / d) * d == d * (n / d)) by (nonlinear_arith);
    assert((n / d + 1) * d == d * (n / d) + d) by (nonlinear_arith);
}

/// A quotient rounded down is the greatest `q` with `q * d <= n`.
pub proof fn lemma_floor_is_greatest(n: int, d: int, q: int)
    requires
        0 < d,
        q * d <= n,
    ensures
        q <= n / d,
{
    vstd::arithmetic::div_mod::lemma_fundamental_div_mod(n, d);
    vstd::arithmetic::div_mod::lemma_mod_bound(n, d);
    let k = n / d;
    assert(q <= k) by (nonlinear_arith)
        requires
            0 < d,
            q * d <= n,
            n < d * k + d,
    ;
}

/// A quotient rounded down is at most `q` whenever `n <= q * d`.
pub proof fn lemma_floor_at_most(n: int, d: int, q: int)
    requires
        0 < d,
        n <= q * d,
    ensures
        n / d <= q,
{
    vstd::arithmetic::div_mod::lemma_fundamental_div_mod(n, d);
    vstd::arithmetic::div_mod::lemma_mod_bound(n, d);
    let k = n / d;
    assert(k <= q) by (nonlinear_arith)
        requires
            0 < d,
            n <= q * d,
            d * k <= n,
    ;
}

/// Converting assets to shares and those shares back to assets, against the same pool,
/// never yields more assets than were put in: rounding creates no value.
pub proof fn lemma_conversion_round_trip(v: Vault, x: u64)
    requires
        x > 0,
    ensures
        v.spec_assets_to_shares(x) matches Ok(s) ==> (v.spec_shares_to_assets(s) matches Ok(a)
            ==> a <= x),
{
    if let Ok(s) = v.spec_assets_to_shares(x) {
        if let Ok(a) = v.spec_shares_to_assets(s) {
            let ta = v.total_assets as int;
            let ts = v.total_shares as int;
            assert(ts > 0);
            assert(ta > 0);
            assert(s == proportion(x as int, ts, ta));
            assert(a == proportion(s as int, ta, ts));
            lemma_shares_cost_at_most(x as int, ta, ts);
            // s * ta <= x * ts, hence floor(s * ta / ts) <= x
            lemma_floor_at_most(s * ta, ts, x as int);
        }
    }
}

/// Shares minted at the pool's ratio are worth no more than the assets paid, and less
/// than one asset unit short of them in cross-multiplied terms:
/// `0 <= amount * total_shares - minted * total_assets < total_assets`.
pub proof fn lemma_shares_cost_at_most(amount: int, total_assets: int, total_shares: int)
    requires
        0 <= amount,
        0 < total_assets,
        0 <= total_shares,
    ensures
        0 <= proportion(amount, total_shares, total_assets),
        proportion(amount, total_shares, total_assets) * total_assets <= amount * total_shares,
        amount * total_shares - proportion(amount, total_shares, total_assets) * total_assets
            < total_assets,
{
    assert(0 <= amount * total_shares) by (nonlinear_arith)
        requires
            0 <= amount,
            0 <= total_shares,
    ;
    lemma_floor_bounds(amount * total_shares, total_assets);
    let q = (amount * total_shares) / total_assets;
    assert((q + 1) * total_assets == q * total_assets + total_assets) by (nonlinear_arith);
}

/// A deposit into a pool with shares outstanding leaves the ratio of assets to shares
/// where it was, up to rounding, and the rounding favours the pool: with the old totals
/// `(A, S)` and the new totals `(A', S')`, `0 <= A' * S - A * S' < A`.
pub proof fn lemma_deposit_keeps_ratio(v: Vault, amount: u64)
    requires
        v.total_shares > 0,
        v.spec_deposit(amount) is Ok,
    ensures
        v.spec_deposit(amount) matches Ok(shares) && {
            let w = v.after_deposit(amount, shares);
            &&& w.total_assets == v.total_assets + amount
            &&& w.total_shares == v.total_shares + shares
            &&& 0 <= w.total_assets * v.total_shares - v.total_assets * w.total_shares
            &&& w.total_assets * v.total_shares - v.total_assets * w.total_shares
                < v.total_assets
        },
{
    let shares = v.spec_deposit(amount)->Ok_0;
    let w = v.after_deposit(amount, shares);
    let ta = v.total_assets as int;
    let ts = v.total_shares as int;
    let a = amount as int;
    let s = shares as int;
    assert(ta > 0);
    assert(s == proportion(a, ts, ta));
    lemma_shares_cost_at_most(a, ta, ts);
    assert((ta + a) * ts - ta * (ts + s) == a * ts - s * ta) by (nonlinear_arith);
}

/// A deposit never lowers the share price.
pub proof fn lemma_deposit_price_monotonic(v: Vault, amount: u64)
    requires
        v.spec_deposit(amount) is Ok,
    ensures
        v.spec_deposit(amount) matches Ok(shares) && (v.spec_share_price() matches Ok(before)
            ==> (v.after_deposit(amount, shares).spec_share_price() matches Ok(after)
            ==> before <= after)),
{
    let shares = v.spec_deposit(amount)->Ok_0;
    let w = v.after_deposit(amount, shares);
    if let Ok(before) = v.spec_share_price() {
        if let Ok(after) = w.spec_share_price() {
            let ta = v.total_assets as int;
            let ts = v.total_shares as int;
            let a = amount as int;
            let s = shares as int;
            let m = PRICE_SCALE as int;
            if ts == 0 {
                // no shares outstanding: one share per asset, at a price of one or more
                assert(s == a);
                assert(before == m);
                assert(m * a <= (ta + a) * m) by (nonlinear_arith)
                    requires
                        0 <= ta,
                        0 <= a,
                        0 <= m,
                ;
                lemma_floor_is_greatest((ta + a) * m, a, m);
            } else {
                assert(ta > 0);
                assert(s == proportion(a, ts, ta));
                lemma_shares_cost_at_most(a, ta, ts);
                assert(0 <= ta * m) by (nonlinear_arith)
                    requires
                        0 <= ta,
                        0 <= m,
                ;
                lemma_floor_bounds(ta * m, ts);
                let p = (ta * m) / ts;
                assert(p == before);
                // p * ts <= ta * m and s * ta <= a * ts give p * s <= a * m
                assert(p * s <= a * m) by (nonlinear_arith)
                    requires
                        0 <= p,
                        0 <= s,
                        0 <= a,
                        0 < ts,
                        0 < ta,
                        0 <= m,
                        p * ts <= ta * m,
                        s * ta <= a * ts,
                {
                    assert(p * ts * s <= ta * m * s);
                    assert(ta * m * s == (s * ta) * m);
                    assert((s * ta) * m <= (a * ts) * m);
                    assert(p * s * ts <= a * m * ts);
                }
                assert(p * (ts + s) <= (ta + a) * m) by (nonlinear_arith)
                    requires
                        p * ts <= ta * m,
                        p * s <= a * m,
                ;
                lemma_floor_is_greatest((ta + a) * m, ts + s, p);
            }
        }
    }
}

/// The first deposit into an empty pool mints one share per asset and leaves the share
/// price at exactly one asset per share.
pub proof fn lemma_first_deposit_at_par(v: Vault, amount: u64)
    requires
        v.total_shares == 0,
        v.total_assets == 0,
        amount > 0,
    ensures
        v.spec_deposit(amount) == Ok::<u64, VaultError>(amount),
        v.after_deposit(amount, amount).spec_share_price() == Ok::<u64, VaultError>(PRICE_SCALE),
{
    let a = amount as int;
    let m = PRICE_SCALE as int;
    assert((a * m) / a == m) by (nonlinear_arith)
        requires
            a > 0,
    ;
}

/// Depositing and at once withdrawing the minted shares, with nothing in between, pays
/// back no more than was deposited, restores the share count, and leaves the pool with
/// no fewer assets than before; where the mint involved no rounding, it pays back the
/// deposit exactly.
pub proof fn lemma_deposit_withdraw_round_trip(v: Vault, amount: u64)
    requires
        v.backed(),
        v.spec_deposit(amount) is Ok,
    ensures
        v.spec_deposit(amount) matches Ok(shares) && ({
            let w = v.after_deposit(amount, shares);
            w.spec_withdraw(shares) matches Ok(returned) ==> {
                let u = w.after_withdraw(shares, returned);
                &&& returned <= amount
                &&& u.total_shares == v.total_shares
                &&& u.total_assets == v.total_assets + amount - returned
                &&& u.total_assets >= v.total_assets
                &&& (v.total_shares == 0 || (amount * v.total_shares) % (v.total_assets as int)
                    == 0) ==> returned == amount
            }
        }),
{
    let shares = v.spec_deposit(amount)->Ok_0;
    let w = v.after_deposit(amount, shares);
    if let Ok(returned) = w.spec_withdraw(shares) {
        let ta = v.total_assets as int;
        let ts = v.total_shares as int;
        let a = amount as int;
        let s = shares as int;
        assert(w.total_assets == ta + a);
        assert(w.total_shares == ts + s);
        assert(returned == proportion(s, ta + a, ts + s));
        if ts == 0 {
            assert(ta == 0);
            assert(s == a);
            assert((a * a) / a == a) by (nonlinear_arith)
                requires
                    a > 0,
            ;
        } else {
            assert(ta > 0);
            assert(s == proportion(a, ts, ta));
            lemma_shares_cost_at_most(a, ta, ts);
            assert(s * (ta + a) == s * ta + s * a) by (nonlinear_arith);
            assert(a * (ts + s) == a * ts + s * a) by (nonlinear_arith);
            lemma_floor_at_most(s * (ta + a), ts + s, a);
            if (a * ts) % ta == 0 {
                vstd::arithmetic::div_mod::lemma_fundamental_div_mod(a * ts, ta);
                assert(ta * s == s * ta) by (nonlinear_arith);
                assert(s * ta == a * ts);
                lemma_floor_is_greatest(s * (ta + a), ts + s, a);
            }
        }
    }
}

} // verus!
