//! Ordering of JSON values the way the condition node compares them: strings
//! by their characters, numbers by the double-precision values they convert
//! to (integers are rounded to the nearest double, ties to even).
use vstd::prelude::*;
use vstd::arithmetic::power2::{
    lemma2_to64, lemma2_to64_rest, lemma_pow2_adds, lemma_pow2_pos, lemma_pow2_strictly_increases,
    lemma_pow2_unfold, pow2,
};
use crate::ivr::json::{f64_is_nan, JsonNumber, JsonValue, JsonView};
use crate::text::chars_of;

verus! {

/// Smallest `l >= k` with `m < 2^l`: the bit length of `m` when `k == 0`.
pub open spec fn bit_len_from(m: nat, k: nat) -> nat
    decreases m + 1 - k,
{
    if pow2(k) > m {
        k
    } else {
        proof {
            lemma_pow2_gt(k);
        }
        bit_len_from(m, k + 1)
    }
}

pub proof fn lemma_pow2_gt(k: nat)
    ensures
        pow2(k) > k,
    decreases k,
{
    lemma_pow2_pos(k);
    if k > 0 {
        lemma_pow2_gt((k - 1) as nat);
        lemma_pow2_unfold(k);
    }
}

/// Exponent-and-mantissa bits of the double nearest to `m` (ties to even).
pub open spec fn f64_mag_of(m: nat) -> nat {
    if m == 0 {
        0
    } else {
        let l = bit_len_from(m, 0);
        if l <= 53 {
            ((l - 1 + 1023) * pow2(52) + (m * pow2((53 - l) as nat) - pow2(52))) as nat
        } else {
            let s = (l - 53) as nat;
            let q = m / pow2(s);
            let r = m % pow2(s);
            let h = pow2((s - 1) as nat);
            let q2 = if r > h || (r == h && q % 2 == 1) {
                q + 1
            } else {
                q
            };
            if q2 == pow2(53) {
                ((l + 1023) * pow2(52)) as nat
            } else {
                ((l - 1 + 1023) * pow2(52) + (q2 - pow2(52))) as nat
            }
        }
    }
}

/// Order key of a double's bits: larger keys are larger values, `-0.0` and
/// `0.0` share key 0; NaN has none.
pub open spec fn f64_key(bits: u64) -> Option<int> {
    if f64_is_nan(bits) {
        None
    } else {
        let mag = (bits & 0x7fff_ffff_ffff_ffff) as int;
        if bits >= 0x8000_0000_0000_0000 {
            Some(-mag)
        } else {
            Some(mag)
        }
    }
}

/// Order key of a JSON number converted to a double; none for other values.
pub open spec fn num_key(v: JsonView) -> Option<int> {
    match v {
        JsonView::PosInt(n) => Some(f64_mag_of(n as nat) as int),
        JsonView::NegInt(n) => if n < 0 {
            Some(-(f64_mag_of((-n) as nat) as int))
        } else {
            Some(f64_mag_of(n as nat) as int)
        },
        JsonView::Float(bits, _) => f64_key(bits),
        _ => None,
    }
}

pub open spec fn is_number(v: JsonView) -> bool {
    v is PosInt || v is NegInt || v is Float
}

/// Lexicographic comparison of character sequences from position `i` on:
/// -1, 0 or 1.
pub open spec fn order_from(x: Seq<char>, y: Seq<char>, i: int) -> int
    decreases x.len() - i,
{
    if i >= x.len() && i >= y.len() {
        0
    } else if i >= x.len() {
        -1
    } else if i >= y.len() {
        1
    } else if (x[i] as u32) < (y[i] as u32) {
        -1
    } else if (x[i] as u32) > (y[i] as u32) {
        1
    } else {
        order_from(x, y, i + 1)
    }
}

/// Lexicographic comparison of character sequences (by code point, which
/// is also the order of their UTF-8 bytes): -1, 0 or 1.
pub open spec fn char_seq_order(x: Seq<char>, y: Seq<char>) -> int {
    order_from(x, y, 0)
}

pub open spec fn int_order(a: int, b: int) -> int {
    if a < b {
        -1
    } else if a > b {
        1
    } else {
        0
    }
}

/// Ordering used by `gt`/`lt`: strings against strings, numbers against
/// numbers; nothing for other pairs or when a NaN is involved.
pub open spec fn order_of(a: JsonView, b: JsonView) -> Option<int> {
    match (a, b) {
        (JsonView::Str(x), JsonView::Str(y)) => Some(char_seq_order(x, y)),
        _ => if is_number(a) && is_number(b) {
            match (num_key(a), num_key(b)) {
                (Some(x), Some(y)) => Some(int_order(x, y)),
                _ => None,
            }
        } else {
            None
        },
    }
}

/// `2^k` as a machine integer.
fn pow2_u64(k: u64) -> (r: u64)
    requires
        k < 64,
    ensures
        r as nat == pow2(k as nat),
{
    let mut r: u64 = 1;
    let mut i: u64 = 0;
    proof {
        lemma2_to64();
    }
    while i < k
        invariant
            i <= k,
            k < 64,
            r as nat == pow2(i as nat),
        decreases k - i,
    {
        proof {
            lemma_pow2_unfold((i + 1) as nat);
            lemma_pow2_strictly_increases((i + 1) as nat, 64);
            lemma2_to64();
        }
        r = r * 2;
        i = i + 1;
    }
    r
}

/// The double nearest to `m`, as exponent-and-mantissa bits.
pub fn f64_mag(m: u64) -> (r: u64)
    ensures
        r as nat == f64_mag_of(m as nat),
{
    if m == 0 {
        return 0;
    }
    let ghost mm = m as nat;
    let mut l: u64 = 0;
    let mut p: u128 = 1;
    proof {
        lemma2_to64();
        lemma2_to64_rest();
    }
    while p <= m as u128
        invariant
            p == pow2(l as nat),
            l <= 64,
            l == 0 || pow2((l - 1) as nat) <= mm,
            bit_len_from(mm, 0) == bit_len_from(mm, l as nat),
            mm == m as nat,
            mm > 0,
            pow2(64) == 0x10000000000000000,
        decreases 65 - l,
    {
        proof {
            lemma_pow2_unfold((l + 1) as nat);
        }
        p = p * 2;
        l = l + 1;
    }
    assert(bit_len_from(mm, l as nat) == l as nat);
    assert(1 <= l <= 64);
    proof {
        lemma2_to64();
        lemma2_to64_rest();
        lemma_pow2_unfold(l as nat);
    }
    let unit: u64 = 0x10_0000_0000_0000;
    if l <= 53 {
        let sh: u64 = 53 - l;
        let pw = pow2_u64(sh);
        let ghost lo = pow2((l - 1) as nat);
        let ghost hi = pow2(l as nat);
        proof {
            lemma_pow2_adds(l as nat, sh as nat);
            lemma_pow2_adds((l - 1) as nat, sh as nat);
            assert((l as nat) + (sh as nat) == 53);
            assert(((l - 1) as nat) + (sh as nat) == 52);
            assert(mm * pw < hi * pw) by (nonlinear_arith)
                requires
                    mm < hi,
                    pw > 0,
            ;
            assert(lo * pw <= mm * pw) by (nonlinear_arith)
                requires
                    lo <= mm,
                    pw > 0,
            ;
        }
        let x = m * pw;
        (l + 1022) * unit + (x - unit)
    } else {
        let s: u64 = l - 53;
        let pw = pow2_u64(s);
        let q = m / pw;
        let r = m % pw;
        let h = pw / 2;
        let ghost lo = pow2((l - 1) as nat);
        let ghost hi = pow2(l as nat);
        proof {
            lemma_pow2_unfold(s as nat);
            lemma_pow2_adds(53, s as nat);
            lemma_pow2_adds(52, s as nat);
            assert(53 + (s as nat) == l as nat);
            assert(52 + (s as nat) == (l - 1) as nat);
            vstd::arithmetic::div_mod::lemma_fundamental_div_mod(mm as int, pw as int);
            assert(0 <= r < pw);
            assert(mm == pw * q + r);
            assert(q < 0x20000000000000) by (nonlinear_arith)
                requires
                    mm == pw * q + r,
                    mm < 0x20000000000000 * pw,
                    r >= 0,
                    pw > 0,
            ;
            assert(q >= 0x10000000000000) by (nonlinear_arith)
                requires
                    mm == pw * q + r,
                    mm >= 0x10000000000000 * pw,
                    r < pw,
                    pw > 0,
            ;
        }
        let q2 = if r > h || (r == h && q % 2 == 1) {
            q + 1
        } else {
            q
        };
        if q2 == 0x20_0000_0000_0000 {
            (l + 1023) * unit
        } else {
            (l + 1022) * unit + (q2 - unit)
        }
    }
}

proof fn lemma_order_from_antisymmetric(x: Seq<char>, y: Seq<char>, i: int)
    requires
        0 <= i,
    ensures
        order_from(y, x, i) == -order_from(x, y, i),
    decreases x.len() - i,
{
    if i < x.len() && i < y.len() && (x[i] as u32) == (y[i] as u32) {
        lemma_order_from_antisymmetric(x, y, i + 1);
    }
}

/// Ordering is antisymmetric: where `a` compares to `b` as `x`, `b` compares
/// to `a` as `-x`; where one pair cannot be ordered, neither can the other.
pub proof fn lemma_order_antisymmetric(a: JsonView, b: JsonView)
    ensures
        order_of(b, a) == match order_of(a, b) {
            Some(x) => Some(-x),
            None => None,
        },
{
    match (a, b) {
        (JsonView::Str(x), JsonView::Str(y)) => lemma_order_from_antisymmetric(x, y, 0),
        _ => {},
    }
}

/// Compares two character sequences lexicographically.
pub fn chars_order(a: &Vec<char>, b: &Vec<char>) -> (r: i8)
    ensures
        r as int == char_seq_order(a@, b@),
{
    let mut i: usize = 0;
    loop
        invariant
            i <= a.len(),
            i <= b.len(),
            order_from(a@, b@, 0) == order_from(a@, b@, i as int),
        decreases a.len() - i,
    {
        if i >= a.len() && i >= b.len() {
            return 0;
        } else if i >= a.len() {
            return -1;
        } else if i >= b.len() {
            return 1;
        }
        let x = a[i] as u32;
        let y = b[i] as u32;
        if x < y {
            return -1;
        } else if x > y {
            return 1;
        }
        i = i + 1;
    }
}

/// The order key of a JSON number (see `num_key`); none for NaN and for
/// values that are not numbers.
pub fn number_key(v: &JsonValue) -> (r: Option<i128>)
    ensures
        r is Some <==> num_key(v@) is Some,
        r is Some ==> num_key(v@) == Some(r->0 as int),
{
    match v {
        JsonValue::Number(JsonNumber::PosInt(n)) => Some(f64_mag(*n) as i128),
        JsonValue::Number(JsonNumber::NegInt(n)) => {
            if *n < 0 {
                let m: u64 = (0i128 - (*n as i128)) as u64;
                Some(0i128 - (f64_mag(m) as i128))
            } else {
                Some(f64_mag(*n as u64) as i128)
            }
        },
        JsonValue::Number(JsonNumber::Float { bits, .. }) => {
            let b = *bits;
            let nan = (b & 0x7ff0_0000_0000_0000) == 0x7ff0_0000_0000_0000 && (b
                & 0x000f_ffff_ffff_ffff) != 0;
            if nan {
                None
            } else {
                let mag = (b & 0x7fff_ffff_ffff_ffff) as i128;
                if b >= 0x8000_0000_0000_0000 {
                    Some(0i128 - mag)
                } else {
                    Some(mag)
                }
            }
        },
        _ => None,
    }
}

/// The order of two JSON values for `gt` and `lt`: -1, 0 or 1 where both
/// are strings or both are numbers (neither NaN), nothing otherwise.
pub fn json_order(a: &JsonValue, b: &JsonValue) -> (r: Option<i8>)
    ensures
        r is Some <==> order_of(a@, b@) is Some,
        r is Some ==> order_of(a@, b@) == Some(r->0 as int),
{
    match (a, b) {
        (JsonValue::String(x), JsonValue::String(y)) => {
            let xs = chars_of(x.as_str());
            let ys = chars_of(y.as_str());
            Some(chars_order(&xs, &ys))
        },
        (JsonValue::Number(_), JsonValue::Number(_)) => {
            match (number_key(a), number_key(b)) {
                (Some(x), Some(y)) => {
                    if x < y {
                        Some(-1)
                    } else if x > y {
                        Some(1)
                    } else {
                        Some(0)
                    }
                },
                _ => None,
            }
        },
        _ => None,
    }
}

} // verus!
