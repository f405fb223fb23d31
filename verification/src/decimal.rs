use vstd::prelude::*;

verus! {

#[verifier::external_type_specification]
#[verifier::external_body]
pub struct ExDecimal(rust_decimal::Decimal);

/// The 96-bit unscaled mantissa that three 32-bit limbs stand for.
pub open spec fn mantissa(lo: u32, mid: u32, hi: u32) -> int {
    lo + mid * 0x1_0000_0000 + hi * 0x1_0000_0000_0000_0000
}

/// Whether the byte is an ASCII decimal digit, b'0' through b'9'.
pub open spec fn is_digit_byte(b: u8) -> bool {
    48 <= b && b <= 57
}

pub open spec fn all_digit_bytes(s: Seq<u8>) -> bool {
    forall|i: int| 0 <= i < s.len() ==> is_digit_byte(s[i])
}

/// The integer a sequence of ASCII digits denotes, most significant first.
pub open spec fn bytes_value(s: Seq<u8>) -> int
    decreases s.len(),
{
    if s.len() == 0 {
        0
    } else {
        bytes_value(s.drop_last()) * 10 + (s.last() - 48)
    }
}

/// The integer a sequence of ASCII digits denotes, least significant first.
spec fn lsb_value(s: Seq<u8>) -> int
    decreases s.len(),
{
    if s.len() == 0 {
        0
    } else {
        (s[0] - 48) + 10 * lsb_value(s.drop_first())
    }
}

spec fn pow10(n: nat) -> int
    decreases n,
{
    if n == 0 {
        1
    } else {
        10 * pow10((n - 1) as nat)
    }
}

proof fn lemma_lsb_push(s: Seq<u8>, b: u8)
    ensures
        lsb_value(s.push(b)) == lsb_value(s) + (b - 48) * pow10(s.len()),
    decreases s.len(),
{
    if s.len() == 0 {
        assert(s.push(b).drop_first() =~= Seq::<u8>::empty());
        assert(s.push(b)[0] == b);
        assert(s.push(b).len() == 1);
        assert(lsb_value(s.push(b)) == (s.push(b)[0] - 48) + 10 * lsb_value(
            s.push(b).drop_first(),
        ));
        assert(pow10(s.len()) == 1);
        assert(lsb_value(s) == 0);
        assert(lsb_value(s.push(b)) == lsb_value(s) + (b - 48) * pow10(s.len()));
    } else {
        assert(s.push(b).drop_first() =~= s.drop_first().push(b));
        assert(s.push(b)[0] == s[0]);
        lemma_lsb_push(s.drop_first(), b);
        assert(pow10(s.len()) == 10 * pow10((s.len() - 1) as nat));
        assert(lsb_value(s.push(b)) == (s[0] - 48) + 10 * (lsb_value(s.drop_first()) + (b - 48)
            * pow10((s.len() - 1) as nat)));
        assert(10 * (lsb_value(s.drop_first()) + (b - 48) * pow10((s.len() - 1) as nat)) == 10
            * lsb_value(s.drop_first()) + (b - 48) * (10 * pow10((s.len() - 1) as nat)))
            by (nonlinear_arith);
        assert(lsb_value(s) == (s[0] - 48) + 10 * lsb_value(s.drop_first()));
        assert(lsb_value(s.push(b)) == lsb_value(s) + (b - 48) * pow10(s.len()));
    }
}

proof fn lemma_msb_of_reversed(s: Seq<u8>)
    ensures
        bytes_value(s.reverse()) == lsb_value(s),
    decreases s.len(),
{
    if s.len() > 0 {
        lemma_msb_of_reversed(s.drop_first());
        assert(s.reverse().drop_last() =~= s.drop_first().reverse());
        assert(s.reverse().last() == s[0]);
    }
}

/// The unscaled mantissa of a decimal, rendered as ASCII digits: at least
/// one digit, no leading zero (unless the value is zero itself), and the
/// digits denote exactly the mantissa `lo + mid * 2^32 + hi * 2^64`.
pub fn unscaled_digits(lo: u32, mid: u32, hi: u32) -> (r: Vec<u8>)
    ensures
        all_digit_bytes(r@),
        r@.len() >= 1,
        bytes_value(r@) == mantissa(lo, mid, hi),
        r@.len() > 1 ==> r@[0] != 48,
{
    let ghost m: int = mantissa(lo, mid, hi);
    if lo == 0 && mid == 0 && hi == 0 {
        let mut r: Vec<u8> = Vec::new();
        r.push(48u8);
        proof {
            assert(r@.drop_last() =~= Seq::<u8>::empty());
            assert(r@.last() == 48u8);
            assert(bytes_value(r@) == bytes_value(r@.drop_last()) * 10 + (r@.last() - 48));
            assert(mantissa(lo, mid, hi) == 0);
        }
        return r;
    }
    let mut cl: u32 = lo;
    let mut cm: u32 = mid;
    let mut ch: u32 = hi;
    let mut ds: Vec<u8> = Vec::new();
    while !(cl == 0 && cm == 0 && ch == 0)
        invariant
            lsb_value(ds@) + mantissa(cl, cm, ch) * pow10(ds@.len()) == m,
            all_digit_bytes(ds@),
            ds@.len() > 0 && mantissa(cl, cm, ch) == 0 ==> ds@.last() != 48,
            m > 0,
        decreases mantissa(cl, cm, ch),
    {
        let ghost v: int = mantissa(cl, cm, ch);
        let r2: u64 = ch as u64;
        let q2: u64 = r2 / 10;
        let s2: u64 = r2 % 10;
        let r1: u64 = s2 * 4294967296u64 + cm as u64;
        let q1: u64 = r1 / 10;
        let s1: u64 = r1 % 10;
        let r0: u64 = s1 * 4294967296u64 + cl as u64;
        let q0: u64 = r0 / 10;
        let s0: u64 = r0 % 10;
        ch = q2 as u32;
        cm = q1 as u32;
        cl = q0 as u32;
        let dig: u8 = 48 + s0 as u8;
        proof {
            assert(mantissa(cl, cm, ch) * 10 + s0 == v);
            assert(v > 0);
            assert(mantissa(cl, cm, ch) < v);
            lemma_lsb_push(ds@, dig);
            assert((mantissa(cl, cm, ch) * 10 + s0) * pow10(ds@.len()) == mantissa(cl, cm, ch)
                * (10 * pow10(ds@.len())) + s0 * pow10(ds@.len())) by (nonlinear_arith);
        }
        ds.push(dig);
    }
    let mut out: Vec<u8> = Vec::new();
    let mut j: usize = ds.len();
    while j > 0
        invariant
            j <= ds@.len(),
            out@.len() == ds@.len() - j,
            forall|i: int| 0 <= i < out@.len() ==> out@[i] == ds@[ds@.len() - 1 - i],
        decreases j,
    {
        j = j - 1;
        let b: u8 = ds[j];
        out.push(b);
    }
    proof {
        assert(mantissa(cl, cm, ch) * pow10(ds@.len()) == 0) by (nonlinear_arith)
            requires
                mantissa(cl, cm, ch) == 0,
        ;
        assert(lsb_value(ds@) == m);
        if ds@.len() == 0 {
            assert(lsb_value(ds@) == 0);
            assert(false);
        }
        assert(out@ =~= ds@.reverse());
        lemma_msb_of_reversed(ds@);
        assert(out@[0] == ds@.last());
    }
    out
}

/// Relies on `rust_decimal::Decimal::unpack`: the three 32-bit limbs (low,
/// middle, high) of the decimal's 96-bit unscaled mantissa.
#[verifier::external_body]
fn decimal_mantissa_parts(d: &rust_decimal::Decimal) -> (u32, u32, u32) {
    let unpacked = d.unpack();
    (unpacked.lo, unpacked.mid, unpacked.hi)
}

/// The decimal's unscaled mantissa as ASCII digits: the decimal point
/// removed and leading zeroes trimmed, e.g. "45285.2" becomes "452852" and
/// "0.00100000" becomes "100000".
pub fn to_unscaled_digits(d: &rust_decimal::Decimal) -> (r: Vec<u8>)
    ensures
        all_digit_bytes(r@),
        r@.len() >= 1,
        r@.len() > 1 ==> r@[0] != 48,
{
    let (lo, mid, hi) = decimal_mantissa_parts(d);
    unscaled_digits(lo, mid, hi)
}

} // verus!
