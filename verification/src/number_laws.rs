//! What numbers of double precision, instants and texts are taken for, told of the values that
//! they stand for.

use crate::double::Double;
use crate::moment::Timestamp;
use crate::text;
use vstd::arithmetic::power2;
use vstd::prelude::*;

verus! {

// ---- numbers of double precision ----

/// The exponent of a pattern: the eleven bits behind the sign.
pub open spec fn exponent(x: Double) -> nat {
    ((x.bits as int / 0x0010_0000_0000_0000) % 2048) as nat
}

/// The fraction of a pattern: the 52 bits behind the exponent.
pub open spec fn fraction(x: Double) -> nat {
    (x.bits as int % 0x0010_0000_0000_0000) as nat
}

/// How many units of the smallest positive number the absolute value of a finite one is.
pub open spec fn units(x: Double) -> nat {
    if exponent(x) == 0 {
        fraction(x)
    } else {
        (0x0010_0000_0000_0000 + fraction(x)) * power2::pow2((exponent(x) - 1) as nat)
    }
}

/// A finite number, in units of the smallest positive one.
pub open spec fn value(x: Double) -> int {
    if x.bits >= 0x8000_0000_0000_0000 {
        -(units(x) as int)
    } else {
        units(x) as int
    }
}

/// How many units of the smallest positive number one is.
pub open spec fn one() -> nat {
    power2::pow2(1074)
}

/// Whether a pattern stands for a finite number.
pub open spec fn is_number(x: Double) -> bool {
    exponent(x) < 2047
}

proof fn lemma_decoded(x: Double)
    ensures
        exponent(x) == x.magnitude() / 0x0010_0000_0000_0000,
        fraction(x) == x.magnitude() % 0x0010_0000_0000_0000,
        is_number(x) <==> x.finite(),
{
    let f: int = 0x0010_0000_0000_0000;
    let b = x.bits as int;
    if x.bits >= 0x8000_0000_0000_0000 {
        assert(b == x.magnitude() + 2048 * f);
        assert(b / f == x.magnitude() as int / f + 2048);
        assert(b % f == x.magnitude() as int % f);
    }
}

spec fn units_of(magnitude: nat) -> nat {
    let e = magnitude / 0x0010_0000_0000_0000;
    let f = magnitude % 0x0010_0000_0000_0000;
    if e == 0 {
        f
    } else {
        (0x0010_0000_0000_0000 + f) * power2::pow2((e - 1) as nat)
    }
}

proof fn lemma_units_grow(m: nat, n: nat)
    requires
        m < n,
    ensures
        units_of(m) < units_of(n),
{
    let c: nat = 0x0010_0000_0000_0000;
    let em = m / c;
    let fm = m % c;
    let en = n / c;
    let f_n = n % c;
    assert(em <= en);
    if em == en {
        assert(fm < f_n);
        if em > 0 {
            let p = power2::pow2((em - 1) as nat);
            power2::lemma_pow2_pos((em - 1) as nat);
            assert((c + fm) * p < (c + f_n) * p) by (nonlinear_arith)
                requires
                    p > 0,
                    fm < f_n,
            ;
        }
    } else {
        let q = power2::pow2((en - 1) as nat);
        power2::lemma_pow2_pos((en - 1) as nat);
        assert((c + f_n) * q >= c * q) by (nonlinear_arith)
            requires
                q > 0,
        ;
        if em == 0 {
            assert(c * q >= c) by (nonlinear_arith)
                requires
                    q >= 1,
            ;
        } else {
            let p = power2::pow2((em - 1) as nat);
            power2::lemma_pow2_pos((em - 1) as nat);
            power2::lemma_pow2_unfold(em);
            if em < en - 1 {
                power2::lemma_pow2_strictly_increases(em, (en - 1) as nat);
            }
            assert((c + fm) * p < 2 * c * p) by (nonlinear_arith)
                requires
                    p > 0,
                    fm < c,
            ;
            assert(2 * c * p == c * (2 * p)) by (nonlinear_arith);
            assert(c * (2 * p) <= c * q) by (nonlinear_arith)
                requires
                    2 * p <= q,
            ;
        }
    }
}

/// Numbers are compared by their values: of two finite ones one is below the other exactly if it
/// is less. The infinities are beyond all others, and what is no number is below none.
pub proof fn law_numbers_are_compared_by_value(a: Double, b: Double, less: bool)
    requires
        call_ensures(Double::is_below, (a, b), less),
    ensures
        is_number(a) && is_number(b) ==> (less <==> value(a) < value(b)),
        (exponent(a) == 2047 && fraction(a) > 0) || (exponent(b) == 2047 && fraction(b) > 0)
            ==> !less,
        a.bits == 0x7ff0_0000_0000_0000 ==> !less,
        b.bits == 0xfff0_0000_0000_0000 ==> !less,
        is_number(a) && b.bits == 0x7ff0_0000_0000_0000 ==> less,
        a.bits == 0xfff0_0000_0000_0000 && is_number(b) ==> less,
        less == a.below(b),
{
    lemma_decoded(a);
    lemma_decoded(b);
    assert(units(a) == units_of(a.magnitude()));
    assert(units(b) == units_of(b.magnitude()));
    assert(units_of(0) == 0);
    if a.magnitude() < b.magnitude() {
        lemma_units_grow(a.magnitude(), b.magnitude());
    }
    if b.magnitude() < a.magnitude() {
        lemma_units_grow(b.magnitude(), a.magnitude());
    }
    if a.magnitude() > 0 {
        lemma_units_grow(0, a.magnitude());
    }
    if b.magnitude() > 0 {
        lemma_units_grow(0, b.magnitude());
    }
}

/// A number is held between two others, and is itself where it lies between them.
pub proof fn law_numbers_are_held_between(x: Double, low: Double, high: Double, r: Double)
    requires
        call_ensures(Double::clamp, (x, low, high), r),
    ensures
        x.below(low) ==> r == low,
        !x.below(low) && high.below(x) ==> r == high,
        !x.below(low) && !high.below(x) ==> r == x,
{
}

proof fn lemma_whole(x: Double)
    requires
        x.finite(),
    ensures
        x.whole() * one() <= units(x) < (x.whole() + 1) * one(),
        (2 * x.nearest() - 1) * one() <= 2 * units(x) < (2 * x.nearest() + 1) * one(),
{
    lemma_decoded(x);
    let sig = x.significand();
    let e = exponent(x);
    let c: nat = 0x0010_0000_0000_0000;
    let power: nat = if e == 0 {
        0
    } else {
        (e - 1) as nat
    };
    power2::lemma2_to64();
    if e == 0 {
        let p0 = power2::pow2(power);
        assert(sig == fraction(x));
        assert(p0 == 1);
        assert(sig * p0 == sig) by (nonlinear_arith)
            requires
                p0 == 1,
        ;
    } else {
        assert(sig == c + fraction(x));
    }
    assert(units(x) == sig * power2::pow2(power));
    assert(x.scale() == power - 1074);
    power2::lemma_pow2_pos(power);
    power2::lemma_pow2_pos(1074);
    if x.scale() >= 0 {
        let k = x.scale() as nat;
        power2::lemma_pow2_adds(k, 1074);
        let a = power2::pow2(k);
        let u = one();
        assert(sig * (a * u) == (sig * a) * u) by (nonlinear_arith);
        let w = x.whole();
        assert(w == sig * a);
        assert(w * u < (w + 1) * u) by (nonlinear_arith)
            requires
                u > 0,
        ;
        assert((2 * w - 1) * u <= 2 * (w * u) < (2 * w + 1) * u) by (nonlinear_arith)
            requires
                u > 0,
        ;
    } else {
        let k = (-x.scale()) as nat;
        assert(k + power == 1074);
        power2::lemma_pow2_adds(k, power);
        power2::lemma_pow2_pos(k);
        let p = power2::pow2(k);
        let q = power2::pow2(power);
        let u = one();
        assert(u == p * q);
        let w = x.whole();
        let n = x.nearest();
        vstd::arithmetic::div_mod::lemma_fundamental_div_mod(sig as int, p as int);
        vstd::arithmetic::div_mod::lemma_mod_bound(sig as int, p as int);
        vstd::arithmetic::div_mod::lemma_fundamental_div_mod((2 * sig + p) as int, (2 * p) as int);
        vstd::arithmetic::div_mod::lemma_mod_bound((2 * sig + p) as int, (2 * p) as int);
        assert(p * w <= sig < p * w + p);
        assert((2 * p) * n <= 2 * sig + p < (2 * p) * n + 2 * p);
        assert(w * u <= sig * q < (w + 1) * u) by (nonlinear_arith)
            requires
                u == p * q,
                q > 0,
                p * w <= sig,
                sig < p * w + p,
        ;
        assert((2 * n - 1) * u <= 2 * (sig * q) < (2 * n + 1) * u) by (nonlinear_arith)
            requires
                u == p * q,
                q > 0,
                (2 * p) * n <= 2 * sig + p,
                2 * sig + p < (2 * p) * n + 2 * p,
        ;
    }
}

/// A finite number within the range of integers is cut to the one that it reaches on the way from
/// zero, and rounded to the nearest, where two are as near to the one further from zero; one beyond
/// goes to the end of the range, and what is no number to zero.
pub proof fn law_numbers_become_integers(x: Double, cut: i64, rounded: i64)
    requires
        call_ensures(Double::truncated, (x,), cut),
        call_ensures(Double::rounded, (x,), rounded),
    ensures
        x.nan() ==> cut == 0 && rounded == 0,
        is_number(x) && i64::MIN < cut < i64::MAX ==> {
            &&& value(x) >= 0 ==> cut * one() <= value(x) < (cut + 1) * one()
            &&& value(x) <= 0 ==> (cut - 1) * one() < value(x) <= cut * one()
        },
        is_number(x) && i64::MIN < rounded < i64::MAX ==> {
            &&& value(x) >= 0 ==> (2 * rounded - 1) * one() <= 2 * value(x) < (2 * rounded + 1)
                * one()
            &&& value(x) <= 0 ==> (2 * rounded - 1) * one() < 2 * value(x) <= (2 * rounded + 1)
                * one()
        },
        is_number(x) && cut == i64::MAX ==> value(x) >= i64::MAX * one(),
        is_number(x) && cut == i64::MIN ==> value(x) <= i64::MIN * one(),
        is_number(x) && rounded == i64::MAX ==> 2 * value(x) >= (2 * i64::MAX - 1) * one(),
        is_number(x) && rounded == i64::MIN ==> 2 * value(x) <= (2 * i64::MIN + 1) * one(),
        !is_number(x) && !x.nan() && x.bits < 0x8000_0000_0000_0000 ==> cut == i64::MAX && rounded
            == i64::MAX,
        !is_number(x) && !x.nan() && x.bits >= 0x8000_0000_0000_0000 ==> cut == i64::MIN && rounded
            == i64::MIN,
        cut == x.cut() && rounded == x.round(),
{
    lemma_decoded(x);
    if x.finite() {
        lemma_whole(x);
        let u = one();
        let w = x.whole();
        let n = x.nearest();
        power2::lemma_pow2_pos(1074);
        assert((0 - w) * u == -(w * u) && (0 - w - 1) * u == -((w + 1) * u)) by (nonlinear_arith);
        assert((2 * (0 - n) - 1) * u == -((2 * n + 1) * u) && (2 * (0 - n) + 1) * u == -((2 * n - 1)
            * u)) by (nonlinear_arith);
        if cut == i64::MAX {
            assert(w * u >= i64::MAX * u) by (nonlinear_arith)
                requires
                    w >= i64::MAX,
                    u > 0,
            ;
        }
        if cut == i64::MIN {
            assert(-(w * u) <= i64::MIN * u) by (nonlinear_arith)
                requires
                    w >= -(i64::MIN as int),
                    u > 0,
            ;
        }
        if rounded == i64::MAX {
            assert((2 * n - 1) * u >= (2 * i64::MAX - 1) * u) by (nonlinear_arith)
                requires
                    n >= i64::MAX,
                    u > 0,
            ;
        }
        if rounded == i64::MIN {
            assert(-((2 * n - 1) * u) <= (2 * i64::MIN + 1) * u) by (nonlinear_arith)
                requires
                    n >= -(i64::MIN as int),
                    u > 0,
            ;
        }
        if units(x) == 0 {
            assert(w == 0) by (nonlinear_arith)
                requires
                    w * u <= 0,
                    u > 0,
                    w >= 0,
            ;
            assert(n == 0) by (nonlinear_arith)
                requires
                    (2 * n - 1) * u <= 0,
                    u > 0,
                    n >= 0,
            ;
        }
    } else if !x.nan() {
        assert(x.magnitude() == 2047 * 0x0010_0000_0000_0000);
        assert(x.scale() == 972);
        power2::lemma2_to64();
        power2::lemma2_to64_rest();
        power2::lemma_pow2_strictly_increases(63, 972);
        let s = x.significand();
        let p = power2::pow2(972);
        assert(s * p >= p) by (nonlinear_arith)
            requires
                s >= 1,
        ;
    }
}

/// The opposite of a number has its absolute value and the other sign; what is below zero, or no
/// number, counts as zero where nothing negative may stand; and what is no number, or infinite, is
/// known by its pattern.
pub proof fn law_signs_and_kinds_of_numbers(
    x: Double,
    negated: Double,
    held: Double,
    nan: bool,
    finite: bool,
)
    requires
        call_ensures(Double::negated, (x,), negated),
        call_ensures(Double::not_negative, (x,), held),
        call_ensures(Double::is_nan, (x,), nan),
        call_ensures(Double::is_finite, (x,), finite),
    ensures
        nan <==> exponent(x) == 2047 && fraction(x) > 0,
        finite <==> exponent(x) < 2047,
        finite ==> value(negated) == -value(x),
        negated.bits != x.bits,
        nan ==> held.bits == 0,
        finite && value(x) < 0 ==> held.bits == 0,
        finite && value(x) >= 0 ==> held == x,
{
    lemma_decoded(x);
    lemma_decoded(negated);
    lemma_decoded(held);
    assert(units(x) == units_of(x.magnitude()));
    assert(units(negated) == units_of(negated.magnitude()));
    assert(units_of(0) == 0);
    if x.magnitude() > 0 {
        lemma_units_grow(0, x.magnitude());
    }
}

// ---- instants ----

/// Instants are told apart and compared by their seconds and then by their nanoseconds; one that is
/// made of numbers has these; and a number of seconds later it is that many seconds later.
pub proof fn law_instants_are_compared_by_seconds(
    a: Timestamp,
    b: Timestamp,
    earlier: bool,
    secs: i64,
    nanos: u32,
    made: Option<Timestamp>,
    add: i64,
    later: Option<Timestamp>,
    second: i64,
    nano: u32,
    written: String,
)
    requires
        call_ensures(Timestamp::is_earlier, (&a, &b), earlier),
        call_ensures(Timestamp::new, (secs, nanos), made),
        call_ensures(Timestamp::plus, (&a, add), later),
        call_ensures(Timestamp::seconds, (&a,), second),
        call_ensures(Timestamp::nanoseconds, (&a,), nano),
        call_ensures(Timestamp::to_rfc3339, (&a,), written),
    ensures
        second == a.second() && nano == a.nano(),
        written@ == crate::moment::rfc3339_text(second, nano),
        made is Some <==> -8_334_601_228_800 <= secs <= 8_210_266_876_799 && (nanos
            < 1_000_000_000 || (nanos < 2_000_000_000 && secs % 60 == 59)),
        later is Some <==> a.second() + add <= 8_210_266_876_799,
        earlier <==> a.second() < b.second() || (a.second() == b.second() && a.nano() < b.nano()),
        made matches Some(t) ==> t.second() == secs && t.nano() == nanos,
        later matches Some(t) ==> t.second() - a.second() == add,
        later matches Some(t) ==> t.nano() as int == (if a.nano() < 1_000_000_000 {
            a.nano() as int
        } else {
            a.nano() - 1_000_000_000
        }),
{
}

// ---- texts ----

/// Numbers are written so that they are read as they are; a text with anything but digits behind an
/// optional sign is read as none.
pub proof fn law_written_numbers_are_read(
    n: i32,
    written: String,
    text: &str,
    read: Option<i32>,
)
    requires
        call_ensures(text::decimal, (n as i64,), written),
        call_ensures(text::parse_i32, (text,), read),
    ensures
        text@ == written@ ==> read == Some(n),
        (exists|i: int| 1 <= i < text@.len() && !('0' <= #[trigger] text@[i] <= '9'))
            ==> read is None,
        text@.len() == 0 ==> read is None,
        text@.len() > 0 && text@[0] != '+' && text@[0] != '-' && !('0' <= text@[0] <= '9')
            ==> read is None,
{
    text::law_printed_number_reads_back(n);
    if exists|i: int| 1 <= i < text@.len() && !('0' <= #[trigger] text@[i] <= '9') {
        let i = choose|i: int| 1 <= i < text@.len() && !('0' <= #[trigger] text@[i] <= '9');
        let part = text::unsigned_part(text@);
        if text@[0] == '+' || text@[0] == '-' {
            assert(part[i - 1] == text@[i]);
        } else {
            assert(part[i] == text@[i]);
        }
    }
}

/// Whether a character stands for itself in an address.
pub open spec fn stands_for_itself(c: char) -> bool {
    ||| 'a' <= c <= 'z'
    ||| 'A' <= c <= 'Z'
    ||| '0' <= c <= '9'
    ||| c == '-' || c == '_' || c == '.' || c == '!' || c == '~' || c == '*' || c == '\''
    ||| c == '(' || c == ')'
}

/// A component of an address holds nothing that would end it: each of its characters stands for
/// itself or belongs to an escape.
pub proof fn law_components_end_where_they_end(whole: &str, r: String, i: int)
    requires
        call_ensures(text::uri_component, (whole,), r),
        0 <= i < r@.len(),
    ensures
        stands_for_itself(r@[i]) || r@[i] == '%',
{
    lemma_escaped(vstd::utf8::encode_utf8(whole@), i);
}

proof fn lemma_escaped(bytes: Seq<u8>, i: int)
    requires
        0 <= i < text::escaped_bytes(bytes).len(),
    ensures
        stands_for_itself(text::escaped_bytes(bytes)[i]) || text::escaped_bytes(bytes)[i] == '%',
    decreases bytes.len(),
{
    if bytes.len() > 0 {
        let rest = text::escaped_bytes(bytes.drop_last());
        if i < rest.len() {
            lemma_escaped(bytes.drop_last(), i);
        } else {
            let b = bytes.last();
            let d = (b / 16) as int;
            let e = (b % 16) as int;
            if text::is_plain_byte(b) {
                assert(text::escaped_bytes(bytes)[i] == b as char);
            } else {
                assert(stands_for_itself(text::upper_hex_char(d)));
                assert(stands_for_itself(text::upper_hex_char(e)));
            }
        }
    }
}

/// Texts are the same exactly if their characters are; a part is found exactly if it stands
/// somewhere.
pub proof fn law_texts_are_their_characters(
    a: &str,
    b: &str,
    same: bool,
    found: bool,
    begins: bool,
    both: String,
)
    requires
        call_ensures(text::same, (a, b), same),
        call_ensures(text::contains, (a, b), found),
        call_ensures(text::starts_with, (a, b), begins),
        call_ensures(text::joined, (a, b), both),
    ensures
        same <==> a@ == b@,
        found <==> exists|front: Seq<char>, back: Seq<char>|
            a@ == #[trigger] (front + b@ + back),
        begins <==> exists|back: Seq<char>| a@ == #[trigger] (b@ + back),
        both@ == a@ + b@,
{
    let n = b@.len() as int;
    if found {
        let at = choose|at: int| text::stands_at(a@, b@, at);
        assert(a@ =~= a@.take(at) + b@ + a@.skip(at + n)) by {
            assert(a@.subrange(at, at + n) == b@);
            assert forall|i: int| 0 <= i < a@.len() implies a@[i] == (a@.take(at) + b@ + a@.skip(
                at + n,
            ))[i] by {
                if at <= i < at + n {
                    assert(a@.subrange(at, at + n)[i - at] == a@[i]);
                }
            }
        }
    }
    if exists|front: Seq<char>, back: Seq<char>| a@ == #[trigger] (front + b@ + back) {
        let (front, back) = choose|front: Seq<char>, back: Seq<char>|
            a@ == #[trigger] (front + b@ + back);
        let at = front.len() as int;
        assert(a@.subrange(at, at + n) =~= b@);
        assert(text::stands_at(a@, b@, at));
    }
    if begins {
        assert(a@ =~= b@ + a@.skip(n)) by {
            assert(a@.subrange(0, n) == b@);
            assert forall|i: int| 0 <= i < a@.len() implies a@[i] == (b@ + a@.skip(n))[i] by {
                if i < n {
                    assert(a@.subrange(0, n)[i] == a@[i]);
                }
            }
        }
    }
    if exists|back: Seq<char>| a@ == #[trigger] (b@ + back) {
        let back = choose|back: Seq<char>| a@ == #[trigger] (b@ + back);
        assert(a@.subrange(0, n) =~= b@);
    }
}

/// A number is cut towards zero to 32 bits as it is to 64, and held at their ends.
pub proof fn law_numbers_are_held_in_integers(x: Double, small: i32, large: i64)
    requires
        call_ensures(Double::truncated_i32, (x,), small),
        call_ensures(Double::truncated, (x,), large),
    ensures
        i32::MIN <= large <= i32::MAX ==> small == large,
        large > i32::MAX ==> small == i32::MAX,
        large < i32::MIN ==> small == i32::MIN,
{
}

} // verus!
