//! Exact decimal numbers and their wire codec.
//!
//! Prices and quantities travel as decimal-string tokens such as `"298.5"`.
//! A [`Decimal`] keeps the token's exact value as an integer mantissa and a
//! scale (the number of fractional digits), so that encoding and decoding
//! never lose precision.

use vstd::prelude::*;

use crate::strutil::{
    all_digits, char_digit_val, char_is_digit, chars_of, digit_char, digit_to_char, digit_val,
    digits_val, first_index_from, is_digit, lemma_uint_chars_val, push_uint, uint_chars,
};

verus! {

/// Largest mantissa magnitude the codec accepts (`2^96 - 1`, the bound of
/// 96-bit decimal libraries this wire format is used with).
pub const MANTISSA_MAX: u128 = 79228162514264337593543950335;

/// Largest scale (number of fractional digits) the codec accepts.
pub const SCALE_MAX: u32 = 28;

/// An exact decimal number: `mantissa / 10^scale`.
#[derive(Clone, Copy, Debug, PartialEq, Eq, Structural)]
pub struct Decimal {
    /// Signed digits of the number.
    pub mantissa: i128,
    /// How many of the mantissa's low digits lie right of the decimal point.
    pub scale: u32,
}

/// `10^k`.
pub open spec fn pow10(k: nat) -> nat
    decreases k,
{
    if k == 0 {
        1
    } else {
        10 * pow10((k - 1) as nat)
    }
}

pub proof fn lemma_pow10_pos(k: nat)
    ensures
        pow10(k) >= 1,
    decreases k,
{
    if k > 0 {
        lemma_pow10_pos((k - 1) as nat);
    }
}

pub proof fn lemma_pow10_mono(a: nat, b: nat)
    requires
        a <= b,
    ensures
        pow10(a) <= pow10(b),
    decreases b,
{
    if a < b {
        lemma_pow10_mono(a, (b - 1) as nat);
        lemma_pow10_pos((b - 1) as nat);
    }
}

pub proof fn lemma_pow10_28()
    ensures
        pow10(28) == 10000000000000000000000000000nat,
{
    reveal_with_fuel(pow10, 30);
}

/// Magnitude of an integer.
pub open spec fn nat_abs(m: int) -> nat {
    if m < 0 {
        (-m) as nat
    } else {
        m as nat
    }
}

impl Decimal {
    /// The values the codec can carry exactly.
    pub open spec fn wf(&self) -> bool {
        &&& nat_abs(self.mantissa as int) <= MANTISSA_MAX as nat
        &&& self.scale <= SCALE_MAX
    }

    /// Whether the value lies in the codec's bounds, decided executably
    /// — for callers that build a decimal from raw fields.
    pub fn is_wf(&self) -> (r: bool)
        ensures
            r == self.wf(),
    {
        self.scale <= SCALE_MAX && -(MANTISSA_MAX as i128) <= self.mantissa && self.mantissa
            <= MANTISSA_MAX as i128
    }

    /// A decimal from signed digits and a scale, as in `new(2985, 1)`
    /// for `298.5`.
    pub fn new(mantissa: i64, scale: u32) -> (r: Decimal)
        requires
            scale <= SCALE_MAX,
        ensures
            r == (Decimal { mantissa: mantissa as i128, scale }),
            r.wf(),
    {
        Decimal { mantissa: mantissa as i128, scale }
    }
}

/// Fixed-width decimal text of `r`'s low `w` digits, zero-padded.
pub open spec fn frac_chars(r: nat, w: nat) -> Seq<char>
    decreases w,
{
    if w == 0 {
        Seq::<char>::empty()
    } else {
        frac_chars(r / 10, (w - 1) as nat).push(digit_char((r % 10) as int))
    }
}

pub proof fn lemma_frac_chars_val(r: nat, w: nat)
    requires
        r < pow10(w),
    ensures
        digits_val(frac_chars(r, w)) == r,
        all_digits(frac_chars(r, w)),
        frac_chars(r, w).len() == w,
    decreases w,
{
    if w == 0 {
        assert(pow10(0) == 1);
    } else {
        assert(pow10(w) == 10 * pow10((w - 1) as nat));
        assert(r / 10 < pow10((w - 1) as nat)) by {
            if r / 10 >= pow10((w - 1) as nat) {
                assert(r >= 10 * (r / 10)) by (nonlinear_arith);
                assert(10 * (r / 10) >= 10 * pow10((w - 1) as nat)) by (nonlinear_arith)
                    requires
                        r / 10 >= pow10((w - 1) as nat),
                ;
            }
        }
        lemma_frac_chars_val(r / 10, (w - 1) as nat);
        let s = frac_chars(r, w);
        let p = frac_chars(r / 10, (w - 1) as nat);
        assert(s.drop_last() =~= p);
        assert(digits_val(s) == digits_val(p) * 10 + digit_val(s.last()));
        assert(digits_val(s) == (r / 10) * 10 + r % 10);
        assert(r == (r / 10) * 10 + r % 10) by (nonlinear_arith);
        assert forall|i: int| 0 <= i < s.len() implies is_digit(#[trigger] s[i]) by {
            if i < p.len() {
                assert(s[i] == p[i]);
            } else {
                assert(s[i] == digit_char((r % 10) as int));
            }
        }
    }
}

/// The wire text of a decimal: optional minus sign, the integer digits,
/// then `.` and exactly `scale` fractional digits when the scale is
/// nonzero.  `Decimal { mantissa: 2985, scale: 1 }` reads `298.5`;
/// `Decimal { mantissa: 100, scale: 0 }` reads `100`.
pub open spec fn spec_decimal_text(d: Decimal) -> Seq<char> {
    let a = nat_abs(d.mantissa as int);
    let p = pow10(d.scale as nat);
    let sign: Seq<char> = if d.mantissa < 0 {
        seq!['-']
    } else {
        Seq::<char>::empty()
    };
    if d.scale == 0 {
        sign + uint_chars(a)
    } else {
        sign + uint_chars(a / p) + seq!['.'] + frac_chars(a % p, d.scale as nat)
    }
}

/// `10^k`, computed.
pub fn pow10_exec(k: u32) -> (r: u128)
    requires
        k <= SCALE_MAX,
    ensures
        r as nat == pow10(k as nat),
{
    let mut p: u128 = 1;
    let mut i: u32 = 0;
    while i < k
        invariant
            i <= k,
            k <= SCALE_MAX,
            p as nat == pow10(i as nat),
        decreases k - i,
    {
        proof {
            lemma_pow10_mono((i + 1) as nat, 28);
            lemma_pow10_28();
            assert(pow10((i + 1) as nat) == 10 * pow10(i as nat));
        }
        p = p * 10;
        i = i + 1;
    }
    p
}

/// Appends the zero-padded low `w` digits of `r` to `out`.
pub fn push_frac(out: &mut String, r: u128, w: u32)
    ensures
        final(out)@ == old(out)@ + frac_chars(r as nat, w as nat),
    decreases w,
{
    if w == 0 {
        proof {
            assert(final(out)@ =~= old(out)@ + frac_chars(r as nat, 0));
        }
    } else {
        push_frac(out, r / 10, w - 1);
        out.push(digit_to_char((r % 10) as u8));
        proof {
            assert(final(out)@ =~= old(out)@ + frac_chars(r as nat, w as nat));
        }
    }
}

/// Renders `d` as its wire token.
pub fn format_decimal(d: &Decimal) -> (r: String)
    requires
        d.wf(),
    ensures
        r@ == spec_decimal_text(*d),
{
    let neg = d.mantissa < 0;
    let a: u128 = if d.mantissa < 0 {
        (-d.mantissa) as u128
    } else {
        d.mantissa as u128
    };
    let mut out = String::new();
    if neg {
        out.push('-');
    }
    if d.scale == 0 {
        push_uint(&mut out, a);
        proof {
            assert(out@ =~= spec_decimal_text(*d));
        }
    } else {
        let p = pow10_exec(d.scale);
        proof {
            lemma_pow10_pos(d.scale as nat);
        }
        push_uint(&mut out, a / p);
        out.push('.');
        push_frac(&mut out, a % p, d.scale);
        proof {
            assert(out@ =~= spec_decimal_text(*d));
        }
    }
    out
}

/// What a wire token means: an optional minus sign, one or more integer
/// digits, and an optional point followed by one or more fractional
/// digits, within the mantissa and scale bounds.  Anything else is
/// refused.
pub open spec fn spec_parse_decimal(s: Seq<char>) -> Option<Decimal> {
    let neg = s.len() > 0 && s[0] == '-';
    let body = if neg {
        s.subrange(1, s.len() as int)
    } else {
        s
    };
    let d = first_index_from(body, 0, '.');
    if d < 0 {
        if body.len() >= 1 && all_digits(body) && digits_val(body) <= MANTISSA_MAX as nat {
            Some(
                Decimal {
                    mantissa: if neg {
                        (-(digits_val(body) as int)) as i128
                    } else {
                        digits_val(body) as i128
                    },
                    scale: 0,
                },
            )
        } else {
            None
        }
    } else {
        let ip = body.subrange(0, d);
        let fp = body.subrange(d + 1, body.len() as int);
        if ip.len() >= 1 && fp.len() >= 1 && all_digits(ip) && all_digits(fp) && fp.len()
            <= SCALE_MAX as nat && digits_val(ip + fp) <= MANTISSA_MAX as nat {
            Some(
                Decimal {
                    mantissa: if neg {
                        (-(digits_val(ip + fp) as int)) as i128
                    } else {
                        digits_val(ip + fp) as i128
                    },
                    scale: fp.len() as u32,
                },
            )
        } else {
            None
        }
    }
}

pub proof fn lemma_pow10_add(a: nat, b: nat)
    ensures
        pow10(a + b) == pow10(a) * pow10(b),
    decreases b,
{
    if b == 0 {
        assert(pow10(a) * 1 == pow10(a)) by (nonlinear_arith);
    } else {
        lemma_pow10_add(a, (b - 1) as nat);
        assert(pow10(a + b) == 10 * pow10((a + b - 1) as nat));
        assert(10 * (pow10(a) * pow10((b - 1) as nat)) == pow10(a) * (10 * pow10(
            (b - 1) as nat,
        ))) by (nonlinear_arith);
    }
}

/// Concatenated digit strings read as the left value shifted by the
/// right string's width, plus the right value.
pub proof fn lemma_digits_val_concat(t: Seq<char>, u: Seq<char>)
    ensures
        digits_val(t + u) == digits_val(t) * pow10(u.len()) + digits_val(u),
    decreases u.len(),
{
    if u.len() == 0 {
        assert(t + u =~= t);
        assert(digits_val(t) * 1 == digits_val(t)) by (nonlinear_arith);
    } else {
        let u0 = u.drop_last();
        lemma_digits_val_concat(t, u0);
        assert((t + u).drop_last() =~= t + u0);
        assert(digits_val(t + u) == digits_val(t + u0) * 10 + digit_val(u.last()));
        assert(digits_val(u) == digits_val(u0) * 10 + digit_val(u.last()));
        assert(pow10(u.len()) == 10 * pow10(u0.len()));
        assert((digits_val(t) * pow10(u0.len()) + digits_val(u0)) * 10 == digits_val(t) * (10
            * pow10(u0.len())) + digits_val(u0) * 10) by (nonlinear_arith);
        assert(digits_val(t) * (10 * pow10(u0.len())) == digits_val(t) * pow10(u.len()));
    }
}

/// The value read so far, given digits already accumulated before `t`.
pub open spec fn acc_val(start: nat, t: Seq<char>) -> nat {
    start * pow10(t.len()) + digits_val(t)
}

proof fn lemma_acc_val_extend(start: nat, t: Seq<char>, u: Seq<char>)
    ensures
        acc_val(start, t + u) == acc_val(start, t) * pow10(u.len()) + digits_val(u),
        acc_val(start, t + u) >= acc_val(start, t),
{
    lemma_digits_val_concat(t, u);
    lemma_pow10_add(t.len(), u.len());
    assert(start * (pow10(t.len()) * pow10(u.len())) == (start * pow10(t.len())) * pow10(
        u.len(),
    )) by (nonlinear_arith);
    assert((start * pow10(t.len())) * pow10(u.len()) + digits_val(t) * pow10(u.len()) == (start
        * pow10(t.len()) + digits_val(t)) * pow10(u.len())) by (nonlinear_arith);
    lemma_pow10_pos(u.len());
    assert(acc_val(start, t) * pow10(u.len()) >= acc_val(start, t) * 1) by (nonlinear_arith)
        requires
            pow10(u.len()) >= 1,
    ;
    assert(acc_val(start, t) * 1 == acc_val(start, t)) by (nonlinear_arith);
}

/// Reads the digit characters of `s` in `[from, to)` into an accumulator
/// that already holds `start`, refusing non-digits and values over the
/// mantissa bound.
fn read_digits(s: &Vec<char>, from: usize, to: usize, start: u128) -> (r: Option<u128>)
    requires
        from <= to <= s@.len(),
        start <= MANTISSA_MAX,
    ensures
        ({
            let piece = s@.subrange(from as int, to as int);
            match r {
                Some(v) => all_digits(piece) && v as nat == acc_val(start as nat, piece) && v
                    <= MANTISSA_MAX,
                None => !(all_digits(piece) && acc_val(start as nat, piece)
                    <= MANTISSA_MAX as nat),
            }
        }),
{
    let ghost piece = s@.subrange(from as int, to as int);
    let mut acc: u128 = start;
    let mut i: usize = from;
    proof {
        assert(s@.subrange(from as int, from as int) =~= Seq::<char>::empty());
        assert(pow10(0) == 1);
    }
    while i < to
        invariant
            from <= i <= to <= s@.len(),
            piece == s@.subrange(from as int, to as int),
            acc <= MANTISSA_MAX,
            all_digits(s@.subrange(from as int, i as int)),
            acc as nat == acc_val(start as nat, s@.subrange(from as int, i as int)),
        decreases to - i,
    {
        let ghost pre = s@.subrange(from as int, i as int);
        let c = s[i];
        if !char_is_digit(c) {
            proof {
                assert(piece[i - from] == c);
            }
            return None;
        }
        let dv = char_digit_val(c);
        proof {
            assert(pre.push(c) =~= s@.subrange(from as int, (i + 1) as int));
            assert(pre.push(c).drop_last() =~= pre);
            assert(digits_val(pre.push(c)) == digits_val(pre) * 10 + digit_val(c));
            assert(pow10(pre.push(c).len()) == 10 * pow10(pre.len()));
            assert(acc_val(start as nat, pre.push(c)) == acc_val(start as nat, pre) * 10
                + digit_val(c)) by {
                assert(start as nat * (10 * pow10(pre.len())) == (start as nat * pow10(pre.len()))
                    * 10) by (nonlinear_arith);
            }
        }
        if acc > (MANTISSA_MAX - dv as u128) / 10 {
            proof {
                let stepped = pre.push(c);
                assert(acc_val(start as nat, stepped) > MANTISSA_MAX as nat) by {
                    assert(acc as nat > ((MANTISSA_MAX - dv as u128) as nat) / 10);
                    assert(acc as nat * 10 > MANTISSA_MAX as nat - dv as nat) by (nonlinear_arith)
                        requires
                            acc as nat > ((MANTISSA_MAX - dv as u128) as nat) / 10,
                    ;
                }
                let rest = s@.subrange((i + 1) as int, to as int);
                assert(stepped + rest =~= piece);
                lemma_acc_val_extend(start as nat, stepped, rest);
            }
            return None;
        }
        proof {
            assert(acc as nat * 10 + dv as nat <= MANTISSA_MAX as nat) by (nonlinear_arith)
                requires
                    acc as nat <= ((MANTISSA_MAX - dv as u128) as nat) / 10,
                    dv < 10,
            ;
        }
        acc = acc * 10 + dv as u128;
        i = i + 1;
        proof {
            assert(s@.subrange(from as int, i as int) =~= pre.push(c));
        }
    }
    proof {
        assert(s@.subrange(from as int, i as int) =~= piece);
    }
    Some(acc)
}

/// Parses a wire token into a decimal, exactly as [`spec_parse_decimal`]
/// reads it.
pub fn parse_decimal(s: &str) -> (r: Option<Decimal>)
    ensures
        r == spec_parse_decimal(s@),
        r matches Some(d) ==> d.wf(),
{
    let cs = chars_of(s);
    let n = cs.len();
    let neg = n > 0 && cs[0] == '-';
    let start: usize = if neg {
        1
    } else {
        0
    };
    let ghost body = if neg {
        s@.subrange(1, s@.len() as int)
    } else {
        s@
    };
    proof {
        if !neg {
            assert(body =~= cs@.subrange(start as int, n as int));
        } else {
            assert(body =~= cs@.subrange(start as int, n as int));
        }
    }
    // find the first dot
    let mut i: usize = start;
    let mut dot: usize = 0;
    let mut has_dot = false;
    while i < n
        invariant_except_break
            !has_dot,
            first_index_from(body, 0, '.') == first_index_from(body, i - start, '.'),
        invariant
            start <= i <= n,
            n == cs@.len(),
            body == cs@.subrange(start as int, n as int),
        ensures
            has_dot ==> start <= dot < n && first_index_from(body, 0, '.') == dot - start,
            !has_dot ==> first_index_from(body, 0, '.') == -1,
        decreases n - i,
    {
        if cs[i] == '.' {
            dot = i;
            has_dot = true;
            proof {
                assert(body[i - start] == '.');
                assert(first_index_from(body, i - start, '.') == i - start);
            }
            break ;
        }
        proof {
            assert(body[i - start] != '.');
        }
        i = i + 1;
    }
    proof {
        if !has_dot {
            assert(first_index_from(body, 0, '.') == -1);
        }
    }
    if !has_dot {
        if n == start {
            return None;
        }
        let v = match read_digits(&cs, start, n, 0) {
            Some(v) => v,
            None => {
                proof {
                    assert(acc_val(0, body) == 0 * pow10(body.len()) + digits_val(body));
                    assert(0 * pow10(body.len()) == 0) by (nonlinear_arith);
                }
                return None;
            },
        };
        proof {
            assert(acc_val(0, body) == digits_val(body)) by {
                assert(0 * pow10(body.len()) == 0) by (nonlinear_arith);
            }
        }
        let m: i128 = if neg {
            -(v as i128)
        } else {
            v as i128
        };
        Some(Decimal { mantissa: m, scale: 0 })
    } else {
        let ghost d = dot - start;
        let ghost ip = body.subrange(0, d as int);
        let ghost fp = body.subrange(d as int + 1, body.len() as int);
        if dot == start || n - dot - 1 == 0 {
            return None;
        }
        if n - dot - 1 > SCALE_MAX as usize {
            return None;
        }
        let ipv = match read_digits(&cs, start, dot, 0) {
            Some(v) => v,
            None => {
                proof {
                    assert(ip =~= cs@.subrange(start as int, dot as int));
                    lemma_ip_fail(ip, fp);
                }
                return None;
            },
        };
        proof {
            assert(ip =~= cs@.subrange(start as int, dot as int));
            assert(acc_val(0, ip) == digits_val(ip)) by {
                assert(0 * pow10(ip.len()) == 0) by (nonlinear_arith);
            }
        }
        let v = match read_digits(&cs, dot + 1, n, ipv) {
            Some(v) => v,
            None => {
                proof {
                    assert(fp =~= cs@.subrange(dot as int + 1, n as int));
                    lemma_digits_val_concat(ip, fp);
                    assert(acc_val(digits_val(ip), fp) == digits_val(ip + fp));
                }
                return None;
            },
        };
        proof {
            assert(fp =~= cs@.subrange(dot as int + 1, n as int));
            lemma_digits_val_concat(ip, fp);
            assert(acc_val(digits_val(ip), fp) == digits_val(ip + fp));
        }
        let m: i128 = if neg {
            -(v as i128)
        } else {
            v as i128
        };
        let scale: u32 = (n - dot - 1) as u32;
        Some(Decimal { mantissa: m, scale })
    }
}

/// When the integer part is malformed or oversized, the whole token is
/// refused whatever the fractional part holds.
proof fn lemma_ip_fail(ip: Seq<char>, fp: Seq<char>)
    requires
        !(all_digits(ip) && acc_val(0, ip) <= MANTISSA_MAX as nat),
    ensures
        !(all_digits(ip) && all_digits(fp) && digits_val(ip + fp) <= MANTISSA_MAX as nat),
{
    assert(acc_val(0, ip) == digits_val(ip)) by {
        assert(0 * pow10(ip.len()) == 0) by (nonlinear_arith);
    }
    if all_digits(ip) {
        lemma_digits_val_concat(ip, fp);
        lemma_pow10_pos(fp.len());
        assert(digits_val(ip) * pow10(fp.len()) >= digits_val(ip) * 1) by (nonlinear_arith)
            requires
                pow10(fp.len()) >= 1,
        ;
        assert(digits_val(ip) * 1 == digits_val(ip)) by (nonlinear_arith);
    }
}

proof fn lemma_no_dot_from(s: Seq<char>, i: int)
    requires
        all_digits(s),
        0 <= i <= s.len(),
    ensures
        first_index_from(s, i, '.') == -1,
    decreases s.len() - i,
{
    if i < s.len() {
        assert(is_digit(s[i]));
        assert(s[i] != '.');
        lemma_no_dot_from(s, i + 1);
    }
}

proof fn lemma_first_dot_at(s: Seq<char>, i: int, k: int)
    requires
        0 <= i <= k < s.len(),
        s[k] == '.',
        forall|j: int| i <= j < k ==> s[j] != '.',
    ensures
        first_index_from(s, i, '.') == k,
    decreases k - i,
{
    if i < k {
        lemma_first_dot_at(s, i + 1, k);
    }
}

/// Quantities never lose precision across encode and decode: reading a
/// decimal's wire text gives back exactly the decimal it was written
/// from.
pub proof fn lemma_decimal_round_trip(d: Decimal)
    requires
        d.wf(),
    ensures
        spec_parse_decimal(spec_decimal_text(d)) == Some(d),
{
    let a = nat_abs(d.mantissa as int);
    let neg = d.mantissa < 0;
    let text = spec_decimal_text(d);
    if d.scale == 0 {
        lemma_uint_chars_val(a);
        let u = uint_chars(a);
        if neg {
            assert(text =~= seq!['-'] + u);
            assert(text[0] == '-');
            let body = text.subrange(1, text.len() as int);
            assert(body =~= u);
            lemma_no_dot_from(body, 0);
            assert((-(digits_val(body) as int)) as i128 == d.mantissa);
        } else {
            assert(text =~= u);
            assert(is_digit(text[0]));
            assert(text[0] != '-');
            lemma_no_dot_from(text, 0);
            assert(digits_val(text) as i128 == d.mantissa);
        }
    } else {
        let p = pow10(d.scale as nat);
        lemma_pow10_pos(d.scale as nat);
        let ipn = a / p;
        let fpn = a % p;
        let u = uint_chars(ipn);
        let f = frac_chars(fpn, d.scale as nat);
        lemma_uint_chars_val(ipn);
        lemma_frac_chars_val(fpn, d.scale as nat);
        let sign: Seq<char> = if neg {
            seq!['-']
        } else {
            Seq::<char>::empty()
        };
        assert(text =~= sign + u + seq!['.'] + f);
        let body = if neg {
            text.subrange(1, text.len() as int)
        } else {
            text
        };
        assert(body =~= u + seq!['.'] + f);
        if neg {
            assert(text[0] == '-');
        } else {
            assert(body[0] == u[0]);
            assert(is_digit(body[0]));
            assert(body[0] != '-');
        }
        let k = u.len() as int;
        assert(body[k] == '.');
        assert(forall|j: int| 0 <= j < k ==> body[j] == u[j] && is_digit(u[j]));
        assert(forall|j: int| 0 <= j < k ==> #[trigger] body[j] != '.');
        lemma_first_dot_at(body, 0, k);
        let ip = body.subrange(0, k);
        let fp = body.subrange(k + 1, body.len() as int);
        assert(ip =~= u);
        assert(fp =~= f);
        lemma_digits_val_concat(ip, fp);
        assert(digits_val(ip + fp) == ipn * p + fpn);
        assert(a == p * (a / p) + a % p) by (nonlinear_arith)
            requires
                p >= 1,
        ;
        assert(ipn * p == p * ipn) by (nonlinear_arith);
        assert(digits_val(ip + fp) == a);
        if neg {
            assert((-(digits_val(ip + fp) as int)) as i128 == d.mantissa);
        } else {
            assert(digits_val(ip + fp) as i128 == d.mantissa);
        }
        assert(fp.len() as u32 == d.scale);
    }
}

/// What an integer token means: a decimal token with no fractional
/// part, within `i64` range.
pub open spec fn spec_parse_int64(s: Seq<char>) -> Option<i64> {
    match spec_parse_decimal(s) {
        Some(d) => {
            if d.scale == 0 && i64::MIN <= d.mantissa <= i64::MAX {
                Some(d.mantissa as i64)
            } else {
                None
            }
        },
        None => None,
    }
}

/// Parses an integer token.
pub fn parse_int64(s: &str) -> (r: Option<i64>)
    ensures
        r == spec_parse_int64(s@),
{
    match parse_decimal(s) {
        Some(d) => {
            if d.scale == 0 && i64::MIN as i128 <= d.mantissa && d.mantissa <= i64::MAX as i128 {
                Some(d.mantissa as i64)
            } else {
                None
            }
        },
        None => None,
    }
}

} // verus!
