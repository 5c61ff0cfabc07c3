//! The demo arithmetic evaluator behind the `calculate` tool: `+ - * / ^`,
//! `sqrt(...)` and parentheses over exact rationals, evaluated by
//! left-to-right scanning rather than operator precedence, so that
//! `1 + 2 * 3` is `9`. Division by zero, a negative square root, and any
//! value the evaluator cannot represent exactly all yield the
//! non-numeric marker rather than an error.

use vstd::prelude::*;
use vstd::string::StrSliceExecFns;
use vstd::string::StringExecFns;

verus! {

/// Magnitude bound on the numerator and denominator of every value the
/// evaluator can represent; anything beyond it becomes the non-numeric
/// marker.
pub const CALC_BOUND: i128 = 1000000000000000000;

/// An exact rational in lowest terms with a positive denominator.
pub struct Rat {
    pub num: i128,
    pub den: i128,
}

/// A value of the evaluator: an exact rational, or the non-numeric
/// marker for anything the evaluator cannot represent exactly.
pub enum CalcValue {
    Num(Rat),
    NotANumber,
}

pub open spec fn rat_wf(r: Rat) -> bool {
    &&& -CALC_BOUND <= r.num <= CALC_BOUND
    &&& 0 < r.den <= CALC_BOUND
}

pub open spec fn value_wf(v: CalcValue) -> bool {
    match v {
        CalcValue::Num(r) => rat_wf(r),
        CalcValue::NotANumber => true,
    }
}

/// Euclid's greatest common divisor.
pub open spec fn gcd_spec(a: nat, b: nat) -> nat
    decreases b,
{
    if b == 0 {
        a
    } else {
        gcd_spec(b, a % b)
    }
}

proof fn lemma_gcd_pos(a: nat, b: nat)
    requires
        a > 0 || b > 0,
    ensures
        gcd_spec(a, b) >= 1,
    decreases b,
{
    if b > 0 {
        lemma_gcd_pos(b, a % b);
    }
}

fn gcd_u128(a0: u128, b0: u128) -> (g: u128)
    requires
        a0 > 0 || b0 > 0,
    ensures
        g as nat == gcd_spec(a0 as nat, b0 as nat),
        g >= 1,
{
    let mut a = a0;
    let mut b = b0;
    while b != 0
        invariant
            gcd_spec(a as nat, b as nat) == gcd_spec(a0 as nat, b0 as nat),
            a > 0 || b > 0,
        decreases b,
    {
        let t = a % b;
        a = b;
        b = t;
    }
    proof {
        lemma_gcd_pos(a0 as nat, b0 as nat);
    }
    a
}

/// The numerator and denominator of `num / den` in lowest terms, the
/// sign carried by the numerator.
pub open spec fn reduced_ratio(num: int, den: int) -> (int, int)
    recommends
        den > 0,
{
    let a = if num < 0 {
        -num
    } else {
        num
    };
    let g = gcd_spec(a as nat, den as nat) as int;
    let rn0 = a / g;
    let rd = den / g;
    if num < 0 {
        (-rn0, rd)
    } else {
        (rn0, rd)
    }
}

/// The value standing for `num / den`: the reduced rational when it fits
/// the evaluator's bounds, the non-numeric marker otherwise.
pub open spec fn value_from_ratio(num: int, den: int) -> CalcValue
    recommends
        den > 0,
{
    let r = reduced_ratio(num, den);
    if r.1 < 1 || r.0 < -CALC_BOUND || r.0 > CALC_BOUND || r.1 > CALC_BOUND {
        CalcValue::NotANumber
    } else {
        CalcValue::Num(Rat { num: r.0 as i128, den: r.1 as i128 })
    }
}

fn value_from_parts(num: i128, den: i128) -> (v: CalcValue)
    requires
        0 < den,
        den as int <= CALC_BOUND as int * CALC_BOUND as int,
        -(2 * CALC_BOUND as int * CALC_BOUND as int) <= num as int <= 2 * CALC_BOUND as int
            * CALC_BOUND as int,
    ensures
        v == value_from_ratio(num as int, den as int),
        value_wf(v),
{
    let neg = num < 0;
    let a: u128 = if neg {
        (-num) as u128
    } else {
        num as u128
    };
    let d: u128 = den as u128;
    let g = gcd_u128(a, d);
    let rn0u: u128 = a / g;
    let rdu: u128 = d / g;
    proof {
        vstd::arithmetic::div_mod::lemma_div_nonincreasing(a as int, g as int);
        vstd::arithmetic::div_mod::lemma_div_nonincreasing(d as int, g as int);
        vstd::arithmetic::div_mod::lemma_div_pos_is_pos(a as int, g as int);
        vstd::arithmetic::div_mod::lemma_div_pos_is_pos(d as int, g as int);
    }
    let rn0: i128 = rn0u as i128;
    let rd: i128 = rdu as i128;
    let rn: i128 = if neg {
        -rn0
    } else {
        rn0
    };
    if rd < 1 || rn < -CALC_BOUND || rn > CALC_BOUND || rd > CALC_BOUND {
        CalcValue::NotANumber
    } else {
        CalcValue::Num(Rat { num: rn, den: rd })
    }
}

proof fn lemma_mul_bound(x: int, y: int, bx: int, by: int)
    by (nonlinear_arith)
    requires
        -bx <= x <= bx,
        -by <= y <= by,
        bx >= 0,
        by >= 0,
    ensures
        -(bx * by) <= x * y <= bx * by,
{
}

/// Addition of two in-bound rationals.
pub open spec fn value_add_spec(a: Rat, b: Rat) -> CalcValue {
    value_from_ratio(a.num * b.den + b.num * a.den, a.den * b.den)
}

/// Subtraction of two in-bound rationals.
pub open spec fn value_sub_spec(a: Rat, b: Rat) -> CalcValue {
    value_from_ratio(a.num * b.den - b.num * a.den, a.den * b.den)
}

/// Multiplication of two in-bound rationals.
pub open spec fn value_mul_spec(a: Rat, b: Rat) -> CalcValue {
    value_from_ratio(a.num * b.num, a.den * b.den)
}

/// Division of two in-bound rationals; dividing by zero yields the
/// non-numeric marker.
pub open spec fn value_div_spec(a: Rat, b: Rat) -> CalcValue {
    if b.num == 0 {
        CalcValue::NotANumber
    } else if b.num < 0 {
        value_from_ratio(-(a.num * b.den), -(a.den * b.num))
    } else {
        value_from_ratio(a.num * b.den, a.den * b.num)
    }
}

proof fn lemma_rat_products(a: Rat, b: Rat)
    requires
        rat_wf(a),
        rat_wf(b),
    ensures
        -(CALC_BOUND as int * CALC_BOUND as int) <= a.num * b.den <= CALC_BOUND as int
            * CALC_BOUND as int,
        -(CALC_BOUND as int * CALC_BOUND as int) <= b.num * a.den <= CALC_BOUND as int
            * CALC_BOUND as int,
        -(CALC_BOUND as int * CALC_BOUND as int) <= a.num * b.num <= CALC_BOUND as int
            * CALC_BOUND as int,
        0 < a.den * b.den <= CALC_BOUND as int * CALC_BOUND as int,
        -(CALC_BOUND as int * CALC_BOUND as int) <= a.den * b.num <= CALC_BOUND as int
            * CALC_BOUND as int,
        b.num != 0 ==> a.den * b.num != 0,
        b.num < 0 ==> a.den * b.num < 0,
        b.num > 0 ==> a.den * b.num > 0,
{
    lemma_mul_bound(a.num as int, b.den as int, CALC_BOUND as int, CALC_BOUND as int);
    lemma_mul_bound(b.num as int, a.den as int, CALC_BOUND as int, CALC_BOUND as int);
    lemma_mul_bound(a.num as int, b.num as int, CALC_BOUND as int, CALC_BOUND as int);
    lemma_mul_bound(a.den as int, b.num as int, CALC_BOUND as int, CALC_BOUND as int);
    lemma_mul_bound(a.den as int, b.den as int, CALC_BOUND as int, CALC_BOUND as int);
    assert(a.den * b.den > 0) by (nonlinear_arith)
        requires
            a.den > 0,
            b.den > 0,
    ;
    assert(b.num != 0 ==> a.den * b.num != 0) by (nonlinear_arith)
        requires
            a.den > 0,
    ;
    assert(b.num < 0 ==> a.den * b.num < 0) by (nonlinear_arith)
        requires
            a.den > 0,
    ;
    assert(b.num > 0 ==> a.den * b.num > 0) by (nonlinear_arith)
        requires
            a.den > 0,
    ;
}

fn value_add(a: &Rat, b: &Rat) -> (v: CalcValue)
    requires
        rat_wf(*a),
        rat_wf(*b),
    ensures
        v == value_add_spec(*a, *b),
        value_wf(v),
{
    proof {
        lemma_rat_products(*a, *b);
    }
    value_from_parts(a.num * b.den + b.num * a.den, a.den * b.den)
}

fn value_sub(a: &Rat, b: &Rat) -> (v: CalcValue)
    requires
        rat_wf(*a),
        rat_wf(*b),
    ensures
        v == value_sub_spec(*a, *b),
        value_wf(v),
{
    proof {
        lemma_rat_products(*a, *b);
    }
    value_from_parts(a.num * b.den - b.num * a.den, a.den * b.den)
}

fn value_mul(a: &Rat, b: &Rat) -> (v: CalcValue)
    requires
        rat_wf(*a),
        rat_wf(*b),
    ensures
        v == value_mul_spec(*a, *b),
        value_wf(v),
{
    proof {
        lemma_rat_products(*a, *b);
    }
    value_from_parts(a.num * b.num, a.den * b.den)
}

fn value_div(a: &Rat, b: &Rat) -> (v: CalcValue)
    requires
        rat_wf(*a),
        rat_wf(*b),
    ensures
        v == value_div_spec(*a, *b),
        value_wf(v),
{
    proof {
        lemma_rat_products(*a, *b);
    }
    if b.num == 0 {
        CalcValue::NotANumber
    } else if b.num < 0 {
        value_from_parts(-(a.num * b.den), -(a.den * b.num))
    } else {
        value_from_parts(a.num * b.den, a.den * b.num)
    }
}

/// Negation of an in-bound rational; the result is again in bounds and
/// in lowest terms.
pub open spec fn value_neg_spec(a: Rat) -> CalcValue {
    CalcValue::Num(Rat { num: (-a.num) as i128, den: a.den })
}

fn value_neg(a: &Rat) -> (v: CalcValue)
    requires
        rat_wf(*a),
    ensures
        v == value_neg_spec(*a),
        value_wf(v),
{
    CalcValue::Num(Rat { num: -a.num, den: a.den })
}

/// `base` multiplied into one, `e` times, each step reduced and
/// bound-checked.
pub open spec fn pow_accum_spec(base: Rat, e: nat) -> CalcValue
    decreases e,
{
    if e == 0 {
        CalcValue::Num(Rat { num: 1, den: 1 })
    } else {
        match pow_accum_spec(base, (e - 1) as nat) {
            CalcValue::NotANumber => CalcValue::NotANumber,
            CalcValue::Num(p) => value_mul_spec(p, base),
        }
    }
}

/// Largest exponent magnitude the `^` operator accepts; beyond it the
/// result is the non-numeric marker.
pub const CALC_MAX_EXPONENT: i128 = 10000;

/// Exponentiation. The exponent must be an integer of magnitude at most
/// `CALC_MAX_EXPONENT`; a negative exponent inverts the positive power,
/// and an inverted zero is the non-numeric marker.
pub open spec fn value_pow_spec(a: Rat, b: Rat) -> CalcValue {
    if b.den != 1 || b.num > CALC_MAX_EXPONENT || b.num < -CALC_MAX_EXPONENT {
        CalcValue::NotANumber
    } else if b.num >= 0 {
        pow_accum_spec(a, b.num as nat)
    } else {
        match pow_accum_spec(a, (-b.num) as nat) {
            CalcValue::NotANumber => CalcValue::NotANumber,
            CalcValue::Num(p) => value_div_spec(Rat { num: 1, den: 1 }, p),
        }
    }
}

fn pow_accum(base: &Rat, e: u64) -> (v: CalcValue)
    requires
        rat_wf(*base),
    ensures
        v == pow_accum_spec(*base, e as nat),
        value_wf(v),
{
    let mut acc = CalcValue::Num(Rat { num: 1, den: 1 });
    let mut i: u64 = 0;
    while i < e
        invariant
            rat_wf(*base),
            i <= e,
            acc == pow_accum_spec(*base, i as nat),
            value_wf(acc),
        decreases e - i,
    {
        acc = match acc {
            CalcValue::NotANumber => CalcValue::NotANumber,
            CalcValue::Num(p) => value_mul(&p, base),
        };
        i = i + 1;
    }
    acc
}

fn value_pow(a: &Rat, b: &Rat) -> (v: CalcValue)
    requires
        rat_wf(*a),
        rat_wf(*b),
    ensures
        v == value_pow_spec(*a, *b),
        value_wf(v),
{
    if b.den != 1 || b.num > CALC_MAX_EXPONENT || b.num < -CALC_MAX_EXPONENT {
        CalcValue::NotANumber
    } else if b.num >= 0 {
        pow_accum(a, b.num as u64)
    } else {
        match pow_accum(a, (-b.num) as u64) {
            CalcValue::NotANumber => CalcValue::NotANumber,
            CalcValue::Num(p) => value_div(&Rat { num: 1, den: 1 }, &p),
        }
    }
}

/// Whether `x` is a perfect square, and its exact nonnegative root.
pub open spec fn is_square(x: int) -> bool {
    exists|r: int| r >= 0 && #[trigger] (r * r) == x
}

pub open spec fn exact_sqrt(x: int) -> int {
    choose|r: int| r >= 0 && #[trigger] (r * r) == x
}

/// The square root of an in-bound rational in lowest terms: exact when
/// numerator and denominator are both perfect squares, the non-numeric
/// marker otherwise, and always the marker for a negative value.
pub open spec fn value_sqrt_spec(a: Rat) -> CalcValue {
    if a.num < 0 {
        CalcValue::NotANumber
    } else if is_square(a.num as int) && is_square(a.den as int) {
        CalcValue::Num(
            Rat { num: exact_sqrt(a.num as int) as i128, den: exact_sqrt(a.den as int) as i128 },
        )
    } else {
        CalcValue::NotANumber
    }
}

fn exact_sqrt_exec(x: i128) -> (r: Option<i128>)
    requires
        0 <= x <= CALC_BOUND,
    ensures
        match r {
            Some(v) => 0 <= v <= CALC_BOUND && v * v == x && is_square(x as int) && v as int
                == exact_sqrt(x as int),
            None => !is_square(x as int),
        },
{
    let mut lo: i128 = 0;
    let mut hi: i128 = 1000000001;
    proof {
        assert((1000000001 as int) * (1000000001 as int) > CALC_BOUND as int) by (nonlinear_arith);
    }
    while hi - lo > 1
        invariant
            0 <= lo < hi <= 1000000001,
            lo * lo <= x as int,
            (x as int) < hi * hi,
        decreases hi - lo,
    {
        let mid = lo + (hi - lo) / 2;
        assert(lo < mid < hi);
        proof {
            lemma_mul_bound(mid as int, mid as int, 1000000001, 1000000001);
            assert((1000000001 as int) * (1000000001 as int)
                < 0x7fffffffffffffffffffffffffffffff) by (nonlinear_arith);
        }
        if mid * mid <= x {
            lo = mid;
        } else {
            hi = mid;
        }
    }
    if lo * lo == x {
        proof {
            assert(is_square(x as int)) by {
                assert(lo as int >= 0 && (lo as int) * (lo as int) == x as int);
            }
            let c = exact_sqrt(x as int);
            assert(c >= 0 && c * c == x as int);
            assert(c == lo as int) by (nonlinear_arith)
                requires
                    c >= 0,
                    lo >= 0,
                    c * c == x as int,
                    (lo as int) * (lo as int) == x as int,
            ;
        }
        Some(lo)
    } else {
        proof {
            assert forall|t: int| !(t >= 0 && #[trigger] (t * t) == x as int) by {
                if t >= 0 && t * t == x as int {
                    if t <= lo {
                        assert(t * t <= lo * lo) by (nonlinear_arith)
                            requires
                                0 <= t <= lo,
                        ;
                    } else {
                        assert(t * t >= hi * hi) by (nonlinear_arith)
                            requires
                                t >= hi,
                                hi >= 0,
                        ;
                    }
                }
            }
        }
        None
    }
}

fn value_sqrt(a: &Rat) -> (v: CalcValue)
    requires
        rat_wf(*a),
    ensures
        v == value_sqrt_spec(*a),
        value_wf(v),
{
    if a.num < 0 {
        return CalcValue::NotANumber;
    }
    let rn = exact_sqrt_exec(a.num);
    let rd = exact_sqrt_exec(a.den);
    match (rn, rd) {
        (Some(n), Some(d)) => {
            proof {
                assert(d as int * d as int == a.den as int);
                assert(d >= 1) by (nonlinear_arith)
                    requires
                        d >= 0,
                        d as int * d as int == a.den as int,
                        a.den >= 1,
                ;
            }
            CalcValue::Num(Rat { num: n, den: d })
        },
        _ => CalcValue::NotANumber,
    }
}

/// One lexical unit of an expression.
#[derive(Clone, Copy, PartialEq, Eq, Structural)]
pub enum Token {
    Number { num: i128, den: i128 },
    Plus,
    Minus,
    Star,
    Slash,
    Caret,
    LParen,
    RParen,
    Sqrt,
}

pub open spec fn token_wf(t: Token) -> bool {
    match t {
        Token::Number { num, den } => 0 <= num <= CALC_BOUND && 1 <= den <= CALC_BOUND,
        _ => true,
    }
}

pub open spec fn toks_wf(s: Seq<Token>) -> bool {
    forall|i: int| 0 <= i < s.len() ==> token_wf(#[trigger] s[i])
}

pub open spec fn is_digit_char(c: char) -> bool {
    48 <= c as u32 <= 57
}

pub open spec fn digit_val(c: char) -> int {
    c as u32 - 48
}

/// Digits consumed from `pos` on, accumulated onto `acc`; `None` when
/// the literal would not fit the evaluator's bounds.
pub open spec fn scan_int_spec(s: Seq<char>, pos: int, acc: int) -> Option<(int, int)>
    decreases s.len() - pos,
{
    if 0 <= pos < s.len() && is_digit_char(s[pos]) {
        let acc2 = acc * 10 + digit_val(s[pos]);
        if acc2 > CALC_BOUND {
            None
        } else {
            scan_int_spec(s, pos + 1, acc2)
        }
    } else {
        Some((acc, pos))
    }
}

/// Fraction digits consumed from `pos` on: each one scales the
/// numerator and denominator by ten.
pub open spec fn scan_frac_spec(s: Seq<char>, pos: int, num: int, den: int) -> Option<
    (int, int, int),
>
    decreases s.len() - pos,
{
    if 0 <= pos < s.len() && is_digit_char(s[pos]) {
        let num2 = num * 10 + digit_val(s[pos]);
        let den2 = den * 10;
        if num2 > CALC_BOUND || den2 > CALC_BOUND {
            None
        } else {
            scan_frac_spec(s, pos + 1, num2, den2)
        }
    } else {
        Some((num, den, pos))
    }
}

/// A number literal read at `pos`: digits, then optionally a point and
/// more digits.
pub open spec fn lex_number_spec(s: Seq<char>, pos: int) -> Option<(Token, int)> {
    match scan_int_spec(s, pos, 0) {
        None => None,
        Some((v, p)) => if p < s.len() && s[p] == '.' {
            match scan_frac_spec(s, p + 1, v, 1) {
                None => None,
                Some((n, d, p2)) => Some((Token::Number { num: n as i128, den: d as i128 }, p2)),
            }
        } else {
            Some((Token::Number { num: v as i128, den: 1 }, p))
        },
    }
}

/// The token starting at `pos`, and the position after it.
pub open spec fn lex_token_spec(s: Seq<char>, pos: int) -> Option<(Token, int)>
    recommends
        0 <= pos < s.len(),
{
    let c = s[pos];
    if c == '+' {
        Some((Token::Plus, pos + 1))
    } else if c == '-' {
        Some((Token::Minus, pos + 1))
    } else if c == '*' {
        Some((Token::Star, pos + 1))
    } else if c == '/' {
        Some((Token::Slash, pos + 1))
    } else if c == '^' {
        Some((Token::Caret, pos + 1))
    } else if c == '(' {
        Some((Token::LParen, pos + 1))
    } else if c == ')' {
        Some((Token::RParen, pos + 1))
    } else if is_digit_char(c) {
        lex_number_spec(s, pos)
    } else if c == 's' {
        if pos + 3 < s.len() && s[pos + 1] == 'q' && s[pos + 2] == 'r' && s[pos + 3] == 't' {
            Some((Token::Sqrt, pos + 4))
        } else {
            None
        }
    } else {
        None
    }
}

/// The token sequence from `pos` to the end, or `None` on any character
/// that fits no token.
pub open spec fn tokenize_spec(s: Seq<char>, pos: int) -> Option<Seq<Token>>
    decreases s.len() - pos,
{
    if pos < 0 || pos >= s.len() {
        Some(Seq::empty())
    } else {
        match lex_token_spec(s, pos) {
            None => None,
            Some((t, p)) => if p <= pos || p > s.len() {
                None
            } else {
                match tokenize_spec(s, p) {
                    None => None,
                    Some(rest) => Some(seq![t] + rest),
                }
            },
        }
    }
}

fn scan_int(s: &Vec<char>, pos: usize, acc: i128) -> (r: Option<(i128, usize)>)
    requires
        pos <= s.len(),
        0 <= acc <= CALC_BOUND,
    ensures
        match r {
            Some((v, p)) => scan_int_spec(s@, pos as int, acc as int) == Some(
                (v as int, p as int),
            ) && 0 <= v <= CALC_BOUND && pos <= p <= s.len() && ((pos < s.len()
                && is_digit_char(s@[pos as int])) ==> pos < p),
            None => scan_int_spec(s@, pos as int, acc as int) is None,
        },
    decreases s.len() - pos,
{
    if pos < s.len() {
        let c = s[pos];
        let u = c as u32;
        if 48 <= u && u <= 57 {
            let acc2: i128 = acc * 10 + (u - 48) as i128;
            if acc2 > CALC_BOUND {
                return None;
            }
            return scan_int(s, pos + 1, acc2);
        }
    }
    Some((acc, pos))
}

fn scan_frac(s: &Vec<char>, pos: usize, num: i128, den: i128) -> (r: Option<(i128, i128, usize)>)
    requires
        pos <= s.len(),
        0 <= num <= CALC_BOUND,
        1 <= den <= CALC_BOUND,
    ensures
        match r {
            Some((n, d, p)) => scan_frac_spec(s@, pos as int, num as int, den as int) == Some(
                (n as int, d as int, p as int),
            ) && 0 <= n <= CALC_BOUND && 1 <= d <= CALC_BOUND && pos <= p <= s.len(),
            None => scan_frac_spec(s@, pos as int, num as int, den as int) is None,
        },
    decreases s.len() - pos,
{
    if pos < s.len() {
        let c = s[pos];
        let u = c as u32;
        if 48 <= u && u <= 57 {
            let num2: i128 = num * 10 + (u - 48) as i128;
            let den2: i128 = den * 10;
            if num2 > CALC_BOUND || den2 > CALC_BOUND {
                return None;
            }
            return scan_frac(s, pos + 1, num2, den2);
        }
    }
    Some((num, den, pos))
}

fn lex_number(s: &Vec<char>, pos: usize) -> (r: Option<(Token, usize)>)
    requires
        pos <= s.len(),
    ensures
        match r {
            Some((t, p)) => lex_number_spec(s@, pos as int) == Some((t, p as int)) && token_wf(t)
                && pos <= p <= s.len() && ((pos < s.len() && is_digit_char(s@[pos as int]))
                ==> pos < p),
            None => lex_number_spec(s@, pos as int) is None,
        },
{
    match scan_int(s, pos, 0) {
        None => None,
        Some((v, p)) => {
            if p < s.len() && s[p] == '.' {
                match scan_frac(s, p + 1, v, 1) {
                    None => None,
                    Some((n, d, p2)) => Some((Token::Number { num: n, den: d }, p2)),
                }
            } else {
                Some((Token::Number { num: v, den: 1 }, p))
            }
        },
    }
}

fn lex_token(s: &Vec<char>, pos: usize) -> (r: Option<(Token, usize)>)
    requires
        pos < s.len(),
    ensures
        match r {
            Some((t, p)) => lex_token_spec(s@, pos as int) == Some((t, p as int)) && token_wf(t)
                && pos < p <= s.len(),
            None => lex_token_spec(s@, pos as int) is None,
        },
{
    let c = s[pos];
    if c == '+' {
        Some((Token::Plus, pos + 1))
    } else if c == '-' {
        Some((Token::Minus, pos + 1))
    } else if c == '*' {
        Some((Token::Star, pos + 1))
    } else if c == '/' {
        Some((Token::Slash, pos + 1))
    } else if c == '^' {
        Some((Token::Caret, pos + 1))
    } else if c == '(' {
        Some((Token::LParen, pos + 1))
    } else if c == ')' {
        Some((Token::RParen, pos + 1))
    } else if 48 <= c as u32 && c as u32 <= 57 {
        lex_number(s, pos)
    } else if c == 's' {
        if s.len() - pos > 3 && s[pos + 1] == 'q' && s[pos + 2] == 'r' && s[pos + 3] == 't' {
            Some((Token::Sqrt, pos + 4))
        } else {
            None
        }
    } else {
        None
    }
}

fn tokenize(s: &Vec<char>, pos: usize) -> (r: Option<Vec<Token>>)
    requires
        pos <= s.len(),
    ensures
        match r {
            Some(toks) => tokenize_spec(s@, pos as int) == Some(toks@) && toks_wf(toks@),
            None => tokenize_spec(s@, pos as int) is None,
        },
    decreases s.len() - pos,
{
    if pos >= s.len() {
        let empty: Vec<Token> = Vec::new();
        return Some(empty);
    }
    match lex_token(s, pos) {
        None => None,
        Some((t, p)) => {
            match tokenize(s, p) {
                None => None,
                Some(mut rest) => {
                    rest.insert(0, t);
                    proof {
                        assert(rest@ =~= seq![t] + rest@.drop_first());
                    }
                    Some(rest)
                },
            }
        },
    }
}

/// Negation lifted over the non-numeric marker.
pub open spec fn lift_neg_spec(v: CalcValue) -> CalcValue {
    match v {
        CalcValue::NotANumber => CalcValue::NotANumber,
        CalcValue::Num(r) => value_neg_spec(r),
    }
}

/// Square root lifted over the non-numeric marker.
pub open spec fn lift_sqrt_spec(v: CalcValue) -> CalcValue {
    match v {
        CalcValue::NotANumber => CalcValue::NotANumber,
        CalcValue::Num(r) => value_sqrt_spec(r),
    }
}

pub open spec fn is_binop(t: Token) -> bool {
    t == Token::Plus || t == Token::Minus || t == Token::Star || t == Token::Slash || t
        == Token::Caret
}

/// One binary operator applied to two values; the non-numeric marker
/// absorbs every operation.
pub open spec fn apply_binop_spec(t: Token, v1: CalcValue, v2: CalcValue) -> CalcValue {
    match (v1, v2) {
        (CalcValue::Num(a), CalcValue::Num(b)) => if t == Token::Plus {
            value_add_spec(a, b)
        } else if t == Token::Minus {
            value_sub_spec(a, b)
        } else if t == Token::Star {
            value_mul_spec(a, b)
        } else if t == Token::Slash {
            value_div_spec(a, b)
        } else {
            value_pow_spec(a, b)
        },
        _ => CalcValue::NotANumber,
    }
}

/// A primary expression: a number literal, a parenthesised expression,
/// or `sqrt` of a parenthesised expression.
pub open spec fn parse_primary_spec(s: Seq<Token>, pos: int) -> Option<(CalcValue, int)>
    decreases s.len() - pos, 1int,
{
    if pos < 0 || pos >= s.len() {
        None
    } else {
        match s[pos] {
            Token::Number { num, den } => Some((value_from_ratio(num as int, den as int), pos + 1)),
            Token::LParen => match parse_expr_spec(s, pos + 1) {
                None => None,
                Some((v, p)) => if 0 <= p < s.len() && s[p] == Token::RParen {
                    Some((v, p + 1))
                } else {
                    None
                },
            },
            Token::Sqrt => if pos + 1 < s.len() && s[pos + 1] == Token::LParen {
                match parse_expr_spec(s, pos + 2) {
                    None => None,
                    Some((v, p)) => if 0 <= p < s.len() && s[p] == Token::RParen {
                        Some((lift_sqrt_spec(v), p + 1))
                    } else {
                        None
                    },
                }
            } else {
                None
            },
            _ => None,
        }
    }
}

/// A term: a primary expression with an optional leading minus.
pub open spec fn parse_term_spec(s: Seq<Token>, pos: int) -> Option<(CalcValue, int)>
    decreases s.len() - pos, 2int,
{
    if 0 <= pos < s.len() && s[pos] == Token::Minus {
        match parse_primary_spec(s, pos + 1) {
            None => None,
            Some((v, p)) => Some((lift_neg_spec(v), p)),
        }
    } else {
        parse_primary_spec(s, pos)
    }
}

/// The left-scan loop: each operator is applied to the value
/// accumulated so far and the term after it, strictly left to right.
pub open spec fn parse_ops_spec(s: Seq<Token>, pos: int, acc: CalcValue) -> Option<
    (CalcValue, int),
>
    decreases s.len() - pos, 4int,
{
    if 0 <= pos < s.len() && is_binop(s[pos]) {
        match parse_term_spec(s, pos + 1) {
            None => None,
            Some((v2, p2)) => if p2 <= pos + 1 || p2 > s.len() {
                None
            } else {
                parse_ops_spec(s, p2, apply_binop_spec(s[pos], acc, v2))
            },
        }
    } else {
        Some((acc, pos))
    }
}

/// An expression: a leading term, then the left-scan operator loop.
pub open spec fn parse_expr_spec(s: Seq<Token>, pos: int) -> Option<(CalcValue, int)>
    decreases s.len() - pos, 3int,
{
    match parse_term_spec(s, pos) {
        None => None,
        Some((v, p)) => if p <= pos || p > s.len() {
            None
        } else {
            parse_ops_spec(s, p, v)
        },
    }
}

/// The value of a whole token sequence: the marker when parsing fails
/// or leaves trailing tokens.
pub open spec fn eval_tokens_spec(toks: Seq<Token>) -> CalcValue {
    match parse_expr_spec(toks, 0) {
        None => CalcValue::NotANumber,
        Some((v, p)) => if p == toks.len() {
            v
        } else {
            CalcValue::NotANumber
        },
    }
}

fn apply_binop(t: &Token, v1: &CalcValue, v2: &CalcValue) -> (v: CalcValue)
    requires
        value_wf(*v1),
        value_wf(*v2),
    ensures
        v == apply_binop_spec(*t, *v1, *v2),
        value_wf(v),
{
    match (v1, v2) {
        (CalcValue::Num(a), CalcValue::Num(b)) => {
            match t {
                Token::Plus => value_add(a, b),
                Token::Minus => value_sub(a, b),
                Token::Star => value_mul(a, b),
                Token::Slash => value_div(a, b),
                _ => value_pow(a, b),
            }
        },
        _ => CalcValue::NotANumber,
    }
}

fn parse_primary(s: &Vec<Token>, pos: usize) -> (r: Option<(CalcValue, usize)>)
    requires
        toks_wf(s@),
        pos <= s.len(),
    ensures
        match r {
            Some((v, p)) => parse_primary_spec(s@, pos as int) == Some((v, p as int)) && value_wf(
                v,
            ) && pos < p <= s.len(),
            None => parse_primary_spec(s@, pos as int) is None,
        },
    decreases s.len() - pos, 1int,
{
    if pos >= s.len() {
        return None;
    }
    match s[pos] {
        Token::Number { num, den } => {
            assert(token_wf(s@[pos as int]));
            Some((value_from_parts(num, den), pos + 1))
        },
        Token::LParen => {
            match parse_expr(s, pos + 1) {
                None => None,
                Some((v, p)) => {
                    if p < s.len() && s[p] == Token::RParen {
                        Some((v, p + 1))
                    } else {
                        None
                    }
                },
            }
        },
        Token::Sqrt => {
            if s.len() - pos > 1 && s[pos + 1] == Token::LParen {
                match parse_expr(s, pos + 2) {
                    None => None,
                    Some((v, p)) => {
                        if p < s.len() && s[p] == Token::RParen {
                            let sv = match &v {
                                CalcValue::NotANumber => CalcValue::NotANumber,
                                CalcValue::Num(a) => value_sqrt(a),
                            };
                            Some((sv, p + 1))
                        } else {
                            None
                        }
                    },
                }
            } else {
                None
            }
        },
        _ => None,
    }
}

fn parse_term(s: &Vec<Token>, pos: usize) -> (r: Option<(CalcValue, usize)>)
    requires
        toks_wf(s@),
        pos <= s.len(),
    ensures
        match r {
            Some((v, p)) => parse_term_spec(s@, pos as int) == Some((v, p as int)) && value_wf(v)
                && pos < p <= s.len(),
            None => parse_term_spec(s@, pos as int) is None,
        },
    decreases s.len() - pos, 2int,
{
    if pos < s.len() && s[pos] == Token::Minus {
        match parse_primary(s, pos + 1) {
            None => None,
            Some((v, p)) => {
                let nv = match &v {
                    CalcValue::NotANumber => CalcValue::NotANumber,
                    CalcValue::Num(a) => value_neg(a),
                };
                Some((nv, p))
            },
        }
    } else {
        parse_primary(s, pos)
    }
}

fn parse_ops(s: &Vec<Token>, pos: usize, acc: CalcValue) -> (r: Option<(CalcValue, usize)>)
    requires
        toks_wf(s@),
        pos <= s.len(),
        value_wf(acc),
    ensures
        match r {
            Some((v, p)) => parse_ops_spec(s@, pos as int, acc) == Some((v, p as int)) && value_wf(
                v,
            ) && pos <= p <= s.len(),
            None => parse_ops_spec(s@, pos as int, acc) is None,
        },
    decreases s.len() - pos, 4int,
{
    if pos < s.len() {
        let t = s[pos];
        let binop = match t {
            Token::Plus | Token::Minus | Token::Star | Token::Slash | Token::Caret => true,
            _ => false,
        };
        if binop {
            return match parse_term(s, pos + 1) {
                None => None,
                Some((v2, p2)) => {
                    let acc2 = apply_binop(&t, &acc, &v2);
                    parse_ops(s, p2, acc2)
                },
            };
        }
    }
    Some((acc, pos))
}

fn parse_expr(s: &Vec<Token>, pos: usize) -> (r: Option<(CalcValue, usize)>)
    requires
        toks_wf(s@),
        pos <= s.len(),
    ensures
        match r {
            Some((v, p)) => parse_expr_spec(s@, pos as int) == Some((v, p as int)) && value_wf(v)
                && pos < p <= s.len(),
            None => parse_expr_spec(s@, pos as int) is None,
        },
    decreases s.len() - pos, 3int,
{
    match parse_term(s, pos) {
        None => None,
        Some((v, p)) => parse_ops(s, p, v),
    }
}

/// The characters of an expression with every space removed; spaces
/// are stripped before anything else is read.
pub open spec fn without_spaces(s: Seq<char>) -> Seq<char>
    decreases s.len(),
{
    if s.len() == 0 {
        s
    } else if s[0] == ' ' {
        without_spaces(s.drop_first())
    } else {
        seq![s[0]] + without_spaces(s.drop_first())
    }
}

proof fn lemma_without_spaces_push(s: Seq<char>, c: char)
    ensures
        without_spaces(s.push(c)) == without_spaces(s) + (if c == ' ' {
            Seq::<char>::empty()
        } else {
            seq![c]
        }),
    decreases s.len(),
{
    let tailpart: Seq<char> = if c == ' ' {
        Seq::<char>::empty()
    } else {
        seq![c]
    };
    if s.len() == 0 {
        assert(s.push(c) =~= seq![c]);
        assert(seq![c].drop_first() =~= Seq::<char>::empty());
        assert(without_spaces(Seq::<char>::empty()) == Seq::<char>::empty());
        assert(without_spaces(s.push(c)) == without_spaces(seq![c]));
        assert(without_spaces(s.push(c)) =~= without_spaces(s) + tailpart);
    } else {
        assert(s.push(c).drop_first() =~= s.drop_first().push(c));
        lemma_without_spaces_push(s.drop_first(), c);
        assert(s.push(c)[0] == s[0]);
        if s[0] == ' ' {
            assert(without_spaces(s.push(c)) == without_spaces(s.drop_first().push(c)));
        } else {
            assert(without_spaces(s.push(c)) =~= seq![s[0]] + (without_spaces(s.drop_first())
                + tailpart));
            assert(seq![s[0]] + (without_spaces(s.drop_first()) + tailpart) =~= (seq![s[0]]
                + without_spaces(s.drop_first())) + tailpart);
        }
    }
}

/// The value of an expression text: spaces are stripped, the rest is
/// tokenized and parsed; any failure is the non-numeric marker.
pub open spec fn eval_expression_spec(s: Seq<char>) -> CalcValue {
    match tokenize_spec(without_spaces(s), 0) {
        None => CalcValue::NotANumber,
        Some(toks) => eval_tokens_spec(toks),
    }
}

/// Evaluates an expression text to a calculator value.
pub fn evaluate_expression(expr: &str) -> (v: CalcValue)
    ensures
        v == eval_expression_spec(expr@),
        value_wf(v),
{
    let n = expr.unicode_len();
    let mut cs: Vec<char> = Vec::new();
    let mut i: usize = 0;
    proof {
        assert(expr@.subrange(0, 0) =~= Seq::<char>::empty());
    }
    while i < n
        invariant
            n == expr@.len(),
            i <= n,
            cs@ == without_spaces(expr@.subrange(0, i as int)),
        decreases n - i,
    {
        let c = expr.get_char(i);
        proof {
            lemma_without_spaces_push(expr@.subrange(0, i as int), expr@[i as int]);
            assert(expr@.subrange(0, i as int).push(expr@[i as int]) =~= expr@.subrange(
                0,
                i as int + 1,
            ));
        }
        if c != ' ' {
            cs.push(c);
            proof {
                assert(cs@ =~= without_spaces(expr@.subrange(0, i as int)) + seq![c]);
            }
        }
        i = i + 1;
    }
    proof {
        assert(expr@.subrange(0, n as int) =~= expr@);
    }
    match tokenize(&cs, 0) {
        None => CalcValue::NotANumber,
        Some(toks) => {
            match parse_expr(&toks, 0) {
                None => CalcValue::NotANumber,
                Some((v, p)) => {
                    if p == toks.len() {
                        v
                    } else {
                        CalcValue::NotANumber
                    }
                },
            }
        },
    }
}

/// The character of one decimal digit.
pub open spec fn digit_char(d: int) -> char {
    if d == 0 {
        '0'
    } else if d == 1 {
        '1'
    } else if d == 2 {
        '2'
    } else if d == 3 {
        '3'
    } else if d == 4 {
        '4'
    } else if d == 5 {
        '5'
    } else if d == 6 {
        '6'
    } else if d == 7 {
        '7'
    } else if d == 8 {
        '8'
    } else {
        '9'
    }
}

/// The decimal digits of a nonnegative number, most significant first.
pub open spec fn dec_str(n: nat) -> Seq<char>
    decreases n,
{
    if n < 10 {
        seq![digit_char(n as int)]
    } else {
        dec_str(n / 10) + seq![digit_char((n % 10) as int)]
    }
}

/// The decimal text of an integer, a minus sign leading a negative one.
pub open spec fn int_str(n: int) -> Seq<char> {
    if n < 0 {
        seq!['-'] + dec_str((-n) as nat)
    } else {
        dec_str(n as nat)
    }
}

/// The text of a calculator value: `NaN` for the non-numeric marker, a
/// plain integer when the denominator is one, and `num/den` otherwise.
pub open spec fn render_spec(v: CalcValue) -> Seq<char> {
    match v {
        CalcValue::NotANumber => seq!['N', 'a', 'N'],
        CalcValue::Num(r) => if r.den == 1 {
            int_str(r.num as int)
        } else {
            int_str(r.num as int) + seq!['/'] + dec_str(r.den as nat)
        },
    }
}

fn push_digit(s: &mut String, d: u64)
    requires
        d < 10,
    ensures
        final(s)@ == old(s)@ + seq![digit_char(d as int)],
{
    if d == 0 {
        s.append("0");
        proof {
            reveal_strlit("0");
            assert(final(s)@ =~= old(s)@ + seq![digit_char(d as int)]);
        }
    } else if d == 1 {
        s.append("1");
        proof {
            reveal_strlit("1");
            assert(final(s)@ =~= old(s)@ + seq![digit_char(d as int)]);
        }
    } else if d == 2 {
        s.append("2");
        proof {
            reveal_strlit("2");
            assert(final(s)@ =~= old(s)@ + seq![digit_char(d as int)]);
        }
    } else if d == 3 {
        s.append("3");
        proof {
            reveal_strlit("3");
            assert(final(s)@ =~= old(s)@ + seq![digit_char(d as int)]);
        }
    } else if d == 4 {
        s.append("4");
        proof {
            reveal_strlit("4");
            assert(final(s)@ =~= old(s)@ + seq![digit_char(d as int)]);
        }
    } else if d == 5 {
        s.append("5");
        proof {
            reveal_strlit("5");
            assert(final(s)@ =~= old(s)@ + seq![digit_char(d as int)]);
        }
    } else if d == 6 {
        s.append("6");
        proof {
            reveal_strlit("6");
            assert(final(s)@ =~= old(s)@ + seq![digit_char(d as int)]);
        }
    } else if d == 7 {
        s.append("7");
        proof {
            reveal_strlit("7");
            assert(final(s)@ =~= old(s)@ + seq![digit_char(d as int)]);
        }
    } else if d == 8 {
        s.append("8");
        proof {
            reveal_strlit("8");
            assert(final(s)@ =~= old(s)@ + seq![digit_char(d as int)]);
        }
    } else {
        s.append("9");
        proof {
            reveal_strlit("9");
            assert(final(s)@ =~= old(s)@ + seq![digit_char(d as int)]);
        }
    }
}

fn push_decimal_digits(s: &mut String, n: u128)
    ensures
        final(s)@ == old(s)@ + dec_str(n as nat),
    decreases n,
{
    if n < 10 {
        push_digit(s, n as u64);
    } else {
        push_decimal_digits(s, n / 10);
        push_digit(s, (n % 10) as u64);
        proof {
            assert(s@ =~= old(s)@ + dec_str(n as nat));
        }
    }
}

/// The text of a calculator value, as the `calculate` tool prints it.
pub fn render_calc_value(v: &CalcValue) -> (s: String)
    requires
        value_wf(*v),
    ensures
        s@ == render_spec(*v),
{
    match v {
        CalcValue::NotANumber => {
            let mut s = String::new();
            s.append("NaN");
            proof {
                reveal_strlit("NaN");
                assert(s@ =~= seq!['N', 'a', 'N']);
            }
            s
        },
        CalcValue::Num(r) => {
            let mut s = String::new();
            let a: u128;
            if r.num < 0 {
                s.append("-");
                proof {
                    reveal_strlit("-");
                    assert(s@ =~= seq!['-']);
                }
                a = (-r.num) as u128;
            } else {
                a = r.num as u128;
            }
            push_decimal_digits(&mut s, a);
            proof {
                assert(s@ =~= int_str(r.num as int));
            }
            if r.den != 1 {
                s.append("/");
                proof {
                    reveal_strlit("/");
                    assert(s@ =~= int_str(r.num as int) + seq!['/']);
                }
                push_decimal_digits(&mut s, r.den as u128);
                proof {
                    assert(s@ =~= render_spec(*v));
                }
            }
            s
        },
    }
}

/// Evaluates an expression text and renders the result, exactly the
/// text the `calculate` tool reports.
pub fn calculate(expr: &str) -> (s: String)
    ensures
        s@ == render_spec(eval_expression_spec(expr@)),
{
    let v = evaluate_expression(expr);
    render_calc_value(&v)
}

} // verus!
