//! The grade engine: validation of raw grade tokens and the SPI / CPI
//! weighted-average formulas over the catalog's credit weights.
//!
//! A grade token is a plain decimal numeral (optional sign, digits, at most
//! four fractional digits).  Its value is held in ten-thousandths of a grade
//! point, so the closed grade range 0..=10 is 0..=`MAX_SCORE`.  SPI and CPI
//! are weighted means on the same scale, computed exactly in integers and
//! rounded half-up to the nearest ten-thousandth.

use vstd::arithmetic::div_mod::{
    lemma_div_denominator, lemma_div_is_ordered, lemma_div_multiples_vanish,
    lemma_div_pos_is_pos, lemma_fundamental_div_mod_converse,
};
use vstd::prelude::*;

use crate::semdata::{
    credit_sum, credit_sum_prefix, get_semesters, is_valid_sem_id, lemma_catalog_totals,
    spec_course_credits, spec_cumulative_credit, spec_total_credit, SemesterId,
};

verus! {

/// Number of score units in one grade point.
pub const GRADE_SCALE: u32 = 10000;

/// The top of the grade scale (grade point 10) in score units.
pub const MAX_SCORE: u32 = 10 * GRADE_SCALE;

/// Classification of one raw grade token.
#[derive(Clone, Copy, PartialEq, Eq, Structural, Debug)]
pub enum TokenCheck {
    /// A numeral within the closed range 0..=10, as score units.
    ValidGrade(u32),
    /// The token has no characters at all: the grade was not yet entered.
    Empty,
    /// A numeral, but outside the closed range 0..=10.
    OutOfRange,
    /// Not a decimal numeral the engine accepts.
    Unparsable,
}

/// Why a computation was rejected.
#[derive(Clone, Copy, PartialEq, Eq, Structural, Debug)]
pub enum EngineError {
    /// The semester identifier is not a key of the catalog.
    NotFound,
    /// The grade set's length differs from the semester's course count.
    CountMismatch,
    /// Some grade token is empty.
    MissingGrade,
    /// Some grade token is non-empty but not a grade in 0..=10.
    InvalidGrade,
    /// A zero credit total was met (defensive; the catalog has none).
    DegenerateSemester,
}

/// Whether `c` is a decimal digit.
pub open spec fn is_digit_char(c: char) -> bool {
    48 <= c as u32 <= 57
}

/// Numeric value of a digit character.
pub open spec fn digit_val(c: char) -> int {
    c as u32 - 48
}

/// Whether every character of `s` in `[i, j)` is a decimal digit.
pub open spec fn all_digits(s: Seq<char>, i: int, j: int) -> bool {
    forall|k: int| i <= k < j ==> is_digit_char(s[k])
}

/// Value of the digit run of `s` in `[i, j)`, most significant digit first.
pub open spec fn digits_val(s: Seq<char>, i: int, j: int) -> int
    decreases j - i,
{
    if j <= i {
        0
    } else {
        digits_val(s, i, j - 1) * 10 + digit_val(s[j - 1])
    }
}

/// 1 if `s` opens with a sign character, else 0.
pub open spec fn sign_len(s: Seq<char>) -> int {
    if s.len() > 0 && (s[0] == '+' || s[0] == '-') {
        1
    } else {
        0
    }
}

/// Index of the first `'.'` of `s` at or after `i`, or `s.len()` if none.
pub open spec fn dot_pos(s: Seq<char>, i: int) -> int
    decreases s.len() - i,
{
    if i < 0 || i >= s.len() {
        s.len() as int
    } else if s[i] == '.' {
        i
    } else {
        dot_pos(s, i + 1)
    }
}

/// Ten to the power `n` (1 for `n <= 0`).
pub open spec fn pow10(n: int) -> int
    decreases n,
{
    if n <= 0 {
        1
    } else {
        10 * pow10(n - 1)
    }
}

/// The numeral grammar the engine accepts: an optional sign, then digits
/// with at most one point and at most four fractional digits (the score
/// resolution), and at least one digit somewhere.
pub open spec fn valid_number_token(s: Seq<char>) -> bool {
    let b = sign_len(s);
    let d = dot_pos(s, b);
    &&& s.len() > b
    &&& all_digits(s, b, d)
    &&& (d == s.len() || {
        &&& all_digits(s, d + 1, s.len() as int)
        &&& s.len() - (d + 1) <= 4
        &&& (d > b || d + 1 < s.len())
    })
}

/// Magnitude of a numeral in score units (ten-thousandths).
pub open spec fn token_mag_scaled(s: Seq<char>) -> int {
    let b = sign_len(s);
    let d = dot_pos(s, b);
    let fl = if d == s.len() {
        0int
    } else {
        s.len() - (d + 1)
    };
    digits_val(s, b, d) * GRADE_SCALE + digits_val(s, d + 1, s.len() as int) * pow10(4 - fl)
}

/// Signed value of a numeral in score units.
pub open spec fn token_value_scaled(s: Seq<char>) -> int {
    if s.len() > 0 && s[0] == '-' {
        -token_mag_scaled(s)
    } else {
        token_mag_scaled(s)
    }
}

/// Total classification of a raw grade token.
pub open spec fn spec_validate_token(s: Seq<char>) -> TokenCheck {
    if s.len() == 0 {
        TokenCheck::Empty
    } else if !valid_number_token(s) {
        TokenCheck::Unparsable
    } else if token_value_scaled(s) < 0 || token_value_scaled(s) > MAX_SCORE {
        TokenCheck::OutOfRange
    } else {
        TokenCheck::ValidGrade(token_value_scaled(s) as u32)
    }
}

proof fn lemma_pow10_pos(n: int)
    ensures
        pow10(n) >= 1,
    decreases n,
{
    if n > 0 {
        lemma_pow10_pos(n - 1);
    }
}

proof fn lemma_digits_val_bounds(s: Seq<char>, i: int, j: int)
    requires
        i <= j,
        all_digits(s, i, j),
    ensures
        0 <= digits_val(s, i, j) < pow10(j - i),
    decreases j - i,
{
    if j > i {
        lemma_digits_val_bounds(s, i, j - 1);
    }
}

proof fn lemma_dot_pos_bounds(s: Seq<char>, i: int)
    requires
        0 <= i <= s.len(),
    ensures
        i <= dot_pos(s, i) <= s.len(),
        dot_pos(s, i) < s.len() ==> s[dot_pos(s, i)] == '.',
    decreases s.len() - i,
{
    if i < s.len() && s[i] != '.' {
        lemma_dot_pos_bounds(s, i + 1);
    }
}

/// Validates one raw grade token, classifying it as a grade in 0..=10 (in
/// score units), empty, out of range, or unparsable.
pub fn validate_grade_token(text: &str) -> (r: TokenCheck)
    ensures
        r == spec_validate_token(text@),
{
    let ghost s = text@;
    let n = text.unicode_len();
    if n == 0 {
        return TokenCheck::Empty;
    }
    let c0 = text.get_char(0);
    let neg = c0 == '-';
    let b: usize = if c0 == '-' || c0 == '+' {
        1
    } else {
        0
    };
    if n == b {
        // a bare sign has no digits anywhere
        return TokenCheck::Unparsable;
    }
    let mut i: usize = b;
    let mut ip: u32 = 0;
    while i < n
        invariant
            s == text@,
            n == s.len(),
            b == sign_len(s),
            b <= i <= n,
            b < n,
            neg == (s[0] == '-'),
            all_digits(s, b as int, i as int),
            dot_pos(s, b as int) == dot_pos(s, i as int),
            digits_val(s, b as int, i as int) <= 10 ==> ip == digits_val(s, b as int, i as int),
            digits_val(s, b as int, i as int) > 10 ==> 10 < ip <= 109,
        decreases n - i,
    {
        let c = text.get_char(i);
        if c == '.' {
            let d = i;
            let fl = n - d - 1;
            if fl > 4 {
                // finer than the score resolution
                return TokenCheck::Unparsable;
            }
            if d == b && d + 1 == n {
                // a point with no digits on either side
                return TokenCheck::Unparsable;
            }
            let mut j = d + 1;
            let mut frac: u32 = 0;
            while j < n
                invariant
                    s == text@,
                    n == s.len(),
                    b == sign_len(s),
                    b <= d < n,
                    b < n,
                    neg == (s[0] == '-'),
                    d as int + 1 <= j <= n,
                    n - d - 1 <= 4,
                    d > b || d + 1 < n,
                    dot_pos(s, b as int) == d as int,
                    all_digits(s, b as int, d as int),
                    digits_val(s, b as int, d as int) <= 10 ==> ip == digits_val(
                        s,
                        b as int,
                        d as int,
                    ),
                    digits_val(s, b as int, d as int) > 10 ==> 10 < ip <= 109,
                    all_digits(s, d as int + 1, j as int),
                    frac == digits_val(s, d as int + 1, j as int),
                    frac < pow10(j - d - 1),
                decreases n - j,
            {
                let cf = text.get_char(j);
                let cfv = cf as u32;
                if cfv < 48 || cfv > 57 {
                    return TokenCheck::Unparsable;
                }
                proof {
                    reveal_with_fuel(pow10, 6);
                    assert(j - d - 1 <= 3);
                }
                frac = frac * 10 + (cfv - 48);
                j += 1;
            }
            proof {
                reveal_with_fuel(pow10, 6);
                assert(valid_number_token(s));
                lemma_digits_val_bounds(s, d as int + 1, n as int);
                lemma_pow10_pos(4 - (n - d - 1));
            }
            let fscaled: u32 = if fl == 0 {
                0
            } else if fl == 1 {
                frac * 1000
            } else if fl == 2 {
                frac * 100
            } else if fl == 3 {
                frac * 10
            } else {
                frac
            };
            if ip > 10 {
                proof {
                    assert(digits_val(s, b as int, d as int) * GRADE_SCALE >= 11 * GRADE_SCALE);
                    assert(digits_val(s, d as int + 1, n as int) * pow10(4 - (n - d - 1)) >= 0)
                        by (nonlinear_arith)
                        requires
                            digits_val(s, d as int + 1, n as int) >= 0,
                            pow10(4 - (n - d - 1)) >= 1,
                    ;
                }
                return TokenCheck::OutOfRange;
            }
            let mag: u32 = ip * GRADE_SCALE + fscaled;
            if neg && mag > 0 {
                return TokenCheck::OutOfRange;
            }
            if mag > MAX_SCORE {
                return TokenCheck::OutOfRange;
            }
            return TokenCheck::ValidGrade(mag);
        } else {
            let cv = c as u32;
            if cv < 48 || cv > 57 {
                proof {
                    lemma_dot_pos_bounds(s, i + 1 as int);
                }
                return TokenCheck::Unparsable;
            }
            ip = if ip > 10 {
                ip
            } else {
                ip * 10 + (cv - 48)
            };
            i += 1;
        }
    }
    // the whole token after the sign is digits
    proof {
        assert(dot_pos(s, i as int) == n);
        assert(valid_number_token(s));
        reveal_with_fuel(pow10, 6);
        lemma_digits_val_bounds(s, b as int, n as int);
        assert(digits_val(s, n as int + 1, n as int) == 0);
    }
    if ip > 10 {
        return TokenCheck::OutOfRange;
    }
    let mag: u32 = ip * GRADE_SCALE;
    if neg && mag > 0 {
        return TokenCheck::OutOfRange;
    }
    TokenCheck::ValidGrade(mag)
}

/// Sum of the first `n` products `gs[k] * cs[k]`.
pub open spec fn weighted_sum_prefix(gs: Seq<u32>, cs: Seq<u32>, n: int) -> int
    decreases n,
{
    if n <= 0 {
        0
    } else {
        weighted_sum_prefix(gs, cs, n - 1) + gs[n - 1] * cs[n - 1]
    }
}

/// Sum of grade-times-credit over a whole course list.
pub open spec fn weighted_sum(gs: Seq<u32>, cs: Seq<u32>) -> int {
    weighted_sum_prefix(gs, cs, cs.len() as int)
}

/// Integer division rounded half-up.
pub open spec fn round_div(num: int, den: int) -> int
    recommends
        den >= 1,
{
    (2 * num + den) / (2 * den)
}

/// The SPI of a grade set for one semester: the credit-weighted mean of the
/// grades, in score units, rounded half-up.
pub open spec fn spec_spi(id: SemesterId, gs: Seq<u32>) -> int {
    round_div(weighted_sum(gs, spec_course_credits(id)), spec_total_credit(id) as int)
}

proof fn lemma_div_halves(den: int, k: int)
    requires
        den >= 1,
        k >= 0,
    ensures
        (den * (2 * k + 1)) / (2 * den) == k,
{
    assert(den * (2 * k + 1) >= 0) by (nonlinear_arith)
        requires
            den >= 1,
            k >= 0,
    ;
    lemma_div_denominator(den * (2 * k + 1), den, 2);
    lemma_div_multiples_vanish(2 * k + 1, den);
    lemma_fundamental_div_mod_converse(2 * k + 1, 2, k, 1);
}

/// Rounding half-up is exact on multiples of the divisor.
proof fn lemma_round_div_exact(v: int, den: int)
    requires
        den >= 1,
        v >= 0,
    ensures
        round_div(v * den, den) == v,
{
    assert(2 * (v * den) + den == den * (2 * v + 1)) by (nonlinear_arith);
    lemma_div_halves(den, v);
}

/// A rounded quotient of a bounded numerator stays within the bound.
proof fn lemma_round_div_bounds(num: int, den: int, bound: int)
    requires
        den >= 1,
        0 <= num,
        num <= bound * den,
        bound >= 0,
    ensures
        0 <= round_div(num, den) <= bound,
{
    lemma_div_pos_is_pos(2 * num + den, 2 * den);
    assert(2 * num + den <= den * (2 * bound + 1)) by (nonlinear_arith)
        requires
            num <= bound * den,
            den >= 1,
    ;
    lemma_div_is_ordered(2 * num + den, den * (2 * bound + 1), 2 * den);
    lemma_div_halves(den, bound);
}

proof fn lemma_weighted_sum_uniform(gs: Seq<u32>, cs: Seq<u32>, g: u32, n: int)
    requires
        0 <= n <= gs.len(),
        forall|i: int| 0 <= i < n ==> gs[i] == g,
    ensures
        weighted_sum_prefix(gs, cs, n) == g * credit_sum_prefix(cs, n),
    decreases n,
{
    if n > 0 {
        lemma_weighted_sum_uniform(gs, cs, g, n - 1);
        assert(g * (credit_sum_prefix(cs, n - 1) + cs[n - 1]) == g * credit_sum_prefix(cs, n - 1)
            + g * cs[n - 1]) by (nonlinear_arith);
    } else {
        assert(g * 0 == 0) by (nonlinear_arith);
    }
}

proof fn lemma_weighted_sum_bounds(gs: Seq<u32>, cs: Seq<u32>, n: int)
    requires
        0 <= n <= gs.len(),
        forall|i: int| 0 <= i < n ==> gs[i] <= MAX_SCORE,
    ensures
        0 <= weighted_sum_prefix(gs, cs, n) <= MAX_SCORE * credit_sum_prefix(cs, n),
    decreases n,
{
    if n > 0 {
        lemma_weighted_sum_bounds(gs, cs, n - 1);
        assert(gs[n - 1] * cs[n - 1] <= MAX_SCORE * cs[n - 1]) by (nonlinear_arith)
            requires
                0 <= gs[n - 1] <= MAX_SCORE,
                cs[n - 1] >= 0,
        ;
        assert(gs[n - 1] * cs[n - 1] >= 0) by (nonlinear_arith)
            requires
                gs[n - 1] >= 0,
                cs[n - 1] >= 0,
        ;
        assert(MAX_SCORE * (credit_sum_prefix(cs, n - 1) + cs[n - 1]) == MAX_SCORE
            * credit_sum_prefix(cs, n - 1) + MAX_SCORE * cs[n - 1]) by (nonlinear_arith);
    }
}

proof fn lemma_credit_sum_prefix_mono(cs: Seq<u32>, m: int, n: int)
    requires
        0 <= m <= n,
    ensures
        credit_sum_prefix(cs, m) <= credit_sum_prefix(cs, n),
    decreases n - m,
{
    if m < n {
        lemma_credit_sum_prefix_mono(cs, m, n - 1);
    }
}

/// Outcome of the SPI formula on an already-validated grade set.
pub open spec fn spec_calc_spi_n(id: SemesterId, gs: Seq<u32>) -> Result<u32, EngineError> {
    if !is_valid_sem_id(id) {
        Err(EngineError::NotFound)
    } else if gs.len() != spec_course_credits(id).len() {
        Err(EngineError::CountMismatch)
    } else {
        Ok(spec_spi(id, gs) as u32)
    }
}

/// Computes the SPI of a semester from already-validated grades (one score
/// per course, in course order).  Fails on an unknown semester identifier or
/// a grade count that differs from the semester's course count; otherwise
/// returns exactly the rounded credit-weighted mean.
pub fn calculate_spi_n(sem_no: SemesterId, grades: Vec<u32>) -> (r: Result<u32, EngineError>)
    requires
        forall|i: int| 0 <= i < grades@.len() ==> grades@[i] <= MAX_SCORE,
    ensures
        r == spec_calc_spi_n(sem_no, grades@),
        r matches Ok(v) ==> v <= MAX_SCORE,
{
    let sem = match get_semesters(sem_no) {
        Some(sem) => sem,
        None => {
            return Err(EngineError::NotFound);
        },
    };
    if grades.len() != sem.course_credit.len() {
        return Err(EngineError::CountMismatch);
    }
    let total = sem.total_credit;
    if total == 0 {
        // never reached: every catalog record has a positive total
        return Err(EngineError::DegenerateSemester);
    }
    let ghost gs = grades@;
    let ghost cs = sem.course_credit@;
    let len = grades.len();
    let mut num: u64 = 0;
    let mut i: usize = 0;
    while i < len
        invariant
            i <= len,
            len == gs.len(),
            len == cs.len(),
            gs == grades@,
            cs == sem.course_credit@,
            total == sem.total_credit,
            total == credit_sum(cs),
            forall|k: int| 0 <= k < gs.len() ==> gs[k] <= MAX_SCORE,
            num == weighted_sum_prefix(gs, cs, i as int),
            num <= MAX_SCORE as u64 * total as u64,
        decreases len - i,
    {
        proof {
            lemma_weighted_sum_bounds(gs, cs, i as int + 1);
            lemma_credit_sum_prefix_mono(cs, i as int + 1, cs.len() as int);
            assert(MAX_SCORE * credit_sum_prefix(cs, i as int + 1) <= MAX_SCORE * credit_sum_prefix(
                cs,
                cs.len() as int,
            )) by (nonlinear_arith)
                requires
                    credit_sum_prefix(cs, i as int + 1) <= credit_sum_prefix(cs, cs.len() as int),
            ;
        }
        num = num + (grades[i] as u64) * (sem.course_credit[i] as u64);
        i += 1;
    }
    let den = total as u64;
    proof {
        lemma_weighted_sum_bounds(gs, cs, len as int);
        lemma_round_div_bounds(num as int, den as int, MAX_SCORE as int);
    }
    let q = (2 * num + den) / (2 * den);
    Ok(q as u32)
}

/// A grade set whose entries all equal `g` has SPI exactly `g`: the
/// credit-weighted mean of a constant is that constant.
pub proof fn lemma_spi_of_uniform_grades(id: SemesterId, gs: Seq<u32>, g: u32)
    requires
        is_valid_sem_id(id),
        gs.len() == spec_course_credits(id).len(),
        forall|i: int| 0 <= i < gs.len() ==> gs[i] == g,
    ensures
        spec_calc_spi_n(id, gs) == Ok::<u32, EngineError>(g),
{
    lemma_catalog_totals(id);
    lemma_weighted_sum_uniform(gs, spec_course_credits(id), g, gs.len() as int);
    lemma_round_div_exact(g as int, spec_total_credit(id) as int);
}

/// The grade of a token already known to be a valid grade.
pub open spec fn grade_of(t: TokenCheck) -> u32 {
    match t {
        TokenCheck::ValidGrade(v) => v,
        _ => 0,
    }
}

/// The character sequences of a list of raw grade tokens.
pub open spec fn token_views(gs: Seq<String>) -> Seq<Seq<char>> {
    gs.map_values(|g: String| g@)
}

/// Index of the first token at or after `i` that is not a valid grade, or
/// `ts.len()` if every one is.
pub open spec fn first_bad_token(ts: Seq<Seq<char>>, i: int) -> int
    decreases ts.len() - i,
{
    if i < 0 || i >= ts.len() {
        ts.len() as int
    } else if !(spec_validate_token(ts[i]) is ValidGrade) {
        i
    } else {
        first_bad_token(ts, i + 1)
    }
}

/// The grades of a token list whose tokens are all valid grades.
pub open spec fn token_grades(ts: Seq<Seq<char>>) -> Seq<u32> {
    Seq::new(ts.len(), |i: int| grade_of(spec_validate_token(ts[i])))
}

/// Outcome of the SPI computation on raw grade tokens: the first token that
/// is not a valid grade decides the error (an empty token means a grade is
/// still missing); otherwise the validated grades go through the SPI formula.
pub open spec fn spec_calc_spi(id: SemesterId, ts: Seq<Seq<char>>) -> Result<u32, EngineError> {
    let k = first_bad_token(ts, 0);
    if k < ts.len() {
        if spec_validate_token(ts[k]) is Empty {
            Err(EngineError::MissingGrade)
        } else {
            Err(EngineError::InvalidGrade)
        }
    } else {
        spec_calc_spi_n(id, token_grades(ts))
    }
}

/// Computes the SPI of a semester from raw grade tokens, one per course in
/// course order.  Every token is validated first; the first empty token is
/// reported as a missing grade and the first other invalid token as an
/// invalid grade.  With all tokens valid, an unknown identifier or a wrong
/// token count is rejected, and otherwise the result is exactly the rounded
/// credit-weighted mean of the grades.
pub fn calc_spi(sem_no: SemesterId, grades: &Vec<String>) -> (r: Result<u32, EngineError>)
    ensures
        r == spec_calc_spi(sem_no, token_views(grades@)),
        r matches Ok(v) ==> v <= MAX_SCORE,
{
    let ghost ts = token_views(grades@);
    let mut vals: Vec<u32> = Vec::new();
    let mut i: usize = 0;
    while i < grades.len()
        invariant
            ts == token_views(grades@),
            ts.len() == grades@.len(),
            i <= grades@.len(),
            first_bad_token(ts, 0) == first_bad_token(ts, i as int),
            vals@.len() == i,
            forall|k: int| 0 <= k < i ==> spec_validate_token(ts[k]) is ValidGrade,
            forall|k: int| 0 <= k < i ==> vals@[k] == grade_of(spec_validate_token(ts[k])),
            forall|k: int| 0 <= k < i ==> vals@[k] <= MAX_SCORE,
        decreases grades@.len() - i,
    {
        let t = validate_grade_token(grades[i].as_str());
        match t {
            TokenCheck::ValidGrade(v) => {
                vals.push(v);
                i += 1;
            },
            TokenCheck::Empty => {
                return Err(EngineError::MissingGrade);
            },
            _ => {
                return Err(EngineError::InvalidGrade);
            },
        }
    }
    proof {
        assert(vals@ =~= token_grades(ts));
    }
    calculate_spi_n(sem_no, vals)
}

/// The whole-number semester that precedes `id` in the curriculum.  Its
/// cumulative credit is well defined for every catalog key past semester 1:
/// `spec_cumulative_credit` goes by the whole number alone, and the two
/// tracks of semester 7 agree on it.
pub open spec fn spec_prev_sem(id: SemesterId) -> SemesterId {
    SemesterId { number: (id.number - 1) as u32, variant: 0 }
}

/// The CPI blend in score units: the previous CPI weighted by the credit
/// accumulated through the previous whole semester, the current SPI weighted
/// by the current semester's credit, rounded half-up.
pub open spec fn spec_cpi_value(id: SemesterId, prev_cpi: u32, spi: u32) -> int {
    let pc = spec_cumulative_credit(spec_prev_sem(id)) as int;
    let cc = spec_total_credit(id) as int;
    round_div(prev_cpi * pc + spi * cc, pc + cc)
}

/// Outcome of the CPI computation: unknown identifiers fail, semester 1 has
/// no previous semester and returns its own SPI unblended, and every later
/// key blends against the cumulative credit of the previous whole semester
/// (for the semester-8 tracks that is semester 7's 292, shared by both of
/// its tracks).
pub open spec fn spec_calc_cpi(x: SemesterId, prev_cpi: u32, spi: u32) -> Result<
    u32,
    EngineError,
> {
    if !is_valid_sem_id(x) {
        Err(EngineError::NotFound)
    } else if x.number == 1 {
        Ok(spi)
    } else {
        Ok(spec_cpi_value(x, prev_cpi, spi) as u32)
    }
}

/// Computes the CPI through semester `x` from the CPI through the previous
/// whole semester and the SPI of semester `x`, both in score units.
pub fn calculate_cpi_option3(x: SemesterId, cpi_of_xminus1: u32, spi_of_x: u32) -> (r: Result<
    u32,
    EngineError,
>)
    requires
        cpi_of_xminus1 <= MAX_SCORE,
        spi_of_x <= MAX_SCORE,
    ensures
        r == spec_calc_cpi(x, cpi_of_xminus1, spi_of_x),
        r matches Ok(v) ==> v <= MAX_SCORE,
{
    let semester_x = match get_semesters(x) {
        Some(sem) => sem,
        None => {
            return Err(EngineError::NotFound);
        },
    };
    if x.number == 1 {
        // semester 1 has nothing to blend with: its CPI is its SPI
        return Ok(spi_of_x);
    }
    // the cumulative credit through the previous whole semester; semester 7
    // is in the catalog only as its two tracks, which share that total
    let prev_id = if x.number == 8 {
        SemesterId { number: 7, variant: 1 }
    } else {
        SemesterId { number: x.number - 1, variant: 0 }
    };
    let semester_x_minus_1 = match get_semesters(prev_id) {
        Some(sem) => sem,
        None => {
            // never reached: the previous whole semester of every later key
            // is represented in the catalog
            return Err(EngineError::NotFound);
        },
    };
    let credit_of_sem_x = semester_x.total_credit;
    let cum_credit_till_prev = semester_x_minus_1.total_credit_till_sem;
    let total: u64 = cum_credit_till_prev as u64 + credit_of_sem_x as u64;
    if total == 0 {
        // never reached: every catalog record has positive credit
        return Err(EngineError::DegenerateSemester);
    }
    proof {
        assert(cum_credit_till_prev <= 322);
        assert(credit_of_sem_x <= 46);
        assert(cpi_of_xminus1 * cum_credit_till_prev <= 100000 * 322) by (nonlinear_arith)
            requires
                cpi_of_xminus1 <= 100000,
                cum_credit_till_prev <= 322,
        ;
        assert(spi_of_x * credit_of_sem_x <= 100000 * 46) by (nonlinear_arith)
            requires
                spi_of_x <= 100000,
                credit_of_sem_x <= 46,
        ;
    }
    let num: u64 = cpi_of_xminus1 as u64 * cum_credit_till_prev as u64 + spi_of_x as u64
        * credit_of_sem_x as u64;
    proof {
        assert(num <= MAX_SCORE * (cum_credit_till_prev + credit_of_sem_x)) by (nonlinear_arith)
            requires
                cpi_of_xminus1 <= MAX_SCORE,
                spi_of_x <= MAX_SCORE,
                cum_credit_till_prev >= 0,
                credit_of_sem_x >= 0,
                num == cpi_of_xminus1 * cum_credit_till_prev + spi_of_x * credit_of_sem_x,
        ;
        lemma_round_div_bounds(num as int, total as int, MAX_SCORE as int);
    }
    let q = (2 * num + total) / (2 * total);
    Ok(q as u32)
}

/// For semester 1 the CPI is the supplied SPI itself, with no blending.
pub proof fn lemma_cpi_first_semester(prev_cpi: u32, spi: u32)
    ensures
        spec_calc_cpi(SemesterId { number: 1, variant: 0 }, prev_cpi, spi) == Ok::<
            u32,
            EngineError,
        >(spi),
{
}

/// Blending a value with itself gives it back: when the previous CPI and the
/// current SPI both equal `v`, the CPI is exactly `v`.
pub proof fn lemma_cpi_trivial_blend(x: SemesterId, v: u32)
    requires
        is_valid_sem_id(x),
    ensures
        spec_calc_cpi(x, v, v) == Ok::<u32, EngineError>(v),
{
    if x.number != 1 {
        let pc = spec_cumulative_credit(spec_prev_sem(x)) as int;
        let cc = spec_total_credit(x) as int;
        assert(v * pc + v * cc == v * (pc + cc)) by (nonlinear_arith);
        lemma_round_div_exact(v as int, pc + cc);
    }
}

/// The first bad token comes no later than any token that is not a valid
/// grade.
pub proof fn lemma_first_bad_at_most(ts: Seq<Seq<char>>, i: int, k: int)
    requires
        0 <= i <= k < ts.len(),
        !(spec_validate_token(ts[k]) is ValidGrade),
    ensures
        first_bad_token(ts, i) <= k,
    decreases k - i,
{
    if i < k && spec_validate_token(ts[i]) is ValidGrade {
        lemma_first_bad_at_most(ts, i + 1, k);
    }
}

} // verus!
