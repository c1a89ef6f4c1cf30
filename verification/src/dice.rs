//! Dice for skill challenges: the `XdY+Z` formula a player types, the roll
//! shown before it is submitted, and the physical-dice entry.
use vstd::prelude::*;
use crate::text::{
    chars_of, is_digit, owned, parse_int, parse_int_spec, string_of, to_lowercase, trim,
    lowercase_of, trim_str,
};

verus! {

/// The end of the run of ASCII digits of `s` that starts at `i`.
pub open spec fn digits_end(s: Seq<char>, i: int) -> int
    decreases s.len() - i,
{
    if 0 <= i < s.len() && is_digit(s[i]) {
        digits_end(s, i + 1)
    } else {
        i
    }
}

/// A digit run ends at or after its start and within `s`.
proof fn lemma_digits_end_bounds(s: Seq<char>, i: int)
    requires
        0 <= i <= s.len(),
    ensures
        i <= digits_end(s, i) <= s.len(),
    decreases s.len() - i,
{
    if i < s.len() && is_digit(s[i]) {
        lemma_digits_end_bounds(s, i + 1);
    }
}

/// The groups of `s` matched against `^(\d+)d(\d+)([+-]\d+)?$`: the count,
/// the sides and the signed modifier, if `s` matches.
pub open spec fn dice_groups(s: Seq<char>) -> Option<(Seq<char>, Seq<char>, Option<Seq<char>>)> {
    let i = digits_end(s, 0);
    let j = digits_end(s, i + 1);
    if i == 0 || i >= s.len() || s[i] != 'd' || j == i + 1 {
        None
    } else if j == s.len() {
        Some((s.subrange(0, i), s.subrange(i + 1, j), None))
    } else if (s[j] == '+' || s[j] == '-') && j + 1 < s.len() && digits_end(s, j + 1) == s.len() {
        Some((s.subrange(0, i), s.subrange(i + 1, j), Some(s.subrange(j, s.len() as int))))
    } else {
        None
    }
}

/// The error for a formula that does not have the `XdY` or `XdY+Z` shape.
pub open spec fn format_error() -> Seq<char> {
    "Invalid formula format. Use XdY or XdY+Z (e.g., 1d20, 2d6+3)"@
}

/// The formula read from its lowercase form `s`: the dice count and the die
/// size as `u8`, the modifier as `i32` (0 when missing or out of range), or
/// the error to show.
pub open spec fn dice_formula_spec(s: Seq<char>) -> Result<(int, int, int), Seq<char>> {
    match dice_groups(s) {
        None => Err(format_error()),
        Some((a, b, m)) => match parse_int_spec(a, false, 0, 255) {
            None => Err("Invalid dice count"@),
            Some(count) => match parse_int_spec(b, false, 0, 255) {
                None => Err("Invalid die size"@),
                Some(sides) => {
                    let modifier = match m {
                        None => 0,
                        Some(ms) => match parse_int_spec(ms, true, i32::MIN as int, i32::MAX as int) {
                            Some(v) => v,
                            None => 0,
                        },
                    };
                    if count == 0 || count > 20 {
                        Err("Dice count must be 1-20"@)
                    } else if sides == 0 || sides > 100 {
                        Err("Die size must be 1-100"@)
                    } else {
                        Ok((count, sides, modifier))
                    }
                },
            },
        },
    }
}

/// The parse result in the form the functions return it.
pub open spec fn formula_result_matches(r: Result<(u8, u8, i32), String>, spec: Result<(int, int, int), Seq<char>>) -> bool {
    match (r, spec) {
        (Ok((c, s, m)), Ok((c2, s2, m2))) => c == c2 && s == s2 && m == m2,
        (Err(e), Err(e2)) => e@ == e2,
        _ => false,
    }
}

/// The characters `v[lo..hi]`.
fn sub_chars(v: &Vec<char>, lo: usize, hi: usize) -> (r: Vec<char>)
    requires
        lo <= hi <= v.len(),
    ensures
        r@ == v@.subrange(lo as int, hi as int),
{
    let mut r: Vec<char> = Vec::new();
    let mut i: usize = lo;
    while i < hi
        invariant
            lo <= i <= hi <= v.len(),
            r@ == v@.subrange(lo as int, i as int),
        decreases hi - i,
    {
        r.push(v[i]);
        assert(v@.subrange(lo as int, i + 1) =~= v@.subrange(lo as int, i as int).push(v@[i as int]));
        i = i + 1;
    }
    r
}

/// The end of the digit run of `v` that starts at `i`.
fn scan_digits(v: &Vec<char>, i: usize) -> (r: usize)
    requires
        i <= v.len(),
    ensures
        r as int == digits_end(v@, i as int),
        i <= r <= v.len(),
{
    let mut k: usize = i;
    while k < v.len() && is_ascii_digit(v[k])
        invariant
            i <= k <= v.len(),
            digits_end(v@, k as int) == digits_end(v@, i as int),
        decreases v.len() - k,
    {
        k = k + 1;
    }
    k
}

/// Whether `c` is an ASCII decimal digit.
fn is_ascii_digit(c: char) -> (b: bool)
    ensures
        b == is_digit(c),
{
    let v = c as u32;
    48 <= v && v <= 57
}

/// Reads a dice formula already trimmed and lowercased (`1d20`, `2d6+3`).
pub fn parse_dice_formula(lowered: &str) -> (r: Result<(u8, u8, i32), String>)
    ensures
        formula_result_matches(r, dice_formula_spec(lowered@)),
{
    let v = chars_of(lowered);
    let n = v.len();
    let i = scan_digits(&v, 0);
    if i == 0 || i >= n || v[i] != 'd' {
        return Err(owned("Invalid formula format. Use XdY or XdY+Z (e.g., 1d20, 2d6+3)"));
    }
    let j = scan_digits(&v, i + 1);
    if j == i + 1 {
        return Err(owned("Invalid formula format. Use XdY or XdY+Z (e.g., 1d20, 2d6+3)"));
    }
    let has_modifier = j < n;
    if has_modifier {
        let ok = (v[j] == '+' || v[j] == '-') && j + 1 < n && scan_digits(&v, j + 1) == n;
        if !ok {
            return Err(owned("Invalid formula format. Use XdY or XdY+Z (e.g., 1d20, 2d6+3)"));
        }
    }
    let count_chars = sub_chars(&v, 0, i);
    let count = match parse_int(&count_chars, false, 0, 255) {
        Some(c) => c as u8,
        None => {
            return Err(owned("Invalid dice count"));
        },
    };
    let sides_chars = sub_chars(&v, i + 1, j);
    let sides = match parse_int(&sides_chars, false, 0, 255) {
        Some(s) => s as u8,
        None => {
            return Err(owned("Invalid die size"));
        },
    };
    let modifier: i32 = if has_modifier {
        let m = sub_chars(&v, j, n);
        match parse_int(&m, true, i32::MIN as i64, i32::MAX as i64) {
            Some(x) => x as i32,
            None => 0,
        }
    } else {
        0
    };
    if count == 0 || count > 20 {
        return Err(owned("Dice count must be 1-20"));
    }
    if sides == 0 || sides > 100 {
        return Err(owned("Die size must be 1-100"));
    }
    Ok((count, sides, modifier))
}

/// Reads a dice formula as typed: it is trimmed and lowercased, then read
/// as `XdY` or `XdY+Z`.
pub fn parse_formula(formula: &str) -> (r: Result<(u8, u8, i32), String>)
    ensures
        formula_result_matches(r, dice_formula_spec(lowercase_of(trim(formula@)))),
{
    let trimmed = string_of(&trim_str(formula));
    let lowered = to_lowercase(trimmed.as_str());
    parse_dice_formula(lowered.as_str())
}


// ---------------------------------------------------------------------------
// The roll shown before it is submitted
// ---------------------------------------------------------------------------

/// A roll as shown to the player before it is submitted.
pub struct RollDisplayState {
    /// The formula rolled, or "Manual" for physical dice.
    pub formula: String,
    pub individual_rolls: Vec<i32>,
    pub dice_total: i32,
    pub formula_modifier: i32,
    pub character_modifier: i32,
    pub total: i32,
    pub is_manual: bool,
}

/// How a roll is submitted to the Engine.
pub enum DiceInputType {
    /// A formula the Engine rolls.
    Formula(String),
    /// The result of physical dice, before modifiers.
    Manual(i32),
}

/// The sum of `s`.
pub open spec fn sum_of(s: Seq<i32>) -> int
    decreases s.len(),
{
    if s.len() == 0 {
        0
    } else {
        sum_of(s.drop_last()) + s.last()
    }
}

/// The sum of a few dice of at most 100 sides is small.
proof fn lemma_sum_bounds(s: Seq<i32>)
    requires
        forall|k: int| 0 <= k < s.len() ==> 1 <= #[trigger] s[k] <= 100,
    ensures
        s.len() <= sum_of(s) <= 100 * s.len(),
    decreases s.len(),
{
    if s.len() > 0 {
        lemma_sum_bounds(s.drop_last());
    }
}

/// The roll of `formula` with the dice `rolls`: the dice add up, then the
/// formula's modifier and the character's modifier are added.
pub fn formula_roll(formula: String, rolls: Vec<i32>, modifier: i32, character_modifier: i32) -> (r: RollDisplayState)
    requires
        rolls@.len() <= 20,
        forall|k: int| 0 <= k < rolls@.len() ==> 1 <= #[trigger] rolls@[k] <= 100,
        i32::MIN <= sum_of(rolls@) + modifier <= i32::MAX,
        i32::MIN <= sum_of(rolls@) + modifier + character_modifier <= i32::MAX,
    ensures
        r.formula == formula,
        r.individual_rolls@ == rolls@,
        r.dice_total == sum_of(rolls@),
        r.formula_modifier == modifier,
        r.character_modifier == character_modifier,
        r.total == sum_of(rolls@) + modifier + character_modifier,
        !r.is_manual,
{
    let mut dice_total: i32 = 0;
    let mut i: usize = 0;
    proof {
        lemma_sum_bounds(rolls@);
    }
    while i < rolls.len()
        invariant
            i <= rolls@.len() <= 20,
            forall|k: int| 0 <= k < rolls@.len() ==> 1 <= #[trigger] rolls@[k] <= 100,
            dice_total == sum_of(rolls@.take(i as int)),
        decreases rolls.len() - i,
    {
        proof {
            assert(rolls@.take(i + 1).drop_last() =~= rolls@.take(i as int));
            assert forall|k: int| 0 <= k < rolls@.take(i as int).len() implies 1 <= #[trigger] rolls@.take(
                i as int,
            )[k] <= 100 by {
                assert(rolls@.take(i as int)[k] == rolls@[k]);
            }
            lemma_sum_bounds(rolls@.take(i as int));
        }
        dice_total = dice_total + rolls[i];
        i = i + 1;
    }
    assert(rolls@.take(rolls@.len() as int) =~= rolls@);
    let total = dice_total + modifier + character_modifier;
    RollDisplayState {
        formula,
        individual_rolls: rolls,
        dice_total,
        formula_modifier: modifier,
        character_modifier,
        total,
        is_manual: false,
    }
}

/// The sum of a few dice of at most 100 sides.
fn sum_dice(rolls: &Vec<i32>) -> (r: i64)
    requires
        rolls@.len() <= 20,
        forall|k: int| 0 <= k < rolls@.len() ==> 1 <= #[trigger] rolls@[k] <= 100,
    ensures
        r == sum_of(rolls@),
{
    let mut total: i64 = 0;
    let mut i: usize = 0;
    while i < rolls.len()
        invariant
            i <= rolls@.len() <= 20,
            forall|k: int| 0 <= k < rolls@.len() ==> 1 <= #[trigger] rolls@[k] <= 100,
            total == sum_of(rolls@.take(i as int)),
        decreases rolls.len() - i,
    {
        proof {
            assert(rolls@.take(i + 1).drop_last() =~= rolls@.take(i as int));
            assert forall|k: int| 0 <= k < rolls@.take(i as int).len() implies 1 <= #[trigger] rolls@.take(
                i as int,
            )[k] <= 100 by {
                assert(rolls@.take(i as int)[k] == rolls@[k]);
            }
            lemma_sum_bounds(rolls@.take(i as int));
        }
        total = total + rolls[i] as i64;
        i = i + 1;
    }
    assert(rolls@.take(rolls@.len() as int) =~= rolls@);
    total
}

/// The error for dice that do not fit the formula: not as many as it rolls,
/// or one outside `1..=sides`.
pub open spec fn draws_error() -> Seq<char> {
    "The dice rolled do not fit the formula"@
}

/// The error for a roll whose total does not fit an `i32`.
pub open spec fn total_error() -> Seq<char> {
    "Roll total out of range"@
}

/// Whether `draws` are a roll of `count` dice of `sides` sides.
pub open spec fn draws_fit(draws: Seq<i32>, count: int, sides: int) -> bool {
    draws.len() == count && forall|k: int| 0 <= k < draws.len() ==> 1 <= #[trigger] draws[k] <= sides
}

/// Rolls a typed formula with the dice drawn for it.
///
/// The formula is read as [`parse_formula`] reads it, and its error is
/// returned when it is invalid. Otherwise the drawn dice must be as many as
/// the formula rolls, each between 1 and its sides, and the totals must fit
/// an `i32`; the roll shows the formula as typed, the dice, their sum, the
/// formula's modifier, the character's modifier and the total.
pub fn roll_with_draws(formula: String, draws: Vec<i32>, character_modifier: i32) -> (r: Result<RollDisplayState, String>)
    ensures
        match dice_formula_spec(lowercase_of(trim(formula@))) {
            Err(e) => r matches Err(x) && x@ == e,
            Ok((count, sides, modifier)) => if !draws_fit(draws@, count, sides) {
                r matches Err(x) && x@ == draws_error()
            } else if !(i32::MIN <= sum_of(draws@) + modifier <= i32::MAX
                && i32::MIN <= sum_of(draws@) + modifier + character_modifier <= i32::MAX) {
                r matches Err(x) && x@ == total_error()
            } else {
                r matches Ok(s) && s.formula == formula && s.individual_rolls@ == draws@
                    && s.dice_total == sum_of(draws@) && s.formula_modifier == modifier
                    && s.character_modifier == character_modifier
                    && s.total == sum_of(draws@) + modifier + character_modifier && !s.is_manual
            },
        },
{
    let (count, sides, modifier) = match parse_formula(formula.as_str()) {
        Ok(p) => p,
        Err(e) => {
            return Err(e);
        },
    };
    proof {
        law_accepted_formula_in_range(lowercase_of(trim(formula@)));
    }
    if draws.len() != count as usize {
        return Err(owned("The dice rolled do not fit the formula"));
    }
    let mut k: usize = 0;
    while k < draws.len()
        invariant
            k <= draws@.len(),
            draws@.len() == count,
            dice_formula_spec(lowercase_of(trim(formula@))) == Ok::<(int, int, int), Seq<char>>(
                (count as int, sides as int, modifier as int),
            ),
            forall|m: int| 0 <= m < k ==> 1 <= #[trigger] draws@[m] <= sides,
        decreases draws.len() - k,
    {
        if draws[k] < 1 || draws[k] > sides as i32 {
            assert(!(1 <= draws@[k as int] <= sides));
            return Err(owned("The dice rolled do not fit the formula"));
        }
        k = k + 1;
    }
    proof {
        lemma_sum_bounds(draws@);
    }
    let dice_total = sum_dice(&draws);
    let with_formula = dice_total + modifier as i64;
    let total = with_formula + character_modifier as i64;
    if with_formula < i32::MIN as i64 || with_formula > i32::MAX as i64 || total < i32::MIN as i64
        || total > i32::MAX as i64 {
        return Err(owned("Roll total out of range"));
    }
    Ok(formula_roll(formula, draws, modifier, character_modifier))
}

/// Reads the result of physical dice as typed: an integer, at least 1.
pub fn parse_manual_roll(input: &str) -> (r: Result<i32, String>)
    ensures
        match parse_int_spec(trim(input@), true, i32::MIN as int, i32::MAX as int) {
            None => r matches Err(e) && e@ == "Please enter a valid number"@,
            Some(v) => if v >= 1 {
                r == Ok::<i32, String>(v as i32)
            } else {
                r matches Err(e) && e@ == "Value must be at least 1"@
            },
        },
{
    let t = trim_str(input);
    match parse_int(&t, true, i32::MIN as i64, i32::MAX as i64) {
        Some(v) => {
            if v >= 1 {
                Ok(v as i32)
            } else {
                Err(owned("Value must be at least 1"))
            }
        },
        None => Err(owned("Please enter a valid number")),
    }
}

/// The roll of physical dice showing `value`: the character's modifier is
/// added.
pub fn manual_roll(value: i32, character_modifier: i32) -> (r: RollDisplayState)
    requires
        i32::MIN <= value + character_modifier <= i32::MAX,
    ensures
        r.formula@ == "Manual"@,
        r.individual_rolls@ == seq![value],
        r.dice_total == value,
        r.formula_modifier == 0,
        r.character_modifier == character_modifier,
        r.total == value + character_modifier,
        r.is_manual,
{
    let mut rolls: Vec<i32> = Vec::new();
    rolls.push(value);
    RollDisplayState {
        formula: owned("Manual"),
        individual_rolls: rolls,
        dice_total: value,
        formula_modifier: 0,
        character_modifier,
        total: value + character_modifier,
        is_manual: true,
    }
}

/// What submitting a shown roll sends: for physical dice the result without
/// the character's modifier, else the formula.
pub fn roll_submission(result: &RollDisplayState) -> (d: DiceInputType)
    requires
        result.is_manual ==> i32::MIN <= result.total - result.character_modifier <= i32::MAX,
    ensures
        result.is_manual ==> d == DiceInputType::Manual((result.total - result.character_modifier) as i32),
        !result.is_manual ==> (d matches DiceInputType::Formula(f) && f == result.formula),
{
    if result.is_manual {
        DiceInputType::Manual(result.total - result.character_modifier)
    } else {
        DiceInputType::Formula(result.formula.clone())
    }
}

/// A single die showing 20.
pub fn is_natural_20(result: &RollDisplayState) -> (b: bool)
    ensures
        b == (result.individual_rolls@.len() == 1 && result.individual_rolls@[0] == 20),
{
    result.individual_rolls.len() == 1 && result.individual_rolls[0] == 20
}

/// A single die showing 1.
pub fn is_natural_1(result: &RollDisplayState) -> (b: bool)
    ensures
        b == (result.individual_rolls@.len() == 1 && result.individual_rolls@[0] == 1),
{
    result.individual_rolls.len() == 1 && result.individual_rolls[0] == 1
}

/// The banner text, text class and glow class of a resolved outcome.
pub open spec fn outcome_display_spec(outcome: Seq<char>) -> (Seq<char>, Seq<char>, Seq<char>) {
    if outcome == "critical_success"@ {
        ("CRITICAL SUCCESS"@, "text-yellow-400"@, "shadow-[0_0_30px_rgba(250,204,21,0.5)]"@)
    } else if outcome == "success"@ {
        ("SUCCESS"@, "text-green-500"@, "shadow-[0_0_20px_rgba(34,197,94,0.5)]"@)
    } else if outcome == "failure"@ {
        ("FAILURE"@, "text-red-500"@, "shadow-[0_0_20px_rgba(239,68,68,0.5)]"@)
    } else if outcome == "critical_failure"@ {
        ("CRITICAL FAILURE"@, "text-red-700"@, "shadow-[0_0_30px_rgba(185,28,28,0.5)]"@)
    } else {
        ("RESULT"@, "text-amber-500"@, "shadow-[0_0_20px_rgba(245,158,11,0.5)]"@)
    }
}

/// The banner text, text class and glow class of a resolved outcome.
pub fn outcome_display(outcome: &str) -> (r: (&'static str, &'static str, &'static str))
    ensures
        (r.0@, r.1@, r.2@) == outcome_display_spec(outcome@),
{
    if crate::text::str_eq(outcome, "critical_success") {
        ("CRITICAL SUCCESS", "text-yellow-400", "shadow-[0_0_30px_rgba(250,204,21,0.5)]")
    } else if crate::text::str_eq(outcome, "success") {
        ("SUCCESS", "text-green-500", "shadow-[0_0_20px_rgba(34,197,94,0.5)]")
    } else if crate::text::str_eq(outcome, "failure") {
        ("FAILURE", "text-red-500", "shadow-[0_0_20px_rgba(239,68,68,0.5)]")
    } else if crate::text::str_eq(outcome, "critical_failure") {
        ("CRITICAL FAILURE", "text-red-700", "shadow-[0_0_30px_rgba(185,28,28,0.5)]")
    } else {
        ("RESULT", "text-amber-500", "shadow-[0_0_20px_rgba(245,158,11,0.5)]")
    }
}


/// An accepted formula rolls 1 to 20 dice of 1 to 100 sides, and its groups
/// spell the formula: the count, "d", the sides and the signed modifier.
pub proof fn law_accepted_formula_in_range(s: Seq<char>)
    requires
        dice_formula_spec(s) is Ok,
    ensures
        1 <= dice_formula_spec(s)->Ok_0.0 <= 20,
        1 <= dice_formula_spec(s)->Ok_0.1 <= 100,
        dice_groups(s) matches Some((a, b, m)) && s == a + seq!['d'] + b + match m {
            Some(ms) => ms,
            None => Seq::<char>::empty(),
        },
{
    let (a, b, m) = dice_groups(s)->Some_0;
    let i = digits_end(s, 0);
    lemma_digits_end_bounds(s, 0);
    let j = digits_end(s, i + 1);
    lemma_digits_end_bounds(s, i + 1);
    match m {
        Some(ms) => {
            assert(s =~= a + seq!['d'] + b + ms);
        },
        None => {
            assert(s =~= a + seq!['d'] + b + Seq::<char>::empty());
        },
    }
}

/// A formula of the right shape is accepted exactly when it rolls 1 to 20
/// dice of 1 to 100 sides, and then gives its count, sides and modifier (0
/// without one); too many or no dice, or too many or no sides, give their own
/// errors (the count is checked first); a formula of the wrong shape gives
/// the format error.
pub proof fn law_formula_limits(s: Seq<char>)
    ensures
        dice_groups(s) is None ==> dice_formula_spec(s) == Err::<(int, int, int), Seq<char>>(
            "Invalid formula format. Use XdY or XdY+Z (e.g., 1d20, 2d6+3)"@,
        ),
        dice_groups(s) matches Some((a, b, m)) ==> (parse_int_spec(a, false, 0, 255) matches Some(c) ==> (
        parse_int_spec(b, false, 0, 255) matches Some(sd) ==> {
            &&& (1 <= c <= 20 && 1 <= sd <= 100) ==> (dice_formula_spec(s) matches Ok((c2, sd2, md)) && c2 == c
                && sd2 == sd && (m is None ==> md == 0))
            &&& (c < 1 || c > 20) ==> dice_formula_spec(s) == Err::<(int, int, int), Seq<char>>("Dice count must be 1-20"@)
            &&& (1 <= c <= 20 && (sd < 1 || sd > 100)) ==> dice_formula_spec(s) == Err::<(int, int, int), Seq<char>>(
                "Die size must be 1-100"@,
            )
        })),
{
}

/// Each outcome has its own banner: "CRITICAL SUCCESS", "SUCCESS",
/// "FAILURE", "CRITICAL FAILURE", and "RESULT" for anything else.
pub proof fn law_outcome_banners(o: Seq<char>)
    ensures
        o == "critical_success"@ ==> outcome_display_spec(o).0 == "CRITICAL SUCCESS"@,
        o == "success"@ ==> outcome_display_spec(o).0 == "SUCCESS"@,
        o == "failure"@ ==> outcome_display_spec(o).0 == "FAILURE"@,
        o == "critical_failure"@ ==> outcome_display_spec(o).0 == "CRITICAL FAILURE"@,
        !(o == "critical_success"@ || o == "success"@ || o == "failure"@ || o == "critical_failure"@)
            ==> outcome_display_spec(o).0 == "RESULT"@,
{
    reveal_strlit("critical_success");
    reveal_strlit("success");
    reveal_strlit("failure");
    reveal_strlit("critical_failure");
    assert("critical_success"@.len() == 16 && "critical_failure"@.len() == 16 && "success"@.len() == 7
        && "failure"@.len() == 7);
    assert("critical_success"@[9] == 's' && "critical_failure"@[9] == 'f' && "success"@[0] == 's'
        && "failure"@[0] == 'f');
}

/// A run of digits from `i` to `j` that stops at a non-digit or the end ends
/// at `j`.
proof fn lemma_digits_end_at(s: Seq<char>, i: int, j: int)
    requires
        0 <= i <= j <= s.len(),
        forall|k: int| i <= k < j ==> is_digit(#[trigger] s[k]),
        j == s.len() || !is_digit(s[j]),
    ensures
        digits_end(s, i) == j,
    decreases j - i,
{
    if i < j {
        lemma_digits_end_at(s, i + 1, j);
    }
}

/// Every formula written as digits, "d", digits, and optionally a sign and
/// digits, has that shape: its groups are the count, the sides and the
/// signed modifier as written.
pub proof fn law_formula_shape(a: Seq<char>, b: Seq<char>, sign: char, m: Seq<char>)
    requires
        a.len() > 0,
        b.len() > 0,
        crate::text::all_digits(a),
        crate::text::all_digits(b),
    ensures
        dice_groups(a + seq!['d'] + b) == Some((a, b, None::<Seq<char>>)),
        ((sign == '+' || sign == '-') && m.len() > 0 && crate::text::all_digits(m)) ==> dice_groups(
            a + seq!['d'] + b + seq![sign] + m,
        ) == Some((a, b, Some(seq![sign] + m))),
{
    let s = a + seq!['d'] + b;
    let n = a.len() as int;
    assert(!is_digit('d')) by {
        assert('d' as u32 == 100);
    }
    assert forall|k: int| 0 <= k < n implies is_digit(#[trigger] s[k]) by {
        assert(s[k] == a[k]);
    }
    lemma_digits_end_at(s, 0, n);
    assert forall|k: int| n + 1 <= k < s.len() implies is_digit(#[trigger] s[k]) by {
        assert(s[k] == b[k - n - 1]);
    }
    lemma_digits_end_at(s, n + 1, s.len() as int);
    assert(s.subrange(0, n) =~= a);
    assert(s.subrange(n + 1, s.len() as int) =~= b);
    if (sign == '+' || sign == '-') && m.len() > 0 && crate::text::all_digits(m) {
        let t = s + seq![sign] + m;
        let e = s.len() as int;
        assert(!is_digit(sign)) by {
            assert('+' as u32 == 43 && '-' as u32 == 45);
        }
        assert forall|k: int| 0 <= k < n implies is_digit(#[trigger] t[k]) by {
            assert(t[k] == a[k]);
        }
        lemma_digits_end_at(t, 0, n);
        assert forall|k: int| n + 1 <= k < e implies is_digit(#[trigger] t[k]) by {
            assert(t[k] == b[k - n - 1]);
        }
        lemma_digits_end_at(t, n + 1, e);
        assert forall|k: int| e + 1 <= k < t.len() implies is_digit(#[trigger] t[k]) by {
            assert(t[k] == m[k - e - 1]);
        }
        lemma_digits_end_at(t, e + 1, t.len() as int);
        assert(t.subrange(0, n) =~= a);
        assert(t.subrange(n + 1, e) =~= b);
        assert(t.subrange(e, t.len() as int) =~= seq![sign] + m);
        assert(a + seq!['d'] + b + seq![sign] + m =~= t);
    }
}

} // verus!
