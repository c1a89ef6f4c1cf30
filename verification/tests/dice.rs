use wrldbldr_player::dice::{
    formula_roll, is_natural_1, is_natural_20, manual_roll, outcome_display, parse_dice_formula,
    parse_formula, parse_manual_roll, roll_submission, DiceInputType,
};

#[test]
fn formula_basic() {
    assert_eq!(parse_formula("1d20"), Ok((1, 20, 0)));
    assert_eq!(parse_formula("2d6+3"), Ok((2, 6, 3)));
    assert_eq!(parse_formula("1d20-2"), Ok((1, 20, -2)));
}

#[test]
fn formula_is_trimmed_and_case_insensitive() {
    assert_eq!(parse_formula("  3D8+1 "), Ok((3, 8, 1)));
    assert_eq!(parse_formula("007d010"), Ok((7, 10, 0)));
}

#[test]
fn formula_range_errors() {
    assert_eq!(parse_formula("0d6"), Err("Dice count must be 1-20".to_string()));
    assert_eq!(parse_formula("21d6"), Err("Dice count must be 1-20".to_string()));
    assert_eq!(parse_formula("2d0"), Err("Die size must be 1-100".to_string()));
    assert_eq!(parse_formula("2d101"), Err("Die size must be 1-100".to_string()));
}

#[test]
fn formula_number_errors() {
    assert_eq!(parse_formula("256d6"), Err("Invalid dice count".to_string()));
    assert_eq!(parse_formula("2d300"), Err("Invalid die size".to_string()));
    // the count is checked before the size
    assert_eq!(parse_formula("999d999"), Err("Invalid dice count".to_string()));
}

#[test]
fn formula_shape_errors() {
    let e = Err("Invalid formula format. Use XdY or XdY+Z (e.g., 1d20, 2d6+3)".to_string());
    for f in ["", "d20", "1d", "1d20+", "1x20", "1d20 + 2", "+1d20", "1d2d3", "1d20*2", "abc", "1d20++2"] {
        assert_eq!(parse_formula(f), e, "formula {:?}", f);
    }
}

#[test]
fn formula_modifier_out_of_range_is_zero() {
    assert_eq!(parse_formula("1d20+99999999999"), Ok((1, 20, 0)));
    assert_eq!(parse_dice_formula("1d20-2147483648"), Ok((1, 20, -2147483648)));
}

#[test]
fn formula_roll_totals() {
    let r = formula_roll("2d6+3".to_string(), vec![4, 5], 3, -1);
    assert_eq!(r.dice_total, 9);
    assert_eq!(r.total, 11);
    assert_eq!(r.individual_rolls, vec![4, 5]);
    assert!(!r.is_manual);
    assert!(matches!(roll_submission(&r), DiceInputType::Formula(f) if f == "2d6+3"));
}

#[test]
fn manual_roll_entry() {
    assert_eq!(parse_manual_roll(" 17 "), Ok(17));
    assert_eq!(parse_manual_roll("+4"), Ok(4));
    assert_eq!(parse_manual_roll("0"), Err("Value must be at least 1".to_string()));
    assert_eq!(parse_manual_roll("-3"), Err("Value must be at least 1".to_string()));
    assert_eq!(parse_manual_roll("seven"), Err("Please enter a valid number".to_string()));
    assert_eq!(parse_manual_roll(""), Err("Please enter a valid number".to_string()));
    let r = manual_roll(17, 3);
    assert_eq!(r.formula, "Manual");
    assert_eq!(r.total, 20);
    assert_eq!(r.formula_modifier, 0);
    assert!(r.is_manual);
    assert!(matches!(roll_submission(&r), DiceInputType::Manual(17)));
}

#[test]
fn natural_rolls() {
    assert!(is_natural_20(&manual_roll(20, 0)));
    assert!(!is_natural_1(&manual_roll(20, 0)));
    assert!(is_natural_1(&manual_roll(1, 5)));
    assert!(!is_natural_20(&formula_roll("2d20".to_string(), vec![20, 20], 0, 0)));
}

#[test]
fn outcome_banner() {
    assert_eq!(outcome_display("critical_success").0, "CRITICAL SUCCESS");
    assert_eq!(outcome_display("success").1, "text-green-500");
    assert_eq!(outcome_display("failure").0, "FAILURE");
    assert_eq!(outcome_display("critical_failure").1, "text-red-700");
    assert_eq!(outcome_display("Success").0, "RESULT");
}
