use chat_agent::calc::{calculate, evaluate_expression, CalcValue};
use chat_agent::tools::dispatch_tool_call;

#[test]
fn calculate_simple_addition() {
    assert_eq!(calculate("2 + 2"), "4");
}

#[test]
fn calculate_square_root() {
    assert_eq!(calculate("sqrt(16)"), "4");
}

#[test]
fn calculate_division_by_zero_is_not_a_number() {
    assert_eq!(calculate("10 / 0"), "NaN");
}

#[test]
fn calculate_left_scan_semantics() {
    // Left-to-right scanning, not operator precedence.
    assert_eq!(calculate("1 + 2 * 3"), "9");
}

#[test]
fn calculate_parentheses() {
    assert_eq!(calculate("2 * (3 + 4)"), "14");
    assert_eq!(calculate("(1 + 2) * 3"), "9");
}

#[test]
fn calculate_decimals_and_fractions() {
    assert_eq!(calculate("2.5 + 2.5"), "5");
    assert_eq!(calculate("10 / 4"), "5/2");
    assert_eq!(calculate("0.5"), "1/2");
}

#[test]
fn calculate_subtraction_and_negatives() {
    assert_eq!(calculate("10 - 3"), "7");
    assert_eq!(calculate("-5 + 3"), "-2");
    assert_eq!(calculate("3 - 5"), "-2");
}

#[test]
fn calculate_power() {
    assert_eq!(calculate("2 ^ 10"), "1024");
    assert_eq!(calculate("2 ^ -1"), "1/2");
}

#[test]
fn calculate_negative_square_root_is_not_a_number() {
    assert_eq!(calculate("sqrt(-4)"), "NaN");
}

#[test]
fn calculate_inexact_square_root_is_not_a_number() {
    assert_eq!(calculate("sqrt(2)"), "NaN");
}

#[test]
fn calculate_garbage_is_not_a_number() {
    assert_eq!(calculate("two plus two"), "NaN");
    assert_eq!(calculate(""), "NaN");
    assert_eq!(calculate("1 +"), "NaN");
}

#[test]
fn calculate_plain_number() {
    assert_eq!(calculate("42"), "42");
    assert_eq!(calculate("  7  "), "7");
}

#[test]
fn evaluate_expression_exact_value() {
    match evaluate_expression("1 / 3") {
        CalcValue::Num(r) => {
            assert_eq!(r.num, 1);
            assert_eq!(r.den, 3);
        },
        CalcValue::NotANumber => panic!("expected an exact rational"),
    }
}

#[test]
fn dispatch_calculator_tool() {
    let r = dispatch_tool_call("calculate", "{\"expression\": \"2 + 2\"}");
    assert_eq!(r.unwrap(), "Result: 4");
}

#[test]
fn dispatch_calculator_tool_defaults_to_zero() {
    let r = dispatch_tool_call("calculate", "{}");
    assert_eq!(r.unwrap(), "Result: 0");
}

#[test]
fn dispatch_weather_tool() {
    let r = dispatch_tool_call("get_current_weather", "{\"location\": \"Paris\"}");
    assert_eq!(r.unwrap(), "Weather in Paris: Sunny, 72\u{00b0}F");
}

#[test]
fn dispatch_weather_tool_defaults_location() {
    let r = dispatch_tool_call("get_current_weather", "{\"location\": 3}");
    assert_eq!(r.unwrap(), "Weather in unknown: Sunny, 72\u{00b0}F");
}

#[test]
fn dispatch_unknown_tool_is_a_text_reply() {
    let r = dispatch_tool_call("frobnicate", "{}");
    assert_eq!(r.unwrap(), "Unknown function: frobnicate");
}

#[test]
fn dispatch_malformed_arguments_is_an_error() {
    assert!(dispatch_tool_call("calculate", "{not json").is_err());
}

#[test]
fn calculate_fractional_exponent_is_not_a_number() {
    assert_eq!(calculate("2 ^ 0.5"), "NaN");
}

#[test]
fn calculate_out_of_range_values_are_not_a_number() {
    // Values beyond the evaluator's exact range become the marker.
    assert_eq!(calculate("1000000000000000000 * 10"), "NaN");
    assert_eq!(calculate("10000000000000000000"), "NaN");
}
