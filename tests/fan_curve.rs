use rog_core::fan_curve::{check_curve, format_curve, parse_curve, parse_points, CurveError, CurvePoint};

#[test]
fn parse_then_format_gives_the_text_back() {
    let text = "30c:1%,49c:2%,59c:3%";
    let c = parse_curve(text).unwrap();
    assert_eq!(c.len(), 3);
    assert_eq!(c[0], CurvePoint { temp: 30, value: 1, percent: true });
    assert_eq!(c[2], CurvePoint { temp: 59, value: 3, percent: true });
    assert_eq!(format_curve(&c), text);
}

#[test]
fn long_curve_round_trips() {
    let text = "30c:1%,49c:2%,59c:3%,69c:4%,79c:31%,89c:49%,99c:56%,109c:58%";
    assert_eq!(format_curve(&parse_curve(text).unwrap()), text);
    let raw = "0c:0,100c:128,255c:255";
    assert_eq!(format_curve(&parse_curve(raw).unwrap()), raw);
}

#[test]
fn non_increasing_temperatures_are_rejected() {
    assert_eq!(parse_curve("30c:1%,30c:2%"), Err(CurveError::NotIncreasing));
    assert_eq!(parse_curve("50c:1%,40c:2%"), Err(CurveError::NotIncreasing));
}

#[test]
fn malformed_text_is_rejected() {
    assert_eq!(parse_curve(""), Err(CurveError::Syntax));
    assert_eq!(parse_curve("30c:1%,"), Err(CurveError::Syntax));
    assert_eq!(parse_curve("30:1%"), Err(CurveError::Syntax));
    assert_eq!(parse_curve("256c:1"), Err(CurveError::Syntax));
    assert_eq!(parse_curve("030c:1"), Err(CurveError::Syntax));
    assert_eq!(parse_curve("30c:1%x"), Err(CurveError::Syntax));
}

#[test]
fn percent_above_hundred_is_rejected() {
    assert_eq!(parse_curve("30c:101%"), Err(CurveError::PercentOutOfRange));
    assert!(parse_points("30c:101%").is_ok());
    assert_eq!(parse_curve("30c:200"), Ok(vec![CurvePoint { temp: 30, value: 200, percent: false }]));
}

#[test]
fn empty_curve_is_rejected() {
    assert_eq!(check_curve(&vec![]), Err(CurveError::Empty));
}
