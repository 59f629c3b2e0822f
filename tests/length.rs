use element_style::json::JsonField;
use element_style::length::{deserialize, decode_unit, serialize, parse_numeral, Decimal, Length, UnitError};
use element_style::text::same_text;

fn dec(negative: bool, whole: &str, frac: &str) -> Decimal {
    Decimal { negative, whole: whole.chars().collect(), frac: frac.chars().collect() }
}

fn enc(u: Option<Length>) -> Option<String> {
    serialize(&u)
}

#[test]
fn decodes_percent_and_points() {
    assert_eq!(decode_unit("50%"), Ok(Length::Percent(dec(false, "50", ""))));
    assert_eq!(decode_unit("120px"), Ok(Length::Point(dec(false, "120", ""))));
    assert_eq!(decode_unit("3.75%"), Ok(Length::Percent(dec(false, "3", "75"))));
    assert_eq!(decode_unit("0.5px"), Ok(Length::Point(dec(false, "0", "5"))));
    assert_eq!(decode_unit(".5px"), Ok(Length::Point(dec(false, "", "5"))));
    assert_eq!(decode_unit("-5px"), Ok(Length::Point(dec(true, "5", ""))));
    assert_eq!(decode_unit("+7%"), Ok(Length::Percent(dec(false, "7", ""))));
}

#[test]
fn decodes_auto() {
    assert_eq!(decode_unit("auto"), Ok(Length::Auto));
}

#[test]
fn encodes_auto_and_undefined_alike() {
    assert_eq!(enc(Some(Length::Auto)), Some("auto".to_string()));
    assert_eq!(enc(Some(Length::Undefined)), Some("auto".to_string()));
    assert_eq!(enc(None), None);
}

#[test]
fn encoding_truncates_toward_zero() {
    assert_eq!(enc(Some(Length::Percent(dec(false, "12", "9")))), Some("12%".to_string()));
    assert_eq!(enc(Some(Length::Point(dec(true, "3", "7")))), Some("-3px".to_string()));
    assert_eq!(enc(Some(Length::Point(dec(true, "0", "5")))), Some("0px".to_string()));
    assert_eq!(enc(Some(Length::Percent(dec(false, "007", "5")))), Some("7%".to_string()));
    assert_eq!(enc(Some(Length::Percent(dec(false, "", "25")))), Some("0%".to_string()));
    assert_eq!(enc(Some(Length::Point(dec(false, "120", "")))), Some("120px".to_string()));
}

#[test]
fn encode_decode_encode_is_stable() {
    let first = enc(Some(Length::Percent(dec(false, "42", "99")))).unwrap();
    assert_eq!(first, "42%");
    let back = decode_unit(&first).unwrap();
    assert_eq!(back, Length::Percent(dec(false, "42", "")));
    assert_eq!(enc(Some(back)), Some(first));
    let first = enc(Some(Length::Point(dec(true, "0", "25")))).unwrap();
    let back = decode_unit(&first).unwrap();
    assert_eq!(back, Length::Point(dec(false, "0", "")));
    assert_eq!(enc(Some(back)).unwrap(), first);
}

#[test]
fn unknown_unit_is_an_error() {
    assert_eq!(decode_unit("50q"), Err(UnitError::UnknownUnit));
    assert_eq!(decode_unit("50"), Err(UnitError::UnknownUnit));
    assert_eq!(decode_unit(""), Err(UnitError::UnknownUnit));
    assert_eq!(decode_unit("Auto"), Err(UnitError::UnknownUnit));
}

#[test]
fn bad_number_is_an_error() {
    assert_eq!(decode_unit("%"), Err(UnitError::BadNumber));
    assert_eq!(decode_unit("px"), Err(UnitError::BadNumber));
    assert_eq!(decode_unit("-%"), Err(UnitError::BadNumber));
    assert_eq!(decode_unit(".px"), Err(UnitError::BadNumber));
    assert_eq!(decode_unit("1.2.3%"), Err(UnitError::BadNumber));
    assert_eq!(decode_unit("NaN%"), Err(UnitError::BadNumber));
    assert_eq!(decode_unit("inf%"), Err(UnitError::BadNumber));
    assert_eq!(decode_unit("5 px"), Err(UnitError::BadNumber));
}

#[test]
fn numeral_prefix_is_read() {
    assert_eq!(parse_numeral("12.5px", 4), Some(dec(false, "12", "5")));
    assert_eq!(parse_numeral("12.5px", 5), None);
    assert_eq!(parse_numeral("7.", 2), Some(dec(false, "7", "")));
}

#[test]
fn text_comparison() {
    assert!(same_text("row", "row"));
    assert!(!same_text("row", "rows"));
    assert!(!same_text("row", "rod"));
    assert!(same_text("", ""));
}

#[test]
fn deserialize_reads_strings_only() {
    assert_eq!(deserialize(&JsonField::Text("12px".to_string())), Ok(Some(Length::Point(dec(false, "12", "")))));
    assert_eq!(deserialize(&JsonField::Text("12".to_string())), Err(UnitError::UnknownUnit));
    assert_eq!(deserialize(&JsonField::Null), Ok(None));
    assert_eq!(deserialize(&JsonField::Bool(true)), Ok(None));
    assert_eq!(deserialize(&JsonField::Number(serde_json::Number::from(12))), Ok(None));
}

#[test]
fn well_formedness_is_checked() {
    assert!(dec(false, "1", "").is_wf());
    assert!(dec(true, "", "5").is_wf());
    assert!(!dec(false, "", "").is_wf());
    assert!(!dec(false, "1a", "").is_wf());
    assert!(!Length::Percent(dec(false, "", ".")).is_wf());
    assert!(Length::Auto.is_wf());
}

#[test]
fn exponents_move_the_point() {
    assert_eq!(decode_unit("1e3px"), Ok(Length::Point(dec(false, "1000", ""))));
    assert_eq!(decode_unit("12.5E1px"), Ok(Length::Point(dec(false, "125", ""))));
    assert_eq!(decode_unit("125e-1%"), Ok(Length::Percent(dec(false, "12", "5"))));
    assert_eq!(decode_unit("1.5e-2%"), Ok(Length::Percent(dec(false, "", "015"))));
    assert_eq!(decode_unit("-2.5e+0px"), Ok(Length::Point(dec(true, "2", "5"))));
    assert_eq!(decode_unit("0.25e1%"), Ok(Length::Percent(dec(false, "02", "5"))));
    assert_eq!(serialize(&Some(decode_unit("1e3px").unwrap())), Some("1000px".to_string()));
    assert_eq!(serialize(&Some(decode_unit("1.5e-2%").unwrap())), Some("0%".to_string()));
    assert_eq!(serialize(&Some(decode_unit("-9.9e1%").unwrap())), Some("-99%".to_string()));
}

#[test]
fn exponent_limits() {
    match decode_unit("1e308px") {
        Ok(Length::Point(d)) => {
            assert_eq!(d.whole.len(), 309);
            assert!(d.frac.is_empty());
        }
        other => panic!("unexpected {:?}", other),
    }
    assert_eq!(decode_unit("1e309px"), Err(UnitError::BadNumber));
    assert_eq!(decode_unit("1e400px"), Err(UnitError::BadNumber));
    assert_eq!(decode_unit("1e99999999999999999999px"), Err(UnitError::BadNumber));
    let big = format!("{}px", "9".repeat(310));
    assert_eq!(decode_unit(&big), Err(UnitError::BadNumber));
    assert_eq!(decode_unit("1epx"), Err(UnitError::BadNumber));
    assert_eq!(decode_unit("1e+%"), Err(UnitError::BadNumber));
    assert_eq!(decode_unit("e3px"), Err(UnitError::BadNumber));
    assert_eq!(decode_unit("1e3.5px"), Err(UnitError::BadNumber));
    assert_eq!(decode_unit("1e3e1px"), Err(UnitError::BadNumber));
}

#[test]
fn tiny_and_zero_values_are_finite() {
    assert_eq!(decode_unit("1e-500%"), Ok(Length::Percent(dec(false, "0", ""))));
    assert_eq!(decode_unit("-1e-99999999999999999999px"), Ok(Length::Point(dec(true, "0", ""))));
    assert_eq!(serialize(&Some(decode_unit("-1e-500%").unwrap())), Some("0%".to_string()));
    assert_eq!(decode_unit("0e500px"), Ok(Length::Point(dec(false, "0", ""))));
    assert_eq!(decode_unit("0.00e99999999999999999999%"), Ok(Length::Percent(dec(false, "0", "00"))));
    let tiny = format!("0.{}1%", "0".repeat(400));
    assert_eq!(decode_unit(&tiny), Ok(Length::Percent(dec(false, "0", ""))));
    let kept = format!("0.{}1e450px", "0".repeat(449));
    match decode_unit(&kept) {
        Ok(Length::Point(d)) => {
            assert_eq!(d.whole.len(), 451);
            assert_eq!(d.whole.iter().filter(|c| **c == '1').count(), 1);
            assert_eq!(*d.whole.last().unwrap(), '1');
            assert!(d.frac.is_empty());
        }
        other => panic!("unexpected {:?}", other),
    }
    assert_eq!(serialize(&Some(decode_unit(&kept).unwrap())), Some("1px".to_string()));
    assert_eq!(decode_unit("5e-331px"), Ok(Length::Point(dec(false, "", &format!("{}5", "0".repeat(330))))));
}
