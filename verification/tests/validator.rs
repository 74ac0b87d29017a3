use unified_trading::config::ValidatorConfig;
use unified_trading::quantity::Real;
use unified_trading::validator::{RequestValidator, ValidationError};

fn num(x: f64) -> Real {
    Real::from_bits(x.to_bits())
}

fn make_validator() -> RequestValidator {
    RequestValidator::new(ValidatorConfig::default())
}

#[test]
fn test_validate_symbol_valid() {
    let v = make_validator();
    assert!(v.validate_symbol("AAPL").is_ok());
    assert!(v.validate_symbol("BRK-B").is_ok());
    assert!(v.validate_symbol("VX.Z").is_ok());
}

#[test]
fn test_validate_symbol_invalid() {
    let v = make_validator();
    assert!(v.validate_symbol("").is_err());
    assert!(v.validate_symbol("A".repeat(21).as_str()).is_err());
    assert!(v.validate_symbol("AAPL@").is_err());
    assert!(v.validate_symbol("AAP L").is_err());
}

#[test]
fn test_validate_quantity_valid() {
    let v = make_validator();
    assert!(v.validate_quantity(num(1.0)).is_ok());
    assert!(v.validate_quantity(num(1000.0)).is_ok());
}

#[test]
fn test_validate_quantity_invalid() {
    let v = make_validator();
    assert!(v.validate_quantity(num(0.0)).is_err());
    assert!(v.validate_quantity(num(-1.0)).is_err());
    assert!(v.validate_quantity(num(2_000_000.0)).is_err());
    assert!(v.validate_quantity(num(f64::NAN)).is_err());
}

#[test]
fn test_validate_price_valid() {
    let v = make_validator();
    assert!(v.validate_price(num(0.01)).is_ok());
    assert!(v.validate_price(num(150.0)).is_ok());
}

#[test]
fn test_validate_price_invalid() {
    let v = make_validator();
    assert!(v.validate_price(num(0.0)).is_err());
    assert!(v.validate_price(num(-10.0)).is_err());
    assert!(v.validate_price(num(f64::INFINITY)).is_err());
}

#[test]
fn test_validate_order_id() {
    let v = make_validator();
    assert!(v.validate_order_id("order-123").is_ok());
    assert!(v.validate_order_id("").is_err());
}

#[test]
fn letters_of_other_scripts_are_letters() {
    let v = make_validator();
    for c in ['Ä', 'ß', '漢', '٣', '½', '€', '—', '\u{200b}'] {
        let s = c.to_string();
        assert_eq!(v.validate_symbol(&s).is_ok(), c.is_alphanumeric(), "{:?}", c);
    }
}

#[test]
fn errors_say_what_is_wrong() {
    let v = make_validator();
    let texts: Vec<String> = vec![
        v.validate_symbol("").unwrap_err(),
        v.validate_symbol(&"A".repeat(21)).unwrap_err(),
        v.validate_symbol("A B").unwrap_err(),
        v.validate_quantity(num(-1.0)).unwrap_err(),
        v.validate_price(num(0.0)).unwrap_err(),
        v.validate_order_id("").unwrap_err(),
    ]
    .iter()
    .map(|e: &ValidationError| e.to_text())
    .collect();
    for t in &texts {
        assert!(!t.is_empty());
    }
    println!("{:?}", texts);
}
