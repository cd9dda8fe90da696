use catools::error::CatoolsError;
use catools::utils::validation::{compare_version, parse_version, validate_ip, validate_version};

fn validation_message(r: Result<(), CatoolsError>) -> String {
    match r {
        Err(CatoolsError::ValidationError(m)) => m,
        _ => panic!("expected a validation error"),
    }
}

#[test]
fn test_validate_ip() {
    assert!(validate_ip("192.168.1.1").is_ok());
    assert!(validate_ip("10.0.0.254").is_ok());
    assert!(validate_ip("256.1.1.1").is_err());
    assert!(validate_ip("192.168.1").is_err());
}

#[test]
fn test_version_compare() {
    assert!(validate_version("v25.08").is_err());
    assert_eq!(compare_version("v25.8", "v24.12").unwrap(), 1);
    assert_eq!(compare_version("v24.12", "v25.8").unwrap(), -1);
    assert_eq!(compare_version("v25.8", "v25.8").unwrap(), 0);
}

#[test]
fn ip_error_messages() {
    assert_eq!(validation_message(validate_ip("192.168.1")), "Invalid IP format: 192.168.1");
    assert_eq!(validation_message(validate_ip("1.2.3.4.5")), "Invalid IP format: 1.2.3.4.5");
    assert_eq!(validation_message(validate_ip("1..1.1")), "Invalid IP octet");
    assert_eq!(validation_message(validate_ip("1.1.1.1234")), "Invalid IP octet");
    assert_eq!(validation_message(validate_ip("1.-1.1.1")), "Invalid IP octet");
    assert_eq!(validation_message(validate_ip("1.1.1.256")), "Invalid IP octet");
    assert_eq!(validation_message(validate_ip("1.1.1.0")), "Last octet must be 1-254");
    assert_eq!(validation_message(validate_ip("1.1.1.255")), "Last octet must be 1-254");
}

#[test]
fn ip_octets_follow_u8_parsing() {
    // `str::parse::<u8>` accepts a leading '+' and leading zeros.
    assert!(validate_ip("+1.001.01.1").is_ok());
    assert!(validate_ip("192.168.1.254").is_ok());
    assert!(validate_ip("0.0.0.1").is_ok());
    assert!(validate_ip("+.1.1.1").is_err());
    assert!(validate_ip(" 1.1.1.1").is_err());
    assert!(validate_ip("１.1.1.1").is_err());
    assert!(validate_ip("").is_err());
}

#[test]
fn version_forms() {
    assert!(validate_version("v25.8").is_ok());
    assert!(validate_version("v25.12").is_ok());
    assert!(validate_version("v25.0").is_ok());
    assert!(validate_version("25.8").is_err());
    assert!(validate_version("v2.8").is_err());
    assert!(validate_version("v250.8").is_err());
    assert!(validate_version("v25.").is_err());
    assert!(validate_version("v25.123").is_err());
    assert!(validate_version("v25.8.1").is_err());
    assert!(validate_version("v25").is_err());
    assert!(validate_version("vab.1").is_err());
    assert!(validate_version("v25.+8").is_err());
    match validate_version("v25.08") {
        Err(CatoolsError::ValidationError(m)) => assert_eq!(m, "Invalid version format: v25.08"),
        _ => panic!("expected a validation error"),
    }
}

#[test]
fn version_parsing() {
    assert_eq!(parse_version("v25.8").unwrap(), (25, 8));
    assert_eq!(parse_version("v24.12").unwrap(), (24, 12));
    assert_eq!(parse_version("v05.1").unwrap(), (5, 1));
    assert!(parse_version("v25.08").is_err());
}

#[test]
fn version_order_laws_on_examples() {
    // antisymmetry, reflexivity and transitivity on concrete versions
    let vs = ["v24.1", "v24.12", "v25.8", "v25.10", "v26.1"];
    for a in vs.iter() {
        assert_eq!(compare_version(a, a).unwrap(), 0);
        for b in vs.iter() {
            let ab = compare_version(a, b).unwrap();
            let ba = compare_version(b, a).unwrap();
            assert_eq!(ab, -ba);
            assert_eq!(ab == 0, a == b);
            for c in vs.iter() {
                if ab == 1 && compare_version(b, c).unwrap() == 1 {
                    assert_eq!(compare_version(a, c).unwrap(), 1);
                }
            }
        }
    }
    assert!(compare_version("v25.8", "bad").is_err());
    match compare_version("bad", "v25.8x") {
        Err(CatoolsError::ValidationError(m)) => assert_eq!(m, "Invalid version format: bad"),
        _ => panic!("expected a validation error"),
    }
    match compare_version("v25.8", "v25.8x") {
        Err(CatoolsError::ValidationError(m)) => assert_eq!(m, "Invalid version format: v25.8x"),
        _ => panic!("expected a validation error"),
    }
}
