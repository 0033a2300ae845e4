use zinharo::{client_version, err_min_version, Version, ZinharoError};

fn v(major: i32, minor: i32, patch: i32) -> Version {
    Version { major, minor, patch }
}

#[test]
fn from_str_reads_three_fields() {
    let ver = Version::from_str("2.4.23");
    assert_eq!(ver, v(2, 4, 23));
}

#[test]
fn parse_accepts_signs_and_extra_fields() {
    assert_eq!(Version::parse("-1.+2.3"), Some(v(-1, 2, 3)));
    assert_eq!(Version::parse("1.2.3.4"), Some(v(1, 2, 3)));
    assert_eq!(Version::parse("2147483647.0.-2147483648"), Some(v(2147483647, 0, -2147483648)));
}

#[test]
fn parse_rejects_malformed() {
    assert_eq!(Version::parse("1.2"), None);
    assert_eq!(Version::parse("a.b.c"), None);
    assert_eq!(Version::parse("1.2.x"), None);
    assert_eq!(Version::parse("1..2"), None);
    assert_eq!(Version::parse("1.2.3."), None);
    assert_eq!(Version::parse("2147483648.0.0"), None);
    assert_eq!(Version::parse("99999999999999999999.0.0"), None);
    assert_eq!(Version::parse("+.1.2"), None);
    assert_eq!(Version::parse(""), None);
}

#[test]
fn compare_is_componentwise_and() {
    // equal versions are adequate
    assert!(!v(1, 2, 3).compare_versions(&v(1, 2, 3)));
    // every component at least the required one
    assert!(!v(2, 3, 4).compare_versions(&v(1, 2, 3)));
    // a larger major does not excuse a smaller minor or patch
    assert!(v(1, 0, 0).compare_versions(&v(0, 9, 9)));
    assert!(v(1, 0, 0).compare_versions(&v(0, 1, 0)));
    assert!(v(1, 5, 0).compare_versions(&v(0, 0, 1)));
    // one component short by one
    assert!(v(1, 2, 2).compare_versions(&v(1, 2, 3)));
    assert!(v(1, 1, 3).compare_versions(&v(1, 2, 3)));
    assert!(v(0, 2, 3).compare_versions(&v(1, 2, 3)));
}

#[test]
fn client_is_zero_zero_one() {
    assert_eq!(client_version(), v(0, 0, 1));
}

#[test]
fn from_resp_by_status() {
    assert_eq!(Version::from_resp(200, "0.3.1").unwrap(), v(0, 3, 1));
    assert!(matches!(Version::from_resp(403, ""), Err(ZinharoError::FirewallBlock)));
    assert!(matches!(Version::from_resp(429, ""), Err(ZinharoError::UnknownStatusCode(429))));
    assert!(matches!(Version::from_resp(500, ""), Err(ZinharoError::UnknownStatusCode(500))));
    assert!(matches!(Version::from_resp(200, "0.1"), Err(ZinharoError::InvalidResponse)));
}

#[test]
fn gate_on_minimum_version() {
    assert!(err_min_version(200, "0.0.1").is_ok());
    assert!(err_min_version(200, "0.0.0").is_ok());
    assert!(matches!(err_min_version(200, "0.0.2"), Err(ZinharoError::ApiVersionInadequate)));
    assert!(matches!(err_min_version(200, "0.1.0"), Err(ZinharoError::ApiVersionInadequate)));
    assert!(matches!(err_min_version(200, "1.0.0"), Err(ZinharoError::ApiVersionInadequate)));
    assert!(matches!(err_min_version(200, "x"), Err(ZinharoError::InvalidResponse)));
    assert!(matches!(err_min_version(403, "0.0.1"), Err(ZinharoError::FirewallBlock)));
    assert!(matches!(err_min_version(502, ""), Err(ZinharoError::UnknownStatusCode(502))));
}
