use discord_updater::version::{decimal, Version, VersionError};
use std::cmp::Ordering;

fn v(s: &str) -> Version {
    Version::parse(s).unwrap()
}

#[test]
fn parses_plain_version() {
    let x = v("0.0.59");
    assert_eq!((x.major, x.minor, x.patch), (0, 0, 59));
    assert_eq!(x.pre, "");
    assert_eq!(x.build, "");
}

#[test]
fn parses_prerelease_and_build() {
    let x = v("1.2.3-alpha.1+build.5");
    assert_eq!((x.major, x.minor, x.patch), (1, 2, 3));
    assert_eq!(x.pre, "alpha.1");
    assert_eq!(x.build, "build.5");
}

#[test]
fn rejects_non_semver() {
    for s in ["", "1.2", "1.2.3.4", "01.2.3", "1.2.3-", "1.2.3-01", "v1.2.3", " 1.2.3", "1.2.3+", "a.b.c", "1.2.3-a..b"] {
        assert_eq!(Version::parse(s).unwrap_err(), VersionError::NotSemver, "{s}");
    }
}

#[test]
fn rejects_number_beyond_u64() {
    assert!(Version::parse("18446744073709551616.0.0").is_err());
    assert_eq!(v("18446744073709551615.0.0").major, u64::MAX);
}

#[test]
fn text_round_trips() {
    for s in ["0.0.0", "1.2.3", "10.20.30-rc.1", "1.0.0+0017", "1.0.0-x-y.7+b.c"] {
        assert_eq!(v(s).to_text(), s);
        assert_eq!(v(&v(s).to_text()).to_text(), s);
    }
}

#[test]
fn decimal_digits() {
    assert_eq!(decimal(0), "0");
    assert_eq!(decimal(7), "7");
    assert_eq!(decimal(1203), "1203");
    assert_eq!(decimal(u64::MAX), "18446744073709551615");
}

#[test]
fn zero_version_text() {
    assert_eq!(Version::zero().to_text(), "0.0.0");
}

#[test]
fn precedence_follows_semver() {
    let chain = [
        "1.0.0-alpha",
        "1.0.0-alpha.1",
        "1.0.0-alpha.beta",
        "1.0.0-beta",
        "1.0.0-beta.2",
        "1.0.0-beta.11",
        "1.0.0-rc.1",
        "1.0.0",
        "1.9.0",
        "1.10.0",
        "2.0.0",
    ];
    for i in 0..chain.len() {
        for j in 0..chain.len() {
            let expected = i.cmp(&j);
            assert_eq!(v(chain[i]).compare(&v(chain[j])), expected, "{} {}", chain[i], chain[j]);
            assert_eq!(v(chain[i]).precedes(&v(chain[j])), i < j);
        }
    }
}

#[test]
fn build_metadata_does_not_rank() {
    assert_eq!(v("1.0.0+a").compare(&v("1.0.0+b")), Ordering::Equal);
    assert!(!v("1.0.0+a").precedes(&v("1.0.0")));
}

#[test]
fn equal_versions_do_not_precede() {
    assert!(!v("0.0.59").precedes(&v("0.0.59")));
    assert!(v("0.0.0").precedes(&v("0.0.1")));
}
