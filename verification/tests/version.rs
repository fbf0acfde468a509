use toolchain_guard::failure::Mismatch;
use toolchain_guard::version::Version;

fn version(text: &str) -> Version {
    Version::parse(text).unwrap()
}

#[test]
fn parse_reads_the_three_numbers() {
    let v = version("1.62.0");
    assert_eq!(v.major(), 1);
    assert_eq!(v.minor(), 62);
    assert_eq!(v.patch(), 0);
    assert_eq!(v.pre(), "");
    assert_eq!(v.build(), "");
}

#[test]
fn parse_reads_pre_release_and_build() {
    let v = version("1.2.3-alpha.1+build.5");
    assert_eq!(v.major(), 1);
    assert_eq!(v.minor(), 2);
    assert_eq!(v.patch(), 3);
    assert_eq!(v.pre(), "alpha.1");
    assert_eq!(v.build(), "build.5");
}

#[test]
fn parse_reads_build_without_pre_release() {
    let v = version("0.8.1+zstd.1.5.0");
    assert_eq!(v.major(), 0);
    assert_eq!(v.minor(), 8);
    assert_eq!(v.patch(), 1);
    assert_eq!(v.pre(), "");
    assert_eq!(v.build(), "zstd.1.5.0");
}

#[test]
fn parse_takes_the_largest_numbers() {
    let v = version("18446744073709551615.18446744073709551615.18446744073709551615");
    assert_eq!(v.major(), u64::MAX);
    assert_eq!(v.minor(), u64::MAX);
    assert_eq!(v.patch(), u64::MAX);
}

#[test]
fn parse_rejects_what_is_no_version() {
    let rejected = [
        "",
        "1.0",
        "1.0.01",
        "1.0.unknown",
        "1.0.0-",
        "1.0.0+",
        "1.0.0-alpha_123",
        "23456789999999999999.0.0",
        " 1.0.0",
        "1.0.0 ",
        "1.62.0.1",
        "1.0.0-01",
        "stable",
    ];
    for text in rejected {
        assert_eq!(
            Version::parse(text).unwrap_err(),
            Mismatch::Unparsable { text: text.to_string() }
        );
    }
}

#[test]
fn equal_versions_have_every_part_the_same() {
    assert!(version("1.62.0").equals(&version("1.62.0")));
    assert!(version("1.0.0-rc.1+b7").equals(&version("1.0.0-rc.1+b7")));
    assert!(!version("1.62.0").equals(&version("1.61.9")));
    assert!(!version("1.62.0").equals(&version("1.62.1")));
    assert!(!version("1.62.0").equals(&version("1.63.0")));
    assert!(!version("1.62.0").equals(&version("2.62.0")));
    assert!(!version("1.62.0").equals(&version("1.62.0-beta")));
    assert!(!version("1.62.0-beta.1").equals(&version("1.62.0-beta.2")));
    assert!(!version("1.62.0").equals(&version("1.62.0+abc")));
    assert!(!version("1.62.0+abd").equals(&version("1.62.0+abc")));
}

#[test]
fn numbers_are_ordered_as_numbers() {
    assert!(version("1.5.0").less_than(&version("1.19.0")));
    assert!(!version("1.19.0").less_than(&version("1.5.0")));
    assert!(version("1.61.9").less_than(&version("1.62.0")));
    assert!(version("1.62.9").less_than(&version("1.63.0")));
    assert!(version("0.99.99").less_than(&version("1.0.0")));
    assert!(version("1.0.9").less_than(&version("1.0.10")));
    assert!(!version("2.0.0").less_than(&version("1.99.99")));
}

#[test]
fn no_version_comes_before_itself() {
    for text in ["0.0.0", "1.62.0", "1.0.0-alpha.1", "1.0.0+build", "1.0.0-rc.1+build.123456789"] {
        assert!(!version(text).less_than(&version(text)));
    }
}

#[test]
fn a_pre_release_comes_before_its_release() {
    assert!(version("1.0.0-alpha.1").less_than(&version("1.0.0")));
    assert!(!version("1.0.0").less_than(&version("1.0.0-alpha.1")));
    assert!(version("1.63.0-nightly").less_than(&version("1.63.0")));
    assert!(!version("1.63.1-nightly").less_than(&version("1.63.0")));
}

#[test]
fn pre_releases_are_ordered_by_their_identifiers() {
    let ascending = [
        "1.0.0-alpha",
        "1.0.0-alpha.1",
        "1.0.0-alpha.beta",
        "1.0.0-beta",
        "1.0.0-beta.2",
        "1.0.0-beta.11",
        "1.0.0-rc.1",
        "1.0.0",
    ];
    for i in 0..ascending.len() {
        for j in 0..ascending.len() {
            assert_eq!(version(ascending[i]).less_than(&version(ascending[j])), i < j);
        }
    }
}

#[test]
fn builds_of_one_version_are_ordered_too() {
    let ascending = ["1.20.0", "1.20.0+bc17664", "1.20.0+c144a98"];
    for i in 0..ascending.len() {
        for j in 0..ascending.len() {
            assert_eq!(version(ascending[i]).less_than(&version(ascending[j])), i < j);
        }
    }
}

#[test]
fn long_identifiers_are_put_back_together() {
    let a = version("1.0.0-a-very-long-pre-release-identifier.1+a-very-long-build-identifier.0001");
    let b = version("1.0.0-a-very-long-pre-release-identifier.2+a-very-long-build-identifier.0001");
    assert!(a.less_than(&b));
    assert!(!b.less_than(&a));
    assert!(!a.equals(&b));
}

#[test]
fn render_gives_back_the_text_that_was_parsed() {
    let texts = [
        "0.0.0",
        "1.62.0",
        "1.63.0",
        "10.200.3000",
        "1.65.0-nightly",
        "1.64.0-beta.3",
        "1.0.0-alpha.1+build.5",
        "0.8.1+zstd.1.5.0",
        "1.0.0-x-y-z.--",
        "18446744073709551615.0.18446744073709551615",
    ];
    for text in texts {
        assert_eq!(version(text).render(), text);
    }
}
