use bunode::version::{
    bun_version_from_output, bunode_version, bunode_version_text, check_bun_semver, masqueraded_version_from_output,
    version_text, SemVersion,
};

fn version(major: u64, minor: u64, patch: u64) -> SemVersion {
    SemVersion { major, minor, patch, pre: String::new(), build: String::new() }
}

#[test]
fn version_metadata_should_keep_node_version_precedence() {
    let node_version = "v24.3.0";
    let bun_version = "1.3.14";

    assert_eq!(format!("{node_version}+bun.{bun_version}"), "v24.3.0+bun.1.3.14");
    assert_eq!(bunode_version_text(&version(1, 3, 14), &version(24, 3, 0)), "v24.3.0+bun.1.3.14");
}

#[test]
fn version_should_build_bunode_version_from_masqueraded_release() {
    let bunode = bunode_version(&version(1, 4, 0), &SemVersion { pre: "rc.1".to_string(), ..version(26, 3, 0) });

    assert_eq!((bunode.major, bunode.minor, bunode.patch), (26, 3, 0));
    assert_eq!(bunode.pre, "");
    assert_eq!(bunode.build, "bun.1.4.0");
    assert_eq!(version_text(&bunode), "26.3.0+bun.1.4.0");
}

#[test]
fn version_should_parse_trimmed_bun_output() {
    let parsed = bun_version_from_output(" 1.3.14\n").unwrap();

    assert_eq!((parsed.major, parsed.minor, parsed.patch), (1, 3, 14));
}

#[test]
fn version_should_reject_unstable_bun_versions() {
    let error = bun_version_from_output("1.4.0-canary.1").err().unwrap();

    assert_eq!(error.to_message(), "Bun 1.4.0-canary.1 is not supported. Please use a stable Bun >=1.4.0.");
    let error = check_bun_semver(SemVersion { build: "abc".to_string(), ..version(1, 2, 3) }).err().unwrap();
    assert_eq!(error.to_message(), "Bun 1.2.3+abc is not supported. Please use a stable Bun >=1.4.0.");
}

#[test]
fn version_should_report_unparsable_output() {
    let error = bun_version_from_output("not a version\n").err().unwrap();

    assert_eq!(error.to_message(), "Failed to parse Bun's version not a version.");
    let error = masqueraded_version_from_output("vnext\n").err().unwrap();
    assert_eq!(error.to_message(), "Failed to parse Bun's masqueraded Node.js version vnext.");
    let error = masqueraded_version_from_output("vv24.3.0").err().unwrap();
    assert_eq!(error.to_message(), "Failed to parse Bun's masqueraded Node.js version vv24.3.0.");
    let parsed = masqueraded_version_from_output("24.3.0").unwrap();
    assert_eq!((parsed.major, parsed.minor, parsed.patch), (24, 3, 0));
}

#[test]
fn version_should_read_the_masqueraded_release_without_its_v() {
    let parsed = masqueraded_version_from_output("v26.3.0\n").unwrap();
    assert_eq!((parsed.major, parsed.minor, parsed.patch), (26, 3, 0));
    let bun = bun_version_from_output("1.4.0\n").unwrap();
    assert_eq!(bunode_version_text(&bun, &parsed), "v26.3.0+bun.1.4.0");
}

#[test]
fn version_should_name_an_unstable_bun_release() {
    let error = bun_version_from_output("1.4.0-canary.1+abc\n").err().unwrap();
    assert_eq!(error.to_message(), "Bun 1.4.0-canary.1+abc is not supported. Please use a stable Bun >=1.4.0.");
}
