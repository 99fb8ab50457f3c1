use compile_time::diagnostic::{FatalDiagnostic, QueryFailure};
use compile_time::version::{MalformedTag, StructuredVersion, Tag, ToolchainVersion};
use compile_time::{
    rustc_version, rustc_version_build, rustc_version_major, rustc_version_minor,
    rustc_version_patch, rustc_version_pre, rustc_version_str,
};

fn sample_versions() -> Vec<(u64, u64, u64, &'static str, &'static str)> {
    vec![
        (0, 0, 0, "", ""),
        (1, 75, 0, "", ""),
        (1, 70, 0, "beta.2", "sha.abcdef"),
        (1, 75, 0, "beta.1", "abc"),
        (1, 80, 0, "nightly", ""),
        (1, 2, 3, "", "build.7"),
        (1, 2, 3, "-", "-"),
        (1, 2, 3, "a-b.c-d", "e-f.g-h"),
        (1, 2, 3, "0", "0"),
        (1, 2, 3, "0.0.0", "001.002"),
        (1, 2, 3, "0a.1-1", "01"),
        (1, 2, 3, "alpha.beta-1.10", "2024-03-15.x"),
        (10, 20, 30, "rc.1", ""),
        (u64::MAX, u64::MAX, u64::MAX, "x", "y"),
        (18446744073709551615, 0, 9, "", ""),
    ]
}

fn answered(sample: (u64, u64, u64, &str, &str)) -> Result<ToolchainVersion, QueryFailure> {
    Ok(ToolchainVersion::new(sample.0, sample.1, sample.2, sample.3, sample.4).unwrap())
}

#[test]
fn version_keeps_what_it_was_made_of() {
    for sample in sample_versions() {
        let version = ToolchainVersion::new(sample.0, sample.1, sample.2, sample.3, sample.4).unwrap();
        assert_eq!(version.major(), sample.0);
        assert_eq!(version.minor(), sample.1);
        assert_eq!(version.patch(), sample.2);
        assert_eq!(version.pre(), sample.3);
        assert_eq!(version.build(), sample.4);
        assert_eq!(version.clone(), version);
    }
}

#[test]
fn malformed_prerelease_tag_is_refused() {
    let refused = [
        "01", "00", "a.01", "01.a", "1.02.3", ".", ".a", "a.", "a..b", "a_b", "a+b", "+", "a b",
        " ", "é", "a.é",
    ];
    for tag in refused {
        assert_eq!(ToolchainVersion::new(1, 2, 3, tag, ""), Err(MalformedTag::Prerelease));
        assert_eq!(ToolchainVersion::new(1, 2, 3, tag, "ok"), Err(MalformedTag::Prerelease));
        assert_eq!(ToolchainVersion::new(1, 2, 3, tag, "a..b"), Err(MalformedTag::Prerelease));
        assert!(semver::Prerelease::new(tag).is_err());
    }
    let taken = ["", "0", "1", "10", "0a", "0-", "-0", "a", "A", "z9", "a.b", "0.0", "-", "--", "a-.b"];
    for tag in taken {
        assert!(ToolchainVersion::new(1, 2, 3, tag, "").is_ok());
        assert!(semver::Prerelease::new(tag).is_ok());
    }
}

#[test]
fn malformed_build_tag_is_refused() {
    let refused = [".", ".a", "a.", "a..b", "a_b", "a+b", "+", "a b", " ", "é", "a.é"];
    for tag in refused {
        assert_eq!(ToolchainVersion::new(1, 2, 3, "", tag), Err(MalformedTag::Build));
        assert_eq!(ToolchainVersion::new(1, 2, 3, "rc.1", tag), Err(MalformedTag::Build));
        assert!(semver::BuildMetadata::new(tag).is_err());
    }
    let taken = ["", "0", "01", "00", "a.01", "001.002", "a", "A", "z9", "a.b", "-", "a-.b"];
    for tag in taken {
        assert!(ToolchainVersion::new(1, 2, 3, "", tag).is_ok());
        assert!(semver::BuildMetadata::new(tag).is_ok());
    }
}

#[test]
fn version_text_is_the_canonical_line() {
    assert_eq!(rustc_version_str(&answered((1, 75, 0, "beta.1", "abc"))).unwrap(), "1.75.0-beta.1+abc");
    assert_eq!(rustc_version_str(&answered((1, 2, 3, "", "build.7"))).unwrap(), "1.2.3+build.7");
    assert_eq!(rustc_version_str(&answered((1, 80, 0, "nightly", ""))).unwrap(), "1.80.0-nightly");
    assert_eq!(rustc_version_str(&answered((0, 0, 0, "", ""))).unwrap(), "0.0.0");
    assert_eq!(
        rustc_version_str(&answered((u64::MAX, 0, 10, "", ""))).unwrap(),
        "18446744073709551615.0.10"
    );
    for sample in sample_versions() {
        let expected = semver::Version {
            major: sample.0,
            minor: sample.1,
            patch: sample.2,
            pre: semver::Prerelease::new(sample.3).unwrap(),
            build: semver::BuildMetadata::new(sample.4).unwrap(),
        };
        let toolchain = answered(sample);
        assert_eq!(rustc_version_str(&toolchain).unwrap(), expected.to_string());
        assert_eq!(toolchain.as_ref().unwrap().to_text(), expected.to_string());
    }
}

#[test]
fn version_text_reads_back_as_the_structured_version() {
    for sample in sample_versions() {
        let toolchain = answered(sample);
        let text = rustc_version_str(&toolchain).unwrap();
        let structured = rustc_version(&toolchain).unwrap();
        let read = semver::Version::parse(&text).unwrap();
        assert_eq!(read.major, structured.major());
        assert_eq!(read.minor, structured.minor());
        assert_eq!(read.patch, structured.patch());
        assert_eq!(read.pre.as_str(), structured.pre().as_str());
        assert_eq!(read.build.as_str(), structured.build().as_str());
        assert_eq!(read.pre.is_empty(), *structured.pre() == Tag::Empty);
        assert_eq!(read.build.is_empty(), *structured.build() == Tag::Empty);
    }
}

#[test]
fn field_operations_give_the_fields_of_the_structured_version() {
    for sample in sample_versions() {
        let toolchain = answered(sample);
        let structured: StructuredVersion = rustc_version(&toolchain).unwrap();
        assert_eq!(rustc_version_major(&toolchain), Ok(structured.major()));
        assert_eq!(rustc_version_minor(&toolchain), Ok(structured.minor()));
        assert_eq!(rustc_version_patch(&toolchain), Ok(structured.patch()));
        assert_eq!(rustc_version_pre(&toolchain).unwrap(), structured.pre().as_str());
        assert_eq!(rustc_version_build(&toolchain).unwrap(), structured.build().as_str());
        assert_eq!(structured.major(), sample.0);
        assert_eq!(structured.minor(), sample.1);
        assert_eq!(structured.patch(), sample.2);
        assert_eq!(structured.pre().as_str(), sample.3);
        assert_eq!(structured.build().as_str(), sample.4);
        assert_eq!(structured.clone(), structured);
        assert_eq!(structured, StructuredVersion::of(toolchain.as_ref().unwrap()));
    }
}

#[test]
fn empty_tag_becomes_the_marker_for_none() {
    assert_eq!(Tag::from_text(""), Tag::Empty);
    assert_eq!(Tag::from_text("beta.2"), Tag::Text("beta.2".to_string()));
    assert_eq!(Tag::Empty.as_str(), "");
    assert_eq!(Tag::from_text("beta.2").as_str(), "beta.2");
    assert_eq!(Tag::from_text("beta.2").clone(), Tag::from_text("beta.2"));
    let structured = rustc_version(&answered((1, 2, 3, "rc.1", ""))).unwrap();
    assert_eq!(*structured.pre(), Tag::Text("rc.1".to_string()));
    assert_eq!(*structured.build(), Tag::Empty);
    let structured = rustc_version(&answered((1, 2, 3, "", "b"))).unwrap();
    assert_eq!(*structured.pre(), Tag::Empty);
    assert_eq!(*structured.build(), Tag::Text("b".to_string()));
}

#[test]
fn diagnostic_holds_the_failure_word_for_word() {
    let failure = QueryFailure::new("could not execute rustc: No such file or directory");
    assert_eq!(failure.message(), "could not execute rustc: No such file or directory");
    assert_eq!(failure.clone(), failure);
    let fatal = FatalDiagnostic::from_failure(&failure);
    assert_eq!(
        fatal.message(),
        "Failed to get version: could not execute rustc: No such file or directory"
    );
    assert_eq!(fatal.clone(), fatal);
    let empty = FatalDiagnostic::from_failure(&QueryFailure::new(""));
    assert_eq!(empty.message(), "Failed to get version: ");
    let toolchain: Result<ToolchainVersion, QueryFailure> = Err(failure);
    assert_eq!(rustc_version(&toolchain), Err(fatal.clone()));
    assert_eq!(rustc_version_str(&toolchain), Err(fatal.clone()));
    assert_eq!(rustc_version_major(&toolchain), Err(fatal.clone()));
    assert_eq!(rustc_version_minor(&toolchain), Err(fatal.clone()));
    assert_eq!(rustc_version_patch(&toolchain), Err(fatal.clone()));
    assert_eq!(rustc_version_pre(&toolchain), Err(fatal.clone()));
    assert_eq!(rustc_version_build(&toolchain), Err(fatal));
}
