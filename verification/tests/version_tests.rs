use venice_cli::runtime::installed_versions;
use venice_cli::version::{
    NumParseError, RtBin, RtBinParseError, RtVersion, RtVersionParseError,
};

#[test]
fn version_parse() {
    assert_eq!(
        RtVersion::parse("v1.2.3"),
        Ok(RtVersion {
            major: 1,
            minor: 2,
            patch: 3,
        }),
    );

    assert_eq!(
        RtVersion::parse("1.2.3"),
        Err(RtVersionParseError::Malformed)
    );
    assert!(matches!(
        RtVersion::parse("v1a.2.3"),
        Err(RtVersionParseError::InvalidNumber(_))
    ));
}

#[test]
fn bin_parse() {
    assert_eq!(
        RtBin::parse("venice-v1.2.3.bin"),
        Ok(RtBin {
            version: RtVersion {
                major: 1,
                minor: 2,
                patch: 3,
            }
        }),
    );

    assert_eq!(
        RtBin::parse("v1.2.3.bin"),
        Err(RtBinParseError::BadPrefix)
    );
    assert_eq!(
        RtBin::parse("venice-v1.2.3"),
        Err(RtBinParseError::BadExtension)
    );
    assert!(matches!(
        RtBin::parse("venice-.bin"),
        Err(RtBinParseError::VersionError(_))
    ));
}

#[test]
fn version_parse_errors() {
    assert_eq!(RtVersion::parse(""), Err(RtVersionParseError::TooShort));
    assert_eq!(RtVersion::parse("v1.2"), Err(RtVersionParseError::TooShort));
    assert_eq!(
        RtVersion::parse("v1.2.3.4"),
        Err(RtVersionParseError::TooLong)
    );
    assert_eq!(
        RtVersion::parse("v"),
        Err(RtVersionParseError::InvalidNumber(NumParseError::Empty))
    );
    assert_eq!(
        RtVersion::parse("v1..3"),
        Err(RtVersionParseError::InvalidNumber(NumParseError::Empty))
    );
    assert_eq!(
        RtVersion::parse("v4294967295.0.0"),
        Ok(RtVersion {
            major: 4294967295,
            minor: 0,
            patch: 0,
        })
    );
    assert_eq!(
        RtVersion::parse("v4294967296.0.0"),
        Err(RtVersionParseError::InvalidNumber(NumParseError::Overflow))
    );
    assert_eq!(
        RtVersion::parse("v+7.2.3"),
        Ok(RtVersion {
            major: 7,
            minor: 2,
            patch: 3,
        })
    );
    assert_eq!(
        RtVersion::parse("v-1.2.3"),
        Err(RtVersionParseError::InvalidNumber(
            NumParseError::InvalidDigit
        ))
    );
}

#[test]
fn version_render() {
    let v = RtVersion {
        major: 1,
        minor: 20,
        patch: 3,
    };
    assert_eq!(v.render(), "v1.20.3");
    assert_eq!(v.as_rt().file_name(), "venice-v1.20.3.bin");
    assert_eq!(
        v.as_rt().download_url(),
        "https://github.com/venice-v5/venice/releases/download/v1.20.3/venice-v1.20.3.bin"
    );
}

#[test]
fn installed_versions_filters_names() {
    // only names of the shape the cache writes, `venice-<version>.bin`,
    // count as stored runtimes
    let names = vec![
        String::from("venice-v1.2.3.bin"),
        String::from("not-a-version"),
        String::from("v0.10.0"),
        String::from("venice-v0.10.0.bin"),
        String::from("venice-v2.0.bin"),
    ];
    assert_eq!(
        installed_versions(&names),
        vec![
            RtVersion {
                major: 1,
                minor: 2,
                patch: 3,
            },
            RtVersion {
                major: 0,
                minor: 10,
                patch: 0,
            },
        ]
    );
}

#[test]
fn from_semver_components() {
    let bin = RtBin::from_semver(0, 1, 0);
    assert_eq!(
        bin.version,
        RtVersion {
            major: 0,
            minor: 1,
            patch: 0,
        }
    );
    assert_eq!(bin.file_name(), "venice-v0.1.0.bin");
}
