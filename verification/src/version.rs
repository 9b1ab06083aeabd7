//! Lets a migration pass only from an older version of the same contract.

use vstd::prelude::*;
use crate::decimal::{decimal_text, to_decimal_string};
use crate::types::error::ContractError;
use crate::types::keys::{CONTRACT_NAME, CONTRACT_VERSION};

verus! {

/// A semantic version in its parts.
#[derive(Clone, Debug, PartialEq, Eq)]
pub struct Version {
    pub major: u64,
    pub minor: u64,
    pub patch: u64,
    /// The pre-release identifiers, without the hyphen in front; empty if
    /// there are none.
    pub pre: String,
    /// The build metadata, without the plus sign in front; empty if there is
    /// none.
    pub build: String,
}

/// A semantic version as plain values.
pub struct VersionView {
    pub major: u64,
    pub minor: u64,
    pub patch: u64,
    pub pre: Seq<char>,
    pub build: Seq<char>,
}

impl View for Version {
    type V = VersionView;

    open spec fn view(&self) -> VersionView {
        VersionView {
            major: self.major,
            minor: self.minor,
            patch: self.patch,
            pre: self.pre@,
            build: self.build@,
        }
    }
}

impl VersionView {
    /// The version as it is written: the three numbers with dots between
    /// them, then the pre-release behind a hyphen and the build metadata
    /// behind a plus sign, each only if there is one.
    pub open spec fn text(self) -> Seq<char> {
        decimal_text(self.major as nat) + "."@ + decimal_text(self.minor as nat) + "."@
            + decimal_text(self.patch as nat) + (if self.pre.len() > 0 {
            "-"@ + self.pre
        } else {
            Seq::<char>::empty()
        }) + (if self.build.len() > 0 {
            "+"@ + self.build
        } else {
            Seq::<char>::empty()
        })
    }
}

impl Version {
    /// The version as it is written.
    pub fn to_string(&self) -> (s: String)
        ensures
            s@ == self@.text(),
    {
        let mut s = to_decimal_string(self.major as u128).concat(".").concat(
            to_decimal_string(self.minor as u128).as_str(),
        ).concat(".").concat(to_decimal_string(self.patch as u128).as_str());
        if self.pre.as_str().unicode_len() > 0 {
            s = s.concat("-").concat(self.pre.as_str());
        } else {
            proof {
                assert(s@ + Seq::<char>::empty() =~= s@);
            }
        }
        if self.build.as_str().unicode_len() > 0 {
            s = s.concat("+").concat(self.build.as_str());
        } else {
            proof {
                assert(s@ + Seq::<char>::empty() =~= s@);
            }
        }
        proof {
            assert(s@ =~= self@.text());
        }
        s
    }
}

/// What parsing a text as a semantic version gives: the version in its
/// parts, or the reason for which the text is no version.
pub uninterp spec fn semver_parsed(text: Seq<char>) -> Result<VersionView, Seq<char>>;

/// Whether the first version comes before the second in the order of
/// semantic versions.
pub uninterp spec fn semver_less(a: VersionView, b: VersionView) -> bool;

/// The view of the result of parsing.
pub open spec fn parsed_view(r: Result<Version, String>) -> Result<VersionView, Seq<char>> {
    match r {
        Ok(v) => Ok(v@),
        Err(e) => Err(e@),
    }
}

/// Parses a text as a semantic version.
///
/// This is `semver::Version::parse`. Nothing is claimed of it but that the
/// same text always gives the same result: on success the parts of the
/// version, on failure the error's text.
#[verifier::external_body]
pub(crate) fn parse_semver(text: &str) -> (r: Result<Version, String>)
    ensures
        parsed_view(r) == semver_parsed(text@),
{
    match semver::Version::parse(text) {
        Ok(v) => Ok(
            Version {
                major: v.major,
                minor: v.minor,
                patch: v.patch,
                pre: v.pre.as_str().to_string(),
                build: v.build.as_str().to_string(),
            },
        ),
        Err(e) => Err(e.to_string()),
    }
}

/// Compares two semantic versions.
///
/// This is the order that `semver::Version` has, `<` on two versions with
/// these parts. Nothing is claimed of it but that the same versions always
/// give the same answer. Identifiers that the outside crate does not accept
/// count as absent.
#[verifier::external_body]
pub(crate) fn semver_precedes(a: &Version, b: &Version) -> (r: bool)
    ensures
        r == semver_less(a@, b@),
{
    let (p, q) = (semver::Prerelease::new(&a.pre), semver::Prerelease::new(&b.pre));
    let (m, n) = (semver::BuildMetadata::new(&a.build), semver::BuildMetadata::new(&b.build));
    let (pre, build) = (p.unwrap_or_default(), m.unwrap_or_default());
    let x = semver::Version { major: a.major, minor: a.minor, patch: a.patch, pre, build };
    let (pre, build) = (q.unwrap_or_default(), n.unwrap_or_default());
    let y = semver::Version { major: b.major, minor: b.minor, patch: b.patch, pre, build };
    x < y
}

/// How a stored version stands to the version of the code.
#[derive(Clone, Debug, PartialEq, Eq)]
pub struct VersionCheck {
    /// The stored version, written out.
    pub previous: String,
    /// Whether the stored version comes before the version of the code.
    pub upgrade: bool,
}

/// How the stored version `previous` stands to the version `current`: the
/// reason if one of them is no version, that of `current` first.
pub open spec fn version_check(previous: Seq<char>, current: Seq<char>) -> Result<
    (Seq<char>, bool),
    Seq<char>,
> {
    match semver_parsed(current) {
        Err(e) => Err(e),
        Ok(c) => match semver_parsed(previous) {
            Err(e) => Err(e),
            Ok(p) => Ok((p.text(), semver_less(p, c))),
        },
    }
}

/// The view of the result of a check.
pub open spec fn check_view(r: Result<VersionCheck, String>) -> Result<
    (Seq<char>, bool),
    Seq<char>,
> {
    match r {
        Ok(c) => Ok((c.previous@, c.upgrade)),
        Err(e) => Err(e@),
    }
}

/// Compares the stored version with the version of the code.
pub fn check_versions(previous: &str, current: &str) -> (r: Result<VersionCheck, String>)
    ensures
        check_view(r) == version_check(previous@, current@),
{
    match parse_semver(current) {
        Err(e) => Err(e),
        Ok(c) => match parse_semver(previous) {
            Err(e) => Err(e),
            Ok(p) => {
                let upgrade = semver_precedes(&p, &c);
                Ok(VersionCheck { previous: p.to_string(), upgrade })
            },
        },
    }
}

/// Whether a migration may pass, for the name under which the stored
/// contract is recorded and the result of comparing the versions.
///
/// It passes if and only if the name is this contract's and the stored
/// version comes before the version of the code. Under another name it fails
/// with `InvalidMigrationVersion`, which gives the name that was expected and
/// the one that was found; if a version could not be parsed, with
/// `SemverError` and the reason; if the stored version does not come before,
/// with `InvalidMigrationVersion`, which says what the code's version had to
/// exceed.
pub fn decide_migration(stored_contract: &str, check: Result<VersionCheck, String>) -> (r: Result<
    (),
    ContractError,
>)
    ensures
        is_decision(stored_contract@, check_view(check), r),
{
    if String::from_str(stored_contract) != String::from_str(CONTRACT_NAME) {
        return Err(
            ContractError::InvalidMigrationVersion {
                expected: String::from_str(CONTRACT_NAME),
                actual: String::from_str(stored_contract),
            },
        );
    }
    match check {
        Err(e) => Err(ContractError::SemverError(e)),
        Ok(c) => if c.upgrade {
            Ok(())
        } else {
            Err(
                ContractError::InvalidMigrationVersion {
                    expected: String::from_str("> ").concat(c.previous.as_str()),
                    actual: String::from_str(CONTRACT_VERSION),
                },
            )
        },
    }
}

/// The decision that belongs to a stored name and a comparison of versions.
pub open spec fn is_decision(
    stored_contract: Seq<char>,
    check: Result<(Seq<char>, bool), Seq<char>>,
    r: Result<(), ContractError>,
) -> bool {
    if stored_contract != CONTRACT_NAME@ {
        &&& r matches Err(ContractError::InvalidMigrationVersion { expected, actual })
        &&& expected@ == CONTRACT_NAME@
        &&& actual@ == stored_contract
    } else {
        match check {
            Err(e) => r matches Err(ContractError::SemverError(why)) && why@ == e,
            Ok((previous, upgrade)) => if upgrade {
                r is Ok
            } else {
                &&& r matches Err(ContractError::InvalidMigrationVersion { expected, actual })
                &&& expected@ == "> "@ + previous
                &&& actual@ == CONTRACT_VERSION@
            },
        }
    }
}

} // verus!
