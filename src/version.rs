use vstd::prelude::*;
use vstd::string::StrSliceExecFns;

verus! {

/// The parts of a semantic version: three numbers, then the pre-release and
/// build texts (empty when absent).
#[derive(Clone, Debug)]
pub struct ReleaseParts {
    pub major: u64,
    pub minor: u64,
    pub patch: u64,
    pub pre: String,
    pub build: String,
}

/// What semver's version parser reads from a text: `None` when it refuses it.
pub uninterp spec fn semver_parts(text: Seq<char>) -> Option<(u64, u64, u64, Seq<char>, Seq<char>)>;

/// The parts `p` as the parser's result is named.
pub open spec fn parts_view(p: ReleaseParts) -> (u64, u64, u64, Seq<char>, Seq<char>) {
    (p.major, p.minor, p.patch, p.pre@, p.build@)
}

/// Relies on semver::Version::parse: its result depends on the text alone,
/// and an empty text is refused.
#[verifier::external_body]
fn parse_semver(text: &str) -> (r: Option<ReleaseParts>)
    ensures
        r is Some <==> semver_parts(text@) is Some,
        r matches Some(p) ==> semver_parts(text@) == Some(parts_view(p)),
        text@.len() == 0 ==> r is None,
{
    match semver::Version::parse(text) {
        Ok(v) => Some(
            ReleaseParts {
                major: v.major,
                minor: v.minor,
                patch: v.patch,
                pre: v.pre.as_str().to_string(),
                build: v.build.as_str().to_string(),
            },
        ),
        Err(_) => None,
    }
}

/// Whether parsed parts are exactly the plain release `major.minor.patch`,
/// with no pre-release and no build text.
pub open spec fn is_plain_release(
    parts: Option<(u64, u64, u64, Seq<char>, Seq<char>)>,
    major: u64,
    minor: u64,
    patch: u64,
) -> bool {
    match parts {
        Some(p) => p.0 == major && p.1 == minor && p.2 == patch && p.3.len() == 0 && p.4.len()
            == 0,
        None => false,
    }
}

/// Whether the parts a parser produced are exactly the plain release
/// `major.minor.patch`.
pub fn parts_match(parts: &Option<ReleaseParts>, major: u64, minor: u64, patch: u64) -> (r: bool)
    ensures
        r == is_plain_release(
            match parts {
                Some(p) => Some(parts_view(*p)),
                None => None,
            },
            major,
            minor,
            patch,
        ),
{
    match parts {
        Some(p) => p.major == major && p.minor == minor && p.patch == patch
            && p.pre.as_str().unicode_len() == 0 && p.build.as_str().unicode_len() == 0,
        None => false,
    }
}

/// Whether `text` is a well-formed semantic version equal to the plain
/// release `major.minor.patch`.
pub fn is_release(text: &str, major: u64, minor: u64, patch: u64) -> (r: bool)
    ensures
        r == is_plain_release(semver_parts(text@), major, minor, patch),
{
    let parts = parse_semver(text);
    parts_match(&parts, major, minor, patch)
}

} // verus!
