//! The release-version check: deciding, from a list of published releases,
//! whether one is newer than the running version. Fetching the release list
//! is the host application's job; the decision logic here is pure.

use vstd::prelude::*;

verus! {

/// What semver::Version::parse returns for a given text: the major, minor
/// and patch numbers, or nothing for text that is not a valid semantic
/// version.
pub uninterp spec fn parsed_version(s: Seq<char>) -> Option<(u64, u64, u64)>;

/// Relies on `semver::Version::parse`: its result depends on the text
/// alone; the parsed version's major, minor and patch numbers are handed
/// back, or `None` where parsing fails.
#[verifier::external_body]
fn parse_version(text: &str) -> (r: Option<(u64, u64, u64)>)
    ensures
        r == parsed_version(text@),
{
    match semver::Version::parse(text) {
        Ok(v) => Some((v.major, v.minor, v.patch)),
        Err(_) => None,
    }
}

/// A published release: a version triple plus its description text.
#[derive(Debug)]
pub struct ReleaseInfo {
    pub major: u64,
    pub minor: u64,
    pub patch: u64,
    pub description: String,
}

/// The mathematical content of a release.
#[verifier::ext_equal]
pub ghost struct ReleaseView {
    pub major: u64,
    pub minor: u64,
    pub patch: u64,
    pub description: Seq<char>,
}

impl View for ReleaseInfo {
    type V = ReleaseView;

    open spec fn view(&self) -> ReleaseView {
        ReleaseView {
            major: self.major,
            minor: self.minor,
            patch: self.patch,
            description: self.description@,
        }
    }
}

/// Version precedence on plain triples: strictly newer means a later major,
/// or the same major and a later minor, or the same both and a later patch.
/// For a release compared against a plain running version this agrees with
/// full semantic-version precedence: pre-release tags only order versions
/// whose triples are equal, and equal triples are never "newer".
pub open spec fn version_newer(a: (u64, u64, u64), b: (u64, u64, u64)) -> bool {
    ||| a.0 > b.0
    ||| (a.0 == b.0 && a.1 > b.1)
    ||| (a.0 == b.0 && a.1 == b.1 && a.2 > b.2)
}

/// Whether a release is newer than the given running version.
pub open spec fn release_newer(r: ReleaseView, current: (u64, u64, u64)) -> bool {
    version_newer((r.major, r.minor, r.patch), current)
}

/// The outcome of an update check.
#[derive(Debug, PartialEq, Eq, Structural)]
pub enum UpdateCheckingStatus {
    /// A newer release exists; carries its major, minor and patch numbers.
    UpdatesAvailable(u64, u64, u64),
    /// No release is newer than the running version.
    UpToDate,
    /// The release list could not be obtained.
    Error,
}

/// Turns one fetched release (version text and description) into a release
/// record; `None` exactly when the version text does not parse.
pub fn parse_release(version_text: &str, description: String) -> (r: Option<ReleaseInfo>)
    ensures
        parsed_version(version_text@) matches Some(v) ==> (r matches Some(rel) && rel@
            == (ReleaseView {
            major: v.0,
            minor: v.1,
            patch: v.2,
            description: description@,
        })),
        parsed_version(version_text@) is None ==> r is None,
{
    match parse_version(version_text) {
        Some((major, minor, patch)) => Some(ReleaseInfo { major, minor, patch, description }),
        None => None,
    }
}

/// Whether the triple `a` is strictly newer than the triple `b`.
fn triple_newer(a: (u64, u64, u64), b: (u64, u64, u64)) -> (r: bool)
    ensures
        r == version_newer(a, b),
{
    a.0 > b.0 || (a.0 == b.0 && a.1 > b.1) || (a.0 == b.0 && a.1 == b.1 && a.2 > b.2)
}

/// Keeps exactly the releases that are newer than the running version, in
/// the order given.
pub fn filter_newer_releases(
    current_major: u64,
    current_minor: u64,
    current_patch: u64,
    releases: Vec<ReleaseInfo>,
) -> (r: Vec<ReleaseInfo>)
    ensures
        r@.map_values(|rel: ReleaseInfo| rel@) == releases@.map_values(
            |rel: ReleaseInfo| rel@,
        ).filter((|rv: ReleaseView| release_newer(rv, (current_major, current_minor, current_patch)))),
{
    let ghost current = (current_major, current_minor, current_patch);
    let ghost views = releases@.map_values(|rel: ReleaseInfo| rel@);
    let ghost pred = |rv: ReleaseView| release_newer(rv, current);
    let mut out: Vec<ReleaseInfo> = Vec::new();
    let mut i: usize = 0;
    while i < releases.len()
        invariant
            0 <= i <= releases@.len(),
            views == releases@.map_values(|rel: ReleaseInfo| rel@),
            out@.map_values(|rel: ReleaseInfo| rel@) == views.subrange(0, i as int).filter(pred),
            pred == (|rv: ReleaseView| release_newer(rv, current)),
            current == (current_major, current_minor, current_patch),
        decreases releases@.len() - i,
    {
        let ghost k = i as int;
        let rel = &releases[i];
        proof {
            assert(views.subrange(0, k + 1).drop_last() =~= views.subrange(0, k));
            assert(views.subrange(0, k + 1).last() == rel@);
            reveal_with_fuel(Seq::filter, 2);
        }
        if triple_newer((rel.major, rel.minor, rel.patch), (current_major, current_minor,
        current_patch)) {
            out.push(
                ReleaseInfo {
                    major: rel.major,
                    minor: rel.minor,
                    patch: rel.patch,
                    description: rel.description.clone(),
                },
            );
            proof {
                assert(out@.map_values(|x: ReleaseInfo| x@) =~= views.subrange(0, k + 1).filter(
                    pred,
                ));
            }
        } else {
            proof {
                assert(out@.map_values(|x: ReleaseInfo| x@) =~= views.subrange(0, k + 1).filter(
                    pred,
                ));
            }
        }
        i += 1;
    }
    proof {
        assert(views.subrange(0, views.len() as int) =~= views);
    }
    out
}

/// Decides the update status from the running version and the fetched
/// releases (ordered as fetched, newest first): the first release newer
/// than the running version is announced; with none, the version is up to
/// date. A fetch failure is the caller's to report as `Error`.
pub fn update_status(
    current_major: u64,
    current_minor: u64,
    current_patch: u64,
    releases: &Vec<ReleaseInfo>,
) -> (r: UpdateCheckingStatus)
    ensures
        (exists|i: int|
            0 <= i < releases@.len() && release_newer(
                #[trigger] releases@[i]@,
                (current_major, current_minor, current_patch),
            )) <==> (r is UpdatesAvailable),
        r matches UpdateCheckingStatus::UpdatesAvailable(ma, mi, pa) ==> exists|i: int|
            0 <= i < releases@.len() && (#[trigger] releases@[i]@).major == ma
                && releases@[i]@.minor == mi && releases@[i]@.patch == pa && release_newer(
                releases@[i]@,
                (current_major, current_minor, current_patch),
            ) && (forall|j: int|
                0 <= j < i ==> !release_newer(
                    #[trigger] releases@[j]@,
                    (current_major, current_minor, current_patch),
                )),
        !(r is UpdatesAvailable) ==> r is UpToDate,
{
    let ghost current = (current_major, current_minor, current_patch);
    let mut i: usize = 0;
    while i < releases.len()
        invariant
            0 <= i <= releases@.len(),
            current == (current_major, current_minor, current_patch),
            forall|j: int| 0 <= j < i ==> !release_newer(#[trigger] releases@[j]@, current),
        decreases releases@.len() - i,
    {
        let rel = &releases[i];
        if triple_newer((rel.major, rel.minor, rel.patch), (current_major, current_minor,
        current_patch)) {
            proof {
                assert(release_newer(releases@[i as int]@, current));
                assert(releases@[i as int]@.major == rel.major && releases@[i as int]@.minor
                    == rel.minor && releases@[i as int]@.patch == rel.patch);
            }
            return UpdateCheckingStatus::UpdatesAvailable(rel.major, rel.minor, rel.patch);
        }
        i += 1;
    }
    UpdateCheckingStatus::UpToDate
}

} // verus!
