//! Semantic versions of workers: the accepted text form, ordering, and the
//! latest version among built image tags.
use std::cmp::Ordering;
use vstd::prelude::*;

use crate::text::{starts_with, suffix_from};

verus! {

pub open spec fn is_digit(c: char) -> bool {
    '0' <= c && c <= '9'
}

pub open spec fn dot_count(s: Seq<char>) -> nat
    decreases s.len(),
{
    if s.len() == 0 {
        0
    } else {
        dot_count(s.drop_last()) + if s.last() == '.' { 1nat } else { 0nat }
    }
}

/// `MAJOR.MINOR.PATCH`: three non-empty runs of ASCII digits joined by two dots.
pub open spec fn is_version_text(s: Seq<char>) -> bool {
    &&& s.len() > 0
    &&& forall|i: int| 0 <= i < s.len() ==> is_digit(#[trigger] s[i]) || s[i] == '.'
    &&& s[0] != '.'
    &&& s.last() != '.'
    &&& forall|i: int| 0 <= i < s.len() - 1 ==> !(#[trigger] s[i] == '.' && s[i + 1] == '.')
    &&& dot_count(s) == 2
}

/// The dot-separated pieces of `s`, in order.
pub open spec fn segments(s: Seq<char>) -> Seq<Seq<char>>
    decreases s.len(),
{
    if s.len() == 0 {
        seq![Seq::<char>::empty()]
    } else {
        let r = segments(s.drop_last());
        if s.last() == '.' {
            r.push(Seq::<char>::empty())
        } else {
            r.update(r.len() - 1, r.last().push(s.last()))
        }
    }
}

/// The number that a run of decimal digits spells.
pub open spec fn digits_value(d: Seq<char>) -> nat
    decreases d.len(),
{
    if d.len() == 0 {
        0
    } else {
        digits_value(d.drop_last()) * 10 + (d.last() as nat - '0' as nat) as nat
    }
}

/// A numeric component as semantic versioning admits it: no leading zero, and
/// it fits in 64 bits.
pub open spec fn is_plain_number(d: Seq<char>) -> bool {
    &&& d.len() == 1 || d[0] != '0'
    &&& digits_value(d) <= u64::MAX
}

/// The three numbers of a release version, where the text is one.
pub open spec fn release_triple(s: Seq<char>) -> Option<(u64, u64, u64)> {
    let p = segments(s);
    if is_version_text(s) && is_plain_number(p[0]) && is_plain_number(p[1]) && is_plain_number(
        p[2],
    ) {
        Some((digits_value(p[0]) as u64, digits_value(p[1]) as u64, digits_value(p[2]) as u64))
    } else {
        None
    }
}

pub open spec fn cmp_u64(a: u64, b: u64) -> Ordering {
    if a < b {
        Ordering::Less
    } else if a == b {
        Ordering::Equal
    } else {
        Ordering::Greater
    }
}

/// Precedence of two releases: major, then minor, then patch.
pub open spec fn triple_cmp(a: (u64, u64, u64), b: (u64, u64, u64)) -> Ordering {
    if a.0 != b.0 {
        cmp_u64(a.0, b.0)
    } else if a.1 != b.1 {
        cmp_u64(a.1, b.1)
    } else {
        cmp_u64(a.2, b.2)
    }
}

pub open spec fn invalid_version_message(v: Seq<char>) -> Seq<char> {
    "Invalid version '"@ + v + "'. Version numbers should follow semantic versioning."@
}

pub open spec fn unparsable_version_message(v: Seq<char>) -> Seq<char> {
    "Invalid version '"@ + v + "'. Please ensure your version number follows 'MAJOR.MINOR.PATCH'."@
}

/// Relies on `semver::Version::parse`: on text of three digit runs joined by
/// dots it yields the three numbers, and it fails on a leading zero or on a
/// number past 64 bits.
#[verifier::external_body]
fn parse_release(s: &str) -> (r: Option<(u64, u64, u64)>)
    ensures
        is_version_text(s@) ==> r == release_triple(s@),
{
    semver::Version::parse(s).ok().map(|v| (v.major, v.minor, v.patch))
}

fn message(head: &str, v: &str, tail: &str) -> (r: String)
    ensures
        r@ == head@ + v@ + tail@,
{
    String::from_str(head).concat(v).concat(tail)
}

fn invalid_version(version: &str) -> (r: Result<(), String>)
    ensures
        r matches Err(m) && m@ == invalid_version_message(version@),
{
    Err(message("Invalid version '", version, "'. Version numbers should follow semantic versioning."))
}

/// Whether `version` has the form `MAJOR.MINOR.PATCH`.
pub fn validate_version(version: &str) -> (r: Result<(), String>)
    ensures
        r is Ok <==> is_version_text(version@),
        r matches Err(m) ==> m@ == invalid_version_message(version@),
{
    let n = version.unicode_len();
    let ghost s = version@;
    if n == 0 {
        return invalid_version(version);
    }
    let mut dots: usize = 0;
    let mut i: usize = 0;
    while i < n
        invariant
            n == s.len(),
            s == version@,
            n > 0,
            i <= n,
            dots <= i,
            dots <= 2,
            dot_count(s.subrange(0, i as int)) == dots,
            forall|k: int| 0 <= k < i ==> is_digit(#[trigger] s[k]) || s[k] == '.',
            i > 0 ==> s[0] != '.',
            forall|k: int| 0 <= k < i && #[trigger] s[k] == '.' ==> k + 1 < n,
            forall|k: int| 0 <= k < i - 1 ==> !(#[trigger] s[k] == '.' && s[k + 1] == '.'),
        decreases n - i,
    {
        let c = version.get_char(i);
        assert(s.subrange(0, i + 1).drop_last() =~= s.subrange(0, i as int));
        if c == '.' {
            if i == 0 || i + 1 == n {
                return invalid_version(version);
            }
            if version.get_char(i - 1) == '.' {
                assert(s[i - 1] == '.' && s[(i - 1) + 1] == '.');
                return invalid_version(version);
            }
            if dots == 2 {
                proof {
                    lemma_dot_count_prefix(s, i as int + 1);
                }
                return invalid_version(version);
            }
            dots = dots + 1;
        } else if !('0' <= c && c <= '9') {
            assert(!(is_digit(s[i as int]) || s[i as int] == '.'));
            return invalid_version(version);
        }
        i = i + 1;
    }
    assert(s.subrange(0, n as int) =~= s);
    if dots == 2 {
        Ok(())
    } else {
        invalid_version(version)
    }
}

proof fn lemma_dot_count_prefix(s: Seq<char>, k: int)
    requires
        0 <= k <= s.len(),
    ensures
        dot_count(s.subrange(0, k)) <= dot_count(s),
    decreases s.len() - k,
{
    if k < s.len() {
        lemma_dot_count_prefix(s, k + 1);
        assert(s.subrange(0, k + 1).drop_last() =~= s.subrange(0, k));
    } else {
        assert(s.subrange(0, k) =~= s);
    }
}

fn parsed(v: &str) -> (r: Result<(u64, u64, u64), String>)
    ensures
        match release_triple(v@) {
            Some(t) => r == Ok::<(u64, u64, u64), String>(t),
            None => r is Err,
        },
{
    match validate_version(v) {
        Err(m) => {
            return Err(m);
        },
        Ok(()) => {},
    }
    match parse_release(v) {
        Some(t) => Ok(t),
        None => Err(
            message(
                "Invalid version '",
                v,
                "'. Please ensure your version number follows 'MAJOR.MINOR.PATCH'.",
            ),
        ),
    }
}

fn cmp_triples(a: (u64, u64, u64), b: (u64, u64, u64)) -> (r: Ordering)
    ensures
        r == triple_cmp(a, b),
{
    let (x, y) = if a.0 != b.0 {
        (a.0, b.0)
    } else if a.1 != b.1 {
        (a.1, b.1)
    } else {
        (a.2, b.2)
    };
    if x < y {
        Ordering::Less
    } else if x == y {
        Ordering::Equal
    } else {
        Ordering::Greater
    }
}

/// Orders two versions by semantic-versioning precedence; fails where either
/// is not a plain `MAJOR.MINOR.PATCH` release.
pub fn compare_versions(v1: &str, v2: &str) -> (r: Result<Ordering, String>)
    ensures
        match (release_triple(v1@), release_triple(v2@)) {
            (Some(a), Some(b)) => r == Ok::<Ordering, String>(triple_cmp(a, b)),
            _ => r is Err,
        },
{
    let a = match parsed(v1) {
        Ok(t) => t,
        Err(m) => {
            return Err(m);
        },
    };
    let b = match parsed(v2) {
        Ok(t) => t,
        Err(m) => {
            return Err(m);
        },
    };
    Ok(cmp_triples(a, b))
}

/// How a declared version stands against the latest built one: a worker never
/// built counts as older than any release.
pub open spec fn worker_version_cmp(declared: Seq<char>, latest: Option<Seq<char>>) -> Option<
    Ordering,
> {
    match release_triple(declared) {
        None => None,
        Some(a) => match latest {
            None => Some(Ordering::Greater),
            Some(l) => match release_triple(l) {
                Some(b) => Some(triple_cmp(a, b)),
                None => None,
            },
        },
    }
}

pub open spec fn str_view(o: Option<&str>) -> Option<Seq<char>> {
    match o {
        Some(s) => Some(s@),
        None => None,
    }
}

/// Compares the declared version of a worker with the latest version built
/// for it, `latest` being `None` where no image was built yet.
pub fn compare_worker_version(version: &str, latest: Option<&str>) -> (r: Result<Ordering, String>)
    ensures
        match worker_version_cmp(version@, str_view(latest)) {
            Some(o) => r == Ok::<Ordering, String>(o),
            None => r is Err,
        },
{
    let a = match parsed(version) {
        Ok(t) => t,
        Err(m) => {
            return Err(m);
        },
    };
    match latest {
        Some(l) => match parsed(l) {
            Ok(b) => Ok(cmp_triples(a, b)),
            Err(m) => Err(m),
        },
        None => Ok(Ordering::Greater),
    }
}

/// Whether a text that is not of the `MAJOR.MINOR.PATCH` digit form is a
/// semantic version all the same (with a pre-release or build part).
pub uninterp spec fn semver_valid(s: Seq<char>) -> bool;

/// Whether a text is a semantic version.
pub open spec fn parses_as_semver(s: Seq<char>) -> bool {
    if is_version_text(s) {
        release_triple(s) is Some
    } else {
        semver_valid(s)
    }
}

/// Relies on `semver::Version::parse`: whether the text is a semantic
/// version; on three digit runs joined by dots, exactly when no number has a
/// leading zero or passes 64 bits.
#[verifier::external_body]
fn semver_parses(s: &str) -> (r: bool)
    ensures
        r == if is_version_text(s@) { release_triple(s@) is Some } else { semver_valid(s@) },
{
    semver::Version::parse(s).is_ok()
}

/// Semantic-version precedence between texts that are not both releases.
pub uninterp spec fn semver_order(a: Seq<char>, b: Seq<char>) -> Ordering;

/// Precedence of two semantic versions: two releases compare by their
/// numbers.
pub open spec fn precedence(a: Seq<char>, b: Seq<char>) -> Ordering {
    match (release_triple(a), release_triple(b)) {
        (Some(x), Some(y)) => triple_cmp(x, y),
        _ => semver_order(a, b),
    }
}

/// Relies on the ordering of `semver::Version` (texts read with
/// `semver::Version::parse`): fields in turn, major, minor, patch, then
/// pre-release (none is highest) and build; two releases thus compare by
/// their numbers.
#[verifier::external_body]
fn semver_cmp(a: &str, b: &str) -> (r: Option<Ordering>)
    ensures
        r == (if !(parses_as_semver(a@) && parses_as_semver(b@)) { None } else if release_triple(a@) is Some
            && release_triple(b@) is Some { Some(triple_cmp(release_triple(a@)->0, release_triple(b@)->0)) } else {
            Some(semver_order(a@, b@)) }),
{
    match (semver::Version::parse(a), semver::Version::parse(b)) {
        (Ok(x), Ok(y)) => Some(x.cmp(&y)),
        _ => None,
    }
}

/// The repository prefix of the production images of a worker.
pub open spec fn release_tag_prefix(worker: Seq<char>) -> Seq<char> {
    "geoengine-local/"@ + worker + ":"@
}

/// The version that an image tag names for `worker`: what follows the
/// worker's repository prefix, where that is a semantic version.
pub open spec fn tag_release(worker: Seq<char>, tag: Seq<char>) -> Option<Seq<char>> {
    let p = release_tag_prefix(worker);
    if p.len() <= tag.len() && tag.subrange(0, p.len() as int) == p {
        let v = tag.subrange(p.len() as int, tag.len() as int);
        if parses_as_semver(v) {
            Some(v)
        } else {
            None
        }
    } else {
        None
    }
}

/// The highest version the tags name for `worker`, by semantic-version
/// precedence; of equal ones the last.
pub open spec fn latest_of(worker: Seq<char>, tags: Seq<String>) -> Option<Seq<char>>
    decreases tags.len(),
{
    if tags.len() == 0 {
        None
    } else {
        let best = latest_of(worker, tags.drop_last());
        match tag_release(worker, tags.last()@) {
            None => best,
            Some(v) => match best {
                None => Some(v),
                Some(b) => if precedence(v, b) == Ordering::Less { Some(b) } else { Some(v) },
            },
        }
    }
}

pub open spec fn opt_string_view(o: Option<String>) -> Option<Seq<char>> {
    match o {
        Some(s) => Some(s@),
        None => None,
    }
}

/// Among the image tags, the highest version built for `worker`.
pub fn get_latest_worker_version(worker_name: &str, tags: &Vec<String>) -> (r: Option<String>)
    ensures
        opt_string_view(r) == latest_of(worker_name@, tags@),
{
    let prefix = String::from_str("geoengine-local/").concat(worker_name).concat(":");
    let plen = prefix.as_str().unicode_len();
    let mut best: Option<String> = None;
    let mut i: usize = 0;
    while i < tags.len()
        invariant
            i <= tags@.len(),
            prefix@ == release_tag_prefix(worker_name@),
            plen == prefix@.len(),
            opt_string_view(best) == latest_of(worker_name@, tags@.subrange(0, i as int)),
            best matches Some(b) ==> parses_as_semver(b@),
        decreases tags@.len() - i,
    {
        assert(tags@.subrange(0, i + 1).drop_last() =~= tags@.subrange(0, i as int));
        let tag = tags[i].as_str();
        if starts_with(tag, prefix.as_str()) {
            let v = suffix_from(tag, plen);
            if semver_parses(v.as_str()) {
                assert(tag_release(worker_name@, tags@[i as int]@) == Some(v@));
                let take = match &best {
                    None => true,
                    Some(b) => match semver_cmp(v.as_str(), b.as_str()) {
                        Some(Ordering::Less) => false,
                        _ => true,
                    },
                };
                if take {
                    best = Some(v);
                }
            }
        }
        i = i + 1;
    }
    assert(tags@.subrange(0, tags@.len() as int) =~= tags@);
    best
}

/// An image as the container runtime lists it.
#[derive(Debug)]
pub struct ImageInfo {
    pub id: String,
    pub repo_tags: Vec<String>,
    pub size: i64,
    pub created: i64,
}

/// The tags of all images, image by image.
pub open spec fn tags_of(images: Seq<ImageInfo>) -> Seq<String>
    decreases images.len(),
{
    if images.len() == 0 {
        Seq::empty()
    } else {
        tags_of(images.drop_last()) + images.last().repo_tags@
    }
}

/// Every tag of the listed images, in listing order.
pub fn image_tags(images: &Vec<ImageInfo>) -> (r: Vec<String>)
    ensures
        r@ == tags_of(images@),
{
    let mut out: Vec<String> = Vec::new();
    let mut i: usize = 0;
    while i < images.len()
        invariant
            i <= images@.len(),
            out@ == tags_of(images@.subrange(0, i as int)),
        decreases images@.len() - i,
    {
        assert(images@.subrange(0, i + 1).drop_last() =~= images@.subrange(0, i as int));
        let tags = &images[i].repo_tags;
        let ghost before = out@;
        let mut k: usize = 0;
        while k < tags.len()
            invariant
                k <= tags@.len(),
                out@ == before + tags@.subrange(0, k as int),
            decreases tags@.len() - k,
        {
            out.push(tags[k].clone());
            assert(out@ =~= before + tags@.subrange(0, k + 1));
            k = k + 1;
        }
        assert(tags@.subrange(0, tags@.len() as int) =~= tags@);
        i = i + 1;
    }
    assert(images@.subrange(0, images@.len() as int) =~= images@);
    out
}

} // verus!
