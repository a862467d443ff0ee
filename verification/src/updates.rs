//! Update checks: reading version numbers out of release tags, comparing
//! them, and the result shown for a release reply.

use crate::capture::join3;
use crate::text::{trim, trim_spec};
use vstd::prelude::*;

verus! {

/// Whether a character is an ASCII digit.
pub open spec fn is_digit(c: char) -> bool {
    '0' <= c <= '9'
}

/// The value of an ASCII digit.
pub open spec fn digit_value(c: char) -> nat {
    ((c as u32) - 48) as nat
}

/// The decimal number a run of digits spells.
pub open spec fn decimal_value(d: Seq<char>) -> nat
    decreases d.len(),
{
    if d.len() == 0 {
        0
    } else {
        decimal_value(d.drop_last()) * 10 + digit_value(d.last())
    }
}

/// How many digits `s` begins with.
pub open spec fn digit_run_len(s: Seq<char>) -> nat
    decreases s.len(),
{
    if s.len() > 0 && is_digit(s[0]) {
        1 + digit_run_len(s.drop_first())
    } else {
        0
    }
}

/// A run of leading digits lies within the text, and is not empty when the
/// text begins with a digit.
pub proof fn lemma_digit_run_len_bounded(s: Seq<char>)
    ensures
        digit_run_len(s) <= s.len(),
        s.len() > 0 && is_digit(s[0]) ==> digit_run_len(s) >= 1,
    decreases s.len(),
{
    if s.len() > 0 && is_digit(s[0]) {
        lemma_digit_run_len_bounded(s.drop_first());
    }
}

/// The numbers in a version text: each maximal run of ASCII digits, read
/// as a decimal number, left out when it does not fit in a `u64`.
pub open spec fn version_parts_spec(s: Seq<char>) -> Seq<u64>
    decreases s.len(),
{
    if s.len() == 0 {
        seq![]
    } else if !is_digit(s[0]) {
        version_parts_spec(s.drop_first())
    } else {
        let n = digit_run_len(s);
        proof {
            lemma_digit_run_len_bounded(s);
        }
        let rest = version_parts_spec(s.skip(n as int));
        let v = decimal_value(s.take(n as int));
        if v <= u64::MAX {
            seq![v as u64] + rest
        } else {
            rest
        }
    }
}

proof fn lemma_digit_run_at(s: Seq<char>, len: int)
    requires
        0 <= len <= s.len(),
        forall|k: int| 0 <= k < len ==> is_digit(#[trigger] s[k]),
        len == s.len() || !is_digit(s[len]),
    ensures
        digit_run_len(s) == len,
    decreases len,
{
    if len > 0 {
        let t = s.drop_first();
        assert forall|k: int| 0 <= k < len - 1 implies is_digit(#[trigger] t[k]) by {
            assert(t[k] == s[k + 1]);
        }
        if len < s.len() {
            assert(t[len - 1] == s[len]);
        }
        lemma_digit_run_at(t, len - 1);
    }
}

proof fn lemma_decimal_value_grows(d: Seq<char>, c: char)
    requires
        is_digit(c),
    ensures
        decimal_value(d.push(c)) == decimal_value(d) * 10 + digit_value(c),
        decimal_value(d.push(c)) >= decimal_value(d),
{
    assert(d.push(c).drop_last() =~= d);
}

fn is_ascii_digit(c: char) -> (res: bool)
    ensures
        res == is_digit(c),
{
    '0' <= c && c <= '9'
}

/// The numbers in a version text, as `version_parts_spec` describes them:
/// the text is split at every character that is not an ASCII digit, empty
/// pieces are dropped, and pieces that do not parse as a `u64` are dropped.
pub fn version_parts(version: &str) -> (res: Vec<u64>)
    ensures
        res@ == version_parts_spec(version@),
{
    let s = Ghost(version@);
    let n = version.unicode_len();
    let mut parts: Vec<u64> = Vec::new();
    let mut i: usize = 0;
    proof {
        assert(s@.skip(0) =~= s@);
    }
    while i < n
        invariant
            s@ == version@,
            n == s@.len(),
            i <= n,
            parts@ + version_parts_spec(s@.skip(i as int)) == version_parts_spec(s@),
        decreases n - i,
    {
        let c = version.get_char(i);
        let ghost here = s@.skip(i as int);
        proof {
            assert(here[0] == c);
        }
        if !is_ascii_digit(c) {
            proof {
                assert(here.drop_first() =~= s@.skip(i + 1));
            }
            i = i + 1;
        } else {
            let mut j: usize = i;
            let mut value: u64 = 0;
            let mut overflow = false;
            while j < n && is_ascii_digit(version.get_char(j))
                invariant
                    s@ == version@,
                    n == s@.len(),
                    i <= j <= n,
                    forall|k: int| i <= k < j ==> is_digit(#[trigger] s@[k]),
                    !overflow ==> value == decimal_value(s@.subrange(i as int, j as int)),
                    overflow ==> decimal_value(s@.subrange(i as int, j as int)) > u64::MAX,
                decreases n - j,
            {
                let d = version.get_char(j);
                let dv = (d as u32 - 48) as u64;
                proof {
                    assert(s@.subrange(i as int, j + 1) =~= s@.subrange(i as int, j as int).push(d));
                    lemma_decimal_value_grows(s@.subrange(i as int, j as int), d);
                }
                if !overflow {
                    match value.checked_mul(10) {
                        Some(m) => match m.checked_add(dv) {
                            Some(v) => {
                                value = v;
                            },
                            None => {
                                overflow = true;
                            },
                        },
                        None => {
                            overflow = true;
                        },
                    }
                }
                j = j + 1;
            }
            proof {
                assert forall|k: int| 0 <= k < j - i implies is_digit(#[trigger] here[k]) by {
                    assert(here[k] == s@[i + k]);
                }
                if j < n {
                    assert(here[j - i] == s@[j as int]);
                }
                lemma_digit_run_at(here, (j - i) as int);
                assert(here.take((j - i) as int) =~= s@.subrange(i as int, j as int));
                assert(here.skip((j - i) as int) =~= s@.skip(j as int));
            }
            if !overflow {
                let ghost before = parts@;
                parts.push(value);
                proof {
                    assert(before.push(value) + version_parts_spec(s@.skip(j as int)) =~= before + (
                    seq![value] + version_parts_spec(s@.skip(j as int))));
                }
            }
            i = j;
        }
    }
    proof {
        assert(s@.skip(n as int) =~= Seq::<char>::empty());
        assert(parts@ + Seq::<u64>::empty() =~= parts@);
    }
    parts
}

/// The number at position `k` of a version, zero past its end.
pub open spec fn part_at(a: Seq<u64>, k: int) -> u64 {
    if 0 <= k < a.len() {
        a[k]
    } else {
        0
    }
}

/// The larger of two lengths.
pub open spec fn max_len(a: Seq<u64>, b: Seq<u64>) -> int {
    if a.len() >= b.len() {
        a.len() as int
    } else {
        b.len() as int
    }
}

/// Whether version `a` is newer than `b` from position `k` on: the first
/// position where they differ, with missing numbers read as zero, holds the
/// larger number in `a`.
pub open spec fn newer_from(a: Seq<u64>, b: Seq<u64>, k: int) -> bool
    decreases max_len(a, b) - k,
{
    if k < 0 || k >= max_len(a, b) {
        false
    } else if part_at(a, k) != part_at(b, k) {
        part_at(a, k) > part_at(b, k)
    } else {
        newer_from(a, b, k + 1)
    }
}

/// Whether version numbers `a` are newer than `b`.
pub open spec fn parts_newer(a: Seq<u64>, b: Seq<u64>) -> bool {
    newer_from(a, b, 0)
}

/// Whether the version text `latest` names a newer version than `current`.
pub open spec fn version_newer_spec(latest: Seq<char>, current: Seq<char>) -> bool {
    parts_newer(version_parts_spec(latest), version_parts_spec(current))
}

/// Whether `latest` is a newer version than `current`: their numbers are
/// compared in order, a missing number counting as zero.
pub fn version_is_newer(latest: &str, current: &str) -> (res: bool)
    ensures
        res == version_newer_spec(latest@, current@),
{
    let a = version_parts(latest);
    let b = version_parts(current);
    let n = if a.len() >= b.len() {
        a.len()
    } else {
        b.len()
    };
    let mut index: usize = 0;
    while index < n
        invariant
            n == max_len(a@, b@),
            a@ == version_parts_spec(latest@),
            b@ == version_parts_spec(current@),
            index <= n,
            newer_from(a@, b@, 0) == newer_from(a@, b@, index as int),
        decreases n - index,
    {
        let left = if index < a.len() {
            a[index]
        } else {
            0
        };
        let right = if index < b.len() {
            b[index]
        } else {
            0
        };
        if left != right {
            return left > right;
        }
        index = index + 1;
    }
    false
}

/// `s` with every leading `v` or `V` removed.
pub open spec fn strip_v_spec(s: Seq<char>) -> Seq<char>
    decreases s.len(),
{
    if s.len() > 0 && (s[0] == 'v' || s[0] == 'V') {
        strip_v_spec(s.drop_first())
    } else {
        s
    }
}

/// A release tag cleaned into a version: trimmed, then every leading `v`
/// or `V` removed.
pub open spec fn clean_version_spec(tag: Seq<char>) -> Seq<char> {
    strip_v_spec(trim_spec(tag))
}

proof fn lemma_strip_v_at(s: Seq<char>, i: int)
    requires
        0 <= i <= s.len(),
        forall|k: int| 0 <= k < i ==> (#[trigger] s[k] == 'v' || s[k] == 'V'),
        i == s.len() || !(s[i] == 'v' || s[i] == 'V'),
    ensures
        strip_v_spec(s) == s.subrange(i, s.len() as int),
    decreases i,
{
    if i == 0 {
        assert(s.subrange(0, s.len() as int) =~= s);
    } else {
        let t = s.drop_first();
        assert forall|k: int| 0 <= k < i - 1 implies (#[trigger] t[k] == 'v' || t[k] == 'V') by {
            assert(t[k] == s[k + 1]);
        }
        if i - 1 < t.len() {
            assert(t[i - 1] == s[i]);
        }
        lemma_strip_v_at(t, i - 1);
        assert(t.subrange(i - 1, t.len() as int) =~= s.subrange(i, s.len() as int));
    }
}

/// Cleans a release tag into a version: trims it and removes every
/// leading `v` or `V`.
pub fn clean_version(version: &str) -> (res: String)
    ensures
        res@ == clean_version_spec(version@),
{
    let t = trim(version);
    let n = t.unicode_len();
    let mut i: usize = 0;
    while i < n && (t.get_char(i) == 'v' || t.get_char(i) == 'V')
        invariant
            n == t@.len(),
            i <= n,
            forall|k: int| 0 <= k < i ==> (#[trigger] t@[k] == 'v' || t@[k] == 'V'),
        decreases n - i,
    {
        i = i + 1;
    }
    proof {
        lemma_strip_v_at(t@, i as int);
    }
    t.substring_char(i, n).to_string()
}

/// What an update check reports.
#[derive(Debug)]
pub struct UpdateCheckResult {
    pub current_version: String,
    pub latest_version: Option<String>,
    pub update_available: bool,
    pub release_url: Option<String>,
    pub notes: Option<String>,
    pub message: String,
}

/// The fields of a release that an update check reads.
#[derive(Debug)]
pub struct GitHubRelease {
    pub tag_name: String,
    pub html_url: String,
    pub body: Option<String>,
}

/// How the release service answered, by its HTTP status.
#[derive(Debug, PartialEq, Eq, Structural)]
pub enum ReleaseReply {
    /// Not found: no release exists yet.
    NoReleases,
    /// Any other status outside the success class: the check fails.
    Failed,
    /// A success status: the body describes the latest release.
    Release,
}

/// Classifies the release service's HTTP status.
pub fn classify_release_reply(status: u16) -> (res: ReleaseReply)
    ensures
        status == 404 ==> res == ReleaseReply::NoReleases,
        status != 404 && !(200 <= status <= 299) ==> res == ReleaseReply::Failed,
        200 <= status <= 299 ==> res == ReleaseReply::Release,
{
    if status == 404 {
        ReleaseReply::NoReleases
    } else if !(200 <= status && status <= 299) {
        ReleaseReply::Failed
    } else {
        ReleaseReply::Release
    }
}

impl UpdateCheckResult {
    /// The result when no release exists yet.
    pub fn no_releases(current_version: String) -> (res: Self)
        ensures
            res.current_version == current_version,
            res.latest_version is None,
            !res.update_available,
            res.release_url is None,
            res.notes is None,
            res.message@ == "No GitHub releases exist yet."@,
    {
        UpdateCheckResult {
            current_version,
            latest_version: None,
            update_available: false,
            release_url: None,
            notes: None,
            message: "No GitHub releases exist yet.".to_string(),
        }
    }

    /// The result for the latest release: its cleaned tag is the latest
    /// version, an update is available when it is newer than the running
    /// version, and release notes that are blank are left out.
    pub fn from_release(current_version: String, release: GitHubRelease) -> (res: Self)
        ensures
            res.current_version == current_version,
            res.latest_version is Some,
            res.latest_version->0@ == clean_version_spec(release.tag_name@),
            res.update_available == version_newer_spec(
                clean_version_spec(release.tag_name@),
                current_version@,
            ),
            res.release_url == Some(release.html_url),
            res.notes == match release.body {
                Some(b) => if trim_spec(b@).len() > 0 {
                    Some(b)
                } else {
                    None
                },
                None => None,
            },
            res.update_available ==> res.message@ == "Version "@ + clean_version_spec(
                release.tag_name@,
            ) + " is available on GitHub."@,
            !res.update_available ==> res.message@ == "You're up to date on version "@
                + current_version@ + "."@,
    {
        let latest_version = clean_version(release.tag_name.as_str());
        let update_available = version_is_newer(
            latest_version.as_str(),
            current_version.as_str(),
        );
        let message = if update_available {
            join3("Version ", latest_version.as_str(), " is available on GitHub.")
        } else {
            join3("You're up to date on version ", current_version.as_str(), ".")
        };
        let notes = match release.body {
            Some(b) => if trim(b.as_str()).unicode_len() > 0 {
                Some(b)
            } else {
                None
            },
            None => None,
        };
        UpdateCheckResult {
            current_version,
            latest_version: Some(latest_version),
            update_available,
            release_url: Some(release.html_url),
            notes,
            message,
        }
    }
}

/// The larger of four lengths.
pub open spec fn max_len4(a: Seq<u64>, b: Seq<u64>, c: Seq<u64>, d: Seq<u64>) -> int {
    if max_len(a, b) >= max_len(c, d) {
        max_len(a, b)
    } else {
        max_len(c, d)
    }
}

/// No version is newer than itself.
pub proof fn lemma_newer_irreflexive(a: Seq<u64>, k: int)
    ensures
        !newer_from(a, a, k),
    decreases max_len(a, a) - k,
{
    if 0 <= k < max_len(a, a) {
        lemma_newer_irreflexive(a, k + 1);
    }
}

/// Of two versions, at most one is newer than the other.
pub proof fn lemma_newer_asymmetric(a: Seq<u64>, b: Seq<u64>, k: int)
    ensures
        newer_from(a, b, k) ==> !newer_from(b, a, k),
    decreases max_len(a, b) - k,
{
    assert(max_len(a, b) == max_len(b, a));
    if 0 <= k < max_len(a, b) && part_at(a, k) == part_at(b, k) {
        lemma_newer_asymmetric(a, b, k + 1);
    }
}

/// Newer is transitive.
pub proof fn lemma_newer_transitive(a: Seq<u64>, b: Seq<u64>, c: Seq<u64>, k: int)
    requires
        newer_from(a, b, k),
        newer_from(b, c, k),
    ensures
        newer_from(a, c, k),
    decreases max_len4(a, b, c, c) - k,
{
    if part_at(a, k) == part_at(b, k) && part_at(b, k) == part_at(c, k) {
        lemma_newer_transitive(a, b, c, k + 1);
    }
}

/// Comparing versions reads only their numbers padded with zeros: versions
/// with the same padded numbers compare alike.
pub proof fn lemma_newer_congruent(a: Seq<u64>, b: Seq<u64>, a2: Seq<u64>, b2: Seq<u64>, k: int)
    requires
        forall|j: int| #[trigger] part_at(a, j) == part_at(a2, j),
        forall|j: int| #[trigger] part_at(b, j) == part_at(b2, j),
    ensures
        newer_from(a, b, k) == newer_from(a2, b2, k),
    decreases max_len4(a, b, a2, b2) - k,
{
    if 0 <= k < max_len4(a, b, a2, b2) {
        lemma_newer_congruent(a, b, a2, b2, k + 1);
        assert(part_at(a, k) == part_at(a2, k));
        assert(part_at(b, k) == part_at(b2, k));
    }
}

/// Trailing zero numbers do not change a comparison: `1.2` and `1.2.0`
/// name the same version, neither newer than the other.
pub proof fn lemma_trailing_zero_ignored(a: Seq<u64>, b: Seq<u64>)
    ensures
        parts_newer(a.push(0), b) == parts_newer(a, b),
        parts_newer(b, a.push(0)) == parts_newer(b, a),
        !parts_newer(a.push(0), a),
        !parts_newer(a, a.push(0)),
{
    assert forall|j: int| #[trigger] part_at(a.push(0), j) == part_at(a, j) by {
        if 0 <= j < a.len() {
            assert(a.push(0)[j] == a[j]);
        }
    }
    lemma_newer_congruent(a.push(0), b, a, b, 0);
    lemma_newer_congruent(b, a.push(0), b, a, 0);
    lemma_newer_congruent(a.push(0), a, a, a, 0);
    lemma_newer_congruent(a, a.push(0), a, a, 0);
    lemma_newer_irreflexive(a, 0);
}

/// Version comparison of texts is a strict order: irreflexive, asymmetric
/// and transitive.
pub proof fn lemma_version_newer_strict_order(x: Seq<char>, y: Seq<char>, z: Seq<char>)
    ensures
        !version_newer_spec(x, x),
        version_newer_spec(x, y) ==> !version_newer_spec(y, x),
        version_newer_spec(x, y) && version_newer_spec(y, z) ==> version_newer_spec(x, z),
{
    let a = version_parts_spec(x);
    let b = version_parts_spec(y);
    let c = version_parts_spec(z);
    lemma_newer_irreflexive(a, 0);
    lemma_newer_asymmetric(a, b, 0);
    if newer_from(a, b, 0) && newer_from(b, c, 0) {
        lemma_newer_transitive(a, b, c, 0);
    }
}

proof fn lemma_digit_run_len_concat(s: Seq<char>, t: Seq<char>)
    requires
        t.len() == 0 || !is_digit(t[0]),
    ensures
        digit_run_len(s + t) == digit_run_len(s),
    decreases s.len(),
{
    if s.len() == 0 {
        assert(s + t =~= t);
    } else if is_digit(s[0]) {
        assert((s + t).drop_first() =~= s.drop_first() + t);
        lemma_digit_run_len_concat(s.drop_first(), t);
    }
}

/// Version text followed by text that starts with a non-digit: its
/// numbers are those of the first part followed by those of the second.
pub proof fn lemma_version_parts_concat(s: Seq<char>, t: Seq<char>)
    requires
        t.len() == 0 || !is_digit(t[0]),
    ensures
        version_parts_spec(s + t) == version_parts_spec(s) + version_parts_spec(t),
    decreases s.len(),
{
    if s.len() == 0 {
        assert(s + t =~= t);
        assert(Seq::<u64>::empty() + version_parts_spec(t) =~= version_parts_spec(t));
    } else if !is_digit(s[0]) {
        assert((s + t).drop_first() =~= s.drop_first() + t);
        lemma_version_parts_concat(s.drop_first(), t);
    } else {
        let n = digit_run_len(s);
        lemma_digit_run_len_bounded(s);
        lemma_digit_run_len_concat(s, t);
        lemma_digit_run_len_bounded(s + t);
        assert((s + t).take(n as int) =~= s.take(n as int));
        assert((s + t).skip(n as int) =~= s.skip(n as int) + t);
        lemma_version_parts_concat(s.skip(n as int), t);
        let v = decimal_value(s.take(n as int));
        let rest = version_parts_spec(s.skip(n as int));
        if v <= u64::MAX {
            assert(seq![v as u64] + (rest + version_parts_spec(t)) =~= (seq![v as u64] + rest)
                + version_parts_spec(t));
        }
    }
}

/// The text ".0" holds the single number zero.
pub proof fn lemma_dot_zero_parts()
    ensures
        version_parts_spec(".0"@) == seq![0u64],
{
    reveal_strlit(".0");
    let s = ".0"@;
    let z = s.drop_first();
    assert(z =~= seq!['0']);
    assert(z.drop_first() =~= Seq::<char>::empty());
    assert(digit_run_len(z.drop_first()) == 0);
    assert(digit_run_len(z) == 1);
    assert(z.take(1) =~= seq!['0']);
    assert(seq!['0'].drop_last() =~= Seq::<char>::empty());
    assert(decimal_value(Seq::<char>::empty()) == 0);
    assert(decimal_value(z.take(1)) == 0);
    assert(z.skip(1) =~= Seq::<char>::empty());
    assert(version_parts_spec(Seq::<char>::empty()) =~= Seq::<u64>::empty());
    assert(version_parts_spec(z) =~= seq![0u64]);
}

/// Appending ".0" to a version text never changes a comparison: `1.2.0`
/// is neither newer nor older than `1.2`, and compares with every other
/// version exactly as `1.2` does.
pub proof fn lemma_dot_zero_suffix_ignored(a: Seq<char>, b: Seq<char>)
    ensures
        version_newer_spec(a + ".0"@, b) == version_newer_spec(a, b),
        version_newer_spec(b, a + ".0"@) == version_newer_spec(b, a),
        !version_newer_spec(a + ".0"@, a),
        !version_newer_spec(a, a + ".0"@),
{
    reveal_strlit(".0");
    lemma_version_parts_concat(a, ".0"@);
    lemma_dot_zero_parts();
    let pa = version_parts_spec(a);
    assert(pa + seq![0u64] =~= pa.push(0));
    lemma_trailing_zero_ignored(pa, version_parts_spec(b));
}

} // verus!
