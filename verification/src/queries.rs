use vstd::prelude::*;

use crate::date::Date;
use crate::distro_release::DistroRelease;
use crate::strutil::str_eq;
use crate::Milestone;

verus! {

/// A per-record test, one for each filter the selection rules apply.
#[derive(Debug)]
pub enum RecordPred {
    /// Every record qualifies.
    Any,
    /// The record had entered development at the date.
    CreatedAt(Date),
    /// The record had been released at the date.
    ReleasedAt(Date),
    /// Released, and still supported under the milestone.
    ReleasedAndSupportedAt(Date, Milestone),
    /// Released, but no longer supported under the milestone.
    ReleasedAndUnsupportedAt(Date, Milestone),
    /// Released, and still supported under Ubuntu's rules.
    ReleasedAndUbuntuSupportedAt(Date),
    /// Released, but no longer supported under Ubuntu's rules.
    ReleasedAndUbuntuUnsupportedAt(Date),
    /// The release date is known and still in the future.
    InDevelopmentAt(Date),
    /// The release date is absent or in the future, and the record has no
    /// version yet (Debian's rule for unstable/testing rows).
    DebianInDevelopmentAt(Date),
    /// The version string carries an "LTS" marker.
    IsLts,
    /// Not supported under plain EOL, yet supported under EOL-LTS.
    DebianLtsAt(Date),
    /// Not supported under EOL-LTS, yet supported under EOL-ELTS.
    DebianEltsAt(Date),
    /// Debian's testing rule: entered development strictly before the
    /// date, not yet released (or no release date), and not one of the
    /// rolling sid/experimental rows.
    TestingAt(Date),
    /// The series name equals the given one.
    SeriesIs(String),
}

pub open spec fn spec_pred_holds(p: RecordPred, r: DistroRelease) -> bool {
    match p {
        RecordPred::Any => true,
        RecordPred::CreatedAt(d) => r.spec_created_at(d),
        RecordPred::ReleasedAt(d) => r.spec_released_at(d),
        RecordPred::ReleasedAndSupportedAt(d, m) => r.spec_released_at(d) && r.spec_supported_at(
            d,
            m,
        ),
        RecordPred::ReleasedAndUnsupportedAt(d, m) => r.spec_released_at(d)
            && !r.spec_supported_at(d, m),
        RecordPred::ReleasedAndUbuntuSupportedAt(d) => r.spec_released_at(d)
            && r.spec_ubuntu_supported_at(d),
        RecordPred::ReleasedAndUbuntuUnsupportedAt(d) => r.spec_released_at(d)
            && !r.spec_ubuntu_supported_at(d),
        RecordPred::InDevelopmentAt(d) => match r.release {
            Some(release) => d.spec_lt(release),
            None => false,
        },
        RecordPred::DebianInDevelopmentAt(d) => (match r.release {
            Some(release) => d.spec_lt(release),
            None => true,
        }) && r.version is None,
        RecordPred::IsLts => r.spec_is_lts(),
        RecordPred::DebianLtsAt(d) => !r.spec_supported_at(d, Milestone::Eol)
            && r.spec_supported_at(d, Milestone::EolLTS),
        RecordPred::DebianEltsAt(d) => !r.spec_supported_at(d, Milestone::EolLTS)
            && r.spec_supported_at(d, Milestone::EolELTS),
        RecordPred::TestingAt(d) => (match r.created {
            Some(created) => created.spec_lt(d),
            None => false,
        }) && (match r.release {
            Some(release) => d.spec_lt(release),
            None => true,
        }) && r.series@ != "sid"@ && r.series@ != "experimental"@,
        RecordPred::SeriesIs(name) => r.series@ == name@,
    }
}

/// The test as a spec-level predicate, shared by every filter contract.
pub open spec fn spec_pred_fn(p: RecordPred) -> spec_fn(DistroRelease) -> bool {
    |r: DistroRelease| spec_pred_holds(p, r)
}

fn pred_eval(p: &RecordPred, r: &DistroRelease) -> (b: bool)
    ensures
        b == spec_pred_holds(*p, *r),
{
    match p {
        RecordPred::Any => true,
        RecordPred::CreatedAt(d) => r.created_at(*d),
        RecordPred::ReleasedAt(d) => r.released_at(*d),
        RecordPred::ReleasedAndSupportedAt(d, m) => r.released_at(*d) && r.supported_at(*d, m),
        RecordPred::ReleasedAndUnsupportedAt(d, m) => r.released_at(*d) && !r.supported_at(*d, m),
        RecordPred::ReleasedAndUbuntuSupportedAt(d) => r.released_at(*d) && r.ubuntu_supported_at(
            *d,
        ),
        RecordPred::ReleasedAndUbuntuUnsupportedAt(d) => r.released_at(*d)
            && !r.ubuntu_supported_at(*d),
        RecordPred::InDevelopmentAt(d) => match &r.release {
            Some(release) => d.lt(release),
            None => false,
        },
        RecordPred::DebianInDevelopmentAt(d) => (match &r.release {
            Some(release) => d.lt(release),
            None => true,
        }) && r.version.is_none(),
        RecordPred::IsLts => r.ubuntu_is_lts(),
        RecordPred::DebianLtsAt(d) => !r.supported_at(*d, &Milestone::Eol) && r.supported_at(
            *d,
            &Milestone::EolLTS,
        ),
        RecordPred::DebianEltsAt(d) => !r.supported_at(*d, &Milestone::EolLTS) && r.supported_at(
            *d,
            &Milestone::EolELTS,
        ),
        RecordPred::TestingAt(d) => (match &r.created {
            Some(created) => created.lt(d),
            None => false,
        }) && (match &r.release {
            Some(release) => d.lt(release),
            None => true,
        }) && !str_eq(r.series.as_str(), "sid") && !str_eq(r.series.as_str(), "experimental"),
        RecordPred::SeriesIs(name) => str_eq(r.series.as_str(), name.as_str()),
    }
}

/// The records that pass the test, in table order, as fresh copies.
pub fn filter_by(releases: &Vec<DistroRelease>, pred: &RecordPred) -> (r: Vec<DistroRelease>)
    ensures
        r@ == releases@.filter(spec_pred_fn(*pred)),
{
    let mut out: Vec<DistroRelease> = Vec::new();
    let mut i: usize = 0;
    proof {
        assert(releases@.subrange(0, 0).filter(spec_pred_fn(*pred)) =~= out@) by {
            reveal(Seq::filter);
        }
    }
    while i < releases.len()
        invariant
            0 <= i <= releases@.len(),
            out@ == releases@.subrange(0, i as int).filter(spec_pred_fn(*pred)),
        decreases releases@.len() - i,
    {
        let r = &releases[i];
        let ghost s = releases@.subrange(0, i as int);
        let ghost x = releases@[i as int];
        if pred_eval(pred, r) {
            out.push(r.clone());
        }
        proof {
            reveal(Seq::filter);
            assert(releases@.subrange(0, i + 1) =~= s.push(x));
            assert(s.push(x).drop_last() =~= s);
            assert(s.push(x).filter(spec_pred_fn(*pred)) == if spec_pred_holds(*pred, x) {
                s.filter(spec_pred_fn(*pred)).push(x)
            } else {
                s.filter(spec_pred_fn(*pred))
            });
        }
        i += 1;
    }
    proof {
        assert(releases@.subrange(0, releases@.len() as int) =~= releases@);
    }
    out
}

/// The first record that passes the test, if any, as a fresh copy.
pub fn find_first(releases: &Vec<DistroRelease>, pred: &RecordPred) -> (r: Option<DistroRelease>)
    ensures
        r == (if releases@.filter(spec_pred_fn(*pred)).len() == 0 {
            None::<DistroRelease>
        } else {
            Some(releases@.filter(spec_pred_fn(*pred))[0])
        }),
{
    let filtered = filter_by(releases, pred);
    if filtered.len() == 0 {
        None
    } else {
        let mut filtered = filtered;
        let first = filtered.remove(0);
        Some(first)
    }
}

/// The first record whose series equals `name`, scanning in table order.
pub open spec fn spec_first_series(rels: Seq<DistroRelease>, name: Seq<char>) -> Option<
    DistroRelease,
>
    decreases rels.len(),
{
    if rels.len() == 0 {
        None
    } else if rels[0].series@ == name {
        Some(rels[0])
    } else {
        spec_first_series(rels.drop_first(), name)
    }
}

/// Scanning for a series may start past a prefix without a match.
proof fn lemma_first_series_skip(rels: Seq<DistroRelease>, name: Seq<char>, i: int)
    requires
        0 <= i <= rels.len(),
        forall|j: int| 0 <= j < i ==> rels[j].series@ != name,
    ensures
        spec_first_series(rels, name) == spec_first_series(rels.skip(i), name),
    decreases i,
{
    if i == 0 {
        assert(rels.skip(0) =~= rels);
    } else {
        lemma_first_series_skip(rels, name, i - 1);
        assert(rels.skip(i - 1).len() > 0);
        assert(rels.skip(i - 1)[0] == rels[i - 1]);
        assert(rels.skip(i - 1)[0].series@ != name);
        assert(rels.skip(i - 1).drop_first() =~= rels.skip(i));
        assert(spec_first_series(rels.skip(i - 1), name) == spec_first_series(
            rels.skip(i - 1).drop_first(),
            name,
        ));
    }
}

/// The first record whose series equals `name`, if any, as a fresh copy.
pub fn find_first_series(releases: &Vec<DistroRelease>, name: &str) -> (r: Option<DistroRelease>)
    ensures
        r == spec_first_series(releases@, name@),
{
    let n = releases.len();
    let mut i: usize = 0;
    while i < n
        invariant
            n == releases@.len(),
            0 <= i <= n,
            forall|j: int| 0 <= j < i ==> releases@[j].series@ != name@,
        decreases n - i,
    {
        let rec = &releases[i];
        if str_eq(rec.series.as_str(), name) {
            proof {
                lemma_first_series_skip(releases@, name@, i as int);
                assert(releases@.skip(i as int)[0] == releases@[i as int]);
            }
            return Some(rec.clone());
        }
        i += 1;
    }
    proof {
        lemma_first_series_skip(releases@, name@, n as int);
        assert(releases@.skip(n as int).len() == 0);
    }
    None
}

/// The last record that passes the test, if any, as a fresh copy.
pub fn find_last(releases: &Vec<DistroRelease>, pred: &RecordPred) -> (r: Option<DistroRelease>)
    ensures
        r == (if releases@.filter(spec_pred_fn(*pred)).len() == 0 {
            None::<DistroRelease>
        } else {
            Some(releases@.filter(spec_pred_fn(*pred)).last())
        }),
{
    let mut filtered = filter_by(releases, pred);
    let n = filtered.len();
    if n == 0 {
        None
    } else {
        let last = filtered.remove(n - 1);
        Some(last)
    }
}

/// The whole table, in order, as fresh copies.
pub fn clone_all(releases: &Vec<DistroRelease>) -> (r: Vec<DistroRelease>)
    ensures
        r@ == releases@,
{
    let mut out: Vec<DistroRelease> = Vec::new();
    let n = releases.len();
    let mut i: usize = 0;
    while i < n
        invariant
            n == releases@.len(),
            0 <= i <= n,
            out@ =~= releases@.subrange(0, i as int),
        decreases n - i,
    {
        out.push(releases[i].clone());
        i += 1;
    }
    proof {
        assert(releases@.subrange(0, n as int) =~= releases@);
    }
    out
}

/// A vector holding just the given record.
pub fn vec_of_one(rec: DistroRelease) -> (r: Vec<DistroRelease>)
    ensures
        r@ == seq![rec],
{
    let ghost g = rec;
    let mut out: Vec<DistroRelease> = Vec::new();
    out.push(rec);
    proof {
        assert(out@ =~= seq![g]);
    }
    out
}

/// Records that had entered development at the date, in table order.
pub open spec fn spec_all_at(rels: Seq<DistroRelease>, date: Date) -> Seq<DistroRelease> {
    rels.filter(spec_pred_fn(RecordPred::CreatedAt(date)))
}

/// Records that had been released at the date, in table order.
pub open spec fn spec_released(rels: Seq<DistroRelease>, date: Date) -> Seq<DistroRelease> {
    rels.filter(spec_pred_fn(RecordPred::ReleasedAt(date)))
}

/// Records released and still supported at the date under the milestone.
pub open spec fn spec_supported(rels: Seq<DistroRelease>, date: Date, m: Milestone) -> Seq<
    DistroRelease,
> {
    rels.filter(spec_pred_fn(RecordPred::ReleasedAndSupportedAt(date, m)))
}

/// Records released but no longer supported at the date under the milestone.
pub open spec fn spec_unsupported(rels: Seq<DistroRelease>, date: Date, m: Milestone) -> Seq<
    DistroRelease,
> {
    rels.filter(spec_pred_fn(RecordPred::ReleasedAndUnsupportedAt(date, m)))
}

/// Records released and still supported at the date under Ubuntu's rules.
pub open spec fn spec_ubuntu_supported(rels: Seq<DistroRelease>, date: Date) -> Seq<
    DistroRelease,
> {
    rels.filter(spec_pred_fn(RecordPred::ReleasedAndUbuntuSupportedAt(date)))
}

/// Records released but no longer supported at the date under Ubuntu's rules.
pub open spec fn spec_ubuntu_unsupported(rels: Seq<DistroRelease>, date: Date) -> Seq<
    DistroRelease,
> {
    rels.filter(spec_pred_fn(RecordPred::ReleasedAndUbuntuUnsupportedAt(date)))
}

/// Records in development at the date: entered development, with a known
/// release date still in the future.
pub open spec fn spec_ubuntu_devel(rels: Seq<DistroRelease>, date: Date) -> Seq<DistroRelease> {
    spec_all_at(rels, date).filter(spec_pred_fn(RecordPred::InDevelopmentAt(date)))
}

/// Debian's in-development selection: among records that entered
/// development, those unreleased (or unversioned rolling rows), keeping
/// the first such record only.
pub open spec fn spec_debian_devel(rels: Seq<DistroRelease>, date: Date) -> Seq<DistroRelease> {
    let c = spec_all_at(rels, date).filter(spec_pred_fn(RecordPred::DebianInDevelopmentAt(date)));
    if c.len() == 0 {
        Seq::empty()
    } else {
        seq![c[0]]
    }
}

/// The latest supported release at the date: the last, in table order, of
/// the released records still supported under Ubuntu's rules.
pub open spec fn spec_latest(rels: Seq<DistroRelease>, date: Date) -> Option<DistroRelease> {
    let c = spec_ubuntu_supported(rels, date);
    if c.len() == 0 {
        None
    } else {
        Some(c.last())
    }
}

/// The latest stable release: defined as a synonym of `spec_latest`.
pub open spec fn spec_stable(rels: Seq<DistroRelease>, date: Date) -> Option<DistroRelease> {
    spec_latest(rels, date)
}

/// Debian's testing row: the first record that entered development
/// strictly before the date, is unreleased or has its release still
/// ahead, and is not one of the rolling sid/experimental rows.
pub open spec fn spec_testing(rels: Seq<DistroRelease>, date: Date) -> Option<DistroRelease> {
    let c = rels.filter(spec_pred_fn(RecordPred::TestingAt(date)));
    if c.len() == 0 {
        None
    } else {
        Some(c[0])
    }
}

/// The stable release prior to the current one: the second-to-last record
/// released at the date, or `None` when fewer than two are released.
pub open spec fn spec_oldstable(rels: Seq<DistroRelease>, date: Date) -> Option<DistroRelease> {
    let c = spec_released(rels, date);
    if c.len() < 2 {
        None
    } else {
        Some(c[c.len() - 2])
    }
}

} // verus!
