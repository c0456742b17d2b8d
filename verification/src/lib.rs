//! Query Debian and Ubuntu release metadata: which releases exist, which are
//! supported, in development, or long-term supported at a given date.
//!
//! A [`DistroRelease`] describes one release of a distribution (series,
//! codename, version, and its lifecycle dates).  A table of releases is held
//! by [`UbuntuDistroInfo`] or [`DebianDistroInfo`]; the [`DistroInfo`] trait
//! provides the date-parameterized queries shared by both.

use vstd::prelude::*;

pub mod date;
pub mod distro_release;
pub mod error;
pub mod laws;
pub mod load;
pub mod queries;
pub mod selectors;
pub mod strutil;

pub use crate::date::{determine_day_delta, parse_date, Date};
pub use crate::distro_release::DistroRelease;
pub use crate::error::Error;
pub use crate::selectors::{
    day_display, select_distro_releases, DaysDisplay, DaysMode, OutputMode, Selector,
};

use crate::load::{
    build_releases, csv_rows_of, parse_csv_rows, spec_all_rows_ok, spec_header,
    spec_releases_match_rows, spec_row_error, spec_row_ok,
};
use crate::queries::{
    filter_by, find_first, find_first_series, find_last, spec_all_at, spec_debian_devel,
    spec_first_series, spec_latest, spec_oldstable, spec_released, spec_stable, spec_supported,
    spec_testing,
    spec_ubuntu_devel, spec_ubuntu_supported, spec_ubuntu_unsupported, spec_unsupported,
    RecordPred,
};
use vstd::pervasive::unreached;

verus! {

/// The distribution a release table belongs to.
#[derive(Clone, Copy, PartialEq, Eq, Structural, Debug)]
pub enum Distro {
    Debian,
    Ubuntu,
}

impl Distro {
    /// The display name of the distribution.
    pub open spec fn spec_name(self) -> Seq<char> {
        match self {
            Distro::Ubuntu => "Ubuntu"@,
            Distro::Debian => "Debian"@,
        }
    }

    pub fn to_string(&self) -> (s: &'static str)
        ensures
            s@ == self.spec_name(),
    {
        match self {
            Distro::Ubuntu => "Ubuntu",
            Distro::Debian => "Debian",
        }
    }
}

/// Selects which end-of-support date governs a supportedness check.
#[derive(Clone, Copy, PartialEq, Eq, Structural, Debug)]
pub enum Milestone {
    Eol,
    EolELTS,
    EolESM,
    EolLTS,
    EolServer,
}

/// An ordered release table for one distribution, with the
/// date-parameterized queries both distributions share.  Every query
/// returns fresh copies of the matching records, in table order.
pub trait DistroInfo: Sized {
    /// Which distribution's rules govern this table.
    spec fn spec_distro(&self) -> Distro;

    /// The table's records, in chronological creation order.
    spec fn spec_releases(&self) -> Seq<DistroRelease>;

    fn distro(&self) -> (d: Distro)
        ensures
            d == self.spec_distro(),
    ;

    fn releases(&self) -> (r: &Vec<DistroRelease>)
        ensures
            r@ == self.spec_releases(),
    ;

    /// Builds a table directly from a vector of records.
    fn from_vec(releases: Vec<DistroRelease>) -> (r: Self)
        ensures
            r.spec_releases() == releases@,
    ;

    /// Builds a table from rows of cells, header row first, one record
    /// per data row.
    fn from_rows(rows: &Vec<Vec<String>>) -> (r: Result<Self, Error>)
        ensures
            r is Ok <==> spec_all_rows_ok(rows.deep_view()),
            r matches Ok(t) ==> spec_releases_match_rows(t.spec_releases(), rows.deep_view()),
            r matches Err(e) ==> exists|i: int|
                {
                    &&& 1 <= i < rows.deep_view().len()
                    &&& !spec_row_ok(spec_header(rows.deep_view()), #[trigger] rows.deep_view()[i])
                    &&& Some(e) == spec_row_error(
                        spec_header(rows.deep_view()),
                        rows.deep_view()[i],
                    )
                },
    {
        match build_releases(rows) {
            Ok(v) => Ok(Self::from_vec(v)),
            Err(e) => Err(e),
        }
    }

    /// Builds a table from CSV text in the distro-info-data format, as
    /// the csv crate splits it into rows.
    fn from_csv_data(data: &str) -> (r: Result<Self, Error>)
        ensures
            r is Ok <==> spec_all_rows_ok(csv_rows_of(data@)),
            r matches Ok(t) ==> spec_releases_match_rows(t.spec_releases(), csv_rows_of(data@)),
            r matches Err(e) ==> exists|i: int|
                {
                    &&& 1 <= i < csv_rows_of(data@).len()
                    &&& !spec_row_ok(spec_header(csv_rows_of(data@)), #[trigger] csv_rows_of(
                        data@,
                    )[i])
                    &&& Some(e) == spec_row_error(
                        spec_header(csv_rows_of(data@)),
                        csv_rows_of(data@)[i],
                    )
                },
    {
        let rows = parse_csv_rows(data);
        Self::from_rows(&rows)
    }

    /// The releases that had entered development at the given date.
    fn all_at(&self, date: Date) -> (r: Vec<DistroRelease>)
        ensures
            r@ == spec_all_at(self.spec_releases(), date),
    {
        filter_by(self.releases(), &RecordPred::CreatedAt(date))
    }

    /// The releases that had been released at the given date.
    fn released(&self, date: Date) -> (r: Vec<DistroRelease>)
        ensures
            r@ == spec_released(self.spec_releases(), date),
    {
        filter_by(self.releases(), &RecordPred::ReleasedAt(date))
    }

    /// The releases released and still supported at the given date, per
    /// the given milestone.
    fn supported(&self, date: Date, milestone: Milestone) -> (r: Vec<DistroRelease>)
        ensures
            r@ == spec_supported(self.spec_releases(), date, milestone),
    {
        filter_by(self.releases(), &RecordPred::ReleasedAndSupportedAt(date, milestone))
    }

    /// The releases released but no longer supported at the given date,
    /// per the given milestone.
    fn unsupported(&self, date: Date, milestone: Milestone) -> (r: Vec<DistroRelease>)
        ensures
            r@ == spec_unsupported(self.spec_releases(), date, milestone),
    {
        filter_by(self.releases(), &RecordPred::ReleasedAndUnsupportedAt(date, milestone))
    }

    /// The releases released and still supported at the given date, using
    /// Ubuntu's rules.
    fn ubuntu_supported(&self, date: Date) -> (r: Vec<DistroRelease>)
        ensures
            r@ == spec_ubuntu_supported(self.spec_releases(), date),
    {
        filter_by(self.releases(), &RecordPred::ReleasedAndUbuntuSupportedAt(date))
    }

    /// The releases released but no longer supported at the given date,
    /// using Ubuntu's rules.
    fn ubuntu_unsupported(&self, date: Date) -> (r: Vec<DistroRelease>)
        ensures
            r@ == spec_ubuntu_unsupported(self.spec_releases(), date),
    {
        filter_by(self.releases(), &RecordPred::ReleasedAndUbuntuUnsupportedAt(date))
    }

    /// The releases in development at the given date: entered development,
    /// with a known release date still in the future.
    fn ubuntu_devel(&self, date: Date) -> (r: Vec<DistroRelease>)
        ensures
            r@ == spec_ubuntu_devel(self.spec_releases(), date),
    {
        let candidates = filter_by(self.releases(), &RecordPred::CreatedAt(date));
        filter_by(&candidates, &RecordPred::InDevelopmentAt(date))
    }

    /// Debian's in-development selection: the first record that entered
    /// development and is unreleased (or an unversioned rolling row).
    fn debian_devel(&self, date: Date) -> (r: Vec<DistroRelease>)
        ensures
            r@ == spec_debian_devel(self.spec_releases(), date),
    {
        let candidates = filter_by(self.releases(), &RecordPred::CreatedAt(date));
        match find_first(&candidates, &RecordPred::DebianInDevelopmentAt(date)) {
            Some(rec) => {
                let mut out: Vec<DistroRelease> = Vec::new();
                out.push(rec);
                proof {
                    assert(out@ =~= spec_debian_devel(self.spec_releases(), date));
                }
                out
            },
            None => Vec::new(),
        }
    }

    /// The latest supported, released release at the given date, if any.
    fn latest(&self, date: Date) -> (r: Option<DistroRelease>)
        ensures
            r == spec_latest(self.spec_releases(), date),
    {
        find_last(self.releases(), &RecordPred::ReleasedAndUbuntuSupportedAt(date))
    }

    /// The stable release prior to the current one, if one exists: the
    /// second-to-last release released at the given date.
    fn oldstable(&self, date: Date) -> (r: Option<DistroRelease>)
        ensures
            r == spec_oldstable(self.spec_releases(), date),
    {
        let mut candidates = filter_by(self.releases(), &RecordPred::ReleasedAt(date));
        let n = candidates.len();
        if n >= 2 {
            Some(candidates.remove(n - 2))
        } else {
            None
        }
    }
}

/// The release table for Ubuntu.
pub struct UbuntuDistroInfo {
    releases: Vec<DistroRelease>,
}

impl DistroInfo for UbuntuDistroInfo {
    open spec fn spec_distro(&self) -> Distro {
        Distro::Ubuntu
    }

    closed spec fn spec_releases(&self) -> Seq<DistroRelease> {
        self.releases@
    }

    fn distro(&self) -> (d: Distro) {
        Distro::Ubuntu
    }

    fn releases(&self) -> (r: &Vec<DistroRelease>) {
        &self.releases
    }

    fn from_vec(releases: Vec<DistroRelease>) -> (r: Self) {
        UbuntuDistroInfo { releases }
    }
}

/// The release table for Debian.
pub struct DebianDistroInfo {
    releases: Vec<DistroRelease>,
}

impl DistroInfo for DebianDistroInfo {
    open spec fn spec_distro(&self) -> Distro {
        Distro::Debian
    }

    closed spec fn spec_releases(&self) -> Seq<DistroRelease> {
        self.releases@
    }

    fn distro(&self) -> (d: Distro) {
        Distro::Debian
    }

    fn releases(&self) -> (r: &Vec<DistroRelease>) {
        &self.releases
    }

    fn from_vec(releases: Vec<DistroRelease>) -> (r: Self) {
        DebianDistroInfo { releases }
    }
}

impl DebianDistroInfo {
    /// The latest stable release at the given date; a synonym of
    /// `latest`.
    pub fn stable(&self, date: Date) -> (r: Option<DistroRelease>)
        ensures
            r == spec_stable(self.spec_releases(), date),
    {
        DistroInfo::latest(self, date)
    }

    /// The stable release prior to the current one, if one exists.
    pub fn oldstable(&self, date: Date) -> (r: Option<DistroRelease>)
        ensures
            r == spec_oldstable(self.spec_releases(), date),
    {
        DistroInfo::oldstable(self, date)
    }

    /// Debian's testing row at the given date, if any.
    pub fn testing(&self, date: Date) -> (r: Option<DistroRelease>)
        ensures
            r == spec_testing(self.spec_releases(), date),
    {
        find_first(self.releases(), &RecordPred::TestingAt(date))
    }

    /// The rolling "sid" row.  The table must hold one; a table without
    /// it is corrupt, and callers check before asking.
    pub fn unstable(&self) -> (r: DistroRelease)
        requires
            spec_first_series(self.spec_releases(), "sid"@) is Some,
        ensures
            Some(r) == spec_first_series(self.spec_releases(), "sid"@),
    {
        match find_first_series(self.releases(), "sid") {
            Some(rec) => rec,
            None => unreached(),
        }
    }

    /// The rolling "experimental" row.  The table must hold one; a table
    /// without it is corrupt, and callers check before asking.
    pub fn experimental(&self) -> (r: DistroRelease)
        requires
            spec_first_series(self.spec_releases(), "experimental"@) is Some,
        ensures
            Some(r) == spec_first_series(self.spec_releases(), "experimental"@),
    {
        match find_first_series(self.releases(), "experimental") {
            Some(rec) => rec,
            None => unreached(),
        }
    }
}

} // verus!
