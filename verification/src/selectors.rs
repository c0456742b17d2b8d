use vstd::prelude::*;

use crate::date::{determine_day_delta, spec_day_number, Date};
use crate::distro_release::DistroRelease;
use crate::error::Error;
use crate::queries::{
    clone_all, filter_by, find_first, find_last, spec_all_at, spec_debian_devel, spec_latest,
    spec_oldstable, spec_pred_fn, spec_released, spec_supported, spec_testing, spec_ubuntu_devel,
    spec_ubuntu_supported, spec_ubuntu_unsupported, spec_unsupported, vec_of_one, RecordPred,
};
use crate::strutil::{all_lowercase, spec_all_lowercase, str_eq};
use crate::{Distro, DistroInfo, Milestone};

verus! {

/// Which lifecycle date a "days until milestone" display counts towards.
#[derive(Clone, PartialEq, Eq, Structural, Debug)]
pub enum DaysMode {
    Created,
    Eol,
    EolLTS,
    EolELTS,
    EolServer,
    Release,
}

/// The days mode a command-line token names, if any.
pub open spec fn spec_days_mode_of(s: Seq<char>) -> Option<DaysMode> {
    if s == "created"@ {
        Some(DaysMode::Created)
    } else if s == "eol"@ {
        Some(DaysMode::Eol)
    } else if s == "eol-lts"@ {
        Some(DaysMode::EolLTS)
    } else if s == "eol-elts"@ {
        Some(DaysMode::EolELTS)
    } else if s == "eol-server"@ {
        Some(DaysMode::EolServer)
    } else if s == "release"@ {
        Some(DaysMode::Release)
    } else {
        None
    }
}

impl DaysMode {
    /// Maps a command-line milestone token to its days mode; any other
    /// token is rejected.
    pub fn from_cli(value: &str) -> (r: Result<Self, Error>)
        ensures
            r == (match spec_days_mode_of(value@) {
                Some(m) => Ok::<DaysMode, Error>(m),
                None => Err::<DaysMode, Error>(Error::UnknownDaysMode),
            }),
    {
        if str_eq(value, "created") {
            Ok(Self::Created)
        } else if str_eq(value, "eol") {
            Ok(Self::Eol)
        } else if str_eq(value, "eol-lts") {
            Ok(Self::EolLTS)
        } else if str_eq(value, "eol-elts") {
            Ok(Self::EolELTS)
        } else if str_eq(value, "eol-server") {
            Ok(Self::EolServer)
        } else if str_eq(value, "release") {
            Ok(Self::Release)
        } else {
            Err(Error::UnknownDaysMode)
        }
    }

    /// The record date this mode counts towards.
    pub open spec fn spec_target_date(self, rec: DistroRelease) -> Option<Date> {
        match self {
            DaysMode::Created => rec.created,
            DaysMode::Eol => rec.eol,
            DaysMode::EolLTS => rec.eol_lts,
            DaysMode::EolELTS => rec.eol_elts,
            DaysMode::EolServer => rec.eol_server,
            DaysMode::Release => rec.release,
        }
    }

    /// The date this mode counts towards for the given record.  An absent
    /// `created` or `release` date is a hard error naming the series; the
    /// other modes simply report no date.
    pub fn date_for(&self, distro_release: &DistroRelease) -> (r: Result<Option<Date>, Error>)
        ensures
            (match *self {
                DaysMode::Created => match distro_release.created {
                    Some(d) => r == Ok::<Option<Date>, Error>(Some(d)),
                    None => r matches Err(e) && e matches Error::MissingCreatedDate(s) && s@
                        == distro_release.series@,
                },
                DaysMode::Release => match distro_release.release {
                    Some(d) => r == Ok::<Option<Date>, Error>(Some(d)),
                    None => r matches Err(e) && e matches Error::MissingReleaseDate(s) && s@
                        == distro_release.series@,
                },
                _ => r == Ok::<Option<Date>, Error>(self.spec_target_date(*distro_release)),
            }),
    {
        match self {
            DaysMode::Created => match &distro_release.created {
                Some(d) => Ok(Some(*d)),
                None => Err(Error::MissingCreatedDate(distro_release.series.clone())),
            },
            DaysMode::Eol => Ok(distro_release.eol),
            DaysMode::EolLTS => Ok(distro_release.eol_lts),
            DaysMode::EolELTS => Ok(distro_release.eol_elts),
            DaysMode::EolServer => Ok(distro_release.eol_server),
            DaysMode::Release => match &distro_release.release {
                Some(d) => Ok(Some(*d)),
                None => Err(Error::MissingReleaseDate(distro_release.series.clone())),
            },
        }
    }
}

/// What the primary column of an output line shows for each record.
#[derive(PartialEq, Eq, Structural, Debug)]
pub enum OutputMode {
    Codename,
    FullName,
    Release,
    Suppress,
}

/// The output mode the command-line flags select: full name and release
/// version win over codename, and codename is the default unless only a
/// days display was asked for.
pub open spec fn spec_output_mode(
    fullname: bool,
    release: bool,
    codename: bool,
    days_requested: bool,
) -> OutputMode {
    if fullname {
        OutputMode::FullName
    } else if release {
        OutputMode::Release
    } else if codename || !days_requested {
        OutputMode::Codename
    } else {
        OutputMode::Suppress
    }
}

impl OutputMode {
    pub fn from_flags(fullname: bool, release: bool, codename: bool, days_requested: bool) -> (r:
        OutputMode)
        ensures
            r == spec_output_mode(fullname, release, codename, days_requested),
    {
        if fullname {
            OutputMode::FullName
        } else if release {
            OutputMode::Release
        } else if codename || !days_requested {
            OutputMode::Codename
        } else {
            OutputMode::Suppress
        }
    }
}

/// What the day-delta column of an output line shows for one record.
#[derive(PartialEq, Eq, Structural, Debug)]
pub enum DaysDisplay {
    /// No column: no days display was requested, or the milestone has no
    /// date and no marker is called for.
    Nothing,
    /// The signed number of whole days until the milestone.
    Days(i64),
    /// The milestone date is unknown; an explicit marker is shown.
    Unknown,
}

/// The day-delta column for one record: the signed distance in days from
/// the reference date to the milestone date.  An absent `eol` or
/// `eol-server` date degrades to the unknown marker; an absent `created`
/// or `release` date is a hard error.
pub fn day_display(
    days_mode: &Option<DaysMode>,
    distro_release: &DistroRelease,
    date: Date,
) -> (r: Result<DaysDisplay, Error>)
    requires
        date.valid(),
        distro_release.dates_valid(),
    ensures
        (match *days_mode {
            None => r == Ok::<DaysDisplay, Error>(DaysDisplay::Nothing),
            Some(m) => match m.spec_target_date(*distro_release) {
                Some(t) => r == Ok::<DaysDisplay, Error>(
                    DaysDisplay::Days((spec_day_number(t) - spec_day_number(date)) as i64),
                ),
                None => match m {
                    DaysMode::Created => r matches Err(e) && e matches Error::MissingCreatedDate(s)
                        && s@ == distro_release.series@,
                    DaysMode::Release => r matches Err(e) && e matches Error::MissingReleaseDate(s)
                        && s@ == distro_release.series@,
                    DaysMode::Eol | DaysMode::EolServer => r == Ok::<DaysDisplay, Error>(
                        DaysDisplay::Unknown,
                    ),
                    _ => r == Ok::<DaysDisplay, Error>(DaysDisplay::Nothing),
                },
            },
        }),
{
    let m = match days_mode {
        Some(m) => m,
        None => {
            return Ok(DaysDisplay::Nothing);
        },
    };
    match m.date_for(distro_release) {
        Ok(Some(target)) => Ok(DaysDisplay::Days(determine_day_delta(date, target))),
        Ok(None) => match m {
            DaysMode::Eol | DaysMode::EolServer => Ok(DaysDisplay::Unknown),
            _ => Ok(DaysDisplay::Nothing),
        },
        Err(e) => Err(e),
    }
}

/// A selection-mode token: which subset of the table a query asks for.
#[derive(Debug)]
pub enum Selector {
    /// Every record, in table order.
    All,
    /// Released and still supported, under the distribution's rules.
    Supported,
    /// Released but no longer supported, under the distribution's rules.
    Unsupported,
    /// In development, under the distribution's rules.
    Devel,
    /// Debian's testing row: the first record in development at the date
    /// that is not one of the rolling sid/experimental rows.
    Testing,
    /// The in-development release if one exists, else the latest
    /// supported release.
    Latest,
    /// Long-term-support releases, under the distribution's rules.
    Lts,
    /// Extended-LTS releases (Debian).
    Elts,
    /// The stable release prior to the current one.
    Oldstable,
    /// The latest supported release.
    Stable,
    /// The record with exactly this series name.
    Series(String),
}

/// Applies a selection mode to a release table at a reference date,
/// returning the matching records in table order.
pub fn select_distro_releases<D: DistroInfo>(
    selector: &Selector,
    date: Date,
    distro_info: &D,
) -> (r: Result<Vec<DistroRelease>, Error>)
    ensures
        (match *selector {
            Selector::All => r matches Ok(v) && v@ == distro_info.spec_releases(),
            Selector::Supported => r matches Ok(v) && v@ == (if distro_info.spec_distro()
                is Ubuntu {
                spec_ubuntu_supported(distro_info.spec_releases(), date)
            } else {
                spec_supported(distro_info.spec_releases(), date, Milestone::Eol)
            }),
            Selector::Unsupported => r matches Ok(v) && v@ == (if distro_info.spec_distro()
                is Ubuntu {
                spec_ubuntu_unsupported(distro_info.spec_releases(), date)
            } else {
                spec_unsupported(distro_info.spec_releases(), date, Milestone::Eol)
            }),
            Selector::Devel => r matches Ok(v) && v@ == (if distro_info.spec_distro() is Ubuntu {
                spec_ubuntu_devel(distro_info.spec_releases(), date)
            } else {
                spec_debian_devel(distro_info.spec_releases(), date)
            }),
            Selector::Testing => r matches Ok(v) && v@ == (match spec_testing(
                distro_info.spec_releases(),
                date,
            ) {
                Some(rec) => seq![rec],
                None => Seq::empty(),
            }),
            Selector::Latest => r matches Ok(v) && v@ == ({
                let dev = spec_ubuntu_devel(distro_info.spec_releases(), date);
                if dev.len() > 0 {
                    seq![dev.last()]
                } else {
                    match spec_latest(distro_info.spec_releases(), date) {
                        Some(rec) => seq![rec],
                        None => Seq::empty(),
                    }
                }
            }),
            Selector::Lts => if distro_info.spec_distro() is Ubuntu {
                let lts = spec_all_at(distro_info.spec_releases(), date).filter(
                    spec_pred_fn(RecordPred::IsLts),
                );
                if lts.len() == 0 {
                    r == Err::<Vec<DistroRelease>, Error>(Error::DataOutdated)
                } else {
                    r matches Ok(v) && v@ == seq![lts.last()]
                }
            } else {
                r matches Ok(v) && v@ == spec_all_at(distro_info.spec_releases(), date).filter(
                    spec_pred_fn(RecordPred::DebianLtsAt(date)),
                )
            },
            Selector::Elts => r matches Ok(v) && v@ == spec_released(
                distro_info.spec_releases(),
                date,
            ).filter(spec_pred_fn(RecordPred::DebianEltsAt(date))),
            Selector::Oldstable => r matches Ok(v) && v@ == (match spec_oldstable(
                distro_info.spec_releases(),
                date,
            ) {
                Some(rec) => seq![rec],
                None => Seq::empty(),
            }),
            Selector::Stable => r matches Ok(v) && v@ == (match spec_latest(
                distro_info.spec_releases(),
                date,
            ) {
                Some(rec) => seq![rec],
                None => Seq::empty(),
            }),
            Selector::Series(name) => if name@.len() == 0 || !spec_all_lowercase(name@) {
                r matches Err(e) && e matches Error::InvalidSeries(n) && n@ == name@
            } else {
                let matched = distro_info.spec_releases().filter(
                    spec_pred_fn(RecordPred::SeriesIs(name)),
                );
                if matched.len() == 0 {
                    r matches Err(e) && e matches Error::UnknownSeries(n) && n@ == name@
                } else {
                    r matches Ok(v) && v@ == matched
                }
            },
        }),
{
    match selector {
        Selector::All => Ok(clone_all(distro_info.releases())),
        Selector::Supported => match distro_info.distro() {
            Distro::Ubuntu => Ok(distro_info.ubuntu_supported(date)),
            Distro::Debian => Ok(distro_info.supported(date, Milestone::Eol)),
        },
        Selector::Unsupported => match distro_info.distro() {
            Distro::Ubuntu => Ok(distro_info.ubuntu_unsupported(date)),
            Distro::Debian => Ok(distro_info.unsupported(date, Milestone::Eol)),
        },
        Selector::Devel => match distro_info.distro() {
            Distro::Ubuntu => Ok(distro_info.ubuntu_devel(date)),
            Distro::Debian => Ok(distro_info.debian_devel(date)),
        },
        Selector::Testing => match find_first(distro_info.releases(), &RecordPred::TestingAt(date)) {
            Some(rec) => Ok(vec_of_one(rec)),
            None => Ok(Vec::new()),
        },
        Selector::Latest => {
            let mut devel_result = distro_info.ubuntu_devel(date);
            let n = devel_result.len();
            if n > 0 {
                let last = devel_result.remove(n - 1);
                Ok(vec_of_one(last))
            } else {
                match distro_info.latest(date) {
                    Some(rec) => Ok(vec_of_one(rec)),
                    None => Ok(Vec::new()),
                }
            }
        },
        Selector::Lts => match distro_info.distro() {
            Distro::Ubuntu => {
                let candidates = distro_info.all_at(date);
                match find_last(&candidates, &RecordPred::IsLts) {
                    Some(rec) => Ok(vec_of_one(rec)),
                    None => Err(Error::DataOutdated),
                }
            },
            Distro::Debian => {
                let candidates = distro_info.all_at(date);
                Ok(filter_by(&candidates, &RecordPred::DebianLtsAt(date)))
            },
        },
        Selector::Elts => {
            let released = distro_info.released(date);
            Ok(filter_by(&released, &RecordPred::DebianEltsAt(date)))
        },
        Selector::Oldstable => match distro_info.oldstable(date) {
            Some(rec) => Ok(vec_of_one(rec)),
            None => Ok(Vec::new()),
        },
        Selector::Stable => match distro_info.latest(date) {
            Some(rec) => Ok(vec_of_one(rec)),
            None => Ok(Vec::new()),
        },
        Selector::Series(name) => {
            if name.as_str().is_empty() || !all_lowercase(name.as_str()) {
                return Err(Error::InvalidSeries(name.clone()));
            }
            let candidates = filter_by(
                distro_info.releases(),
                &RecordPred::SeriesIs(name.clone()),
            );
            if candidates.len() == 0 {
                Err(Error::UnknownSeries(name.clone()))
            } else {
                Ok(candidates)
            }
        },
    }
}

} // verus!
