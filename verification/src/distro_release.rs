use vstd::prelude::*;

use crate::date::{max_date, spec_max_date, Date};
use crate::strutil::{contains_str, spec_str_contains};
use crate::Milestone;

verus! {

/// One release of a distribution: its identifying names and the dates of
/// its lifecycle.  An absent optional date simply excludes the record from
/// the corresponding date filters; it is never an error.
#[derive(Debug, Default)]
pub struct DistroRelease {
    pub version: Option<String>,
    pub codename: String,
    pub series: String,
    pub created: Option<Date>,
    pub release: Option<Date>,
    pub eol: Option<Date>,
    pub eol_lts: Option<Date>,
    pub eol_elts: Option<Date>,
    pub eol_esm: Option<Date>,
    pub eol_server: Option<Date>,
}

fn clone_opt_string(o: &Option<String>) -> (r: Option<String>)
    ensures
        r == *o,
{
    match o {
        Some(s) => Some(s.clone()),
        None => None,
    }
}

impl Clone for DistroRelease {
    fn clone(&self) -> (r: Self)
        ensures
            r == *self,
    {
        DistroRelease {
            version: clone_opt_string(&self.version),
            codename: self.codename.clone(),
            series: self.series.clone(),
            created: self.created,
            release: self.release,
            eol: self.eol,
            eol_lts: self.eol_lts,
            eol_elts: self.eol_elts,
            eol_esm: self.eol_esm,
            eol_server: self.eol_server,
        }
    }
}

impl DistroRelease {
    /// Builds a record from its fields; an empty version string stands for
    /// an absent version.
    pub fn new(
        version: String,
        codename: String,
        series: String,
        created: Option<Date>,
        release: Option<Date>,
        eol: Option<Date>,
        eol_lts: Option<Date>,
        eol_elts: Option<Date>,
        eol_esm: Option<Date>,
        eol_server: Option<Date>,
    ) -> (r: Self)
        ensures
            r.version == (if version@.len() == 0 {
                None::<String>
            } else {
                Some(version)
            }),
            r.codename == codename,
            r.series == series,
            r.created == created,
            r.release == release,
            r.eol == eol,
            r.eol_lts == eol_lts,
            r.eol_elts == eol_elts,
            r.eol_esm == eol_esm,
            r.eol_server == eol_server,
    {
        Self {
            version: if version.as_str().is_empty() {
                None
            } else {
                Some(version)
            },
            codename,
            series,
            created,
            release,
            eol,
            eol_lts,
            eol_elts,
            eol_esm,
            eol_server,
        }
    }

    pub fn version(&self) -> (r: &Option<String>)
        ensures
            *r == self.version,
    {
        &self.version
    }

    pub fn codename(&self) -> (r: &String)
        ensures
            *r == self.codename,
    {
        &self.codename
    }

    pub fn series(&self) -> (r: &String)
        ensures
            *r == self.series,
    {
        &self.series
    }

    pub fn created(&self) -> (r: &Option<Date>)
        ensures
            *r == self.created,
    {
        &self.created
    }

    pub fn release(&self) -> (r: &Option<Date>)
        ensures
            *r == self.release,
    {
        &self.release
    }

    pub fn eol(&self) -> (r: &Option<Date>)
        ensures
            *r == self.eol,
    {
        &self.eol
    }

    pub fn eol_server(&self) -> (r: &Option<Date>)
        ensures
            *r == self.eol_server,
    {
        &self.eol_server
    }

    pub fn eol_esm(&self) -> (r: &Option<Date>)
        ensures
            *r == self.eol_esm,
    {
        &self.eol_esm
    }

    pub fn eol_elts(&self) -> (r: &Option<Date>)
        ensures
            *r == self.eol_elts,
    {
        &self.eol_elts
    }

    pub fn eol_lts(&self) -> (r: &Option<Date>)
        ensures
            *r == self.eol_lts,
    {
        &self.eol_lts
    }

    /// Every date the record carries names an existing calendar day.
    pub open spec fn dates_valid(self) -> bool {
        &&& (match self.created {
            Some(d) => d.valid(),
            None => true,
        })
        &&& (match self.release {
            Some(d) => d.valid(),
            None => true,
        })
        &&& (match self.eol {
            Some(d) => d.valid(),
            None => true,
        })
        &&& (match self.eol_lts {
            Some(d) => d.valid(),
            None => true,
        })
        &&& (match self.eol_elts {
            Some(d) => d.valid(),
            None => true,
        })
        &&& (match self.eol_esm {
            Some(d) => d.valid(),
            None => true,
        })
        &&& (match self.eol_server {
            Some(d) => d.valid(),
            None => true,
        })
    }

    /// The record carries a version string with an "LTS" marker.
    pub open spec fn spec_is_lts(self) -> bool {
        match self.version {
            Some(v) => spec_str_contains(v@, "LTS"@),
            None => false,
        }
    }

    pub fn ubuntu_is_lts(&self) -> (r: bool)
        ensures
            r == self.spec_is_lts(),
    {
        match &self.version {
            Some(v) => contains_str(v.as_str(), "LTS"),
            None => false,
        }
    }

    /// The record had entered development at the given date.
    pub open spec fn spec_created_at(self, date: Date) -> bool {
        match self.created {
            Some(created) => created.spec_le(date),
            None => false,
        }
    }

    pub fn created_at(&self, date: Date) -> (r: bool)
        ensures
            r == self.spec_created_at(date),
    {
        match &self.created {
            Some(created) => created.le(&date),
            None => false,
        }
    }

    /// The record had been released at the given date.
    pub open spec fn spec_released_at(self, date: Date) -> bool {
        match self.release {
            Some(release) => release.spec_le(date),
            None => false,
        }
    }

    pub fn released_at(&self, date: Date) -> (r: bool)
        ensures
            r == self.spec_released_at(date),
    {
        match &self.release {
            Some(release) => release.le(&date),
            None => false,
        }
    }

    /// The end-of-support date that the given milestone selects.
    pub open spec fn spec_milestone_date(self, milestone: Milestone) -> Option<Date> {
        match milestone {
            Milestone::Eol => self.eol,
            Milestone::EolELTS => self.eol_elts,
            Milestone::EolESM => self.eol_esm,
            Milestone::EolLTS => self.eol_lts,
            Milestone::EolServer => self.eol_server,
        }
    }

    pub fn milestone_date(&self, milestone: &Milestone) -> (r: Option<Date>)
        ensures
            r == self.spec_milestone_date(*milestone),
    {
        match milestone {
            Milestone::Eol => self.eol,
            Milestone::EolELTS => self.eol_elts,
            Milestone::EolESM => self.eol_esm,
            Milestone::EolLTS => self.eol_lts,
            Milestone::EolServer => self.eol_server,
        }
    }

    /// Supportedness under the given milestone: the record has entered
    /// development, and the milestone date has not passed.  An absent
    /// milestone date means indefinitely supported for the default EOL
    /// milestone, and unsupported for every extended-support milestone
    /// (that extended track was never offered).
    pub open spec fn spec_supported_at(self, date: Date, milestone: Milestone) -> bool {
        self.spec_created_at(date) && match self.spec_milestone_date(milestone) {
            Some(eol) => date.spec_le(eol),
            None => milestone == Milestone::Eol,
        }
    }

    pub fn supported_at(&self, date: Date, milestone: &Milestone) -> (r: bool)
        ensures
            r == self.spec_supported_at(date, *milestone),
    {
        self.created_at(date) && match self.milestone_date(milestone) {
            Some(eol) => date.le(&eol),
            None => match milestone {
                Milestone::Eol => true,
                _ => false,
            },
        }
    }

    /// Ubuntu's supportedness rule: the supported window extends to the
    /// later of `eol` and `eol_server`; an absent `eol` means supported
    /// indefinitely.
    pub open spec fn spec_ubuntu_supported_at(self, date: Date) -> bool {
        self.spec_created_at(date) && match self.eol {
            Some(eol) => match self.eol_server {
                Some(eol_server) => date.spec_le(spec_max_date(eol, eol_server)),
                None => date.spec_le(eol),
            },
            None => true,
        }
    }

    pub fn ubuntu_supported_at(&self, date: Date) -> (r: bool)
        ensures
            r == self.spec_ubuntu_supported_at(date),
    {
        self.created_at(date) && match &self.eol {
            Some(eol) => match &self.eol_server {
                Some(eol_server) => date.le(&max_date(*eol, *eol_server)),
                None => date.le(eol),
            },
            None => true,
        }
    }
}

} // verus!
