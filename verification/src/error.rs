use vstd::prelude::*;

verus! {

/// The failures a query or a table load can report.
#[derive(Debug)]
pub enum Error {
    /// A required cell (version, codename or series) was absent while
    /// building a release record from a table row.
    MissingField,
    /// A date cell was filled but not a valid `YYYY-MM-DD` date.
    InvalidDate,
    /// A series name that is empty or not all lowercase was supplied;
    /// rejected before any table search.
    InvalidSeries(String),
    /// A well-formed series name that matches no record in the table.
    UnknownSeries(String),
    /// A milestone-specific selection found nothing, implying the static
    /// table itself needs refreshing.
    DataOutdated,
    /// A milestone token that names no known days mode.
    UnknownDaysMode,
    /// A day delta against `created` was requested for the named series,
    /// which has no creation date.
    MissingCreatedDate(String),
    /// A day delta against `release` was requested for the named series,
    /// which has no release date.
    MissingReleaseDate(String),
}

impl Error {
    /// The message text for this error, mirroring what the command-line
    /// tools print.
    pub open spec fn spec_message(&self) -> Seq<char> {
        match self {
            Error::MissingField => "failed to read required option"@,
            Error::InvalidDate => "failed to parse date; must be YYYY-MM-DD format"@,
            Error::InvalidSeries(name) => "invalid distribution series `"@ + name@ + "'"@,
            Error::UnknownSeries(name) => "unknown distribution series `"@ + name@ + "'"@,
            Error::DataOutdated => "Distribution data outdated.\nPlease check for an update for distro-info-data. See /usr/share/doc/distro-info-data/README.Debian for details."@,
            Error::UnknownDaysMode => "unknown days mode found; please report a bug"@,
            Error::MissingCreatedDate(series) => "No creation date found for "@ + series@,
            Error::MissingReleaseDate(series) => "No release date found for "@ + series@,
        }
    }

    pub fn message(&self) -> (r: String)
        ensures
            r@ == self.spec_message(),
    {
        match self {
            Error::MissingField => String::from_str("failed to read required option"),
            Error::InvalidDate => String::from_str("failed to parse date; must be YYYY-MM-DD format"),
            Error::InvalidSeries(name) => String::from_str("invalid distribution series `")
                .concat(name.as_str())
                .concat("'"),
            Error::UnknownSeries(name) => String::from_str("unknown distribution series `")
                .concat(name.as_str())
                .concat("'"),
            Error::DataOutdated => String::from_str("Distribution data outdated.\nPlease check for an update for distro-info-data. See /usr/share/doc/distro-info-data/README.Debian for details."),
            Error::UnknownDaysMode => String::from_str("unknown days mode found; please report a bug"),
            Error::MissingCreatedDate(series) => String::from_str("No creation date found for ")
                .concat(series.as_str()),
            Error::MissingReleaseDate(series) => String::from_str("No release date found for ")
                .concat(series.as_str()),
        }
    }
}

} // verus!
