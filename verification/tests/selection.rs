use distro_info::{
    day_display, determine_day_delta, parse_date, select_distro_releases, Date, DaysDisplay,
    DaysMode, DebianDistroInfo, DistroInfo, DistroRelease, Error, OutputMode, Selector,
    UbuntuDistroInfo,
};

fn naive_date(year: i32, month: u32, day: u32) -> Date {
    Date::from_ymd(year as u16, month as u8, day as u8).unwrap()
}

fn load_rows(path: &str) -> Vec<Vec<String>> {
    let mut rdr = csv::ReaderBuilder::new()
        .flexible(true)
        .has_headers(false)
        .from_path(path)
        .unwrap();
    rdr.records()
        .map(|record| {
            record
                .unwrap()
                .iter()
                .map(|field| field.to_string())
                .collect()
        })
        .collect()
}

fn ubuntu() -> UbuntuDistroInfo {
    UbuntuDistroInfo::from_rows(&load_rows("/usr/share/distro-info/ubuntu.csv")).unwrap()
}

fn debian() -> DebianDistroInfo {
    DebianDistroInfo::from_rows(&load_rows("/usr/share/distro-info/debian.csv")).unwrap()
}

fn series_of(records: &[DistroRelease]) -> Vec<String> {
    records.iter().map(|r| r.series.clone()).collect()
}

fn record(
    version: &str,
    series: &str,
    created: Option<Date>,
    release: Option<Date>,
    eol: Option<Date>,
    eol_lts: Option<Date>,
    eol_elts: Option<Date>,
) -> DistroRelease {
    DistroRelease::new(
        version.to_string(),
        series.to_string(),
        series.to_string(),
        created,
        release,
        eol,
        eol_lts,
        eol_elts,
        None,
        None,
    )
}

#[test]
fn parse_date_accepts_well_formed_dates() {
    assert_eq!(parse_date("2018-06-14").unwrap(), naive_date(2018, 6, 14));
    assert_eq!(parse_date("2020-02-29").unwrap(), naive_date(2020, 2, 29));
    assert_eq!(parse_date("0001-01-01").unwrap(), naive_date(1, 1, 1));
    assert_eq!(parse_date("9999-12-31").unwrap(), naive_date(9999, 12, 31));
}

#[test]
fn parse_date_rejects_malformed_dates() {
    for bad in [
        "",
        "2018-13-01",
        "2018-00-01",
        "2018-02-30",
        "2019-02-29",
        "2018-04-31",
        "2018/06/14",
        "18-06-14",
        "2018-6-14",
        "0000-01-01",
        "not-a-date",
        "2018-06-14 ",
    ] {
        assert!(
            matches!(parse_date(bad), Err(Error::InvalidDate)),
            "accepted {:?}",
            bad
        );
    }
}

#[test]
fn day_delta_counts_whole_days() {
    // warty: from its creation to its release
    assert_eq!(
        determine_day_delta(naive_date(2004, 3, 5), naive_date(2004, 10, 20)),
        229
    );
    assert_eq!(
        determine_day_delta(naive_date(2004, 10, 20), naive_date(2004, 3, 5)),
        -229
    );
    assert_eq!(
        determine_day_delta(naive_date(2018, 6, 14), naive_date(2018, 6, 14)),
        0
    );
    // a leap day lies in between
    assert_eq!(
        determine_day_delta(naive_date(2020, 2, 28), naive_date(2020, 3, 1)),
        2
    );
    assert_eq!(
        determine_day_delta(naive_date(2019, 2, 28), naive_date(2019, 3, 1)),
        1
    );
}

#[test]
fn from_csv_data_parses_rows_and_cells() {
    let table = "version,codename,series,created,release,eol\n\
                 4.10,Warty Warthog,warty,2004-03-05,2004-10-20,2006-04-30\n\
                 5.04,Hoary Hedgehog,hoary,2004-10-20,2005-04-08,2006-10-31\n";
    let info = UbuntuDistroInfo::from_csv_data(table).unwrap();
    assert_eq!(info.releases().len(), 2);
    let warty = &info.releases()[0];
    assert_eq!(warty.version, Some("4.10".to_string()));
    assert_eq!(warty.codename, "Warty Warthog");
    assert_eq!(warty.series, "warty");
    assert_eq!(warty.created, Some(naive_date(2004, 3, 5)));
    assert_eq!(warty.release, Some(naive_date(2004, 10, 20)));
    assert_eq!(warty.eol, Some(naive_date(2006, 4, 30)));
    assert_eq!(warty.eol_server, None);
    let hoary = &info.releases()[1];
    assert_eq!(hoary.series, "hoary");
    assert_eq!(hoary.release, Some(naive_date(2005, 4, 8)));
}

#[test]
fn from_csv_data_maps_columns_by_header_name() {
    // The same cells under a reordered header land in the right fields.
    let table = "series,version,codename,release\n\
                 warty,4.10,Warty Warthog,2004-10-20\n";
    let info = UbuntuDistroInfo::from_csv_data(table).unwrap();
    let warty = &info.releases()[0];
    assert_eq!(warty.series, "warty");
    assert_eq!(warty.version, Some("4.10".to_string()));
    assert_eq!(warty.codename, "Warty Warthog");
    assert_eq!(warty.release, Some(naive_date(2004, 10, 20)));
    assert_eq!(warty.created, None);
}

#[test]
fn from_rows_empty_version_cell_means_no_version() {
    let rows: Vec<Vec<String>> = vec![
        vec!["version", "codename", "series", "created"],
        vec!["", "Sid", "sid", "1993-08-16"],
    ]
    .into_iter()
    .map(|row| row.into_iter().map(|cell| cell.to_string()).collect())
    .collect();
    let info = DebianDistroInfo::from_rows(&rows).unwrap();
    assert_eq!(info.releases()[0].version, None);
    assert_eq!(info.releases()[0].codename, "Sid");
}

#[test]
fn from_rows_empty_date_cell_means_no_date() {
    // An empty cell denotes an absent optional date, not a parse error.
    let rows: Vec<Vec<String>> = vec![
        vec!["version", "codename", "series", "created", "release"],
        vec!["1.1", "Buzz", "buzz", "", "1996-06-17"],
    ]
    .into_iter()
    .map(|row| row.into_iter().map(|cell| cell.to_string()).collect())
    .collect();
    let info = DebianDistroInfo::from_rows(&rows).unwrap();
    assert_eq!(info.releases()[0].created, None);
    assert_eq!(info.releases()[0].release, Some(naive_date(1996, 6, 17)));
}

#[test]
fn from_csv_data_empty_date_cell_means_no_date() {
    let table = "version,codename,series,created,release\n\
                 1.1,Buzz,buzz,,1996-06-17\n";
    let info = DebianDistroInfo::from_csv_data(table).unwrap();
    assert_eq!(info.releases()[0].created, None);
    assert_eq!(info.releases()[0].release, Some(naive_date(1996, 6, 17)));
}

#[test]
fn from_rows_rejects_bad_date_cell() {
    let rows: Vec<Vec<String>> = vec![
        vec!["version", "codename", "series", "created"],
        vec!["1.1", "Buzz", "buzz", "1993-8-16"],
    ]
    .into_iter()
    .map(|row| row.into_iter().map(|cell| cell.to_string()).collect())
    .collect();
    assert!(matches!(
        DebianDistroInfo::from_rows(&rows),
        Err(Error::InvalidDate)
    ));
}

#[test]
fn from_rows_rejects_missing_required_cell() {
    let rows: Vec<Vec<String>> = vec![
        vec!["codename", "series"],
        vec!["Buzz", "buzz"],
    ]
    .into_iter()
    .map(|row| row.into_iter().map(|cell| cell.to_string()).collect())
    .collect();
    assert!(matches!(
        DebianDistroInfo::from_rows(&rows),
        Err(Error::MissingField)
    ));
}

#[test]
fn series_selection_finds_exact_match() {
    let selected = select_distro_releases(
        &Selector::Series("bionic".to_string()),
        naive_date(2018, 4, 26),
        &ubuntu(),
    )
    .unwrap();
    assert_eq!(series_of(&selected), vec!["bionic"]);
}

#[test]
fn series_uppercase_is_invalid_before_any_search() {
    // An empty table would report "unknown" for any well-formed name, so
    // an invalid-series error here shows the format check comes first.
    let empty = UbuntuDistroInfo::from_vec(Vec::new());
    let result = select_distro_releases(
        &Selector::Series("BIONIC".to_string()),
        naive_date(2018, 4, 26),
        &empty,
    );
    assert!(matches!(result, Err(Error::InvalidSeries(name)) if name == "BIONIC"));
    let result = select_distro_releases(
        &Selector::Series("BIONIC".to_string()),
        naive_date(2018, 4, 26),
        &ubuntu(),
    );
    assert!(matches!(result, Err(Error::InvalidSeries(name)) if name == "BIONIC"));
}

#[test]
fn series_empty_is_invalid() {
    let result = select_distro_releases(
        &Selector::Series("".to_string()),
        naive_date(2018, 4, 26),
        &ubuntu(),
    );
    assert!(matches!(result, Err(Error::InvalidSeries(_))));
}

#[test]
fn series_with_no_match_is_unknown() {
    let result = select_distro_releases(
        &Selector::Series("zzz".to_string()),
        naive_date(2018, 4, 26),
        &ubuntu(),
    );
    assert!(matches!(result, Err(Error::UnknownSeries(name)) if name == "zzz"));
}

#[test]
fn devel_returns_final_in_development_row() {
    // A table whose final row is the in-development series with no
    // release date: devel returns exactly that row.
    let table = DebianDistroInfo::from_vec(vec![
        record(
            "1.0",
            "alpha",
            Some(naive_date(2019, 1, 1)),
            Some(naive_date(2019, 7, 1)),
            Some(naive_date(2021, 1, 1)),
            None,
            None,
        ),
        record("", "beta", Some(naive_date(2020, 1, 1)), None, None, None, None),
    ]);
    let selected =
        select_distro_releases(&Selector::Devel, naive_date(2020, 6, 1), &table).unwrap();
    assert_eq!(series_of(&selected), vec!["beta"]);

    // Ubuntu's rule wants a known future release date instead.
    let table = UbuntuDistroInfo::from_vec(vec![
        record(
            "1.0",
            "alpha",
            Some(naive_date(2019, 1, 1)),
            Some(naive_date(2019, 7, 1)),
            Some(naive_date(2021, 1, 1)),
            None,
            None,
        ),
        record(
            "2.0",
            "beta",
            Some(naive_date(2020, 1, 1)),
            Some(naive_date(2020, 7, 1)),
            None,
            None,
            None,
        ),
    ]);
    let selected =
        select_distro_releases(&Selector::Devel, naive_date(2020, 6, 1), &table).unwrap();
    assert_eq!(series_of(&selected), vec!["beta"]);
}

#[test]
fn debian_lts_returns_all_simultaneous_matches() {
    // Two releases at once are past plain EOL yet inside EOL-LTS: both
    // are returned, not just the last.
    let table = DebianDistroInfo::from_vec(vec![
        record(
            "1.0",
            "alpha",
            Some(naive_date(2010, 1, 1)),
            Some(naive_date(2010, 7, 1)),
            Some(naive_date(2015, 1, 1)),
            Some(naive_date(2020, 1, 1)),
            None,
        ),
        record(
            "2.0",
            "beta",
            Some(naive_date(2011, 1, 1)),
            Some(naive_date(2011, 7, 1)),
            Some(naive_date(2015, 6, 1)),
            Some(naive_date(2020, 6, 1)),
            None,
        ),
        record(
            "3.0",
            "gamma",
            Some(naive_date(2012, 1, 1)),
            Some(naive_date(2012, 7, 1)),
            Some(naive_date(2020, 1, 1)),
            Some(naive_date(2025, 1, 1)),
            None,
        ),
    ]);
    let selected =
        select_distro_releases(&Selector::Lts, naive_date(2016, 1, 1), &table).unwrap();
    assert_eq!(series_of(&selected), vec!["alpha", "beta"]);
}

#[test]
fn debian_lts_on_real_table() {
    let selected =
        select_distro_releases(&Selector::Lts, naive_date(2021, 7, 26), &debian()).unwrap();
    assert_eq!(series_of(&selected), vec!["stretch"]);
}

#[test]
fn debian_elts_on_real_table() {
    let selected =
        select_distro_releases(&Selector::Elts, naive_date(2021, 7, 26), &debian()).unwrap();
    assert_eq!(series_of(&selected), vec!["jessie"]);
}

#[test]
fn ubuntu_lts_picks_last_lts_release() {
    let selected =
        select_distro_releases(&Selector::Lts, naive_date(2018, 4, 26), &ubuntu()).unwrap();
    assert_eq!(series_of(&selected), vec!["bionic"]);
}

#[test]
fn ubuntu_lts_with_no_match_is_data_outdated() {
    let table = UbuntuDistroInfo::from_vec(vec![record(
        "1.0",
        "alpha",
        Some(naive_date(2019, 1, 1)),
        Some(naive_date(2019, 7, 1)),
        None,
        None,
        None,
    )]);
    let result = select_distro_releases(&Selector::Lts, naive_date(2020, 1, 1), &table);
    assert!(matches!(result, Err(Error::DataOutdated)));
}

#[test]
fn latest_prefers_the_in_development_release() {
    let selected =
        select_distro_releases(&Selector::Latest, naive_date(2018, 4, 26), &ubuntu()).unwrap();
    assert_eq!(series_of(&selected), vec!["cosmic"]);
}

#[test]
fn stable_selects_the_latest_supported_release() {
    let selected =
        select_distro_releases(&Selector::Stable, naive_date(2018, 4, 26), &ubuntu()).unwrap();
    assert_eq!(series_of(&selected), vec!["bionic"]);
}

#[test]
fn testing_on_debian_matches_ubuntu_devel_rule() {
    let selected =
        select_distro_releases(&Selector::Testing, naive_date(2021, 7, 26), &debian()).unwrap();
    assert_eq!(series_of(&selected), vec!["bullseye"]);
}

#[test]
fn all_returns_every_record_in_order() {
    let info = ubuntu();
    let selected =
        select_distro_releases(&Selector::All, naive_date(2018, 4, 26), &info).unwrap();
    assert_eq!(selected.len(), info.releases().len());
    assert_eq!(selected[0].series, "warty");
}

#[test]
fn supported_dispatches_on_distro() {
    let date = naive_date(2018, 4, 26);
    let ubuntu_selected =
        select_distro_releases(&Selector::Supported, date, &ubuntu()).unwrap();
    assert_eq!(
        series_of(&ubuntu_selected),
        vec!["trusty", "xenial", "artful", "bionic"]
    );
    let debian_selected =
        select_distro_releases(&Selector::Supported, date, &debian()).unwrap();
    assert_eq!(series_of(&debian_selected), vec!["jessie", "stretch"]);
}

#[test]
fn oldstable_needs_two_released_records() {
    // With fewer than two released records there is no oldstable.
    let one = DebianDistroInfo::from_vec(vec![record(
        "1.0",
        "alpha",
        Some(naive_date(2019, 1, 1)),
        Some(naive_date(2019, 7, 1)),
        None,
        None,
        None,
    )]);
    assert!(one.oldstable(naive_date(2020, 1, 1)).is_none());
    let selected =
        select_distro_releases(&Selector::Oldstable, naive_date(2020, 1, 1), &one).unwrap();
    assert!(selected.is_empty());

    let three = DebianDistroInfo::from_vec(vec![
        record("1.0", "alpha", Some(naive_date(2017, 1, 1)), Some(naive_date(2017, 7, 1)), None, None, None),
        record("2.0", "beta", Some(naive_date(2018, 1, 1)), Some(naive_date(2018, 7, 1)), None, None, None),
        record("3.0", "gamma", Some(naive_date(2019, 1, 1)), Some(naive_date(2019, 7, 1)), None, None, None),
    ]);
    let oldstable = three.oldstable(naive_date(2020, 1, 1)).unwrap();
    assert_eq!(oldstable.series, "beta");
    let selected =
        select_distro_releases(&Selector::Oldstable, naive_date(2020, 1, 1), &three).unwrap();
    assert_eq!(series_of(&selected), vec!["beta"]);
}

#[test]
fn days_mode_from_cli_maps_tokens() {
    assert!(matches!(DaysMode::from_cli("created"), Ok(DaysMode::Created)));
    assert!(matches!(DaysMode::from_cli("eol"), Ok(DaysMode::Eol)));
    assert!(matches!(DaysMode::from_cli("eol-lts"), Ok(DaysMode::EolLTS)));
    assert!(matches!(DaysMode::from_cli("eol-elts"), Ok(DaysMode::EolELTS)));
    assert!(matches!(
        DaysMode::from_cli("eol-server"),
        Ok(DaysMode::EolServer)
    ));
    assert!(matches!(DaysMode::from_cli("release"), Ok(DaysMode::Release)));
    assert!(matches!(
        DaysMode::from_cli("eol-esm"),
        Err(Error::UnknownDaysMode)
    ));
}

#[test]
fn day_display_reports_deltas_and_markers() {
    let warty = record(
        "4.10",
        "warty",
        Some(naive_date(2004, 3, 5)),
        Some(naive_date(2004, 10, 20)),
        Some(naive_date(2006, 4, 30)),
        None,
        None,
    );
    let date = naive_date(2004, 3, 5);
    assert_eq!(
        day_display(&Some(DaysMode::Release), &warty, date).unwrap(),
        DaysDisplay::Days(229)
    );
    assert_eq!(
        day_display(&Some(DaysMode::Created), &warty, date).unwrap(),
        DaysDisplay::Days(0)
    );
    assert_eq!(day_display(&None, &warty, date).unwrap(), DaysDisplay::Nothing);
    // absent eol and eol-server degrade to an unknown marker
    let bare = record("1.0", "alpha", Some(naive_date(2019, 1, 1)), None, None, None, None);
    assert_eq!(
        day_display(&Some(DaysMode::Eol), &bare, date).unwrap(),
        DaysDisplay::Unknown
    );
    assert_eq!(
        day_display(&Some(DaysMode::EolServer), &bare, date).unwrap(),
        DaysDisplay::Unknown
    );
    // an absent extended-support date shows nothing at all
    assert_eq!(
        day_display(&Some(DaysMode::EolLTS), &bare, date).unwrap(),
        DaysDisplay::Nothing
    );
    // absent created or release dates are hard errors naming the series
    assert!(matches!(
        day_display(&Some(DaysMode::Release), &bare, date),
        Err(Error::MissingReleaseDate(series)) if series == "alpha"
    ));
    let no_created = record("1.0", "beta", None, None, None, None, None);
    assert!(matches!(
        day_display(&Some(DaysMode::Created), &no_created, date),
        Err(Error::MissingCreatedDate(series)) if series == "beta"
    ));
}

#[test]
fn output_mode_from_flags_defaults_to_codename() {
    assert_eq!(
        OutputMode::from_flags(true, false, false, false),
        OutputMode::FullName
    );
    assert_eq!(
        OutputMode::from_flags(false, true, false, true),
        OutputMode::Release
    );
    assert_eq!(
        OutputMode::from_flags(false, false, true, true),
        OutputMode::Codename
    );
    assert_eq!(
        OutputMode::from_flags(false, false, false, false),
        OutputMode::Codename
    );
    assert_eq!(
        OutputMode::from_flags(false, false, false, true),
        OutputMode::Suppress
    );
}

#[test]
fn distro_names_render() {
    assert_eq!(distro_info::Distro::Ubuntu.to_string(), "Ubuntu");
    assert_eq!(distro_info::Distro::Debian.to_string(), "Debian");
}

#[test]
fn from_rows_with_no_rows_yields_no_records() {
    let rows: Vec<Vec<String>> = Vec::new();
    let info = UbuntuDistroInfo::from_rows(&rows).unwrap();
    assert!(info.releases().is_empty());
}

#[test]
fn released_stays_released() {
    // Once a record has been released it stays released at every later
    // date, even far past its EOL.
    let warty = record(
        "4.10",
        "warty",
        Some(naive_date(2004, 3, 5)),
        Some(naive_date(2004, 10, 20)),
        Some(naive_date(2006, 4, 30)),
        None,
        None,
    );
    assert!(!warty.released_at(naive_date(2004, 10, 19)));
    assert!(warty.released_at(naive_date(2004, 10, 20)));
    assert!(warty.released_at(naive_date(2006, 5, 1)));
    assert!(warty.released_at(naive_date(9999, 12, 31)));
}

#[test]
fn supported_is_subset_of_released() {
    let date = naive_date(2018, 4, 26);
    let debian_distro_info = debian();
    let released = series_of(&debian_distro_info.released(date));
    for series in series_of(&debian_distro_info.supported(date, distro_info::Milestone::Eol)) {
        assert!(released.contains(&series), "{} supported but unreleased", series);
    }
}

#[test]
fn stable_agrees_with_latest() {
    let debian_distro_info = debian();
    for date in [
        naive_date(2000, 1, 1),
        naive_date(2018, 4, 26),
        naive_date(2021, 7, 26),
    ] {
        let stable = debian_distro_info.stable(date).map(|r| r.series.clone());
        let latest = debian_distro_info.latest(date).map(|r| r.series.clone());
        assert_eq!(stable, latest);
    }
}

#[test]
fn error_messages_name_the_series() {
    let err = Error::InvalidSeries("BIONIC".to_string());
    assert_eq!(err.message(), "invalid distribution series `BIONIC'");
    let err = Error::UnknownSeries("zzz".to_string());
    assert_eq!(err.message(), "unknown distribution series `zzz'");
    let err = Error::MissingCreatedDate("warty".to_string());
    assert_eq!(err.message(), "No creation date found for warty");
}
