use distro_info::{Date, DistroRelease, Milestone};

fn naive_date(year: i32, month: u32, day: u32) -> Date {
    Date::from_ymd(year as u16, month as u8, day as u8).unwrap()
}

#[test]
fn create_struct() {
    DistroRelease {
        version: Some("version".to_string()),
        codename: "codename".to_string(),
        series: "series".to_string(),
        created: Some(naive_date(2018, 6, 14)),
        release: Some(naive_date(2018, 6, 14)),
        eol: Some(naive_date(2018, 6, 14)),
        eol_server: Some(naive_date(2018, 6, 14)),
        ..Default::default()
    };
}

fn get_date(n: u32) -> Date {
    naive_date(2018, 6, 14 + n)
}

#[test]
fn distro_release_new() {
    let distro_release = DistroRelease::new(
        "version".to_string(),
        "codename".to_string(),
        "series".to_string(),
        Some(get_date(0)),
        Some(get_date(1)),
        Some(get_date(2)),
        Some(get_date(3)),
        Some(get_date(4)),
        Some(get_date(5)),
        Some(get_date(6)),
    );
    assert_eq!(Some("version".to_string()), distro_release.version);
    assert_eq!("codename", distro_release.codename);
    assert_eq!("series", distro_release.series);
    assert_eq!(Some(get_date(0)), distro_release.created);
    assert_eq!(Some(get_date(1)), distro_release.release);
    assert_eq!(Some(get_date(2)), distro_release.eol);
    assert_eq!(Some(get_date(3)), distro_release.eol_lts);
    assert_eq!(Some(get_date(4)), distro_release.eol_elts);
    assert_eq!(Some(get_date(5)), distro_release.eol_esm);
    assert_eq!(Some(get_date(6)), distro_release.eol_server);

    assert_eq!(&Some("version".to_string()), distro_release.version());
    assert_eq!(&"codename", distro_release.codename());
    assert_eq!(&"series", distro_release.series());
    assert_eq!(&Some(get_date(0)), distro_release.created());
    assert_eq!(&Some(get_date(1)), distro_release.release());
    assert_eq!(&Some(get_date(2)), distro_release.eol());
    assert_eq!(&Some(get_date(3)), distro_release.eol_lts());
    assert_eq!(&Some(get_date(4)), distro_release.eol_elts());
    assert_eq!(&Some(get_date(5)), distro_release.eol_esm());
    assert_eq!(&Some(get_date(6)), distro_release.eol_server());
}

#[test]
fn distro_release_ubuntu_is_lts() {
    let distro_release = DistroRelease::new(
        "98.04 LTS".to_string(),
        "codename".to_string(),
        "series".to_string(),
        Some(naive_date(2018, 6, 14)),
        Some(naive_date(2018, 6, 14)),
        Some(naive_date(2018, 6, 14)),
        Some(naive_date(2018, 6, 14)),
        Some(naive_date(2018, 6, 14)),
        Some(naive_date(2018, 6, 14)),
        Some(naive_date(2018, 6, 14)),
    );
    assert!(distro_release.ubuntu_is_lts());

    let distro_release = DistroRelease::new(
        "98.04".to_string(),
        "codename".to_string(),
        "series".to_string(),
        Some(naive_date(2018, 6, 14)),
        Some(naive_date(2018, 6, 14)),
        Some(naive_date(2018, 6, 14)),
        Some(naive_date(2018, 6, 14)),
        Some(naive_date(2018, 6, 14)),
        Some(naive_date(2018, 6, 14)),
        Some(naive_date(2018, 6, 14)),
    );
    assert!(!distro_release.ubuntu_is_lts());
}

#[test]
fn distro_release_released_at() {
    let distro_release = DistroRelease::new(
        "98.04 LTS".to_string(),
        "codename".to_string(),
        "series".to_string(),
        Some(naive_date(2018, 6, 14)),
        Some(naive_date(2018, 6, 14)),
        Some(naive_date(2018, 6, 16)),
        Some(naive_date(2018, 6, 14)),
        Some(naive_date(2018, 6, 14)),
        Some(naive_date(2018, 6, 14)),
        Some(naive_date(2018, 6, 14)),
    );
    // not released before release day
    assert!(!distro_release.released_at(naive_date(2018, 6, 13)));
    // released on release day
    assert!(distro_release.released_at(naive_date(2018, 6, 14)));
    // still released after EOL
    assert!(distro_release.released_at(naive_date(2018, 6, 17)));
}

#[test]
fn distro_release_ubuntu_supported_at() {
    let distro_release = DistroRelease::new(
        "98.04 LTS".to_string(),
        "codename".to_string(),
        "series".to_string(),
        Some(naive_date(2018, 6, 14)),
        Some(naive_date(2018, 6, 14)),
        Some(naive_date(2018, 6, 16)),
        Some(naive_date(2018, 6, 14)),
        Some(naive_date(2018, 6, 14)),
        None,
        None,
    );
    // not supported before release day
    assert!(!distro_release.ubuntu_supported_at(naive_date(2018, 6, 13)));
    // supported on release day
    assert!(distro_release.ubuntu_supported_at(naive_date(2018, 6, 14)));
    // not supported after EOL
    assert!(!distro_release.ubuntu_supported_at(naive_date(2018, 6, 17)));
}

#[test]
fn distro_release_milestone_date() {
    let distro_release = DistroRelease::new(
        "98.04 LTS".to_string(),
        "codename".to_string(),
        "series".to_string(),
        Some(naive_date(2018, 6, 14)),
        Some(naive_date(2018, 6, 15)),
        Some(naive_date(2018, 6, 16)),
        Some(naive_date(2018, 6, 17)),
        Some(naive_date(2018, 6, 18)),
        Some(naive_date(2018, 6, 19)),
        Some(naive_date(2018, 6, 20)),
    );
    let check = |milestone: Milestone, day: u32| {
        assert_eq!(
            distro_release.milestone_date(&milestone),
            Some(naive_date(2018, 6, day))
        )
    };
    check(Milestone::Eol, 16);
    check(Milestone::EolLTS, 17);
    check(Milestone::EolELTS, 18);
    check(Milestone::EolESM, 19);
    check(Milestone::EolServer, 20);
}

#[test]
fn distro_release_milestone_date_none() {
    let distro_release = DistroRelease::new(
        "98.04 LTS".to_string(),
        "codename".to_string(),
        "series".to_string(),
        Some(naive_date(2018, 6, 14)),
        Some(naive_date(2018, 6, 15)),
        None,
        None,
        None,
        None,
        None,
    );
    assert_eq!(distro_release.milestone_date(&Milestone::Eol), None);
    assert_eq!(distro_release.milestone_date(&Milestone::EolLTS), None);
    assert_eq!(distro_release.milestone_date(&Milestone::EolELTS), None);
    assert_eq!(distro_release.milestone_date(&Milestone::EolESM), None);
    assert_eq!(distro_release.milestone_date(&Milestone::EolServer), None);
}
