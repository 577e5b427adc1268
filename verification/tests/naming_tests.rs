use botm::config::AppConfig;
use botm::date::{attributed_month, Date, YearMonth};
use botm::naming::{playlist_description, playlist_name, playlist_target};

#[test]
fn attribution_late_month_keeps_month() {
    let d = Date { year: 2024, month: 3, day: 20 };
    let m = attributed_month(&d);
    assert_eq!(m, YearMonth { year: 2024, month: 3 });
}

#[test]
fn attribution_early_month_goes_back() {
    let d = Date { year: 2024, month: 3, day: 10 };
    let m = attributed_month(&d);
    assert_eq!(m, YearMonth { year: 2024, month: 2 });
}

#[test]
fn attribution_cutoff_day_is_inclusive() {
    let d = Date { year: 2024, month: 6, day: 15 };
    let m = attributed_month(&d);
    assert_eq!(m, YearMonth { year: 2024, month: 6 });
    let d = Date { year: 2024, month: 6, day: 14 };
    let m = attributed_month(&d);
    assert_eq!(m, YearMonth { year: 2024, month: 5 });
}

#[test]
fn attribution_january_rolls_year_over() {
    let d = Date { year: 2024, month: 1, day: 5 };
    let m = attributed_month(&d);
    assert_eq!(m, YearMonth { year: 2023, month: 12 });
}

#[test]
fn name_for_march_tenth_is_february() {
    let d = Date { year: 2024, month: 3, day: 10 };
    let t = playlist_target(&d);
    assert_eq!(t.name, "2024-02 (Feb) BOTM");
    assert_eq!(
        t.description,
        "Bangers of the month for February 2024, (generated on 2024-03-10)"
    );
}

#[test]
fn name_for_march_twentieth_is_march() {
    let d = Date { year: 2024, month: 3, day: 20 };
    let t = playlist_target(&d);
    assert_eq!(t.name, "2024-03 (Mar) BOTM");
    assert_eq!(
        t.description,
        "Bangers of the month for March 2024, (generated on 2024-03-20)"
    );
}

#[test]
fn name_for_january_fifth_is_prior_december() {
    let d = Date { year: 2024, month: 1, day: 5 };
    let t = playlist_target(&d);
    assert_eq!(t.name, "2023-12 (Dec) BOTM");
    assert_eq!(
        t.description,
        "Bangers of the month for December 2023, (generated on 2024-01-05)"
    );
}

#[test]
fn playlist_name_pads_year_and_month() {
    let m = YearMonth { year: 987, month: 4 };
    assert_eq!(playlist_name(&m), "0987-04 (Apr) BOTM");
}

#[test]
fn description_uses_invocation_date_not_attributed_month() {
    let m = YearMonth { year: 2023, month: 12 };
    let today = Date { year: 2024, month: 1, day: 5 };
    assert_eq!(
        playlist_description(&m, &today),
        "Bangers of the month for December 2023, (generated on 2024-01-05)"
    );
}

#[test]
fn every_month_gets_its_abbreviation() {
    let expected = [
        "Jan", "Feb", "Mar", "Apr", "May", "Jun", "Jul", "Aug", "Sep", "Oct", "Nov", "Dec",
    ];
    for month in 1..=12u32 {
        let name = playlist_name(&YearMonth { year: 2025, month });
        assert_eq!(name, format!("2025-{:02} ({}) BOTM", month, expected[month as usize - 1]));
    }
}

#[test]
fn current_date_is_within_calendar_ranges() {
    if let Some(d) = botm::clock::current_date() {
        assert!((1..=12).contains(&d.month));
        assert!((1..=31).contains(&d.day));
        assert!((1..=9999).contains(&d.year));
    } else {
        panic!("the clock reported a year outside four digits");
    }
}

#[test]
fn address_joins_host_and_port() {
    let c = AppConfig { port: 8080, host: String::from("127.0.0.1") };
    assert_eq!(c.address(), "127.0.0.1:8080");
    let c = AppConfig { port: 7, host: String::from("localhost") };
    assert_eq!(c.address(), "localhost:7");
}
