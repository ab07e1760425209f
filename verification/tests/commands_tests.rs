use cta_bot::arrivaldisplay::{
    background, board_rows, canvas_height, caption, foreground, inverse, line_color, symbol,
    Arrival, ArrivalDisplayError,
};
use cta_bot::civil::{CivilDate, CivilDateTime};
use cta_bot::commands::alerts::{alerts_description, alerts_texts};
use cta_bot::commands::arrivals::{
    board_arrival, choose_station, station_title, train_stations, StationChoice,
};
use cta_bot::commands::autocomplete::{
    dedup_names, first_names, rank, score_stops, search_bus_stops, search_stations, Scored,
};
use cta_bot::commands::broadcast::{broadcast, broadcast_channel, Tally};
use cta_bot::commands::bus::{
    choose_stop, clip_report, group_stops, prediction_line, vehicle_line, StopChoice,
};
use cta_bot::commands::{
    command_kind, component_kind, refresh_allowed, text_after, CommandKind, ComponentKind,
};
use cta_bot::cta::alerts::{Alert, DateOrDateTime, ImpactedService, CDATA};
use cta_bot::cta::bustracker::{Prediction, PredictionType, Vehicle};
use cta_bot::cta::gtfs::{
    cache_path, choose_source, get_stop_name, search_stops, GtfsSource, StopEntry,
};
use cta_bot::cta::stations::{CtaStations, Direction, Location, Stop};
use cta_bot::cta::traintracker::{LRouteCode, LRouteName, TTArrival};
use fuzzy_matcher::skim::SkimMatcherV2;
use fuzzy_matcher::FuzzyMatcher;

fn stop(id: &str, name: Option<&str>) -> StopEntry {
    StopEntry { id: id.to_string(), name: name.map(|n| n.to_string()) }
}

fn scored(name: &str, score: i64) -> Scored {
    Scored { name: name.to_string(), score }
}

fn names(list: &[Scored]) -> Vec<(String, i64)> {
    list.iter().map(|s| (s.name.clone(), s.score)).collect()
}

#[test]
fn command_names_are_told_apart() {
    assert_eq!(command_kind("ping"), CommandKind::Ping);
    assert_eq!(command_kind("route_name"), CommandKind::RouteName);
    assert_eq!(command_kind("get_train"), CommandKind::GetTrain);
    assert_eq!(command_kind("bus"), CommandKind::Bus);
    assert_eq!(command_kind("arrivals"), CommandKind::Arrivals);
    assert_eq!(command_kind("broadcast"), CommandKind::Broadcast);
    assert_eq!(command_kind("alerts"), CommandKind::Unknown);
    assert_eq!(command_kind("Ping"), CommandKind::Unknown);
    assert_eq!(command_kind(""), CommandKind::Unknown);
}

#[test]
fn components_are_told_by_their_prefix() {
    assert_eq!(component_kind("bus_arrivals:select"), ComponentKind::BusArrivalsSelect);
    assert_eq!(
        component_kind("bus_arrivals:refresh/stopName/Clark & Lake"),
        ComponentKind::BusArrivalsRefresh
    );
    assert_eq!(component_kind("arrivals:select"), ComponentKind::ArrivalsSelect);
    assert_eq!(
        component_kind("arrivals:refresh/stationName/Halsted"),
        ComponentKind::ArrivalsRefresh
    );
    assert_eq!(component_kind("arrivals:"), ComponentKind::Unknown);
    assert_eq!(component_kind("xarrivals:select"), ComponentKind::Unknown);
    assert_eq!(component_kind(""), ComponentKind::Unknown);
}

#[test]
fn a_board_is_refreshed_after_the_cooldown() {
    assert!(!refresh_allowed(0));
    assert!(!refresh_allowed(30));
    assert!(refresh_allowed(31));
    assert!(!refresh_allowed(-100));
    assert!(refresh_allowed(i64::MAX));
    assert!(!refresh_allowed(i64::MIN));
}

#[test]
fn the_name_follows_the_marker() {
    assert_eq!(text_after("arrivals:refresh/stationName/Halsted", "/stationName/"), "Halsted");
    assert_eq!(text_after("a/stationName/b/stationName/c", "/stationName/"), "b/stationName/c");
    assert_eq!(text_after("arrivals:refresh/stationName/", "/stationName/"), "");
    assert_eq!(text_after("arrivals:refresh", "/stationName/"), "");
    assert_eq!(text_after("", "/stopName/"), "");
    assert_eq!(text_after("bus_arrivals:refresh/stopName/Clark & Lake", "/stopName/"), "Clark & Lake");
}

#[test]
fn the_ranking_puts_the_highest_score_first() {
    let ranking = rank(vec![
        scored("a", 5),
        scored("b", 0),
        scored("c", 9),
        scored("d", 5),
        scored("e", -2),
        scored("f", 9),
    ]);
    assert_eq!(
        names(&ranking),
        vec![
            ("f".to_string(), 9),
            ("c".to_string(), 9),
            ("d".to_string(), 5),
            ("a".to_string(), 5),
            ("e".to_string(), -2)
        ]
    );
    assert!(rank(vec![]).is_empty());
    assert!(rank(vec![scored("z", 0)]).is_empty());
}

#[test]
fn the_ranking_is_a_stable_sort_turned_round() {
    let entries = vec![(3, "a"), (1, "b"), (3, "c"), (2, "d"), (1, "e"), (0, "f"), (3, "g")];
    let mut expected: Vec<(String, i64)> =
        entries.iter().map(|(s, n)| (n.to_string(), *s as i64)).collect();
    expected.retain(|(_, score)| *score != 0);
    expected.sort_by_key(|(_, score)| *score);
    expected.reverse();
    let ranking = rank(entries.iter().map(|(s, n)| scored(n, *s as i64)).collect());
    assert_eq!(names(&ranking), expected);
}

#[test]
fn runs_of_one_name_count_once() {
    let kept = dedup_names(vec![
        scored("a", 1),
        scored("a", 1),
        scored("b", 2),
        scored("a", 1),
        scored("a", 3),
        scored("c", 0),
        scored("c", 0),
    ]);
    assert_eq!(
        names(&kept),
        vec![
            ("a".to_string(), 1),
            ("b".to_string(), 2),
            ("a".to_string(), 1),
            ("c".to_string(), 0)
        ]
    );
    assert!(dedup_names(vec![]).is_empty());
}

#[test]
fn at_most_twenty_five_names_are_offered() {
    let many: Vec<Scored> = (0..40).map(|i| scored(&format!("stop {i}"), 100 - i)).collect();
    let first = first_names(&many);
    assert_eq!(first.len(), 25);
    assert_eq!(first[0], "stop 0");
    assert_eq!(first[24], "stop 24");
    let few = first_names(&many[..3]);
    assert_eq!(few, vec!["stop 0", "stop 1", "stop 2"]);
    assert!(first_names(&[]).is_empty());
}

#[test]
fn stops_are_scored_by_the_matcher() {
    let stops = vec![
        stop("40380", Some("Clark/Lake")),
        stop("30074", Some("Clark/Lake")),
        stop("41400", Some("Roosevelt")),
        stop("40010", None),
        stop("49999", Some("Lake")),
        stop("50000", Some("Lake Shore")),
        stop("x", Some("Lake Park")),
    ];
    let matcher = SkimMatcherV2::default();
    let scores = score_stops(&stops, "lake", 40000, 49999);
    let expected: Vec<(String, i64)> = ["Clark/Lake", "Roosevelt", "", "Lake"]
        .iter()
        .map(|n| (n.to_string(), matcher.fuzzy_match(n, "lake").unwrap_or_default()))
        .collect();
    assert_eq!(names(&scores), expected);
    assert!(scores[0].score > 0);
    assert_eq!(scores[1].score, 0);
    assert_ne!(scores[0].score, scores[3].score);
}

#[test]
fn stations_are_suggested_best_first() {
    let stops = vec![
        stop("41400", Some("Roosevelt")),
        stop("40380", Some("Clark/Lake")),
        stop("30074", Some("Lake bus stop")),
        stop("40260", Some("State/Lake")),
        stop("41660", Some("Lake")),
    ];
    let matcher = SkimMatcherV2::default();
    let mut expected: Vec<(String, i64)> = ["Roosevelt", "Clark/Lake", "State/Lake", "Lake"]
        .iter()
        .map(|n| (n.to_string(), matcher.fuzzy_match(n, "lake").unwrap_or_default()))
        .collect();
    expected.retain(|(_, score)| *score != 0);
    expected.sort_by_key(|(_, score)| *score);
    expected.reverse();
    let expected: Vec<String> = expected.into_iter().map(|(n, _)| n).collect();
    let found = search_stations(&stops, "lake");
    assert_eq!(found, expected);
    assert_eq!(found.len(), 3);
    assert!(!found.contains(&"Roosevelt".to_string()));
    assert!(search_stations(&stops, "zzzz").is_empty());
    assert!(search_stations(&[], "lake").is_empty());
}

#[test]
fn bus_stops_are_suggested_once_for_each_run() {
    let stops = vec![
        stop("100", Some("Clark & Lake")),
        stop("101", Some("Clark & Lake")),
        stop("40380", Some("Clark/Lake")),
        stop("102", Some("Lake Park")),
        stop("103", Some("Clark & Lake")),
        stop("39999", Some("Halsted")),
    ];
    let found = search_bus_stops(&stops, "lake");
    assert_eq!(found.iter().filter(|n| *n == "Clark & Lake").count(), 2);
    assert_eq!(found.iter().filter(|n| *n == "Lake Park").count(), 1);
    assert_eq!(found.len(), 3);
}

#[test]
fn the_broadcast_tallies_each_send_once() {
    assert_eq!(broadcast(&[]), Tally { success: 0, fail: 0 });
    assert_eq!(broadcast(&[true, false, true, true]), Tally { success: 3, fail: 1 });
    let mut tally = Tally::new();
    tally.record(false);
    tally.record(true);
    assert_eq!(tally, Tally { success: 1, fail: 1 });
    assert_eq!(tally.summary(), "Successfully broadcasted message to 1 guilds (1 failures)");
    let mut full = Tally { success: i32::MAX, fail: i32::MAX };
    full.record(true);
    full.record(false);
    assert_eq!(full, Tally { success: i32::MAX, fail: i32::MAX });
    assert_eq!(broadcast_channel(Some(7)), 7);
    assert_eq!(broadcast_channel(None), 0);
}

#[test]
fn the_station_choice_goes_by_the_count() {
    assert_eq!(choose_station(0), StationChoice::NoneFound);
    assert_eq!(choose_station(1), StationChoice::Single);
    assert_eq!(choose_station(2), StationChoice::Choose);
    assert_eq!(choose_station(25), StationChoice::Choose);
    assert_eq!(choose_station(26), StationChoice::TooMany);
}

#[test]
fn the_stop_choice_goes_by_the_count() {
    assert_eq!(choose_stop(0), StopChoice::NoneFound);
    assert_eq!(choose_stop(1), StopChoice::Show);
    assert_eq!(choose_stop(2), StopChoice::Show);
    assert_eq!(choose_stop(3), StopChoice::Choose);
    assert_eq!(choose_stop(25), StopChoice::Choose);
    assert_eq!(choose_stop(26), StopChoice::TooMany);
}

#[test]
fn rail_stations_are_numbered_from_40000_to_50000() {
    let stops = vec![
        stop("39999", Some("a")),
        stop("40000", Some("b")),
        stop("x", Some("c")),
        stop("50000", None),
        stop("50001", Some("e")),
        stop("45000", Some("f")),
    ];
    assert_eq!(train_stations(&stops), vec![1, 3, 5]);
    assert_eq!(station_title(&stops[1]), "b");
    assert_eq!(station_title(&stops[3]), "Station ID 50000");
}

#[test]
fn bus_stops_are_grouped_by_name() {
    let stops = vec![
        stop("100", Some("Clark & Lake")),
        stop("40380", Some("Clark & Lake")),
        stop("200", Some("Halsted")),
        stop("101", Some("Clark & Lake")),
        stop("30000", None),
        stop("30001", Some("Halsted")),
        stop("bad", Some("Halsted")),
        stop("201", Some("Halsted")),
        stop("-5", None),
    ];
    let groups = group_stops(&stops);
    let seen: Vec<(String, Vec<String>)> =
        groups.into_iter().map(|g| (g.name, g.ids)).collect();
    assert_eq!(
        seen,
        vec![
            ("Clark & Lake".to_string(), vec!["100".to_string(), "101".to_string()]),
            ("Halsted".to_string(), vec!["200".to_string(), "201".to_string()]),
            ("".to_string(), vec!["30000".to_string(), "-5".to_string()]),
        ]
    );
    assert!(group_stops(&[]).is_empty());
}

#[test]
fn report_lines_for_buses() {
    let vehicle = Vehicle {
        lat: "41.88".to_string(),
        lon: "-87.63".to_string(),
        hdg: 90,
        tmstmp: "20240115 12:00".to_string(),
        vid: "1234".to_string(),
        pid: 1,
        rt: "22".to_string(),
        des: "Howard".to_string(),
        dly: None,
        zone: String::new(),
        pdist: None,
        tablockid: "22 -507".to_string(),
    };
    assert_eq!(
        vehicle_line(&vehicle, "Clark"),
        "Bus 1234 Route 22 (Clark) to Howard. North Park Garage\n"
    );
    let prediction = Prediction {
        tmstmp: "20240115 12:00".to_string(),
        typ: PredictionType::A,
        stpnm: "Clark & Lake".to_string(),
        stpid: 100,
        vid: "1234".to_string(),
        dstp: 500,
        rt: "22".to_string(),
        rtdir: "Northbound".to_string(),
        des: "Howard".to_string(),
        prdtm: "20240115 12:10:00".to_string(),
        dly: Some(false),
        tablockid: "22 -507".to_string(),
        tatripid: "1".to_string(),
        prdctdn: "10".to_string(),
        zone: String::new(),
    };
    assert_eq!(
        prediction_line(&prediction, 1705363800),
        "Route 22 Northbound to Howard <t:1705363800:R> (Bus #1234)\n"
    );
}

#[test]
fn a_prediction_becomes_a_row_of_the_board() {
    let at = CivilDateTime {
        date: CivilDate { year: 2024, month: 1, day: 15 },
        hour: 12,
        minute: 0,
        second: 0,
        nano: 0,
    };
    let prediction = TTArrival {
        run_number: 715,
        route: LRouteCode::Org,
        destination_station: 30182,
        destination_name: "Midway".to_string(),
        train_direction: 5,
        prediction_time: at,
        arrival_time: at,
        is_approaching: false,
        is_scheduled: true,
        is_delayed: false,
        is_faulted: false,
        latitude: None,
        longitude: None,
        heading: None,
    };
    let row = board_arrival(&prediction, 5);
    assert_eq!(row.destination_name, "Midway");
    assert_eq!(row.route, LRouteName::Org);
    assert_eq!(row.countdown, "5 min");
    assert_eq!(row.train_number, 715);
    assert!(row.is_scheduled);
    assert_eq!(board_arrival(&prediction, 0).countdown, "Due");
}

fn arrival(destination: &str, route: LRouteName, train_number: i32) -> Arrival {
    Arrival {
        destination_name: destination.to_string(),
        route,
        train_number,
        countdown: "Due".to_string(),
        is_scheduled: false,
    }
}

#[test]
fn the_board_has_the_colours_of_the_lines() {
    let colours = [
        (LRouteName::Red, "#c60c30"),
        (LRouteName::P, "#522398"),
        (LRouteName::Y, "#f9e300"),
        (LRouteName::Blue, "#00a1de"),
        (LRouteName::Pink, "#e27ea6"),
        (LRouteName::G, "#009b3a"),
        (LRouteName::Org, "#f9461c"),
        (LRouteName::Brn, "#62361b"),
    ];
    for (route, colour) in colours {
        assert_eq!(line_color(route), colour);
        assert_eq!(background(&arrival("Loop", route, 1)), colour);
        assert_eq!(background(&arrival("Cottage Grove", route, 1)), "#ffffff");
        assert_eq!(foreground(&arrival("UIC-Halsted", route, 1)), colour);
    }
    assert_eq!(foreground(&arrival("Howard", LRouteName::Y, 1)), "#000000");
    assert_eq!(foreground(&arrival("Howard", LRouteName::Red, 1)), "#ffffff");
    assert!(inverse("Cottage Grove"));
    assert!(inverse("UIC-Halsted"));
    assert!(!inverse("cottage grove"));
    assert!(!inverse(""));
}

#[test]
fn the_board_measures_in_whole_numbers() {
    assert_eq!(canvas_height(0), 65);
    assert_eq!(canvas_height(1), 170);
    assert_eq!(canvas_height(8), 905);
    assert_eq!(board_rows(0), 0);
    assert_eq!(board_rows(7), 7);
    assert_eq!(board_rows(8), 8);
    assert_eq!(board_rows(30), 8);
    assert_eq!(symbol(true), "#clockSymbol");
    assert_eq!(symbol(false), "#trackingSymbol");
}

#[test]
fn the_caption_fills_the_run_number_with_zeros() {
    assert_eq!(caption(&arrival("Midway", LRouteName::Org, 715)), "Orange Line #715 to");
    assert_eq!(caption(&arrival("Midway", LRouteName::Org, 7)), "Orange Line #007 to");
    assert_eq!(caption(&arrival("Howard", LRouteName::Red, 42)), "Red Line #042 to");
    assert_eq!(caption(&arrival("Howard", LRouteName::Red, 1234)), "Red Line #1234 to");
    assert_eq!(caption(&arrival("Howard", LRouteName::Red, -5)), "Red Line #0-5 to");
    assert_eq!(caption(&arrival("Howard", LRouteName::Red, 0)), "Red Line #000 to");
}

#[test]
fn arrival_display_error_messages() {
    assert_eq!(ArrivalDisplayError::EncodingError.message(), "Error encoding SVG into PNG image.");
    assert_eq!(ArrivalDisplayError::FileError.message(), "Error loading files");
}

#[test]
fn stops_are_searched_by_name() {
    let stops = vec![
        stop("1", Some("Clark & Lake")),
        stop("2", None),
        stop("3", Some("Lake Park")),
        stop("4", Some("lake")),
        stop("5", Some("Halsted")),
    ];
    assert_eq!(search_stops(&stops, "Lake"), Some(vec!["1".to_string(), "3".to_string()]));
    assert_eq!(
        search_stops(&stops, ""),
        Some(vec!["1", "2", "3", "4", "5"].into_iter().map(String::from).collect())
    );
    assert_eq!(search_stops(&stops, "Lakes"), Some(vec![]));
    assert_eq!(search_stops(&[], "x"), Some(vec![]));
    assert_eq!(get_stop_name(&stops, 3), Some("Lake Park".to_string()));
    assert_eq!(get_stop_name(&stops, 2), None);
    assert_eq!(get_stop_name(&stops, 9), None);
}

#[test]
fn the_schedule_comes_from_the_cache_where_it_can() {
    assert_eq!(choose_source(true, true), GtfsSource::Cache);
    assert_eq!(choose_source(true, false), GtfsSource::CacheFromWeb);
    assert_eq!(choose_source(false, false), GtfsSource::Web);
    assert_eq!(choose_source(false, true), GtfsSource::Web);
    assert_eq!(cache_path("/data"), "/data/google_transit.zip");
}

fn platform(stop_id: i32, map_id: i32, name: &str) -> Stop {
    Stop {
        stop_id,
        direction_id: Direction::N,
        stop_name: "platform".to_string(),
        station_name: "station".to_string(),
        station_descriptive_name: name.to_string(),
        map_id,
        ada: true,
        red: true,
        blue: false,
        g: false,
        brn: false,
        p: false,
        pexp: false,
        y: false,
        pnk: false,
        o: false,
        location: Location { latitude: "41.9".to_string(), longitude: "-87.6".to_string() },
    }
}

#[test]
fn a_station_is_found_by_either_number() {
    let stations = CtaStations::from_stops(vec![
        platform(30001, 40001, "First (Red Line)"),
        platform(30002, 40001, "First again"),
        platform(30003, 40002, "Second (Red Line)"),
    ]);
    assert_eq!(stations.get_stop_name(40001), Some("First (Red Line)".to_string()));
    assert_eq!(stations.get_stop_name(30002), Some("First again".to_string()));
    assert_eq!(stations.get_stop_name(40002), Some("Second (Red Line)".to_string()));
    assert_eq!(stations.get_stop_name(1), None);
}

fn listed(id: i32, headline: &str, tbd: bool, day: u32) -> Alert {
    Alert {
        id,
        headline: headline.to_string(),
        short_description: "Summary.".to_string(),
        full_description: CDATA::new(String::new()),
        severity_score: 1,
        severity_color: String::new(),
        severity_css: String::new(),
        impact: String::new(),
        event_start: DateOrDateTime::Date(CivilDate { year: 2024, month: 1, day }),
        event_end: None,
        tbd,
        major_alert: false,
        alert_url: CDATA::new(String::new()),
        impacted_services: ImpactedService { impacted_services: vec![] },
    }
}

#[test]
fn the_list_of_alerts_has_a_line_for_each() {
    let alerts = vec![listed(1, "One", true, 15), listed(2, "Gone", true, 32), listed(3, "Three", false, 15)];
    assert_eq!(
        alerts_texts(&alerts),
        vec![
            "**One**\n(<t:1705298400:f> - TBD)\nSummary.",
            "**Three**\n(<t:1705298400:f> - <t:0:f>)\nSummary."
        ]
    );
    assert_eq!(
        alerts_description(&alerts),
        "**One**\n(<t:1705298400:f> - TBD)\nSummary.\n\n**Three**\n(<t:1705298400:f> - <t:0:f>)\nSummary."
    );
    assert_eq!(alerts_description(&[]), "");
}

#[test]
fn a_long_report_is_cut_on_a_character_boundary() {
    assert_eq!(clip_report(""), ("", false));
    assert_eq!(clip_report("short"), ("short", false));
    let exact = "a".repeat(4096);
    assert_eq!(clip_report(&exact), (exact.as_str(), false));
    let long = "a".repeat(5000);
    let (cut, truncated) = clip_report(&long);
    assert!(truncated);
    assert_eq!(cut.len(), 4096);
    let wide = format!("{}{}", "a".repeat(4095), "é".repeat(10));
    let (cut, truncated) = clip_report(&wide);
    assert!(truncated);
    assert_eq!(cut, "a".repeat(4095));
    let wider = format!("{}{}", "a".repeat(4094), "é".repeat(10));
    let (cut, truncated) = clip_report(&wider);
    assert!(truncated);
    assert_eq!(cut, format!("{}é", "a".repeat(4094)));
}
