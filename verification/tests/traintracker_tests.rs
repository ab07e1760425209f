use cta_bot::civil::{CivilDate, CivilDateTime};
use cta_bot::cta::analysis::{check_route, check_run_numbers, fits_route, AnomalyType};
use cta_bot::cta::traintracker::{
    ArrivalsParameters, LRouteCode, LRouteName, MapOrStopID, TTPosition, TTRoute, TrainDirection,
    TrainTracker, TrainTrackerError,
};

fn noon() -> CivilDateTime {
    CivilDateTime {
        date: CivilDate { year: 2024, month: 1, day: 15 },
        hour: 12,
        minute: 0,
        second: 0,
        nano: 0,
    }
}

fn train(run_number: i32) -> TTPosition {
    TTPosition {
        run_number,
        route: None,
        destination_station: 30089,
        destination_name: "95th/Dan Ryan".to_string(),
        train_direction: 5,
        next_station_id: 40630,
        next_stop_id: 30122,
        next_station_name: "Clark/Division".to_string(),
        prediction_time: noon(),
        arrival_time: noon(),
        is_approaching: false,
        is_delayed: false,
        lat: "41.90392".to_string(),
        lon: "-87.63141".to_string(),
        heading: 178,
    }
}

#[test]
fn route_codes_and_names_convert() {
    let pairs = [
        (LRouteCode::Red, LRouteName::Red, "Red Line", "\"Red\""),
        (LRouteCode::P, LRouteName::P, "Purple Line", "\"P\""),
        (LRouteCode::Y, LRouteName::Y, "Yellow Line", "\"Y\""),
        (LRouteCode::Blue, LRouteName::Blue, "Blue Line", "\"Blue\""),
        (LRouteCode::Pink, LRouteName::Pink, "Pink Line", "\"Pink\""),
        (LRouteCode::G, LRouteName::G, "Green Line", "\"G\""),
        (LRouteCode::Org, LRouteName::Org, "Orange Line", "\"Org\""),
        (LRouteCode::Brn, LRouteName::Brn, "Brown Line", "\"Brn\""),
    ];
    for (code, name, label, quoted) in pairs {
        assert_eq!(LRouteName::from(code), name);
        assert_eq!(LRouteCode::from(name), code);
        assert_eq!(LRouteCode::from(LRouteName::from(code)), code);
        assert_eq!(name.to_label(), label);
        assert_eq!(code.to_quoted(), quoted);
    }
}

#[test]
fn train_direction_reads_one_and_five() {
    assert_eq!(TrainDirection::from_str("1"), Ok(TrainDirection::Northbound));
    assert_eq!(TrainDirection::from_str("5"), Ok(TrainDirection::Southbound));
    assert_eq!(TrainDirection::from_str("2"), Err(TrainTrackerError::DataError));
    assert_eq!(TrainDirection::from_str(""), Err(TrainTrackerError::DataError));
    assert_eq!(TrainDirection::from_str("15"), Err(TrainTrackerError::DataError));
    assert_eq!(TrainDirection::Northbound.to_number(), 1);
    assert_eq!(TrainDirection::Southbound.to_number(), 5);
}

#[test]
fn train_tracker_error_messages() {
    assert_eq!(
        TrainTrackerError::RequestError.message(),
        "Failed to fetch data from TrainTracker API"
    );
    assert_eq!(
        TrainTrackerError::ParseError.message(),
        "Failed to parse JSON data returned from TrainTracker API"
    );
    assert_eq!(TrainTrackerError::DataError.message(), "TrainTracker API provided invalid data");
}

#[test]
fn train_tracker_addresses() {
    let tt = TrainTracker::new("KEY");
    assert_eq!(
        tt.follow_train_url(715),
        "https://lapi.transitchicago.com/api/1.0/ttfollow.aspx?runnumber=715&key=KEY&outputType=JSON"
    );
    let by_map = ArrivalsParameters { id: MapOrStopID::MapID { mapid: 40380 }, max: None, rt: None };
    assert_eq!(
        tt.arrivals_url(&by_map),
        "https://lapi.transitchicago.com/api/1.0/ttarrivals.aspx?mapid=40380&key=KEY&outputType=JSON"
    );
    let by_stop = ArrivalsParameters {
        id: MapOrStopID::StopID { stpid: 30074 },
        max: Some(5),
        rt: Some("Red".to_string()),
    };
    assert_eq!(
        tt.arrivals_url(&by_stop),
        "https://lapi.transitchicago.com/api/1.0/ttarrivals.aspx?stpid=30074&max=5&rt=Red&key=KEY&outputType=JSON"
    );
    assert_eq!(
        tt.positions_url(&vec![LRouteCode::Red, LRouteCode::Blue]),
        "https://lapi.transitchicago.com/api/1.0/ttpositions.aspx?rt=\"Red\",\"Blue\",&key=KEY&outputType=JSON"
    );
    assert_eq!(
        tt.positions_url(&vec![]),
        "https://lapi.transitchicago.com/api/1.0/ttpositions.aspx?rt=&key=KEY&outputType=JSON"
    );
}

#[test]
fn run_numbers_of_each_line() {
    let bounds = [
        (LRouteCode::Blue, 100, 299),
        (LRouteCode::Brn, 400, 499),
        (LRouteCode::Org, 700, 799),
        (LRouteCode::P, 500, 589),
        (LRouteCode::Pink, 300, 399),
        (LRouteCode::Red, 800, 999),
        (LRouteCode::Y, 590, 599),
    ];
    for (route, lo, hi) in bounds {
        assert!(fits_route(route, lo));
        assert!(fits_route(route, hi));
        assert!(!fits_route(route, lo - 1));
        assert!(!fits_route(route, hi + 1));
    }
    for run in [0, 99, 600, 699] {
        assert!(fits_route(LRouteCode::G, run));
    }
    for run in [-1, 100, 599, 700] {
        assert!(!fits_route(LRouteCode::G, run));
    }
}

#[test]
fn check_run_numbers_finds_the_odd_trains_in_order() {
    let route = TTRoute {
        name: LRouteCode::Red,
        trains: vec![train(801), train(120), train(999), train(1000), train(799)],
    };
    let found = check_run_numbers(&route);
    let runs: Vec<i32> = found.iter().map(|a| a.position().run_number).collect();
    assert_eq!(runs, vec![120, 1000, 799]);
    assert!(found.iter().all(|a| a.anomaly_type() == AnomalyType::RunNumber));
    assert_eq!(found[0].position().lat, "41.90392");
}

#[test]
fn check_route_goes_line_after_line() {
    let routes = vec![
        TTRoute { name: LRouteCode::Blue, trains: vec![train(99), train(150)] },
        TTRoute { name: LRouteCode::Y, trains: vec![] },
        TTRoute { name: LRouteCode::Brn, trains: vec![train(450), train(500), train(399)] },
    ];
    let found = check_route(routes);
    let runs: Vec<i32> = found.iter().map(|a| a.position().run_number).collect();
    assert_eq!(runs, vec![99, 500, 399]);
    assert!(check_route(vec![]).is_empty());
}
