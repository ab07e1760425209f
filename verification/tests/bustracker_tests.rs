use cta_bot::civil::{CivilDate, CivilDateTime};
use cta_bot::cta::bustracker::{
    BusTracker, BusTrackerError, Garage, PredictionsParameters, StpidOrVid, VehiclesParameters,
    VidOrRt,
};

#[test]
fn test_tablockid_to_garage() {
    assert_eq!(BusTracker::tablockid_to_garage("95 -109"), Garage::Garage103rd);
    assert_eq!(BusTracker::tablockid_to_garage("52A-754"), Garage::Garage77th);
    assert_eq!(BusTracker::tablockid_to_garage("119 -154"), Garage::Garage103rd);
    assert_eq!(BusTracker::tablockid_to_garage("SS -851"), Garage::Chicago);
    assert_eq!(BusTracker::tablockid_to_garage("82 -207"), Garage::Kedzie);
    assert_eq!(BusTracker::tablockid_to_garage("63 -613"), Garage::Garage74th);
    assert_eq!(BusTracker::tablockid_to_garage("49 -559"), Garage::NorthPark);
    assert_eq!(BusTracker::tablockid_to_garage("79 -712"), Garage::Garage77th);
}

#[test]
fn tablockid_edge_cases() {
    assert_eq!(BusTracker::tablockid_to_garage("9 -401"), Garage::ForestGlen);
    assert_eq!(BusTracker::tablockid_to_garage(""), Garage::Unknown);
    assert_eq!(BusTracker::tablockid_to_garage("no hyphen"), Garage::Unknown);
    assert_eq!(BusTracker::tablockid_to_garage("95 -"), Garage::Unknown);
    assert_eq!(BusTracker::tablockid_to_garage("95 --109"), Garage::Unknown);
    assert_eq!(BusTracker::tablockid_to_garage("95 -309"), Garage::Unknown);
    assert_eq!(BusTracker::tablockid_to_garage("95 -909"), Garage::Unknown);
    assert_eq!(BusTracker::tablockid_to_garage("95 -x09"), Garage::Unknown);
    assert_eq!(BusTracker::tablockid_to_garage("a-1-2"), Garage::Garage103rd);
}

#[test]
fn garage_names() {
    assert_eq!(String::from(Garage::Chicago), "Chicago Garage");
    assert_eq!(String::from(Garage::Garage103rd), "103rd Garage");
    assert_eq!(Garage::Kedzie.to_name(), "Kedzie Garage");
    assert_eq!(Garage::ForestGlen.to_name(), "Forest Glen Garage");
    assert_eq!(Garage::NorthPark.to_name(), "North Park Garage");
    assert_eq!(Garage::Garage74th.to_name(), "74th Garage");
    assert_eq!(Garage::Garage77th.to_name(), "77th Garage");
    assert_eq!(Garage::Unknown.to_name(), "Unknown Garage");
}

#[test]
fn bus_tracker_addresses() {
    let bt = BusTracker::new("KEY");
    assert_eq!(
        bt.time_url(),
        "http://www.ctabustracker.com/bustime/api/v2/gettime?key=KEY&format=json"
    );
    let by_route = VehiclesParameters {
        search: VidOrRt::Rt { Rt: vec!["20".to_string(), "X49".to_string()] },
    };
    assert_eq!(
        bt.vehicles_url(&by_route),
        "http://www.ctabustracker.com/bustime/api/v2/getvehicles?key=KEY&format=json&tmres=s&rt=20,X49"
    );
    let by_bus = VehiclesParameters { search: VidOrRt::Vid { Vid: vec!["1234".to_string()] } };
    assert_eq!(
        bt.vehicles_url(&by_bus),
        "http://www.ctabustracker.com/bustime/api/v2/getvehicles?key=KEY&format=json&tmres=s&vid=1234"
    );
    let stops = PredictionsParameters {
        search: StpidOrVid::StpId { stpid: vec!["1".to_string(), "2".to_string()], rt: None },
    };
    assert_eq!(
        bt.predictions_url(&stops),
        "http://www.ctabustracker.com/bustime/api/v2/getpredictions?key=KEY&format=json&stpid=1,2"
    );
    let stops_routes = PredictionsParameters {
        search: StpidOrVid::StpId {
            stpid: vec!["1".to_string()],
            rt: Some(vec!["20".to_string(), "49".to_string()]),
        },
    };
    assert_eq!(
        bt.predictions_url(&stops_routes),
        "http://www.ctabustracker.com/bustime/api/v2/getpredictions?key=KEY&format=json&stpid=1&rt=20,49"
    );
    let buses = PredictionsParameters { search: StpidOrVid::Vid { vid: vec![] } };
    assert_eq!(
        bt.duplicate().predictions_url(&buses),
        "http://www.ctabustracker.com/bustime/api/v2/getpredictions?key=KEY&format=json&vid="
    );
}

#[test]
fn parse_bustime_reads_the_trackers_clock() {
    assert_eq!(BusTracker::parse_bustime("20240115 12:00:00"), Ok(1705363200));
    assert_eq!(BusTracker::parse_bustime("20240115 12:00:01"), Ok(1705363201));
    assert_eq!(BusTracker::parse_bustime("2024-01-15 12:00:00"), Err(BusTrackerError::TimeError));
    assert_eq!(BusTracker::parse_bustime(""), Err(BusTrackerError::TimeError));
    assert_eq!(BusTracker::parse_bustime("20241315 12:00:00"), Err(BusTrackerError::TimeError));
}

#[test]
fn bustime_from_covers_each_case() {
    let t = CivilDateTime {
        date: CivilDate { year: 2024, month: 1, day: 15 },
        hour: 12,
        minute: 0,
        second: 0,
        nano: 0,
    };
    assert_eq!(BusTracker::bustime_from(None, None), Err(BusTrackerError::TimeError));
    assert_eq!(BusTracker::bustime_from(None, Some(5)), Err(BusTrackerError::TimeError));
    assert_eq!(BusTracker::bustime_from(Some(t), None), Err(BusTrackerError::TimeOutOfRange));
    assert_eq!(BusTracker::bustime_from(Some(t), Some(0)), Ok(43200));
    assert_eq!(
        BusTracker::bustime_from(Some(t), Some(i64::MAX)),
        Err(BusTrackerError::TimeOutOfRange)
    );
    assert_eq!(BusTracker::bustime_from(Some(t), Some(i64::MAX - 43200)), Ok(i64::MAX));
}

#[test]
fn bus_tracker_error_messages() {
    assert_eq!(BusTrackerError::RequestError.message(), "Failed to fetch data from BusTracker API");
    assert_eq!(
        BusTrackerError::ParseError.message(),
        "Failed to parse JSON data returned from BusTracker API"
    );
    assert_eq!(BusTrackerError::TimeError.message(), "Failed to parse BusTracker server time.");
    assert_eq!(BusTrackerError::TimeOutOfRange.message(), "Time arithmetic went out of range.");
    assert_eq!(BusTrackerError::ParseIntError.message(), "Integer Parsing Error");
}
