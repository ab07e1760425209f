use cta_bot::civil::{CivilDate, CivilDateTime};
use cta_bot::cta::alerts::{Alert, DateOrDateTime, ImpactedService, Service, ServiceType, CDATA};
use cta_bot::db::{contains_id, AlertStore, DBAlert, DBGuild, DBKeyValue, StoreError};

fn alert(id: i32, headline: &str) -> Alert {
    Alert {
        id,
        headline: headline.to_string(),
        short_description: "Trains are running with delays.".to_string(),
        full_description: CDATA::new("<p>full</p>".to_string()),
        severity_score: 37,
        severity_color: "ffcc00".to_string(),
        severity_css: "minor-alert".to_string(),
        impact: "Minor Delays".to_string(),
        event_start: DateOrDateTime::DateTime(CivilDateTime {
            date: CivilDate { year: 2024, month: 1, day: 15 },
            hour: 12,
            minute: 0,
            second: 0,
            nano: 0,
        }),
        event_end: None,
        tbd: true,
        major_alert: false,
        alert_url: CDATA::new("https://example.org/42".to_string()),
        impacted_services: ImpactedService {
            impacted_services: vec![Service {
                stype: ServiceType::TrainRoute,
                stype_description: "Train Route".to_string(),
                id: "Red".to_string(),
                name: "Red Line".to_string(),
                background_color: "c60c30".to_string(),
                text_color: "ffffff".to_string(),
                url: CDATA::new("https://example.org/red".to_string()),
            }],
        },
    }
}

#[test]
fn a_row_copies_the_alert() {
    let row = DBAlert::from_alert(&alert(42, "Red Line delayed"), 2);
    assert_eq!(row.alert_id, 42);
    assert_eq!(row.headline, "Red Line delayed");
    assert_eq!(row.short_description, "Trains are running with delays.");
    assert_eq!(row.full_description, "<p>full</p>");
    assert_eq!(row.severity_score, 37);
    assert_eq!(row.severity_color, "ffcc00");
    assert_eq!(row.impact, "Minor Delays");
    assert_eq!(row.tbd, true);
    assert_eq!(row.major_alert, false);
    assert_eq!(row.alert_url, "https://example.org/42");
    assert_eq!(row.impacted_services.len(), 1);
    assert_eq!(row.impacted_services[0].name, "Red Line");
    assert_eq!(row.published_to, 2);
    let copy = row.duplicate();
    assert_eq!(copy.alert_id, 42);
    assert_eq!(copy.published_to, 2);
    assert_eq!(copy.headline, row.headline);
}

#[test]
fn a_new_store_is_empty() {
    let store = AlertStore::new();
    assert_eq!(store.len(), 0);
    assert!(!store.contains(42));
    assert_eq!(store.published_to(42), None);
    assert!(store.lookup(&vec![42, 43]).is_empty());
}

#[test]
fn upsert_adds_a_row_once() {
    let mut store = AlertStore::new();
    assert_eq!(store.upsert(&alert(42, "Red Line delayed"), 2), Ok(()));
    assert_eq!(store.len(), 1);
    assert!(store.contains(42));
    assert_eq!(store.published_to(42), Some(2));
    assert_eq!(store.upsert(&alert(42, "Red Line delayed"), 0), Err(StoreError::Duplicate));
    assert_eq!(store.len(), 1);
    assert_eq!(store.published_to(42), Some(2));
    assert_eq!(store.upsert(&alert(42, "another headline"), 9), Err(StoreError::Duplicate));
    assert_eq!(store.published_to(42), Some(2));
    assert_eq!(store.lookup(&vec![42])[0].headline, "Red Line delayed");
    assert_eq!(store.upsert(&alert(7, "zero is a count"), 0), Ok(()));
    assert_eq!(store.published_to(7), Some(0));
    assert_eq!(store.len(), 2);
}

#[test]
fn lookup_gives_only_matching_rows_in_store_order() {
    let mut store = AlertStore::new();
    for id in [5, 3, 9, 1] {
        store.upsert(&alert(id, "h"), id).unwrap();
    }
    let found: Vec<i32> = store.lookup(&vec![1, 9, 4, 5, 5]).iter().map(|r| r.alert_id).collect();
    assert_eq!(found, vec![5, 9, 1]);
    assert!(store.lookup(&vec![]).is_empty());
    assert!(store.lookup(&vec![100]).is_empty());
    assert_eq!(store.len(), 4);
}

#[test]
fn contains_id_is_membership() {
    assert!(contains_id(&vec![1, 2, 3], 2));
    assert!(!contains_id(&vec![1, 2, 3], 4));
    assert!(!contains_id(&vec![], 0));
}

#[test]
fn a_guild_copy_keeps_every_field() {
    let guild = DBGuild {
        guild_id: 1,
        guild_name: Some("Loop".to_string()),
        has_alerts: Some(true),
        alert_channel: Some(99),
        accessibility_alerts: None,
        planned_alerts: Some(false),
        route_ids: Some(vec!["red".to_string(), "blue".to_string()]),
        ephemeral_arrivals: Some(true),
    };
    let copy = guild.duplicate();
    assert_eq!(copy.guild_id, 1);
    assert_eq!(copy.guild_name.as_deref(), Some("Loop"));
    assert_eq!(copy.has_alerts, Some(true));
    assert_eq!(copy.alert_channel, Some(99));
    assert_eq!(copy.accessibility_alerts, None);
    assert_eq!(copy.planned_alerts, Some(false));
    assert_eq!(copy.route_ids, Some(vec!["red".to_string(), "blue".to_string()]));
    assert_eq!(copy.ephemeral_arrivals, Some(true));
}

#[test]
fn a_key_value_entry_gives_back_what_it_holds() {
    let entry = DBKeyValue::new("motd".to_string(), Some("hello".to_string()));
    assert_eq!(entry.key(), "motd");
    assert_eq!(entry.value(), Some("hello"));
    assert_eq!(DBKeyValue::new("k".to_string(), None).value(), None);
}
