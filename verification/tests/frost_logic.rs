use frost::frost::{
    discover_stations, discovered_from_source, filter_stations, flatten_observations,
    interpret_response, interpret_sources_response, DiscoveredStation, FrostErrorBody,
    FrostObservation, FrostObservationData, FrostSource, ResponseAction,
};
use frost::stations::ElArea;

fn err_body(reason: &str, message: &str) -> FrostErrorBody {
    FrostErrorBody { reason: Some(reason.to_string()), message: Some(message.to_string()) }
}

fn obs(element: &str, tenths: Option<u64>, quality: Option<i32>) -> FrostObservation {
    FrostObservation {
        element_id: element.to_string(),
        value_tenths_mm: tenths,
        quality_code: quality,
    }
}

fn entry(source: &str, time: &str, observations: Vec<FrostObservation>) -> FrostObservationData {
    FrostObservationData {
        source_id: source.to_string(),
        reference_time: time.to_string(),
        observations,
    }
}

fn source(id: &str, name: &str, county: &str, valid_to: Option<&str>) -> FrostSource {
    FrostSource {
        id: id.to_string(),
        name: Some(name.to_string()),
        county: Some(county.to_string()),
        municipality: Some("Sted".to_string()),
        valid_from: Some("1950-01-01".to_string()),
        valid_to: valid_to.map(|v| v.to_string()),
    }
}

#[test]
fn no_data_responses_are_empty_successes() {
    assert!(matches!(
        interpret_response(404, Some(err_body("Not found", "x"))),
        ResponseAction::NoData
    ));
    assert!(matches!(
        interpret_response(200, Some(err_body("Not found", "x"))),
        ResponseAction::NoData
    ));
    assert!(matches!(
        interpret_response(412, Some(err_body("No time series found", "x"))),
        ResponseAction::NoData
    ));
}

#[test]
fn provider_errors_carry_reason_and_message() {
    match interpret_response(400, Some(err_body("Bad request", "sources invalid"))) {
        ResponseAction::Fail { reason, message } => {
            assert_eq!(reason, "Bad request");
            assert_eq!(message, "sources invalid");
        }
        other => panic!("expected a failure, got {other:?}"),
    }
}

#[test]
fn unexpected_statuses_fail_with_the_status() {
    match interpret_response(503, None) {
        ResponseAction::Fail { reason, message } => {
            assert_eq!(reason, "503");
            assert_eq!(message, "Unexpected error from Frost API");
        }
        other => panic!("expected a failure, got {other:?}"),
    }
    assert!(matches!(interpret_response(200, None), ResponseAction::Proceed));
}

#[test]
fn sources_responses_have_no_nodata_case() {
    match interpret_sources_response(404, Some(err_body("Not found", "x"))) {
        ResponseAction::Fail { reason, .. } => assert_eq!(reason, "Not found"),
        other => panic!("expected a failure, got {other:?}"),
    }
    assert!(matches!(interpret_sources_response(204, None), ResponseAction::Proceed));
    match interpret_sources_response(500, None) {
        ResponseAction::Fail { reason, message } => {
            assert_eq!(reason, "500");
            assert_eq!(message, "Unexpected error from Frost sources API");
        }
        other => panic!("expected a failure, got {other:?}"),
    }
}

#[test]
fn flattening_strips_suffixes_and_filters_elements() {
    let data = vec![entry(
        "SN18700:0",
        "2024-01-01T06:00:00.000Z",
        vec![
            obs("sum(precipitation_amount P1D)", Some(23), Some(0)),
            obs("air_temperature", Some(999), Some(0)),
        ],
    )];
    let rows = flatten_observations(&data);
    assert_eq!(rows.len(), 1);
    assert_eq!(rows[0].station_id, "SN18700");
    assert_eq!(rows[0].station_name, "Oslo - Blindern");
    assert_eq!(rows[0].el_area, "NO1");
    assert_eq!(rows[0].reference_time, "2024-01-01");
    assert_eq!(rows[0].precipitation_tenths_mm, Some(23));
    assert_eq!(rows[0].quality_code, Some(0));
}

#[test]
fn flattening_marks_unknown_stations() {
    let data = vec![entry(
        "SN99999:0",
        "2024-01-02T06:00:00.000Z",
        vec![obs("sum(precipitation_amount P1D)", None, None)],
    )];
    let rows = flatten_observations(&data);
    assert_eq!(rows.len(), 1);
    assert_eq!(rows[0].station_id, "SN99999");
    assert_eq!(rows[0].station_name, "Unknown");
    assert_eq!(rows[0].el_area, "??");
    assert_eq!(rows[0].precipitation_tenths_mm, None);
}

#[test]
fn flattening_keeps_entry_order() {
    let data = vec![
        entry("SN18700:0", "2024-01-01T06:00:00.000Z", vec![
            obs("sum(precipitation_amount P1D)", Some(1), Some(0)),
            obs("sum(precipitation_amount P1D)", Some(2), Some(0)),
        ]),
        entry("SN50540:0", "2024-01-02T06:00:00.000Z", vec![
            obs("sum(precipitation_amount P1D)", Some(3), Some(0)),
        ]),
    ];
    let rows = flatten_observations(&data);
    assert_eq!(rows.len(), 3);
    assert_eq!(rows[0].precipitation_tenths_mm, Some(1));
    assert_eq!(rows[1].precipitation_tenths_mm, Some(2));
    assert_eq!(rows[2].station_id, "SN50540");
    assert_eq!(rows[2].el_area, "NO5");
}

#[test]
fn discovery_maps_counties_and_activity() {
    let d = discovered_from_source(source("SN1", "Somewhere", "Trøndelag", None));
    assert_eq!(d.el_area, Some(ElArea::NO3));
    assert!(d.is_active);

    let expired = discovered_from_source(source("SN2", "Old", "Oslo", Some("2020-06-01")));
    assert!(!expired.is_active);
    assert_eq!(expired.el_area, Some(ElArea::NO1));

    let open_ended = discovered_from_source(source("SN3", "New", "Agder", Some("2025-06-01")));
    assert!(open_ended.is_active);

    let unknown = discovered_from_source(FrostSource {
        id: "SN4".to_string(),
        name: None,
        county: None,
        municipality: None,
        valid_from: None,
        valid_to: None,
    });
    assert_eq!(unknown.name, "");
    assert_eq!(unknown.county, "");
    assert_eq!(unknown.el_area, None);
    assert!(unknown.is_active);
}

#[test]
fn discovery_keeps_listing_order() {
    let ds = discover_stations(vec![
        source("SN1", "A", "Oslo", None),
        source("SN2", "B", "Vestland", None),
    ]);
    assert_eq!(ds.len(), 2);
    assert_eq!(ds[0].id, "SN1");
    assert_eq!(ds[1].el_area, Some(ElArea::NO5));
}

fn discovered(id: &str, area: Option<ElArea>, active: bool) -> DiscoveredStation {
    DiscoveredStation {
        id: id.to_string(),
        name: "N".to_string(),
        county: "C".to_string(),
        municipality: "M".to_string(),
        el_area: area,
        is_active: active,
    }
}

#[test]
fn listing_filter_respects_activity_and_areas() {
    let all = vec![
        discovered("SN1", Some(ElArea::NO1), true),
        discovered("SN2", Some(ElArea::NO2), false),
        discovered("SN3", None, true),
        discovered("SN4", Some(ElArea::NO2), true),
    ];

    let active_no2 = filter_stations(all.clone(), &Some(vec![ElArea::NO2]), true);
    assert_eq!(active_no2.len(), 1);
    assert_eq!(active_no2[0].id, "SN4");

    let any_no2 = filter_stations(all.clone(), &Some(vec![ElArea::NO2]), false);
    assert_eq!(any_no2.len(), 2);

    let all_active = filter_stations(all.clone(), &None, true);
    assert_eq!(all_active.len(), 3);

    let everything = filter_stations(all, &None, false);
    assert_eq!(everything.len(), 4);
}
