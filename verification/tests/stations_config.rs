use frost::config::Config;
use frost::stations::{
    county_to_el_area, parse_area, select_stations, station_by_id, station_catalog,
    stations_for_areas, ElArea,
};

#[test]
fn catalog_holds_five_stations_per_area() {
    let catalog = station_catalog();
    assert_eq!(catalog.len(), 25);
    for area in [ElArea::NO1, ElArea::NO2, ElArea::NO3, ElArea::NO4, ElArea::NO5] {
        assert_eq!(catalog.iter().filter(|s| s.el_area == area).count(), 5);
    }
}

#[test]
fn stations_for_areas_filters_in_catalog_order() {
    let picked = stations_for_areas(&vec![ElArea::NO1]);
    assert_eq!(picked.len(), 5);
    assert_eq!(picked[0].id, "SN18700");
    assert_eq!(picked[0].name, "Oslo - Blindern");

    let two = stations_for_areas(&vec![ElArea::NO2, ElArea::NO5]);
    assert_eq!(two.len(), 10);
    assert!(two.iter().all(|s| s.el_area == ElArea::NO2 || s.el_area == ElArea::NO5));

    let none = stations_for_areas(&Vec::new());
    assert_eq!(none.len(), 0);
}

#[test]
fn station_by_id_finds_catalog_entries() {
    let s = station_by_id("SN18700").unwrap();
    assert_eq!(s.name, "Oslo - Blindern");
    assert_eq!(s.el_area, ElArea::NO1);
    let t = station_by_id("SN50540").unwrap();
    assert_eq!(t.name, "Bergen - Florida");
    assert_eq!(t.el_area, ElArea::NO5);
    assert!(station_by_id("SN00000").is_none());
}

#[test]
fn county_mapping_covers_old_and_new_names() {
    assert_eq!(county_to_el_area("Oslo"), Some(ElArea::NO1));
    assert_eq!(county_to_el_area("Østfold"), Some(ElArea::NO1));
    assert_eq!(county_to_el_area("Viken"), Some(ElArea::NO1));
    assert_eq!(county_to_el_area("Agder"), Some(ElArea::NO2));
    assert_eq!(county_to_el_area("ROGALAND"), Some(ElArea::NO2));
    assert_eq!(county_to_el_area("Trøndelag"), Some(ElArea::NO3));
    assert_eq!(county_to_el_area("Møre og Romsdal"), Some(ElArea::NO3));
    assert_eq!(county_to_el_area("Nordland"), Some(ElArea::NO4));
    assert_eq!(county_to_el_area("Troms og Finnmark"), Some(ElArea::NO4));
    assert_eq!(county_to_el_area("Vestland"), Some(ElArea::NO5));
    assert_eq!(county_to_el_area("Sogn og Fjordane"), Some(ElArea::NO5));
    assert_eq!(county_to_el_area("Atlantis"), None);
}

#[test]
fn parses_area_codes_case_insensitively() {
    assert_eq!(parse_area("NO1"), Some(ElArea::NO1));
    assert_eq!(parse_area("no3"), Some(ElArea::NO3));
    assert_eq!(parse_area("No5"), Some(ElArea::NO5));
    assert_eq!(parse_area("NO9"), None);
    assert_eq!(parse_area(""), None);
}

#[test]
fn area_codes_render() {
    assert_eq!(ElArea::NO1.code(), "NO1");
    assert_eq!(ElArea::NO4.code(), "NO4");
}

#[test]
fn select_stations_defaults_to_all_areas() {
    let all = select_stations(None).unwrap();
    assert_eq!(all.len(), 25);
    let one = select_stations(Some(vec![ElArea::NO3])).unwrap();
    assert_eq!(one.len(), 5);
    assert!(select_stations(Some(Vec::new())).is_err());
}

fn config() -> Config {
    Config {
        frost_client_id: "client-id-for-tests".to_string(),
        databricks_hostname: "adb-123.4.azuredatabricks.net".to_string(),
        databricks_http_path: "/sql/1.0/warehouses/abc123def".to_string(),
        databricks_catalog: "lakehouse".to_string(),
        databricks_access_token: "token-for-tests".to_string(),
    }
}

#[test]
fn sql_url_is_derived_from_the_hostname() {
    assert_eq!(
        config().databricks_sql_url(),
        "https://adb-123.4.azuredatabricks.net/api/2.0/sql/statements"
    );
}

#[test]
fn warehouse_id_is_the_last_path_segment() {
    assert_eq!(config().warehouse_id(), "abc123def");
    let mut c = config();
    c.databricks_http_path = "plainpath".to_string();
    assert_eq!(c.warehouse_id(), "plainpath");
    c.databricks_http_path = "ends/with/slash/".to_string();
    assert_eq!(c.warehouse_id(), "");
}
