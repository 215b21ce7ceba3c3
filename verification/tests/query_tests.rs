use mapradar::models::SearchQuery;
use mapradar::models::ServiceType;
use mapradar::query::resolve_query;
use mapradar::query::parse_service_types;
use mapradar::query::NearbyParams;
use mapradar::query::QueryError;
use mapradar::query::DEFAULT_MAX_RESULTS;
use mapradar::query::DEFAULT_RADIUS;

#[test]
fn known_and_unknown_tags() {
    let r = parse_service_types("bank,unknown,hospital");
    assert_eq!(
        r,
        vec![ServiceType::Bank, ServiceType::Landmark, ServiceType::Hospital]
    );
}

#[test]
fn every_known_tag_maps_to_its_type() {
    let r = parse_service_types(
        "bus-stop,market,school,mall,hospital,bank,restaurant,fuel-station,train-station,taxi-stand,landmark",
    );
    assert_eq!(
        r,
        vec![
            ServiceType::BusStop,
            ServiceType::Market,
            ServiceType::School,
            ServiceType::Mall,
            ServiceType::Hospital,
            ServiceType::Bank,
            ServiceType::Restaurant,
            ServiceType::FuelStation,
            ServiceType::TrainStation,
            ServiceType::TaxiStand,
            ServiceType::Landmark,
        ]
    );
}

#[test]
fn tags_are_trimmed() {
    let r = parse_service_types("  bank , hospital\t, school");
    assert_eq!(
        r,
        vec![ServiceType::Bank, ServiceType::Hospital, ServiceType::School]
    );
}

#[test]
fn empty_list_is_one_empty_tag() {
    assert_eq!(parse_service_types(""), vec![ServiceType::Landmark]);
}

#[test]
fn empty_tag_between_commas_falls_back() {
    let r = parse_service_types("bank,,school");
    assert_eq!(
        r,
        vec![ServiceType::Bank, ServiceType::Landmark, ServiceType::School]
    );
}

#[test]
fn trailing_comma_adds_fallback() {
    let r = parse_service_types("bank,");
    assert_eq!(r, vec![ServiceType::Bank, ServiceType::Landmark]);
}

#[test]
fn tag_match_is_case_sensitive() {
    let r = parse_service_types("Bank");
    assert_eq!(r, vec![ServiceType::Landmark]);
}

#[test]
fn latitude_without_longitude_fails() {
    let r = resolve_query(None, Some(51_500_000), None);
    assert_eq!(r, Err(QueryError::MissingLongitude));
    assert_eq!(
        QueryError::MissingLongitude.message(),
        "Longitude is required when latitude is provided"
    );
}

#[test]
fn latitude_without_longitude_fails_even_with_address() {
    let r = resolve_query(Some("221B Baker Street".to_string()), Some(51_500_000), None);
    assert_eq!(r, Err(QueryError::MissingLongitude));
}

#[test]
fn no_location_at_all_fails() {
    let r = resolve_query(None, None, None);
    assert_eq!(r, Err(QueryError::MissingLocation));
    assert_eq!(
        QueryError::MissingLocation.message(),
        "Either address or coordinates must be provided"
    );
}

#[test]
fn longitude_alone_is_never_examined() {
    let r = resolve_query(None, None, Some(-100_000));
    assert_eq!(r, Err(QueryError::MissingLocation));
}

#[test]
fn address_alone_resolves_to_address_query() {
    let r = resolve_query(Some("221B Baker Street".to_string()), None, None);
    assert_eq!(
        r,
        Ok(SearchQuery::Address {
            address: "221B Baker Street".to_string()
        })
    );
}

#[test]
fn coordinates_resolve_to_coordinate_query() {
    // 51.5 degrees north, -0.1 degrees east, in micro-degrees.
    let r = resolve_query(None, Some(51_500_000), Some(-100_000));
    assert_eq!(
        r,
        Ok(SearchQuery::Coordinates {
            latitude: 51_500_000,
            longitude: -100_000
        })
    );
}

#[test]
fn coordinates_win_over_address() {
    let r = resolve_query(
        Some("221B Baker Street".to_string()),
        Some(51_500_000),
        Some(-100_000),
    );
    assert_eq!(
        r,
        Ok(SearchQuery::Coordinates {
            latitude: 51_500_000,
            longitude: -100_000
        })
    );
}

#[test]
fn nearby_defaults() {
    let p = NearbyParams::default();
    assert_eq!(p.address, None);
    assert_eq!(p.latitude, None);
    assert_eq!(p.longitude, None);
    // 1000 metres, in millionths of a metre.
    assert_eq!(p.radius, 1_000_000_000);
    assert_eq!(DEFAULT_RADIUS, 1_000_000_000);
    assert_eq!(p.type_list, "bank");
    assert_eq!(p.max_results, 10);
    assert_eq!(DEFAULT_MAX_RESULTS, 10);
}

#[test]
fn default_params_alone_fail_resolution() {
    let p = NearbyParams::default();
    let r = p.build_request();
    assert_eq!(r, Err(QueryError::MissingLocation));
}

#[test]
fn build_request_passes_everything_through() {
    let p = NearbyParams {
        address: None,
        latitude: Some(51_500_000),
        longitude: Some(-100_000),
        radius: 2_500_000_000,
        type_list: "school,typo".to_string(),
        max_results: 3,
    };
    let req = p.build_request().unwrap();
    assert_eq!(
        req.query,
        SearchQuery::Coordinates {
            latitude: 51_500_000,
            longitude: -100_000
        }
    );
    assert_eq!(
        req.service_types,
        vec![ServiceType::School, ServiceType::Landmark]
    );
    assert_eq!(req.radius, 2_500_000_000);
    assert_eq!(req.max_results, 3);
}

#[test]
fn build_request_reports_missing_longitude() {
    let p = NearbyParams {
        address: Some("somewhere".to_string()),
        latitude: Some(1),
        longitude: None,
        ..NearbyParams::default()
    };
    assert_eq!(p.build_request(), Err(QueryError::MissingLongitude));
}
