use mapradar::models::GeoLocation;
use mapradar::models::LocationIntelligence;
use mapradar::models::NearbyService;
use mapradar::models::SearchQuery;
use mapradar::models::ServiceType;

fn sample_location() -> GeoLocation {
    GeoLocation {
        address: "221B Baker Street, London".to_string(),
        latitude: 51_523_700,
        longitude: -158_500,
        city: Some("London".to_string()),
        state: None,
        country: "United Kingdom".to_string(),
    }
}

fn sample_service(name: &str) -> NearbyService {
    NearbyService {
        name: name.to_string(),
        service_type: ServiceType::Bank,
        latitude: 51_523_000,
        longitude: -158_000,
        distance_km: 350_000,
        address: None,
        rating: Some(4_300_000),
        place_id: Some("abc123".to_string()),
    }
}

#[test]
fn intelligence_counts_empty_list() {
    let intel = LocationIntelligence::new(sample_location(), vec![]);
    assert_eq!(intel.total_services_found, 0);
    assert_eq!(intel.nearby_services.len(), 0);
}

#[test]
fn intelligence_counts_services() {
    let services = vec![sample_service("a"), sample_service("b"), sample_service("c")];
    let intel = LocationIntelligence::new(sample_location(), services.clone());
    assert_eq!(intel.total_services_found, 3);
    assert_eq!(intel.total_services_found, intel.nearby_services.len());
    assert_eq!(intel.nearby_services, services);
    assert_eq!(intel.location, sample_location());
}

#[test]
fn from_address_selects_address_variant() {
    let q = SearchQuery::from_address("221B Baker Street".to_string());
    assert_eq!(
        q,
        SearchQuery::Address {
            address: "221B Baker Street".to_string()
        }
    );
}

#[test]
fn from_coordinates_selects_coordinate_variant() {
    let q = SearchQuery::from_coordinates(51_500_000, -100_000);
    assert_eq!(
        q,
        SearchQuery::Coordinates {
            latitude: 51_500_000,
            longitude: -100_000
        }
    );
}
