//! Core domain types: resolved locations, amenity hits, the
//! intelligence bundle, and the search query union.
//!
//! Geographic angles are stored in millionths of a degree
//! (micro-degrees): latitude 51.5 is held as `51_500_000`.  Distances
//! are millionths of a kilometre, ratings millionths of a star.  The
//! fixed-point representation keeps the model in exact integer
//! arithmetic; conversion to and from floating point belongs to the
//! I/O boundary, not to the library.

use vstd::prelude::*;

verus! {

/// A resolved place, as returned by geocoding or reverse geocoding.
#[derive(Debug, Clone, PartialEq)]
pub struct GeoLocation {
    pub address: String,
    /// Micro-degrees north.
    pub latitude: i64,
    /// Micro-degrees east.
    pub longitude: i64,
    pub city: Option<String>,
    pub state: Option<String>,
    pub country: String,
}

/// The closed set of amenity categories a nearby search understands.
///
/// Free-text input maps onto this enumeration permissively: any
/// unrecognized tag falls back to `Landmark` (see `crate::query`).
#[derive(Debug, Clone, Copy, PartialEq, Eq, Structural)]
pub enum ServiceType {
    BusStop,
    Market,
    School,
    Mall,
    Hospital,
    Bank,
    Restaurant,
    FuelStation,
    TrainStation,
    TaxiStand,
    Landmark,
}

/// One amenity found near a location.
#[derive(Debug, Clone, PartialEq)]
pub struct NearbyService {
    pub name: String,
    pub service_type: ServiceType,
    /// Micro-degrees north.
    pub latitude: i64,
    /// Micro-degrees east.
    pub longitude: i64,
    /// Millionths of a kilometre; non-negative by construction.
    pub distance_km: u64,
    pub address: Option<String>,
    /// Millionths of a star, conventionally at most `5_000_000`.
    pub rating: Option<u32>,
    pub place_id: Option<String>,
}

/// A location together with the amenities found around it.
#[derive(Debug, Clone, PartialEq)]
pub struct LocationIntelligence {
    pub location: GeoLocation,
    pub nearby_services: Vec<NearbyService>,
    pub total_services_found: usize,
}

impl LocationIntelligence {
    /// The bundle's invariant: the stored count never drifts from the
    /// length of the service list.
    pub open spec fn wf(self) -> bool {
        self.total_services_found == self.nearby_services@.len()
    }

    /// Builds a bundle, deriving `total_services_found` from the list
    /// itself so the count can never be supplied independently.
    pub fn new(location: GeoLocation, nearby_services: Vec<NearbyService>) -> (r: Self)
        ensures
            r.location == location,
            r.nearby_services == nearby_services,
            r.total_services_found == nearby_services@.len(),
            r.wf(),
    {
        let total: usize = nearby_services.len();
        LocationIntelligence { location, nearby_services, total_services_found: total }
    }
}

/// A search query: either a free-text address or a coordinate pair,
/// never both and never neither.
#[derive(Debug, Clone, PartialEq)]
pub enum SearchQuery {
    Address { address: String },
    Coordinates { latitude: i64, longitude: i64 },
}

impl SearchQuery {
    /// Selects the address variant.
    pub fn from_address(address: String) -> (r: Self)
        ensures
            r == (SearchQuery::Address { address }),
    {
        SearchQuery::Address { address }
    }

    /// Selects the coordinate variant; angles are micro-degrees.
    pub fn from_coordinates(latitude: i64, longitude: i64) -> (r: Self)
        ensures
            r == (SearchQuery::Coordinates { latitude, longitude }),
    {
        SearchQuery::Coordinates { latitude, longitude }
    }
}

} // verus!
