//! The query builder: turns raw CLI-level input (an optional address,
//! optional coordinates, a comma-separated amenity-type list) into a
//! validated `SearchQuery` and a list of `ServiceType`s.

use vstd::prelude::*;

use crate::models::SearchQuery;
use crate::models::ServiceType;

verus! {

/// The canonical textual tag of each amenity category, as the
/// type-list flag spells it.
pub open spec fn token_of(t: ServiceType) -> Seq<char> {
    match t {
        ServiceType::BusStop => "bus-stop"@,
        ServiceType::Market => "market"@,
        ServiceType::School => "school"@,
        ServiceType::Mall => "mall"@,
        ServiceType::Hospital => "hospital"@,
        ServiceType::Bank => "bank"@,
        ServiceType::Restaurant => "restaurant"@,
        ServiceType::FuelStation => "fuel-station"@,
        ServiceType::TrainStation => "train-station"@,
        ServiceType::TaxiStand => "taxi-stand"@,
        ServiceType::Landmark => "landmark"@,
    }
}

/// Whether `t` is the tag of some amenity category.
pub open spec fn known_token(t: Seq<char>) -> bool {
    exists|s: ServiceType| token_of(s) == t
}

/// The category a single (already trimmed) tag denotes.  Every
/// unrecognized tag deliberately falls back to `Landmark`: the
/// type-list parser is permissive by design and never fails.
pub open spec fn service_type_of(t: Seq<char>) -> ServiceType {
    if t == "bank"@ {
        ServiceType::Bank
    } else if t == "hospital"@ {
        ServiceType::Hospital
    } else if t == "school"@ {
        ServiceType::School
    } else if t == "restaurant"@ {
        ServiceType::Restaurant
    } else if t == "bus-stop"@ {
        ServiceType::BusStop
    } else if t == "market"@ {
        ServiceType::Market
    } else if t == "mall"@ {
        ServiceType::Mall
    } else if t == "fuel-station"@ {
        ServiceType::FuelStation
    } else if t == "train-station"@ {
        ServiceType::TrainStation
    } else if t == "taxi-stand"@ {
        ServiceType::TaxiStand
    } else {
        ServiceType::Landmark
    }
}

/// Law: a tag that is none of the eleven known ones maps to
/// `Landmark`, whatever it says.
pub proof fn lemma_unknown_token_is_landmark(t: Seq<char>)
    requires
        !known_token(t),
    ensures
        service_type_of(t) == ServiceType::Landmark,
{
    assert(token_of(ServiceType::Bank) != t);
    assert(token_of(ServiceType::Hospital) != t);
    assert(token_of(ServiceType::School) != t);
    assert(token_of(ServiceType::Restaurant) != t);
    assert(token_of(ServiceType::BusStop) != t);
    assert(token_of(ServiceType::Market) != t);
    assert(token_of(ServiceType::Mall) != t);
    assert(token_of(ServiceType::FuelStation) != t);
    assert(token_of(ServiceType::TrainStation) != t);
    assert(token_of(ServiceType::TaxiStand) != t);
}

/// Law: each known tag maps back to its own category, so on the
/// eleven known tags the mapping is a bijection.
pub proof fn lemma_known_token_roundtrip(t: ServiceType)
    ensures
        service_type_of(token_of(t)) == t,
{
    reveal_strlit("bus-stop");
    reveal_strlit("market");
    reveal_strlit("school");
    reveal_strlit("mall");
    reveal_strlit("hospital");
    reveal_strlit("bank");
    reveal_strlit("restaurant");
    reveal_strlit("fuel-station");
    reveal_strlit("train-station");
    reveal_strlit("taxi-stand");
    reveal_strlit("landmark");
    // The lengths and first characters below separate any two of the
    // eleven tags, which settles every comparison in service_type_of.
    assert("bus-stop"@.len() == 8 && "bus-stop"@[0] == 'b');
    assert("market"@.len() == 6 && "market"@[0] == 'm');
    assert("school"@.len() == 6 && "school"@[0] == 's');
    assert("mall"@.len() == 4 && "mall"@[0] == 'm');
    assert("hospital"@.len() == 8 && "hospital"@[0] == 'h');
    assert("bank"@.len() == 4 && "bank"@[0] == 'b');
    assert("restaurant"@.len() == 10 && "restaurant"@[0] == 'r');
    assert("fuel-station"@.len() == 12 && "fuel-station"@[0] == 'f');
    assert("train-station"@.len() == 13 && "train-station"@[0] == 't');
    assert("taxi-stand"@.len() == 10 && "taxi-stand"@[0] == 't');
    assert("landmark"@.len() == 8 && "landmark"@[0] == 'l');
    match t {
        ServiceType::BusStop => assert(service_type_of("bus-stop"@) == ServiceType::BusStop),
        ServiceType::Market => assert(service_type_of("market"@) == ServiceType::Market),
        ServiceType::School => assert(service_type_of("school"@) == ServiceType::School),
        ServiceType::Mall => assert(service_type_of("mall"@) == ServiceType::Mall),
        ServiceType::Hospital => assert(service_type_of("hospital"@) == ServiceType::Hospital),
        ServiceType::Bank => assert(service_type_of("bank"@) == ServiceType::Bank),
        ServiceType::Restaurant => assert(service_type_of("restaurant"@) == ServiceType::Restaurant),
        ServiceType::FuelStation => assert(service_type_of("fuel-station"@) == ServiceType::FuelStation),
        ServiceType::TrainStation => assert(service_type_of("train-station"@)
            == ServiceType::TrainStation),
        ServiceType::TaxiStand => assert(service_type_of("taxi-stand"@) == ServiceType::TaxiStand),
        ServiceType::Landmark => assert(service_type_of("landmark"@) == ServiceType::Landmark),
    }
}

/// Law: distinct categories have distinct tags.
pub proof fn lemma_tokens_injective(a: ServiceType, b: ServiceType)
    requires
        token_of(a) == token_of(b),
    ensures
        a == b,
{
    lemma_known_token_roundtrip(a);
    lemma_known_token_roundtrip(b);
}

/// Compares a collected tag against a literal tag, character by
/// character.
fn token_eq(tok: &Vec<char>, lit: &str) -> (r: bool)
    ensures
        r == (tok@ == lit@),
{
    let n = lit.unicode_len();
    if tok.len() != n {
        return false;
    }
    let mut i: usize = 0;
    while i < n
        invariant
            i <= n,
            n == lit@.len(),
            tok@.len() == n,
            forall|j: int| 0 <= j < i ==> tok@[j] == lit@[j],
        decreases n - i,
    {
        if tok[i] != lit.get_char(i) {
            return false;
        }
        i += 1;
    }
    proof {
        assert(tok@ =~= lit@);
    }
    true
}

/// Maps one trimmed tag to its category, falling back to `Landmark`.
fn classify_token(tok: &Vec<char>) -> (r: ServiceType)
    ensures
        r == service_type_of(tok@),
{
    if token_eq(tok, "bank") {
        ServiceType::Bank
    } else if token_eq(tok, "hospital") {
        ServiceType::Hospital
    } else if token_eq(tok, "school") {
        ServiceType::School
    } else if token_eq(tok, "restaurant") {
        ServiceType::Restaurant
    } else if token_eq(tok, "bus-stop") {
        ServiceType::BusStop
    } else if token_eq(tok, "market") {
        ServiceType::Market
    } else if token_eq(tok, "mall") {
        ServiceType::Mall
    } else if token_eq(tok, "fuel-station") {
        ServiceType::FuelStation
    } else if token_eq(tok, "train-station") {
        ServiceType::TrainStation
    } else if token_eq(tok, "taxi-stand") {
        ServiceType::TaxiStand
    } else {
        ServiceType::Landmark
    }
}

/// A locally detected input error, reported before any remote call.
#[derive(Debug, Clone, Copy, PartialEq, Eq, Structural)]
pub enum QueryError {
    /// Latitude was given without a longitude.
    MissingLongitude,
    /// Neither an address nor coordinates were given.
    MissingLocation,
}

impl QueryError {
    /// The user-facing message for this error.
    pub open spec fn spec_message(self) -> Seq<char> {
        match self {
            QueryError::MissingLongitude => "Longitude is required when latitude is provided"@,
            QueryError::MissingLocation => "Either address or coordinates must be provided"@,
        }
    }

    /// Renders the user-facing message.
    pub fn message(&self) -> (r: String)
        ensures
            r@ == self.spec_message(),
    {
        match self {
            QueryError::MissingLongitude => "Longitude is required when latitude is provided".to_owned(),
            QueryError::MissingLocation => "Either address or coordinates must be provided".to_owned(),
        }
    }
}

/// ASCII whitespace, as tag trimming recognizes it.
pub open spec fn is_space(c: char) -> bool {
    c == ' ' || c == '\t' || c == '\n' || c == '\u{b}' || c == '\u{c}' || c == '\r'
}

/// `s` without leading whitespace.
pub open spec fn trim_start(s: Seq<char>) -> Seq<char>
    decreases s.len(),
{
    if s.len() > 0 && is_space(s[0]) {
        trim_start(s.drop_first())
    } else {
        s
    }
}

/// `s` without trailing whitespace.
pub open spec fn trim_end(s: Seq<char>) -> Seq<char>
    decreases s.len(),
{
    if s.len() > 0 && is_space(s.last()) {
        trim_end(s.drop_last())
    } else {
        s
    }
}

/// `s` without leading or trailing whitespace.
pub open spec fn spec_trim(s: Seq<char>) -> Seq<char> {
    trim_end(trim_start(s))
}

/// Strips leading and trailing whitespace from a collected tag.
fn trim_token(tok: &Vec<char>) -> (r: Vec<char>)
    ensures
        r@ == spec_trim(tok@),
{
    let n = tok.len();
    proof {
        assert(tok@.skip(0) =~= tok@);
    }
    let mut start: usize = 0;
    while start < n && (tok[start] == ' ' || tok[start] == '\t' || tok[start] == '\n'
        || tok[start] == '\u{b}' || tok[start] == '\u{c}' || tok[start] == '\r')
        invariant
            start <= n,
            n == tok@.len(),
            trim_start(tok@) == trim_start(tok@.skip(start as int)),
        decreases n - start,
    {
        proof {
            assert(tok@.skip(start as int).drop_first() =~= tok@.skip(start as int + 1));
        }
        start += 1;
    }
    let ghost u = tok@.skip(start as int);
    proof {
        assert(trim_start(tok@) == u);
    }
    proof {
        assert(u.take(n - start as int) =~= u);
    }
    let mut end: usize = n;
    while end > start && (tok[end - 1] == ' ' || tok[end - 1] == '\t' || tok[end - 1] == '\n'
        || tok[end - 1] == '\u{b}' || tok[end - 1] == '\u{c}' || tok[end - 1] == '\r')
        invariant
            start <= end <= n,
            n == tok@.len(),
            u == tok@.skip(start as int),
            trim_end(u) == trim_end(u.take(end - start as int)),
        decreases end,
    {
        proof {
            let v = u.take(end - start as int);
            assert(v.last() == tok@[end - 1]);
            assert(v.drop_last() =~= u.take(end - 1 - start as int));
        }
        end -= 1;
    }
    proof {
        let v = u.take(end - start as int);
        if end > start {
            assert(v.last() == tok@[end - 1]);
        }
        assert(trim_end(v) == v);
    }
    let mut r: Vec<char> = Vec::new();
    let mut i: usize = start;
    while i < end
        invariant
            start <= i <= end <= n,
            n == tok@.len(),
            r@ == tok@.subrange(start as int, i as int),
        decreases end - i,
    {
        r.push(tok[i]);
        proof {
            assert(tok@.subrange(start as int, i as int).push(tok@[i as int]) =~= tok@.subrange(
                start as int,
                i as int + 1,
            ));
        }
        i += 1;
    }
    proof {
        assert(r@ =~= u.take(end - start as int));
    }
    r
}

/// The categories denoted by a comma-separated tag list, scanned left
/// to right with `cur` holding the characters of the tag begun so
/// far.  Every comma ends a tag; each tag is trimmed and classified,
/// an empty or unknown one becoming `Landmark`.
pub open spec fn split_types(s: Seq<char>, cur: Seq<char>) -> Seq<ServiceType>
    decreases s.len(),
{
    if s.len() == 0 {
        seq![service_type_of(spec_trim(cur))]
    } else if s[0] == ',' {
        seq![service_type_of(spec_trim(cur))] + split_types(s.drop_first(), Seq::empty())
    } else {
        split_types(s.drop_first(), cur.push(s[0]))
    }
}

/// The categories denoted by a whole comma-separated type list.
pub open spec fn service_types_of(s: Seq<char>) -> Seq<ServiceType> {
    split_types(s, Seq::empty())
}

/// Parses a comma-separated amenity-type list, e.g.
/// `"bank, hospital"`.  Tags are trimmed and matched case-sensitively
/// against the eleven known ones; anything else — a typo included —
/// silently becomes `Landmark`, so parsing never fails.
pub fn parse_service_types(s: &str) -> (r: Vec<ServiceType>)
    ensures
        r@ == service_types_of(s@),
{
    let n = s.unicode_len();
    let mut r: Vec<ServiceType> = Vec::new();
    let mut cur: Vec<char> = Vec::new();
    proof {
        assert(s@.skip(0) =~= s@);
        assert(r@ + split_types(s@, cur@) =~= split_types(s@, cur@));
    }
    let mut i: usize = 0;
    while i < n
        invariant
            i <= n,
            n == s@.len(),
            service_types_of(s@) == r@ + split_types(s@.skip(i as int), cur@),
        decreases n - i,
    {
        let c = s.get_char(i);
        proof {
            assert(s@.skip(i as int)[0] == s@[i as int]);
            assert(s@.skip(i as int).drop_first() =~= s@.skip(i as int + 1));
        }
        if c == ',' {
            let trimmed = trim_token(&cur);
            let t = classify_token(&trimmed);
            let ghost r0 = r@;
            r.push(t);
            cur = Vec::new();
            proof {
                assert(r@ =~= r0 + seq![t]);
                assert((r0 + seq![t]) + split_types(s@.skip(i as int + 1), Seq::empty()) =~= r0 + (
                seq![t] + split_types(s@.skip(i as int + 1), Seq::empty())));
            }
        } else {
            cur.push(c);
        }
        i += 1;
    }
    proof {
        assert(s@.skip(n as int) =~= Seq::<char>::empty());
    }
    let trimmed = trim_token(&cur);
    let t = classify_token(&trimmed);
    let ghost r0 = r@;
    r.push(t);
    proof {
        assert(r@ =~= r0 + seq![t]);
    }
    r
}

/// Resolves location input into a query, in the fixed priority order:
/// a given latitude demands a longitude and wins over any address; an
/// address alone is accepted as free text; otherwise nothing was
/// given.  A longitude alone is never examined, faithfully to the
/// check order.  Angles are micro-degrees.
pub fn resolve_query(address: Option<String>, latitude: Option<i64>, longitude: Option<i64>) -> (r:
    Result<SearchQuery, QueryError>)
    ensures
        match (latitude, longitude) {
            (Some(lat), Some(lon)) => r == Ok::<SearchQuery, QueryError>(
                SearchQuery::Coordinates { latitude: lat, longitude: lon },
            ),
            (Some(_), None) => r == Err::<SearchQuery, QueryError>(QueryError::MissingLongitude),
            (None, _) => match address {
                Some(a) => r == Ok::<SearchQuery, QueryError>(SearchQuery::Address { address: a }),
                None => r == Err::<SearchQuery, QueryError>(QueryError::MissingLocation),
            },
        },
{
    match latitude {
        Some(lat) => match longitude {
            Some(lon) => Ok(SearchQuery::from_coordinates(lat, lon)),
            None => Err(QueryError::MissingLongitude),
        },
        None => match address {
            Some(a) => Ok(SearchQuery::from_address(a)),
            None => Err(QueryError::MissingLocation),
        },
    }
}

/// Default search radius: 1000 metres, in millionths of a metre.
pub const DEFAULT_RADIUS: u64 = 1_000_000_000;

/// Default cap on results per service type.
pub const DEFAULT_MAX_RESULTS: usize = 10;

/// The raw nearby-search input, as the command-line flags deliver it.
/// Angles are micro-degrees, the radius millionths of a metre.
#[derive(Debug, Clone, PartialEq)]
pub struct NearbyParams {
    pub address: Option<String>,
    pub latitude: Option<i64>,
    pub longitude: Option<i64>,
    pub radius: u64,
    /// Comma-separated amenity tags.
    pub type_list: String,
    pub max_results: usize,
}

impl Default for NearbyParams {
    /// The flag defaults: a 1000 m radius, the "bank" amenity, at
    /// most ten results per service type, and no location input.
    fn default() -> (r: Self)
        ensures
            r.address is None,
            r.latitude is None,
            r.longitude is None,
            r.radius == DEFAULT_RADIUS,
            r.type_list@ == "bank"@,
            r.max_results == DEFAULT_MAX_RESULTS,
    {
        NearbyParams {
            address: None,
            latitude: None,
            longitude: None,
            radius: DEFAULT_RADIUS,
            type_list: "bank".to_owned(),
            max_results: DEFAULT_MAX_RESULTS,
        }
    }
}

/// A validated nearby-search request, ready to hand to the API
/// client.
#[derive(Debug, Clone, PartialEq)]
pub struct NearbyRequest {
    pub query: SearchQuery,
    pub service_types: Vec<ServiceType>,
    /// Millionths of a metre.
    pub radius: u64,
    pub max_results: usize,
}

impl NearbyParams {
    /// Builds the request the nearby command sends: the type list is
    /// parsed permissively, the location input is resolved in the
    /// fixed priority order, and the radius and result cap pass
    /// through unchanged.
    pub fn build_request(self) -> (r: Result<NearbyRequest, QueryError>)
        ensures
            match (self.latitude, self.longitude) {
                (Some(lat), Some(lon)) => r matches Ok(req) && req.query == (
                SearchQuery::Coordinates { latitude: lat, longitude: lon })
                    && req.service_types@ == service_types_of(self.type_list@) && req.radius
                    == self.radius && req.max_results == self.max_results,
                (Some(_), None) => r == Err::<NearbyRequest, QueryError>(
                    QueryError::MissingLongitude,
                ),
                (None, _) => match self.address {
                    Some(a) => r matches Ok(req) && req.query == (SearchQuery::Address {
                        address: a,
                    }) && req.service_types@ == service_types_of(self.type_list@) && req.radius
                        == self.radius && req.max_results == self.max_results,
                    None => r == Err::<NearbyRequest, QueryError>(QueryError::MissingLocation),
                },
            },
    {
        let NearbyParams { address, latitude, longitude, radius, type_list, max_results } = self;
        let service_types = parse_service_types(type_list.as_str());
        match resolve_query(address, latitude, longitude) {
            Ok(query) => Ok(NearbyRequest { query, service_types, radius, max_results }),
            Err(e) => Err(e),
        }
    }
}

} // verus!
