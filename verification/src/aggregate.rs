//! Aggregation of the raw feature list into typed counts and a total road
//! length.
//!
//! A feature is whatever the spatial-data source returned: an optional tag
//! mapping and, for line features, a geometry. Geometry reaches this
//! module already reduced to the great-circle lengths of its
//! consecutive-vertex segments, in millimetres (the haversine evaluation
//! on the raw coordinates happens at the caller's boundary); a feature
//! whose geometry had fewer than two points has no segments and so
//! contributes no length, exactly as the source data would.
//!
//! The category rules are the fixed taxonomy the spatial query asks for:
//! one spec predicate per category, listed together below, so the
//! aggregation loop itself never names a tag value.

use vstd::prelude::*;

verus! {

/// One key/value tag of a feature.
pub struct Tag {
    pub key: String,
    pub value: String,
}

/// One element of the spatial-data source's answer.
pub struct Feature {
    /// The tag mapping, absent when the source gave none; a feature
    /// without tags contributes to no count and no length.
    pub tags: Option<Vec<Tag>>,
    /// Great-circle lengths, in millimetres, of the consecutive-vertex
    /// segments of the feature's geometry; empty when there is no
    /// geometry of at least two points.
    pub segments_mm: Vec<u64>,
}

/// The five amenity counters of a report.
pub struct Amenities {
    pub hospitals: u32,
    pub police: u32,
    pub fire_stations: u32,
    pub schools: u32,
    pub parks: u32,
}

/// Everything aggregation yields: the amenity counters, the transit-stop
/// count, and the total road length in millimetres.
pub struct Aggregates {
    pub amenities: Amenities,
    pub transit_stops: u32,
    pub road_mm: u64,
}

/// Relies on `str`'s `PartialEq`: two string slices compare equal exactly
/// when their character sequences are equal.
#[verifier::external_body]
fn str_eq(a: &str, b: &str) -> (r: bool)
    ensures
        r == (a@ == b@),
{
    a == b
}

/// The value the tag mapping holds for `key`: the first match wins (the
/// source's mapping has each key at most once).
pub open spec fn tag_value(tags: Seq<Tag>, key: Seq<char>) -> Option<Seq<char>>
    decreases tags.len(),
{
    if tags.len() == 0 {
        None
    } else if tags[0].key@ == key {
        Some(tags[0].value@)
    } else {
        tag_value(tags.drop_first(), key)
    }
}

/// Looks a key up in a feature's tag list.
fn lookup_tag<'a>(tags: &'a Vec<Tag>, key: &str) -> (r: Option<&'a String>)
    ensures
        match r {
            Some(v) => tag_value(tags@, key@) == Some(v@),
            None => tag_value(tags@, key@) is None,
        },
{
    let n: usize = tags.len();
    let mut i: usize = 0;
    proof {
        assert(tags@.skip(0) =~= tags@);
    }
    while i < n
        invariant
            n == tags@.len(),
            i <= n,
            tag_value(tags@, key@) == tag_value(tags@.skip(i as int), key@),
        decreases n - i,
    {
        if str_eq(tags[i].key.as_str(), key) {
            assert(tags@.skip(i as int)[0] == tags@[i as int]);
            return Some(&tags[i].value);
        }
        proof {
            assert(tags@.skip(i as int)[0] == tags@[i as int]);
            assert(tags@.skip(i as int).drop_first() =~= tags@.skip(i + 1));
        }
        i = i + 1;
    }
    proof {
        assert(tags@.skip(n as int) =~= Seq::<Tag>::empty());
    }
    None
}

// --- The category taxonomy -------------------------------------------------

/// Healthcare: an "amenity" value of hospital, clinic, doctors or pharmacy.
pub open spec fn is_healthcare_value(v: Seq<char>) -> bool {
    v == "hospital"@ || v == "clinic"@ || v == "doctors"@ || v == "pharmacy"@
}

/// The tag mapping of a feature, `None` when it carries none.
pub open spec fn tags_of(f: Feature) -> Option<Seq<Tag>> {
    match f.tags {
        Some(v) => Some(v@),
        None => None,
    }
}

/// Whether the feature's "amenity" tag puts it in the given one-value
/// category.
pub open spec fn has_amenity(f: Feature, v: Seq<char>) -> bool {
    match tags_of(f) {
        Some(tags) => tag_value(tags, "amenity"@) == Some(v),
        None => false,
    }
}

/// Hospitals-and-clinics bucket.
pub open spec fn counts_hospitals(f: Feature) -> bool {
    match tags_of(f) {
        Some(tags) => match tag_value(tags, "amenity"@) {
            Some(v) => is_healthcare_value(v),
            None => false,
        },
        None => false,
    }
}

pub open spec fn counts_police(f: Feature) -> bool {
    has_amenity(f, "police"@)
}

pub open spec fn counts_fire_stations(f: Feature) -> bool {
    has_amenity(f, "fire_station"@)
}

pub open spec fn counts_schools(f: Feature) -> bool {
    has_amenity(f, "school"@)
}

/// Parks: a "leisure" tag of value park, independent of "amenity".
pub open spec fn counts_parks(f: Feature) -> bool {
    match tags_of(f) {
        Some(tags) => tag_value(tags, "leisure"@) == Some("park"@),
        None => false,
    }
}

/// Transit stop: a bus stop, a rail station/halt/stop, or a
/// public-transport stop position or platform; however many of the three
/// conditions hold, the feature is one stop.
pub open spec fn counts_transit_stop(f: Feature) -> bool {
    match tags_of(f) {
        Some(tags) => {
            ||| tag_value(tags, "highway"@) == Some("bus_stop"@)
            ||| match tag_value(tags, "railway"@) {
                Some(v) => v == "station"@ || v == "halt"@ || v == "stop"@,
                None => false,
            }
            ||| match tag_value(tags, "public_transport"@) {
                Some(v) => v == "stop_position"@ || v == "platform"@,
                None => false,
            }
        },
        None => false,
    }
}

// --- The aggregation model -------------------------------------------------

/// Sum of a feature's segment lengths.
pub open spec fn sum_mm(s: Seq<u64>) -> int
    decreases s.len(),
{
    if s.len() == 0 {
        0
    } else {
        sum_mm(s.drop_last()) + s.last()
    }
}

/// Road length a feature contributes: the sum of its segment lengths when
/// it carries a "highway" tag of any value, else nothing.
pub open spec fn road_mm_of(f: Feature) -> int {
    match tags_of(f) {
        Some(tags) => if tag_value(tags, "highway"@) is Some {
            sum_mm(f.segments_mm@)
        } else {
            0
        },
        None => 0,
    }
}

pub open spec fn agg_hospitals(s: Seq<Feature>) -> int
    decreases s.len(),
{
    if s.len() == 0 {
        0
    } else {
        agg_hospitals(s.drop_last()) + if counts_hospitals(s.last()) {
            1int
        } else {
            0int
        }
    }
}

pub open spec fn agg_police(s: Seq<Feature>) -> int
    decreases s.len(),
{
    if s.len() == 0 {
        0
    } else {
        agg_police(s.drop_last()) + if counts_police(s.last()) {
            1int
        } else {
            0int
        }
    }
}

pub open spec fn agg_fire_stations(s: Seq<Feature>) -> int
    decreases s.len(),
{
    if s.len() == 0 {
        0
    } else {
        agg_fire_stations(s.drop_last()) + if counts_fire_stations(s.last()) {
            1int
        } else {
            0int
        }
    }
}

pub open spec fn agg_schools(s: Seq<Feature>) -> int
    decreases s.len(),
{
    if s.len() == 0 {
        0
    } else {
        agg_schools(s.drop_last()) + if counts_schools(s.last()) {
            1int
        } else {
            0int
        }
    }
}

pub open spec fn agg_parks(s: Seq<Feature>) -> int
    decreases s.len(),
{
    if s.len() == 0 {
        0
    } else {
        agg_parks(s.drop_last()) + if counts_parks(s.last()) {
            1int
        } else {
            0int
        }
    }
}

pub open spec fn agg_transit_stops(s: Seq<Feature>) -> int
    decreases s.len(),
{
    if s.len() == 0 {
        0
    } else {
        agg_transit_stops(s.drop_last()) + if counts_transit_stop(s.last()) {
            1int
        } else {
            0int
        }
    }
}

pub open spec fn agg_road_mm(s: Seq<Feature>) -> int
    decreases s.len(),
{
    if s.len() == 0 {
        0
    } else {
        agg_road_mm(s.drop_last()) + road_mm_of(s.last())
    }
}

// --- Prefix bounds ---------------------------------------------------------

pub proof fn lemma_sum_mm_nonneg(s: Seq<u64>)
    ensures
        sum_mm(s) >= 0,
    decreases s.len(),
{
    if s.len() > 0 {
        lemma_sum_mm_nonneg(s.drop_last());
    }
}

/// A prefix of the segment list never sums to more than the whole.
pub proof fn lemma_sum_mm_take(s: Seq<u64>, i: int)
    requires
        0 <= i <= s.len(),
    ensures
        sum_mm(s.take(i)) <= sum_mm(s),
    decreases s.len() - i,
{
    if i == s.len() {
        assert(s.take(i) =~= s);
    } else {
        lemma_sum_mm_take(s, i + 1);
        assert(s.take(i + 1).drop_last() =~= s.take(i));
        assert(s.take(i + 1).last() == s[i]);
    }
}

pub proof fn lemma_road_mm_of_nonneg(f: Feature)
    ensures
        road_mm_of(f) >= 0,
{
    lemma_sum_mm_nonneg(f.segments_mm@);
}

pub proof fn lemma_agg_road_mm_nonneg(s: Seq<Feature>)
    ensures
        agg_road_mm(s) >= 0,
    decreases s.len(),
{
    if s.len() > 0 {
        lemma_agg_road_mm_nonneg(s.drop_last());
        lemma_road_mm_of_nonneg(s.last());
    }
}

/// A prefix of the feature list never contributes more road length than
/// the whole list.
pub proof fn lemma_agg_road_mm_take(s: Seq<Feature>, i: int)
    requires
        0 <= i <= s.len(),
    ensures
        agg_road_mm(s.take(i)) <= agg_road_mm(s),
    decreases s.len() - i,
{
    if i == s.len() {
        assert(s.take(i) =~= s);
    } else {
        lemma_agg_road_mm_take(s, i + 1);
        assert(s.take(i + 1).drop_last() =~= s.take(i));
        assert(s.take(i + 1).last() == s[i]);
        lemma_road_mm_of_nonneg(s[i]);
    }
}

// --- The aggregation loop --------------------------------------------------

/// Consumes the raw feature list and produces the typed counts and the
/// total road length. A feature may hit at most one "amenity" bucket and,
/// independently, the parks bucket; the transit decision is independent of
/// the road-length one; features without tags are ignored entirely.
pub fn aggregate(features: &Vec<Feature>) -> (r: Aggregates)
    requires
        features@.len() < 4_294_967_296,
        agg_road_mm(features@) <= u64::MAX,
    ensures
        r.amenities.hospitals == agg_hospitals(features@),
        r.amenities.police == agg_police(features@),
        r.amenities.fire_stations == agg_fire_stations(features@),
        r.amenities.schools == agg_schools(features@),
        r.amenities.parks == agg_parks(features@),
        r.transit_stops == agg_transit_stops(features@),
        r.road_mm == agg_road_mm(features@),
{
    let ghost s = features@;
    let n: usize = features.len();
    let mut hospitals: u32 = 0;
    let mut police: u32 = 0;
    let mut fire_stations: u32 = 0;
    let mut schools: u32 = 0;
    let mut parks: u32 = 0;
    let mut transit_stops: u32 = 0;
    let mut road_mm: u64 = 0;
    let mut i: usize = 0;
    while i < n
        invariant
            n == s.len(),
            s == features@,
            s.len() < 4_294_967_296,
            agg_road_mm(s) <= u64::MAX,
            i <= n,
            hospitals as int == agg_hospitals(s.take(i as int)),
            police as int == agg_police(s.take(i as int)),
            fire_stations as int == agg_fire_stations(s.take(i as int)),
            schools as int == agg_schools(s.take(i as int)),
            parks as int == agg_parks(s.take(i as int)),
            transit_stops as int == agg_transit_stops(s.take(i as int)),
            road_mm as int == agg_road_mm(s.take(i as int)),
            hospitals as int <= i,
            police as int <= i,
            fire_stations as int <= i,
            schools as int <= i,
            parks as int <= i,
            transit_stops as int <= i,
        decreases n - i,
    {
        let f = &features[i];
        proof {
            assert(s.take(i + 1).drop_last() =~= s.take(i as int));
            assert(s.take(i + 1).last() == s[i as int]);
            lemma_agg_road_mm_take(s, i + 1);
            lemma_agg_road_mm_nonneg(s.take(i as int));
            lemma_road_mm_of_nonneg(s[i as int]);
        }
        if let Some(tags) = &f.tags {
            if let Some(v) = lookup_tag(tags, "amenity") {
                let v = v.as_str();
                if str_eq(v, "hospital") || str_eq(v, "clinic") || str_eq(v, "doctors") || str_eq(
                    v,
                    "pharmacy",
                ) {
                    hospitals = hospitals + 1;
                }
                if str_eq(v, "police") {
                    police = police + 1;
                }
                if str_eq(v, "fire_station") {
                    fire_stations = fire_stations + 1;
                }
                if str_eq(v, "school") {
                    schools = schools + 1;
                }
            }
            if let Some(v) = lookup_tag(tags, "leisure") {
                if str_eq(v.as_str(), "park") {
                    parks = parks + 1;
                }
            }
            let is_road: bool = lookup_tag(tags, "highway").is_some();
            if is_road {
                let segs = &f.segments_mm;
                let m: usize = segs.len();
                let mut j: usize = 0;
                while j < m
                    invariant
                        m == segs@.len(),
                        segs@ == s[i as int].segments_mm@,
                        j <= m,
                        is_road,
                        road_mm_of(s[i as int]) == sum_mm(segs@),
                        agg_road_mm(s.take(i as int)) + sum_mm(segs@) <= u64::MAX,
                        agg_road_mm(s.take(i as int)) >= 0,
                        road_mm as int == agg_road_mm(s.take(i as int)) + sum_mm(
                            segs@.take(j as int),
                        ),
                    decreases m - j,
                {
                    proof {
                        assert(segs@.take(j + 1).drop_last() =~= segs@.take(j as int));
                        assert(segs@.take(j + 1).last() == segs@[j as int]);
                        lemma_sum_mm_take(segs@, j + 1);
                        lemma_sum_mm_nonneg(segs@.take(j as int));
                    }
                    road_mm = road_mm + segs[j];
                    j = j + 1;
                }
                proof {
                    assert(segs@.take(m as int) =~= segs@);
                }
            }
            let is_bus_stop: bool = match lookup_tag(tags, "highway") {
                Some(v) => str_eq(v.as_str(), "bus_stop"),
                None => false,
            };
            let is_rail_stop: bool = match lookup_tag(tags, "railway") {
                Some(v) => {
                    let v = v.as_str();
                    str_eq(v, "station") || str_eq(v, "halt") || str_eq(v, "stop")
                },
                None => false,
            };
            let is_pt_stop: bool = match lookup_tag(tags, "public_transport") {
                Some(v) => {
                    let v = v.as_str();
                    str_eq(v, "stop_position") || str_eq(v, "platform")
                },
                None => false,
            };
            if is_bus_stop || is_rail_stop || is_pt_stop {
                transit_stops = transit_stops + 1;
            }
        }
        i = i + 1;
    }
    proof {
        assert(s.take(n as int) =~= s);
    }
    Aggregates {
        amenities: Amenities { hospitals, police, fire_stations, schools, parks },
        transit_stops,
        road_mm,
    }
}

} // verus!
