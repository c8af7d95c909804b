use urban_region::aggregate::aggregate;
use urban_region::aggregate::Amenities;
use urban_region::aggregate::Feature;
use urban_region::aggregate::Tag;
use urban_region::errors::AnalysisError;
use urban_region::geo::approx_area_cents;
use urban_region::geo::normalize_bounds;
use urban_region::lookup::plan_lookup;
use urban_region::lookup::LookupPlan;
use urban_region::metrics::infra_score;
use urban_region::metrics::population_from_area;
use urban_region::metrics::transport_metrics;
use urban_region::query::build_overpass_query;
use urban_region::report::build_report;

fn tagged(pairs: &[(&str, &str)]) -> Option<Vec<Tag>> {
    Some(
        pairs
            .iter()
            .map(|(k, v)| Tag { key: k.to_string(), value: v.to_string() })
            .collect(),
    )
}

fn feature(tags: Option<Vec<Tag>>, segments_mm: Vec<u64>) -> Feature {
    Feature { tags, segments_mm }
}

#[test]
fn population_projection_formula() {
    // 4 km² at 2500 people/km² gives exactly 10000 people.
    let p = population_from_area(400);
    assert_eq!(p.current, 10000);
    assert_eq!(p.growth_rate_tenth_pct, 25);
    assert_eq!(p.projected_5_year, 11314);
    assert_eq!(p.projected_10_year, 12801);
}

#[test]
fn population_of_zero_area_is_zero() {
    let p = population_from_area(0);
    assert_eq!(p.current, 0);
    assert_eq!(p.projected_5_year, 0);
    assert_eq!(p.projected_10_year, 0);
}

#[test]
fn area_of_tenth_degree_box_at_equator() {
    // Corners (0,0) and (0.1,0.1): mean latitude 0.05 degrees, whose cosine
    // is 0.999999619; the two-decimal area is 123.92 km², within a cent of
    // the idealized 0.1·111.32 · 0.1·111.3157 product.
    let cents = approx_area_cents(0, 0, 100_000, 100_000, 999_999_619);
    assert!((12392..=12393).contains(&cents), "area was {cents}");
}

#[test]
fn area_is_symmetric_in_the_corners() {
    let a = approx_area_cents(52_500_000, 13_400_000, 52_520_000, 13_440_000, 608_761_429);
    let b = approx_area_cents(52_520_000, 13_440_000, 52_500_000, 13_400_000, 608_761_429);
    assert_eq!(a, b);

    let n1 = normalize_bounds(&vec![vec![10, 20], vec![-5, 30]]).unwrap();
    let n2 = normalize_bounds(&vec![vec![-5, 30], vec![10, 20]]).unwrap();
    assert_eq!(n1.min_lat_udeg, n2.min_lat_udeg);
    assert_eq!(n1.min_lng_udeg, n2.min_lng_udeg);
    assert_eq!(n1.max_lat_udeg, n2.max_lat_udeg);
    assert_eq!(n1.max_lng_udeg, n2.max_lng_udeg);
    assert_eq!(n1.min_lat_udeg, -5);
    assert_eq!(n1.max_lat_udeg, 10);
    assert_eq!(n1.min_lng_udeg, 20);
    assert_eq!(n1.max_lng_udeg, 30);
}

#[test]
fn degenerate_box_has_zero_area() {
    let cents = approx_area_cents(7_000_000, 8_000_000, 7_000_000, 8_500_000, 992_546_152);
    assert_eq!(cents, 0);
}

#[test]
fn malformed_corners_are_invalid_bounds() {
    assert!(matches!(
        normalize_bounds(&vec![vec![1, 2]]),
        Err(AnalysisError::InvalidBounds)
    ));
    assert!(matches!(
        normalize_bounds(&vec![vec![1, 2, 3], vec![4, 5]]),
        Err(AnalysisError::InvalidBounds)
    ));
    assert!(matches!(
        normalize_bounds(&vec![vec![1, 2], vec![4]]),
        Err(AnalysisError::InvalidBounds)
    ));
    assert!(normalize_bounds(&vec![vec![1, 2], vec![3, 4]]).is_ok());
}

#[test]
fn hospital_without_geometry_counts_once() {
    let feats = vec![feature(tagged(&[("amenity", "hospital")]), vec![])];
    let agg = aggregate(&feats);
    assert_eq!(agg.amenities.hospitals, 1);
    assert_eq!(agg.amenities.police, 0);
    assert_eq!(agg.amenities.fire_stations, 0);
    assert_eq!(agg.amenities.schools, 0);
    assert_eq!(agg.amenities.parks, 0);
    assert_eq!(agg.transit_stops, 0);
    assert_eq!(agg.road_mm, 0);
}

#[test]
fn healthcare_values_share_one_bucket() {
    let feats = vec![
        feature(tagged(&[("amenity", "clinic")]), vec![]),
        feature(tagged(&[("amenity", "doctors")]), vec![]),
        feature(tagged(&[("amenity", "pharmacy")]), vec![]),
        feature(tagged(&[("amenity", "school")]), vec![]),
        feature(tagged(&[("amenity", "police")]), vec![]),
        feature(tagged(&[("amenity", "fire_station")]), vec![]),
        feature(tagged(&[("leisure", "park")]), vec![]),
        feature(None, vec![]),
    ];
    let agg = aggregate(&feats);
    assert_eq!(agg.amenities.hospitals, 3);
    assert_eq!(agg.amenities.schools, 1);
    assert_eq!(agg.amenities.police, 1);
    assert_eq!(agg.amenities.fire_stations, 1);
    assert_eq!(agg.amenities.parks, 1);
    assert_eq!(agg.transit_stops, 0);
}

#[test]
fn amenity_and_leisure_are_independent() {
    let feats = vec![feature(tagged(&[("amenity", "school"), ("leisure", "park")]), vec![])];
    let agg = aggregate(&feats);
    assert_eq!(agg.amenities.schools, 1);
    assert_eq!(agg.amenities.parks, 1);
}

#[test]
fn highway_geometry_sums_segment_lengths() {
    // A residential way whose three-point geometry was reduced to two
    // segment lengths: both are added, and the way is no transit stop.
    let feats = vec![feature(
        tagged(&[("highway", "residential")]),
        vec![1_250_000, 2_750_000],
    )];
    let agg = aggregate(&feats);
    assert_eq!(agg.road_mm, 4_000_000);
    assert_eq!(agg.transit_stops, 0);
    assert_eq!(agg.amenities.hospitals, 0);
}

#[test]
fn untagged_geometry_adds_no_length() {
    let feats = vec![feature(None, vec![9_999_999])];
    let agg = aggregate(&feats);
    assert_eq!(agg.road_mm, 0);
}

#[test]
fn bus_stop_is_transit_and_not_road_length() {
    let feats = vec![feature(tagged(&[("highway", "bus_stop")]), vec![])];
    let agg = aggregate(&feats);
    assert_eq!(agg.transit_stops, 1);
    assert_eq!(agg.road_mm, 0);
}

#[test]
fn multiple_stop_conditions_count_once() {
    let feats = vec![
        feature(
            tagged(&[("highway", "bus_stop"), ("railway", "station"), ("public_transport", "platform")]),
            vec![],
        ),
        feature(tagged(&[("railway", "halt")]), vec![]),
        feature(tagged(&[("railway", "stop")]), vec![]),
        feature(tagged(&[("public_transport", "stop_position")]), vec![]),
        feature(tagged(&[("railway", "yard")]), vec![]),
    ];
    let agg = aggregate(&feats);
    assert_eq!(agg.transit_stops, 4);
}

#[test]
fn infra_score_exact_average() {
    // 10 km² (normalized unit 1): one hospital of an ideal two scores 50,
    // one police station scores 100, no fire station scores 0, five
    // schools hit the ideal and score 100; the average 62.5 rounds to 63.
    let counts = Amenities { hospitals: 1, police: 1, fire_stations: 0, schools: 5, parks: 9 };
    assert_eq!(infra_score(1000, &counts), 63);
}

#[test]
fn infra_score_caps_at_one_hundred() {
    let counts = Amenities {
        hospitals: 4_000_000_000,
        police: 4_000_000_000,
        fire_stations: 4_000_000_000,
        schools: 4_000_000_000,
        parks: 0,
    };
    assert_eq!(infra_score(1, &counts), 100);
    let none = Amenities { hospitals: 0, police: 0, fire_stations: 0, schools: 0, parks: 0 };
    assert_eq!(infra_score(1000, &none), 0);
}

#[test]
fn transport_rounds_half_up() {
    // 0.25 km of road: the one-decimal total rounds 2.5 tenths up to 3;
    // over 1 km² the density 0.25 is exact at two decimals.
    let t = transport_metrics(250_000, 100, 7);
    assert_eq!(t.road_km_tenths, 3);
    assert_eq!(t.road_density_cents, 25);
    assert_eq!(t.transit_stops, 7);
}

#[test]
fn density_uses_unrounded_total() {
    // 0.04 km of road rounds to 0.0 km for display, but the density over
    // 1 km² still comes from the unrounded total: 0.04 km/km².
    let t = transport_metrics(40_000, 100, 0);
    assert_eq!(t.road_km_tenths, 0);
    assert_eq!(t.road_density_cents, 4);
}

#[test]
fn degenerate_box_zeroes_derived_metrics() {
    let feats = vec![
        feature(tagged(&[("amenity", "hospital")]), vec![]),
        feature(tagged(&[("highway", "primary")]), vec![5_000_000]),
    ];
    let report = build_report(0, &feats);
    assert_eq!(report.infra_score, 0);
    assert_eq!(report.population.current, 0);
    assert_eq!(report.transport.road_density_cents, 0);
    // Counting itself is unaffected by the degenerate area.
    assert_eq!(report.amenities.hospitals, 1);
    assert_eq!(report.transport.road_km_tenths, 50);
}

#[test]
fn empty_feature_collection_round_trip() {
    let report = build_report(12_345, &vec![]);
    assert_eq!(report.area_cents, 12_345);
    assert_eq!(report.amenities.hospitals, 0);
    assert_eq!(report.amenities.police, 0);
    assert_eq!(report.amenities.fire_stations, 0);
    assert_eq!(report.amenities.schools, 0);
    assert_eq!(report.amenities.parks, 0);
    assert_eq!(report.infra_score, 0);
    assert_eq!(report.transport.road_km_tenths, 0);
    assert_eq!(report.transport.road_density_cents, 0);
    assert_eq!(report.transport.transit_stops, 0);
    // Population depends on the area alone.
    assert_eq!(report.population.current, 12_345 * 25);
}

#[test]
fn blank_lookup_is_short_circuited() {
    assert!(matches!(plan_lookup(""), LookupPlan::Empty));
    assert!(matches!(plan_lookup("   "), LookupPlan::Empty));
    assert!(matches!(plan_lookup(" \t\r\n "), LookupPlan::Empty));
}

#[test]
fn lookup_url_encodes_the_query() {
    match plan_lookup("new york") {
        LookupPlan::Fetch(url) => assert_eq!(
            url,
            "https://nominatim.openstreetmap.org/search?format=json&q=new%20york&limit=5&addressdetails=0"
        ),
        LookupPlan::Empty => panic!("non-blank query must be fetched"),
    }
    match plan_lookup("a") {
        LookupPlan::Fetch(url) => assert_eq!(
            url,
            "https://nominatim.openstreetmap.org/search?format=json&q=a&limit=5&addressdetails=0"
        ),
        LookupPlan::Empty => panic!("non-blank query must be fetched"),
    }
}

#[test]
fn query_asks_for_every_category() {
    let q = build_overpass_query("1,2,3,4");
    let mut expected = String::from("[out:json][timeout:30];\n(\n");
    for filter in [
        "[\"amenity\"~\"hospital|clinic|doctors|pharmacy\"]",
        "[\"amenity\"=\"police\"]",
        "[\"amenity\"=\"fire_station\"]",
        "[\"amenity\"=\"school\"]",
        "[\"leisure\"=\"park\"]",
    ] {
        for kind in ["node", "way", "relation"] {
            expected.push_str(&format!("{kind}{filter}(1,2,3,4);\n"));
        }
    }
    expected.push_str("way[\"highway\"](1,2,3,4);\n");
    for filter in [
        "[\"highway\"=\"bus_stop\"]",
        "[\"railway\"~\"station|halt|stop\"]",
        "[\"public_transport\"~\"stop_position|platform\"]",
    ] {
        for kind in ["node", "way"] {
            expected.push_str(&format!("{kind}{filter}(1,2,3,4);\n"));
        }
    }
    expected.push_str(");\nout body geom;\n");
    assert_eq!(q, expected);
}
