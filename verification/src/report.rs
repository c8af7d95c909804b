//! The aggregate root of one analysis: area, amenity counts, population
//! estimate, infrastructure score and transport summary, assembled from
//! the aggregated feature list. A report is built once per request and
//! has no lifecycle beyond the single response.

use vstd::prelude::*;
use crate::aggregate::Aggregates;
use crate::aggregate::Amenities;
use crate::aggregate::Feature;
use crate::aggregate::agg_fire_stations;
use crate::aggregate::agg_hospitals;
use crate::aggregate::agg_parks;
use crate::aggregate::agg_police;
use crate::aggregate::agg_road_mm;
use crate::aggregate::agg_schools;
use crate::aggregate::agg_transit_stops;
use crate::aggregate::aggregate;
use crate::geo::AREA_CENTS_LIMIT;
use crate::metrics::PopulationEstimate;
use crate::metrics::TransportMetrics;
use crate::metrics::current_population_spec;
use crate::metrics::infra_score;
use crate::metrics::infra_score_spec;
use crate::metrics::population_from_area;
use crate::metrics::projected_10_spec;
use crate::metrics::projected_5_spec;
use crate::metrics::road_density_cents_spec;
use crate::metrics::road_km_tenths_spec;
use crate::metrics::transport_metrics;

verus! {

/// One region's full report. The area is in hundredths of km², as the
/// two-decimal display value.
pub struct RegionReport {
    pub area_cents: i64,
    pub amenities: Amenities,
    pub population: PopulationEstimate,
    pub infra_score: u32,
    pub transport: TransportMetrics,
}

/// The report that a given area and feature list determine.
pub open spec fn report_spec(area_cents: i64, features: Seq<Feature>) -> RegionReport {
    RegionReport {
        area_cents,
        amenities: Amenities {
            hospitals: agg_hospitals(features) as u32,
            police: agg_police(features) as u32,
            fire_stations: agg_fire_stations(features) as u32,
            schools: agg_schools(features) as u32,
            parks: agg_parks(features) as u32,
        },
        population: PopulationEstimate {
            current: current_population_spec(area_cents as int) as i64,
            growth_rate_tenth_pct: 25,
            projected_5_year: projected_5_spec(current_population_spec(area_cents as int)) as i64,
            projected_10_year: projected_10_spec(current_population_spec(area_cents as int)) as i64,
        },
        infra_score: infra_score_spec(
            area_cents as int,
            agg_hospitals(features),
            agg_police(features),
            agg_fire_stations(features),
            agg_schools(features),
        ) as u32,
        transport: TransportMetrics {
            road_km_tenths: road_km_tenths_spec(agg_road_mm(features)) as u64,
            road_density_cents: road_density_cents_spec(
                agg_road_mm(features),
                area_cents as int,
            ) as u64,
            transit_stops: agg_transit_stops(features) as u32,
        },
    }
}

/// Aggregates the feature list and derives every metric of the report.
/// Aggregation either fully succeeds — an empty list yields all-zero
/// counts — or the request failed before this point; no partial report
/// exists.
pub fn build_report(area_cents: i64, features: &Vec<Feature>) -> (r: RegionReport)
    requires
        -AREA_CENTS_LIMIT <= area_cents <= AREA_CENTS_LIMIT,
        features@.len() < 4_294_967_296,
        agg_road_mm(features@) <= u64::MAX,
    ensures
        r == report_spec(area_cents, features@),
{
    let agg: Aggregates = aggregate(features);
    let population = population_from_area(area_cents);
    let score: u32 = infra_score(area_cents, &agg.amenities);
    let transport = transport_metrics(agg.road_mm, area_cents, agg.transit_stops);
    RegionReport {
        area_cents,
        amenities: agg.amenities,
        population,
        infra_score: score,
        transport,
    }
}

/// Analyzing the same region with its two corners swapped yields the
/// identical report: the area is symmetric in the corners (and so are the
/// normalized bounds, hence the query and the features that come back),
/// and every other field is derived from area and features alone.
pub proof fn lemma_analysis_swap(
    lat1: i64,
    lng1: i64,
    lat2: i64,
    lng2: i64,
    cos_scaled: i64,
    area_ab: i64,
    area_ba: i64,
    features: Seq<Feature>,
)
    requires
        area_ab == crate::geo::area_cents_spec(lat1, lng1, lat2, lng2, cos_scaled),
        area_ba == crate::geo::area_cents_spec(lat2, lng2, lat1, lng1, cos_scaled),
    ensures
        report_spec(area_ab, features) == report_spec(area_ba, features),
{
    crate::geo::lemma_area_swap(lat1, lng1, lat2, lng2, cos_scaled);
}

/// A degenerate box: with area zero the infrastructure score, the current
/// population and the road density are all zero, whatever features came
/// back.
pub proof fn lemma_degenerate_region(features: Seq<Feature>)
    ensures
        report_spec(0, features).infra_score == 0,
        report_spec(0, features).population.current == 0,
        report_spec(0, features).transport.road_density_cents == 0,
{
}

/// An empty feature collection yields a report in which every count and
/// every transport metric is zero; only the area and the population,
/// which depend on the area alone, can differ from zero.
pub proof fn lemma_empty_feature_list(area_cents: i64)
    requires
        -AREA_CENTS_LIMIT <= area_cents <= AREA_CENTS_LIMIT,
    ensures
        report_spec(area_cents, Seq::<Feature>::empty()).amenities == (Amenities {
            hospitals: 0u32,
            police: 0u32,
            fire_stations: 0u32,
            schools: 0u32,
            parks: 0u32,
        }),
        report_spec(area_cents, Seq::<Feature>::empty()).transport.transit_stops == 0,
        report_spec(area_cents, Seq::<Feature>::empty()).transport.road_km_tenths == 0,
        report_spec(area_cents, Seq::<Feature>::empty()).transport.road_density_cents == 0,
        report_spec(area_cents, Seq::<Feature>::empty()).area_cents == area_cents,
        report_spec(area_cents, Seq::<Feature>::empty()).population.current
            == current_population_spec(area_cents as int),
{
    let e = Seq::<Feature>::empty();
    assert(agg_road_mm(e) == 0);
    assert(road_km_tenths_spec(0) == 0) by {
        vstd::arithmetic::div_mod::lemma_fundamental_div_mod_converse(100000, 200000, 0, 100000);
    }
    if area_cents > 0 {
        let a = area_cents as int;
        assert(road_density_cents_spec(0, a) == 0) by {
            vstd::arithmetic::div_mod::lemma_fundamental_div_mod_converse(
                100 * a,
                200 * a,
                0,
                100 * a,
            );
        }
    }
}

} // verus!
