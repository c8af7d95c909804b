//! Derived metrics: the population model, the infrastructure score and
//! the transport summary.
//!
//! Every formula is exact rational arithmetic on the fixed-point inputs.
//! The annual growth factor 1.025 is the rational 41/40, so the five- and
//! ten-year projections are `round(current · 41^N / 40^N)`; the category
//! scores of the infrastructure formula are rationals with the area as
//! denominator, compared and averaged without loss.

use vstd::prelude::*;
use vstd::arithmetic::div_mod::lemma_div_is_ordered;
use vstd::arithmetic::div_mod::lemma_fundamental_div_mod_converse;
use crate::aggregate::Amenities;
use crate::geo::AREA_CENTS_LIMIT;
use crate::num::round_div_away;
use crate::num::round_div_up;
use crate::num::round_i128;
use crate::num::round_u128;
use crate::num::lemma_round_div_up_bound;

verus! {

/// 41^5 and 40^5: the five-year growth factor 1.025^5 as a fraction.
pub const GROWTH_NUM_5: i128 = 115_856_201;

pub const GROWTH_DEN_5: i128 = 102_400_000;

/// 41^10 and 40^10: the ten-year factor.
pub const GROWTH_NUM_10: i128 = 13_422_659_310_152_401;

pub const GROWTH_DEN_10: i128 = 10_485_760_000_000_000;

/// The population estimate of a report. The growth rate is fixed at 2.5 %
/// a year, held in tenths of a percent.
pub struct PopulationEstimate {
    pub current: i64,
    pub growth_rate_tenth_pct: u32,
    pub projected_5_year: i64,
    pub projected_10_year: i64,
}

/// The transport summary of a report: total road length in tenths of a
/// kilometre (the one-decimal display value), road density in hundredths
/// of a km per km² (two decimals), and the transit-stop count.
pub struct TransportMetrics {
    pub road_km_tenths: u64,
    pub road_density_cents: u64,
    pub transit_stops: u32,
}

/// `round(area · 2500)` at 2500 people per km²: with the area in
/// hundredths of km² the product is exact, `area_cents · 25`.
pub open spec fn current_population_spec(area_cents: int) -> int {
    area_cents * 25
}

pub open spec fn projected_5_spec(current: int) -> int {
    round_div_away(current * GROWTH_NUM_5, GROWTH_DEN_5 as int)
}

pub open spec fn projected_10_spec(current: int) -> int {
    round_div_away(current * GROWTH_NUM_10, GROWTH_DEN_10 as int)
}

/// Derives the population estimate from the (already rounded) area.
pub fn population_from_area(area_cents: i64) -> (p: PopulationEstimate)
    requires
        -AREA_CENTS_LIMIT <= area_cents <= AREA_CENTS_LIMIT,
    ensures
        p.current == current_population_spec(area_cents as int),
        p.growth_rate_tenth_pct == 25,
        p.projected_5_year == projected_5_spec(p.current as int),
        p.projected_10_year == projected_10_spec(p.current as int),
{
    let current: i64 = area_cents * 25;
    let n5: i128 = current as i128 * GROWTH_NUM_5;
    let r5: i128 = round_i128(n5, GROWTH_DEN_5);
    let n10: i128 = current as i128 * GROWTH_NUM_10;
    let r10: i128 = round_i128(n10, GROWTH_DEN_10);
    proof {
        let b5: int = 250_000_000_000_000_000int * 115_856_201;
        if n5 >= 0 {
            lemma_round_div_up_bound(n5 as int, GROWTH_DEN_5 as int, b5);
        } else {
            lemma_round_div_up_bound(-(n5 as int), GROWTH_DEN_5 as int, b5);
        }
        let b10: int = 250_000_000_000_000_000int * 13_422_659_310_152_401;
        if n10 >= 0 {
            lemma_round_div_up_bound(n10 as int, GROWTH_DEN_10 as int, b10);
        } else {
            lemma_round_div_up_bound(-(n10 as int), GROWTH_DEN_10 as int, b10);
        }
    }
    PopulationEstimate {
        current,
        growth_rate_tenth_pct: 25,
        projected_5_year: r5 as i64,
        projected_10_year: r10 as i64,
    }
}

pub open spec fn min_int(a: int, b: int) -> int {
    if a <= b {
        a
    } else {
        b
    }
}

/// Numerator, over the denominator `area_cents`, of one category's capped
/// score `min(100, count / (target · normalized) · 100)`: with
/// `normalized = area_cents / 1000`, the uncapped score is
/// `count · (100000 / target) / area_cents`.
pub open spec fn category_score_num(count: int, per_unit: int, area_cents: int) -> int {
    min_int(100 * area_cents, per_unit * count)
}

/// The 0..100 infrastructure score: the four scored categories (hospitals,
/// police, fire, schools) have ideal-per-normalized-unit targets 2, 1, 1
/// and 5, so per-count weights 50000, 100000, 100000 and 20000; their
/// capped scores are averaged and rounded, zero for a non-positive area.
/// Parks are tracked but never scored.
pub open spec fn infra_score_spec(area_cents: int, h: int, p: int, f: int, s: int) -> int {
    if area_cents <= 0 {
        0
    } else {
        round_div_up(
            category_score_num(h, 50000, area_cents) + category_score_num(p, 100000, area_cents)
                + category_score_num(f, 100000, area_cents) + category_score_num(
                s,
                20000,
                area_cents,
            ),
            4 * area_cents,
        )
    }
}

/// One category's score numerator, executable.
fn category_num(count: u32, per_unit: u64, a: u128) -> (r: u128)
    requires
        1 <= a <= i64::MAX,
        per_unit <= 100000,
    ensures
        r == category_score_num(count as int, per_unit as int, a as int),
        r <= 100 * a,
{
    proof {
        assert(per_unit as int * count as int <= 100000 * 4_294_967_295int) by (nonlinear_arith)
            requires
                0 <= per_unit <= 100000,
                0 <= count <= 4_294_967_295int,
        ;
    }
    let hundred_a: u128 = 100 * a;
    let weighted: u128 = (per_unit as u128) * (count as u128);
    if hundred_a <= weighted {
        hundred_a
    } else {
        weighted
    }
}

/// Computes the infrastructure score from the area and the amenity
/// counts; always an integer in 0..=100.
pub fn infra_score(area_cents: i64, amenities: &Amenities) -> (score: u32)
    ensures
        score == infra_score_spec(
            area_cents as int,
            amenities.hospitals as int,
            amenities.police as int,
            amenities.fire_stations as int,
            amenities.schools as int,
        ),
        score <= 100,
{
    if area_cents <= 0 {
        return 0;
    }
    let a: u128 = area_cents as u128;
    let num: u128 = category_num(amenities.hospitals, 50000, a) + category_num(
        amenities.police,
        100000,
        a,
    ) + category_num(amenities.fire_stations, 100000, a) + category_num(
        amenities.schools,
        20000,
        a,
    );
    let score: u128 = round_u128(num, 4 * a);
    proof {
        let ai = a as int;
        lemma_div_is_ordered(2 * (num as int) + 4 * ai, 804 * ai, 8 * ai);
        lemma_fundamental_div_mod_converse(804 * ai, 8 * ai, 100, 4 * ai);
    }
    score as u32
}

/// `round(total · 10)` of the road length: tenths of a kilometre from
/// millimetres.
pub open spec fn road_km_tenths_spec(road_mm: int) -> int {
    round_div_up(road_mm, 100000)
}

/// Road density in hundredths of km/km², computed from the unrounded
/// running total (not the display value), zero for a non-positive area:
/// `round((km / area) · 100)` is `round(mm / (100 · area_cents))`.
pub open spec fn road_density_cents_spec(road_mm: int, area_cents: int) -> int {
    if area_cents <= 0 {
        0
    } else {
        round_div_up(road_mm, 100 * area_cents)
    }
}

/// Derives the transport summary.
pub fn transport_metrics(road_mm: u64, area_cents: i64, transit_stops: u32) -> (t: TransportMetrics)
    ensures
        t.road_km_tenths == road_km_tenths_spec(road_mm as int),
        t.road_density_cents == road_density_cents_spec(road_mm as int, area_cents as int),
        t.transit_stops == transit_stops,
{
    let tenths: u128 = round_u128(road_mm as u128, 100000);
    let density: u128 = if area_cents <= 0 {
        0
    } else {
        round_u128(road_mm as u128, 100 * (area_cents as u128))
    };
    TransportMetrics {
        road_km_tenths: tenths as u64,
        road_density_cents: density as u64,
        transit_stops,
    }
}

} // verus!
