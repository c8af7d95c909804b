//! Bounding-box geometry: corner validation and normalization, and the
//! flat-earth area approximation.
//!
//! Coordinates are micro-degrees (`10^-6` degree). The area formula needs
//! one transcendental input, `cos(mean latitude)`, which the caller hands
//! in scaled by `10^9`; everything else is exact integer arithmetic. A
//! degree of latitude is taken as 111.32 km, a degree of longitude as
//! 111.32 km times that cosine. The result is in hundredths of a square
//! kilometre (the report's two-decimal area), halves rounded away from
//! zero. Out-of-range coordinates are not rejected — a cosine input below
//! zero simply yields a negative, nonsensical area, as the permissive
//! design accepts.

use vstd::prelude::*;
use crate::errors::AnalysisError;
use crate::num::round_div_away;
use crate::num::round_i128;
use crate::num::lemma_round_div_up_bound;

verus! {

/// Largest coordinate magnitude the area routine accepts, in micro-degrees
/// (2000 degrees — far beyond the geographic range, bounded only so the
/// intermediate products fit in 128 bits).
pub const COORD_LIMIT_UDEG: i64 = 2_000_000_000;

/// Largest magnitude of the scaled cosine input (twice the scale factor,
/// so every true cosine value fits with room to spare).
pub const COS_SCALED_LIMIT: i64 = 2_000_000_000;

/// Bound on the area result in hundredths of km² that the limits above
/// guarantee.
pub const AREA_CENTS_LIMIT: i64 = 10_000_000_000_000_000;

/// A normalized bounding box in micro-degrees.
pub struct RegionBounds {
    pub min_lat_udeg: i64,
    pub min_lng_udeg: i64,
    pub max_lat_udeg: i64,
    pub max_lng_udeg: i64,
}

/// What normalization yields: the coordinate-wise minima and maxima of the
/// two corners.
pub open spec fn normalized_of(lat1: i64, lng1: i64, lat2: i64, lng2: i64) -> RegionBounds {
    RegionBounds {
        min_lat_udeg: if lat1 <= lat2 { lat1 } else { lat2 },
        min_lng_udeg: if lng1 <= lng2 { lng1 } else { lng2 },
        max_lat_udeg: if lat1 <= lat2 { lat2 } else { lat1 },
        max_lng_udeg: if lng1 <= lng2 { lng2 } else { lng1 },
    }
}

/// Whether the raw corner input has the only shape the analyzer accepts:
/// exactly two corners, each of exactly two coordinates.
pub open spec fn corners_well_formed(corners: Seq<Vec<i64>>) -> bool {
    corners.len() == 2 && corners[0]@.len() == 2 && corners[1]@.len() == 2
}

/// Validates the raw corner list and normalizes it into a bounding box.
/// Each inner vector is one corner as `[latitude, longitude]`.
pub fn normalize_bounds(corners: &Vec<Vec<i64>>) -> (r: Result<RegionBounds, AnalysisError>)
    ensures
        r is Ok <==> corners_well_formed(corners@),
        r is Err ==> r->Err_0 is InvalidBounds,
        r is Ok ==> r->Ok_0 == normalized_of(
            corners@[0]@[0],
            corners@[0]@[1],
            corners@[1]@[0],
            corners@[1]@[1],
        ),
{
    if corners.len() != 2 {
        return Err(AnalysisError::InvalidBounds);
    }
    if corners[0].len() != 2 || corners[1].len() != 2 {
        return Err(AnalysisError::InvalidBounds);
    }
    let lat1: i64 = corners[0][0];
    let lng1: i64 = corners[0][1];
    let lat2: i64 = corners[1][0];
    let lng2: i64 = corners[1][1];
    Ok(RegionBounds {
        min_lat_udeg: if lat1 <= lat2 { lat1 } else { lat2 },
        min_lng_udeg: if lng1 <= lng2 { lng1 } else { lng2 },
        max_lat_udeg: if lat1 <= lat2 { lat2 } else { lat1 },
        max_lng_udeg: if lng1 <= lng2 { lng2 } else { lng1 },
    })
}

/// Absolute difference of two coordinates, as a mathematical integer.
pub open spec fn abs_diff(a: int, b: int) -> int {
    if a >= b {
        a - b
    } else {
        b - a
    }
}

/// The approximate area in hundredths of km².
///
/// With spans in micro-degrees and the cosine scaled by 10^9, the exact
/// rational value of
/// `|Δlat|·111.32 · |Δlng|·111.32·cos(mean latitude) · 100`
/// is the product below over 10^23; the spec rounds it to the nearest
/// integer, halves away from zero.
pub open spec fn area_cents_spec(lat1: i64, lng1: i64, lat2: i64, lng2: i64, cos_scaled: i64) -> int {
    round_div_away(
        abs_diff(lat1 as int, lat2 as int) * abs_diff(lng1 as int, lng2 as int) * 11132 * 11132
            * cos_scaled,
        100_000_000_000_000_000_000_000,
    )
}

/// Computes the flat-earth area of the box spanned by the two corners, in
/// hundredths of km². `cos_scaled` is `cos(mean latitude in radians)`
/// scaled by 10^9, the one input this exact integer formula cannot derive
/// itself.
pub fn approx_area_cents(lat1: i64, lng1: i64, lat2: i64, lng2: i64, cos_scaled: i64) -> (r: i64)
    requires
        -COORD_LIMIT_UDEG <= lat1 <= COORD_LIMIT_UDEG,
        -COORD_LIMIT_UDEG <= lng1 <= COORD_LIMIT_UDEG,
        -COORD_LIMIT_UDEG <= lat2 <= COORD_LIMIT_UDEG,
        -COORD_LIMIT_UDEG <= lng2 <= COORD_LIMIT_UDEG,
        -COS_SCALED_LIMIT <= cos_scaled <= COS_SCALED_LIMIT,
    ensures
        r == area_cents_spec(lat1, lng1, lat2, lng2, cos_scaled),
        -AREA_CENTS_LIMIT <= r <= AREA_CENTS_LIMIT,
{
    let dlat: i128 = if lat1 >= lat2 {
        lat1 as i128 - lat2 as i128
    } else {
        lat2 as i128 - lat1 as i128
    };
    let dlng: i128 = if lng1 >= lng2 {
        lng1 as i128 - lng2 as i128
    } else {
        lng2 as i128 - lng1 as i128
    };
    proof {
        assert(0 <= dlat * dlng <= 16_000_000_000_000_000_000) by (nonlinear_arith)
            requires
                0 <= dlat <= 4_000_000_000i128,
                0 <= dlng <= 4_000_000_000i128,
        ;
    }
    let span: i128 = dlat * dlng;
    proof {
        assert(0 <= span * 11132 <= 178_112_000_000_000_000_000_000) by (nonlinear_arith)
            requires 0 <= span <= 16_000_000_000_000_000_000i128;
        assert(0 <= span * 11132 * 11132 <= 1_982_742_784_000_000_000_000_000_000)
            by (nonlinear_arith)
            requires 0 <= span * 11132 <= 178_112_000_000_000_000_000_000int;
    }
    let scaled: i128 = span * 11132 * 11132;
    proof {
        assert(-3_965_485_568_000_000_000_000_000_000_000_000_000 <= scaled * cos_scaled
            <= 3_965_485_568_000_000_000_000_000_000_000_000_000) by (nonlinear_arith)
            requires
                0 <= scaled <= 1_982_742_784_000_000_000_000_000_000int,
                -2_000_000_000 <= cos_scaled <= 2_000_000_000,
        ;
    }
    let num: i128 = scaled * (cos_scaled as i128);
    let r128: i128 = round_i128(num, 100_000_000_000_000_000_000_000);
    proof {
        if num >= 0 {
            lemma_round_div_up_bound(
                num as int,
                100_000_000_000_000_000_000_000,
                3_965_485_568_000_000_000_000_000_000_000_000_000,
            );
        } else {
            lemma_round_div_up_bound(
                -(num as int),
                100_000_000_000_000_000_000_000,
                3_965_485_568_000_000_000_000_000_000_000_000_000,
            );
        }
    }
    r128 as i64
}

/// The area formula does not care which corner came first: swapping the
/// two corners leaves the area unchanged.
pub proof fn lemma_area_swap(lat1: i64, lng1: i64, lat2: i64, lng2: i64, cos_scaled: i64)
    ensures
        area_cents_spec(lat1, lng1, lat2, lng2, cos_scaled) == area_cents_spec(
            lat2,
            lng2,
            lat1,
            lng1,
            cos_scaled,
        ),
{
}

/// Normalization is symmetric in the two corners.
pub proof fn lemma_normalize_swap(lat1: i64, lng1: i64, lat2: i64, lng2: i64)
    ensures
        normalized_of(lat1, lng1, lat2, lng2) == normalized_of(lat2, lng2, lat1, lng1),
{
}

/// For a geographically valid box the mean latitude stays within a
/// quarter turn, its cosine is non-negative, and so is the area.
pub proof fn lemma_area_nonneg(lat1: i64, lng1: i64, lat2: i64, lng2: i64, cos_scaled: i64)
    requires
        cos_scaled >= 0,
    ensures
        area_cents_spec(lat1, lng1, lat2, lng2, cos_scaled) >= 0,
{
    let a = abs_diff(lat1 as int, lat2 as int);
    let b = abs_diff(lng1 as int, lng2 as int);
    let c = cos_scaled as int;
    assert(a * b >= 0) by (nonlinear_arith)
        requires a >= 0 && b >= 0;
    assert(a * b * 11132 * 11132 >= 0) by (nonlinear_arith)
        requires a * b >= 0;
    assert(a * b * 11132 * 11132 * c >= 0) by (nonlinear_arith)
        requires a * b * 11132 * 11132 >= 0 && c >= 0;
    crate::num::lemma_round_div_up_le(
        a * b * 11132 * 11132 * c,
        100_000_000_000_000_000_000_000,
    );
}

} // verus!
