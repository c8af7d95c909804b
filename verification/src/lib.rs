//! Region analysis for rectangular map areas.
//!
//! Given a bounding box (two latitude/longitude corners), the library
//! computes the box's approximate area, builds a spatial query for a fixed
//! taxonomy of amenity categories, aggregates the features that come back
//! into typed counts and a total road length, and derives population,
//! infrastructure-score and transport metrics into a single report.
//!
//! All quantities are held in fixed-point integers so every formula is
//! exact: coordinates in micro-degrees, lengths in millimetres, areas in
//! hundredths of a square kilometre. The caller converts at the boundary
//! and supplies the one transcendental input (the cosine of the mean
//! latitude, scaled by 10^9) that the planar area approximation needs.

pub mod aggregate;
pub mod errors;
pub mod geo;
pub mod lookup;
pub mod metrics;
pub mod num;
pub mod query;
pub mod report;
