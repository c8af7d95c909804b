//! The spatial query: one filter expression over the bounding box for the
//! fixed taxonomy of feature categories, in the bulk-query language of
//! the points-of-interest source.
//!
//! The query is parameterized only by the bounding-box string
//! `minLat,minLng,maxLat,maxLng`; every category is asked for across the
//! feature kinds that can carry it, full geometry is requested for
//! matched line and area features (the road-length computation needs it),
//! and the server-side timeout budget is 30 seconds, advisory only.

use vstd::prelude::*;
use vstd::string::StringExecFns;

verus! {

/// One selector line: a feature kind, a tag filter, and the box.
pub open spec fn selector_spec(kind: Seq<char>, filter: Seq<char>, bbox: Seq<char>) -> Seq<char> {
    kind + filter + "("@ + bbox + ");\n"@
}

/// The same filter over point, line and area features.
pub open spec fn triple_spec(filter: Seq<char>, bbox: Seq<char>) -> Seq<char> {
    selector_spec("node"@, filter, bbox) + selector_spec("way"@, filter, bbox) + selector_spec(
        "relation"@,
        filter,
        bbox,
    )
}

/// The same filter over point and line features only.
pub open spec fn pair_spec(filter: Seq<char>, bbox: Seq<char>) -> Seq<char> {
    selector_spec("node"@, filter, bbox) + selector_spec("way"@, filter, bbox)
}

/// The whole query the analyzer sends for a bounding box: healthcare,
/// police, fire, school and park amenities, every highway (for length,
/// not counted as an amenity), and the three kinds of transit stop; full
/// geometry for everything matched.
pub open spec fn overpass_query_spec(bbox: Seq<char>) -> Seq<char> {
    "[out:json][timeout:30];\n(\n"@ + triple_spec(
        "[\"amenity\"~\"hospital|clinic|doctors|pharmacy\"]"@,
        bbox,
    ) + triple_spec("[\"amenity\"=\"police\"]"@, bbox) + triple_spec(
        "[\"amenity\"=\"fire_station\"]"@,
        bbox,
    ) + triple_spec("[\"amenity\"=\"school\"]"@, bbox) + triple_spec(
        "[\"leisure\"=\"park\"]"@,
        bbox,
    ) + selector_spec("way"@, "[\"highway\"]"@, bbox) + pair_spec(
        "[\"highway\"=\"bus_stop\"]"@,
        bbox,
    ) + pair_spec("[\"railway\"~\"station|halt|stop\"]"@, bbox) + pair_spec(
        "[\"public_transport\"~\"stop_position|platform\"]"@,
        bbox,
    ) + ");\nout body geom;\n"@
}

fn push_selector(out: &mut String, kind: &str, filter: &str, bbox: &str)
    ensures
        final(out)@ == old(out)@ + selector_spec(kind@, filter@, bbox@),
{
    out.append(kind);
    out.append(filter);
    out.append("(");
    out.append(bbox);
    out.append(");\n");
    proof {
        assert(out@ =~= old(out)@ + selector_spec(kind@, filter@, bbox@));
    }
}

fn push_triple(out: &mut String, filter: &str, bbox: &str)
    ensures
        final(out)@ == old(out)@ + triple_spec(filter@, bbox@),
{
    push_selector(out, "node", filter, bbox);
    push_selector(out, "way", filter, bbox);
    push_selector(out, "relation", filter, bbox);
    proof {
        assert(out@ =~= old(out)@ + triple_spec(filter@, bbox@));
    }
}

fn push_pair(out: &mut String, filter: &str, bbox: &str)
    ensures
        final(out)@ == old(out)@ + pair_spec(filter@, bbox@),
{
    push_selector(out, "node", filter, bbox);
    push_selector(out, "way", filter, bbox);
    proof {
        assert(out@ =~= old(out)@ + pair_spec(filter@, bbox@));
    }
}

/// Builds the query for a bounding box already rendered as
/// `minLat,minLng,maxLat,maxLng`.
pub fn build_overpass_query(bbox: &str) -> (q: String)
    ensures
        q@ == overpass_query_spec(bbox@),
{
    let mut q = String::from_str("[out:json][timeout:30];\n(\n");
    push_triple(&mut q, "[\"amenity\"~\"hospital|clinic|doctors|pharmacy\"]", bbox);
    push_triple(&mut q, "[\"amenity\"=\"police\"]", bbox);
    push_triple(&mut q, "[\"amenity\"=\"fire_station\"]", bbox);
    push_triple(&mut q, "[\"amenity\"=\"school\"]", bbox);
    push_triple(&mut q, "[\"leisure\"=\"park\"]", bbox);
    push_selector(&mut q, "way", "[\"highway\"]", bbox);
    push_pair(&mut q, "[\"highway\"=\"bus_stop\"]", bbox);
    push_pair(&mut q, "[\"railway\"~\"station|halt|stop\"]", bbox);
    push_pair(&mut q, "[\"public_transport\"~\"stop_position|platform\"]", bbox);
    q.append(");\nout body geom;\n");
    proof {
        assert(q@ =~= overpass_query_spec(bbox@));
    }
    q
}

} // verus!
