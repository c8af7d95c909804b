//! The free-text place lookup: no algorithmic content beyond the blank
//! short-circuit and the URL it forwards to, so only that decision lives
//! here. Blank input — empty or whitespace only — yields the empty result
//! list without any network call; anything else is URL-encoded into the
//! geocoding endpoint's search URL, asking for the top five matches with
//! no address breakdown. The caller performs the fetch and reshapes each
//! hit into a point and a label.

use vstd::prelude::*;
use vstd::string::StrSliceExecFns;
use vstd::string::StringExecFns;

verus! {

/// The Unicode white-space property of one character; what
/// `char::is_whitespace` answers.
pub uninterp spec fn is_space_char(c: char) -> bool;

/// Relies on `char::is_whitespace`: whether the character has the Unicode
/// `White_Space` property, a function of the character alone.
#[verifier::external_body]
fn char_is_whitespace(c: char) -> (r: bool)
    ensures
        r == is_space_char(c),
{
    c.is_whitespace()
}

/// Blank text: nothing but white space (an empty text is blank).
pub open spec fn is_blank(s: Seq<char>) -> bool {
    forall|i: int| 0 <= i < s.len() ==> is_space_char(s[i])
}

/// Whether the text is blank, character by character.
fn is_blank_str(s: &str) -> (r: bool)
    ensures
        r == is_blank(s@),
{
    let n: usize = s.unicode_len();
    let mut i: usize = 0;
    while i < n
        invariant
            n == s@.len(),
            i <= n,
            forall|k: int| 0 <= k < i ==> is_space_char(s@[k]),
        decreases n - i,
    {
        let c: char = s.get_char(i);
        if !char_is_whitespace(c) {
            assert(!is_blank(s@));
            return false;
        }
        i = i + 1;
    }
    true
}

/// What `urlencoding::encode` turns a text into; a function of the text
/// alone.
pub uninterp spec fn percent_encoded(s: Seq<char>) -> Seq<char>;

/// Relies on `urlencoding::encode`: percent-encodes every byte of the
/// UTF-8 text except ASCII alphanumerics and `-`, `_`, `.`, `~`; empty
/// input stays empty.
#[verifier::external_body]
fn url_encode(s: &str) -> (r: String)
    ensures
        r@ == percent_encoded(s@),
        s@.len() == 0 ==> r@.len() == 0,
{
    urlencoding::encode(s).into_owned()
}

/// The geocoding search URL for a non-blank query: URL-encoded free text,
/// top five matches, no address detail.
pub open spec fn search_url_spec(q: Seq<char>) -> Seq<char> {
    "https://nominatim.openstreetmap.org/search?format=json&q="@ + percent_encoded(q)
        + "&limit=5&addressdetails=0"@
}

/// What a lookup request should do.
pub enum LookupPlan {
    /// The input was blank: answer with the empty result list, making no
    /// network call.
    Empty,
    /// Fetch the contained search URL and reshape its hits.
    Fetch(String),
}

/// Decides a lookup: the empty plan exactly for blank input, otherwise
/// the search URL to fetch.
pub fn plan_lookup(query: &str) -> (p: LookupPlan)
    ensures
        match p {
            LookupPlan::Empty => is_blank(query@),
            LookupPlan::Fetch(url) => !is_blank(query@) && url@ == search_url_spec(query@),
        },
{
    if is_blank_str(query) {
        LookupPlan::Empty
    } else {
        let encoded: String = url_encode(query);
        let mut url = String::from_str("https://nominatim.openstreetmap.org/search?format=json&q=");
        url.append(encoded.as_str());
        url.append("&limit=5&addressdetails=0");
        proof {
            assert(url@ =~= search_url_spec(query@));
        }
        LookupPlan::Fetch(url)
    }
}

} // verus!
