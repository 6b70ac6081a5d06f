//! Region-scoped inference routing.
//!
//! The gateway routes inference in-region when a region is attached to the
//! work: a key minted with a region scope routes every request made with it,
//! and a chat request can override that scope for one call via
//! `provider_options.region`. Regions pick the serving endpoints inside the
//! one gateway host (`https://api.quantumencoding.ai`); there is no
//! region-per-hostname.
//!
//! The backend accepts region aliases and silently degrades anything it
//! does not recognize to unscoped legacy routing, never an error.
//! [`Region::parse`] therefore rejects unknown values client-side instead of
//! letting a typo route silently unscoped.

use vstd::prelude::*;

use crate::text::{
    ascii_lower_seq, ascii_lowercase, ascii_upper_seq, lemma_lower_of_upper, lemma_trim_ignores_padding, chars_eq_str, chars_of, is_space, lemma_lower_idempotent,
    lemma_trim_idempotent, lemma_trim_lower_commute, push_str, string_from_chars, trim, trim_chars,
};

verus! {

/// An inference region for region-scoped routing.
#[derive(Debug, Clone, Copy, PartialEq, Eq, Hash, Structural)]
pub enum Region {
    /// US-serving endpoints (Vertex us-rep + us-central1).
    Americas,
    /// EU-serving endpoints (Vertex eu-rep + europe-west4).
    Europe,
    /// Asia-serving endpoints (DashScope token-plan ap-southeast-1 for
    /// qwen3.6+, intl for the long tail).
    Asia,
}

/// The wire name of a region.
pub open spec fn region_wire(r: Region) -> Seq<char> {
    match r {
        Region::Americas => "americas"@,
        Region::Europe => "europe"@,
        Region::Asia => "asia"@,
    }
}

/// Which region a (trimmed, ASCII-lowercased) name denotes, aliases
/// included.
pub open spec fn region_of_key(k: Seq<char>) -> Option<Region> {
    if k == "americas"@ || k == "america"@ || k == "us"@ {
        Some(Region::Americas)
    } else if k == "europe"@ || k == "eu"@ || k == "eea"@ {
        Some(Region::Europe)
    } else if k == "asia"@ || k == "apac"@ || k == "asia-pacific"@ {
        Some(Region::Asia)
    } else {
        None
    }
}

/// What [`Region::parse`] gives for `s`: the region its trimmed,
/// ASCII-lowercased form names.
pub open spec fn region_parse_spec(s: Seq<char>) -> Option<Region> {
    region_of_key(ascii_lower_seq(trim(s)))
}

impl Region {
    /// The wire value (`"americas"`, `"europe"`, `"asia"`).
    pub fn as_str(self) -> (s: &'static str)
        ensures
            s@ == region_wire(self),
    {
        match self {
            Region::Americas => "americas",
            Region::Europe => "europe",
            Region::Asia => "asia",
        }
    }

    /// Parses a region, tolerating the aliases the backend accepts
    /// (`us`/`america`, `eu`/`eea`, `apac`/`asia-pacific`),
    /// case-insensitively. Returns `None` for anything else: the backend
    /// would degrade an unknown value to unscoped routing without an error,
    /// so the SDK refuses it instead.
    pub fn parse(s: &str) -> (r: Option<Region>)
        ensures
            r == region_parse_spec(s@),
    {
        let chars = chars_of(s);
        let trimmed = trim_chars(&chars);
        let k = ascii_lowercase(&trimmed);
        if chars_eq_str(&k, "americas") || chars_eq_str(&k, "america") || chars_eq_str(&k, "us") {
            Some(Region::Americas)
        } else if chars_eq_str(&k, "europe") || chars_eq_str(&k, "eu") || chars_eq_str(&k, "eea") {
            Some(Region::Europe)
        } else if chars_eq_str(&k, "asia") || chars_eq_str(&k, "apac") || chars_eq_str(
            &k,
            "asia-pacific",
        ) {
            Some(Region::Asia)
        } else {
            None
        }
    }

    /// The wire value as an owned string (what `Display` writes).
    pub fn to_string(self) -> (s: String)
        ensures
            s@ == region_wire(self),
    {
        self.as_str().to_owned()
    }

    /// [`Region::parse`], with the message an unknown value is refused
    /// with.
    pub fn from_text(s: &str) -> (r: Result<Region, String>)
        ensures
            match region_parse_spec(s@) {
                Some(region) => r == Ok::<Region, String>(region),
                None => r matches Err(m) && m@ == unknown_region_message(s@),
            },
    {
        match Region::parse(s) {
            Some(region) => Ok(region),
            None => {
                let mut m: Vec<char> = Vec::new();
                push_str(&mut m, "unknown region '");
                push_str(&mut m, s);
                push_str(
                    &mut m,
                    "' \u{2014} expected americas | europe | asia (aliases: us, eu, apac)",
                );
                Err(string_from_chars(m))
            },
        }
    }
}

/// The message an unknown region is refused with.
pub open spec fn unknown_region_message(s: Seq<char>) -> Seq<char> {
    "unknown region '"@ + s + "' \u{2014} expected americas | europe | asia (aliases: us, eu, apac)"@
}

/// Parses the canonical names and the backend's aliases; an unknown value
/// is an error (see [`Region::parse`]).
impl std::str::FromStr for Region {
    type Err = String;

    fn from_str(s: &str) -> (r: Result<Self, Self::Err>)
        ensures
            match region_parse_spec(s@) {
                Some(region) => r == Ok::<Region, String>(region),
                None => r matches Err(m) && m@ == unknown_region_message(s@),
            },
    {
        Region::from_text(s)
    }
}

/// A name with no white space at either end is its own trimmed form.
proof fn lemma_trim_unspaced(s: Seq<char>)
    requires
        s.len() > 0,
        !is_space(s[0]),
        !is_space(s.last()),
    ensures
        trim(s) == s,
{
}

/// Every region's wire name parses back to that region.
pub proof fn lemma_wire_name_round_trip(r: Region)
    ensures
        region_parse_spec(region_wire(r)) == Some(r),
{
    reveal_strlit("americas");
    reveal_strlit("europe");
    reveal_strlit("asia");
    reveal_strlit("america");
    reveal_strlit("us");
    reveal_strlit("eu");
    reveal_strlit("eea");
    let w = region_wire(r);
    lemma_trim_unspaced(w);
    assert(ascii_lower_seq(w) =~= w);
}

/// Parsing ignores case: a name parses as its ASCII-lowercased form does.
pub proof fn lemma_parse_ignores_case(s: Seq<char>)
    ensures
        region_parse_spec(ascii_lower_seq(s)) == region_parse_spec(s),
{
    lemma_trim_lower_commute(s);
    lemma_lower_idempotent(trim(s));
}

/// Parsing ignores surrounding white space: a name parses as its trimmed
/// form does.
pub proof fn lemma_parse_ignores_surrounding_space(s: Seq<char>)
    ensures
        region_parse_spec(trim(s)) == region_parse_spec(s),
{
    lemma_trim_idempotent(s);
}

/// Parsing ignores case in both directions: an upper-cased name parses as
/// the name does.
pub proof fn lemma_parse_ignores_upper_case(s: Seq<char>)
    ensures
        region_parse_spec(ascii_upper_seq(s)) == region_parse_spec(s),
{
    let u = ascii_upper_seq(s);
    lemma_trim_lower_commute(u);
    lemma_lower_of_upper(s);
    lemma_trim_lower_commute(s);
}

/// A name padded with a space on each side parses as the name does.
pub proof fn lemma_parse_ignores_padding(s: Seq<char>)
    ensures
        region_parse_spec(seq![' '] + s + seq![' ']) == region_parse_spec(s),
{
    lemma_trim_ignores_padding(s);
}

} // verus!
