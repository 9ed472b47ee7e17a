//! Which retrieval locations are accepted as item descriptors.

use vstd::prelude::*;

verus! {

/// Accepted static suffixes of a location.
pub const JPG_SUFFIX: &'static str = ".jpg";

pub const PNG_SUFFIX: &'static str = ".png";

pub const GIF_SUFFIX: &'static str = ".gif";

/// A location containing this alternate-host marker is accepted without a
/// suffix check.
pub const ALT_HOST_MARKER: &'static str = "v.redd.it";

/// `suffix` is a suffix of `s`.
pub open spec fn has_suffix(s: Seq<char>, suffix: Seq<char>) -> bool {
    suffix.len() <= s.len() && s.subrange(s.len() - suffix.len(), s.len() as int) == suffix
}

/// `pat` occurs in `s` as a contiguous run.
pub open spec fn has_infix(s: Seq<char>, pat: Seq<char>) -> bool {
    exists|i: int| 0 <= i && i + pat.len() <= s.len() && #[trigger] s.subrange(i, i + pat.len()) == pat
}

/// A location is accepted when it ends in one of the accepted suffixes or
/// contains the alternate-host marker.
pub open spec fn accepted_location(s: Seq<char>) -> bool {
    has_suffix(s, JPG_SUFFIX@) || has_suffix(s, PNG_SUFFIX@) || has_suffix(s, GIF_SUFFIX@)
        || has_infix(s, ALT_HOST_MARKER@)
}

/// The accepted locations of `s`, in their order.
pub open spec fn accepted_only(s: Seq<String>) -> Seq<String> {
    s.filter(|x: String| accepted_location(x@))
}

/// Relies on str::ends_with: true exactly when `suffix` matches a suffix of `s`.
#[verifier::external_body]
fn str_ends_with(s: &str, suffix: &str) -> (r: bool)
    ensures
        r == has_suffix(s@, suffix@),
{
    s.ends_with(suffix)
}

/// Relies on str::contains: true exactly when `pat` matches a sub-slice of `s`.
#[verifier::external_body]
fn str_contains(s: &str, pat: &str) -> (r: bool)
    ensures
        r == has_infix(s@, pat@),
{
    s.contains(pat)
}

/// Whether `location` is an acceptable item descriptor.
pub fn is_accepted_location(location: &str) -> (r: bool)
    ensures
        r == accepted_location(location@),
{
    str_ends_with(location, JPG_SUFFIX) || str_ends_with(location, PNG_SUFFIX)
        || str_ends_with(location, GIF_SUFFIX) || str_contains(location, ALT_HOST_MARKER)
}

/// Keeps the accepted locations, in discovery order, without deduplication.
pub fn filter_locations(locations: &Vec<String>) -> (r: Vec<String>)
    ensures
        r@ == accepted_only(locations@),
{
    let mut r: Vec<String> = Vec::new();
    let mut i: usize = 0;
    while i < locations.len()
        invariant
            i <= locations.len(),
            r@ == accepted_only(locations@.take(i as int)),
        decreases locations.len() - i,
    {
        proof {
            reveal(Seq::filter);
            assert(locations@.take(i as int + 1).drop_last() =~= locations@.take(i as int));
        }
        let loc = &locations[i];
        if is_accepted_location(loc.as_str()) {
            r.push(loc.clone());
        }
        i = i + 1;
    }
    proof {
        assert(locations@.take(i as int) =~= locations@);
    }
    r
}

/// Filtering keeps exactly the accepted locations: each kept one is accepted
/// and came from the input, and each accepted input is kept.
pub proof fn lemma_filter_keeps_exactly_accepted(locations: Seq<String>)
    ensures
        forall|i: int|
            0 <= i < accepted_only(locations).len() ==> accepted_location(
                #[trigger] accepted_only(locations)[i]@,
            ) && locations.contains(accepted_only(locations)[i]),
        forall|x: String|
            #[trigger] locations.contains(x) && accepted_location(x@) ==> accepted_only(
                locations,
            ).contains(x),
{
    let pred = |x: String| accepted_location(x@);
    assert forall|i: int| 0 <= i < accepted_only(locations).len() implies accepted_location(
        #[trigger] accepted_only(locations)[i]@,
    ) && locations.contains(accepted_only(locations)[i]) by {
        locations.lemma_filter_pred(pred, i);
        let x = accepted_only(locations)[i];
        assert(locations.filter(pred).contains(x));
        locations.lemma_filter_contains_rev(pred, x);
    }
    assert forall|x: String|
        #[trigger] locations.contains(x) && accepted_location(x@) implies accepted_only(
        locations,
    ).contains(x) by {
        let j = choose|j: int| 0 <= j < locations.len() && locations[j] == x;
        locations.lemma_filter_contains(pred, j);
    }
}

} // verus!
