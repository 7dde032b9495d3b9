use vstd::prelude::*;
use vstd::utf8::{decode_utf8, valid_utf8};

verus! {

broadcast use vstd::string::group_string_axioms;

/// `pattern` occurs in `text` as a contiguous run of characters.
pub open spec fn occurs_in(text: Seq<char>, pattern: Seq<char>) -> bool {
    exists|i: int|
        0 <= i && i + pattern.len() <= text.len() && #[trigger] text.subrange(i, i + pattern.len())
            == pattern
}

/// The characters of `s`, one per element.
fn chars_of(s: &str) -> (r: Vec<char>)
    ensures
        r@ == s@,
{
    let mut r: Vec<char> = Vec::new();
    for c in it: s.chars()
        invariant
            it.seq() == s@,
            r@ == it.seq().take(it.index() as int),
    {
        r.push(c);
    }
    assert(r@ =~= s@);
    r
}

/// Whether `pattern` stands in `text` from position `i` on.
fn matches_at(text: &Vec<char>, pattern: &Vec<char>, i: usize) -> (r: bool)
    requires
        i + pattern@.len() <= text@.len(),
    ensures
        r == (text@.subrange(i as int, i + pattern@.len()) == pattern@),
{
    let n: usize = text.len();
    let mut j: usize = 0;
    while j < pattern.len()
        invariant
            n == text@.len(),
            i + pattern@.len() <= text@.len(),
            j <= pattern@.len(),
            forall|q: int| 0 <= q < j ==> text@[i + q] == pattern@[q],
        decreases pattern@.len() - j,
    {
        if text[i + j] != pattern[j] {
            assert(text@.subrange(i as int, i + pattern@.len())[j as int] != pattern@[j as int]);
            return false;
        }
        j += 1;
    }
    assert(text@.subrange(i as int, i + pattern@.len()) =~= pattern@);
    true
}

/// Whether the listing text holds the marker.
pub fn has_marker(text: &str, marker: &str) -> (r: bool)
    ensures
        r == occurs_in(text@, marker@),
{
    let t = chars_of(text);
    let m = chars_of(marker);
    if m.len() == 0 {
        assert(text@.subrange(0, 0 + marker@.len() as int) =~= marker@);
        return true;
    }
    if m.len() > t.len() {
        return false;
    }
    let last: usize = t.len() - m.len();
    let mut i: usize = 0;
    while i <= last
        invariant
            0 < m@.len() <= t@.len(),
            t@.len() <= usize::MAX,
            last == t@.len() - m@.len(),
            0 <= i <= last + 1,
            t@ == text@,
            m@ == marker@,
            forall|k: int| 0 <= k < i ==> #[trigger] t@.subrange(k, k + m@.len()) != m@,
        decreases last + 1 - i,
    {
        if matches_at(&t, &m, i) {
            return true;
        }
        i += 1;
    }
    false
}

/// What the route-listing command gave back.
pub enum RouteListing {
    /// The command ran; this is its standard output.
    Captured(Vec<u8>),
    /// The command could not be run or its output not captured.
    Unavailable,
}

impl View for RouteListing {
    type V = Option<Seq<u8>>;

    open spec fn view(&self) -> Option<Seq<u8>> {
        match self {
            RouteListing::Captured(b) => Some(b@),
            RouteListing::Unavailable => None,
        }
    }
}

/// Why an inspection could not reach a verdict.
#[derive(Debug, PartialEq, Eq, Structural)]
pub enum InspectError {
    /// The captured output is not valid UTF-8 text.
    NotText,
}

/// The verdict on a listing: `true` when the marker is there, and also when
/// the listing could not be had at all, so that a broken check never causes a
/// restart.
pub open spec fn inspection(listing: Option<Seq<u8>>, marker: Seq<char>) -> Result<bool, InspectError> {
    match listing {
        None => Ok(true),
        Some(b) => if valid_utf8(b) {
            Ok(occurs_in(decode_utf8(b), marker))
        } else {
            Err(InspectError::NotText)
        },
    }
}

/// Relies on std::str::from_utf8: it succeeds exactly on valid UTF-8 and
/// then yields the decoded characters.
#[verifier::external_body]
fn decode_text(bytes: &Vec<u8>) -> (r: Option<String>)
    ensures
        r is Some <==> valid_utf8(bytes@),
        r matches Some(s) ==> s@ == decode_utf8(bytes@),
{
    match std::str::from_utf8(bytes) {
        Ok(text) => Some(text.to_owned()),
        Err(_) => None,
    }
}

/// Decides from a listing whether the protocol's routes are installed.
pub fn have_bgp_routes(listing: &RouteListing, marker: &str) -> (r: Result<bool, InspectError>)
    ensures
        r == inspection(listing@, marker@),
{
    match listing {
        RouteListing::Unavailable => Ok(true),
        RouteListing::Captured(bytes) => match decode_text(bytes) {
            Some(text) => Ok(has_marker(text.as_str(), marker)),
            None => Err(InspectError::NotText),
        },
    }
}

/// Inspecting a routing table that has not changed gives the same verdict
/// every time.
pub proof fn lemma_inspection_repeatable(
    first: Option<Seq<u8>>,
    second: Option<Seq<u8>>,
    marker: Seq<char>,
)
    requires
        first == second,
    ensures
        inspection(first, marker) == inspection(second, marker),
{
}

} // verus!
