use vstd::prelude::*;
use crate::guide::Guide;

verus! {

broadcast use vstd::seq_lib::group_seq_properties;

/// What `str::to_lowercase` makes of a string.
pub uninterp spec fn lower_of(s: Seq<char>) -> Seq<char>;

/// `pat` occurs in `text` as a contiguous run of characters.
pub open spec fn occurs_in(pat: Seq<char>, text: Seq<char>) -> bool {
    exists|i: int| 0 <= i && i + pat.len() <= text.len() && #[trigger] text.subrange(i, i + pat.len()) == pat
}

/// Guides whose searchable text holds `lowered`, in catalog order.
pub open spec fn matching(guides: Seq<Guide>, lowered: Seq<char>) -> Seq<Guide> {
    guides.filter(|g: Guide| occurs_in(lowered, g.lowercase_text@))
}

/// Result of a search: nothing for an empty query, else the guides whose
/// text holds the lower-cased query, in catalog order.
pub open spec fn search_result(guides: Seq<Guide>, query: Seq<char>) -> Seq<Guide> {
    if query.len() == 0 {
        Seq::empty()
    } else {
        matching(guides, lower_of(query))
    }
}

/// Relies on `str::to_lowercase`: locale-independent lower-casing, whose
/// result depends on the characters alone.
#[verifier::external_body]
fn lowercase(s: &str) -> (r: String)
    ensures
        r@ == lower_of(s@),
{
    s.to_lowercase()
}

/// Relies on `str::contains` with a `&str` pattern: true exactly when the
/// pattern occurs in the text.
#[verifier::external_body]
fn text_contains(text: &str, pat: &str) -> (r: bool)
    ensures
        r == occurs_in(pat@, text@),
{
    text.contains(pat)
}

/// Keeps, in catalog order, the guides whose searchable text holds the
/// already lower-cased query.
pub fn search_lowered(guides: &[Guide], lowered: &str) -> (r: Vec<Guide>)
    ensures
        r@ == matching(guides@, lowered@),
{
    let mut r: Vec<Guide> = Vec::new();
    let mut i: usize = 0;
    while i < guides.len()
        invariant
            i <= guides@.len(),
            r@ == matching(guides@.subrange(0, i as int), lowered@),
        decreases guides@.len() - i,
    {
        let g = guides[i];
        let keep = text_contains(g.lowercase_text, lowered);
        proof {
            reveal(Seq::filter);
            assert(guides@.subrange(0, i + 1).drop_last() =~= guides@.subrange(0, i as int));
        }
        if keep {
            r.push(g);
        }
        i = i + 1;
    }
    assert(guides@.subrange(0, guides@.len() as int) =~= guides@);
    r
}

/// Case-insensitive substring search over the catalog. An empty query
/// matches nothing.
pub fn search(guides: &[Guide], query: &str) -> (r: Vec<Guide>)
    ensures
        r@ == search_result(guides@, query@),
{
    if query.is_empty() {
        return Vec::new();
    }
    let lowered = lowercase(query);
    search_lowered(guides, lowered.as_str())
}

} // verus!
