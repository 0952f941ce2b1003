//! The Feature Extractor's selector probe.
//!
//! A parsed document and a compiled selector are values of scraper's, opaque
//! here; counting the nodes of a document that match a selector is a pure
//! query of the two, and the counts of a run's selectors are appended to
//! every row in selector-declaration order.

use vstd::prelude::*;

verus! {

#[verifier::external_type_specification]
#[verifier::external_body]
pub struct ExHtml(scraper::Html);

#[verifier::external_type_specification]
#[verifier::external_body]
pub struct ExSelector(scraper::Selector);

/// The number of nodes of `doc` that match `selector`: a pure function of
/// the parsed document and the compiled selector alone.
pub uninterp spec fn match_count(doc: scraper::Html, selector: scraper::Selector) -> nat;

/// The counts the selector probe yields: one per selector, in declaration
/// order, each the number of matching nodes in the document.
pub open spec fn counts_of(doc: scraper::Html, selectors: Seq<scraper::Selector>) -> Seq<nat> {
    selectors.map_values(|s: scraper::Selector| match_count(doc, s))
}

/// Relies on scraper's `Html::select`: it yields the document's elements
/// matching the selector, reading the document and the selector alone and
/// mutating neither, so the count is a function of the two.
#[verifier::external_body]
fn select_count(doc: &scraper::Html, selector: &scraper::Selector) -> (n: usize)
    ensures
        n as nat == match_count(*doc, *selector),
{
    doc.select(selector).count()
}

/// The selector probe: for each configured selector, the count of matching
/// nodes, in declaration order. A selector matching nothing yields zero; no
/// selector fails, so there is always one count per selector.
pub fn count_selector_matches(doc: &scraper::Html, selectors: &Vec<scraper::Selector>) -> (r: Vec<
    usize,
>)
    ensures
        r@.len() == selectors@.len(),
        r@.map_values(|c: usize| c as nat) == counts_of(*doc, selectors@),
{
    let ghost target: Seq<nat> = counts_of(*doc, selectors@);
    let mut r: Vec<usize> = Vec::new();
    let n = selectors.len();
    for i in 0..n
        invariant
            n == selectors@.len(),
            r@.len() == i,
            target == counts_of(*doc, selectors@),
            r@.map_values(|c: usize| c as nat) =~= target.subrange(0, i as int),
    {
        r.push(select_count(doc, &selectors[i]));
        proof {
            assert(r@.map_values(|c: usize| c as nat) =~= target.subrange(0, i + 1));
        }
    }
    proof {
        assert(target.subrange(0, target.len() as int) =~= target);
        assert(r@.map_values(|c: usize| c as nat) == target);
    }
    r
}

/// Idempotence of extraction: the selector counts are a function of the
/// parsed document and the selectors alone, and extraction does not mutate
/// the document, so two extractions from the same document agree.
pub proof fn lemma_extraction_idempotent(
    doc: scraper::Html,
    selectors: Seq<scraper::Selector>,
    r1: Seq<nat>,
    r2: Seq<nat>,
)
    requires
        r1 == counts_of(doc, selectors),
        r2 == counts_of(doc, selectors),
    ensures
        r1 == r2,
{
}

} // verus!
