//! The warning lines reported when a fallback is taken.
use vstd::prelude::*;

use crate::site::CallSite;

verus! {

/// Whether `part` occurs in `whole` as a contiguous run of characters.
pub open spec fn contains(whole: Seq<char>, part: Seq<char>) -> bool {
    exists|i: int|
        0 <= i && i + part.len() <= whole.len() && #[trigger] whole.subrange(i, i + part.len())
            == part
}

/// The line reported when an optional value is absent.
pub open spec fn absent_message(site: Seq<char>) -> Seq<char> {
    site + " encountered absent value"@
}

/// The line reported when a fallible value failed, with the rendering of its reason.
pub open spec fn failure_message(site: Seq<char>, detail: Seq<char>) -> Seq<char> {
    site + " encountered failure: "@ + detail
}

/// The line reported when a fallible value failed, leaving its reason out.
pub open spec fn undisclosed_failure_message(site: Seq<char>) -> Seq<char> {
    site + " encountered a failure"@
}

/// The warning line for an absent optional value at `site`.
pub fn option_error(site: &CallSite) -> (r: String)
    ensures
        r@ == absent_message(site.text()),
{
    let mut line = site.render();
    line.append(" encountered absent value");
    line
}

/// The warning line for a failure at `site` whose reason renders as `detail`.
pub fn result_error(site: &CallSite, detail: &str) -> (r: String)
    ensures
        r@ == failure_message(site.text(), detail@),
{
    let mut line = site.render();
    line.append(" encountered failure: ");
    line.append(detail);
    line
}

/// The warning line for a failure at `site`, without its reason.
pub fn no_dbg_error(site: &CallSite) -> (r: String)
    ensures
        r@ == undisclosed_failure_message(site.text()),
{
    let mut line = site.render();
    line.append(" encountered a failure");
    line
}

/// The line reported for an absent value names the call site and says that
/// something was encountered.
pub proof fn lemma_absent_message_names_site(site: Seq<char>)
    ensures
        contains(absent_message(site), site),
        contains(absent_message(site), "encountered"@),
{
    reveal_strlit(" encountered absent value");
    reveal_strlit("encountered");
    let m = absent_message(site);
    assert(m.subrange(0, 0int + site.len()) =~= site);
    let start: int = site.len() + 1int;
    assert(m.subrange(start, start + 11) =~= "encountered"@);
}

/// The line reported with detail holds the rendering of the failure reason.
pub proof fn lemma_failure_message_holds_reason(site: Seq<char>, detail: Seq<char>)
    ensures
        contains(failure_message(site, detail), detail),
        contains(failure_message(site, detail), site),
{
    let m = failure_message(site, detail);
    let k = m.len() - detail.len();
    assert(m.subrange(k, k + detail.len()) =~= detail);
    assert(m.subrange(0, 0int + site.len()) =~= site);
}

} // verus!
