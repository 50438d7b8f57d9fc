//! Building the search request URL: the fixed endpoint, the category and
//! sort wire codes, the percent-encoded query, the fixed descending-order
//! flag, and the page number.

use vstd::prelude::*;

use crate::model::{Category, Sort};
use crate::text::dec_str_of;
use crate::text::u32_to_string;

verus! {

/// The fixed base endpoint every request and every detail link resolve
/// against.
pub open spec fn base_url_spec() -> Seq<char> {
    "https://nyaa.si"@
}

pub fn base_url() -> (r: &'static str)
    ensures
        r@ == base_url_spec(),
{
    "https://nyaa.si"
}

/// The base endpoint is never empty, so neither is any link resolved
/// against it.
pub proof fn lemma_base_url_nonempty()
    ensures
        base_url_spec().len() > 0,
{
    reveal_strlit("https://nyaa.si");
}

/// What `urlencoding::encode` returns for the given characters. The result
/// depends on the characters alone.
pub uninterp spec fn url_encoded_of(s: Seq<char>) -> Seq<char>;

/// Relies on `urlencoding::encode`: percent-encodes every byte except
/// ASCII alphanumerics and `-`, `_`, `.`, `~`; an empty input stays empty.
#[verifier::external_body]
pub fn url_encode(s: &str) -> (r: String)
    ensures
        r@ == url_encoded_of(s@),
        s@.len() == 0 ==> r@.len() == 0,
{
    urlencoding::encode(s).into_owned()
}

/// The full search URL for one request: base endpoint, no filter, the
/// category code, the encoded query, the sort token, descending order, and
/// the page number.
pub open spec fn search_url_spec(query: Seq<char>, category: Category, sort: Sort, page: u32) -> Seq<char> {
    base_url_spec() + "/?f=0&c="@ + category.wire_code_spec() + "&q="@ + url_encoded_of(query)
        + "&s="@ + sort.wire_code_spec() + "&o=desc&p="@ + dec_str_of(page as nat)
}

/// Build the search URL, exactly as `search_url_spec` says.
pub fn build_search_url(query: &str, category: Category, sort: Sort, page: u32) -> (r: String)
    ensures
        r@ == search_url_spec(query@, category, sort, page),
{
    let mut r = String::from_str(base_url());
    r.append("/?f=0&c=");
    r.append(category.wire_code());
    r.append("&q=");
    let encoded = url_encode(query);
    r.append(encoded.as_str());
    r.append("&s=");
    r.append(sort.wire_code());
    r.append("&o=desc&p=");
    let page_str = u32_to_string(page);
    r.append(page_str.as_str());
    assert(r@ =~= search_url_spec(query@, category, sort, page));
    r
}

} // verus!
