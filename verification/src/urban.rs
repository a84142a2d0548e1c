use vstd::prelude::*;
use vstd::string::StringExecFns;
use crate::encode::{ascii_encoded, encoded, is_url_safe_char, seq_is_ascii, percent_encode};
use crate::numeral::{dec_rep_i64, i64_dec_string};

verus! {

/// The resource path of a paginated term lookup: the term percent-encoded,
/// the page as a decimal numeral.
pub open spec fn define_path_rep(term: Seq<char>, page: int) -> Seq<char> {
    "define?term="@ + encoded(term) + "&page="@ + dec_rep_i64(page)
}

/// The resource path of a random-entry request.
pub open spec fn random_path_rep() -> Seq<char> {
    "random"@
}

/// The resource path of a lookup by identifier.
pub open spec fn define_by_id_path_rep(id: int) -> Seq<char> {
    "define?defid="@ + dec_rep_i64(id)
}

/// The resource path of a tooltip request: the term appended as it is,
/// not percent-encoded.
pub open spec fn tool_tip_path_rep(term: Seq<char>) -> Seq<char> {
    "tooltip?term="@ + term
}

/// Parameters of a paginated term lookup: the term to define and the
/// 1-based page to fetch.
pub struct UrbanDictionary {
    pub term: String,
    pub page: i64,
}

impl UrbanDictionary {
    pub fn new(input: &str, page: i64) -> (r: Self)
        ensures
            r.term@ == input@,
            r.page == page,
    {
        UrbanDictionary { term: input.to_owned(), page }
    }

    /// The path of the lookup this value describes.  The characters that
    /// stand for the term are all unreserved or `%`: a term containing a
    /// space, `&` or `#` cannot corrupt the query string.
    pub fn define_path(&self) -> (r: String)
        ensures
            r@ == define_path_rep(self.term@, self.page as int),
            forall|i: int|
                0 <= i < encoded(self.term@).len() ==> is_url_safe_char(encoded(self.term@)[i]),
            seq_is_ascii(self.term@) ==> encoded(self.term@) == ascii_encoded(self.term@),
    {
        let mut s = String::from_str("define?term=");
        let e = percent_encode(self.term.as_str());
        s.append(e.as_str());
        s.append("&page=");
        let p = i64_dec_string(self.page);
        s.append(p.as_str());
        s
    }
}

/// The path of a random-entry request.
pub fn random_path() -> (r: String)
    ensures
        r@ == random_path_rep(),
{
    String::from_str("random")
}

/// The path of a lookup by identifier.
pub fn define_by_id_path(id: i64) -> (r: String)
    ensures
        r@ == define_by_id_path_rep(id as int),
{
    let mut s = String::from_str("define?defid=");
    let d = i64_dec_string(id);
    s.append(d.as_str());
    s
}

/// The path of a tooltip request.  The term is appended unencoded, as the
/// service's tooltip resource is called with the raw term.
pub fn tool_tip_path(term: &str) -> (r: String)
    ensures
        r@ == tool_tip_path_rep(term@),
{
    let mut s = String::from_str("tooltip?term=");
    s.append(term);
    s
}

} // verus!
