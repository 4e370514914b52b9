//! Text codecs at the wire boundary: form-urlencoding of query and
//! body parameters, percent-decoding of cookie values, and case
//! folding of access codes.

use vstd::prelude::*;

verus! {

/// The `application/x-www-form-urlencoded` rendering of one
/// name/value pair: each side percent-encoded, joined by `=`.
pub uninterp spec fn form_pair_encoded(name: Seq<char>, value: Seq<char>) -> Seq<char>;

/// Relies on `url::form_urlencoded::Serializer` over a fresh `String`
/// target: `append_pair` followed by `finish` renders exactly one
/// encoded `name=value` pair, a function of the two strings alone.
#[verifier::external_body]
pub(crate) fn form_encode_pair(name: &str, value: &str) -> (r: String)
    ensures
        r@ == form_pair_encoded(name@, value@),
{
    let mut serializer = url::form_urlencoded::Serializer::new(String::new());
    serializer.append_pair(name, value);
    serializer.finish()
}

/// Already-encoded query parts, joined by `&`.
pub open spec fn spec_join_parts(parts: Seq<Seq<char>>) -> Seq<char>
    decreases parts.len(),
{
    if parts.len() == 0 {
        Seq::empty()
    } else if parts.len() == 1 {
        parts[0]
    } else {
        spec_join_parts(parts.drop_last()) + seq!['&'] + parts.last()
    }
}

/// The views of a list of strings.
pub open spec fn str_views(parts: Seq<String>) -> Seq<Seq<char>> {
    parts.map_values(|p: String| p@)
}

/// Joins already-encoded query parts with `&`.
pub fn join_parts(parts: &Vec<String>) -> (r: String)
    ensures
        r@ == spec_join_parts(str_views(parts@)),
{
    let mut out = String::new();
    let mut i: usize = 0;
    while i < parts.len()
        invariant
            i <= parts@.len(),
            out@ == spec_join_parts(str_views(parts@.take(i as int))),
        decreases parts@.len() - i,
    {
        if i > 0 {
            out.append("&");
        }
        out.append(parts[i].as_str());
        proof {
            reveal_strlit("&");
            assert(("&")@ =~= seq!['&']);
            assert(str_views(parts@.take(i + 1)).drop_last() =~= str_views(
                parts@.take(i as int),
            ));
            assert(str_views(parts@.take(i + 1)).last() == parts@[i as int]@);
            if i > 0 {
                assert(out@ =~= spec_join_parts(str_views(parts@.take(i + 1))));
            } else {
                assert(str_views(parts@.take(1)).len() == 1);
                assert(out@ =~= spec_join_parts(str_views(parts@.take(1))));
            }
        }
        i = i + 1;
    }
    proof {
        assert(parts@.take(parts@.len() as int) =~= parts@);
    }
    out
}

/// The percent-decoding of a string, or `None` where the decoded
/// bytes are not valid text.
pub uninterp spec fn percent_decoded(s: Seq<char>) -> Option<Seq<char>>;

/// Relies on `urlencoding::decode`: decoding percent-escapes is a
/// function of the input alone, and it fails exactly where the
/// decoded bytes are not valid UTF-8.
#[verifier::external_body]
pub(crate) fn percent_decode(s: &str) -> (r: Option<String>)
    ensures
        match r {
            Some(d) => percent_decoded(s@) == Some(d@),
            None => percent_decoded(s@) is None,
        },
{
    match urlencoding::decode(s) {
        Ok(d) => Some(d.into_owned()),
        Err(_) => None,
    }
}

/// The uppercase folding of a string.
pub uninterp spec fn uppercased(s: Seq<char>) -> Seq<char>;

/// Relies on `str::to_uppercase`: the result depends on the
/// characters alone.
#[verifier::external_body]
pub(crate) fn to_uppercase(s: &str) -> (r: String)
    ensures
        r@ == uppercased(s@),
{
    s.to_uppercase()
}

} // verus!
