//! Query strings: the parameters of a request as pairs of text, and their
//! place behind the address.
//!
//! The pairs are put into the `application/x-www-form-urlencoded` form by the
//! `serde_urlencoded` crate. What that form is, character by character, is not
//! restated here: it goes by the name [`form_urlencoded`].

use crate::error::{ErrorModel, TwcError};
use crate::text::decimal;
use crate::text::decimal_string;
use vstd::prelude::*;
use vstd::string::*;

verus! {

/// The `application/x-www-form-urlencoded` text of a sequence of pairs, as
/// `serde_urlencoded::to_string` writes it.
pub uninterp spec fn form_urlencoded(pairs: Seq<(Seq<char>, Seq<char>)>) -> Seq<char>;

/// The error type of `serde_urlencoded`'s serializer, carried through as it is.
#[verifier::external_type_specification]
#[verifier::external_body]
pub struct ExQueryError(serde_urlencoded::ser::Error);

/// The pairs of `pairs` as sequences of characters, in order.
pub open spec fn pairs_view(pairs: Seq<(String, String)>) -> Seq<(Seq<char>, Seq<char>)> {
    Seq::new(pairs.len(), |i: int| (pairs[i].0@, pairs[i].1@))
}

/// Calls `serde_urlencoded::to_string` on a list of pairs of strings.
///
/// The serializer accepts every sequence of pairs whose keys and values are
/// strings, so the call succeeds. Its result goes by the name
/// [`form_urlencoded`]. Each pair is written with a `=` between key and
/// value, and nothing is written without a pair: the text is empty exactly
/// when there is no pair.
#[verifier::external_body]
fn urlencode(pairs: &Vec<(String, String)>) -> (r: Result<String, serde_urlencoded::ser::Error>)
    ensures
        r is Ok,
        r matches Ok(s) ==> s@ == form_urlencoded(pairs_view(pairs@)),
        r matches Ok(s) ==> (s@.len() == 0 <==> pairs@.len() == 0),
{
    serde_urlencoded::to_string(pairs)
}

/// The message of a `serde_urlencoded` serialization error, by its `Display`.
#[verifier::external_body]
fn urlencode_error_text(error: &serde_urlencoded::ser::Error) -> (r: String) {
    error.to_string()
}

/// What an encoded query puts behind an address: nothing where it is empty,
/// else a question mark and the query.
pub open spec fn encoded_suffix(encoded: Seq<char>) -> Seq<char> {
    if encoded.len() == 0 {
        Seq::empty()
    } else {
        "?"@ + encoded
    }
}

/// What the parameters `pairs` put behind an address: nothing where there is
/// no parameter, else a question mark and the parameters in the
/// `application/x-www-form-urlencoded` form.
pub open spec fn query_suffix(pairs: Seq<(Seq<char>, Seq<char>)>) -> Seq<char> {
    if pairs.len() == 0 {
        Seq::empty()
    } else {
        "?"@ + form_urlencoded(pairs)
    }
}

/// Puts an encoded query behind an address. An empty query leaves the address
/// as it is, without a question mark; a failed encoding is an invalid request
/// with the encoder's message.
pub fn with_query(url: String, encoded: Result<String, String>) -> (r: Result<String, TwcError>)
    ensures
        match encoded {
            Ok(q) => r matches Ok(u) && u@ == url@ + encoded_suffix(q@),
            Err(m) => r matches Err(e) && e@ == ErrorModel::InvalidRequest(m@),
        },
{
    match encoded {
        Ok(q) => {
            let mut out = url;
            if q.as_str().unicode_len() != 0 {
                out.append("?");
                out.append(q.as_str());
                assert(out@ =~= url@ + ("?"@ + q@));
            } else {
                assert(out@ =~= url@ + Seq::<char>::empty());
            }
            Ok(out)
        },
        Err(m) => Err(TwcError::InvalidRequest(m)),
    }
}

/// Encodes `pairs` and puts them behind `url`. Without pairs the address is
/// returned as it is; with pairs a question mark and the encoded pairs follow.
pub fn append_query(url: String, pairs: &Vec<(String, String)>) -> (r: Result<String, TwcError>)
    ensures
        r matches Ok(u) && u@ == url@ + query_suffix(pairs_view(pairs@)),
{
    let encoded = match urlencode(pairs) {
        Ok(q) => Ok(q),
        Err(e) => Err(urlencode_error_text(&e)),
    };
    with_query(url, encoded)
}

/// A value that is sent as query parameters.
pub trait ToQuery {
    /// The parameters, as pairs of key and value in the order in which they
    /// are written. A parameter that holds nothing gives no pair.
    spec fn pairs(&self) -> Seq<(Seq<char>, Seq<char>)>;

    /// Lists the parameters.
    fn to_pairs(&self) -> (r: Vec<(String, String)>)
        ensures
            pairs_view(r@) == self.pairs(),
    ;
}

/// The pair of a text parameter, where it holds a value.
pub open spec fn text_pairs(key: &str, value: Option<String>) -> Seq<(Seq<char>, Seq<char>)> {
    match value {
        Some(s) => seq![(key@, s@)],
        None => Seq::empty(),
    }
}

/// The pair of a number parameter, where it holds a value: the number in decimal.
pub open spec fn number_pairs(key: &str, value: Option<u32>) -> Seq<(Seq<char>, Seq<char>)> {
    match value {
        Some(n) => seq![(key@, decimal(n as nat))],
        None => Seq::empty(),
    }
}

/// The pair of a boolean parameter, where it holds a value: `true` or `false`.
pub open spec fn flag_pairs(key: &str, value: Option<bool>) -> Seq<(Seq<char>, Seq<char>)> {
    match value {
        Some(b) => seq![(
            key@,
            if b {
                "true"@
            } else {
                "false"@
            },
        )],
        None => Seq::empty(),
    }
}

/// The pairs of a list parameter: one pair for each value, in order, each
/// under the key followed by `[]`. A list without values gives no pair.
pub open spec fn list_pairs(key: &str, values: Option<Vec<String>>) -> Seq<
    (Seq<char>, Seq<char>),
> {
    match values {
        Some(list) => Seq::new(list@.len(), |i: int| (key@ + "[]"@, list@[i]@)),
        None => Seq::empty(),
    }
}

fn push_pair(pairs: &mut Vec<(String, String)>, key: String, value: String)
    ensures
        pairs_view(final(pairs)@) == pairs_view(old(pairs)@).push((key@, value@)),
{
    pairs.push((key, value));
    assert(pairs_view(pairs@) =~= pairs_view(old(pairs)@).push((key@, value@)));
}

/// Adds the pair of a text parameter, where it holds a value.
pub fn push_text(pairs: &mut Vec<(String, String)>, key: &str, value: &Option<String>)
    ensures
        pairs_view(final(pairs)@) == pairs_view(old(pairs)@) + text_pairs(key, *value),
{
    match value {
        Some(s) => {
            push_pair(pairs, String::from_str(key), s.clone());
        },
        None => {},
    }
    assert(pairs_view(pairs@) =~= pairs_view(old(pairs)@) + text_pairs(key, *value));
}

/// Adds the pair of a number parameter, where it holds a value.
pub fn push_number(pairs: &mut Vec<(String, String)>, key: &str, value: Option<u32>)
    ensures
        pairs_view(final(pairs)@) == pairs_view(old(pairs)@) + number_pairs(key, value),
{
    match value {
        Some(n) => {
            push_pair(pairs, String::from_str(key), decimal_string(n as u64));
        },
        None => {},
    }
    assert(pairs_view(pairs@) =~= pairs_view(old(pairs)@) + number_pairs(key, value));
}

/// Adds the pair of a boolean parameter, where it holds a value.
pub fn push_flag(pairs: &mut Vec<(String, String)>, key: &str, value: Option<bool>)
    ensures
        pairs_view(final(pairs)@) == pairs_view(old(pairs)@) + flag_pairs(key, value),
{
    match value {
        Some(b) => {
            let text = if b {
                "true"
            } else {
                "false"
            };
            push_pair(pairs, String::from_str(key), String::from_str(text));
        },
        None => {},
    }
    assert(pairs_view(pairs@) =~= pairs_view(old(pairs)@) + flag_pairs(key, value));
}

/// Adds the pairs of a list parameter: one for each value.
pub fn push_list(pairs: &mut Vec<(String, String)>, key: &str, values: &Option<Vec<String>>)
    ensures
        pairs_view(final(pairs)@) == pairs_view(old(pairs)@) + list_pairs(key, *values),
{
    match values {
        Some(list) => {
            let ghost all = list_pairs(key, *values);
            let mut i: usize = 0;
            while i < list.len()
                invariant
                    i <= list.len(),
                    all == list_pairs(key, Some(*list)),
                    pairs_view(pairs@) == pairs_view(old(pairs)@) + all.subrange(0, i as int),
                decreases list.len() - i,
            {
                let mut name = String::from_str(key);
                name.append("[]");
                let ghost before = pairs_view(pairs@);
                push_pair(pairs, name, list[i].clone());
                assert(all.subrange(0, i + 1) =~= all.subrange(0, i as int).push(all[i as int]));
                assert(pairs_view(pairs@) =~= pairs_view(old(pairs)@) + all.subrange(0, i + 1));
                i += 1;
            }
            assert(all.subrange(0, i as int) =~= all);
        },
        None => {
            assert(pairs_view(pairs@) =~= pairs_view(old(pairs)@) + list_pairs(key, *values));
        },
    }
}

} // verus!
