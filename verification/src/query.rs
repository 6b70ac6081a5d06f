//! Route paths with query strings: `key=value` parameters joined by `&`
//! behind a `?`, the `?` left out when there is no parameter.

use vstd::prelude::*;

use crate::encoding::{url_encode, url_encoded};
use crate::text::{push_signed_decimal, push_str, signed_decimal, string_from_chars};

verus! {

broadcast use vstd::string::group_string_axioms;

/// `parts` joined by `sep`.
pub open spec fn join_with(parts: Seq<Seq<char>>, sep: Seq<char>) -> Seq<char>
    decreases parts.len(),
{
    if parts.len() == 0 {
        Seq::empty()
    } else if parts.len() == 1 {
        parts[0]
    } else {
        join_with(parts.drop_last(), sep) + sep + parts.last()
    }
}

/// `path`, then `?` and the parameters joined by `&` when there are any.
pub open spec fn with_query(path: Seq<char>, params: Seq<Seq<char>>) -> Seq<char> {
    if params.len() == 0 {
        path
    } else {
        path + "?"@ + join_with(params, "&"@)
    }
}

/// The texts of a list of strings.
pub open spec fn texts(v: Seq<String>) -> Seq<Seq<char>> {
    v.map_values(|s: String| s@)
}

/// The `key=value` parameter for a value that is set, none otherwise.
pub open spec fn opt_param(key: Seq<char>, value: Option<Seq<char>>) -> Seq<Seq<char>> {
    match value {
        Some(v) => seq![key + "="@ + v],
        None => Seq::empty(),
    }
}

/// A string value, URL-encoded.
pub open spec fn encoded(o: Option<String>) -> Option<Seq<char>> {
    match o {
        Some(s) => Some(url_encoded(s@)),
        None => None,
    }
}

/// A string value as it is.
pub open spec fn verbatim(o: Option<String>) -> Option<Seq<char>> {
    match o {
        Some(s) => Some(s@),
        None => None,
    }
}

/// A number in decimal.
pub open spec fn numeral(o: Option<int>) -> Option<Seq<char>> {
    match o {
        Some(n) => Some(signed_decimal(n)),
        None => None,
    }
}

/// A 32-bit value, as a number.
pub open spec fn from_i32(o: Option<i32>) -> Option<int> {
    match o {
        Some(n) => Some(n as int),
        None => None,
    }
}

/// An unsigned 32-bit value, as a number.
pub open spec fn from_u32(o: Option<u32>) -> Option<int> {
    match o {
        Some(n) => Some(n as int),
        None => None,
    }
}

/// A 64-bit value, as a number.
pub open spec fn from_i64(o: Option<i64>) -> Option<int> {
    match o {
        Some(n) => Some(n as int),
        None => None,
    }
}

/// Appends the parameter `key=value`.
pub fn add_param(params: &mut Vec<String>, key: &str, value: &str)
    ensures
        texts(final(params)@) == texts(old(params)@).push(key@ + "="@ + value@),
{
    let mut v: Vec<char> = Vec::new();
    push_str(&mut v, key);
    push_str(&mut v, "=");
    push_str(&mut v, value);
    let ghost before = old(params)@;
    params.push(string_from_chars(v));
    assert(texts(params@) =~= texts(before).push(key@ + "="@ + value@));
}

/// Appends `key=` and the URL-encoded value, when there is one.
pub fn add_encoded(params: &mut Vec<String>, key: &str, value: &Option<String>)
    ensures
        texts(final(params)@) == texts(old(params)@) + opt_param(key@, encoded(*value)),
{
    match value {
        Some(s) => add_param(params, key, url_encode(s.as_str()).as_str()),
        None => {},
    }
    assert(texts(params@) =~= texts(old(params)@) + opt_param(key@, encoded(*value)));
}

/// Appends `key=` and the value as it is, when there is one.
pub fn add_verbatim(params: &mut Vec<String>, key: &str, value: &Option<String>)
    ensures
        texts(final(params)@) == texts(old(params)@) + opt_param(key@, verbatim(*value)),
{
    match value {
        Some(s) => add_param(params, key, s.as_str()),
        None => {},
    }
    assert(texts(params@) =~= texts(old(params)@) + opt_param(key@, verbatim(*value)));
}

/// Appends `key=` and the number in decimal, when there is one.
pub fn add_number(params: &mut Vec<String>, key: &str, value: Option<i64>)
    ensures
        texts(final(params)@) == texts(old(params)@) + opt_param(key@, numeral(from_i64(value))),
{
    match value {
        Some(n) => {
            let mut d: Vec<char> = Vec::new();
            push_signed_decimal(&mut d, n);
            add_param(params, key, string_from_chars(d).as_str());
        },
        None => {},
    }
    assert(texts(params@) =~= texts(old(params)@) + opt_param(key@, numeral(from_i64(value))));
}

/// `path` with the parameters as its query string.
pub fn path_with_query(path: &str, params: &Vec<String>) -> (r: String)
    ensures
        r@ == with_query(path@, texts(params@)),
{
    let mut v: Vec<char> = Vec::new();
    push_str(&mut v, path);
    if params.len() == 0 {
        assert(texts(params@) =~= Seq::<Seq<char>>::empty());
        return string_from_chars(v);
    }
    push_str(&mut v, "?");
    let ghost head = v@;
    let mut i: usize = 0;
    while i < params.len()
        invariant
            i <= params@.len(),
            head == path@ + "?"@,
            v@ == head + join_with(texts(params@).take(i as int), "&"@),
        decreases params@.len() - i,
    {
        let ghost t = texts(params@);
        assert(t.take(i + 1).drop_last() =~= t.take(i as int));
        assert(t.take(i + 1).last() == params@[i as int]@);
        if i > 0 {
            push_str(&mut v, "&");
        }
        push_str(&mut v, params[i].as_str());
        i = i + 1;
        assert(v@ =~= head + join_with(t.take(i as int), "&"@));
    }
    assert(texts(params@).take(params@.len() as int) =~= texts(params@));
    string_from_chars(v)
}

} // verus!
