use vstd::prelude::*;
use vstd::string::StringExecFns;
use crate::error::UrbanDictionaryError;
use crate::json::{Json, json_of, obj_get, obj_lookup, parse_json};
use crate::render::{render_value, rendered};
use crate::response::{Response, ResponseV};

verus! {

/// The text under `key`, where the object holds a JSON string there.
pub open spec fn field_str(f: Seq<(String, Json)>, key: Seq<char>) -> Option<Seq<char>> {
    match obj_lookup(f, key) {
        Some(Json::Str(s)) => Some(s@),
        _ => None,
    }
}

/// The integer under `key`, where the object holds a JSON integer there.
pub open spec fn field_int(f: Seq<(String, Json)>, key: Seq<char>) -> Option<int> {
    match obj_lookup(f, key) {
        Some(Json::Int(i)) => Some(i as int),
        _ => None,
    }
}

/// The text of one JSON string item; an empty sequence for any other kind.
pub open spec fn str_item(j: Json) -> Seq<char> {
    match j {
        Json::Str(s) => s@,
        _ => Seq::empty(),
    }
}

/// Every item of the sequence is a JSON string.
pub open spec fn all_strings(items: Seq<Json>) -> bool {
    forall|i: int| 0 <= i < items.len() ==> items[i] is Str
}

/// The texts under `key`, where the object holds an array of JSON strings
/// there, in the array's order.
pub open spec fn field_str_list(f: Seq<(String, Json)>, key: Seq<char>) -> Option<Seq<Seq<char>>> {
    match obj_lookup(f, key) {
        Some(Json::Arr(v)) => if all_strings(v@) {
            Some(Seq::new(v@.len(), |i: int| str_item(v@[i])))
        } else {
            None
        },
        _ => None,
    }
}

/// The entry an object's fields describe: every one of the ten fields must
/// be present with its kind, else nothing.  No field is defaulted.
pub open spec fn response_of_fields(f: Seq<(String, Json)>) -> Option<ResponseV> {
    if ({
        &&& field_str(f, "definition"@) is Some
        &&& field_str(f, "permalink"@) is Some
        &&& field_int(f, "thumbs_up"@) is Some
        &&& field_str_list(f, "sound_urls"@) is Some
        &&& field_str(f, "author"@) is Some
        &&& field_str(f, "word"@) is Some
        &&& field_int(f, "defid"@) is Some
        &&& field_str(f, "written_on"@) is Some
        &&& field_str(f, "example"@) is Some
        &&& field_int(f, "thumbs_down"@) is Some
    }) {
        Some(ResponseV {
            definition: field_str(f, "definition"@)->Some_0,
            permalink: field_str(f, "permalink"@)->Some_0,
            thumbs_up: field_int(f, "thumbs_up"@)->Some_0,
            sound_urls: field_str_list(f, "sound_urls"@)->Some_0,
            author: field_str(f, "author"@)->Some_0,
            word: field_str(f, "word"@)->Some_0,
            defid: field_int(f, "defid"@)->Some_0,
            written_on: field_str(f, "written_on"@)->Some_0,
            example: field_str(f, "example"@)->Some_0,
            thumbs_down: field_int(f, "thumbs_down"@)->Some_0,
        })
    } else {
        None
    }
}

/// The entry a JSON value describes: it must be an object of the ten fields.
pub open spec fn response_of(j: Json) -> Option<ResponseV> {
    match j {
        Json::Obj(f) => response_of_fields(f@),
        _ => None,
    }
}

/// The items of the envelope: the array under `list` in the top object.
pub open spec fn envelope_items(j: Json) -> Option<Seq<Json>> {
    match j {
        Json::Obj(f) => match obj_lookup(f@, "list"@) {
            Some(Json::Arr(v)) => Some(v@),
            _ => None,
        },
        _ => None,
    }
}

/// Every item of the envelope decodes to an entry.
pub open spec fn all_decode(items: Seq<Json>) -> bool {
    forall|i: int| 0 <= i < items.len() ==> response_of(items[i]) is Some
}

/// The decoded entries, one for each item, in the envelope's order.
pub open spec fn decoded_items(items: Seq<Json>) -> Seq<ResponseV> {
    Seq::new(items.len(), |i: int| response_of(items[i])->Some_0)
}

/// The entry list a body decodes to: the body must parse, hold the
/// envelope, and every listed item must decode; else nothing.
pub open spec fn decoded_list(s: Seq<char>) -> Option<Seq<ResponseV>> {
    match json_of(s) {
        Some(j) => match envelope_items(j) {
            Some(items) => if all_decode(items) {
                Some(decoded_items(items))
            } else {
                None
            },
            None => None,
        },
        None => None,
    }
}

/// A body as handed over by the transport: nothing where the network call
/// failed, else the response text.
pub open spec fn body_rep(body: Option<&str>) -> Option<Seq<char>> {
    match body {
        Some(s) => Some(s@),
        None => None,
    }
}

/// What a list operation returns for a body: a failed transport is a
/// `TransportError`; a body that does not decode to the envelope is a
/// `DecodeError`; a decoded envelope with no entries is an `EmptyResult`;
/// else the decoded entries, in the envelope's order.
pub open spec fn list_outcome(body: Option<Seq<char>>) -> Result<
    Seq<ResponseV>,
    UrbanDictionaryError,
> {
    match body {
        None => Err(UrbanDictionaryError::TransportError),
        Some(s) => match decoded_list(s) {
            None => Err(UrbanDictionaryError::DecodeError),
            Some(l) => if l.len() == 0 {
                Err(UrbanDictionaryError::EmptyResult)
            } else {
                Ok(l)
            },
        },
    }
}

/// What a lookup by identifier returns for a body: as the list outcome,
/// but only the first decoded entry; the rest are ignored.
pub open spec fn first_outcome(body: Option<Seq<char>>) -> Result<
    ResponseV,
    UrbanDictionaryError,
> {
    match list_outcome(body) {
        Ok(l) => Ok(l[0]),
        Err(e) => Err(e),
    }
}

/// The JSON value under `string` in the body's top object, where the body
/// parses to an object that has that key.
pub open spec fn tooltip_value(s: Seq<char>) -> Option<Json> {
    match json_of(s) {
        Some(Json::Obj(f)) => obj_lookup(f@, "string"@),
        _ => None,
    }
}

/// What the tooltip operation returns for a body: a failed transport is a
/// `TransportError`; a body that does not parse, a top value that is not
/// an object, or a missing `string` key are a `DecodeError`; else the
/// text of the value under the key — it succeeds on every value there.
pub open spec fn tooltip_outcome(body: Option<Seq<char>>) -> Result<
    Seq<char>,
    UrbanDictionaryError,
> {
    match body {
        None => Err(UrbanDictionaryError::TransportError),
        Some(s) => match tooltip_value(s) {
            Some(v) => Ok(rendered(v)),
            None => Err(UrbanDictionaryError::DecodeError),
        },
    }
}

/// A failed transport, and only a failed transport, is a `TransportError`:
/// every operation maps an absent body to it, and no body that arrived is
/// ever mapped to it.
pub proof fn lemma_transport_error_iff_no_body(body: Option<Seq<char>>)
    ensures
        (list_outcome(body) == Err::<Seq<ResponseV>, UrbanDictionaryError>(
            UrbanDictionaryError::TransportError,
        )) <==> body is None,
        (first_outcome(body) == Err::<ResponseV, UrbanDictionaryError>(
            UrbanDictionaryError::TransportError,
        )) <==> body is None,
        (tooltip_outcome(body) == Err::<Seq<char>, UrbanDictionaryError>(
            UrbanDictionaryError::TransportError,
        )) <==> body is None,
{
}

/// A body whose envelope decodes but lists no entries is an `EmptyResult`
/// on a lookup by identifier, not a `DecodeError`.
pub proof fn lemma_empty_list_is_empty_result(s: Seq<char>)
    requires
        decoded_list(s) == Some(Seq::<ResponseV>::empty()),
    ensures
        first_outcome(Some(s)) == Err::<ResponseV, UrbanDictionaryError>(
            UrbanDictionaryError::EmptyResult,
        ),
{
}

/// A body whose envelope decodes to one or more entries yields, on a
/// lookup by identifier, exactly its first decoded entry, unchanged.
pub proof fn lemma_first_entry_is_first_of_list(s: Seq<char>)
    requires
        decoded_list(s) is Some,
        decoded_list(s)->Some_0.len() >= 1,
    ensures
        first_outcome(Some(s)) == Ok::<ResponseV, UrbanDictionaryError>(
            decoded_list(s)->Some_0[0],
        ),
{
}

/// A required field that is absent is not defaulted: an object without
/// `defid` decodes to nothing at all, and so does one without any other
/// of the ten fields.
pub proof fn lemma_missing_field_decodes_to_nothing(f: Seq<(String, Json)>)
    requires
        obj_lookup(f, "defid"@) is None,
    ensures
        response_of_fields(f) is None,
{
}

/// One envelope item that does not decode makes the whole body a
/// `DecodeError`: a bad entry is never skipped or filled in.
pub proof fn lemma_undecodable_item_is_decode_error(s: Seq<char>, i: int)
    requires
        json_of(s) is Some,
        envelope_items(json_of(s)->Some_0) is Some,
        0 <= i < envelope_items(json_of(s)->Some_0)->Some_0.len(),
        response_of(envelope_items(json_of(s)->Some_0)->Some_0[i]) is None,
    ensures
        list_outcome(Some(s)) == Err::<Seq<ResponseV>, UrbanDictionaryError>(
            UrbanDictionaryError::DecodeError,
        ),
{
    assert(!all_decode(envelope_items(json_of(s)->Some_0)->Some_0));
}

fn get_str_field(f: &Vec<(String, Json)>, key: &str) -> (r: Option<String>)
    ensures
        match r {
            Some(s) => field_str(f@, key@) == Some(s@),
            None => field_str(f@, key@) is None,
        },
{
    let k = String::from_str(key);
    match obj_get(f, &k) {
        Some(Json::Str(s)) => Some(s.clone()),
        _ => None,
    }
}

fn get_int_field(f: &Vec<(String, Json)>, key: &str) -> (r: Option<i64>)
    ensures
        match r {
            Some(i) => field_int(f@, key@) == Some(i as int),
            None => field_int(f@, key@) is None,
        },
{
    let k = String::from_str(key);
    match obj_get(f, &k) {
        Some(Json::Int(i)) => Some(*i),
        _ => None,
    }
}

fn get_str_list_field(f: &Vec<(String, Json)>, key: &str) -> (r: Option<Vec<String>>)
    ensures
        match r {
            Some(v) => field_str_list(f@, key@) == Some(
                Seq::new(v@.len(), |i: int| v@[i]@),
            ),
            None => field_str_list(f@, key@) is None,
        },
{
    let k = String::from_str(key);
    match obj_get(f, &k) {
        Some(Json::Arr(items)) => {
            let mut out: Vec<String> = Vec::new();
            let n = items.len();
            for i in 0..n
                invariant
                    n == items@.len(),
                    out@.len() == i,
                    obj_lookup(f@, key@) matches Some(a) && a matches Json::Arr(v) && v@ == items@,
                    forall|j: int| 0 <= j < i ==> items@[j] is Str,
                    forall|j: int| 0 <= j < i ==> out@[j]@ == str_item(items@[j]),
            {
                let item = &items[i];
                match item {
                    Json::Str(s) => out.push(s.clone()),
                    _ => {
                        proof {
                            assert(items@[i as int] !is Str);
                            assert(!all_strings(items@));
                        }
                        return None;
                    },
                }
            }
            proof {
                assert(Seq::new(out@.len(), |i: int| out@[i]@) =~= Seq::new(
                    items@.len(),
                    |i: int| str_item(items@[i]),
                ));
            }
            Some(out)
        },
        _ => None,
    }
}

/// One entry from one item of the envelope: every field must be there with
/// its kind; a missing or mistyped field yields nothing, never a default.
pub fn decode_response(j: &Json) -> (r: Option<Response>)
    ensures
        match r {
            Some(resp) => response_of(*j) == Some(resp@),
            None => response_of(*j) is None,
        },
{
    match j {
        Json::Obj(f) => {
            let definition = match get_str_field(f, "definition") {
                Some(x) => x,
                None => {
                    return None;
                },
            };
            let permalink = match get_str_field(f, "permalink") {
                Some(x) => x,
                None => {
                    return None;
                },
            };
            let thumbs_up = match get_int_field(f, "thumbs_up") {
                Some(x) => x,
                None => {
                    return None;
                },
            };
            let sound_urls = match get_str_list_field(f, "sound_urls") {
                Some(x) => x,
                None => {
                    return None;
                },
            };
            let author = match get_str_field(f, "author") {
                Some(x) => x,
                None => {
                    return None;
                },
            };
            let word = match get_str_field(f, "word") {
                Some(x) => x,
                None => {
                    return None;
                },
            };
            let defid = match get_int_field(f, "defid") {
                Some(x) => x,
                None => {
                    return None;
                },
            };
            let written_on = match get_str_field(f, "written_on") {
                Some(x) => x,
                None => {
                    return None;
                },
            };
            let example = match get_str_field(f, "example") {
                Some(x) => x,
                None => {
                    return None;
                },
            };
            let thumbs_down = match get_int_field(f, "thumbs_down") {
                Some(x) => x,
                None => {
                    return None;
                },
            };
            let resp = Response {
                definition,
                permalink,
                thumbs_up,
                sound_urls,
                author,
                word,
                defid,
                written_on,
                example,
                thumbs_down,
            };
            Some(resp)
        },
        _ => None,
    }
}

/// The entries of a lookup or random request, decoded from its body.
/// The order of the envelope's list is kept, entry for entry.
pub fn entries_from_body(body: Option<&str>) -> (r: Result<Vec<Response>, UrbanDictionaryError>)
    ensures
        match (r, list_outcome(body_rep(body))) {
            (Ok(v), Ok(l)) => v@.len() == l.len() && (forall|i: int|
                0 <= i < l.len() ==> v@[i]@ == l[i]),
            (Err(e), Err(oe)) => e == oe,
            _ => false,
        },
{
    let s = match body {
        Some(s) => s,
        None => {
            return Err(UrbanDictionaryError::TransportError);
        },
    };
    let parsed = match parse_json(s) {
        Some(j) => j,
        None => {
            return Err(UrbanDictionaryError::DecodeError);
        },
    };
    let items: &Vec<Json> = match &parsed {
        Json::Obj(f) => {
            let k = String::from_str("list");
            match obj_get(f, &k) {
                Some(entry) => match entry {
                    Json::Arr(v) => v,
                    _ => {
                        proof {
                            assert(envelope_items(parsed) is None);
                        }
                        return Err(UrbanDictionaryError::DecodeError);
                    },
                },
                None => {
                    proof {
                        assert(envelope_items(parsed) is None);
                    }
                    return Err(UrbanDictionaryError::DecodeError);
                },
            }
        },
        _ => {
            return Err(UrbanDictionaryError::DecodeError);
        },
    };
    let mut out: Vec<Response> = Vec::new();
    let n = items.len();
    for i in 0..n
        invariant
            n == items@.len(),
            body == Some(s),
            envelope_items(parsed) == Some(items@),
            json_of(s@) == Some(parsed),
            out@.len() == i,
            forall|k: int| 0 <= k < i ==> response_of(items@[k]) is Some,
            forall|k: int| 0 <= k < i ==> out@[k]@ == response_of(items@[k])->Some_0,
    {
        match decode_response(&items[i]) {
            Some(resp) => out.push(resp),
            None => {
                proof {
                    assert(response_of(items@[i as int]) is None);
                    assert(!all_decode(items@));
                }
                return Err(UrbanDictionaryError::DecodeError);
            },
        }
    }
    if out.len() == 0 {
        Err(UrbanDictionaryError::EmptyResult)
    } else {
        proof {
            assert(decoded_list(s@) == Some(decoded_items(items@)));
        }
        Ok(out)
    }
}

/// The first entry of a lookup by identifier, decoded from its body.  The
/// whole envelope must decode; entries after the first are then ignored.
pub fn first_entry_from_body(body: Option<&str>) -> (r: Result<Response, UrbanDictionaryError>)
    ensures
        match (r, first_outcome(body_rep(body))) {
            (Ok(resp), Ok(oresp)) => resp@ == oresp,
            (Err(e), Err(oe)) => e == oe,
            _ => false,
        },
{
    let mut entries = match entries_from_body(body) {
        Ok(v) => v,
        Err(e) => {
            return Err(e);
        },
    };
    let first = entries.remove(0);
    Ok(first)
}

/// The tooltip text of a term, decoded from its body: the text of the JSON
/// value under `string` in the body's top object.
pub fn tool_tip_from_body(body: Option<&str>) -> (r: Result<String, UrbanDictionaryError>)
    ensures
        match (r, tooltip_outcome(body_rep(body))) {
            (Ok(t), Ok(ot)) => t@ == ot,
            (Err(e), Err(oe)) => e == oe,
            _ => false,
        },
{
    let s = match body {
        Some(s) => s,
        None => {
            return Err(UrbanDictionaryError::TransportError);
        },
    };
    let parsed = match parse_json(s) {
        Some(j) => j,
        None => {
            return Err(UrbanDictionaryError::DecodeError);
        },
    };
    match &parsed {
        Json::Obj(f) => {
            let k = String::from_str("string");
            match obj_get(f, &k) {
                Some(v) => Ok(render_value(v)),
                None => Err(UrbanDictionaryError::DecodeError),
            }
        },
        _ => Err(UrbanDictionaryError::DecodeError),
    }
}

} // verus!
