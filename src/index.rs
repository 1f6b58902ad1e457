//! Reading the index backend's responses: ranked hits, the ids they carry,
//! counts and the kind of a single document.

use vstd::prelude::*;
use crate::json::JsonValue;
use crate::models::texts_view;

verus! {

/// The hit list of a search response, `hits.hits`; empty when absent.
pub open spec fn hits_of(resp: JsonValue) -> Seq<JsonValue> {
    match resp.at("hits"@).at("hits"@).elements() {
        Some(v) => v,
        None => Seq::empty(),
    }
}

/// The text of `_source.<field>` of a hit.
pub open spec fn source_text(hit: JsonValue, field: Seq<char>) -> Option<Seq<char>> {
    hit.at("_source"@).at(field).str_value()
}

/// The id a hit contributes: its `_source.<id_field>` text; where `label` is
/// given, only for a hit with a non-empty id whose `_source.item_type` is
/// that label.
pub open spec fn hit_id(hit: JsonValue, id_field: Seq<char>, label: Option<Seq<char>>) -> Option<
    Seq<char>,
> {
    match source_text(hit, id_field) {
        Some(id) => match label {
            None => Some(id),
            Some(l) => if id.len() > 0 && source_text(hit, "item_type"@) == Some(l) {
                Some(id)
            } else {
                None
            },
        },
        None => None,
    }
}

/// The ids of `hits`, in rank order; hits without one are skipped.
pub open spec fn hit_ids(hits: Seq<JsonValue>, id_field: Seq<char>, label: Option<Seq<char>>) -> Seq<
    Seq<char>,
>
    decreases hits.len(),
{
    if hits.len() == 0 {
        Seq::empty()
    } else {
        let rest = hit_ids(hits.drop_last(), id_field, label);
        match hit_id(hits.last(), id_field, label) {
            Some(id) => rest.push(id),
            None => rest,
        }
    }
}

/// The first `n` elements of `s` (all of them when there are fewer).
pub open spec fn first_n<A>(s: Seq<A>, n: int) -> Seq<A> {
    if n <= 0 {
        Seq::empty()
    } else if n < s.len() {
        s.take(n)
    } else {
        s
    }
}

/// The ranked ids of a search response, at most `limit` of them.
pub open spec fn ranked_ids_of(resp: JsonValue, id_field: Seq<char>, label: Option<Seq<char>>, limit: int) -> Seq<
    Seq<char>,
> {
    first_n(hit_ids(hits_of(resp), id_field, label), limit)
}

/// The integer at `_source.cnt` of the first hit, or 0.
pub open spec fn count_of(resp: JsonValue) -> i64 {
    let hits = hits_of(resp);
    if hits.len() > 0 {
        match hits[0].at("_source"@).at("cnt"@) {
            JsonValue::Int(n) => n,
            _ => 0,
        }
    } else {
        0
    }
}

/// The hit list of a search response.
pub fn hits(resp: &JsonValue) -> (r: &[JsonValue])
    ensures
        r@ == hits_of(*resp),
{
    match resp.get("hits") {
        Some(outer) => match outer.get("hits") {
            Some(inner) => match inner.as_array() {
                Some(v) => v.as_slice(),
                None => &[],
            },
            None => &[],
        },
        None => &[],
    }
}

/// The text of `_source.<field>` of a hit.
pub fn source_field<'a>(hit: &'a JsonValue, field: &str) -> (r: Option<&'a str>)
    ensures
        match r {
            Some(s) => source_text(*hit, field@) == Some(s@),
            None => source_text(*hit, field@) is None,
        },
{
    match hit.get("_source") {
        Some(src) => match src.get(field) {
            Some(v) => v.as_str(),
            None => None,
        },
        None => None,
    }
}

fn hit_id_exec(hit: &JsonValue, id_field: &str, label: Option<&str>) -> (r: Option<String>)
    ensures
        match r {
            Some(s) => hit_id(*hit, id_field@, match label { Some(l) => Some(l@), None => None }) == Some(s@),
            None => hit_id(*hit, id_field@, match label { Some(l) => Some(l@), None => None }) is None,
        },
{
    match source_field(hit, id_field) {
        Some(id) => match label {
            None => Some(id.to_owned()),
            Some(l) => {
                if id.is_empty() {
                    return None;
                }
                match source_field(hit, "item_type") {
                    Some(t) => if crate::text::str_eq(t, l) {
                        Some(id.to_owned())
                    } else {
                        None
                    },
                    None => None,
                }
            },
        },
        None => None,
    }
}

/// The ranked ids of a search response, in rank order, at most `limit` of
/// them: each hit's `_source.<id_field>` text, skipping hits without one and,
/// where `label` is given, hits of another kind or with an empty id.
pub fn ranked_ids(resp: &JsonValue, id_field: &str, label: Option<&str>, limit: i32) -> (r: Vec<String>)
    ensures
        texts_view(r@) == ranked_ids_of(
            *resp,
            id_field@,
            match label { Some(l) => Some(l@), None => None },
            limit as int,
        ),
        r@.len() <= (if limit < 0 { 0 } else { limit as int }),
{
    let ghost lab = match label { Some(l) => Some(l@), None => None };
    let hs = hits(resp);
    let ghost all = hs@;
    let mut out: Vec<String> = Vec::new();
    let mut i: usize = 0;
    while i < hs.len()
        invariant
            i <= all.len(),
            hs@ == all,
            all == hits_of(*resp),
            lab == match label { Some(l) => Some(l@), None => None::<Seq<char>> },
            texts_view(out@) == first_n(hit_ids(all.subrange(0, i as int), id_field@, lab), limit as int),
        decreases all.len() - i,
    {
        let ghost prev = hit_ids(all.subrange(0, i as int), id_field@, lab);
        proof {
            assert(all.subrange(0, i + 1).drop_last() =~= all.subrange(0, i as int));
            assert(all.subrange(0, i + 1).last() == all[i as int]);
        }
        let ghost before = out@;
        match hit_id_exec(&hs[i], id_field, label) {
            Some(id) => {
                if (out.len() as i64) < (limit as i64) {
                    out.push(id);
                    assert(texts_view(out@) =~= texts_view(before).push(id@));
                    assert(prev.len() < limit);
                    assert(prev.push(id@).take(prev.len() + 1 as int) =~= prev.push(id@));
                    assert(texts_view(out@) =~= first_n(prev.push(id@), limit as int));
                } else {
                    assert(first_n(prev.push(id@), limit as int) =~= first_n(prev, limit as int));
                }
            },
            None => {},
        }
        i = i + 1;
    }
    assert(all.subrange(0, all.len() as int) =~= all);
    out
}

/// The count a count query returned: `_source.cnt` of the first hit, or 0.
pub fn count_in(resp: &JsonValue) -> (r: i64)
    ensures
        r == count_of(*resp),
{
    let hs = hits(resp);
    if hs.len() == 0 {
        return 0;
    }
    match hs[0].get("_source") {
        Some(src) => match src.get("cnt") {
            Some(v) => match v.as_i64() {
                Some(n) => n,
                None => 0,
            },
            None => 0,
        },
        None => 0,
    }
}

} // verus!
