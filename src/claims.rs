//! Claim values from text, and the claim set they are merged into.
use vstd::prelude::*;
use crate::json::{json_parse, parse_json, json_unsigned, unsigned_value};
use crate::numbers::{decimal_u64, decimal_i64, parse_u64, parse_i64};
use crate::text::{count_char, count_occurrences, find_char, first_index};

verus! {

/// A claim: its name and its JSON value.
#[derive(Debug, Clone, PartialEq)]
pub struct PayloadItem(pub String, pub serde_json::Value);

impl View for PayloadItem {
    type V = (Seq<char>, serde_json::Value);

    open spec fn view(&self) -> (Seq<char>, serde_json::Value) {
        (self.0@, self.1)
    }
}

/// The view of an optional claim.
pub open spec fn item_view(o: Option<PayloadItem>) -> Option<(Seq<char>, serde_json::Value)> {
    match o {
        Some(i) => Some(i@),
        None => None,
    }
}

/// A text between double quotes.
pub open spec fn quoted(s: Seq<char>) -> Seq<char> {
    seq!['"'] + s + seq!['"']
}

/// A claim value read from text: as JSON first, then as the JSON string literal of the text.
pub open spec fn claim_value(text: Seq<char>) -> Option<serde_json::Value> {
    match json_parse(text) {
        Some(v) => Some(v),
        None => json_parse(quoted(text)),
    }
}

/// The claim named `name` whose value is read from `text`, if the value can be read.
pub open spec fn named_claim(name: Seq<char>, text: Seq<char>) -> Option<(Seq<char>, serde_json::Value)> {
    match claim_value(text) {
        Some(v) => Some((name, v)),
        None => None,
    }
}

/// The name in `name=value`: what stands before the first `=`.
pub open spec fn pair_name(s: Seq<char>) -> Seq<char> {
    s.subrange(0, first_index(s, '=', 0))
}

/// The value in `name=value`: what stands between the first `=` and the next one, or the end.
pub open spec fn pair_value(s: Seq<char>) -> Seq<char> {
    let e = first_index(s, '=', 0);
    s.subrange(e + 1, first_index(s, '=', e + 1))
}

/// The claim a `name=value` text gives: none without an `=`, or when the value cannot be read.
pub open spec fn pair_claim(s: Seq<char>) -> Option<(Seq<char>, serde_json::Value)> {
    if first_index(s, '=', 0) < s.len() {
        named_claim(pair_name(s), pair_value(s))
    } else {
        None
    }
}

/// The number of seconds that a duration expression stands for.
pub uninterp spec fn duration_seconds(text: Seq<char>) -> Option<u64>;

/// Relies on parse_duration::parse, and Duration::as_secs for its whole seconds.
#[verifier::external_body]
fn parse_duration_secs(text: &str) -> (r: Option<u64>)
    ensures
        r == duration_seconds(text@),
{
    parse_duration::parse(text).ok().map(|d| d.as_secs())
}

/// The time claim read from `text` at reference time `now`: a decimal integer is the
/// timestamp itself; otherwise a duration is added to `now` (no claim if the sum overflows);
/// otherwise there is no claim.
pub open spec fn timestamp_claim(name: Seq<char>, text: Seq<char>, now: u64) -> Option<
    (Seq<char>, serde_json::Value),
> {
    match decimal_u64(text) {
        Some(n) => Some((name, json_unsigned(n))),
        None => match duration_seconds(text) {
            Some(secs) => if secs + now <= u64::MAX {
                Some((name, json_unsigned((secs + now) as u64)))
            } else {
                None
            },
            None => None,
        },
    }
}

impl PayloadItem {
    /// The claim that a `name=value` text gives, if there is one.
    pub fn from_string(val: Option<&str>) -> (r: Option<PayloadItem>)
        ensures
            item_view(r) == match val {
                Some(s) => pair_claim(s@),
                None => None,
            },
    {
        match val {
            Some(s) => PayloadItem::split_payload_item(s),
            None => None,
        }
    }

    /// The claim named `name` whose value is read from `val`: as JSON, else as a JSON
    /// string holding the text, else no claim.
    pub fn from_string_with_name(val: Option<&str>, name: &str) -> (r: Option<PayloadItem>)
        ensures
            item_view(r) == match val {
                Some(text) => named_claim(name@, text@),
                None => None,
            },
    {
        match val {
            Some(text) => match parse_json(text) {
                Some(v) => Some(PayloadItem(name.to_owned(), v)),
                None => {
                    let mut q = "\"".to_owned();
                    q.append(text);
                    q.append("\"");
                    proof {
                        reveal_strlit("\"");
                        assert(q@ == quoted(text@));
                    }
                    match parse_json(q.as_str()) {
                        Some(v) => Some(PayloadItem(name.to_owned(), v)),
                        None => None,
                    }
                },
            },
            None => None,
        }
    }

    /// The time claim named `name` read from `val` at reference time `now`: a UNIX
    /// timestamp, or a duration after `now`; no claim when it is neither.
    pub fn from_timestamp_with_name(val: Option<&str>, name: &str, now: u64) -> (r: Option<
        PayloadItem,
    >)
        ensures
            item_view(r) == match val {
                Some(text) => timestamp_claim(name@, text@, now),
                None => None,
            },
    {
        let text = match val {
            Some(t) => t,
            None => return None,
        };
        if let Some(n) = parse_u64(text) {
            return Some(PayloadItem(name.to_owned(), unsigned_value(n)));
        }
        match parse_duration_secs(text) {
            Some(secs) => match secs.checked_add(now) {
                Some(at) => Some(PayloadItem(name.to_owned(), unsigned_value(at))),
                None => None,
            },
            None => None,
        }
    }

    /// The claim that a `name=value` text gives: the name before the first `=`, the value
    /// up to the next `=`.
    pub fn split_payload_item(p: &str) -> (r: Option<PayloadItem>)
        ensures
            item_view(r) == pair_claim(p@),
    {
        let n = p.unicode_len();
        match find_char(p, '=', 0) {
            None => None,
            Some(e) => {
                let end = match find_char(p, '=', e + 1) {
                    Some(f) => f,
                    None => n,
                };
                let name = p.substring_char(0, e);
                let value = p.substring_char(e + 1, end);
                PayloadItem::from_string_with_name(Some(value), name)
            },
        }
    }
}

/// Accepts a `name=value` text holding exactly one `=`.
pub fn is_payload_item(val: String) -> (r: Result<(), String>)
    ensures
        r is Ok <==> count_char(val@, '=') == 1,
        r matches Err(m) ==> m@ == "payloads must have a key and value in the form key=value"@,
{
    proof {
        reveal_strlit("payloads must have a key and value in the form key=value");
    }
    if count_occurrences(val.as_str(), '=') == 1 {
        Ok(())
    } else {
        Err("payloads must have a key and value in the form key=value".to_owned())
    }
}

/// Accepts a UNIX timestamp or a duration expression.
pub fn is_timestamp_or_duration(val: String) -> (r: Result<(), String>)
    ensures
        r is Ok <==> decimal_i64(val@) is Some || duration_seconds(val@) is Some,
        r matches Err(m) ==> m@ == "must be a UNIX timestamp or systemd.time string"@,
{
    match parse_i64(val.as_str()) {
        Some(_) => Ok(()),
        None => match parse_duration_secs(val.as_str()) {
            Some(_) => Ok(()),
            None => Err("must be a UNIX timestamp or systemd.time string".to_owned()),
        },
    }
}

} // verus!
