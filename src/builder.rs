//! The claim set of a new token, built from the standard claims, `name=value` texts and a
//! JSON object.
use vstd::prelude::*;
use crate::claims::{PayloadItem, item_view, named_claim, pair_claim, timestamp_claim};
use crate::json::{json_object_parse, json_unsigned, parse_json_object, unsigned_value};
use crate::payload::{Payload, item_views, lemma_merged_absent, lemma_merged_last_wins, merged};

verus! {

/// What a new token's claims are made from.
#[derive(Debug, Clone)]
pub struct ClaimOptions {
    /// Leave out the automatic `iat` claim.
    pub no_iat: bool,
    /// The expiry: a UNIX timestamp or a duration after now.
    pub expires: Option<String>,
    /// The start of validity: a UNIX timestamp or a duration after now.
    pub not_before: Option<String>,
    pub issuer: Option<String>,
    pub subject: Option<String>,
    pub audience: Option<String>,
    pub jwt_id: Option<String>,
    /// `name=value` texts, in the order given.
    pub payloads: Vec<String>,
    /// A JSON object whose entries become claims.
    pub json: Option<String>,
}

/// Why no claim set could be built.
#[derive(Debug, Clone, Copy, PartialEq, Eq, Structural)]
pub enum ClaimError {
    /// The JSON text is not one JSON object.
    InvalidJson,
}

/// The value of an option as a sequence of zero or one element.
pub open spec fn opt_seq<T>(o: Option<T>) -> Seq<T> {
    match o {
        Some(x) => seq![x],
        None => Seq::empty(),
    }
}

/// The claim named `name` read from an optional text.
pub open spec fn text_claim(name: Seq<char>, o: Option<String>) -> Option<(Seq<char>, serde_json::Value)> {
    match o {
        Some(t) => named_claim(name, t@),
        None => None,
    }
}

/// The time claim named `name` read from an optional text at time `now`.
pub open spec fn time_claim(name: Seq<char>, o: Option<String>, now: u64) -> Option<
    (Seq<char>, serde_json::Value),
> {
    match o {
        Some(t) => timestamp_claim(name, t@, now),
        None => None,
    }
}

/// The `iat` claim: `now`, unless left out.
pub open spec fn issued_at_claim(no_iat: bool, now: u64) -> Option<(Seq<char>, serde_json::Value)> {
    if no_iat {
        None
    } else {
        Some(("iat"@, json_unsigned(now)))
    }
}

/// The standard claims after `iat`, in their order: `exp`, `iss`, `sub`, `aud`, `jti`, `nbf`.
pub open spec fn supplied_claims(o: ClaimOptions, now: u64) -> Seq<(Seq<char>, serde_json::Value)> {
    opt_seq(time_claim("exp"@, o.expires, now)) + opt_seq(text_claim("iss"@, o.issuer))
        + opt_seq(text_claim("sub"@, o.subject)) + opt_seq(text_claim("aud"@, o.audience))
        + opt_seq(text_claim("jti"@, o.jwt_id)) + opt_seq(time_claim("nbf"@, o.not_before, now))
}

/// The standard claims in their order: `iat`, `exp`, `iss`, `sub`, `aud`, `jti`, `nbf`.
pub open spec fn standard_claims(o: ClaimOptions, now: u64) -> Seq<(Seq<char>, serde_json::Value)> {
    opt_seq(issued_at_claim(o.no_iat, now)) + supplied_claims(o, now)
}

/// The claims that `name=value` texts give, in order.
pub open spec fn pair_claims(ps: Seq<String>) -> Seq<(Seq<char>, serde_json::Value)>
    decreases ps.len(),
{
    if ps.len() == 0 {
        Seq::empty()
    } else {
        pair_claims(ps.drop_last()) + opt_seq(pair_claim(ps.last()@))
    }
}

/// All claims in the order they are merged, or none when the JSON text is not an object.
pub open spec fn claim_sequence(o: ClaimOptions, now: u64) -> Option<Seq<(Seq<char>, serde_json::Value)>> {
    let fixed = standard_claims(o, now) + pair_claims(o.payloads@);
    match o.json {
        None => Some(fixed),
        Some(j) => match json_object_parse(j@) {
            Some(entries) => Some(fixed + entries),
            None => None,
        },
    }
}

/// Appends a claim, if there is one.
fn push_claim(items: &mut Vec<PayloadItem>, o: Option<PayloadItem>)
    ensures
        item_views(final(items)@) == item_views(old(items)@) + opt_seq(item_view(o)),
{
    let ghost before = item_views(items@);
    match o {
        Some(item) => {
            items.push(item);
        },
        None => {},
    }
    assert(item_views(items@) =~= before + opt_seq(item_view(o)));
}

/// Borrows the text of an optional string.
fn opt_str(o: &Option<String>) -> (r: Option<&str>)
    ensures
        r matches Some(s) ==> o matches Some(t) && s@ == t@,
        r is None ==> o is None,
{
    match o {
        Some(t) => Some(t.as_str()),
        None => None,
    }
}

/// The standard claims after `iat`, in their order.
fn supplied_items(o: &ClaimOptions, now: u64) -> (r: Vec<PayloadItem>)
    ensures
        item_views(r@) == supplied_claims(*o, now),
{
    let mut items: Vec<PayloadItem> = Vec::new();
    let exp = PayloadItem::from_timestamp_with_name(opt_str(&o.expires), "exp", now);
    assert(item_view(exp) == time_claim("exp"@, o.expires, now));
    push_claim(&mut items, exp);
    let iss = PayloadItem::from_string_with_name(opt_str(&o.issuer), "iss");
    assert(item_view(iss) == text_claim("iss"@, o.issuer));
    push_claim(&mut items, iss);
    let sub = PayloadItem::from_string_with_name(opt_str(&o.subject), "sub");
    assert(item_view(sub) == text_claim("sub"@, o.subject));
    push_claim(&mut items, sub);
    let aud = PayloadItem::from_string_with_name(opt_str(&o.audience), "aud");
    assert(item_view(aud) == text_claim("aud"@, o.audience));
    push_claim(&mut items, aud);
    let jti = PayloadItem::from_string_with_name(opt_str(&o.jwt_id), "jti");
    assert(item_view(jti) == text_claim("jti"@, o.jwt_id));
    push_claim(&mut items, jti);
    let nbf = PayloadItem::from_timestamp_with_name(opt_str(&o.not_before), "nbf", now);
    assert(item_view(nbf) == time_claim("nbf"@, o.not_before, now));
    push_claim(&mut items, nbf);
    assert(item_views(items@) =~= supplied_claims(*o, now));
    items
}

/// Builds the claim set of a new token at time `now`. Claims are merged in this order, a
/// later one overwriting an earlier one of the same name: `iat` (unless left out), `exp`,
/// `iss`, `sub`, `aud`, `jti`, `nbf`, the `name=value` claims, the JSON object's entries.
pub fn build_claims(o: &ClaimOptions, now: u64) -> (r: Result<Payload, ClaimError>)
    ensures
        match claim_sequence(*o, now) {
            Some(s) => r matches Ok(p) && p.wf() && p@ == merged(s),
            None => r == Err::<Payload, ClaimError>(ClaimError::InvalidJson),
        },
{
    let mut items: Vec<PayloadItem> = Vec::new();
    let iat = if o.no_iat {
        None
    } else {
        Some(PayloadItem("iat".to_owned(), unsigned_value(now)))
    };
    push_claim(&mut items, iat);
    let ghost head = item_views(items@);
    assert(head =~= opt_seq(issued_at_claim(o.no_iat, now)));
    let mut rest = supplied_items(o, now);
    items.append(&mut rest);
    assert(item_views(items@) =~= head + supplied_claims(*o, now));
    let ghost fixed = item_views(items@);
    assert(fixed == standard_claims(*o, now));
    let mut k: usize = 0;
    assert(o.payloads@.subrange(0, 0) =~= Seq::<String>::empty());
    assert(fixed + pair_claims(o.payloads@.subrange(0, 0)) =~= fixed);
    while k < o.payloads.len()
        invariant
            k <= o.payloads@.len(),
            item_views(items@) == fixed + pair_claims(o.payloads@.subrange(0, k as int)),
        decreases o.payloads@.len() - k,
    {
        assert(o.payloads@.subrange(0, k + 1).drop_last() == o.payloads@.subrange(0, k as int));
        push_claim(&mut items, PayloadItem::split_payload_item(o.payloads[k].as_str()));
        assert(fixed + pair_claims(o.payloads@.subrange(0, k + 1)) =~= fixed + pair_claims(
            o.payloads@.subrange(0, k as int),
        ) + opt_seq(pair_claim(o.payloads@[k as int]@)));
        k = k + 1;
    }
    assert(o.payloads@.subrange(0, o.payloads@.len() as int) == o.payloads@);
    match &o.json {
        None => Ok(Payload::from_payloads(items)),
        Some(j) => match parse_json_object(j.as_str()) {
            None => Err(ClaimError::InvalidJson),
            Some(entries) => {
                let ghost base = item_views(items@);
                let ghost es = json_object_parse(j@)->0;
                let mut m: usize = 0;
                assert(es.subrange(0, 0) =~= Seq::<(Seq<char>, serde_json::Value)>::empty());
                assert(base + es.subrange(0, 0) =~= base);
                while m < entries.len()
                    invariant
                        m <= entries@.len(),
                        entries@.len() == es.len(),
                        forall|x: int|
                            0 <= x < entries@.len() ==> #[trigger] entries@[x].0@ == es[x].0
                                && entries@[x].1 == es[x].1,
                        item_views(items@) == base + es.subrange(0, m as int),
                    decreases entries@.len() - m,
                {
                    let item = PayloadItem(entries[m].0.clone(), entries[m].1.clone());
                    assert(item@ == es[m as int]);
                    push_claim(&mut items, Some(item));
                    assert(base + es.subrange(0, m + 1) =~= base + es.subrange(0, m as int)
                        + opt_seq(Some(es[m as int])));
                    m = m + 1;
                }
                assert(es.subrange(0, es.len() as int) == es);
                Ok(Payload::from_payloads(items))
            },
        },
    }
}

/// The claims that follow the standard ones: the `name=value` claims, then the JSON
/// object's entries.
pub open spec fn later_claims(o: ClaimOptions) -> Seq<(Seq<char>, serde_json::Value)> {
    pair_claims(o.payloads@) + match o.json {
        Some(j) => match json_object_parse(j@) {
            Some(entries) => entries,
            None => Seq::empty(),
        },
        None => Seq::empty(),
    }
}

/// No claim of the sequence has this name.
pub open spec fn lacks_name(s: Seq<(Seq<char>, serde_json::Value)>, name: Seq<char>) -> bool {
    forall|j: int| 0 <= j < s.len() ==> #[trigger] s[j].0 != name
}

/// Two sequences without a name join into one without it.
proof fn lemma_lacks_concat(a: Seq<(Seq<char>, serde_json::Value)>, b: Seq<(Seq<char>, serde_json::Value)>, name: Seq<char>)
    requires
        lacks_name(a, name),
        lacks_name(b, name),
    ensures
        lacks_name(a + b, name),
{
    assert forall|j: int| 0 <= j < (a + b).len() implies #[trigger] (a + b)[j].0 != name by {
        if j < a.len() {
            assert((a + b)[j] == a[j]);
        } else {
            assert((a + b)[j] == b[j - a.len()]);
        }
    }
}

/// A time claim carries the name it is given.
proof fn lemma_time_claim_named(name: Seq<char>, other: Seq<char>, o: Option<String>, now: u64)
    requires
        name != other,
    ensures
        lacks_name(opt_seq(time_claim(name, o, now)), other),
{
}

/// A text claim carries the name it is given.
proof fn lemma_text_claim_named(name: Seq<char>, other: Seq<char>, o: Option<String>)
    requires
        name != other,
    ensures
        lacks_name(opt_seq(text_claim(name, o)), other),
{
}

/// None of the standard claims after `iat` is named `iat`.
proof fn lemma_supplied_lack_iat(o: ClaimOptions, now: u64)
    ensures
        lacks_name(supplied_claims(o, now), "iat"@),
{
    reveal_strlit("iat");
    reveal_strlit("exp");
    reveal_strlit("iss");
    reveal_strlit("sub");
    reveal_strlit("aud");
    reveal_strlit("jti");
    reveal_strlit("nbf");
    let iat = "iat"@;
    assert("exp"@[1] != iat[1]);
    assert("iss"@[1] != iat[1]);
    assert("sub"@[0] != iat[0]);
    assert("aud"@[1] != iat[1]);
    assert("jti"@[0] != iat[0]);
    assert("nbf"@[0] != iat[0]);
    let a = opt_seq(time_claim("exp"@, o.expires, now));
    let b = opt_seq(text_claim("iss"@, o.issuer));
    let c = opt_seq(text_claim("sub"@, o.subject));
    let d = opt_seq(text_claim("aud"@, o.audience));
    let e = opt_seq(text_claim("jti"@, o.jwt_id));
    let f = opt_seq(time_claim("nbf"@, o.not_before, now));
    lemma_time_claim_named("exp"@, iat, o.expires, now);
    lemma_text_claim_named("iss"@, iat, o.issuer);
    lemma_text_claim_named("sub"@, iat, o.subject);
    lemma_text_claim_named("aud"@, iat, o.audience);
    lemma_text_claim_named("jti"@, iat, o.jwt_id);
    lemma_time_claim_named("nbf"@, iat, o.not_before, now);
    lemma_lacks_concat(a, b, iat);
    lemma_lacks_concat(a + b, c, iat);
    lemma_lacks_concat(a + b + c, d, iat);
    lemma_lacks_concat(a + b + c + d, e, iat);
    lemma_lacks_concat(a + b + c + d + e, f, iat);
}

/// When no `name=value` claim or JSON entry is named `iat`: leaving out `iat` leaves the
/// claim set without one, and otherwise `iat` is the time of encoding.
pub proof fn lemma_issued_at(o: ClaimOptions, now: u64)
    requires
        claim_sequence(o, now) is Some,
        lacks_name(later_claims(o), "iat"@),
    ensures
        o.no_iat ==> !merged(claim_sequence(o, now)->0).contains_key("iat"@),
        !o.no_iat ==> merged(claim_sequence(o, now)->0).contains_key("iat"@)
            && merged(claim_sequence(o, now)->0)["iat"@] == json_unsigned(now),
{
    let iat = "iat"@;
    let rest = supplied_claims(o, now);
    lemma_supplied_lack_iat(o, now);
    lemma_lacks_concat(rest, later_claims(o), iat);
    let s = claim_sequence(o, now)->0;
    assert(s =~= opt_seq(issued_at_claim(o.no_iat, now)) + (rest + later_claims(o)));
    if o.no_iat {
        assert(s =~= rest + later_claims(o));
        lemma_merged_absent(s, iat);
    } else {
        assert(s[0] == (iat, json_unsigned(now)));
        assert forall|j: int| 0 < j < s.len() implies #[trigger] s[j].0 != s[0].0 by {
            assert(s[j] == (rest + later_claims(o))[j - 1]);
        }
        lemma_merged_last_wins(s, 0);
    }
}

} // verus!
