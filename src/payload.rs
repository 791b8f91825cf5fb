//! The claim set: claims merged by name, the later overwriting the earlier.
use vstd::prelude::*;
use crate::algorithms::str_equal;
use crate::claims::PayloadItem;
use crate::json::{json_as_i64, json_string, string_value, value_as_i64};

verus! {

/// The views of a sequence of claims.
pub open spec fn item_views(v: Seq<PayloadItem>) -> Seq<(Seq<char>, serde_json::Value)> {
    v.map_values(|i: PayloadItem| i@)
}

/// The claims map that a sequence of claims gives, each claim overwriting an earlier one
/// of the same name.
pub open spec fn merged(items: Seq<(Seq<char>, serde_json::Value)>) -> Map<Seq<char>, serde_json::Value>
    decreases items.len(),
{
    if items.len() == 0 {
        Map::empty()
    } else {
        merged(items.drop_last()).insert(items.last().0, items.last().1)
    }
}

/// No two claims share a name.
pub open spec fn names_unique(items: Seq<(Seq<char>, serde_json::Value)>) -> bool {
    forall|i: int, j: int| 0 <= i < j < items.len() ==> items[i].0 != items[j].0
}

/// The claims of a token, each name at most once.
#[derive(Debug, Clone, PartialEq)]
pub struct Payload(pub Vec<PayloadItem>);

impl View for Payload {
    type V = Map<Seq<char>, serde_json::Value>;

    open spec fn view(&self) -> Map<Seq<char>, serde_json::Value> {
        merged(item_views(self.0@))
    }
}

/// Replacing the value of a claim whose name is unique replaces it in the claims map.
proof fn lemma_merged_update(s: Seq<(Seq<char>, serde_json::Value)>, j: int, v: serde_json::Value)
    requires
        names_unique(s),
        0 <= j < s.len(),
    ensures
        merged(s.update(j, (s[j].0, v))) == merged(s).insert(s[j].0, v),
    decreases s.len(),
{
    let t = s.update(j, (s[j].0, v));
    if j == s.len() - 1 {
        assert(t.drop_last() == s.drop_last());
        assert(merged(t) =~= merged(s).insert(s[j].0, v));
    } else {
        assert(t.drop_last() == s.drop_last().update(j, (s[j].0, v)));
        lemma_merged_update(s.drop_last(), j, v);
        assert(s.last().0 != s[j].0);
        assert(merged(t) =~= merged(s).insert(s[j].0, v));
    }
}

/// Where a claim of this name stands.
fn position_of(items: &Vec<PayloadItem>, name: &str) -> (r: Option<usize>)
    ensures
        r matches Some(j) ==> j < items@.len() && items@[j as int].0@ == name@,
        r is None ==> forall|k: int| 0 <= k < items@.len() ==> items@[k].0@ != name@,
{
    let mut k: usize = 0;
    while k < items.len()
        invariant
            k <= items@.len(),
            forall|m: int| 0 <= m < k ==> items@[m].0@ != name@,
        decreases items@.len() - k,
    {
        if str_equal(items[k].0.as_str(), name) {
            return Some(k);
        }
        k = k + 1;
    }
    None
}

/// A copy of a claim.
fn copy_item(item: &PayloadItem) -> (r: PayloadItem)
    ensures
        r@ == item@,
{
    PayloadItem(item.0.clone(), item.1.clone())
}

/// Whether a name is one of the time claims `iat`, `nbf`, `exp`.
pub open spec fn is_time_claim(name: Seq<char>) -> bool {
    name == "iat"@ || name == "nbf"@ || name == "exp"@
}

/// The RFC 3339 text of a UNIX timestamp in UTC, when the date is representable.
pub uninterp spec fn rfc3339_of(secs: i64) -> Option<Seq<char>>;

/// Relies on chrono's DateTime::from_timestamp and DateTime::to_rfc3339: the UTC time of a
/// UNIX timestamp, written in RFC 3339, when chrono can represent it.
#[verifier::external_body]
fn rfc3339_text(secs: i64) -> (r: Option<String>)
    ensures
        r matches Some(t) ==> rfc3339_of(secs) == Some(t@),
        r is None ==> rfc3339_of(secs) is None,
{
    chrono::DateTime::from_timestamp(secs, 0).map(|t| t.to_rfc3339())
}

/// A claim as it is displayed: an integer time claim becomes its ISO-8601 date text.
pub open spec fn rendered(e: (Seq<char>, serde_json::Value)) -> (Seq<char>, serde_json::Value) {
    if is_time_claim(e.0) && json_as_i64(e.1) is Some && rfc3339_of(json_as_i64(e.1)->0) is Some {
        (e.0, json_string(rfc3339_of(json_as_i64(e.1)->0)->0))
    } else {
        e
    }
}

impl Payload {
    /// Whether no two claims share a name.
    pub open spec fn wf(&self) -> bool {
        names_unique(item_views(self.0@))
    }

    /// Merges claims in order; a claim overwrites an earlier one of the same name.
    pub fn from_payloads(payloads: Vec<PayloadItem>) -> (r: Payload)
        ensures
            r.wf(),
            r@ == merged(item_views(payloads@)),
    {
        let ghost src = item_views(payloads@);
        let mut out: Vec<PayloadItem> = Vec::new();
        let mut i: usize = 0;
        assert(src.subrange(0, 0) =~= Seq::<(Seq<char>, serde_json::Value)>::empty());
        assert(item_views(out@) =~= Seq::<(Seq<char>, serde_json::Value)>::empty());
        while i < payloads.len()
            invariant
                i <= payloads@.len(),
                src == item_views(payloads@),
                names_unique(item_views(out@)),
                merged(item_views(out@)) == merged(src.subrange(0, i as int)),
            decreases payloads@.len() - i,
        {
            let item = copy_item(&payloads[i]);
            assert(src.subrange(0, i + 1).drop_last() == src.subrange(0, i as int));
            assert(src[i as int] == item@);
            let ghost before = item_views(out@);
            match position_of(&out, item.0.as_str()) {
                Some(j) => {
                    proof {
                        lemma_merged_update(before, j as int, item.1);
                    }
                    out.set(j, item);
                    assert(item_views(out@) =~= before.update(j as int, (before[j as int].0, item@.1)));
                },
                None => {
                    out.push(item);
                    assert(item_views(out@) =~= before.push(item@));
                    assert(item_views(out@).drop_last() == before);
                },
            }
            i = i + 1;
        }
        assert(src.subrange(0, payloads@.len() as int) == src);
        Payload(out)
    }

    /// Rewrites each of `iat`, `nbf`, `exp` that holds an integer into its ISO-8601 date text.
    pub fn convert_timestamps(&mut self)
        ensures
            item_views(final(self).0@) == item_views(old(self).0@).map_values(
                |e: (Seq<char>, serde_json::Value)| rendered(e),
            ),
    {
        let ghost orig = item_views(self.0@);
        let n = self.0.len();
        let mut i: usize = 0;
        while i < n
            invariant
                i <= n,
                n == self.0@.len(),
                orig.len() == n,
                forall|k: int| 0 <= k < i ==> #[trigger] item_views(self.0@)[k] == rendered(orig[k]),
                forall|k: int| i <= k < n ==> #[trigger] item_views(self.0@)[k] == orig[k],
            decreases n - i,
        {
            let ghost prev = self.0@;
            assert(item_views(prev)[i as int] == prev[i as int]@);
            let name = self.0[i].0.as_str();
            proof {
                reveal_strlit("iat");
                reveal_strlit("nbf");
                reveal_strlit("exp");
            }
            if str_equal(name, "iat") || str_equal(name, "nbf") || str_equal(name, "exp") {
                match value_as_i64(&self.0[i].1) {
                    Some(secs) => match rfc3339_text(secs) {
                        Some(t) => {
                            let item = PayloadItem(self.0[i].0.clone(), string_value(t));
                            self.0.set(i, item);
                        },
                        None => {},
                    },
                    None => {},
                }
            }
            proof {
                assert forall|k: int| 0 <= k < n && k != i implies item_views(self.0@)[k]
                    == item_views(prev)[k] by {
                    assert(self.0@[k] == prev[k]);
                }
                assert(item_views(self.0@)[i as int] == self.0@[i as int]@);
                assert(item_views(self.0@)[i as int] == rendered(orig[i as int]));
                assert forall|k: int| 0 <= k < i + 1 implies #[trigger] item_views(self.0@)[k]
                    == rendered(orig[k]) by {
                    if k < i {
                        assert(item_views(prev)[k] == rendered(orig[k]));
                    }
                }
                assert forall|k: int| i + 1 <= k < n implies #[trigger] item_views(self.0@)[k]
                    == orig[k] by {
                    assert(item_views(prev)[k] == orig[k]);
                }
            }
            i = i + 1;
        }
        assert(item_views(self.0@) =~= orig.map_values(
            |e: (Seq<char>, serde_json::Value)| rendered(e),
        ));
    }
}

/// A claim that no later claim renames over stays in the claims map with its value: the
/// last claim of each name wins.
pub proof fn lemma_merged_last_wins(items: Seq<(Seq<char>, serde_json::Value)>, i: int)
    requires
        0 <= i < items.len(),
        forall|j: int| i < j < items.len() ==> items[j].0 != items[i].0,
    ensures
        merged(items).contains_key(items[i].0),
        merged(items)[items[i].0] == items[i].1,
    decreases items.len(),
{
    if i < items.len() - 1 {
        lemma_merged_last_wins(items.drop_last(), i);
    }
}

/// A name that no claim has is not in the claims map.
pub proof fn lemma_merged_absent(items: Seq<(Seq<char>, serde_json::Value)>, name: Seq<char>)
    requires
        forall|j: int| 0 <= j < items.len() ==> items[j].0 != name,
    ensures
        !merged(items).contains_key(name),
    decreases items.len(),
{
    if items.len() > 0 {
        lemma_merged_absent(items.drop_last(), name);
    }
}

} // verus!
