//! A JSON document as the library reads and writes it.
use vstd::prelude::*;

verus! {

/// A JSON value.
///
/// Numbers without a fractional part are held as `Int`; a number with a fractional part is
/// held in ten-thousandths as `Decimal` (`0.25` is `Decimal(2500)`). An object keeps its
/// entries in the order in which they were written.
#[derive(Debug, PartialEq)]
pub enum Json {
    Null,
    Bool(bool),
    Int(i64),
    Decimal(i64),
    Text(String),
    Array(Vec<Json>),
    Object(Vec<(String, Json)>),
}

/// The value of the first entry named `key` among `entries`.
pub open spec fn entry_value(entries: Seq<(String, Json)>, key: Seq<char>) -> Option<Json>
    decreases entries.len(),
{
    if entries.len() == 0 {
        None
    } else if entries[0].0@ == key {
        Some(entries[0].1)
    } else {
        entry_value(entries.drop_first(), key)
    }
}

/// The member `key` of an object; nothing for a value that is no object.
pub open spec fn field(j: Json, key: Seq<char>) -> Option<Json> {
    match j {
        Json::Object(entries) => entry_value(entries@, key),
        _ => None,
    }
}

/// The entries of an object; none for any other value.
pub open spec fn entries_of(j: Json) -> Seq<(String, Json)> {
    match j {
        Json::Object(es) => es@,
        _ => Seq::empty(),
    }
}

/// Whether two strings hold the same characters.
pub fn text_eq(a: &str, b: &str) -> (r: bool)
    ensures
        r == (a@ == b@),
{
    let n = a.unicode_len();
    if n != b.unicode_len() {
        return false;
    }
    let mut i: usize = 0;
    while i < n
        invariant
            n == a@.len(),
            n == b@.len(),
            i <= n,
            forall|k: int| 0 <= k < i ==> a@[k] == b@[k],
        decreases n - i,
    {
        if a.get_char(i) != b.get_char(i) {
            return false;
        }
        i += 1;
    }
    assert(a@ =~= b@);
    true
}

impl Json {
    /// The member `key` of an object.
    pub fn get(&self, key: &str) -> (r: Option<&Json>)
        ensures
            r matches Some(v) ==> field(*self, key@) == Some(*v),
            r is None ==> field(*self, key@) is None,
    {
        match self {
            Json::Object(entries) => {
                let mut i: usize = 0;
                assert(entries@.skip(0) =~= entries@);
                while i < entries.len()
                    invariant
                        i <= entries@.len(),
                        field(*self, key@) == entry_value(entries@, key@),
                        entry_value(entries@, key@) == entry_value(entries@.skip(i as int), key@),
                    decreases entries@.len() - i,
                {
                    proof {
                        assert(entries@.skip(i as int).drop_first() =~= entries@.skip(i + 1));
                    }
                    assert(entries@.skip(i as int)[0] == entries@[i as int]);
                    if text_eq(entries[i].0.as_str(), key) {
                        assert(entry_value(entries@.skip(i as int), key@) == Some(entries@[i as int].1));
                        return Some(&entries[i].1);
                    }
                    i += 1;
                }
                None
            },
            _ => None,
        }
    }
}

/// A scalar or a pair as it stands in a request body; the model of one member of an object
/// that the library writes.
pub enum WireValue {
    Bool(bool),
    Int(int),
    Text(Seq<char>),
    /// Two numbers with a fractional part, in ten-thousandths.
    Pair(int, int),
}

/// Whether `j` is the JSON form of `w`.
pub open spec fn json_is(j: Json, w: WireValue) -> bool {
    match w {
        WireValue::Bool(b) => j == Json::Bool(b),
        WireValue::Int(i) => j matches Json::Int(x) && x == i,
        WireValue::Text(s) => j matches Json::Text(t) && t@ == s,
        WireValue::Pair(x, y) => match j {
            Json::Array(v) => v@.len() == 2 && v@[0] == Json::Decimal(x as i64) && v@[1]
                == Json::Decimal(y as i64) && i64::MIN <= x <= i64::MAX && i64::MIN <= y
                <= i64::MAX,
            _ => false,
        },
    }
}

/// Whether the entries `es` are, in order, the members `w`.
#[verifier::opaque]
pub open spec fn entries_are(es: Seq<(String, Json)>, w: Seq<(Seq<char>, WireValue)>) -> bool {
    &&& es.len() == w.len()
    &&& forall|i: int| #![trigger es[i]] 0 <= i < w.len() ==> es[i].0@ == w[i].0 && json_is(es[i].1, w[i].1)
}

/// Whether `j` is an object whose members are, in order, `w`.
pub open spec fn is_object_of(j: Json, w: Seq<(Seq<char>, WireValue)>) -> bool {
    match j {
        Json::Object(es) => entries_are(es@, w),
        _ => false,
    }
}

/// The member `key` with value `x` when there is one, else nothing.
pub open spec fn member(key: Seq<char>, x: Option<WireValue>) -> Seq<(Seq<char>, WireValue)> {
    match x {
        Some(v) => seq![(key, v)],
        None => Seq::empty(),
    }
}

/// A text member for a string slot.
pub open spec fn text_wire(o: Option<String>) -> Option<WireValue> {
    match o {
        Some(s) => Some(WireValue::Text(s@)),
        None => None,
    }
}

/// No entries yet.
pub fn new_entries() -> (r: Vec<(String, Json)>)
    ensures
        entries_are(r@, Seq::empty()),
{
    reveal(entries_are);
    Vec::new()
}

/// Appends the member `key` when `v` holds a value.
pub fn put_member(
    es: &mut Vec<(String, Json)>,
    key: &str,
    v: Option<Json>,
    Ghost(w): Ghost<Seq<(Seq<char>, WireValue)>>,
    Ghost(x): Ghost<Option<WireValue>>,
)
    requires
        entries_are(old(es)@, w),
        v is None <==> x is None,
        v matches Some(j) ==> json_is(j, x->0),
    ensures
        entries_are(final(es)@, w + member(key@, x)),
{
    reveal(entries_are);
    match v {
        Some(j) => {
            let ghost old_es = es@;
            let ghost jj = j;
            let k = key.to_owned();
            assert(json_is(jj, x->0));
            es.push((k, j));
            assert(es@[old_es.len() as int] == (k, jj));
            let ghost w2 = w.push((key@, x->0));
            assert(w + member(key@, x) =~= w2);
            assert forall|i: int| #![trigger es@[i]] 0 <= i < w2.len() implies es@[i].0@ == w2[i].0
                && json_is(es@[i].1, w2[i].1) by {
                if i < w.len() {
                    assert(es@[i] == old_es[i]);
                    assert(json_is(old_es[i].1, w[i].1));
                    assert(w2[i] == w[i]);
                } else {
                    assert(i == old_es.len());
                    assert(k@ == key@);
                    assert(w2[i] == (key@, x->0));
                }
            }
            assert(entries_are(es@, w2));
        },
        None => {
            assert(w + member(key@, x) =~= w);
        },
    }
}

/// A pair of numbers with a fractional part, given in ten-thousandths.
pub fn decimal_pair(x: i64, y: i64) -> (r: Json)
    ensures
        json_is(r, WireValue::Pair(x as int, y as int)),
{
    let mut v: Vec<Json> = Vec::new();
    v.push(Json::Decimal(x));
    v.push(Json::Decimal(y));
    Json::Array(v)
}

/// Takes the value of the first entry named `key` out of `entries`.
pub fn take_member(entries: Vec<(String, Json)>, key: &str) -> (r: Option<Json>)
    ensures
        r == entry_value(entries@, key@),
{
    let mut es = entries;
    let ghost all = es@;
    let mut i: usize = 0;
    assert(all.skip(0) =~= all);
    while i < es.len()
        invariant
            es@ == all,
            all == entries@,
            i <= all.len(),
            entry_value(all, key@) == entry_value(all.skip(i as int), key@),
        decreases all.len() - i,
    {
        assert(all.skip(i as int).drop_first() =~= all.skip(i + 1));
        assert(all.skip(i as int)[0] == all[i as int]);
        if text_eq(es[i].0.as_str(), key) {
            assert(entry_value(all.skip(i as int), key@) == Some(all[i as int].1));
            let e = es.remove(i);
            assert(e == all[i as int]);
            let (_, v) = e;
            return Some(v);
        }
        i += 1;
    }
    None
}

} // verus!
