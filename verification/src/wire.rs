//! The self-describing value tree that packets are written to and read from.
//!
//! A packet's shape on the wire is the one serde's derived implementations
//! give it in a self-describing format: a unit variant is its name as a
//! string, any other variant is an object with the variant's name as its one
//! key, a struct is an object keyed by field names, and tuples are arrays.
//! Formats such as JSON turn this tree into bytes.
use vstd::prelude::*;

verus! {

/// The mathematical form of a wire value.
pub enum Wire {
    Null,
    Bool(bool),
    UInt(u64),
    Int(i64),
    Str(Seq<char>),
    Array(Seq<Wire>),
    Object(Seq<(Seq<char>, Wire)>),
    /// A value no packet holds, such as a fractional number.
    Unsupported,
}

/// A wire value: the executable form of [`Wire`].
#[derive(Debug, PartialEq, Eq)]
pub enum WireValue {
    Null,
    Bool(bool),
    UInt(u64),
    Int(i64),
    Str(String),
    Array(Vec<WireValue>),
    Object(Vec<(String, WireValue)>),
    Unsupported,
}

impl WireValue {
    pub open spec fn spec_model(self) -> Wire
        decreases self, 0nat,
    {
        match self {
            WireValue::Null => Wire::Null,
            WireValue::Bool(b) => Wire::Bool(b),
            WireValue::UInt(n) => Wire::UInt(n),
            WireValue::Int(n) => Wire::Int(n),
            WireValue::Str(s) => Wire::Str(s@),
            WireValue::Array(v) => Wire::Array(Self::model_seq(v@)),
            WireValue::Object(v) => Wire::Object(Self::model_entries(v@)),
            WireValue::Unsupported => Wire::Unsupported,
        }
    }

    pub open spec fn model_seq(s: Seq<WireValue>) -> Seq<Wire>
        decreases s, 1nat,
    {
        if s.len() == 0 {
            Seq::empty()
        } else {
            seq![s[0].spec_model()] + Self::model_seq(s.subrange(1, s.len() as int))
        }
    }

    pub open spec fn model_entries(s: Seq<(String, WireValue)>) -> Seq<(Seq<char>, Wire)>
        decreases s, 1nat,
    {
        if s.len() == 0 {
            Seq::empty()
        } else {
            seq![(s[0].0@, s[0].1.spec_model())] + Self::model_entries(
                s.subrange(1, s.len() as int),
            )
        }
    }
}

impl View for WireValue {
    type V = Wire;

    open spec fn view(&self) -> Wire {
        self.spec_model()
    }
}

/// The model of a sequence of values is the sequence of their models.
pub proof fn lemma_model_seq(s: Seq<WireValue>)
    ensures
        WireValue::model_seq(s).len() == s.len(),
        forall|i: int| 0 <= i < s.len() ==> #[trigger] WireValue::model_seq(s)[i] == s[i]@,
    decreases s.len(),
{
    if s.len() > 0 {
        let rest = s.subrange(1, s.len() as int);
        lemma_model_seq(rest);
        assert forall|i: int| 0 <= i < s.len() implies #[trigger] WireValue::model_seq(s)[i]
            == s[i]@ by {
            if i > 0 {
                assert(rest[i - 1] == s[i]);
            }
        }
    }
}

/// The model of a sequence of entries is the sequence of their models.
pub proof fn lemma_model_entries(s: Seq<(String, WireValue)>)
    ensures
        WireValue::model_entries(s).len() == s.len(),
        forall|i: int|
            0 <= i < s.len() ==> #[trigger] WireValue::model_entries(s)[i] == (s[i].0@, s[i].1@),
    decreases s.len(),
{
    if s.len() > 0 {
        let rest = s.subrange(1, s.len() as int);
        lemma_model_entries(rest);
        assert forall|i: int| 0 <= i < s.len() implies #[trigger] WireValue::model_entries(s)[i]
            == (s[i].0@, s[i].1@) by {
            if i > 0 {
                assert(rest[i - 1] == s[i]);
            }
        }
    }
}

// ---------------------------------------------------------------------------
// Reading values
// ---------------------------------------------------------------------------
pub open spec fn wire_u64(w: Wire) -> Option<u64> {
    match w {
        Wire::UInt(n) => Some(n),
        _ => None,
    }
}

pub open spec fn wire_u32(w: Wire) -> Option<u32> {
    match w {
        Wire::UInt(n) => if n <= u32::MAX {
            Some(n as u32)
        } else {
            None
        },
        _ => None,
    }
}

/// A signed 32-bit number: written as a signed number, or as an unsigned one
/// when it is not negative (as a JSON reader gives it back).
pub open spec fn wire_i32(w: Wire) -> Option<i32> {
    match w {
        Wire::Int(n) => if i32::MIN <= n <= i32::MAX {
            Some(n as i32)
        } else {
            None
        },
        Wire::UInt(n) => if n <= i32::MAX {
            Some(n as i32)
        } else {
            None
        },
        _ => None,
    }
}

pub open spec fn wire_str(w: Wire) -> Option<Seq<char>> {
    match w {
        Wire::Str(s) => Some(s),
        _ => None,
    }
}

/// The two elements of an array of exactly two elements.
pub open spec fn wire_pair(w: Wire) -> Option<(Wire, Wire)> {
    match w {
        Wire::Array(s) => if s.len() == 2 {
            Some((s[0], s[1]))
        } else {
            None
        },
        _ => None,
    }
}

/// An enum value: a bare name for a unit variant, or an object with exactly one
/// entry whose key names the variant and whose value is its content.
pub open spec fn wire_variant(w: Wire) -> Option<(Seq<char>, Option<Wire>)> {
    match w {
        Wire::Str(s) => Some((s, None)),
        Wire::Object(e) => if e.len() == 1 {
            Some((e[0].0, Some(e[0].1)))
        } else {
            None
        },
        _ => None,
    }
}

/// The content of a unit variant: nothing, or null.
pub open spec fn unit_content(c: Option<Wire>) -> bool {
    c is None || c == Some(Wire::Null)
}

/// The value of the first entry with the given key.
pub open spec fn field_of(e: Seq<(Seq<char>, Wire)>, key: Seq<char>) -> Option<Wire>
    decreases e.len(),
{
    if e.len() == 0 {
        None
    } else if e[0].0 == key {
        Some(e[0].1)
    } else {
        field_of(e.subrange(1, e.len() as int), key)
    }
}

/// A struct of two fields: an object holding both keys, or an array of exactly
/// two elements in field order.
pub open spec fn wire_struct2(w: Wire, k1: Seq<char>, k2: Seq<char>) -> Option<(Wire, Wire)> {
    match w {
        Wire::Object(e) => match (field_of(e, k1), field_of(e, k2)) {
            (Some(a), Some(b)) => Some((a, b)),
            _ => None,
        },
        Wire::Array(s) => if s.len() == 2 {
            Some((s[0], s[1]))
        } else {
            None
        },
        _ => None,
    }
}

/// A struct of one field: an object holding its key, or an array of exactly one
/// element.
pub open spec fn wire_struct1(w: Wire, k: Seq<char>) -> Option<Wire> {
    match w {
        Wire::Object(e) => field_of(e, k),
        Wire::Array(s) => if s.len() == 1 {
            Some(s[0])
        } else {
            None
        },
        _ => None,
    }
}

pub fn read_u64(w: &WireValue) -> (r: Option<u64>)
    ensures
        r == wire_u64(w@),
{
    match w {
        WireValue::UInt(n) => Some(*n),
        _ => None,
    }
}

pub fn read_u32(w: &WireValue) -> (r: Option<u32>)
    ensures
        r == wire_u32(w@),
{
    match w {
        WireValue::UInt(n) => if *n <= 4294967295u64 {
            Some(*n as u32)
        } else {
            None
        },
        _ => None,
    }
}

pub fn read_i32(w: &WireValue) -> (r: Option<i32>)
    ensures
        r == wire_i32(w@),
{
    match w {
        WireValue::Int(n) => if -2147483648i64 <= *n && *n <= 2147483647i64 {
            Some(*n as i32)
        } else {
            None
        },
        WireValue::UInt(n) => if *n <= 2147483647u64 {
            Some(*n as i32)
        } else {
            None
        },
        _ => None,
    }
}

pub fn read_string(w: &WireValue) -> (r: Option<String>)
    ensures
        r is Some <==> wire_str(w@) is Some,
        r matches Some(s) ==> wire_str(w@) == Some(s@),
{
    match w {
        WireValue::Str(s) => Some(s.clone()),
        _ => None,
    }
}

pub fn read_pair(w: &WireValue) -> (r: Option<(&WireValue, &WireValue)>)
    ensures
        r is Some <==> wire_pair(w@) is Some,
        r matches Some(p) ==> wire_pair(w@) == Some((p.0@, p.1@)),
{
    match w {
        WireValue::Array(v) => {
            proof {
                lemma_model_seq(v@);
            }
            if v.len() == 2 {
                Some((&v[0], &v[1]))
            } else {
                None
            }
        },
        _ => None,
    }
}

pub fn read_array(w: &WireValue) -> (r: Option<&Vec<WireValue>>)
    ensures
        r is Some <==> w@ is Array,
        r matches Some(v) ==> w@ == Wire::Array(WireValue::model_seq(v@)),
{
    match w {
        WireValue::Array(v) => Some(v),
        _ => None,
    }
}

pub fn read_variant(w: &WireValue) -> (r: Option<(&String, Option<&WireValue>)>)
    ensures
        r is Some <==> wire_variant(w@) is Some,
        r matches Some(p) ==> wire_variant(w@) == Some(
            (
                p.0@,
                match p.1 {
                    Some(c) => Some(c@),
                    None => None,
                },
            ),
        ),
{
    match w {
        WireValue::Str(s) => Some((s, None)),
        WireValue::Object(e) => {
            proof {
                lemma_model_entries(e@);
            }
            if e.len() == 1 {
                Some((&e[0].0, Some(&e[0].1)))
            } else {
                None
            }
        },
        _ => None,
    }
}

pub fn is_unit_content(c: Option<&WireValue>) -> (r: bool)
    ensures
        r == unit_content(
            match c {
                Some(v) => Some(v@),
                None => None,
            },
        ),
{
    match c {
        None => true,
        Some(WireValue::Null) => true,
        Some(_) => false,
    }
}

pub fn find_field<'a>(e: &'a Vec<(String, WireValue)>, key: &String) -> (r: Option<&'a WireValue>)
    ensures
        r is Some <==> field_of(WireValue::model_entries(e@), key@) is Some,
        r matches Some(v) ==> field_of(WireValue::model_entries(e@), key@) == Some(v@),
{
    let ghost m = WireValue::model_entries(e@);
    proof {
        lemma_model_entries(e@);
    }
    let mut i: usize = 0;
    assert(m.subrange(0, m.len() as int) =~= m);
    while i < e.len()
        invariant
            0 <= i <= e.len(),
            m == WireValue::model_entries(e@),
            m.len() == e@.len(),
            forall|j: int| 0 <= j < e@.len() ==> #[trigger] m[j] == (e@[j].0@, e@[j].1@),
            field_of(m, key@) == field_of(m.subrange(i as int, m.len() as int), key@),
        decreases e.len() - i,
    {
        let ghost rest = m.subrange(i as int, m.len() as int);
        assert(rest[0] == m[i as int]);
        if e[i].0 == *key {
            return Some(&e[i].1);
        }
        assert(rest.subrange(1, rest.len() as int) =~= m.subrange(i + 1, m.len() as int));
        i = i + 1;
    }
    assert(m.subrange(i as int, m.len() as int).len() == 0);
    None
}

pub fn read_struct1<'a>(w: &'a WireValue, k: &String) -> (r: Option<&'a WireValue>)
    ensures
        r is Some <==> wire_struct1(w@, k@) is Some,
        r matches Some(v) ==> wire_struct1(w@, k@) == Some(v@),
{
    match w {
        WireValue::Object(e) => find_field(e, k),
        WireValue::Array(v) => {
            proof {
                lemma_model_seq(v@);
            }
            if v.len() == 1 {
                Some(&v[0])
            } else {
                None
            }
        },
        _ => None,
    }
}

pub fn read_struct2<'a>(w: &'a WireValue, k1: &String, k2: &String) -> (r: Option<
    (&'a WireValue, &'a WireValue),
>)
    ensures
        r is Some <==> wire_struct2(w@, k1@, k2@) is Some,
        r matches Some(p) ==> wire_struct2(w@, k1@, k2@) == Some((p.0@, p.1@)),
{
    match w {
        WireValue::Object(e) => {
            let a = find_field(e, k1);
            let b = find_field(e, k2);
            match (a, b) {
                (Some(a), Some(b)) => Some((a, b)),
                _ => None,
            }
        },
        WireValue::Array(v) => {
            proof {
                lemma_model_seq(v@);
            }
            if v.len() == 2 {
                Some((&v[0], &v[1]))
            } else {
                None
            }
        },
        _ => None,
    }
}

// ---------------------------------------------------------------------------
// Writing values
// ---------------------------------------------------------------------------
/// A string value.
pub fn text(s: &str) -> (r: String)
    ensures
        r@ == s@,
{
    s.to_owned()
}

pub fn str_value(s: &str) -> (r: WireValue)
    ensures
        r@ == Wire::Str(s@),
{
    WireValue::Str(s.to_owned())
}

/// An object with one entry.
pub fn object1(key: &str, v: WireValue) -> (r: WireValue)
    ensures
        r@ == Wire::Object(seq![(key@, v@)]),
{
    let e = vec![(key.to_owned(), v)];
    proof {
        lemma_model_entries(e@);
        assert(WireValue::model_entries(e@) =~= seq![(key@, v@)]);
    }
    WireValue::Object(e)
}

/// An object with two entries.
pub fn object2(k1: &str, v1: WireValue, k2: &str, v2: WireValue) -> (r: WireValue)
    ensures
        r@ == Wire::Object(seq![(k1@, v1@), (k2@, v2@)]),
{
    let e = vec![(k1.to_owned(), v1), (k2.to_owned(), v2)];
    proof {
        lemma_model_entries(e@);
        assert(WireValue::model_entries(e@) =~= seq![(k1@, v1@), (k2@, v2@)]);
    }
    WireValue::Object(e)
}

/// An array of two elements.
pub fn array2(a: WireValue, b: WireValue) -> (r: WireValue)
    ensures
        r@ == Wire::Array(seq![a@, b@]),
{
    let v = vec![a, b];
    proof {
        lemma_model_seq(v@);
        assert(WireValue::model_seq(v@) =~= seq![a@, b@]);
    }
    WireValue::Array(v)
}

/// An array built from a vector of values.
pub fn array_of(v: Vec<WireValue>) -> (r: WireValue)
    ensures
        r@ == Wire::Array(Seq::new(v@.len(), |i: int| v@[i]@)),
{
    proof {
        lemma_model_seq(v@);
        assert(WireValue::model_seq(v@) =~= Seq::new(v@.len(), |i: int| v@[i]@));
    }
    WireValue::Array(v)
}

} // verus!
