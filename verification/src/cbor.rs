//! CBOR values as this library reads and writes them, and the calls into
//! `serde_cbor_2` that encode and decode them.
use vstd::prelude::*;
use serde_cbor_2::Value;

verus! {

/// A CBOR data item.
#[derive(Debug)]
pub enum Cbor {
    Null,
    Bool(bool),
    Int(i128),
    /// A floating-point item, kept as its IEEE-754 bit pattern.
    Float(u64),
    Bytes(Vec<u8>),
    Text(String),
    Array(Vec<Cbor>),
    /// Key/value pairs in the order the map holds them.
    Dict(Vec<(Cbor, Cbor)>),
    Tag(u64, Box<Cbor>),
}

/// The mathematical model of a CBOR item.
pub enum CborModel {
    Null,
    Bool(bool),
    Int(int),
    Float(u64),
    Bytes(Seq<u8>),
    Text(Seq<char>),
    Array(Seq<CborModel>),
    Dict(Seq<(CborModel, CborModel)>),
    Tag(u64, Box<CborModel>),
}

pub open spec fn cbor_model(c: Cbor) -> CborModel
    decreases c,
{
    match c {
        Cbor::Null => CborModel::Null,
        Cbor::Bool(b) => CborModel::Bool(b),
        Cbor::Int(n) => CborModel::Int(n as int),
        Cbor::Float(f) => CborModel::Float(f),
        Cbor::Bytes(b) => CborModel::Bytes(b@),
        Cbor::Text(t) => CborModel::Text(t@),
        Cbor::Array(a) => CborModel::Array(cbor_models(a@)),
        Cbor::Dict(m) => CborModel::Dict(cbor_pair_models(m@)),
        Cbor::Tag(t, b) => CborModel::Tag(t, Box::new(cbor_model(*b))),
    }
}

pub open spec fn cbor_models(s: Seq<Cbor>) -> Seq<CborModel>
    decreases s,
{
    if s.len() == 0 {
        Seq::empty()
    } else {
        cbor_models(s.subrange(0, s.len() - 1)).push(cbor_model(s[s.len() - 1]))
    }
}

pub open spec fn cbor_pair_models(s: Seq<(Cbor, Cbor)>) -> Seq<(CborModel, CborModel)>
    decreases s,
{
    if s.len() == 0 {
        Seq::empty()
    } else {
        cbor_pair_models(s.subrange(0, s.len() - 1)).push(
            (cbor_model(s[s.len() - 1].0), cbor_model(s[s.len() - 1].1)),
        )
    }
}

impl View for Cbor {
    type V = CborModel;

    open spec fn view(&self) -> CborModel {
        cbor_model(*self)
    }
}


pub proof fn lemma_cbor_models(s: Seq<Cbor>)
    ensures
        cbor_models(s).len() == s.len(),
        forall|i: int| 0 <= i < s.len() ==> #[trigger] cbor_models(s)[i] == cbor_model(s[i]),
    decreases s.len(),
{
    if s.len() > 0 {
        lemma_cbor_models(s.subrange(0, s.len() - 1));
    }
}

pub proof fn lemma_cbor_pair_models(s: Seq<(Cbor, Cbor)>)
    ensures
        cbor_pair_models(s).len() == s.len(),
        forall|i: int|
            0 <= i < s.len() ==> #[trigger] cbor_pair_models(s)[i] == (
                cbor_model(s[i].0),
                cbor_model(s[i].1),
            ),
    decreases s.len(),
{
    if s.len() > 0 {
        lemma_cbor_pair_models(s.subrange(0, s.len() - 1));
    }
}

/// Whether the item holds no floating-point item (this library never
/// writes one).
pub open spec fn cbor_writable(v: CborModel) -> bool
    decreases v,
{
    match v {
        CborModel::Array(a) => forall|i: int| 0 <= i < a.len() ==> cbor_writable(#[trigger] a[i]),
        CborModel::Dict(m) => forall|i: int|
            0 <= i < m.len() ==> cbor_writable(#[trigger] m[i].0) && cbor_writable(m[i].1),
        CborModel::Tag(_, b) => cbor_writable(*b),
        CborModel::Float(_) => false,
        _ => true,
    }
}

/// Whether `serde_cbor_2` serializes the item without error: it holds no
/// floating-point item and every integer lies in the CBOR range
/// -2^64 ..= 2^64 - 1.
pub open spec fn cbor_encodable(v: CborModel) -> bool
    decreases v,
{
    match v {
        CborModel::Int(n) => -0x1_0000_0000_0000_0000 <= n <= 0xffff_ffff_ffff_ffff,
        CborModel::Array(a) => forall|i: int| 0 <= i < a.len() ==> cbor_encodable(#[trigger] a[i]),
        CborModel::Dict(m) => forall|i: int|
            0 <= i < m.len() ==> cbor_encodable(#[trigger] m[i].0) && cbor_encodable(m[i].1),
        CborModel::Tag(_, b) => cbor_encodable(*b),
        CborModel::Float(_) => false,
        _ => true,
    }
}

/// What `serde_cbor_2::to_vec` gives for the item: its bytes, or the
/// text of the library's error.
pub uninterp spec fn cbor_serialization(v: CborModel) -> Result<Seq<u8>, Seq<char>>;

/// The bytes of an item that serializes without error.
pub open spec fn cbor_encoding(v: CborModel) -> Seq<u8> {
    match cbor_serialization(v) {
        Ok(b) => b,
        Err(_) => Seq::empty(),
    }
}

/// What `serde_cbor_2::from_slice::<Value>` reads from the bytes: the
/// item, or the text of the library's error.
pub uninterp spec fn cbor_decoding(bytes: Seq<u8>) -> Result<CborModel, Seq<char>>;

/// What `serde_cbor_2::from_slice::<BTreeMap<i128, i128>>` reads from the
/// bytes: the entries in ascending key order, or the text of the error.
pub uninterp spec fn cbor_int_map_decoding(bytes: Seq<u8>) -> Result<Seq<(int, int)>, Seq<char>>;

#[verifier::external_type_specification]
#[verifier::external_body]
pub struct ExCborValue(Value);

/// The `serde_cbor_2::Value` that holds the same item, variant for
/// variant (a map's pairs go into the `BTreeMap`). Floating-point items
/// are never serialized: `cbor_serialize` requires `cbor_writable`.
#[verifier::external_body]
fn cbor_to_value(c: &Cbor) -> Value {
    match c {
        Cbor::Null => Value::Null,
        Cbor::Bool(b) => Value::Bool(*b),
        Cbor::Int(n) => Value::Integer(*n),
        Cbor::Float(_) => Value::Null,
        Cbor::Bytes(b) => Value::Bytes(b.clone()),
        Cbor::Text(t) => Value::Text(t.clone()),
        Cbor::Array(a) => Value::Array(a.iter().map(cbor_to_value).collect()),
        Cbor::Dict(m) => Value::Map(m.iter().map(|(k, v)| (cbor_to_value(k), cbor_to_value(v))).collect()),
        Cbor::Tag(t, b) => Value::Tag(*t, Box::new(cbor_to_value(b))),
    }
}

/// The `Cbor` that holds the same item as a `serde_cbor_2::Value`, variant
/// for variant (a map's pairs in the `BTreeMap`'s order).
#[verifier::external_body]
fn value_to_cbor(v: Value) -> Cbor {
    match v {
        Value::Bool(b) => Cbor::Bool(b),
        Value::Integer(n) => Cbor::Int(n),
        Value::Float(f) => Cbor::Float(f.to_bits()),
        Value::Bytes(b) => Cbor::Bytes(b),
        Value::Text(t) => Cbor::Text(t),
        Value::Array(a) => Cbor::Array(a.into_iter().map(value_to_cbor).collect()),
        Value::Map(m) => Cbor::Dict(m.into_iter().map(|(k, v)| (value_to_cbor(k), value_to_cbor(v))).collect()),
        Value::Tag(t, b) => Cbor::Tag(t, Box::new(value_to_cbor(*b))),
        _ => Cbor::Null,
    }
}

/// Serializes an item with `serde_cbor_2::to_vec`. The serializer writes
/// into a `Vec`, which cannot fail; it refuses only integers outside the
/// CBOR range (the documentation of `Value::Integer` says so, and
/// `serialize_i128` in the source is the only place that returns an
/// error), so an encodable item always serializes.
#[verifier::external_body]
pub(crate) fn cbor_serialize(v: &Cbor) -> (r: Result<Vec<u8>, String>)
    requires
        cbor_writable(v@),
    ensures
        r matches Ok(b) ==> cbor_serialization(v@) matches Ok(x) && x == b@,
        r matches Err(t) ==> cbor_serialization(v@) matches Err(x) && x == t@,
        cbor_encodable(v@) ==> r is Ok,
{
    serde_cbor_2::to_vec(&cbor_to_value(v)).map_err(|e| e.to_string())
}

proof fn lemma_encodable_writable(v: CborModel)
    requires
        cbor_encodable(v),
    ensures
        cbor_writable(v),
    decreases v,
{
    match v {
        CborModel::Array(a) => {
            assert forall|i: int| 0 <= i < a.len() implies cbor_writable(#[trigger] a[i]) by {
                lemma_encodable_writable(a[i]);
            }
        },
        CborModel::Dict(m) => {
            assert forall|i: int| 0 <= i < m.len() implies cbor_writable(#[trigger] m[i].0) && cbor_writable(m[i].1) by {
                lemma_encodable_writable(m[i].0);
                lemma_encodable_writable(m[i].1);
            }
        },
        CborModel::Tag(_, b) => {
            lemma_encodable_writable(*b);
        },
        _ => {},
    }
}

/// Encodes an item that serializes without error.
pub fn cbor_encode(v: &Cbor) -> (r: Vec<u8>)
    requires
        cbor_encodable(v@),
    ensures
        r@ == cbor_encoding(v@),
{
    proof { lemma_encodable_writable(v@); }
    match cbor_serialize(v) {
        Ok(b) => b,
        Err(_) => Vec::new(),
    }
}

/// Decodes one item with `serde_cbor_2::from_slice`; on failure the
/// text of the library's error.
#[verifier::external_body]
pub(crate) fn cbor_decode(bytes: &[u8]) -> (r: Result<Cbor, String>)
    ensures
        r matches Ok(c) ==> cbor_decoding(bytes@) matches Ok(m) && m == c@,
        r matches Err(t) ==> cbor_decoding(bytes@) matches Err(u) && u == t@,
{
    serde_cbor_2::from_slice::<Value>(bytes).map(value_to_cbor).map_err(|e| e.to_string())
}

/// The pairs as mathematical integers.
pub open spec fn int_pairs_model(m: Seq<(i128, i128)>) -> Seq<(int, int)> {
    m.map_values(|p: (i128, i128)| (p.0 as int, p.1 as int))
}

/// Decodes a map from integers to integers with `serde_cbor_2::from_slice`;
/// on failure the text of the library's error.
#[verifier::external_body]
pub(crate) fn cbor_decode_int_map(bytes: &[u8]) -> (r: Result<Vec<(i128, i128)>, String>)
    ensures
        r matches Ok(m) ==> cbor_int_map_decoding(bytes@) matches Ok(d) && d == int_pairs_model(m@),
        r matches Err(t) ==> cbor_int_map_decoding(bytes@) matches Err(u) && u == t@,
{
    serde_cbor_2::from_slice::<std::collections::BTreeMap<i128, i128>>(bytes)
        .map(|m| m.into_iter().collect())
        .map_err(|e| e.to_string())
}


/// The value that a map holds for key `k`: that of the first pair whose
/// key is `k` (a decoded map holds each key once).
pub open spec fn dict_lookup(m: Seq<(CborModel, CborModel)>, k: CborModel) -> Option<CborModel>
    decreases m.len(),
{
    if m.len() == 0 {
        None
    } else if m[0].0 == k {
        Some(m[0].1)
    } else {
        dict_lookup(m.drop_first(), k)
    }
}

proof fn lemma_dict_lookup_prefix(m: Seq<(CborModel, CborModel)>, k: CborModel, i: int)
    requires
        0 <= i < m.len(),
        forall|j: int| 0 <= j < i ==> m[j].0 != k,
    ensures
        dict_lookup(m, k) == dict_lookup(m.subrange(i, m.len() as int), k),
    decreases i,
{
    if i > 0 {
        assert(m[0].0 != k);
        lemma_dict_lookup_prefix(m.drop_first(), k, i - 1);
        assert(m.drop_first().subrange(i - 1, m.len() - 1) =~= m.subrange(i, m.len() as int));
    } else {
        assert(m.subrange(0, m.len() as int) =~= m);
    }
}

proof fn lemma_dict_lookup_absent(m: Seq<(CborModel, CborModel)>, k: CborModel)
    requires
        forall|j: int| 0 <= j < m.len() ==> m[j].0 != k,
    ensures
        dict_lookup(m, k) is None,
    decreases m.len(),
{
    if m.len() > 0 {
        lemma_dict_lookup_absent(m.drop_first(), k);
    }
}

fn key_matches_int(c: &Cbor, key: i128) -> (r: bool)
    ensures
        r == (c@ == CborModel::Int(key as int)),
{
    match c {
        Cbor::Int(n) => *n == key,
        _ => false,
    }
}

/// Whether two strings hold the same characters.
pub fn str_eq(a: &str, b: &str) -> (r: bool)
    ensures
        r == (a@ == b@),
{
    let x = crate::text::str_chars(a);
    let y = crate::text::str_chars(b);
    if x.len() != y.len() {
        return false;
    }
    let mut i: usize = 0;
    while i < x.len()
        invariant
            x@ == a@,
            y@ == b@,
            x.len() == y.len(),
            i <= x.len(),
            forall|j: int| 0 <= j < i ==> x@[j] == y@[j],
        decreases x.len() - i,
    {
        if x[i] != y[i] {
            return false;
        }
        i = i + 1;
    }
    assert(x@ =~= y@);
    true
}

fn key_matches_text(c: &Cbor, key: &str) -> (r: bool)
    ensures
        r == (c@ == CborModel::Text(key@)),
{
    match c {
        Cbor::Text(t) => str_eq(t.as_str(), key),
        _ => false,
    }
}

/// The value that map `m` holds for the integer key `key`.
pub fn dict_get_int(m: &Vec<(Cbor, Cbor)>, key: i128) -> (r: Option<&Cbor>)
    ensures
        r matches Some(v) ==> dict_lookup(cbor_pair_models(m@), CborModel::Int(key as int)) == Some(v@),
        r is None <==> dict_lookup(cbor_pair_models(m@), CborModel::Int(key as int)) is None,
{
    proof { lemma_cbor_pair_models(m@); }
    let ghost mm = cbor_pair_models(m@);
    let ghost k = CborModel::Int(key as int);
    let mut i: usize = 0;
    while i < m.len()
        invariant
            i <= m.len(),
            mm == cbor_pair_models(m@),
            k == CborModel::Int(key as int),
            mm.len() == m@.len(),
            forall|j: int| 0 <= j < m@.len() ==> #[trigger] mm[j] == (cbor_model(m@[j].0), cbor_model(m@[j].1)),
            forall|j: int| 0 <= j < i ==> mm[j].0 != k,
        decreases m.len() - i,
    {
        assert(mm[i as int] == (cbor_model(m@[i as int].0), cbor_model(m@[i as int].1)));
        let pair = &m[i];
        assert(*pair == m@[i as int]);
        let hit = key_matches_int(&pair.0, key);
        assert(hit == (cbor_model(m@[i as int].0) == k));
        if hit {
            proof {
                lemma_dict_lookup_prefix(mm, k, i as int);
                let tail = mm.subrange(i as int, mm.len() as int);
                assert(mm[i as int].0 == k);
                assert(tail.len() > 0);
                assert(tail[0] == mm[i as int]);
                assert(dict_lookup(tail, k) == Some(tail[0].1));
            }
            return Some(&pair.1);
        }
        i = i + 1;
    }
    proof { lemma_dict_lookup_absent(mm, k); }
    None
}

/// The value that map `m` holds for the text key `key`.
pub fn dict_get_text<'a>(m: &'a Vec<(Cbor, Cbor)>, key: &str) -> (r: Option<&'a Cbor>)
    ensures
        r matches Some(v) ==> dict_lookup(cbor_pair_models(m@), CborModel::Text(key@)) == Some(v@),
        r is None <==> dict_lookup(cbor_pair_models(m@), CborModel::Text(key@)) is None,
{
    proof { lemma_cbor_pair_models(m@); }
    let ghost mm = cbor_pair_models(m@);
    let ghost k = CborModel::Text(key@);
    let mut i: usize = 0;
    while i < m.len()
        invariant
            i <= m.len(),
            mm == cbor_pair_models(m@),
            k == CborModel::Text(key@),
            mm.len() == m@.len(),
            forall|j: int| 0 <= j < m@.len() ==> #[trigger] mm[j] == (cbor_model(m@[j].0), cbor_model(m@[j].1)),
            forall|j: int| 0 <= j < i ==> mm[j].0 != k,
        decreases m.len() - i,
    {
        assert(mm[i as int] == (cbor_model(m@[i as int].0), cbor_model(m@[i as int].1)));
        let pair = &m[i];
        assert(*pair == m@[i as int]);
        let hit = key_matches_text(&pair.0, key);
        assert(hit == (cbor_model(m@[i as int].0) == k));
        if hit {
            proof {
                lemma_dict_lookup_prefix(mm, k, i as int);
                let tail = mm.subrange(i as int, mm.len() as int);
                assert(mm[i as int].0 == k);
                assert(tail.len() > 0);
                assert(tail[0] == mm[i as int]);
                assert(dict_lookup(tail, k) == Some(tail[0].1));
            }
            return Some(&pair.1);
        }
        i = i + 1;
    }
    proof { lemma_dict_lookup_absent(mm, k); }
    None
}

/// A copy of the item.
pub fn clone_cbor(c: &Cbor) -> (r: Cbor)
    ensures
        r@ == c@,
    decreases c,
{
    match c {
        Cbor::Null => Cbor::Null,
        Cbor::Bool(b) => Cbor::Bool(*b),
        Cbor::Int(n) => Cbor::Int(*n),
        Cbor::Float(f) => Cbor::Float(*f),
        Cbor::Bytes(b) => {
            let mut v: Vec<u8> = Vec::new();
            crate::ctaphid::push_range(&mut v, b.as_slice(), 0, b.len());
            assert(b@.subrange(0, b@.len() as int) =~= b@);
            Cbor::Bytes(v)
        },
        Cbor::Text(t) => Cbor::Text(t.clone()),
        Cbor::Array(a) => {
            let mut v: Vec<Cbor> = Vec::new();
            let mut i: usize = 0;
            while i < a.len()
                invariant
                    i <= a.len(),
                    v@.len() == i,
                    *c == Cbor::Array(*a),
                    forall|j: int| 0 <= j < i ==> #[trigger] cbor_model(v@[j]) == cbor_model(a@[j]),
                decreases a.len() - i,
            {
                proof {
                    vstd::std_specs::vec::axiom_vec_index_decreases(*a, i as int);
                    assert(decreases_to!(*c => (*c)->Array_0));
                }
                let x = clone_cbor(&a[i]);
                v.push(x);
                i = i + 1;
            }
            proof {
                lemma_cbor_models(v@);
                lemma_cbor_models(a@);
                assert(cbor_models(v@) =~= cbor_models(a@));
            }
            Cbor::Array(v)
        },
        Cbor::Dict(m) => {
            let mut v: Vec<(Cbor, Cbor)> = Vec::new();
            let mut i: usize = 0;
            while i < m.len()
                invariant
                    i <= m.len(),
                    v@.len() == i,
                    *c == Cbor::Dict(*m),
                    forall|j: int| 0 <= j < i ==> #[trigger] cbor_model(v@[j].0) == cbor_model(m@[j].0) && cbor_model(v@[j].1) == cbor_model(m@[j].1),
                decreases m.len() - i,
            {
                proof {
                    vstd::std_specs::vec::axiom_vec_index_decreases(*m, i as int);
                    assert(decreases_to!(*c => (*c)->Dict_0));
                    assert(decreases_to!(m[i as int] => m[i as int].0));
                    assert(decreases_to!(m[i as int] => m[i as int].1));
                }
                let k = clone_cbor(&m[i].0);
                let x = clone_cbor(&m[i].1);
                v.push((k, x));
                i = i + 1;
            }
            proof {
                lemma_cbor_pair_models(v@);
                lemma_cbor_pair_models(m@);
                assert(cbor_pair_models(v@) =~= cbor_pair_models(m@));
            }
            Cbor::Dict(v)
        },
        Cbor::Tag(t, b) => Cbor::Tag(*t, Box::new(clone_cbor(b))),
    }
}

} // verus!
