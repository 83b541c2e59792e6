//! Reading the authenticatorGetInfo answer into the description of the
//! authenticator shown to the user.
use vstd::prelude::*;
use crate::cbor::{Cbor, CborModel, cbor_decode, cbor_decoding, cbor_model, cbor_models, cbor_pair_models, dict_get_text, dict_lookup};
use crate::constants::{CoseAlgorithm, FidoCertification, VendorConfigCommand};
use crate::text::{
    decimal_chars, hex_encode, hex_encoding, hex_u64_chars, push_char, push_decimal, push_hex_u64,
    push_signed_decimal, signed_decimal_chars, spec_parse_hex_u64, strip_0x,
};
use crate::types::FidoDeviceInfo;

verus! {

// ---------------------------------------------------------------------
// Name-to-flag maps, kept as lists of pairs in which each name occurs once.
// ---------------------------------------------------------------------

/// The position of the pair named `k`, if there is one.
pub open spec fn key_index(m: Seq<(Seq<char>, bool)>, k: Seq<char>) -> Option<int>
    decreases m.len(),
{
    if m.len() == 0 {
        None
    } else if m[0].0 == k {
        Some(0)
    } else {
        match key_index(m.drop_first(), k) {
            Some(i) => Some(i + 1),
            None => None,
        }
    }
}

/// The flag stored under `k`.
pub open spec fn flag_lookup(m: Seq<(Seq<char>, bool)>, k: Seq<char>) -> Option<bool> {
    match key_index(m, k) {
        Some(i) => Some(m[i].1),
        None => None,
    }
}

/// The map after storing `v` under `k` (as `HashMap::insert` does: an
/// existing entry is overwritten, otherwise one is added).
pub open spec fn flag_insert(m: Seq<(Seq<char>, bool)>, k: Seq<char>, v: bool) -> Seq<(Seq<char>, bool)> {
    match key_index(m, k) {
        Some(i) => m.update(i, (k, v)),
        None => m.push((k, v)),
    }
}

/// Whether no name occurs twice.
pub open spec fn unique_keys(m: Seq<(Seq<char>, bool)>) -> bool {
    forall|i: int, j: int| 0 <= i < m.len() && 0 <= j < m.len() && i != j ==> #[trigger] m[i].0 != #[trigger] m[j].0
}

proof fn lemma_key_index(m: Seq<(Seq<char>, bool)>, k: Seq<char>)
    ensures
        match key_index(m, k) {
            Some(i) => 0 <= i < m.len() && m[i].0 == k && forall|j: int| 0 <= j < i ==> m[j].0 != k,
            None => forall|j: int| 0 <= j < m.len() ==> m[j].0 != k,
        },
    decreases m.len(),
{
    if m.len() > 0 {
        lemma_key_index(m.drop_first(), k);
        if m[0].0 != k {
            match key_index(m.drop_first(), k) {
                Some(i) => {
                    assert forall|j: int| 0 <= j < i + 1 implies m[j].0 != k by {
                        if j > 0 {
                            assert(m[j] == m.drop_first()[j - 1]);
                        }
                    }
                },
                None => {
                    assert forall|j: int| 0 <= j < m.len() implies m[j].0 != k by {
                        if j > 0 {
                            assert(m[j] == m.drop_first()[j - 1]);
                        }
                    }
                },
            }
        }
    }
}

/// After storing `v` under `k`, the map gives back `v` for `k`, every
/// other name keeps its flag, and no name occurs twice.
pub proof fn lemma_flag_insert(m: Seq<(Seq<char>, bool)>, k: Seq<char>, v: bool)
    requires
        unique_keys(m),
    ensures
        unique_keys(flag_insert(m, k, v)),
        flag_lookup(flag_insert(m, k, v), k) == Some(v),
        forall|other: Seq<char>| other != k ==> flag_lookup(flag_insert(m, k, v), other) == flag_lookup(m, other),
{
    lemma_key_index(m, k);
    let n = flag_insert(m, k, v);
    lemma_key_index(n, k);
    match key_index(m, k) {
        Some(i) => {
            assert(n[i].0 == k);
            match key_index(n, k) {
                Some(j) => {
                    if j < i {
                        assert(n[j] == m[j]);
                    }
                    assert(j == i);
                },
                None => {},
            }
        },
        None => {
            let i = m.len() as int;
            assert(n[i].0 == k);
            match key_index(n, k) {
                Some(j) => {
                    if j < i {
                        assert(n[j] == m[j]);
                    }
                    assert(j == i);
                },
                None => {},
            }
        },
    }
    assert forall|other: Seq<char>| other != k implies flag_lookup(n, other) == flag_lookup(m, other) by {
        lemma_key_index(m, other);
        lemma_key_index(n, other);
        match key_index(m, other) {
            Some(i) => {
                assert(n[i].0 == other);
                match key_index(n, other) {
                    Some(j) => {
                        if j != i {
                            assert(n[j].0 == other);
                            if j < m.len() {
                                assert(m[j].0 == n[j].0);
                            }
                        }
                    },
                    None => {},
                }
            },
            None => {
                match key_index(n, other) {
                    Some(j) => {
                        if j < m.len() {
                            assert(m[j].0 == n[j].0);
                        }
                    },
                    None => {},
                }
            },
        }
    }
}

// ---------------------------------------------------------------------
// What each entry of the answer contributes.
// ---------------------------------------------------------------------

/// The texts among the items, in order.
pub open spec fn texts_of(a: Seq<CborModel>) -> Seq<Seq<char>>
    decreases a.len(),
{
    if a.len() == 0 {
        Seq::empty()
    } else {
        match a.last() {
            CborModel::Text(t) => texts_of(a.drop_last()).push(t),
            _ => texts_of(a.drop_last()),
        }
    }
}

/// The integers among the items, each cast to `u32`.
pub open spec fn u32s_of(a: Seq<CborModel>) -> Seq<u32>
    decreases a.len(),
{
    if a.len() == 0 {
        Seq::empty()
    } else {
        match a.last() {
            CborModel::Int(n) => u32s_of(a.drop_last()).push(n as u32),
            _ => u32s_of(a.drop_last()),
        }
    }
}

/// The name of a COSE algorithm identifier, or `Unknown (id)`.
pub open spec fn algorithm_label(id: i128) -> Seq<char> {
    match CoseAlgorithm::spec_from_value(id as i32) {
        Some(a) => a.spec_name(),
        None => "Unknown ("@ + signed_decimal_chars(id as int) + ")"@,
    }
}

/// The algorithms named by the `alg` entries of the items that are maps.
pub open spec fn algorithms_of(a: Seq<CborModel>) -> Seq<Seq<char>>
    decreases a.len(),
{
    if a.len() == 0 {
        Seq::empty()
    } else {
        match a.last() {
            CborModel::Dict(m) => match dict_lookup(m, CborModel::Text("alg"@)) {
                Some(CborModel::Int(id)) => algorithms_of(a.drop_last()).push(algorithm_label(id as i128)),
                _ => algorithms_of(a.drop_last()),
            },
            _ => algorithms_of(a.drop_last()),
        }
    }
}

/// The name of a vendor configuration command, or its identifier as `0x`
/// and 16 hexadecimal digits.
pub open spec fn vendor_command_label(id: u64) -> Seq<char> {
    match VendorConfigCommand::spec_from_value(id) {
        Some(c) => c.spec_name(),
        None => "0x"@ + hex_u64_chars(id),
    }
}

/// The vendor commands named by the integers among the items.
pub open spec fn vendor_commands_of(a: Seq<CborModel>) -> Seq<Seq<char>>
    decreases a.len(),
{
    if a.len() == 0 {
        Seq::empty()
    } else {
        match a.last() {
            CborModel::Int(n) => vendor_commands_of(a.drop_last()).push(vendor_command_label(n as u64)),
            _ => vendor_commands_of(a.drop_last()),
        }
    }
}

/// The options map after the name/flag pairs of `m` are stored in turn.
pub open spec fn options_fold(acc: Seq<(Seq<char>, bool)>, m: Seq<(CborModel, CborModel)>) -> Seq<(Seq<char>, bool)>
    decreases m.len(),
{
    if m.len() == 0 {
        acc
    } else {
        let before = options_fold(acc, m.drop_last());
        match m.last() {
            (CborModel::Text(name), CborModel::Bool(b)) => flag_insert(before, name, b),
            _ => before,
        }
    }
}

/// How a certification named in a map is shown: the name of the
/// certification that the hexadecimal text identifies, else the text.
pub open spec fn certification_display(name: Seq<char>) -> Seq<char> {
    match spec_parse_hex_u64(strip_0x(name)) {
        Some(v) => match FidoCertification::spec_from_value(v) {
            Some(c) => c.spec_name(),
            None => name,
        },
        None => name,
    }
}

/// How a certification given by its identifier is shown.
pub open spec fn certification_label(id: u64) -> Seq<char> {
    match FidoCertification::spec_from_value(id) {
        Some(c) => c.spec_name(),
        None => "0x"@ + hex_u64_chars(id),
    }
}

/// The certifications after the name/flag pairs of a map are stored.
pub open spec fn certification_map_fold(acc: Seq<(Seq<char>, bool)>, m: Seq<(CborModel, CborModel)>) -> Seq<
    (Seq<char>, bool),
>
    decreases m.len(),
{
    if m.len() == 0 {
        acc
    } else {
        let before = certification_map_fold(acc, m.drop_last());
        match m.last() {
            (CborModel::Text(name), CborModel::Bool(b)) => flag_insert(before, certification_display(name), b),
            _ => before,
        }
    }
}

/// The certifications after the identifiers of an array are stored as set.
pub open spec fn certification_array_fold(acc: Seq<(Seq<char>, bool)>, a: Seq<CborModel>) -> Seq<(Seq<char>, bool)>
    decreases a.len(),
{
    if a.len() == 0 {
        acc
    } else {
        let before = certification_array_fold(acc, a.drop_last());
        match a.last() {
            CborModel::Int(n) => flag_insert(before, certification_label(n as u64), true),
            _ => before,
        }
    }
}

/// The certifications after the value of key 0x15 is read: a map of
/// names to flags, or an array of identifiers.
pub open spec fn certifications_after(acc: Seq<(Seq<char>, bool)>, v: CborModel) -> Seq<(Seq<char>, bool)> {
    match v {
        CborModel::Dict(m) => certification_map_fold(acc, m),
        CborModel::Array(a) => certification_array_fold(acc, a),
        _ => acc,
    }
}

/// What the answer has told so far.
pub struct InfoModel {
    pub versions: Seq<Seq<char>>,
    pub extensions: Seq<Seq<char>>,
    pub aaguid: Seq<char>,
    pub options: Seq<(Seq<char>, bool)>,
    pub max_msg_size: i128,
    pub pin_protocols: Seq<u32>,
    pub remaining_discoverable_credentials: Option<i128>,
    pub min_pin_length: i128,
    pub firmware_raw: i128,
    pub vendor_config_commands: Seq<Seq<char>>,
    pub certifications: Seq<(Seq<char>, bool)>,
    pub max_credential_count_in_list: Option<i128>,
    pub max_credential_id_length: Option<i128>,
    pub algorithms: Seq<Seq<char>>,
    pub max_serialized_large_blob_array: Option<i128>,
    pub force_pin_change: Option<bool>,
    pub max_cred_blob_length: Option<i128>,
}

/// Before any entry is read.
pub open spec fn initial_info() -> InfoModel {
    InfoModel {
        versions: Seq::empty(),
        extensions: Seq::empty(),
        aaguid: "Unknown"@,
        options: Seq::empty(),
        max_msg_size: 0,
        pin_protocols: Seq::empty(),
        remaining_discoverable_credentials: None,
        min_pin_length: 0,
        firmware_raw: 0,
        vendor_config_commands: Seq::empty(),
        certifications: Seq::empty(),
        max_credential_count_in_list: None,
        max_credential_id_length: None,
        algorithms: Seq::empty(),
        max_serialized_large_blob_array: None,
        force_pin_change: None,
        max_cred_blob_length: None,
    }
}

/// The integer of an item, if it is one.
pub open spec fn int_of(v: CborModel) -> Option<i128> {
    match v {
        CborModel::Int(n) => Some(n as i128),
        _ => None,
    }
}

/// What the entry `key: v` of the answer changes. Entries whose key is
/// not an integer, or whose value has another type than the key calls
/// for, change nothing; so do keys this reader does not use.
pub open spec fn info_step(s: InfoModel, key: CborModel, v: CborModel) -> InfoModel {
    match key {
        CborModel::Int(k) => if k == 0x01 {
            match v {
                CborModel::Array(a) => InfoModel { versions: s.versions + texts_of(a), ..s },
                _ => s,
            }
        } else if k == 0x02 {
            match v {
                CborModel::Array(a) => InfoModel { extensions: s.extensions + texts_of(a), ..s },
                _ => s,
            }
        } else if k == 0x03 {
            match v {
                CborModel::Bytes(b) => InfoModel { aaguid: hex_encoding(b, true), ..s },
                _ => s,
            }
        } else if k == 0x04 {
            match v {
                CborModel::Dict(m) => InfoModel { options: options_fold(s.options, m), ..s },
                _ => s,
            }
        } else if k == 0x05 {
            match int_of(v) {
                Some(n) => InfoModel { max_msg_size: n, ..s },
                None => s,
            }
        } else if k == 0x06 {
            match v {
                CborModel::Array(a) => InfoModel { pin_protocols: s.pin_protocols + u32s_of(a), ..s },
                _ => s,
            }
        } else if k == 0x07 {
            match int_of(v) {
                Some(n) => InfoModel { max_credential_count_in_list: Some(n), ..s },
                None => s,
            }
        } else if k == 0x08 {
            match int_of(v) {
                Some(n) => InfoModel { max_credential_id_length: Some(n), ..s },
                None => s,
            }
        } else if k == 0x0A {
            match v {
                CborModel::Array(a) => InfoModel { algorithms: s.algorithms + algorithms_of(a), ..s },
                _ => s,
            }
        } else if k == 0x0B {
            match int_of(v) {
                Some(n) => InfoModel { max_serialized_large_blob_array: Some(n), ..s },
                None => s,
            }
        } else if k == 0x0C {
            match v {
                CborModel::Bool(b) => InfoModel { force_pin_change: Some(b), ..s },
                _ => s,
            }
        } else if k == 0x0D {
            match int_of(v) {
                Some(n) => InfoModel { min_pin_length: n, ..s },
                None => s,
            }
        } else if k == 0x0E {
            match int_of(v) {
                Some(n) => InfoModel { firmware_raw: n, ..s },
                None => s,
            }
        } else if k == 0x0F {
            match int_of(v) {
                Some(n) => InfoModel { max_cred_blob_length: Some(n), ..s },
                None => s,
            }
        } else if k == 0x13 {
            match v {
                CborModel::Array(a) => InfoModel {
                    vendor_config_commands: s.vendor_config_commands + vendor_commands_of(a),
                    ..s
                },
                _ => s,
            }
        } else if k == 0x14 {
            match int_of(v) {
                Some(n) => InfoModel { remaining_discoverable_credentials: Some(n), ..s },
                None => s,
            }
        } else if k == 0x15 {
            InfoModel { certifications: certifications_after(s.certifications, v), ..s }
        } else {
            s
        },
        _ => s,
    }
}

/// What the entries of the answer tell, read in order.
pub open spec fn info_fold(m: Seq<(CborModel, CborModel)>) -> InfoModel
    decreases m.len(),
{
    if m.len() == 0 {
        initial_info()
    } else {
        info_step(info_fold(m.drop_last()), m.last().0, m.last().1)
    }
}

/// The firmware version `major.minor` from its 16-bit encoding.
pub open spec fn firmware_text(raw: i128) -> Seq<char> {
    decimal_chars(((raw >> 8) & 0xff) as nat) + "."@ + decimal_chars((raw & 0xff) as nat)
}

/// The texts of a list of strings.
pub open spec fn string_views(v: Seq<String>) -> Seq<Seq<char>> {
    v.map_values(|s: String| s@)
}

/// The pairs of a list of name/flag pairs, as values.
pub open spec fn flag_views(v: Seq<(String, bool)>) -> Seq<(Seq<char>, bool)> {
    v.map_values(|p: (String, bool)| (p.0@, p.1))
}

/// Whether `info` is the description that `s` gives.
pub open spec fn describes(info: FidoDeviceInfo, s: InfoModel) -> bool {
    &&& string_views(info.versions@) == s.versions
    &&& string_views(info.extensions@) == s.extensions
    &&& info.aaguid@ == s.aaguid
    &&& flag_views(info.options@) == s.options
    &&& info.max_msg_size == s.max_msg_size
    &&& info.pin_protocols@ == s.pin_protocols
    &&& info.remaining_discoverable_credentials == s.remaining_discoverable_credentials
    &&& info.min_pin_length == s.min_pin_length
    &&& info.firmware_version@ == firmware_text(s.firmware_raw)
    &&& string_views(info.vendor_config_commands@) == s.vendor_config_commands
    &&& flag_views(info.certifications@) == s.certifications
    &&& info.max_credential_count_in_list == s.max_credential_count_in_list
    &&& info.max_credential_id_length == s.max_credential_id_length
    &&& string_views(info.algorithms@) == s.algorithms
    &&& info.max_serialized_large_blob_array == s.max_serialized_large_blob_array
    &&& info.force_pin_change == s.force_pin_change
    &&& info.max_cred_blob_length == s.max_cred_blob_length
}

/// What `parse_get_info` gives for the answer: the description, or the
/// text of the error.
pub open spec fn get_info_answer(resp: Seq<u8>) -> Result<InfoModel, Seq<char>> {
    match cbor_decoding(resp) {
        Err(t) => Err("Failed to parse GetInfo CBOR: "@ + t),
        Ok(CborModel::Dict(m)) => Ok(info_fold(m)),
        Ok(_) => Err("GetInfo response is not a CBOR map"@),
    }
}


// ---------------------------------------------------------------------
// Reading the answer.
// ---------------------------------------------------------------------

proof fn lemma_models_take(a: Seq<Cbor>, i: int)
    requires
        0 <= i < a.len(),
    ensures
        cbor_models(a).len() == a.len(),
        cbor_models(a).take(i + 1).len() == i + 1,
        cbor_models(a).take(i + 1).drop_last() == cbor_models(a).take(i),
        cbor_models(a).take(i + 1).last() == cbor_model(a[i]),
        cbor_models(a).take(a.len() as int) == cbor_models(a),
{
    crate::cbor::lemma_cbor_models(a);
    assert(cbor_models(a).take(i + 1).drop_last() =~= cbor_models(a).take(i));
    assert(cbor_models(a).take(a.len() as int) =~= cbor_models(a));
}

proof fn lemma_pairs_take(m: Seq<(Cbor, Cbor)>, i: int)
    requires
        0 <= i < m.len(),
    ensures
        cbor_pair_models(m).len() == m.len(),
        cbor_pair_models(m).take(i + 1).len() == i + 1,
        cbor_pair_models(m).take(i + 1).drop_last() == cbor_pair_models(m).take(i),
        cbor_pair_models(m).take(i + 1).last() == (cbor_model(m[i].0), cbor_model(m[i].1)),
        cbor_pair_models(m).take(m.len() as int) == cbor_pair_models(m),
{
    crate::cbor::lemma_cbor_pair_models(m);
    assert(cbor_pair_models(m).take(i + 1).drop_last() =~= cbor_pair_models(m).take(i));
    assert(cbor_pair_models(m).take(m.len() as int) =~= cbor_pair_models(m));
}

fn push_texts(out: &mut Vec<String>, a: &Vec<Cbor>)
    ensures
        string_views(final(out)@) == string_views(old(out)@) + texts_of(cbor_models(a@)),
{
    let ghost start = string_views(out@);
    let mut i: usize = 0;
    while i < a.len()
        invariant
            i <= a@.len(),
            string_views(out@) == start + texts_of(cbor_models(a@).take(i as int)),
        decreases a@.len() - i,
    {
        proof { lemma_models_take(a@, i as int); }
        let ghost before = out@;
        match &a[i] {
            Cbor::Text(t) => {
                out.push(t.clone());
                assert(string_views(out@) =~= string_views(before).push(t@));
                assert(start + texts_of(cbor_models(a@).take(i as int)).push(t@) =~= (start + texts_of(
                    cbor_models(a@).take(i as int),
                )).push(t@));
            },
            _ => {},
        }
        i = i + 1;
    }
    proof { if a@.len() > 0 { lemma_models_take(a@, 0); } else { assert(cbor_models(a@).take(0) =~= cbor_models(a@)); } }
}

fn push_u32s(out: &mut Vec<u32>, a: &Vec<Cbor>)
    ensures
        final(out)@ == old(out)@ + u32s_of(cbor_models(a@)),
{
    let ghost start = out@;
    let mut i: usize = 0;
    while i < a.len()
        invariant
            i <= a@.len(),
            out@ == start + u32s_of(cbor_models(a@).take(i as int)),
        decreases a@.len() - i,
    {
        proof { lemma_models_take(a@, i as int); }
        match &a[i] {
            Cbor::Int(n) => {
                out.push(*n as u32);
                assert(start + u32s_of(cbor_models(a@).take(i as int)).push(*n as u32) =~= (start + u32s_of(
                    cbor_models(a@).take(i as int),
                )).push(*n as u32));
            },
            _ => {},
        }
        i = i + 1;
    }
    proof { if a@.len() > 0 { lemma_models_take(a@, 0); } else { assert(cbor_models(a@).take(0) =~= cbor_models(a@)); } }
}

fn algorithm_name(id: i128) -> (r: String)
    ensures
        r@ == algorithm_label(id),
{
    match CoseAlgorithm::from_i128(id) {
        Some(a) => String::from_str(a.name()),
        None => {
            proof { reveal_strlit("Unknown ("); reveal_strlit(")"); }
            let mut s = String::from_str("Unknown (");
            push_signed_decimal(&mut s, id);
            push_char(&mut s, ')');
            assert(s@ =~= "Unknown ("@ + signed_decimal_chars(id as int) + ")"@);
            s
        },
    }
}

fn push_algorithms(out: &mut Vec<String>, a: &Vec<Cbor>)
    ensures
        string_views(final(out)@) == string_views(old(out)@) + algorithms_of(cbor_models(a@)),
{
    let ghost start = string_views(out@);
    let mut i: usize = 0;
    while i < a.len()
        invariant
            i <= a@.len(),
            string_views(out@) == start + algorithms_of(cbor_models(a@).take(i as int)),
        decreases a@.len() - i,
    {
        proof { lemma_models_take(a@, i as int); }
        let ghost before = out@;
        match &a[i] {
            Cbor::Dict(m) => {
                proof { crate::cbor::lemma_cbor_pair_models(m@); }
                match dict_get_text(m, "alg") {
                    Some(Cbor::Int(id)) => {
                        let name = algorithm_name(*id);
                        out.push(name);
                        assert(string_views(out@) =~= string_views(before).push(algorithm_label(*id)));
                        assert(start + algorithms_of(cbor_models(a@).take(i as int)).push(algorithm_label(*id))
                            =~= (start + algorithms_of(cbor_models(a@).take(i as int))).push(algorithm_label(*id)));
                    },
                    _ => {},
                }
            },
            _ => {},
        }
        i = i + 1;
    }
    proof { if a@.len() > 0 { lemma_models_take(a@, 0); } else { assert(cbor_models(a@).take(0) =~= cbor_models(a@)); } }
}

fn hex_id_text(id: u64) -> (r: String)
    ensures
        r@ == "0x"@ + hex_u64_chars(id),
{
    let mut s = String::new();
    push_hex_u64(&mut s, id);
    assert(s@ =~= "0x"@ + hex_u64_chars(id));
    s
}

fn vendor_command_name(id: u64) -> (r: String)
    ensures
        r@ == vendor_command_label(id),
{
    match VendorConfigCommand::from_u64(id) {
        Some(c) => String::from_str(c.name()),
        None => hex_id_text(id),
    }
}

fn push_vendor_commands(out: &mut Vec<String>, a: &Vec<Cbor>)
    ensures
        string_views(final(out)@) == string_views(old(out)@) + vendor_commands_of(cbor_models(a@)),
{
    let ghost start = string_views(out@);
    let mut i: usize = 0;
    while i < a.len()
        invariant
            i <= a@.len(),
            string_views(out@) == start + vendor_commands_of(cbor_models(a@).take(i as int)),
        decreases a@.len() - i,
    {
        proof { lemma_models_take(a@, i as int); }
        let ghost before = out@;
        match &a[i] {
            Cbor::Int(n) => {
                let name = vendor_command_name(*n as u64);
                out.push(name);
                assert(string_views(out@) =~= string_views(before).push(vendor_command_label(*n as u64)));
                assert(start + vendor_commands_of(cbor_models(a@).take(i as int)).push(vendor_command_label(*n as u64))
                    =~= (start + vendor_commands_of(cbor_models(a@).take(i as int))).push(
                    vendor_command_label(*n as u64),
                ));
            },
            _ => {},
        }
        i = i + 1;
    }
    proof { if a@.len() > 0 { lemma_models_take(a@, 0); } else { assert(cbor_models(a@).take(0) =~= cbor_models(a@)); } }
}

/// The flag stored under `name`.
pub fn flag_get(m: &Vec<(String, bool)>, name: &str) -> (r: Option<bool>)
    ensures
        r == flag_lookup(flag_views(m@), name@),
{
    let ghost fm = flag_views(m@);
    proof { lemma_key_index(fm, name@); }
    let mut i: usize = 0;
    while i < m.len()
        invariant
            i <= m@.len(),
            fm == flag_views(m@),
            fm.len() == m@.len(),
            forall|j: int| 0 <= j < i ==> fm[j].0 != name@,
        decreases m@.len() - i,
    {
        assert(fm[i as int] == (m@[i as int].0@, m@[i as int].1));
        if crate::cbor::str_eq(m[i].0.as_str(), name) {
            proof {
                lemma_key_index(fm, name@);
                match key_index(fm, name@) {
                    Some(j) => {
                        assert(j == i);
                    },
                    None => {},
                }
            }
            return Some(m[i].1);
        }
        i = i + 1;
    }
    None
}

/// Stores `v` under `name`, overwriting an existing entry.
pub fn flag_set(m: &mut Vec<(String, bool)>, name: String, v: bool)
    ensures
        flag_views(final(m)@) == flag_insert(flag_views(old(m)@), name@, v),
{
    let ghost fm = flag_views(m@);
    proof { lemma_key_index(fm, name@); }
    let mut i: usize = 0;
    while i < m.len()
        invariant
            i <= m@.len(),
            m@ == old(m)@,
            fm == flag_views(m@),
            fm.len() == m@.len(),
            forall|j: int| 0 <= j < i ==> fm[j].0 != name@,
        decreases m@.len() - i,
    {
        assert(fm[i as int] == (m@[i as int].0@, m@[i as int].1));
        if crate::cbor::str_eq(m[i].0.as_str(), name.as_str()) {
            proof {
                lemma_key_index(fm, name@);
                match key_index(fm, name@) {
                    Some(j) => {
                        assert(j == i);
                    },
                    None => {},
                }
            }
            m.set(i, (name, v));
            assert(flag_views(m@) =~= fm.update(i as int, (fm[i as int].0, v)));
            return;
        }
        i = i + 1;
    }
    m.push((name, v));
    assert(flag_views(m@) =~= fm.push((name@, v)));
}

fn store_options(out: &mut Vec<(String, bool)>, m: &Vec<(Cbor, Cbor)>)
    ensures
        flag_views(final(out)@) == options_fold(flag_views(old(out)@), cbor_pair_models(m@)),
{
    let ghost start = flag_views(out@);
    let mut i: usize = 0;
    while i < m.len()
        invariant
            i <= m@.len(),
            flag_views(out@) == options_fold(start, cbor_pair_models(m@).take(i as int)),
        decreases m@.len() - i,
    {
        proof { lemma_pairs_take(m@, i as int); }
        match (&m[i].0, &m[i].1) {
            (Cbor::Text(name), Cbor::Bool(b)) => {
                flag_set(out, name.clone(), *b);
            },
            _ => {},
        }
        i = i + 1;
    }
    proof { if m@.len() > 0 { lemma_pairs_take(m@, 0); } else { assert(cbor_pair_models(m@).take(0) =~= cbor_pair_models(m@)); } }
}

fn certification_display_name(name: &String) -> (r: String)
    ensures
        r@ == certification_display(name@),
{
    match FidoCertification::from_str(name.as_str()) {
        Some(c) => String::from_str(c.name()),
        None => name.clone(),
    }
}

fn certification_name(id: u64) -> (r: String)
    ensures
        r@ == certification_label(id),
{
    match FidoCertification::from_u64(id) {
        Some(c) => String::from_str(c.name()),
        None => hex_id_text(id),
    }
}

/// Stores the certifications that the value of key 0x15 lists: a map of
/// names (or hexadecimal identifiers) to flags, or an array of
/// identifiers, each then stored as set.
pub fn add_certifications(out: &mut Vec<(String, bool)>, v: &Cbor)
    ensures
        flag_views(final(out)@) == certifications_after(flag_views(old(out)@), v@),
{
    match v {
        Cbor::Dict(m) => {
            let ghost start = flag_views(out@);
            let mut i: usize = 0;
            while i < m.len()
                invariant
                    i <= m@.len(),
                    flag_views(out@) == certification_map_fold(start, cbor_pair_models(m@).take(i as int)),
                decreases m@.len() - i,
            {
                proof { lemma_pairs_take(m@, i as int); }
                match (&m[i].0, &m[i].1) {
                    (Cbor::Text(name), Cbor::Bool(b)) => {
                        let shown = certification_display_name(name);
                        flag_set(out, shown, *b);
                    },
                    _ => {},
                }
                i = i + 1;
            }
            proof { if m@.len() > 0 { lemma_pairs_take(m@, 0); } else { assert(cbor_pair_models(m@).take(0) =~= cbor_pair_models(m@)); } }
        },
        Cbor::Array(a) => {
            let ghost start = flag_views(out@);
            let mut i: usize = 0;
            while i < a.len()
                invariant
                    i <= a@.len(),
                    flag_views(out@) == certification_array_fold(start, cbor_models(a@).take(i as int)),
                decreases a@.len() - i,
            {
                proof { lemma_models_take(a@, i as int); }
                match &a[i] {
                    Cbor::Int(n) => {
                        let shown = certification_name(*n as u64);
                        flag_set(out, shown, true);
                    },
                    _ => {},
                }
                i = i + 1;
            }
            proof { if a@.len() > 0 { lemma_models_take(a@, 0); } else { assert(cbor_models(a@).take(0) =~= cbor_models(a@)); } }
        },
        _ => {},
    }
}


/// What has been read of the answer so far.
struct InfoState {
    versions: Vec<String>,
    extensions: Vec<String>,
    aaguid: String,
    options: Vec<(String, bool)>,
    max_msg_size: i128,
    pin_protocols: Vec<u32>,
    remaining_discoverable_credentials: Option<i128>,
    min_pin_length: i128,
    firmware_raw: i128,
    vendor_config_commands: Vec<String>,
    certifications: Vec<(String, bool)>,
    max_credential_count_in_list: Option<i128>,
    max_credential_id_length: Option<i128>,
    algorithms: Vec<String>,
    max_serialized_large_blob_array: Option<i128>,
    force_pin_change: Option<bool>,
    max_cred_blob_length: Option<i128>,
}

impl InfoState {
    spec fn model(&self) -> InfoModel {
        InfoModel {
            versions: string_views(self.versions@),
            extensions: string_views(self.extensions@),
            aaguid: self.aaguid@,
            options: flag_views(self.options@),
            max_msg_size: self.max_msg_size,
            pin_protocols: self.pin_protocols@,
            remaining_discoverable_credentials: self.remaining_discoverable_credentials,
            min_pin_length: self.min_pin_length,
            firmware_raw: self.firmware_raw,
            vendor_config_commands: string_views(self.vendor_config_commands@),
            certifications: flag_views(self.certifications@),
            max_credential_count_in_list: self.max_credential_count_in_list,
            max_credential_id_length: self.max_credential_id_length,
            algorithms: string_views(self.algorithms@),
            max_serialized_large_blob_array: self.max_serialized_large_blob_array,
            force_pin_change: self.force_pin_change,
            max_cred_blob_length: self.max_cred_blob_length,
        }
    }

    fn new() -> (r: Self)
        ensures
            r.model() == initial_info(),
    {
        let r = InfoState {
            versions: Vec::new(),
            extensions: Vec::new(),
            aaguid: String::from_str("Unknown"),
            options: Vec::new(),
            max_msg_size: 0,
            pin_protocols: Vec::new(),
            remaining_discoverable_credentials: None,
            min_pin_length: 0,
            firmware_raw: 0,
            vendor_config_commands: Vec::new(),
            certifications: Vec::new(),
            max_credential_count_in_list: None,
            max_credential_id_length: None,
            algorithms: Vec::new(),
            max_serialized_large_blob_array: None,
            force_pin_change: None,
            max_cred_blob_length: None,
        };
        assert(r.model().versions =~= Seq::<Seq<char>>::empty());
        assert(r.model().extensions =~= Seq::<Seq<char>>::empty());
        assert(r.model().options =~= Seq::<(Seq<char>, bool)>::empty());
        assert(r.model().vendor_config_commands =~= Seq::<Seq<char>>::empty());
        assert(r.model().certifications =~= Seq::<(Seq<char>, bool)>::empty());
        assert(r.model().algorithms =~= Seq::<Seq<char>>::empty());
        r
    }

    #[verifier::rlimit(40)]
    fn apply_entry(&mut self, key: &Cbor, v: &Cbor)
        ensures
            final(self).model() == info_step(old(self).model(), key@, v@),
    {
        let k: i128 = match key {
            Cbor::Int(n) => *n,
            _ => {
                return;
            },
        };
        if k == 0x01 {
            if let Cbor::Array(a) = v {
                push_texts(&mut self.versions, a);
            }
        } else if k == 0x02 {
            if let Cbor::Array(a) = v {
                push_texts(&mut self.extensions, a);
            }
        } else if k == 0x03 {
            if let Cbor::Bytes(b) = v {
                self.aaguid = hex_encode(b.as_slice(), true);
            }
        } else if k == 0x04 {
            if let Cbor::Dict(m) = v {
                store_options(&mut self.options, m);
            }
        } else if k == 0x05 {
            if let Cbor::Int(n) = v {
                self.max_msg_size = *n;
            }
        } else if k == 0x06 {
            if let Cbor::Array(a) = v {
                push_u32s(&mut self.pin_protocols, a);
            }
        } else if k == 0x07 {
            if let Cbor::Int(n) = v {
                self.max_credential_count_in_list = Some(*n);
            }
        } else if k == 0x08 {
            if let Cbor::Int(n) = v {
                self.max_credential_id_length = Some(*n);
            }
        } else if k == 0x0A {
            if let Cbor::Array(a) = v {
                push_algorithms(&mut self.algorithms, a);
            }
        } else if k == 0x0B {
            if let Cbor::Int(n) = v {
                self.max_serialized_large_blob_array = Some(*n);
            }
        } else if k == 0x0C {
            if let Cbor::Bool(b) = v {
                self.force_pin_change = Some(*b);
            }
        } else if k == 0x0D {
            if let Cbor::Int(n) = v {
                self.min_pin_length = *n;
            }
        } else if k == 0x0E {
            if let Cbor::Int(n) = v {
                self.firmware_raw = *n;
            }
        } else if k == 0x0F {
            if let Cbor::Int(n) = v {
                self.max_cred_blob_length = Some(*n);
            }
        } else if k == 0x13 {
            if let Cbor::Array(a) = v {
                push_vendor_commands(&mut self.vendor_config_commands, a);
            }
        } else if k == 0x14 {
            if let Cbor::Int(n) = v {
                self.remaining_discoverable_credentials = Some(*n);
            }
        } else if k == 0x15 {
            add_certifications(&mut self.certifications, v);
        }
    }
}

/// The firmware version `major.minor` of its 16-bit encoding.
pub fn firmware_version_text(raw: i128) -> (r: String)
    ensures
        r@ == firmware_text(raw),
{
    let hi: i128 = (raw >> 8u32) & 0xff;
    let lo: i128 = raw & 0xff;
    assert(0 <= (raw >> 8u32) & 0xff <= 255) by (bit_vector);
    assert(0 <= raw & 0xff <= 255) by (bit_vector);
    let mut s = String::new();
    push_decimal(&mut s, hi as u128);
    push_char(&mut s, '.');
    push_decimal(&mut s, lo as u128);
    proof { reveal_strlit("."); }
    assert(s@ =~= firmware_text(raw));
    s
}

/// Reads the authenticatorGetInfo answer (without its status byte).
pub fn parse_get_info(resp: &[u8]) -> (r: Result<FidoDeviceInfo, String>)
    ensures
        match get_info_answer(resp@) {
            Ok(s) => r matches Ok(info) && describes(info, s),
            Err(t) => r matches Err(e) && e@ == t,
        },
{
    let val = match cbor_decode(resp) {
        Ok(v) => v,
        Err(t) => {
            let mut e = String::from_str("Failed to parse GetInfo CBOR: ");
            e.append(t.as_str());
            return Err(e);
        },
    };
    let m = match val {
        Cbor::Dict(m) => m,
        _ => {
            return Err(String::from_str("GetInfo response is not a CBOR map"));
        },
    };
    let mut st = InfoState::new();
    let mut i: usize = 0;
    while i < m.len()
        invariant
            i <= m@.len(),
            st.model() == info_fold(cbor_pair_models(m@).take(i as int)),
        decreases m@.len() - i,
    {
        proof { lemma_pairs_take(m@, i as int); }
        st.apply_entry(&m[i].0, &m[i].1);
        i = i + 1;
    }
    proof {
        if m@.len() > 0 {
            lemma_pairs_take(m@, 0);
        } else {
            assert(cbor_pair_models(m@).take(0) =~= cbor_pair_models(m@));
        }
    }
    let firmware_version = firmware_version_text(st.firmware_raw);
    Ok(
        FidoDeviceInfo {
            versions: st.versions,
            extensions: st.extensions,
            aaguid: st.aaguid,
            options: st.options,
            max_msg_size: st.max_msg_size,
            pin_protocols: st.pin_protocols,
            remaining_discoverable_credentials: st.remaining_discoverable_credentials,
            min_pin_length: st.min_pin_length,
            firmware_version,
            vendor_config_commands: st.vendor_config_commands,
            certifications: st.certifications,
            max_credential_count_in_list: st.max_credential_count_in_list,
            max_credential_id_length: st.max_credential_id_length,
            algorithms: st.algorithms,
            max_serialized_large_blob_array: st.max_serialized_large_blob_array,
            force_pin_change: st.force_pin_change,
            max_cred_blob_length: st.max_cred_blob_length,
        },
    )
}

/// The report of a failed GetInfo exchange.
pub fn get_info_failure(e: &crate::error::PFError) -> (r: String)
    ensures
        r@ == "GetInfo CTAP command failed: "@ + e.spec_message(),
{
    let mut s = String::from_str("GetInfo CTAP command failed: ");
    s.append(e.message().as_str());
    s
}


/// A certification that a map names by its identifier in hexadecimal
/// (with `0x`, as the array form shows unknown ones) is shown under the
/// same name as when an array gives the identifier as a number.
pub proof fn lemma_certification_names_agree(v: u64)
    ensures
        certification_display("0x"@ + hex_u64_chars(v)) == certification_label(v),
{
    crate::text::lemma_hex_u64_roundtrip(v);
}

proof fn lemma_info_step_certifications(s: InfoModel, key: CborModel, v: CborModel)
    ensures
        info_step(s, key, v).certifications == (if key == CborModel::Int(0x15) {
            certifications_after(s.certifications, v)
        } else {
            s.certifications
        }),
{
}

proof fn lemma_certifications_untouched(m: Seq<(CborModel, CborModel)>)
    requires
        forall|j: int| 0 <= j < m.len() ==> m[j].0 != CborModel::Int(0x15),
    ensures
        info_fold(m).certifications == Seq::<(Seq<char>, bool)>::empty(),
    decreases m.len(),
{
    if m.len() > 0 {
        lemma_certifications_untouched(m.drop_last());
        lemma_info_step_certifications(info_fold(m.drop_last()), m.last().0, m.last().1);
    }
}

/// The certifications that GetInfo shows are those that the answer's key
/// 0x15 holds, stored from nothing: read from the value under 0x15,
/// whatever the other entries are and wherever 0x15 stands among them.
pub proof fn lemma_certifications_read(resp: Seq<u8>, m: Seq<(CborModel, CborModel)>, i: int)
    requires
        0 <= i < m.len(),
        m[i].0 == CborModel::Int(0x15),
        forall|j: int| 0 <= j < m.len() && j != i ==> m[j].0 != CborModel::Int(0x15),
    ensures
        info_fold(m).certifications == certifications_after(Seq::empty(), m[i].1),
        cbor_decoding(resp) == Ok::<CborModel, Seq<char>>(CborModel::Dict(m)) ==> (get_info_answer(resp) matches Ok(
            info,
        ) && info.certifications == certifications_after(Seq::empty(), m[i].1)),
    decreases m.len(),
{
    let last = m.len() - 1;
    lemma_info_step_certifications(info_fold(m.drop_last()), m.last().0, m.last().1);
    if i == last {
        assert forall|j: int| 0 <= j < m.drop_last().len() implies m.drop_last()[j].0 != CborModel::Int(0x15) by {
            assert(m.drop_last()[j] == m[j]);
        }
        lemma_certifications_untouched(m.drop_last());
    } else {
        assert(m.drop_last()[i] == m[i]);
        assert forall|j: int| 0 <= j < m.drop_last().len() && j != i implies m.drop_last()[j].0 != CborModel::Int(
            0x15,
        ) by {
            assert(m.drop_last()[j] == m[j]);
        }
        lemma_certifications_read(resp, m.drop_last(), i);
    }
}

proof fn lemma_certification_map_unique(acc: Seq<(Seq<char>, bool)>, m: Seq<(CborModel, CborModel)>)
    requires
        unique_keys(acc),
    ensures
        unique_keys(certification_map_fold(acc, m)),
    decreases m.len(),
{
    if m.len() > 0 {
        lemma_certification_map_unique(acc, m.drop_last());
        match m.last() {
            (CborModel::Text(name), CborModel::Bool(b)) => {
                lemma_flag_insert(certification_map_fold(acc, m.drop_last()), certification_display(name), b);
            },
            _ => {},
        }
    }
}

proof fn lemma_certification_array_unique(acc: Seq<(Seq<char>, bool)>, a: Seq<CborModel>)
    requires
        unique_keys(acc),
    ensures
        unique_keys(certification_array_fold(acc, a)),
    decreases a.len(),
{
    if a.len() > 0 {
        lemma_certification_array_unique(acc, a.drop_last());
        match a.last() {
            CborModel::Int(n) => {
                lemma_flag_insert(certification_array_fold(acc, a.drop_last()), certification_label(n as u64), true);
            },
            _ => {},
        }
    }
}

/// A certification named with its flag as the last pair of a map under
/// 0x15 is shown, under its display name, with that flag; one given by
/// its identifier as the last item of an array is shown, under its
/// label, as held. No certification is shown twice.
pub proof fn lemma_certification_entries(acc: Seq<(Seq<char>, bool)>, v: CborModel)
    requires
        unique_keys(acc),
    ensures
        unique_keys(certifications_after(acc, v)),
        match v {
            CborModel::Dict(m) => m.len() > 0 ==> match m.last() {
                (CborModel::Text(name), CborModel::Bool(b)) => flag_lookup(
                    certifications_after(acc, v),
                    certification_display(name),
                ) == Some(b),
                _ => true,
            },
            CborModel::Array(a) => a.len() > 0 ==> match a.last() {
                CborModel::Int(n) => flag_lookup(certifications_after(acc, v), certification_label(n as u64))
                    == Some(true),
                _ => true,
            },
            _ => true,
        },
{
    match v {
        CborModel::Dict(m) => {
            lemma_certification_map_unique(acc, m);
            if m.len() > 0 {
                lemma_certification_map_unique(acc, m.drop_last());
                match m.last() {
                    (CborModel::Text(name), CborModel::Bool(b)) => {
                        lemma_flag_insert(certification_map_fold(acc, m.drop_last()), certification_display(name), b);
                    },
                    _ => {},
                }
            }
        },
        CborModel::Array(a) => {
            lemma_certification_array_unique(acc, a);
            if a.len() > 0 {
                lemma_certification_array_unique(acc, a.drop_last());
                match a.last() {
                    CborModel::Int(n) => {
                        lemma_flag_insert(
                            certification_array_fold(acc, a.drop_last()),
                            certification_label(n as u64),
                            true,
                        );
                    },
                    _ => {},
                }
            }
        },
        _ => {},
    }
}

} // verus!
