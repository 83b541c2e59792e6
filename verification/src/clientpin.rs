//! The authenticatorClientPIN protocol (PIN/UV auth protocol one): the
//! requests that fetch the authenticator's key agreement key, obtain PIN
//! tokens, and set or change the PIN, and the reading of the answers.
use vstd::prelude::*;
use vstd::string::StringSliceAdditionalSpecFns;
use crate::cbor::{
    cbor_encodable, cbor_writable, Cbor, CborModel, cbor_decode, cbor_decoding, cbor_encode, cbor_encoding, cbor_pair_models,
    clone_cbor, dict_get_int, dict_lookup, lemma_cbor_pair_models,
};
use crate::constants::{ClientPinParam, ClientPinResponseParam, ClientPinSubCommand, CtapCommand};
use crate::crypto::{
    aes256_cbc_decrypt, aes256_cbc_decryption, aes256_cbc_encrypt, aes256_cbc_encryption,
    ecdh_agree, ecdh_p256_generate, ecdh_public_key, hmac_sha256, hmac_sha256_tag, sha256,
    sha256_digest,
};
use crate::ctaphid::{push_range, push_zeros, zeros};
use crate::error::{PFError, device_error, error_mentions, is_device_error, is_io_error, seq_contains};

verus! {

/// The CBOR encoding of an integer.
pub open spec fn enc_int(n: int) -> Seq<u8> {
    cbor_encoding(CborModel::Int(n))
}

/// The CBOR encoding of a byte string.
pub open spec fn enc_bytes(b: Seq<u8>) -> Seq<u8> {
    cbor_encoding(CborModel::Bytes(b))
}

/// The CBOR encoding of a text string.
pub open spec fn enc_text(t: Seq<char>) -> Seq<u8> {
    cbor_encoding(CborModel::Text(t))
}

/// Encodes an integer as CBOR.
pub fn encode_int(n: i128) -> (r: Vec<u8>)
    requires
        -0x1_0000_0000_0000_0000 <= n <= 0xffff_ffff_ffff_ffff,
    ensures
        r@ == enc_int(n as int),
{
    cbor_encode(&Cbor::Int(n))
}

/// Encodes a byte string as CBOR.
pub fn encode_bytes(b: &[u8]) -> (r: Vec<u8>)
    ensures
        r@ == enc_bytes(b@),
{
    let mut v: Vec<u8> = Vec::new();
    push_range(&mut v, b, 0, b.len());
    assert(b@.subrange(0, b@.len() as int) =~= b@);
    cbor_encode(&Cbor::Bytes(v))
}

/// Encodes a text string as CBOR.
pub fn encode_text(t: &String) -> (r: Vec<u8>)
    ensures
        r@ == enc_text(t@),
{
    cbor_encode(&Cbor::Text(t.clone()))
}

/// Appends all of `src`.
pub fn extend(out: &mut Vec<u8>, src: &[u8])
    ensures
        final(out)@ == old(out)@ + src@,
{
    push_range(out, src, 0, src.len());
    assert(src@.subrange(0, src@.len() as int) =~= src@);
}

/// The COSE_Key of a P-256 key agreement key (kty EC2, alg -7 as the
/// firmware expects, crv P-256, then x and y), written as a five-entry map.
pub open spec fn cose_key_encoding(x: Seq<u8>, y: Seq<u8>) -> Seq<u8> {
    seq![0xA5u8] + enc_int(1) + enc_int(2) + enc_int(3) + enc_int(-7) + enc_int(-1) + enc_int(1)
        + enc_int(-2) + enc_bytes(x) + enc_int(-3) + enc_bytes(y)
}

/// Encodes the platform key agreement key as a COSE_Key.
pub fn encode_cose_key(x: &[u8], y: &[u8]) -> (r: Vec<u8>)
    ensures
        r@ == cose_key_encoding(x@, y@),
{
    let mut bytes: Vec<u8> = Vec::new();
    bytes.push(0xA5u8);
    extend(&mut bytes, &encode_int(1));
    extend(&mut bytes, &encode_int(2));
    extend(&mut bytes, &encode_int(3));
    extend(&mut bytes, &encode_int(-7));
    extend(&mut bytes, &encode_int(-1));
    extend(&mut bytes, &encode_int(1));
    extend(&mut bytes, &encode_int(-2));
    extend(&mut bytes, &encode_bytes(x));
    extend(&mut bytes, &encode_int(-3));
    extend(&mut bytes, &encode_bytes(y));
    assert(bytes@ =~= cose_key_encoding(x@, y@));
    bytes
}

/// The parameters of a PIN token request: protocol one, the
/// subcommand, the key agreement key, the encrypted PIN hash, and the
/// optional permissions and RP id, as a map of as many entries.
pub open spec fn client_pin_params_encoding(
    sub_cmd: u8,
    cose_key: Seq<u8>,
    pin_hash_enc: Seq<u8>,
    permissions: Option<u8>,
    rp_id: Option<Seq<char>>,
) -> Seq<u8> {
    let count: int = 4 + (if permissions is Some { 1int } else { 0 }) + (if rp_id is Some { 1int } else { 0 });
    seq![(0xA0 + count) as u8] + enc_int(ClientPinParam::PinUvAuthProtocol.spec_value() as int)
        + enc_int(1) + enc_int(ClientPinParam::SubCommand.spec_value() as int) + enc_int(sub_cmd as int)
        + enc_int(ClientPinParam::KeyAgreement.spec_value() as int) + cose_key
        + enc_int(ClientPinParam::PinHashEnc.spec_value() as int) + enc_bytes(pin_hash_enc)
        + (match permissions {
            Some(p) => enc_int(ClientPinParam::Permissions.spec_value() as int) + enc_int(p as int),
            None => Seq::empty(),
        })
        + (match rp_id {
            Some(rp) => enc_int(ClientPinParam::PermissionsRpId.spec_value() as int) + enc_text(rp),
            None => Seq::empty(),
        })
}

/// Encodes the parameters of a PIN token request.
pub fn encode_client_pin_params(
    sub_cmd: ClientPinSubCommand,
    cose_key_bytes: &[u8],
    pin_hash_enc: &[u8],
    permissions: Option<u8>,
    rp_id: Option<String>,
) -> (r: Vec<u8>)
    ensures
        r@ == client_pin_params_encoding(
            sub_cmd.spec_value(),
            cose_key_bytes@,
            pin_hash_enc@,
            permissions,
            match rp_id {
                Some(s) => Some(s@),
                None => None,
            },
        ),
{
    let mut count: u8 = 4;
    if permissions.is_some() {
        count = count + 1;
    }
    if rp_id.is_some() {
        count = count + 1;
    }
    let mut bytes: Vec<u8> = Vec::new();
    bytes.push(0xA0u8 | count);
    assert(0xA0u8 | count == 0xA0u8 + count) by (bit_vector)
        requires
            4 <= count <= 6,
    ;
    extend(&mut bytes, &encode_int(ClientPinParam::PinUvAuthProtocol.value() as i128));
    extend(&mut bytes, &encode_int(1));
    extend(&mut bytes, &encode_int(ClientPinParam::SubCommand.value() as i128));
    extend(&mut bytes, &encode_int(sub_cmd.value() as i128));
    extend(&mut bytes, &encode_int(ClientPinParam::KeyAgreement.value() as i128));
    extend(&mut bytes, cose_key_bytes);
    extend(&mut bytes, &encode_int(ClientPinParam::PinHashEnc.value() as i128));
    extend(&mut bytes, &encode_bytes(pin_hash_enc));
    let ghost mid = bytes@;
    match permissions {
        Some(p) => {
            extend(&mut bytes, &encode_int(ClientPinParam::Permissions.value() as i128));
            extend(&mut bytes, &encode_int(p as i128));
        },
        None => {},
    }
    let ghost mid2 = bytes@;
    match rp_id {
        Some(rp) => {
            extend(&mut bytes, &encode_int(ClientPinParam::PermissionsRpId.value() as i128));
            extend(&mut bytes, &encode_text(&rp));
        },
        None => {},
    }
    assert(bytes@ =~= client_pin_params_encoding(
        sub_cmd.spec_value(),
        cose_key_bytes@,
        pin_hash_enc@,
        permissions,
        match rp_id {
            Some(s) => Some(s@),
            None => None,
        },
    ));
    bytes
}


/// A map from integer keys, with the entries in the order given.
pub open spec fn int_dict(entries: Seq<(int, CborModel)>) -> CborModel {
    CborModel::Dict(entries.map_values(|e: (int, CborModel)| (CborModel::Int(e.0), e.1)))
}

/// A map whose keys are CBOR integers in range and whose values are
/// encodable can be encoded.
pub proof fn lemma_int_dict_encodable(entries: Seq<(int, CborModel)>)
    requires
        forall|i: int|
            0 <= i < entries.len() ==> -0x1_0000_0000_0000_0000 <= #[trigger] entries[i].0
                <= 0xffff_ffff_ffff_ffff && cbor_encodable(entries[i].1),
    ensures
        cbor_encodable(int_dict(entries)),
{
    let m = entries.map_values(|e: (int, CborModel)| (CborModel::Int(e.0), e.1));
    assert forall|i: int| 0 <= i < m.len() implies cbor_encodable(#[trigger] m[i].0) && cbor_encodable(m[i].1) by {
        assert(m[i] == (CborModel::Int(entries[i].0), entries[i].1));
    }
}

/// A map whose values hold no floating-point item holds none either.
pub proof fn lemma_int_dict_writable(entries: Seq<(int, CborModel)>)
    requires
        forall|i: int| 0 <= i < entries.len() ==> cbor_writable(#[trigger] entries[i].1),
    ensures
        cbor_writable(int_dict(entries)),
{
    let m = entries.map_values(|e: (int, CborModel)| (CborModel::Int(e.0), e.1));
    assert forall|i: int| 0 <= i < m.len() implies cbor_writable(#[trigger] m[i].0) && cbor_writable(m[i].1) by {
        assert(m[i] == (CborModel::Int(entries[i].0), entries[i].1));
    }
}

/// Builds a CBOR map from integer keys.
pub fn make_int_dict(entries: Vec<(i128, Cbor)>) -> (r: Cbor)
    ensures
        r@ == int_dict(entries@.map_values(|e: (i128, Cbor)| (e.0 as int, e.1@))),
{
    let mut pairs: Vec<(Cbor, Cbor)> = Vec::new();
    let ghost src = entries@;
    let mut rest = entries;
    let ghost n = src.len();
    let mut rev: Vec<(i128, Cbor)> = Vec::new();
    while rest.len() > 0
        invariant
            n == src.len(),
            rev@.len() + rest@.len() == n,
            rest@ == src.take(rest@.len() as int),
            forall|j: int| 0 <= j < rev@.len() ==> #[trigger] rev@[j] == src[n - 1 - j],
        decreases rest.len(),
    {
        let ghost before = rest@;
        let e = rest.pop().unwrap();
        assert(e == src[rest@.len() as int]);
        rev.push(e);
        assert(rest@ =~= src.take(rest@.len() as int));
    }
    while rev.len() > 0
        invariant
            n == src.len(),
            pairs@.len() + rev@.len() == n,
            forall|j: int| 0 <= j < rev@.len() ==> #[trigger] rev@[j] == src[n - 1 - j],
            forall|j: int|
                0 <= j < pairs@.len() ==> #[trigger] pairs@[j] == (Cbor::Int(src[j].0), src[j].1),
        decreases rev.len(),
    {
        let (k, v) = rev.pop().unwrap();
        pairs.push((Cbor::Int(k), v));
    }
    proof {
        lemma_cbor_pair_models(pairs@);
        let lhs = cbor_pair_models(pairs@);
        let rhs = src.map_values(|e: (i128, Cbor)| (e.0 as int, e.1@)).map_values(
            |e: (int, CborModel)| (CborModel::Int(e.0), e.1),
        );
        assert(lhs =~= rhs);
    }
    Cbor::Dict(pairs)
}


/// The getKeyAgreement request: authenticatorClientPIN with protocol
/// one and subcommand getKeyAgreement.
pub open spec fn key_agreement_request_bytes() -> Seq<u8> {
    seq![CtapCommand::ClientPin.spec_value()] + cbor_encoding(
        int_dict(
            seq![
                (ClientPinParam::PinUvAuthProtocol.spec_value() as int, CborModel::Int(1)),
                (ClientPinParam::SubCommand.spec_value() as int, CborModel::Int(
                    ClientPinSubCommand::GetKeyAgreement.spec_value() as int,
                )),
            ],
        ),
    )
}

/// Builds the getKeyAgreement request.
pub fn key_agreement_request() -> (r: Vec<u8>)
    ensures
        r@ == key_agreement_request_bytes(),
{
    let mut entries: Vec<(i128, Cbor)> = Vec::new();
    entries.push((ClientPinParam::PinUvAuthProtocol.value() as i128, Cbor::Int(1)));
    entries.push(
        (ClientPinParam::SubCommand.value() as i128, Cbor::Int(ClientPinSubCommand::GetKeyAgreement.value() as i128)),
    );
    let d = make_int_dict(entries);
    proof {
        let ghost e = entries@;
        assert(entries@.map_values(|e: (i128, Cbor)| (e.0 as int, e.1@)) =~= seq![
            (ClientPinParam::PinUvAuthProtocol.spec_value() as int, CborModel::Int(1)),
            (ClientPinParam::SubCommand.spec_value() as int, CborModel::Int(
                ClientPinSubCommand::GetKeyAgreement.spec_value() as int,
            )),
        ]);
    }
    proof {
        lemma_int_dict_encodable(seq![
            (ClientPinParam::PinUvAuthProtocol.spec_value() as int, CborModel::Int(1)),
            (ClientPinParam::SubCommand.spec_value() as int, CborModel::Int(
                ClientPinSubCommand::GetKeyAgreement.spec_value() as int,
            )),
        ]);
    }
    let mut payload: Vec<u8> = Vec::new();
    payload.push(CtapCommand::ClientPin.value());
    extend(&mut payload, &cbor_encode(&d));
    assert(payload@ =~= key_agreement_request_bytes());
    payload
}

/// What getKeyAgreement answers: the key agreement key under key 1 of
/// the response map.
pub open spec fn key_agreement_answer(resp: Seq<u8>) -> Result<CborModel, PFErrorText> {
    match cbor_decoding(resp) {
        Err(t) => Err(PFErrorText::Io(t)),
        Ok(CborModel::Dict(m)) => match dict_lookup(
            m,
            CborModel::Int(ClientPinResponseParam::KeyAgreement.spec_value() as int),
        ) {
            Some(v) => Ok(v),
            None => Err(PFErrorText::Device("KeyAgreement not found in response"@)),
        },
        Ok(_) => Err(PFErrorText::Device("Unexpected response for GetKeyAgreement"@)),
    }
}

/// An error by its kind and text.
pub enum PFErrorText {
    Io(Seq<char>),
    Device(Seq<char>),
}

/// Whether `e` is the error that `t` describes.
pub open spec fn error_is(e: PFError, t: PFErrorText) -> bool {
    match t {
        PFErrorText::Io(s) => is_io_error(e, s),
        PFErrorText::Device(s) => is_device_error(e, s),
    }
}

/// Whether `r` is the outcome that `spec` describes.
pub open spec fn cbor_result_is(r: Result<Cbor, PFError>, spec: Result<CborModel, PFErrorText>) -> bool {
    match spec {
        Ok(v) => r matches Ok(c) && c@ == v,
        Err(t) => r matches Err(e) && error_is(e, t),
    }
}

/// Reads the answer to getKeyAgreement.
pub fn parse_key_agreement_response(resp: &[u8]) -> (r: Result<Cbor, PFError>)
    ensures
        cbor_result_is(r, key_agreement_answer(resp@)),
{
    match cbor_decode(resp) {
        Err(t) => Err(PFError::Io(t)),
        Ok(val) => match val {
            Cbor::Dict(m) => {
                proof { crate::cbor::lemma_cbor_pair_models(m@); }
                match dict_get_int(&m, ClientPinResponseParam::KeyAgreement.value() as i128) {
                    Some(v) => Ok(clone_cbor(v)),
                    None => Err(device_error("KeyAgreement not found in response")),
                }
            },
            _ => Err(device_error("Unexpected response for GetKeyAgreement")),
        },
    }
}


/// The authenticator's public point: the byte strings under labels -2
/// (x) and -3 (y) of its COSE key.
pub open spec fn key_agreement_point(ka: CborModel) -> Option<(Seq<u8>, Seq<u8>)> {
    match ka {
        CborModel::Dict(m) => match (dict_lookup(m, CborModel::Int(-2)), dict_lookup(m, CborModel::Int(-3))) {
            (Some(CborModel::Bytes(x)), Some(CborModel::Bytes(y))) => Some((x, y)),
            _ => None,
        },
        _ => None,
    }
}

/// Why a key agreement key cannot be used, if it cannot.
pub open spec fn key_agreement_problem(ka: CborModel) -> Option<Seq<char>> {
    match ka {
        CborModel::Dict(m) => match dict_lookup(m, CborModel::Int(-2)) {
            Some(CborModel::Bytes(_)) => match dict_lookup(m, CborModel::Int(-3)) {
                Some(CborModel::Bytes(_)) => None,
                _ => Some("Invalid KeyAgreement Y coordinate"@),
            },
            _ => Some("Invalid KeyAgreement X coordinate"@),
        },
        _ => Some("Invalid KeyAgreement format"@),
    }
}

/// The shared secret and platform key of one PIN protocol exchange.
#[derive(Debug)]
pub struct PinSession {
    /// X coordinate of the platform's ephemeral public key.
    pub platform_x: Vec<u8>,
    /// Y coordinate of the platform's ephemeral public key.
    pub platform_y: Vec<u8>,
    /// SHA-256 of the ECDH shared point's X coordinate.
    pub shared_secret: Vec<u8>,
}

impl PinSession {
    pub open spec fn wf(&self) -> bool {
        &&& self.platform_x@.len() == 32
        &&& self.platform_y@.len() == 32
        &&& self.shared_secret@.len() == 32
    }

    /// Runs ECDH with a fresh P-256 key against the authenticator's key
    /// agreement key `ka` and derives the shared secret as SHA-256 of the
    /// shared point's X coordinate. The point handed to ECDH is the one
    /// that `key_agreement_peer` builds from `ka`, and the session is the
    /// one that `session_from` makes of the platform's public key and the
    /// ECDH result; the key itself is random, so the secret is stated only
    /// as SHA-256 of a 32-byte ECDH result.
    pub fn establish(ka: &Cbor) -> (r: Result<PinSession, PFError>)
        ensures
            r matches Ok(s) ==> s.wf() && key_agreement_point(ka@) is Some && exists|public: Seq<u8>, z: Seq<u8>|
                public.len() == 65 && z.len() == 32 && #[trigger] made_from(s, public, z),
            key_agreement_point(ka@) is None ==> r is Err,
            r matches Err(e) ==> is_device_error(e, "Failed to generate platform ephemeral key"@)
                || is_device_error(e, "Failed to compute platform public key"@)
                || (key_agreement_problem(ka@) matches Some(t) && is_device_error(e, t))
                || (key_agreement_problem(ka@) is None && is_device_error(
                e,
                "ECDH shared secret computation failed"@,
            )),
    {
        let key = match ecdh_p256_generate() {
            Some(k) => k,
            None => return Err(device_error("Failed to generate platform ephemeral key")),
        };
        let public = match ecdh_public_key(&key) {
            Some(p) => p,
            None => return Err(device_error("Failed to compute platform public key")),
        };
        let peer = key_agreement_peer(ka)?;
        let z = match ecdh_agree(key, peer.as_slice()) {
            Some(z) => z,
            None => return Err(device_error("ECDH shared secret computation failed")),
        };
        let s = session_from(public.as_slice(), z.as_slice());
        assert(made_from(s, public@, z@));
        Ok(s)
    }

    /// The COSE key of the platform's ephemeral public key.
    pub open spec fn spec_cose_key(&self) -> Seq<u8> {
        cose_key_encoding(self.platform_x@, self.platform_y@)
    }
}

/// Whether `s` is the session that a platform public key (the 65-byte
/// uncompressed point `0x04`, X, Y) and an ECDH result `z` make: the
/// platform key's coordinates, and SHA-256 of `z` as the shared secret.
pub open spec fn made_from(s: PinSession, public: Seq<u8>, z: Seq<u8>) -> bool {
    &&& s.platform_x@ == public.subrange(1, 33)
    &&& s.platform_y@ == public.subrange(33, 65)
    &&& s.shared_secret@ == sha256_digest(z)
}

/// The uncompressed P-256 point (`0x04`, X, Y) of the authenticator's key
/// agreement key, which is what ECDH is run against; a key without byte
/// strings under -2 and -3 gives the error that `key_agreement_problem`
/// names.
pub fn key_agreement_peer(ka: &Cbor) -> (r: Result<Vec<u8>, PFError>)
    ensures
        match key_agreement_point(ka@) {
            Some((x, y)) => r matches Ok(p) && p@ == seq![0x04u8] + x + y,
            None => r matches Err(e) && key_agreement_problem(ka@) matches Some(t) && is_device_error(e, t),
        },
{
    let m = match ka {
        Cbor::Dict(m) => m,
        _ => return Err(device_error("Invalid KeyAgreement format")),
    };
    proof { crate::cbor::lemma_cbor_pair_models(m@); }
    let x = match dict_get_int(m, -2) {
        Some(Cbor::Bytes(b)) => b,
        _ => return Err(device_error("Invalid KeyAgreement X coordinate")),
    };
    let y = match dict_get_int(m, -3) {
        Some(Cbor::Bytes(b)) => b,
        _ => return Err(device_error("Invalid KeyAgreement Y coordinate")),
    };
    let mut peer: Vec<u8> = Vec::new();
    peer.push(0x04u8);
    extend(&mut peer, x.as_slice());
    extend(&mut peer, y.as_slice());
    Ok(peer)
}

/// The session of a platform public key (65 bytes: `0x04`, X, Y) and an
/// ECDH result `z`: the platform key's X and Y, and SHA-256 of `z` as the
/// shared secret.
pub fn session_from(public: &[u8], z: &[u8]) -> (s: PinSession)
    requires
        public.len() == 65,
        z.len() == 32,
    ensures
        s.platform_x@ == public@.subrange(1, 33),
        s.platform_y@ == public@.subrange(33, 65),
        s.shared_secret@ == sha256_digest(z@),
        s.wf(),
{
    let shared_secret = sha256(z);
    let mut platform_x: Vec<u8> = Vec::new();
    push_range(&mut platform_x, public, 1, 33);
    let mut platform_y: Vec<u8> = Vec::new();
    push_range(&mut platform_y, public, 33, 65);
    PinSession { platform_x, platform_y, shared_secret }
}

/// The first 16 bytes of SHA-256 of the PIN, encrypted with the shared
/// secret.
pub open spec fn pin_hash_enc(shared: Seq<u8>, pin: Seq<u8>) -> Seq<u8> {
    aes256_cbc_encryption(shared, sha256_digest(pin).take(16))
}

/// Encrypts the left half of the PIN's SHA-256 digest.
pub fn encrypt_pin_hash(session: &PinSession, pin: &str) -> (r: Vec<u8>)
    requires
        session.wf(),
    ensures
        r@ == pin_hash_enc(session.shared_secret@, pin.spec_bytes()),
        r@.len() == 16,
{
    let digest = sha256(pin.as_bytes());
    let mut half: Vec<u8> = Vec::new();
    push_range(&mut half, digest.as_slice(), 0, 16);
    assert(digest@.subrange(0, 16) =~= digest@.take(16));
    aes256_cbc_encrypt(session.shared_secret.as_slice(), half.as_slice())
}

/// A request for a PIN token (getPinToken, or with permissions and an
/// optional RP id for getPinUvAuthTokenUsingPinWithPermissions).
pub open spec fn pin_token_request_bytes(
    session: PinSession,
    pin: Seq<u8>,
    sub_cmd: u8,
    permissions: Option<u8>,
    rp_id: Option<Seq<char>>,
) -> Seq<u8> {
    seq![CtapCommand::ClientPin.spec_value()] + client_pin_params_encoding(
        sub_cmd,
        session.spec_cose_key(),
        pin_hash_enc(session.shared_secret@, pin),
        permissions,
        rp_id,
    )
}

/// Builds a PIN token request.
pub fn pin_token_request(
    session: &PinSession,
    pin: &str,
    sub_cmd: ClientPinSubCommand,
    permissions: Option<u8>,
    rp_id: Option<String>,
) -> (r: Vec<u8>)
    requires
        session.wf(),
    ensures
        r@ == pin_token_request_bytes(
            *session,
            pin.spec_bytes(),
            sub_cmd.spec_value(),
            permissions,
            match rp_id {
                Some(s) => Some(s@),
                None => None,
            },
        ),
{
    let enc = encrypt_pin_hash(session, pin);
    let cose = encode_cose_key(session.platform_x.as_slice(), session.platform_y.as_slice());
    let params = encode_client_pin_params(sub_cmd, cose.as_slice(), enc.as_slice(), permissions, rp_id);
    let mut payload: Vec<u8> = Vec::new();
    payload.push(CtapCommand::ClientPin.value());
    extend(&mut payload, params.as_slice());
    payload
}

/// The text of a PIN token answer without a token: getPinToken names the
/// pinToken, the request with permissions the pinUvAuthToken.
pub open spec fn pin_token_missing(with_permissions: bool) -> Seq<char> {
    if with_permissions {
        "pinUvAuthToken not found in response"@
    } else {
        "pinToken not found in response"@
    }
}

/// What a PIN token response holds: the token under key 2, encrypted
/// with the shared secret. `with_permissions` tells a getPinToken answer
/// from an answer to the request with permissions.
pub open spec fn pin_token_answer(shared: Seq<u8>, resp: Seq<u8>, with_permissions: bool) -> Result<Seq<u8>, PFErrorText> {
    match cbor_decoding(resp) {
        Err(t) => Err(PFErrorText::Io(t)),
        Ok(CborModel::Dict(m)) => match dict_lookup(
            m,
            CborModel::Int(ClientPinResponseParam::PinToken.spec_value() as int),
        ) {
            Some(CborModel::Bytes(enc)) => if enc.len() % 16 == 0 {
                Ok(aes256_cbc_decryption(shared, enc))
            } else {
                Err(PFErrorText::Device("Failed to decrypt PIN token"@))
            },
            _ => Err(PFErrorText::Device(pin_token_missing(with_permissions))),
        },
        Ok(_) => Err(PFErrorText::Device("Unexpected response format"@)),
    }
}

/// Whether `r` is the outcome that `spec` describes.
pub open spec fn bytes_result_is(r: Result<Vec<u8>, PFError>, spec: Result<Seq<u8>, PFErrorText>) -> bool {
    match spec {
        Ok(v) => r matches Ok(b) && b@ == v,
        Err(t) => r matches Err(e) && error_is(e, t),
    }
}

/// Reads the answer to a PIN token request (getPinToken, or with
/// permissions) and decrypts the token.
pub fn parse_pin_token_response(session: &PinSession, resp: &[u8], with_permissions: bool) -> (r: Result<Vec<u8>, PFError>)
    requires
        session.wf(),
    ensures
        bytes_result_is(r, pin_token_answer(session.shared_secret@, resp@, with_permissions)),
{
    match cbor_decode(resp) {
        Err(t) => Err(PFError::Io(t)),
        Ok(val) => match val {
            Cbor::Dict(m) => match dict_get_int(&m, ClientPinResponseParam::PinToken.value() as i128) {
                Some(Cbor::Bytes(enc)) => match aes256_cbc_decrypt(session.shared_secret.as_slice(), enc.as_slice()) {
                    Some(token) => Ok(token),
                    None => Err(device_error("Failed to decrypt PIN token")),
                },
                _ => if with_permissions {
                    Err(device_error("pinUvAuthToken not found in response"))
                } else {
                    Err(device_error("pinToken not found in response"))
                },
            },
            _ => Err(device_error("Unexpected response format")),
        },
    }
}


/// A new PIN must be 4 to 63 bytes long.
pub open spec fn new_pin_problem(pin: Seq<u8>) -> Option<Seq<char>> {
    if pin.len() < 4 {
        Some("PIN must be at least 4 characters"@)
    } else if pin.len() > 63 {
        Some("PIN must be less than 64 characters"@)
    } else {
        None
    }
}

/// Checks the length of a new PIN.
pub fn check_new_pin(new_pin: &str) -> (r: Result<(), PFError>)
    ensures
        r is Ok <==> new_pin_problem(new_pin.spec_bytes()) is None,
        r matches Err(e) ==> new_pin_problem(new_pin.spec_bytes()) matches Some(t) && is_device_error(e, t),
{
    let n = new_pin.as_bytes().len();
    if n < 4 {
        return Err(device_error("PIN must be at least 4 characters"));
    }
    if n > 63 {
        return Err(device_error("PIN must be less than 64 characters"));
    }
    Ok(())
}

/// The new PIN padded with zeros to 64 bytes and encrypted.
pub open spec fn new_pin_enc(shared: Seq<u8>, pin: Seq<u8>) -> Seq<u8> {
    aes256_cbc_encryption(shared, pin + zeros((64 - pin.len()) as nat))
}

fn encrypt_new_pin(session: &PinSession, new_pin: &str) -> (r: Vec<u8>)
    requires
        session.wf(),
        new_pin.spec_bytes().len() <= 63,
    ensures
        r@ == new_pin_enc(session.shared_secret@, new_pin.spec_bytes()),
        r@.len() == 64,
{
    let bytes = new_pin.as_bytes();
    let mut padded: Vec<u8> = Vec::new();
    extend(&mut padded, bytes);
    push_zeros(&mut padded, 64 - bytes.len());
    aes256_cbc_encrypt(session.shared_secret.as_slice(), padded.as_slice())
}

/// The first 16 bytes of the HMAC-SHA-256 of `msg` under `key`.
pub open spec fn auth_param(key: Seq<u8>, msg: Seq<u8>) -> Seq<u8> {
    hmac_sha256_tag(key, msg).take(16)
}

/// Computes the first 16 bytes of the HMAC-SHA-256 of `msg`.
pub fn authenticate(key: &[u8], msg: &[u8]) -> (r: Vec<u8>)
    ensures
        r@ == auth_param(key@, msg@),
        r@.len() == 16,
{
    let tag = hmac_sha256(key, msg);
    let mut out: Vec<u8> = Vec::new();
    push_range(&mut out, tag.as_slice(), 0, 16);
    assert(tag@.subrange(0, 16) =~= tag@.take(16));
    out
}

/// The setPin request: protocol one, the platform key, the
/// authentication of the encrypted new PIN, and the encrypted new PIN.
pub open spec fn set_pin_request_bytes(session: PinSession, new_pin: Seq<u8>) -> Seq<u8> {
    let npe = new_pin_enc(session.shared_secret@, new_pin);
    seq![CtapCommand::ClientPin.spec_value(), 0xA5u8] + enc_int(1) + enc_int(1) + enc_int(2)
        + enc_int(ClientPinSubCommand::SetPin.spec_value() as int) + enc_int(3) + session.spec_cose_key()
        + enc_int(4) + enc_bytes(auth_param(session.shared_secret@, npe)) + enc_int(5) + enc_bytes(npe)
}

/// Builds the setPin request for a PIN whose length `check_new_pin`
/// accepted.
pub fn set_pin_request(session: &PinSession, new_pin: &str) -> (r: Vec<u8>)
    requires
        session.wf(),
        new_pin_problem(new_pin.spec_bytes()) is None,
    ensures
        r@ == set_pin_request_bytes(*session, new_pin.spec_bytes()),
{
    let npe = encrypt_new_pin(session, new_pin);
    let auth = authenticate(session.shared_secret.as_slice(), npe.as_slice());
    let cose = encode_cose_key(session.platform_x.as_slice(), session.platform_y.as_slice());
    let mut p: Vec<u8> = Vec::new();
    p.push(CtapCommand::ClientPin.value());
    p.push(0xA5u8);
    extend(&mut p, &encode_int(ClientPinParam::PinUvAuthProtocol.value() as i128));
    extend(&mut p, &encode_int(1));
    extend(&mut p, &encode_int(ClientPinParam::SubCommand.value() as i128));
    extend(&mut p, &encode_int(ClientPinSubCommand::SetPin.value() as i128));
    extend(&mut p, &encode_int(ClientPinParam::KeyAgreement.value() as i128));
    extend(&mut p, cose.as_slice());
    extend(&mut p, &encode_int(ClientPinParam::PinUvAuthParam.value() as i128));
    extend(&mut p, &encode_bytes(auth.as_slice()));
    extend(&mut p, &encode_int(ClientPinParam::NewPinEnc.value() as i128));
    extend(&mut p, &encode_bytes(npe.as_slice()));
    assert(p@ =~= set_pin_request_bytes(*session, new_pin.spec_bytes()));
    p
}

/// The changePin request: as setPin, with the encrypted hash of the
/// current PIN, which the authentication also covers.
pub open spec fn change_pin_request_bytes(session: PinSession, current_pin: Seq<u8>, new_pin: Seq<u8>) -> Seq<u8> {
    let npe = new_pin_enc(session.shared_secret@, new_pin);
    let phe = pin_hash_enc(session.shared_secret@, current_pin);
    seq![CtapCommand::ClientPin.spec_value(), 0xA6u8] + enc_int(1) + enc_int(1) + enc_int(2)
        + enc_int(ClientPinSubCommand::ChangePin.spec_value() as int) + enc_int(3) + session.spec_cose_key()
        + enc_int(4) + enc_bytes(auth_param(session.shared_secret@, npe + phe)) + enc_int(5)
        + enc_bytes(npe) + enc_int(6) + enc_bytes(phe)
}

/// Builds the changePin request for a new PIN whose length
/// `check_new_pin` accepted.
pub fn change_pin_request(session: &PinSession, current_pin: &str, new_pin: &str) -> (r: Vec<u8>)
    requires
        session.wf(),
        new_pin_problem(new_pin.spec_bytes()) is None,
    ensures
        r@ == change_pin_request_bytes(*session, current_pin.spec_bytes(), new_pin.spec_bytes()),
{
    let phe = encrypt_pin_hash(session, current_pin);
    let npe = encrypt_new_pin(session, new_pin);
    let mut msg: Vec<u8> = Vec::new();
    extend(&mut msg, npe.as_slice());
    extend(&mut msg, phe.as_slice());
    let auth = authenticate(session.shared_secret.as_slice(), msg.as_slice());
    let cose = encode_cose_key(session.platform_x.as_slice(), session.platform_y.as_slice());
    let mut p: Vec<u8> = Vec::new();
    p.push(CtapCommand::ClientPin.value());
    p.push(0xA6u8);
    extend(&mut p, &encode_int(ClientPinParam::PinUvAuthProtocol.value() as i128));
    extend(&mut p, &encode_int(1));
    extend(&mut p, &encode_int(ClientPinParam::SubCommand.value() as i128));
    extend(&mut p, &encode_int(ClientPinSubCommand::ChangePin.value() as i128));
    extend(&mut p, &encode_int(ClientPinParam::KeyAgreement.value() as i128));
    extend(&mut p, cose.as_slice());
    extend(&mut p, &encode_int(ClientPinParam::PinUvAuthParam.value() as i128));
    extend(&mut p, &encode_bytes(auth.as_slice()));
    extend(&mut p, &encode_int(ClientPinParam::NewPinEnc.value() as i128));
    extend(&mut p, &encode_bytes(npe.as_slice()));
    extend(&mut p, &encode_int(ClientPinParam::PinHashEnc.value() as i128));
    extend(&mut p, &encode_bytes(phe.as_slice()));
    assert(p@ =~= change_pin_request_bytes(*session, current_pin.spec_bytes(), new_pin.spec_bytes()));
    p
}

/// A device error whose text is `prefix` followed by the displayed text
/// of `e`.
pub fn wrap_error(prefix: &str, e: &PFError) -> (r: PFError)
    ensures
        is_device_error(r, prefix@ + e.spec_message()),
{
    let mut s = String::from_str(prefix);
    s.append(e.message().as_str());
    PFError::Device(s)
}

/// How a failed setPin is reported: a PIN policy violation (0x37) gets
/// its own text.
pub open spec fn set_pin_failure_text(e: PFError) -> Seq<char> {
    if seq_contains(e.spec_message(), "0x37"@) {
        "New PIN violates policy (e.g. too short)."@
    } else {
        "setPin failed: "@ + e.spec_message()
    }
}

/// Reports a failed setPin.
pub fn set_pin_failure(e: &PFError) -> (r: PFError)
    ensures
        is_device_error(r, set_pin_failure_text(*e)),
{
    if error_mentions(e, "0x37") {
        return device_error("New PIN violates policy (e.g. too short).");
    }
    wrap_error("setPin failed: ", e)
}

/// How a failed changePin is reported: a wrong current PIN (0x31), a
/// blocked PIN (0x32) and a policy violation (0x37) get their own texts.
pub open spec fn change_pin_failure_text(e: PFError) -> Seq<char> {
    if seq_contains(e.spec_message(), "0x31"@) {
        "Invalid current PIN (0x31). Please check that you entered the correct PIN."@
    } else if seq_contains(e.spec_message(), "0x32"@) {
        "PIN blocked (0x32). Device reset may be required."@
    } else if seq_contains(e.spec_message(), "0x37"@) {
        "New PIN violates policy (e.g. too short)."@
    } else {
        "changePin failed: "@ + e.spec_message()
    }
}

/// Reports a failed changePin.
pub fn change_pin_failure(e: &PFError) -> (r: PFError)
    ensures
        is_device_error(r, change_pin_failure_text(*e)),
{
    if error_mentions(e, "0x31") {
        return device_error("Invalid current PIN (0x31). Please check that you entered the correct PIN.");
    }
    if error_mentions(e, "0x32") {
        return device_error("PIN blocked (0x32). Device reset may be required.");
    }
    if error_mentions(e, "0x37") {
        return device_error("New PIN violates policy (e.g. too short).");
    }
    wrap_error("changePin failed: ", e)
}

/// The changePin request carries, after the platform key, the
/// pinUvAuthParam under key 4, newPinEnc under key 5 and pinHashEnc under
/// key 6: newPinEnc is the new PIN padded with zeros to 64 bytes and
/// encrypted with the shared secret, pinHashEnc the first 16 bytes of
/// SHA-256 of the current PIN encrypted with it, and the pinUvAuthParam
/// is the first 16 bytes of HMAC-SHA-256 under the shared secret of
/// newPinEnc followed by pinHashEnc.
pub proof fn lemma_change_pin_signature(session: PinSession, current_pin: Seq<u8>, new_pin: Seq<u8>)
    ensures
        ({
            let k = session.shared_secret@;
            let npe = crate::crypto::aes256_cbc_encryption(k, new_pin + zeros((64 - new_pin.len()) as nat));
            let phe = crate::crypto::aes256_cbc_encryption(k, sha256_digest(current_pin).take(16));
            let auth = crate::crypto::hmac_sha256_tag(k, npe + phe).take(16);
            exists|head: Seq<u8>|
                #![trigger head.len()]
                change_pin_request_bytes(session, current_pin, new_pin) == head + enc_int(3)
                    + cose_key_encoding(session.platform_x@, session.platform_y@) + enc_int(4) + enc_bytes(auth)
                    + enc_int(5) + enc_bytes(npe) + enc_int(6) + enc_bytes(phe)
        }),
{
    let k = session.shared_secret@;
    let head = seq![CtapCommand::ClientPin.spec_value(), 0xA6u8] + enc_int(1) + enc_int(1) + enc_int(2)
        + enc_int(ClientPinSubCommand::ChangePin.spec_value() as int);
    let npe = crate::crypto::aes256_cbc_encryption(k, new_pin + zeros((64 - new_pin.len()) as nat));
    let phe = crate::crypto::aes256_cbc_encryption(k, sha256_digest(current_pin).take(16));
    let auth = crate::crypto::hmac_sha256_tag(k, npe + phe).take(16);
    assert(change_pin_request_bytes(session, current_pin, new_pin) =~= head + enc_int(3)
        + cose_key_encoding(session.platform_x@, session.platform_y@) + enc_int(4) + enc_bytes(auth)
        + enc_int(5) + enc_bytes(npe) + enc_int(6) + enc_bytes(phe));
    assert(head.len() == head.len());
}

/// The setPin request carries, after the platform key, the pinUvAuthParam
/// under key 4 and newPinEnc under key 5: newPinEnc is the new PIN padded
/// with zeros to 64 bytes and encrypted with the shared secret, and the
/// pinUvAuthParam is the first 16 bytes of HMAC-SHA-256 of newPinEnc under
/// the shared secret.
pub proof fn lemma_set_pin_signature(session: PinSession, new_pin: Seq<u8>)
    ensures
        ({
            let k = session.shared_secret@;
            let npe = crate::crypto::aes256_cbc_encryption(k, new_pin + zeros((64 - new_pin.len()) as nat));
            let auth = crate::crypto::hmac_sha256_tag(k, npe).take(16);
            exists|head: Seq<u8>|
                #![trigger head.len()]
                set_pin_request_bytes(session, new_pin) == head + enc_int(3)
                    + cose_key_encoding(session.platform_x@, session.platform_y@) + enc_int(4) + enc_bytes(auth)
                    + enc_int(5) + enc_bytes(npe)
        }),
{
    let k = session.shared_secret@;
    let head = seq![CtapCommand::ClientPin.spec_value(), 0xA5u8] + enc_int(1) + enc_int(1) + enc_int(2)
        + enc_int(ClientPinSubCommand::SetPin.spec_value() as int);
    let npe = crate::crypto::aes256_cbc_encryption(k, new_pin + zeros((64 - new_pin.len()) as nat));
    let auth = crate::crypto::hmac_sha256_tag(k, npe).take(16);
    assert(set_pin_request_bytes(session, new_pin) =~= head + enc_int(3)
        + cose_key_encoding(session.platform_x@, session.platform_y@) + enc_int(4) + enc_bytes(auth)
        + enc_int(5) + enc_bytes(npe));
    assert(head.len() == head.len());
}

} // verus!
