//! authenticatorCredentialManagement: the requests that enumerate
//! relying parties and their resident credentials and delete a
//! credential, the reading of the answers, and the turning of the
//! answers into the list shown to the user.
use vstd::prelude::*;
use crate::cbor::{
    Cbor, CborModel, cbor_decode, cbor_decoding, cbor_encodable, cbor_encode, cbor_encoding, cbor_pair_models,
    clone_cbor, dict_get_int, dict_lookup,
};
use crate::clientpin::{
    PFErrorText, auth_param, authenticate, error_is, extend, int_dict, lemma_int_dict_encodable, make_int_dict,
};
use crate::constants::{CredentialMgmtParam, CredentialMgmtResponseParam, CredentialMgmtSubCommand, CtapCommand};
use crate::text::{hex_decode, hex_encode, hex_encoding, spec_hex_decode, str_chars};
use crate::types::StoredCredential;
use crate::error::{PFError, error_mentions, is_device_error, seq_contains};

verus! {

/// What the PIN token authenticates for credential management on the
/// pico-fido firmware: the subcommand byte, followed by the encoded
/// parameters except for getCredsMetadata (1) and enumerateRPsBegin (2).
pub open spec fn credmgmt_auth_message(sub_cmd: u8, params: Option<Seq<u8>>) -> Seq<u8> {
    match params {
        Some(p) => if sub_cmd != 1 && sub_cmd != 2 {
            seq![sub_cmd] + p
        } else {
            seq![sub_cmd]
        },
        None => seq![sub_cmd],
    }
}

/// The pinUvAuthParam of a credential management command.
pub fn sign_credential_mgmt_command(pin_token: &[u8], sub_cmd: u8, sub_params_bytes: Option<&[u8]>) -> (r: Vec<u8>)
    ensures
        r@ == auth_param(
            pin_token@,
            credmgmt_auth_message(
                sub_cmd,
                match sub_params_bytes {
                    Some(p) => Some(p@),
                    None => None,
                },
            ),
        ),
        r@.len() == 16,
{
    let mut message: Vec<u8> = Vec::new();
    message.push(sub_cmd);
    match sub_params_bytes {
        Some(params) => {
            if sub_cmd != CredentialMgmtSubCommand::GetCredsMetadata.value()
                && sub_cmd != CredentialMgmtSubCommand::EnumerateRpsBegin.value() {
                extend(&mut message, params);
            }
        },
        None => {},
    }
    authenticate(pin_token, message.as_slice())
}

/// The model of an optional item.
pub open spec fn opt_model(o: Option<Cbor>) -> Option<CborModel> {
    match o {
        Some(c) => Some(c@),
        None => None,
    }
}

/// A credential management request carrying the map `m`.
pub open spec fn credmgmt_request_bytes(m: CborModel) -> Seq<u8> {
    seq![CtapCommand::CredentialMgmt.spec_value()] + cbor_encoding(m)
}

/// The authenticated map of a credential management command.
pub open spec fn credmgmt_map(sub_cmd: u8, sub_params: Option<CborModel>, auth: Seq<u8>) -> CborModel {
    match sub_params {
        Some(p) => int_dict(
            seq![
                (CredentialMgmtParam::SubCommand.spec_value() as int, CborModel::Int(sub_cmd as int)),
                (CredentialMgmtParam::SubCommandParams.spec_value() as int, p),
                (CredentialMgmtParam::PinUvAuthProtocol.spec_value() as int, CborModel::Int(1)),
                (CredentialMgmtParam::PinUvAuthParam.spec_value() as int, CborModel::Bytes(auth)),
            ],
        ),
        None => int_dict(
            seq![
                (CredentialMgmtParam::SubCommand.spec_value() as int, CborModel::Int(sub_cmd as int)),
                (CredentialMgmtParam::PinUvAuthProtocol.spec_value() as int, CborModel::Int(1)),
                (CredentialMgmtParam::PinUvAuthParam.spec_value() as int, CborModel::Bytes(auth)),
            ],
        ),
    }
}

fn authenticated_request(sub_cmd: u8, sub_params: Option<Cbor>, auth: Vec<u8>) -> (r: Vec<u8>)
    requires
        sub_params matches Some(p) ==> cbor_encodable(p@),
    ensures
        r@ == credmgmt_request_bytes(
            credmgmt_map(
                sub_cmd,
                opt_model(sub_params),
                auth@,
            ),
        ),
{
    let ghost auth_model = auth@;
    let ghost sp = opt_model(sub_params);
    let mut entries: Vec<(i128, Cbor)> = Vec::new();
    entries.push((CredentialMgmtParam::SubCommand.value() as i128, Cbor::Int(sub_cmd as i128)));
    match sub_params {
        Some(p) => {
            entries.push((CredentialMgmtParam::SubCommandParams.value() as i128, p));
        },
        None => {},
    }
    entries.push((CredentialMgmtParam::PinUvAuthProtocol.value() as i128, Cbor::Int(1)));
    entries.push((CredentialMgmtParam::PinUvAuthParam.value() as i128, Cbor::Bytes(auth)));
    let ghost wanted = match sp {
        Some(p) => seq![
            (CredentialMgmtParam::SubCommand.spec_value() as int, CborModel::Int(sub_cmd as int)),
            (CredentialMgmtParam::SubCommandParams.spec_value() as int, p),
            (CredentialMgmtParam::PinUvAuthProtocol.spec_value() as int, CborModel::Int(1)),
            (CredentialMgmtParam::PinUvAuthParam.spec_value() as int, CborModel::Bytes(auth_model)),
        ],
        None => seq![
            (CredentialMgmtParam::SubCommand.spec_value() as int, CborModel::Int(sub_cmd as int)),
            (CredentialMgmtParam::PinUvAuthProtocol.spec_value() as int, CborModel::Int(1)),
            (CredentialMgmtParam::PinUvAuthParam.spec_value() as int, CborModel::Bytes(auth_model)),
        ],
    };
    assert(entries@.map_values(|e: (i128, Cbor)| (e.0 as int, e.1@)) =~= wanted);
    let m = make_int_dict(entries);
    proof { lemma_int_dict_encodable(wanted); }
    let mut payload: Vec<u8> = Vec::new();
    payload.push(CtapCommand::CredentialMgmt.value());
    extend(&mut payload, cbor_encode(&m).as_slice());
    payload
}

fn plain_request(sub_cmd: u8) -> (r: Vec<u8>)
    ensures
        r@ == credmgmt_request_bytes(
            int_dict(seq![(CredentialMgmtParam::SubCommand.spec_value() as int, CborModel::Int(sub_cmd as int))]),
        ),
{
    let mut entries: Vec<(i128, Cbor)> = Vec::new();
    entries.push((CredentialMgmtParam::SubCommand.value() as i128, Cbor::Int(sub_cmd as i128)));
    let ghost wanted = seq![(CredentialMgmtParam::SubCommand.spec_value() as int, CborModel::Int(sub_cmd as int))];
    assert(entries@.map_values(|e: (i128, Cbor)| (e.0 as int, e.1@)) =~= wanted);
    let m = make_int_dict(entries);
    proof { lemma_int_dict_encodable(wanted); }
    let mut payload: Vec<u8> = Vec::new();
    payload.push(CtapCommand::CredentialMgmt.value());
    extend(&mut payload, cbor_encode(&m).as_slice());
    payload
}

/// The enumerateRPsBegin request.
pub fn enumerate_rps_begin_request(pin_token: &[u8]) -> (r: Vec<u8>)
    ensures
        r@ == credmgmt_request_bytes(
            credmgmt_map(
                CredentialMgmtSubCommand::EnumerateRpsBegin.spec_value(),
                None,
                auth_param(pin_token@, seq![CredentialMgmtSubCommand::EnumerateRpsBegin.spec_value()]),
            ),
        ),
{
    let sub = CredentialMgmtSubCommand::EnumerateRpsBegin.value();
    let auth = sign_credential_mgmt_command(pin_token, sub, None);
    authenticated_request(sub, None, auth)
}

/// The enumerateRPsGetNextRP request.
pub fn enumerate_rps_next_request() -> (r: Vec<u8>)
    ensures
        r@ == credmgmt_request_bytes(
            int_dict(
                seq![(CredentialMgmtParam::SubCommand.spec_value() as int, CborModel::Int(
                    CredentialMgmtSubCommand::EnumerateRpsGetNextRp.spec_value() as int,
                ))],
            ),
        ),
{
    plain_request(CredentialMgmtSubCommand::EnumerateRpsGetNextRp.value())
}

/// The enumerateCredentialsBegin parameters: the RP id hash under key 1.
pub open spec fn rp_hash_params(rp_id_hash: Seq<u8>) -> CborModel {
    int_dict(seq![(1int, CborModel::Bytes(rp_id_hash))])
}

/// The enumerateCredentialsBegin request for one relying party.
pub fn enumerate_credentials_begin_request(pin_token: &[u8], rp_id_hash: &[u8]) -> (r: Vec<u8>)
    ensures
        r@ == credmgmt_request_bytes(
            credmgmt_map(
                CredentialMgmtSubCommand::EnumerateCredentialsBegin.spec_value(),
                Some(rp_hash_params(rp_id_hash@)),
                auth_param(
                    pin_token@,
                    seq![CredentialMgmtSubCommand::EnumerateCredentialsBegin.spec_value()]
                        + cbor_encoding(rp_hash_params(rp_id_hash@)),
                ),
            ),
        ),
{
    let mut h: Vec<u8> = Vec::new();
    extend(&mut h, rp_id_hash);
    let mut entries: Vec<(i128, Cbor)> = Vec::new();
    entries.push((1, Cbor::Bytes(h)));
    assert(entries@.map_values(|e: (i128, Cbor)| (e.0 as int, e.1@)) =~= seq![(1int, CborModel::Bytes(rp_id_hash@))]);
    let sub_params = make_int_dict(entries);
    proof { lemma_int_dict_encodable(seq![(1int, CborModel::Bytes(rp_id_hash@))]); }
    let spb = cbor_encode(&sub_params);
    let sub = CredentialMgmtSubCommand::EnumerateCredentialsBegin.value();
    let auth = sign_credential_mgmt_command(pin_token, sub, Some(spb.as_slice()));
    authenticated_request(sub, Some(sub_params), auth)
}

/// The enumerateCredentialsGetNextCredential request.
pub fn enumerate_credentials_next_request() -> (r: Vec<u8>)
    ensures
        r@ == credmgmt_request_bytes(
            int_dict(
                seq![(CredentialMgmtParam::SubCommand.spec_value() as int, CborModel::Int(
                    CredentialMgmtSubCommand::EnumerateCredentialsGetNextCredential.spec_value() as int,
                ))],
            ),
        ),
{
    plain_request(CredentialMgmtSubCommand::EnumerateCredentialsGetNextCredential.value())
}

/// The deleteCredential parameters: the credential descriptor under key 2.
pub open spec fn descriptor_params(descriptor: CborModel) -> CborModel {
    int_dict(seq![(2int, descriptor)])
}

/// The deleteCredential request for the credential `descriptor` names.
pub fn delete_credential_request(pin_token: &[u8], descriptor: Cbor) -> (r: Vec<u8>)
    requires
        cbor_encodable(descriptor@),
    ensures
        r@ == credmgmt_request_bytes(
            credmgmt_map(
                CredentialMgmtSubCommand::DeleteCredential.spec_value(),
                Some(descriptor_params(descriptor@)),
                auth_param(
                    pin_token@,
                    seq![CredentialMgmtSubCommand::DeleteCredential.spec_value()]
                        + cbor_encoding(descriptor_params(descriptor@)),
                ),
            ),
        ),
{
    let ghost d = descriptor@;
    let mut entries: Vec<(i128, Cbor)> = Vec::new();
    entries.push((2, descriptor));
    assert(entries@.map_values(|e: (i128, Cbor)| (e.0 as int, e.1@)) =~= seq![(2int, d)]);
    let sub_params = make_int_dict(entries);
    proof { lemma_int_dict_encodable(seq![(2int, d)]); }
    let spb = cbor_encode(&sub_params);
    let sub = CredentialMgmtSubCommand::DeleteCredential.value();
    let auth = sign_credential_mgmt_command(pin_token, sub, Some(spb.as_slice()));
    authenticated_request(sub, Some(sub_params), auth)
}


/// One relying party as enumerateRPs reports it.
#[derive(Debug)]
pub struct EnumerateRpResponse {
    pub rp: Cbor,
    pub rp_id_hash: Vec<u8>,
    pub total_rps: Option<usize>,
}

/// One resident credential as enumerateCredentials reports it.
#[derive(Debug)]
pub struct EnumerateCredentialResponse {
    pub user: Cbor,
    pub credential_id: Cbor,
    pub public_key: Cbor,
    pub total_credentials: Option<usize>,
}

/// A relying party entry as values: rp, rpIdHash, totalRPs.
pub open spec fn rp_model(e: EnumerateRpResponse) -> (CborModel, Seq<u8>, Option<usize>) {
    (e.rp@, e.rp_id_hash@, e.total_rps)
}

/// A credential entry as values: user, credentialID, publicKey, totalCredentials.
pub open spec fn cred_model(e: EnumerateCredentialResponse) -> (CborModel, CborModel, CborModel, Option<usize>) {
    (e.user@, e.credential_id@, e.public_key@, e.total_credentials)
}

/// The count a response announces under `key`, when it is an integer
/// (taken modulo the width of `usize`, as a cast does).
pub open spec fn announced_total(m: Seq<(CborModel, CborModel)>, key: u8) -> Option<usize> {
    match dict_lookup(m, CborModel::Int(key as int)) {
        Some(CborModel::Int(t)) => Some(t as usize),
        _ => None,
    }
}

/// What one enumerateRPs answer holds: an error, no entry (the answer is
/// not a map), or an entry. `stage` names the subcommand in the error
/// texts; the first answer carries the total, later ones take `total`.
pub open spec fn rp_answer(resp: Seq<u8>, stage: Seq<char>, first: bool, total: Option<usize>) -> Result<
    Option<(CborModel, Seq<u8>, Option<usize>)>,
    PFErrorText,
> {
    match cbor_decoding(resp) {
        Err(t) => Err(PFErrorText::Io(t)),
        Ok(CborModel::Dict(m)) => match dict_lookup(m, CborModel::Int(CredentialMgmtResponseParam::Rp.spec_value() as int)) {
            None => Err(PFErrorText::Device("RP not found in "@ + stage + " response"@)),
            Some(rp) => match dict_lookup(m, CborModel::Int(CredentialMgmtResponseParam::RpIdHash.spec_value() as int)) {
                Some(CborModel::Bytes(h)) => Ok(
                    Some(
                        (
                            rp,
                            h,
                            if first {
                                announced_total(m, CredentialMgmtResponseParam::TotalRps.spec_value())
                            } else {
                                total
                            },
                        ),
                    ),
                ),
                _ => Err(PFErrorText::Device("RpIdHash not found in "@ + stage + " response"@)),
            },
        },
        Ok(_) => Ok(None),
    }
}

/// What one enumerateCredentials answer holds, as `rp_answer` for relying
/// parties.
pub open spec fn cred_answer(resp: Seq<u8>, stage: Seq<char>, first: bool, total: Option<usize>) -> Result<
    Option<(CborModel, CborModel, CborModel, Option<usize>)>,
    PFErrorText,
> {
    match cbor_decoding(resp) {
        Err(t) => Err(PFErrorText::Io(t)),
        Ok(CborModel::Dict(m)) => match dict_lookup(m, CborModel::Int(CredentialMgmtResponseParam::User.spec_value() as int)) {
            None => Err(PFErrorText::Device("User not found in "@ + stage + " response"@)),
            Some(user) => match dict_lookup(
                m,
                CborModel::Int(CredentialMgmtResponseParam::CredentialId.spec_value() as int),
            ) {
                None => Err(PFErrorText::Device("CredentialId not found in "@ + stage + " response"@)),
                Some(cid) => match dict_lookup(
                    m,
                    CborModel::Int(CredentialMgmtResponseParam::PublicKey.spec_value() as int),
                ) {
                    None => Err(PFErrorText::Device("PublicKey not found in "@ + stage + " response"@)),
                    Some(pk) => Ok(
                        Some(
                            (
                                user,
                                cid,
                                pk,
                                if first {
                                    announced_total(m, CredentialMgmtResponseParam::TotalCredentials.spec_value())
                                } else {
                                    total
                                },
                            ),
                        ),
                    ),
                },
            },
        },
        Ok(_) => Ok(None),
    }
}

fn announced_total_of(m: &Vec<(Cbor, Cbor)>, key: u8) -> (r: Option<usize>)
    ensures
        r == announced_total(cbor_pair_models(m@), key),
{
    match dict_get_int(m, key as i128) {
        Some(Cbor::Int(t)) => Some(*t as usize),
        _ => None,
    }
}

fn append_text(out: &mut String, s: &str)
    ensures
        final(out)@ == old(out)@ + s@,
{
    out.append(s);
}

fn stage_error(prefix: &str, stage: &str) -> (e: PFError)
    ensures
        is_device_error(e, prefix@ + stage@ + " response"@),
{
    let mut t = String::from_str(prefix);
    append_text(&mut t, stage);
    append_text(&mut t, " response");
    PFError::Device(t)
}

/// Reads one enumerateRPs answer.
pub fn parse_rp_answer(resp: &[u8], stage: &str, first: bool, total: Option<usize>) -> (r: Result<
    Option<EnumerateRpResponse>,
    PFError,
>)
    ensures
        match rp_answer(resp@, stage@, first, total) {
            Ok(None) => r matches Ok(None),
            Ok(Some(v)) => r matches Ok(Some(e)) && rp_model(e) == v,
            Err(t) => r matches Err(e) && error_is(e, t),
        },
{
    match cbor_decode(resp) {
        Err(t) => Err(PFError::Io(t)),
        Ok(Cbor::Dict(m)) => {
            proof { crate::cbor::lemma_cbor_pair_models(m@); }
            let rp = match dict_get_int(&m, CredentialMgmtResponseParam::Rp.value() as i128) {
                Some(v) => clone_cbor(v),
                None => {
                    return Err(stage_error("RP not found in ", stage));
                },
            };
            let hash = match dict_get_int(&m, CredentialMgmtResponseParam::RpIdHash.value() as i128) {
                Some(Cbor::Bytes(b)) => {
                    let mut h: Vec<u8> = Vec::new();
                    extend(&mut h, b.as_slice());
                    h
                },
                _ => {
                    return Err(stage_error("RpIdHash not found in ", stage));
                },
            };
            let total_rps = if first {
                announced_total_of(&m, CredentialMgmtResponseParam::TotalRps.value())
            } else {
                total
            };
            Ok(Some(EnumerateRpResponse { rp, rp_id_hash: hash, total_rps }))
        },
        Ok(_) => Ok(None),
    }
}

/// Reads one enumerateCredentials answer.
pub fn parse_cred_answer(resp: &[u8], stage: &str, first: bool, total: Option<usize>) -> (r: Result<
    Option<EnumerateCredentialResponse>,
    PFError,
>)
    ensures
        match cred_answer(resp@, stage@, first, total) {
            Ok(None) => r matches Ok(None),
            Ok(Some(v)) => r matches Ok(Some(e)) && cred_model(e) == v,
            Err(t) => r matches Err(e) && error_is(e, t),
        },
{
    match cbor_decode(resp) {
        Err(t) => Err(PFError::Io(t)),
        Ok(Cbor::Dict(m)) => {
            proof { crate::cbor::lemma_cbor_pair_models(m@); }
            let user = match dict_get_int(&m, CredentialMgmtResponseParam::User.value() as i128) {
                Some(v) => clone_cbor(v),
                None => {
                    return Err(stage_error("User not found in ", stage));
                },
            };
            let cid = match dict_get_int(&m, CredentialMgmtResponseParam::CredentialId.value() as i128) {
                Some(v) => clone_cbor(v),
                None => {
                    return Err(stage_error("CredentialId not found in ", stage));
                },
            };
            let pk = match dict_get_int(&m, CredentialMgmtResponseParam::PublicKey.value() as i128) {
                Some(v) => clone_cbor(v),
                None => {
                    return Err(stage_error("PublicKey not found in ", stage));
                },
            };
            let total_credentials = if first {
                announced_total_of(&m, CredentialMgmtResponseParam::TotalCredentials.value())
            } else {
                total
            };
            Ok(Some(EnumerateCredentialResponse { user, credential_id: cid, public_key: pk, total_credentials }))
        },
        Ok(_) => Ok(None),
    }
}


/// Whether `e` is the device's answer that it holds no credentials
/// (CTAP2_ERR_NO_CREDENTIALS, shown as 0x2E).
pub open spec fn no_credentials(e: PFError) -> bool {
    seq_contains(e.spec_message(), "0x2E"@)
}

/// How many entries an enumeration fetches in all: the announced total,
/// else one.
pub open spec fn to_fetch(total: Option<usize>) -> int {
    match total {
        Some(t) => t as int,
        None => 1,
    }
}

/// The progress of enumerating the relying parties: the entries read so
/// far, the total that the first answer announced, and whether the device
/// said that no more are left.
#[derive(Debug)]
pub struct RpEnumeration {
    pub rps: Vec<EnumerateRpResponse>,
    pub total: Option<usize>,
    pub finished: bool,
}

/// The entries of an enumeration as values.
pub open spec fn rp_models(s: Seq<EnumerateRpResponse>) -> Seq<(CborModel, Seq<u8>, Option<usize>)> {
    s.map_values(|e: EnumerateRpResponse| rp_model(e))
}

/// The entries of an enumeration as values.
pub open spec fn cred_models(s: Seq<EnumerateCredentialResponse>) -> Seq<(CborModel, CborModel, CborModel, Option<usize>)> {
    s.map_values(|e: EnumerateCredentialResponse| cred_model(e))
}

impl RpEnumeration {
    /// Whether another enumerateRPsGetNextRP request is due.
    pub open spec fn spec_wants_more(&self) -> bool {
        !self.finished && self.rps.len() < to_fetch(self.total)
    }

    /// Takes the answer to enumerateRPsBegin. A device without
    /// credentials ends the enumeration empty; another failure is passed on.
    pub fn begin(answer: Result<Vec<u8>, PFError>) -> (r: Result<RpEnumeration, PFError>)
        ensures
            match answer {
                Err(e) => if no_credentials(e) {
                    r matches Ok(s) && s.rps@.len() == 0 && s.finished && s.total is None
                } else {
                    r == Err::<RpEnumeration, PFError>(e)
                },
                Ok(resp) => match rp_answer(resp@, "EnumerateRpsBegin"@, true, None) {
                    Err(t) => r matches Err(e) && error_is(e, t),
                    Ok(None) => r matches Ok(s) && s.rps@.len() == 0 && !s.finished && s.total is None,
                    Ok(Some(v)) => r matches Ok(s) && rp_models(s.rps@) == seq![v] && !s.finished && s.total
                        == v.2,
                },
            },
    {
        match answer {
            Err(e) => {
                if error_mentions(&e, "0x2E") {
                    Ok(RpEnumeration { rps: Vec::new(), total: None, finished: true })
                } else {
                    Err(e)
                }
            },
            Ok(resp) => match parse_rp_answer(resp.as_slice(), "EnumerateRpsBegin", true, None) {
                Err(e) => Err(e),
                Ok(None) => Ok(RpEnumeration { rps: Vec::new(), total: None, finished: false }),
                Ok(Some(entry)) => {
                    let total = entry.total_rps;
                    let mut rps: Vec<EnumerateRpResponse> = Vec::new();
                    rps.push(entry);
                    proof { assert(rp_models(rps@) =~= seq![rp_model(rps@[0])]); }
                    Ok(RpEnumeration { rps, total, finished: false })
                },
            },
        }
    }

    /// Whether another enumerateRPsGetNextRP request is due.
    pub fn wants_more(&self) -> (r: bool)
        ensures
            r == self.spec_wants_more(),
    {
        let n = match self.total {
            Some(t) => t,
            None => 1,
        };
        !self.finished && self.rps.len() < n
    }

    /// Takes the answer to enumerateRPsGetNextRP. The device's "no
    /// credentials" ends the enumeration; another failure is passed on.
    pub fn next(&mut self, answer: Result<Vec<u8>, PFError>) -> (r: Result<(), PFError>)
        ensures
            final(self).total == old(self).total,
            match answer {
                Err(e) => if no_credentials(e) {
                    r is Ok && final(self).finished && rp_models(final(self).rps@) == rp_models(old(self).rps@)
                } else {
                    r == Err::<(), PFError>(e) && rp_models(final(self).rps@) == rp_models(old(self).rps@)
                        && final(self).finished == old(self).finished
                },
                Ok(resp) => final(self).finished == old(self).finished && match rp_answer(
                    resp@,
                    "EnumerateRpsGetNextRp"@,
                    false,
                    old(self).total,
                ) {
                    Err(t) => r matches Err(e) && error_is(e, t) && rp_models(final(self).rps@) == rp_models(
                        old(self).rps@,
                    ),
                    Ok(None) => r is Ok && rp_models(final(self).rps@) == rp_models(old(self).rps@),
                    Ok(Some(v)) => r is Ok && rp_models(final(self).rps@) == rp_models(old(self).rps@).push(v),
                },
            },
    {
        match answer {
            Err(e) => {
                if error_mentions(&e, "0x2E") {
                    self.finished = true;
                    Ok(())
                } else {
                    Err(e)
                }
            },
            Ok(resp) => match parse_rp_answer(resp.as_slice(), "EnumerateRpsGetNextRp", false, self.total) {
                Err(e) => Err(e),
                Ok(None) => Ok(()),
                Ok(Some(entry)) => {
                    let ghost before = self.rps@;
                    self.rps.push(entry);
                    proof { assert(rp_models(self.rps@) =~= rp_models(before).push(rp_model(self.rps@.last()))); }
                    Ok(())
                },
            },
        }
    }
}

/// The progress of enumerating the credentials of one relying party, as
/// `RpEnumeration` for relying parties.
#[derive(Debug)]
pub struct CredentialEnumeration {
    pub creds: Vec<EnumerateCredentialResponse>,
    pub total: Option<usize>,
    pub finished: bool,
}

impl CredentialEnumeration {
    /// Whether another enumerateCredentialsGetNextCredential request is due.
    pub open spec fn spec_wants_more(&self) -> bool {
        !self.finished && self.creds.len() < to_fetch(self.total)
    }

    /// Takes the answer to enumerateCredentialsBegin.
    pub fn begin(answer: Result<Vec<u8>, PFError>) -> (r: Result<CredentialEnumeration, PFError>)
        ensures
            match answer {
                Err(e) => if no_credentials(e) {
                    r matches Ok(s) && s.creds@.len() == 0 && s.finished && s.total is None
                } else {
                    r == Err::<CredentialEnumeration, PFError>(e)
                },
                Ok(resp) => match cred_answer(resp@, "EnumerateCredentialsBegin"@, true, None) {
                    Err(t) => r matches Err(e) && error_is(e, t),
                    Ok(None) => r matches Ok(s) && s.creds@.len() == 0 && !s.finished && s.total is None,
                    Ok(Some(v)) => r matches Ok(s) && cred_models(s.creds@) == seq![v] && !s.finished
                        && s.total == v.3,
                },
            },
    {
        match answer {
            Err(e) => {
                if error_mentions(&e, "0x2E") {
                    Ok(CredentialEnumeration { creds: Vec::new(), total: None, finished: true })
                } else {
                    Err(e)
                }
            },
            Ok(resp) => match parse_cred_answer(resp.as_slice(), "EnumerateCredentialsBegin", true, None) {
                Err(e) => Err(e),
                Ok(None) => Ok(CredentialEnumeration { creds: Vec::new(), total: None, finished: false }),
                Ok(Some(entry)) => {
                    let total = entry.total_credentials;
                    let mut creds: Vec<EnumerateCredentialResponse> = Vec::new();
                    creds.push(entry);
                    proof { assert(cred_models(creds@) =~= seq![cred_model(creds@[0])]); }
                    Ok(CredentialEnumeration { creds, total, finished: false })
                },
            },
        }
    }

    /// Whether another enumerateCredentialsGetNextCredential request is due.
    pub fn wants_more(&self) -> (r: bool)
        ensures
            r == self.spec_wants_more(),
    {
        let n = match self.total {
            Some(t) => t,
            None => 1,
        };
        !self.finished && self.creds.len() < n
    }

    /// Takes the answer to enumerateCredentialsGetNextCredential.
    pub fn next(&mut self, answer: Result<Vec<u8>, PFError>) -> (r: Result<(), PFError>)
        ensures
            final(self).total == old(self).total,
            match answer {
                Err(e) => if no_credentials(e) {
                    r is Ok && final(self).finished && cred_models(final(self).creds@) == cred_models(old(self).creds@)
                } else {
                    r == Err::<(), PFError>(e) && cred_models(final(self).creds@) == cred_models(old(self).creds@)
                        && final(self).finished == old(self).finished
                },
                Ok(resp) => final(self).finished == old(self).finished && match cred_answer(
                    resp@,
                    "EnumerateCredentialsGetNextCredential"@,
                    false,
                    old(self).total,
                ) {
                    Err(t) => r matches Err(e) && error_is(e, t) && cred_models(final(self).creds@) == cred_models(
                        old(self).creds@,
                    ),
                    Ok(None) => r is Ok && cred_models(final(self).creds@) == cred_models(old(self).creds@),
                    Ok(Some(v)) => r is Ok && cred_models(final(self).creds@) == cred_models(old(self).creds@).push(v),
                },
            },
    {
        match answer {
            Err(e) => {
                if error_mentions(&e, "0x2E") {
                    self.finished = true;
                    Ok(())
                } else {
                    Err(e)
                }
            },
            Ok(resp) => match parse_cred_answer(
                resp.as_slice(),
                "EnumerateCredentialsGetNextCredential",
                false,
                self.total,
            ) {
                Err(e) => Err(e),
                Ok(None) => Ok(()),
                Ok(Some(entry)) => {
                    let ghost before = self.creds@;
                    self.creds.push(entry);
                    proof { assert(cred_models(self.creds@) =~= cred_models(before).push(cred_model(self.creds@.last()))); }
                    Ok(())
                },
            },
        }
    }
}


/// The text that a map item holds under the text key `key`.
pub open spec fn text_under(v: CborModel, key: Seq<char>) -> Option<Seq<char>> {
    match v {
        CborModel::Dict(m) => match dict_lookup(m, CborModel::Text(key)) {
            Some(CborModel::Text(t)) => Some(t),
            _ => None,
        },
        _ => None,
    }
}

/// The bytes that a map item holds under the text key `key`.
pub open spec fn bytes_under(v: CborModel, key: Seq<char>) -> Option<Seq<u8>> {
    match v {
        CborModel::Dict(m) => match dict_lookup(m, CborModel::Text(key)) {
            Some(CborModel::Bytes(b)) => Some(b),
            _ => None,
        },
        _ => None,
    }
}

/// The id of a relying party entity, or "Unknown".
pub open spec fn rp_id_label(rp: CborModel) -> Seq<char> {
    match text_under(rp, "id"@) {
        Some(t) => t,
        None => "Unknown"@,
    }
}

/// The name of a relying party entity, or else its id label.
pub open spec fn rp_name_label(rp: CborModel) -> Seq<char> {
    match text_under(rp, "name"@) {
        Some(t) => t,
        None => rp_id_label(rp),
    }
}

fn get_text_under(v: &Cbor, key: &str) -> (r: Option<String>)
    ensures
        match text_under(v@, key@) {
            Some(t) => r matches Some(s) && s@ == t,
            None => r is None,
        },
{
    match v {
        Cbor::Dict(m) => {
            proof { crate::cbor::lemma_cbor_pair_models(m@); }
            match crate::cbor::dict_get_text(m, key) {
                Some(Cbor::Text(t)) => Some(t.clone()),
                _ => None,
            }
        },
        _ => None,
    }
}

fn get_bytes_under<'a>(v: &'a Cbor, key: &str) -> (r: Option<&'a Vec<u8>>)
    ensures
        match bytes_under(v@, key@) {
            Some(b) => r matches Some(x) && x@ == b,
            None => r is None,
        },
{
    match v {
        Cbor::Dict(m) => {
            proof { crate::cbor::lemma_cbor_pair_models(m@); }
            match crate::cbor::dict_get_text(m, key) {
                Some(Cbor::Bytes(b)) => Some(b),
                _ => None,
            }
        },
        _ => None,
    }
}

/// The id and the name under which a relying party is listed.
pub fn rp_labels(rp: &Cbor) -> (r: (String, String))
    ensures
        r.0@ == rp_id_label(rp@),
        r.1@ == rp_name_label(rp@),
{
    let id = match get_text_under(rp, "id") {
        Some(t) => t,
        None => String::from_str("Unknown"),
    };
    let name = match get_text_under(rp, "name") {
        Some(t) => t,
        None => id.clone(),
    };
    (id, name)
}

/// The text, or empty text.
pub open spec fn or_empty(t: Option<Seq<char>>) -> Seq<char> {
    match t {
        Some(s) => s,
        None => Seq::empty(),
    }
}

/// Lower-case hexadecimal of the bytes, or empty text.
pub open spec fn hex_or_empty(b: Option<Seq<u8>>) -> Seq<char> {
    match b {
        Some(x) => hex_encoding(x, false),
        None => Seq::empty(),
    }
}

/// Whether `c` lists the credential `e` of the relying party listed as
/// `rp_id` and `rp_name`.
pub open spec fn lists_credential(c: StoredCredential, rp_id: Seq<char>, rp_name: Seq<char>, e: (CborModel, CborModel, CborModel, Option<usize>)) -> bool {
    &&& c.rp_id@ == rp_id
    &&& c.rp_name@ == rp_name
    &&& c.user_name@ == or_empty(text_under(e.0, "name"@))
    &&& c.user_display_name@ == or_empty(text_under(e.0, "displayName"@))
    &&& c.user_id@ == hex_or_empty(bytes_under(e.0, "id"@))
    &&& c.credential_id@ == hex_or_empty(bytes_under(e.1, "id"@))
}

fn text_or_empty(t: Option<String>) -> (r: String)
    ensures
        r@ == or_empty(match t { Some(s) => Some(s@), None => None }),
{
    match t {
        Some(s) => s,
        None => String::new(),
    }
}

fn hex_of(b: Option<&Vec<u8>>) -> (r: String)
    ensures
        r@ == hex_or_empty(match b { Some(x) => Some(x@), None => None }),
{
    match b {
        Some(x) => hex_encode(x.as_slice(), false),
        None => String::new(),
    }
}

/// How one enumerated credential is listed.
pub fn stored_credential(rp_id: &String, rp_name: &String, cred: &EnumerateCredentialResponse) -> (r: StoredCredential)
    ensures
        lists_credential(r, rp_id@, rp_name@, cred_model(*cred)),
{
    let user_name = text_or_empty(get_text_under(&cred.user, "name"));
    let user_display_name = text_or_empty(get_text_under(&cred.user, "displayName"));
    let user_id = hex_of(get_bytes_under(&cred.user, "id"));
    let credential_id = hex_of(get_bytes_under(&cred.credential_id, "id"));
    StoredCredential {
        credential_id,
        rp_id: rp_id.clone(),
        rp_name: rp_name.clone(),
        user_name,
        user_display_name,
        user_id,
    }
}

/// Lists the credentials of one relying party, in the order enumerated.
pub fn list_credentials(rp: &EnumerateRpResponse, creds: &Vec<EnumerateCredentialResponse>) -> (r: Vec<StoredCredential>)
    ensures
        r@.len() == creds@.len(),
        forall|i: int|
            0 <= i < creds@.len() ==> lists_credential(
                #[trigger] r@[i],
                rp_id_label(rp.rp@),
                rp_name_label(rp.rp@),
                cred_model(creds@[i]),
            ),
{
    let (id, name) = rp_labels(&rp.rp);
    let mut out: Vec<StoredCredential> = Vec::new();
    let mut i: usize = 0;
    while i < creds.len()
        invariant
            i <= creds@.len(),
            out@.len() == i,
            id@ == rp_id_label(rp.rp@),
            name@ == rp_name_label(rp.rp@),
            forall|j: int|
                0 <= j < i ==> lists_credential(
                    #[trigger] out@[j],
                    rp_id_label(rp.rp@),
                    rp_name_label(rp.rp@),
                    cred_model(creds@[j]),
                ),
        decreases creds@.len() - i,
    {
        let c = stored_credential(&id, &name, &creds[i]);
        out.push(c);
        i = i + 1;
    }
    out
}

/// The credential descriptor `{"type": "public-key", "id": bytes}`.
pub open spec fn descriptor_model(id: Seq<u8>) -> CborModel {
    CborModel::Dict(
        seq![
            (CborModel::Text("type"@), CborModel::Text("public-key"@)),
            (CborModel::Text("id"@), CborModel::Bytes(id)),
        ],
    )
}

/// The descriptor of the credential whose id is the hexadecimal text
/// `credential_id_hex`; text that is not hexadecimal is refused.
pub fn credential_descriptor(credential_id_hex: &str) -> (r: Result<Cbor, String>)
    ensures
        match spec_hex_decode(credential_id_hex@) {
            Some(b) => r matches Ok(d) && d@ == descriptor_model(b) && cbor_encodable(d@),
            None => r matches Err(t) && t@ == "Invalid Credential ID Hex string"@,
        },
{
    let chars = str_chars(credential_id_hex);
    match hex_decode(chars.as_slice()) {
        None => Err(String::from_str("Invalid Credential ID Hex string")),
        Some(bytes) => {
            let ghost b = bytes@;
            let mut m: Vec<(Cbor, Cbor)> = Vec::new();
            m.push((Cbor::Text(String::from_str("type")), Cbor::Text(String::from_str("public-key"))));
            m.push((Cbor::Text(String::from_str("id")), Cbor::Bytes(bytes)));
            let d = Cbor::Dict(m);
            proof {
                crate::cbor::lemma_cbor_pair_models(m@);
                assert(cbor_pair_models(m@) =~= seq![
                    (CborModel::Text("type"@), CborModel::Text("public-key"@)),
                    (CborModel::Text("id"@), CborModel::Bytes(b)),
                ]);
                let mm = cbor_pair_models(m@);
                assert forall|i: int| 0 <= i < mm.len() implies cbor_encodable(#[trigger] mm[i].0) && cbor_encodable(
                    mm[i].1,
                ) by {
                    assert(i == 0 || i == 1);
                }
            }
            Ok(d)
        },
    }
}

fn concat(a: &str, b: &str) -> (r: String)
    ensures
        r@ == a@ + b@,
{
    let mut s = String::from_str(a);
    s.append(b);
    s
}

/// The report of a failed relying-party enumeration.
pub fn enumerate_rps_failure(e: &PFError) -> (r: String)
    ensures
        r@ == "Failed to enumerate Relying Parties: "@ + e.spec_message(),
{
    concat("Failed to enumerate Relying Parties: ", e.message().as_str())
}

/// The report of a failed credential enumeration for the relying party `rp_id`.
pub fn enumerate_credentials_failure(rp_id: &str, e: &PFError) -> (r: String)
    ensures
        r@ == "Failed to enumerate credentials for RP "@ + rp_id@ + ": "@ + e.spec_message(),
{
    let mut s = concat("Failed to enumerate credentials for RP ", rp_id);
    s.append(": ");
    s.append(e.message().as_str());
    s
}

/// The report of a failed deletion.
pub fn delete_credential_failure(e: &PFError) -> (r: String)
    ensures
        r@ == "Failed to delete credential: "@ + e.spec_message(),
{
    concat("Failed to delete credential: ", e.message().as_str())
}

/// The report of a transport that could not be opened.
pub fn transport_failure(e: &PFError) -> (r: String)
    ensures
        r@ == "Could not open HID transport: "@ + e.spec_message(),
{
    concat("Could not open HID transport: ", e.message().as_str())
}


/// The message after a credential was deleted.
pub fn credential_deleted_message() -> (r: String)
    ensures
        r@ == "Credential deleted successfully"@,
{
    String::from_str("Credential deleted successfully")
}

/// The title of a credential's details: the relying party's name, else
/// its id, else a generic title.
pub open spec fn details_title(rp_name: Seq<char>, rp_id: Seq<char>) -> Seq<char> {
    if rp_name.len() > 0 {
        rp_name
    } else if rp_id.len() > 0 {
        rp_id
    } else {
        "Passkey Details"@
    }
}

/// The title of the details sheet of a credential.
pub fn credential_details_title(cred: &StoredCredential) -> (r: String)
    ensures
        r@ == details_title(cred.rp_name@, cred.rp_id@),
{
    if cred.rp_name.as_str().unicode_len() > 0 {
        cred.rp_name.clone()
    } else if cred.rp_id.as_str().unicode_len() > 0 {
        cred.rp_id.clone()
    } else {
        String::from_str("Passkey Details")
    }
}

/// The user's display name as the details sheet shows it: "N/A" when the
/// credential has none.
pub fn credential_display_name(cred: &StoredCredential) -> (r: String)
    ensures
        r@ == (if cred.user_display_name@.len() > 0 { cred.user_display_name@ } else { "N/A"@ }),
{
    if cred.user_display_name.as_str().unicode_len() > 0 {
        cred.user_display_name.clone()
    } else {
        String::from_str("N/A")
    }
}

/// The credential id that a listing shows, given back to delete the
/// credential, decodes to the id bytes that the device reported, so the
/// deletion names the listed credential.
pub proof fn lemma_listed_id_names_credential(
    c: StoredCredential,
    rp_id: Seq<char>,
    rp_name: Seq<char>,
    e: (CborModel, CborModel, CborModel, Option<usize>),
)
    requires
        lists_credential(c, rp_id, rp_name, e),
        bytes_under(e.1, "id"@) is Some,
    ensures
        spec_hex_decode(c.credential_id@) == bytes_under(e.1, "id"@),
        descriptor_model(spec_hex_decode(c.credential_id@)->0) == descriptor_model(bytes_under(e.1, "id"@)->0),
{
    crate::text::lemma_hex_roundtrip(bytes_under(e.1, "id"@)->0, false);
}

} // verus!
