//! authenticatorConfig requests: the vendor configuration commands of the
//! pico-fido firmware and setMinPINLength, each authenticated with a PIN
//! token.
use vstd::prelude::*;
use crate::cbor::{Cbor, CborModel, cbor_encode, cbor_encoding, cbor_serialization, cbor_serialize, cbor_writable};
use crate::clientpin::{
    PFErrorText, auth_param, authenticate, bytes_result_is, extend, int_dict, lemma_int_dict_encodable,
    lemma_int_dict_writable, make_int_dict, wrap_error,
};
use crate::constants::{ConfigParam, ConfigSubCommand, ConfigSubCommandParam, CtapCommand, VendorConfigCommand};
use crate::error::{PFError, device_error, error_mentions, io_error, is_device_error, seq_contains};

use crate::text::{decimal_chars, push_decimal};

verus! {

/// What the PIN token authenticates for authenticatorConfig: 32 bytes of
/// 0xff, the command byte 0x0d, the subcommand, and its parameters.
pub open spec fn config_auth_message(sub_cmd: u8, params: Seq<u8>) -> Seq<u8> {
    Seq::new(32, |i: int| 0xffu8) + seq![CtapCommand::Config.spec_value(), sub_cmd] + params
}

/// The pinUvAuthParam of an authenticatorConfig command.
pub fn sign_config_command(pin_token: &[u8], sub_cmd: u8, sub_params_bytes: &[u8]) -> (r: Vec<u8>)
    ensures
        r@ == auth_param(pin_token@, config_auth_message(sub_cmd, sub_params_bytes@)),
        r@.len() == 16,
{
    let mut message: Vec<u8> = Vec::new();
    let mut i: usize = 0;
    while i < 32
        invariant
            i <= 32,
            message@ == Seq::new(i as nat, |j: int| 0xffu8),
        decreases 32 - i,
    {
        message.push(0xffu8);
        i = i + 1;
        assert(message@ =~= Seq::new(i as nat, |j: int| 0xffu8));
    }
    message.push(CtapCommand::Config.value());
    message.push(sub_cmd);
    extend(&mut message, sub_params_bytes);
    assert(message@ =~= config_auth_message(sub_cmd, sub_params_bytes@));
    authenticate(pin_token, message.as_slice())
}

/// The key under which a vendor parameter goes: byte strings under 2,
/// integers under 3, text under 4; other kinds are not supported.
pub open spec fn vendor_param_key(param: CborModel) -> Option<int> {
    match param {
        CborModel::Bytes(_) => Some(2),
        CborModel::Int(_) => Some(3),
        CborModel::Text(_) => Some(4),
        _ => None,
    }
}

/// The full authenticatorConfig map: subcommand, its parameters,
/// protocol one, and the authentication.
pub open spec fn config_map(sub_cmd: u8, sub_params: CborModel, auth: Seq<u8>) -> CborModel {
    int_dict(
        seq![
            (ConfigParam::SubCommand.spec_value() as int, CborModel::Int(sub_cmd as int)),
            (ConfigParam::SubCommandParams.spec_value() as int, sub_params),
            (ConfigParam::PinUvAuthProtocol.spec_value() as int, CborModel::Int(1)),
            (ConfigParam::PinUvAuthParam.spec_value() as int, CborModel::Bytes(auth)),
        ],
    )
}

/// The vendor configuration request that sets `cmd` to `param`.
pub open spec fn vendor_config_request_bytes(token: Seq<u8>, cmd: VendorConfigCommand, param: CborModel) -> Result<
    Seq<u8>,
    PFErrorText,
> {
    match vendor_param_key(param) {
        None => Err(PFErrorText::Io("Unsupported parameter type"@)),
        Some(k) => {
            let sub = int_dict(seq![(1int, CborModel::Int(cmd.spec_value() as int)), (k, param)]);
            match cbor_serialization(sub) {
                Err(t) => Err(PFErrorText::Io(t)),
                Ok(sb) => {
                    let auth = auth_param(token, config_auth_message(ConfigSubCommand::VendorPrototype.spec_value(), sb));
                    match cbor_serialization(config_map(ConfigSubCommand::VendorPrototype.spec_value(), sub, auth)) {
                        Err(t) => Err(PFErrorText::Io(t)),
                        Ok(cb) => Ok(seq![CtapCommand::Config.spec_value()] + cb),
                    }
                },
            }
        },
    }
}

/// Builds the vendor configuration request that sets `vendor_cmd` to
/// `param`, authenticated with `pin_token`.
pub fn vendor_config_request(pin_token: &[u8], vendor_cmd: VendorConfigCommand, param: Cbor) -> (r: Result<Vec<u8>, PFError>)
    requires
        cbor_writable(param@),
    ensures
        bytes_result_is(r, vendor_config_request_bytes(pin_token@, vendor_cmd, param@)),
{
    let key: i128 = match &param {
        Cbor::Bytes(_) => 2,
        Cbor::Int(_) => 3,
        Cbor::Text(_) => 4,
        _ => return Err(io_error("Unsupported parameter type")),
    };
    let ghost pm = param@;
    let mut entries: Vec<(i128, Cbor)> = Vec::new();
    entries.push((1, Cbor::Int(vendor_cmd.value() as i128)));
    entries.push((key, param));
    let sub = make_int_dict(entries);
    assert(entries@.map_values(|e: (i128, Cbor)| (e.0 as int, e.1@)) =~= seq![
        (1int, CborModel::Int(vendor_cmd.spec_value() as int)),
        (key as int, pm),
    ]);
    proof {
        lemma_int_dict_writable(seq![
            (1int, CborModel::Int(vendor_cmd.spec_value() as int)),
            (key as int, pm),
        ]);
    }
    let sb = match cbor_serialize(&sub) {
        Ok(b) => b,
        Err(t) => return Err(PFError::Io(t)),
    };
    let auth = sign_config_command(pin_token, ConfigSubCommand::VendorPrototype.value(), sb.as_slice());
    let ghost sub_model = sub@;
    let ghost auth_model = auth@;
    let mut centries: Vec<(i128, Cbor)> = Vec::new();
    centries.push((ConfigParam::SubCommand.value() as i128, Cbor::Int(ConfigSubCommand::VendorPrototype.value() as i128)));
    centries.push((ConfigParam::SubCommandParams.value() as i128, sub));
    centries.push((ConfigParam::PinUvAuthProtocol.value() as i128, Cbor::Int(1)));
    centries.push((ConfigParam::PinUvAuthParam.value() as i128, Cbor::Bytes(auth)));
    let config = make_int_dict(centries);
    assert(centries@.map_values(|e: (i128, Cbor)| (e.0 as int, e.1@)) =~= seq![
        (ConfigParam::SubCommand.spec_value() as int, CborModel::Int(ConfigSubCommand::VendorPrototype.spec_value() as int)),
        (ConfigParam::SubCommandParams.spec_value() as int, sub_model),
        (ConfigParam::PinUvAuthProtocol.spec_value() as int, CborModel::Int(1)),
        (ConfigParam::PinUvAuthParam.spec_value() as int, CborModel::Bytes(auth_model)),
    ]);
    proof {
        lemma_int_dict_writable(seq![
            (ConfigParam::SubCommand.spec_value() as int, CborModel::Int(ConfigSubCommand::VendorPrototype.spec_value() as int)),
            (ConfigParam::SubCommandParams.spec_value() as int, sub_model),
            (ConfigParam::PinUvAuthProtocol.spec_value() as int, CborModel::Int(1)),
            (ConfigParam::PinUvAuthParam.spec_value() as int, CborModel::Bytes(auth_model)),
        ]);
    }
    let cb = match cbor_serialize(&config) {
        Ok(b) => b,
        Err(t) => return Err(PFError::Io(t)),
    };
    let mut payload: Vec<u8> = Vec::new();
    payload.push(CtapCommand::Config.value());
    extend(&mut payload, cb.as_slice());
    Ok(payload)
}


/// The setMinPINLength parameters: the new minimum under key 1.
pub open spec fn min_pin_length_params(len: u8) -> CborModel {
    int_dict(seq![(ConfigSubCommandParam::NewMinPinLength.spec_value() as int, CborModel::Int(len as int))])
}

/// The setMinPINLength request, its map keys in ascending order as the
/// firmware requires.
pub open spec fn min_pin_length_request_bytes(token: Seq<u8>, len: u8) -> Seq<u8> {
    let sub = min_pin_length_params(len);
    let auth = auth_param(token, config_auth_message(ConfigSubCommand::SetMinPinLength.spec_value(), cbor_encoding(sub)));
    seq![CtapCommand::Config.spec_value()] + cbor_encoding(
        config_map(ConfigSubCommand::SetMinPinLength.spec_value(), sub, auth),
    )
}

/// Builds the setMinPINLength request, authenticated with `pin_token`.
pub fn min_pin_length_request(pin_token: &[u8], new_min_pin_length: u8) -> (r: Vec<u8>)
    ensures
        r@ == min_pin_length_request_bytes(pin_token@, new_min_pin_length),
{
    let mut entries: Vec<(i128, Cbor)> = Vec::new();
    entries.push((ConfigSubCommandParam::NewMinPinLength.value() as i128, Cbor::Int(new_min_pin_length as i128)));
    let sub = make_int_dict(entries);
    assert(entries@.map_values(|e: (i128, Cbor)| (e.0 as int, e.1@)) =~= seq![
        (ConfigSubCommandParam::NewMinPinLength.spec_value() as int, CborModel::Int(new_min_pin_length as int)),
    ]);
    proof {
        lemma_int_dict_encodable(seq![
            (ConfigSubCommandParam::NewMinPinLength.spec_value() as int, CborModel::Int(new_min_pin_length as int)),
        ]);
    }
    let sb = cbor_encode(&sub);
    let auth = sign_config_command(pin_token, ConfigSubCommand::SetMinPinLength.value(), sb.as_slice());
    let ghost sub_model = sub@;
    let ghost auth_model = auth@;
    let mut centries: Vec<(i128, Cbor)> = Vec::new();
    centries.push((ConfigParam::SubCommand.value() as i128, Cbor::Int(ConfigSubCommand::SetMinPinLength.value() as i128)));
    centries.push((ConfigParam::SubCommandParams.value() as i128, sub));
    centries.push((ConfigParam::PinUvAuthProtocol.value() as i128, Cbor::Int(1)));
    centries.push((ConfigParam::PinUvAuthParam.value() as i128, Cbor::Bytes(auth)));
    let config = make_int_dict(centries);
    assert(centries@.map_values(|e: (i128, Cbor)| (e.0 as int, e.1@)) =~= seq![
        (ConfigParam::SubCommand.spec_value() as int, CborModel::Int(ConfigSubCommand::SetMinPinLength.spec_value() as int)),
        (ConfigParam::SubCommandParams.spec_value() as int, sub_model),
        (ConfigParam::PinUvAuthProtocol.spec_value() as int, CborModel::Int(1)),
        (ConfigParam::PinUvAuthParam.spec_value() as int, CborModel::Bytes(auth_model)),
    ]);
    proof {
        lemma_int_dict_encodable(seq![
            (ConfigParam::SubCommand.spec_value() as int, CborModel::Int(ConfigSubCommand::SetMinPinLength.spec_value() as int)),
            (ConfigParam::SubCommandParams.spec_value() as int, sub_model),
            (ConfigParam::PinUvAuthProtocol.spec_value() as int, CborModel::Int(1)),
            (ConfigParam::PinUvAuthParam.spec_value() as int, CborModel::Bytes(auth_model)),
        ]);
    }
    let mut payload: Vec<u8> = Vec::new();
    payload.push(CtapCommand::Config.value());
    extend(&mut payload, cbor_encode(&config).as_slice());
    payload
}

/// How a failed setMinPINLength is reported: a policy violation (0x37)
/// means the minimum cannot be lowered.
pub open spec fn min_pin_length_failure_text(e: PFError) -> Seq<char> {
    if seq_contains(e.spec_message(), "0x37"@) {
        "Cannot decrease minimum PIN length. The FIDO2 security policy only allows increasing the minimum PIN length, not decreasing it. A device reset is required to lower the minimum."@
    } else {
        "setMinPINLength failed: "@ + e.spec_message()
    }
}

/// Reports a failed setMinPINLength.
pub fn min_pin_length_failure(e: &PFError) -> (r: PFError)
    ensures
        is_device_error(r, min_pin_length_failure_text(*e)),
{
    if error_mentions(e, "0x37") {
        return device_error(
            "Cannot decrease minimum PIN length. The FIDO2 security policy only allows increasing the minimum PIN length, not decreasing it. A device reset is required to lower the minimum.",
        );
    }
    wrap_error("setMinPINLength failed: ", e)
}


/// How a refused PIN token with the authenticatorConfig permission is
/// reported: a device without FIDO 2.1 configuration (0x2B) gets its own
/// text.
pub open spec fn acfg_token_failure_text(e: PFError) -> Seq<char> {
    if seq_contains(e.spec_message(), "0x2B"@) {
        "The device does not support FIDO 2.1 advanced configuration (Error 0x2B). Ensure your device firmware is up to date and supports this feature."@
    } else {
        "Failed to obtain PIN token: "@ + e.spec_message()
    }
}

/// Reports a refused PIN token for authenticatorConfig.
pub fn acfg_token_failure(e: &PFError) -> (r: String)
    ensures
        r@ == acfg_token_failure_text(*e),
{
    if error_mentions(e, "0x2B") {
        return String::from_str(
            "The device does not support FIDO 2.1 advanced configuration (Error 0x2B). Ensure your device firmware is up to date and supports this feature.",
        );
    }
    let mut s = String::from_str("Failed to obtain PIN token: ");
    s.append(e.message().as_str());
    s
}

/// Reports a failed minimum PIN length update.
pub fn min_pin_length_update_failure(e: &PFError) -> (r: String)
    ensures
        r@ == "Failed to set minimum PIN length: "@ + e.spec_message(),
{
    let mut s = String::from_str("Failed to set minimum PIN length: ");
    s.append(e.message().as_str());
    s
}

/// The message after the minimum PIN length was set to `n`.
pub fn min_pin_length_message(n: u8) -> (r: String)
    ensures
        r@ == "Minimum PIN length successfully set to "@ + decimal_chars(n as nat),
{
    let mut s = String::from_str("Minimum PIN length successfully set to ");
    push_decimal(&mut s, n as u128);
    s
}

/// How a failed vendor configuration command is reported.
pub fn vendor_config_failure(e: &PFError) -> (r: PFError)
    ensures
        is_device_error(r, "FIDO config failed: "@ + e.spec_message()),
{
    let mut s = String::from_str("FIDO config failed: ");
    s.append(e.message().as_str());
    PFError::Device(s)
}

/// The message after a PIN was changed (`changed`) or first set.
pub fn pin_update_message(changed: bool) -> (r: String)
    ensures
        r@ == (if changed { "PIN Changed Successfully"@ } else { "PIN Set Successfully"@ }),
{
    if changed {
        String::from_str("PIN Changed Successfully")
    } else {
        String::from_str("PIN Set Successfully")
    }
}

/// What the PIN token signs for an authenticatorConfig command: 32 bytes
/// of 0xff, the authenticatorConfig command byte 0x0d, the subcommand
/// byte, and then exactly the encoded subcommand parameters; the
/// signature is the first 16 bytes of its HMAC-SHA-256 under the token.
pub proof fn lemma_config_signature_message(token: Seq<u8>, sub_cmd: u8, params: Seq<u8>)
    ensures
        ({
            let m = config_auth_message(sub_cmd, params);
            &&& m.len() == 34 + params.len()
            &&& forall|i: int| 0 <= i < 32 ==> m[i] == 0xffu8
            &&& m[32] == 0x0du8
            &&& m[33] == sub_cmd
            &&& m.subrange(34, m.len() as int) == params
            &&& auth_param(token, m) == crate::crypto::hmac_sha256_tag(token, m).take(16)
        }),
{
    let m = config_auth_message(sub_cmd, params);
    assert(m.subrange(34, m.len() as int) =~= params);
}

} // verus!
