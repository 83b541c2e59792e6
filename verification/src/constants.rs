//! Constants and enumerations of the CTAP2 protocol as spoken by the
//! pico-fido firmware.
use vstd::prelude::*;
use crate::text::{parse_hex_u64, spec_parse_hex_u64, str_chars, strip_0x, strip_0x_chars};

verus! {

/// CTAP2 authenticator command bytes.
#[derive(Debug, Clone, Copy, PartialEq, Eq, Structural)]
pub enum CtapCommand {
    MakeCredential,
    GetAssertion,
    GetInfo,
    ClientPin,
    Reset,
    GetNextAssertion,
    CredentialMgmt,
    Selection,
    LargeBlobs,
    Config,
}

impl CtapCommand {
    pub open spec fn spec_value(&self) -> u8 {
        match self {
            CtapCommand::MakeCredential => 0x01,
            CtapCommand::GetAssertion => 0x02,
            CtapCommand::GetInfo => 0x04,
            CtapCommand::ClientPin => 0x06,
            CtapCommand::Reset => 0x07,
            CtapCommand::GetNextAssertion => 0x08,
            CtapCommand::CredentialMgmt => 0x0A,
            CtapCommand::Selection => 0x0B,
            CtapCommand::LargeBlobs => 0x0C,
            CtapCommand::Config => 0x0D,
        }
    }

    /// The number this item stands for on the wire.
    #[verifier::when_used_as_spec(spec_value)]
    pub fn value(&self) -> (r: u8)
        ensures
            r == self.spec_value(),
    {
        match self {
            CtapCommand::MakeCredential => 0x01,
            CtapCommand::GetAssertion => 0x02,
            CtapCommand::GetInfo => 0x04,
            CtapCommand::ClientPin => 0x06,
            CtapCommand::Reset => 0x07,
            CtapCommand::GetNextAssertion => 0x08,
            CtapCommand::CredentialMgmt => 0x0A,
            CtapCommand::Selection => 0x0B,
            CtapCommand::LargeBlobs => 0x0C,
            CtapCommand::Config => 0x0D,
        }
    }
}

/// U2F (CTAP1) instruction bytes.
#[derive(Debug, Clone, Copy, PartialEq, Eq, Structural)]
pub enum U2fCommand {
    Register,
    Authenticate,
    Version,
}

impl U2fCommand {
    pub open spec fn spec_value(&self) -> u8 {
        match self {
            U2fCommand::Register => 0x01,
            U2fCommand::Authenticate => 0x02,
            U2fCommand::Version => 0x03,
        }
    }

    /// The number this item stands for on the wire.
    #[verifier::when_used_as_spec(spec_value)]
    pub fn value(&self) -> (r: u8)
        ensures
            r == self.spec_value(),
    {
        match self {
            U2fCommand::Register => 0x01,
            U2fCommand::Authenticate => 0x02,
            U2fCommand::Version => 0x03,
        }
    }
}

/// Vendor CBOR commands of the pico-fido firmware.
#[derive(Debug, Clone, Copy, PartialEq, Eq, Structural)]
pub enum VendorCommand {
    Backup,
    ManageSecurityEnvironment,
    Unlock,
    EnterpriseAttestation,
    PhysicalOptions,
    Memory,
}

impl VendorCommand {
    pub open spec fn spec_value(&self) -> u8 {
        match self {
            VendorCommand::Backup => 0x01,
            VendorCommand::ManageSecurityEnvironment => 0x02,
            VendorCommand::Unlock => 0x03,
            VendorCommand::EnterpriseAttestation => 0x04,
            VendorCommand::PhysicalOptions => 0x05,
            VendorCommand::Memory => 0x06,
        }
    }

    /// The number this item stands for on the wire.
    #[verifier::when_used_as_spec(spec_value)]
    pub fn value(&self) -> (r: u8)
        ensures
            r == self.spec_value(),
    {
        match self {
            VendorCommand::Backup => 0x01,
            VendorCommand::ManageSecurityEnvironment => 0x02,
            VendorCommand::Unlock => 0x03,
            VendorCommand::EnterpriseAttestation => 0x04,
            VendorCommand::PhysicalOptions => 0x05,
            VendorCommand::Memory => 0x06,
        }
    }
}

/// U2F authenticate control bytes.
#[derive(Debug, Clone, Copy, PartialEq, Eq, Structural)]
pub enum AuthenticateControl {
    EnforceUserPresence,
    CheckOnly,
}

impl AuthenticateControl {
    pub open spec fn spec_value(&self) -> u8 {
        match self {
            AuthenticateControl::EnforceUserPresence => 0x03,
            AuthenticateControl::CheckOnly => 0x07,
        }
    }

    /// The number this item stands for on the wire.
    #[verifier::when_used_as_spec(spec_value)]
    pub fn value(&self) -> (r: u8)
        ensures
            r == self.spec_value(),
    {
        match self {
            AuthenticateControl::EnforceUserPresence => 0x03,
            AuthenticateControl::CheckOnly => 0x07,
        }
    }
}

/// authenticatorClientPIN subcommands.
#[derive(Debug, Clone, Copy, PartialEq, Eq, Structural)]
pub enum ClientPinSubCommand {
    GetPinRetries,
    GetKeyAgreement,
    SetPin,
    ChangePin,
    GetPinToken,
    GetPinUvAuthTokenUsingUvWithPermissions,
    GetUvRetries,
    GetPinUvAuthTokenUsingPinWithPermissions,
}

impl ClientPinSubCommand {
    pub open spec fn spec_value(&self) -> u8 {
        match self {
            ClientPinSubCommand::GetPinRetries => 0x01,
            ClientPinSubCommand::GetKeyAgreement => 0x02,
            ClientPinSubCommand::SetPin => 0x03,
            ClientPinSubCommand::ChangePin => 0x04,
            ClientPinSubCommand::GetPinToken => 0x05,
            ClientPinSubCommand::GetPinUvAuthTokenUsingUvWithPermissions => 0x06,
            ClientPinSubCommand::GetUvRetries => 0x07,
            ClientPinSubCommand::GetPinUvAuthTokenUsingPinWithPermissions => 0x09,
        }
    }

    /// The number this item stands for on the wire.
    #[verifier::when_used_as_spec(spec_value)]
    pub fn value(&self) -> (r: u8)
        ensures
            r == self.spec_value(),
    {
        match self {
            ClientPinSubCommand::GetPinRetries => 0x01,
            ClientPinSubCommand::GetKeyAgreement => 0x02,
            ClientPinSubCommand::SetPin => 0x03,
            ClientPinSubCommand::ChangePin => 0x04,
            ClientPinSubCommand::GetPinToken => 0x05,
            ClientPinSubCommand::GetPinUvAuthTokenUsingUvWithPermissions => 0x06,
            ClientPinSubCommand::GetUvRetries => 0x07,
            ClientPinSubCommand::GetPinUvAuthTokenUsingPinWithPermissions => 0x09,
        }
    }
}

/// authenticatorMakeCredential request keys.
#[derive(Debug, Clone, Copy, PartialEq, Eq, Structural)]
pub enum MakeCredentialParam {
    ClientDataHash,
    Rp,
    User,
    PubKeyCredParams,
    ExcludeList,
    Extensions,
    Options,
    PinUvAuthParam,
    PinUvAuthProtocol,
    EnterpriseAttestation,
}

impl MakeCredentialParam {
    pub open spec fn spec_value(&self) -> u8 {
        match self {
            MakeCredentialParam::ClientDataHash => 0x01,
            MakeCredentialParam::Rp => 0x02,
            MakeCredentialParam::User => 0x03,
            MakeCredentialParam::PubKeyCredParams => 0x04,
            MakeCredentialParam::ExcludeList => 0x05,
            MakeCredentialParam::Extensions => 0x06,
            MakeCredentialParam::Options => 0x07,
            MakeCredentialParam::PinUvAuthParam => 0x08,
            MakeCredentialParam::PinUvAuthProtocol => 0x09,
            MakeCredentialParam::EnterpriseAttestation => 0x0A,
        }
    }

    /// The number this item stands for on the wire.
    #[verifier::when_used_as_spec(spec_value)]
    pub fn value(&self) -> (r: u8)
        ensures
            r == self.spec_value(),
    {
        match self {
            MakeCredentialParam::ClientDataHash => 0x01,
            MakeCredentialParam::Rp => 0x02,
            MakeCredentialParam::User => 0x03,
            MakeCredentialParam::PubKeyCredParams => 0x04,
            MakeCredentialParam::ExcludeList => 0x05,
            MakeCredentialParam::Extensions => 0x06,
            MakeCredentialParam::Options => 0x07,
            MakeCredentialParam::PinUvAuthParam => 0x08,
            MakeCredentialParam::PinUvAuthProtocol => 0x09,
            MakeCredentialParam::EnterpriseAttestation => 0x0A,
        }
    }
}

/// authenticatorGetAssertion request keys.
#[derive(Debug, Clone, Copy, PartialEq, Eq, Structural)]
pub enum GetAssertionParam {
    RpId,
    ClientDataHash,
    AllowList,
    Extensions,
    Options,
    PinUvAuthParam,
    PinUvAuthProtocol,
}

impl GetAssertionParam {
    pub open spec fn spec_value(&self) -> u8 {
        match self {
            GetAssertionParam::RpId => 0x01,
            GetAssertionParam::ClientDataHash => 0x02,
            GetAssertionParam::AllowList => 0x03,
            GetAssertionParam::Extensions => 0x04,
            GetAssertionParam::Options => 0x05,
            GetAssertionParam::PinUvAuthParam => 0x06,
            GetAssertionParam::PinUvAuthProtocol => 0x07,
        }
    }

    /// The number this item stands for on the wire.
    #[verifier::when_used_as_spec(spec_value)]
    pub fn value(&self) -> (r: u8)
        ensures
            r == self.spec_value(),
    {
        match self {
            GetAssertionParam::RpId => 0x01,
            GetAssertionParam::ClientDataHash => 0x02,
            GetAssertionParam::AllowList => 0x03,
            GetAssertionParam::Extensions => 0x04,
            GetAssertionParam::Options => 0x05,
            GetAssertionParam::PinUvAuthParam => 0x06,
            GetAssertionParam::PinUvAuthProtocol => 0x07,
        }
    }
}

/// authenticatorClientPIN request keys.
#[derive(Debug, Clone, Copy, PartialEq, Eq, Structural)]
pub enum ClientPinParam {
    PinUvAuthProtocol,
    SubCommand,
    KeyAgreement,
    PinUvAuthParam,
    NewPinEnc,
    PinHashEnc,
    Permissions,
    PermissionsRpId,
}

impl ClientPinParam {
    pub open spec fn spec_value(&self) -> u8 {
        match self {
            ClientPinParam::PinUvAuthProtocol => 0x01,
            ClientPinParam::SubCommand => 0x02,
            ClientPinParam::KeyAgreement => 0x03,
            ClientPinParam::PinUvAuthParam => 0x04,
            ClientPinParam::NewPinEnc => 0x05,
            ClientPinParam::PinHashEnc => 0x06,
            ClientPinParam::Permissions => 0x09,
            ClientPinParam::PermissionsRpId => 0x0A,
        }
    }

    /// The number this item stands for on the wire.
    #[verifier::when_used_as_spec(spec_value)]
    pub fn value(&self) -> (r: u8)
        ensures
            r == self.spec_value(),
    {
        match self {
            ClientPinParam::PinUvAuthProtocol => 0x01,
            ClientPinParam::SubCommand => 0x02,
            ClientPinParam::KeyAgreement => 0x03,
            ClientPinParam::PinUvAuthParam => 0x04,
            ClientPinParam::NewPinEnc => 0x05,
            ClientPinParam::PinHashEnc => 0x06,
            ClientPinParam::Permissions => 0x09,
            ClientPinParam::PermissionsRpId => 0x0A,
        }
    }
}

/// authenticatorClientPIN response keys.
#[derive(Debug, Clone, Copy, PartialEq, Eq, Structural)]
pub enum ClientPinResponseParam {
    KeyAgreement,
    PinToken,
    PinRetries,
    NextMsg,
    UvRetries,
}

impl ClientPinResponseParam {
    pub open spec fn spec_value(&self) -> u8 {
        match self {
            ClientPinResponseParam::KeyAgreement => 0x01,
            ClientPinResponseParam::PinToken => 0x02,
            ClientPinResponseParam::PinRetries => 0x03,
            ClientPinResponseParam::NextMsg => 0x04,
            ClientPinResponseParam::UvRetries => 0x05,
        }
    }

    /// The number this item stands for on the wire.
    #[verifier::when_used_as_spec(spec_value)]
    pub fn value(&self) -> (r: u8)
        ensures
            r == self.spec_value(),
    {
        match self {
            ClientPinResponseParam::KeyAgreement => 0x01,
            ClientPinResponseParam::PinToken => 0x02,
            ClientPinResponseParam::PinRetries => 0x03,
            ClientPinResponseParam::NextMsg => 0x04,
            ClientPinResponseParam::UvRetries => 0x05,
        }
    }
}

/// authenticatorConfig request keys.
#[derive(Debug, Clone, Copy, PartialEq, Eq, Structural)]
pub enum ConfigParam {
    SubCommand,
    SubCommandParams,
    PinUvAuthProtocol,
    PinUvAuthParam,
}

impl ConfigParam {
    pub open spec fn spec_value(&self) -> u8 {
        match self {
            ConfigParam::SubCommand => 0x01,
            ConfigParam::SubCommandParams => 0x02,
            ConfigParam::PinUvAuthProtocol => 0x03,
            ConfigParam::PinUvAuthParam => 0x04,
        }
    }

    /// The number this item stands for on the wire.
    #[verifier::when_used_as_spec(spec_value)]
    pub fn value(&self) -> (r: u8)
        ensures
            r == self.spec_value(),
    {
        match self {
            ConfigParam::SubCommand => 0x01,
            ConfigParam::SubCommandParams => 0x02,
            ConfigParam::PinUvAuthProtocol => 0x03,
            ConfigParam::PinUvAuthParam => 0x04,
        }
    }
}

/// authenticatorConfig subcommands.
#[derive(Debug, Clone, Copy, PartialEq, Eq, Structural)]
pub enum ConfigSubCommand {
    EnableEnterpriseAttestation,
    ToggleAlwaysUv,
    SetMinPinLength,
    VendorPrototype,
}

impl ConfigSubCommand {
    pub open spec fn spec_value(&self) -> u8 {
        match self {
            ConfigSubCommand::EnableEnterpriseAttestation => 0x01,
            ConfigSubCommand::ToggleAlwaysUv => 0x02,
            ConfigSubCommand::SetMinPinLength => 0x03,
            ConfigSubCommand::VendorPrototype => 0xFF,
        }
    }

    /// The number this item stands for on the wire.
    #[verifier::when_used_as_spec(spec_value)]
    pub fn value(&self) -> (r: u8)
        ensures
            r == self.spec_value(),
    {
        match self {
            ConfigSubCommand::EnableEnterpriseAttestation => 0x01,
            ConfigSubCommand::ToggleAlwaysUv => 0x02,
            ConfigSubCommand::SetMinPinLength => 0x03,
            ConfigSubCommand::VendorPrototype => 0xFF,
        }
    }
}

/// Vendor command request keys.
#[derive(Debug, Clone, Copy, PartialEq, Eq, Structural)]
pub enum VendorParam {
    VendorCommand,
    VendorSubParams,
    PinUvAuthProtocol,
    PinUvAuthParam,
}

impl VendorParam {
    pub open spec fn spec_value(&self) -> u8 {
        match self {
            VendorParam::VendorCommand => 0x01,
            VendorParam::VendorSubParams => 0x02,
            VendorParam::PinUvAuthProtocol => 0x03,
            VendorParam::PinUvAuthParam => 0x04,
        }
    }

    /// The number this item stands for on the wire.
    #[verifier::when_used_as_spec(spec_value)]
    pub fn value(&self) -> (r: u8)
        ensures
            r == self.spec_value(),
    {
        match self {
            VendorParam::VendorCommand => 0x01,
            VendorParam::VendorSubParams => 0x02,
            VendorParam::PinUvAuthProtocol => 0x03,
            VendorParam::PinUvAuthParam => 0x04,
        }
    }
}

/// Vendor subcommand parameter keys.
#[derive(Debug, Clone, Copy, PartialEq, Eq, Structural)]
pub enum VendorSubParam {
    VendorParam,
    CoseKey,
    VendorParamInt,
    VendorParamText,
}

impl VendorSubParam {
    pub open spec fn spec_value(&self) -> u8 {
        match self {
            VendorSubParam::VendorParam => 0x01,
            VendorSubParam::CoseKey => 0x02,
            VendorSubParam::VendorParamInt => 0x03,
            VendorSubParam::VendorParamText => 0x04,
        }
    }

    /// The number this item stands for on the wire.
    #[verifier::when_used_as_spec(spec_value)]
    pub fn value(&self) -> (r: u8)
        ensures
            r == self.spec_value(),
    {
        match self {
            VendorSubParam::VendorParam => 0x01,
            VendorSubParam::CoseKey => 0x02,
            VendorSubParam::VendorParamInt => 0x03,
            VendorSubParam::VendorParamText => 0x04,
        }
    }
}

/// authenticatorCredentialManagement subcommands.
#[derive(Debug, Clone, Copy, PartialEq, Eq, Structural)]
pub enum CredentialMgmtSubCommand {
    GetCredsMetadata,
    EnumerateRpsBegin,
    EnumerateRpsGetNextRp,
    EnumerateCredentialsBegin,
    EnumerateCredentialsGetNextCredential,
    DeleteCredential,
    UpdateUserInformation,
}

impl CredentialMgmtSubCommand {
    pub open spec fn spec_value(&self) -> u8 {
        match self {
            CredentialMgmtSubCommand::GetCredsMetadata => 0x01,
            CredentialMgmtSubCommand::EnumerateRpsBegin => 0x02,
            CredentialMgmtSubCommand::EnumerateRpsGetNextRp => 0x03,
            CredentialMgmtSubCommand::EnumerateCredentialsBegin => 0x04,
            CredentialMgmtSubCommand::EnumerateCredentialsGetNextCredential => 0x05,
            CredentialMgmtSubCommand::DeleteCredential => 0x06,
            CredentialMgmtSubCommand::UpdateUserInformation => 0x07,
        }
    }

    /// The number this item stands for on the wire.
    #[verifier::when_used_as_spec(spec_value)]
    pub fn value(&self) -> (r: u8)
        ensures
            r == self.spec_value(),
    {
        match self {
            CredentialMgmtSubCommand::GetCredsMetadata => 0x01,
            CredentialMgmtSubCommand::EnumerateRpsBegin => 0x02,
            CredentialMgmtSubCommand::EnumerateRpsGetNextRp => 0x03,
            CredentialMgmtSubCommand::EnumerateCredentialsBegin => 0x04,
            CredentialMgmtSubCommand::EnumerateCredentialsGetNextCredential => 0x05,
            CredentialMgmtSubCommand::DeleteCredential => 0x06,
            CredentialMgmtSubCommand::UpdateUserInformation => 0x07,
        }
    }
}

/// authenticatorCredentialManagement request keys.
#[derive(Debug, Clone, Copy, PartialEq, Eq, Structural)]
pub enum CredentialMgmtParam {
    SubCommand,
    SubCommandParams,
    PinUvAuthProtocol,
    PinUvAuthParam,
}

impl CredentialMgmtParam {
    pub open spec fn spec_value(&self) -> u8 {
        match self {
            CredentialMgmtParam::SubCommand => 0x01,
            CredentialMgmtParam::SubCommandParams => 0x02,
            CredentialMgmtParam::PinUvAuthProtocol => 0x03,
            CredentialMgmtParam::PinUvAuthParam => 0x04,
        }
    }

    /// The number this item stands for on the wire.
    #[verifier::when_used_as_spec(spec_value)]
    pub fn value(&self) -> (r: u8)
        ensures
            r == self.spec_value(),
    {
        match self {
            CredentialMgmtParam::SubCommand => 0x01,
            CredentialMgmtParam::SubCommandParams => 0x02,
            CredentialMgmtParam::PinUvAuthProtocol => 0x03,
            CredentialMgmtParam::PinUvAuthParam => 0x04,
        }
    }
}

/// authenticatorCredentialManagement response keys.
#[derive(Debug, Clone, Copy, PartialEq, Eq, Structural)]
pub enum CredentialMgmtResponseParam {
    Rp,
    RpIdHash,
    TotalRps,
    User,
    CredentialId,
    PublicKey,
    TotalCredentials,
}

impl CredentialMgmtResponseParam {
    pub open spec fn spec_value(&self) -> u8 {
        match self {
            CredentialMgmtResponseParam::Rp => 0x03,
            CredentialMgmtResponseParam::RpIdHash => 0x04,
            CredentialMgmtResponseParam::TotalRps => 0x05,
            CredentialMgmtResponseParam::User => 0x06,
            CredentialMgmtResponseParam::CredentialId => 0x07,
            CredentialMgmtResponseParam::PublicKey => 0x08,
            CredentialMgmtResponseParam::TotalCredentials => 0x09,
        }
    }

    /// The number this item stands for on the wire.
    #[verifier::when_used_as_spec(spec_value)]
    pub fn value(&self) -> (r: u8)
        ensures
            r == self.spec_value(),
    {
        match self {
            CredentialMgmtResponseParam::Rp => 0x03,
            CredentialMgmtResponseParam::RpIdHash => 0x04,
            CredentialMgmtResponseParam::TotalRps => 0x05,
            CredentialMgmtResponseParam::User => 0x06,
            CredentialMgmtResponseParam::CredentialId => 0x07,
            CredentialMgmtResponseParam::PublicKey => 0x08,
            CredentialMgmtResponseParam::TotalCredentials => 0x09,
        }
    }
}

/// setMinPINLength subcommand parameter keys.
#[derive(Debug, Clone, Copy, PartialEq, Eq, Structural)]
pub enum ConfigSubCommandParam {
    NewMinPinLength,
    MinPinLengthRPIDs,
    ForceChangePin,
}

impl ConfigSubCommandParam {
    pub open spec fn spec_value(&self) -> u8 {
        match self {
            ConfigSubCommandParam::NewMinPinLength => 0x01,
            ConfigSubCommandParam::MinPinLengthRPIDs => 0x02,
            ConfigSubCommandParam::ForceChangePin => 0x03,
        }
    }

    /// The number this item stands for on the wire.
    #[verifier::when_used_as_spec(spec_value)]
    pub fn value(&self) -> (r: u8)
        ensures
            r == self.spec_value(),
    {
        match self {
            ConfigSubCommandParam::NewMinPinLength => 0x01,
            ConfigSubCommandParam::MinPinLengthRPIDs => 0x02,
            ConfigSubCommandParam::ForceChangePin => 0x03,
        }
    }
}

/// Vendor configuration command identifiers.
#[derive(Debug, Clone, Copy, PartialEq, Eq, Structural)]
pub enum VendorConfigCommand {
    AuthEncryptionEnable,
    AuthEncryptionDisable,
    EnterpriseAttestationUpload,
    PinComplexityPolicy,
    PhysicalVidPid,
    PhysicalLedBrightness,
    PhysicalLedGpio,
    PhysicalOptions,
}

impl VendorConfigCommand {
    pub open spec fn spec_value(&self) -> u64 {
        match self {
            VendorConfigCommand::AuthEncryptionEnable => 0x03e43f56b34285e2,
            VendorConfigCommand::AuthEncryptionDisable => 0x1831a40f04a25ed9,
            VendorConfigCommand::EnterpriseAttestationUpload => 0x66f2a674c29a8dcf,
            VendorConfigCommand::PinComplexityPolicy => 0x6c07d70fe96c3897,
            VendorConfigCommand::PhysicalVidPid => 0x6fcb19b0cbe3acfa,
            VendorConfigCommand::PhysicalLedBrightness => 0x76a85945985d02fd,
            VendorConfigCommand::PhysicalLedGpio => 0x7b392a394de9f948,
            VendorConfigCommand::PhysicalOptions => 0x269f3b09eceb805f,
        }
    }

    /// The number this item stands for on the wire.
    #[verifier::when_used_as_spec(spec_value)]
    pub fn value(&self) -> (r: u64)
        ensures
            r == self.spec_value(),
    {
        match self {
            VendorConfigCommand::AuthEncryptionEnable => 0x03e43f56b34285e2,
            VendorConfigCommand::AuthEncryptionDisable => 0x1831a40f04a25ed9,
            VendorConfigCommand::EnterpriseAttestationUpload => 0x66f2a674c29a8dcf,
            VendorConfigCommand::PinComplexityPolicy => 0x6c07d70fe96c3897,
            VendorConfigCommand::PhysicalVidPid => 0x6fcb19b0cbe3acfa,
            VendorConfigCommand::PhysicalLedBrightness => 0x76a85945985d02fd,
            VendorConfigCommand::PhysicalLedGpio => 0x7b392a394de9f948,
            VendorConfigCommand::PhysicalOptions => 0x269f3b09eceb805f,
        }
    }
}

/// Certification identifiers reported in GetInfo.
#[derive(Debug, Clone, Copy, PartialEq, Eq, Structural)]
pub enum FidoCertification {
    AuthEncryption,
    AuthEncryptionLock,
    EnterpriseAttestation,
    PinComplexity,
    PhysicalVidPid,
    LedBrightness,
    LedGpio,
    PhysicalOptions,
}

impl FidoCertification {
    pub open spec fn spec_value(&self) -> u64 {
        match self {
            FidoCertification::AuthEncryption => 0x03E43F56B34285E2,
            FidoCertification::AuthEncryptionLock => 0x1831A40F04A25ED9,
            FidoCertification::EnterpriseAttestation => 0x66F2A674C29A8DCF,
            FidoCertification::PinComplexity => 0x6C07D70FE96C3897,
            FidoCertification::PhysicalVidPid => 0x6FCB19B0CBE3ACFA,
            FidoCertification::LedBrightness => 0x76A85945985D02FD,
            FidoCertification::LedGpio => 0x7B392A394DE9F948,
            FidoCertification::PhysicalOptions => 0x269F3B09ECEB805F,
        }
    }

    /// The number this item stands for on the wire.
    #[verifier::when_used_as_spec(spec_value)]
    pub fn value(&self) -> (r: u64)
        ensures
            r == self.spec_value(),
    {
        match self {
            FidoCertification::AuthEncryption => 0x03E43F56B34285E2,
            FidoCertification::AuthEncryptionLock => 0x1831A40F04A25ED9,
            FidoCertification::EnterpriseAttestation => 0x66F2A674C29A8DCF,
            FidoCertification::PinComplexity => 0x6C07D70FE96C3897,
            FidoCertification::PhysicalVidPid => 0x6FCB19B0CBE3ACFA,
            FidoCertification::LedBrightness => 0x76A85945985D02FD,
            FidoCertification::LedGpio => 0x7B392A394DE9F948,
            FidoCertification::PhysicalOptions => 0x269F3B09ECEB805F,
        }
    }
}

/// Backup vendor subcommands.
#[derive(Debug, Clone, Copy, PartialEq, Eq, Structural)]
pub enum BackupSubCommand {
    GetEncryptedBackup,
    RestoreEncryptedBackup,
}

impl BackupSubCommand {
    pub open spec fn spec_value(&self) -> u8 {
        match self {
            BackupSubCommand::GetEncryptedBackup => 0x01,
            BackupSubCommand::RestoreEncryptedBackup => 0x02,
        }
    }

    /// The number this item stands for on the wire.
    #[verifier::when_used_as_spec(spec_value)]
    pub fn value(&self) -> (r: u8)
        ensures
            r == self.spec_value(),
    {
        match self {
            BackupSubCommand::GetEncryptedBackup => 0x01,
            BackupSubCommand::RestoreEncryptedBackup => 0x02,
        }
    }
}

/// Security environment vendor subcommands.
#[derive(Debug, Clone, Copy, PartialEq, Eq, Structural)]
pub enum MseSubCommand {
    KeyAgreement,
}

impl MseSubCommand {
    pub open spec fn spec_value(&self) -> u8 {
        match self {
            MseSubCommand::KeyAgreement => 0x01,
        }
    }

    /// The number this item stands for on the wire.
    #[verifier::when_used_as_spec(spec_value)]
    pub fn value(&self) -> (r: u8)
        ensures
            r == self.spec_value(),
    {
        match self {
            MseSubCommand::KeyAgreement => 0x01,
        }
    }
}

/// Enterprise attestation vendor subcommands.
#[derive(Debug, Clone, Copy, PartialEq, Eq, Structural)]
pub enum EnterpriseAttestationSubCommand {
    GenerateCsr,
}

impl EnterpriseAttestationSubCommand {
    pub open spec fn spec_value(&self) -> u8 {
        match self {
            EnterpriseAttestationSubCommand::GenerateCsr => 0x01,
        }
    }

    /// The number this item stands for on the wire.
    #[verifier::when_used_as_spec(spec_value)]
    pub fn value(&self) -> (r: u8)
        ensures
            r == self.spec_value(),
    {
        match self {
            EnterpriseAttestationSubCommand::GenerateCsr => 0x01,
        }
    }
}

/// Physical options vendor subcommands.
#[derive(Debug, Clone, Copy, PartialEq, Eq, Structural)]
pub enum PhysicalOptionsSubCommand {
    GetOptions,
}

impl PhysicalOptionsSubCommand {
    pub open spec fn spec_value(&self) -> u8 {
        match self {
            PhysicalOptionsSubCommand::GetOptions => 0x01,
        }
    }

    /// The number this item stands for on the wire.
    #[verifier::when_used_as_spec(spec_value)]
    pub fn value(&self) -> (r: u8)
        ensures
            r == self.spec_value(),
    {
        match self {
            PhysicalOptionsSubCommand::GetOptions => 0x01,
        }
    }
}

/// Memory vendor subcommands.
#[derive(Debug, Clone, Copy, PartialEq, Eq, Structural)]
pub enum MemorySubCommand {
    GetStats,
}

impl MemorySubCommand {
    pub open spec fn spec_value(&self) -> u8 {
        match self {
            MemorySubCommand::GetStats => 0x01,
        }
    }

    /// The number this item stands for on the wire.
    #[verifier::when_used_as_spec(spec_value)]
    pub fn value(&self) -> (r: u8)
        ensures
            r == self.spec_value(),
    {
        match self {
            MemorySubCommand::GetStats => 0x01,
        }
    }
}

/// Keys of the memory statistics response.
#[derive(Debug, Clone, Copy, PartialEq, Eq, Structural)]
pub enum MemoryResponseKey {
    FreeSpace,
    UsedSpace,
    TotalSpace,
    NumFiles,
    FlashSize,
}

impl MemoryResponseKey {
    pub open spec fn spec_value(&self) -> u8 {
        match self {
            MemoryResponseKey::FreeSpace => 0x01,
            MemoryResponseKey::UsedSpace => 0x02,
            MemoryResponseKey::TotalSpace => 0x03,
            MemoryResponseKey::NumFiles => 0x04,
            MemoryResponseKey::FlashSize => 0x05,
        }
    }

    /// The number this item stands for on the wire.
    #[verifier::when_used_as_spec(spec_value)]
    pub fn value(&self) -> (r: u8)
        ensures
            r == self.spec_value(),
    {
        match self {
            MemoryResponseKey::FreeSpace => 0x01,
            MemoryResponseKey::UsedSpace => 0x02,
            MemoryResponseKey::TotalSpace => 0x03,
            MemoryResponseKey::NumFiles => 0x04,
            MemoryResponseKey::FlashSize => 0x05,
        }
    }
}

/// COSE algorithm identifiers.
#[derive(Debug, Clone, Copy, PartialEq, Eq, Structural)]
pub enum CoseAlgorithm {
    ES256,
    EdDSA,
    ESP256,
    Ed25519,
    EcdhEsHkdf256,
    ES384,
    ES512,
    ES256K,
    ESP384,
    ESP512,
    Ed448,
    RS256,
    RS384,
    RS512,
    ESB256,
    ESB384,
    ESB512,
}

impl CoseAlgorithm {
    pub open spec fn spec_value(&self) -> i32 {
        match self {
            CoseAlgorithm::ES256 => -7i32,
            CoseAlgorithm::EdDSA => -8i32,
            CoseAlgorithm::ESP256 => -9i32,
            CoseAlgorithm::Ed25519 => -19i32,
            CoseAlgorithm::EcdhEsHkdf256 => -25i32,
            CoseAlgorithm::ES384 => -35i32,
            CoseAlgorithm::ES512 => -36i32,
            CoseAlgorithm::ES256K => -47i32,
            CoseAlgorithm::ESP384 => -51i32,
            CoseAlgorithm::ESP512 => -52i32,
            CoseAlgorithm::Ed448 => -53i32,
            CoseAlgorithm::RS256 => -257i32,
            CoseAlgorithm::RS384 => -258i32,
            CoseAlgorithm::RS512 => -259i32,
            CoseAlgorithm::ESB256 => -265i32,
            CoseAlgorithm::ESB384 => -267i32,
            CoseAlgorithm::ESB512 => -268i32,
        }
    }

    /// The number this item stands for on the wire.
    #[verifier::when_used_as_spec(spec_value)]
    pub fn value(&self) -> (r: i32)
        ensures
            r == self.spec_value(),
    {
        match self {
            CoseAlgorithm::ES256 => -7i32,
            CoseAlgorithm::EdDSA => -8i32,
            CoseAlgorithm::ESP256 => -9i32,
            CoseAlgorithm::Ed25519 => -19i32,
            CoseAlgorithm::EcdhEsHkdf256 => -25i32,
            CoseAlgorithm::ES384 => -35i32,
            CoseAlgorithm::ES512 => -36i32,
            CoseAlgorithm::ES256K => -47i32,
            CoseAlgorithm::ESP384 => -51i32,
            CoseAlgorithm::ESP512 => -52i32,
            CoseAlgorithm::Ed448 => -53i32,
            CoseAlgorithm::RS256 => -257i32,
            CoseAlgorithm::RS384 => -258i32,
            CoseAlgorithm::RS512 => -259i32,
            CoseAlgorithm::ESB256 => -265i32,
            CoseAlgorithm::ESB384 => -267i32,
            CoseAlgorithm::ESB512 => -268i32,
        }
    }
}

/// COSE elliptic curve identifiers.
#[derive(Debug, Clone, Copy, PartialEq, Eq, Structural)]
pub enum CoseCurve {
    P256,
    P384,
    P521,
    X25519,
    X448,
    Ed25519,
    Ed448,
    P256K1,
    BP256R1,
    BP384R1,
    BP512R1,
}

impl CoseCurve {
    pub open spec fn spec_value(&self) -> u8 {
        match self {
            CoseCurve::P256 => 1,
            CoseCurve::P384 => 2,
            CoseCurve::P521 => 3,
            CoseCurve::X25519 => 4,
            CoseCurve::X448 => 5,
            CoseCurve::Ed25519 => 6,
            CoseCurve::Ed448 => 7,
            CoseCurve::P256K1 => 8,
            CoseCurve::BP256R1 => 9,
            CoseCurve::BP384R1 => 10,
            CoseCurve::BP512R1 => 11,
        }
    }

    /// The number this item stands for on the wire.
    #[verifier::when_used_as_spec(spec_value)]
    pub fn value(&self) -> (r: u8)
        ensures
            r == self.spec_value(),
    {
        match self {
            CoseCurve::P256 => 1,
            CoseCurve::P384 => 2,
            CoseCurve::P521 => 3,
            CoseCurve::X25519 => 4,
            CoseCurve::X448 => 5,
            CoseCurve::Ed25519 => 6,
            CoseCurve::Ed448 => 7,
            CoseCurve::P256K1 => 8,
            CoseCurve::BP256R1 => 9,
            CoseCurve::BP384R1 => 10,
            CoseCurve::BP512R1 => 11,
        }
    }
}

/// COSE key map labels.
#[derive(Debug, Clone, Copy, PartialEq, Eq, Structural)]
pub enum CoseKeyParam {
    Kty,
    Kid,
    Alg,
    KeyOps,
    BaseIV,
    Crv,
    X,
    Y,
    D,
}

impl CoseKeyParam {
    pub open spec fn spec_value(&self) -> i32 {
        match self {
            CoseKeyParam::Kty => 1,
            CoseKeyParam::Kid => 2,
            CoseKeyParam::Alg => 3,
            CoseKeyParam::KeyOps => 4,
            CoseKeyParam::BaseIV => 5,
            CoseKeyParam::Crv => -1i32,
            CoseKeyParam::X => -2i32,
            CoseKeyParam::Y => -3i32,
            CoseKeyParam::D => -4i32,
        }
    }

    /// The number this item stands for on the wire.
    #[verifier::when_used_as_spec(spec_value)]
    pub fn value(&self) -> (r: i32)
        ensures
            r == self.spec_value(),
    {
        match self {
            CoseKeyParam::Kty => 1,
            CoseKeyParam::Kid => 2,
            CoseKeyParam::Alg => 3,
            CoseKeyParam::KeyOps => 4,
            CoseKeyParam::BaseIV => 5,
            CoseKeyParam::Crv => -1i32,
            CoseKeyParam::X => -2i32,
            CoseKeyParam::Y => -3i32,
            CoseKeyParam::D => -4i32,
        }
    }
}

/// CTAP2 status codes.
#[derive(Debug, Clone, Copy, PartialEq, Eq, Structural)]
pub enum Ctap2Error {
    Success,
    CborUnexpectedType,
    InvalidCbor,
    MissingParameter,
    LimitExceeded,
    FpDatabaseFull,
    LargeBlobStorageFull,
    CredentialExcluded,
    Processing,
    InvalidCredential,
    UserActionPending,
    OperationPending,
    NoOperations,
    UnsupportedAlgorithm,
    OperationDenied,
    KeyStoreFull,
    UnsupportedOption,
    InvalidOption,
    KeepaliveCancel,
    NoCredentials,
    UserActionTimeout,
    NotAllowed,
    PinInvalid,
    PinBlocked,
    PinAuthInvalid,
    PinAuthBlocked,
    PinNotSet,
    PuatRequired,
    PinPolicyViolation,
    RequestTooLarge,
    ActionTimeout,
    UpRequired,
    UvBlocked,
    IntegrityFailure,
    InvalidSubcommand,
    UvInvalid,
    UnauthorizedPermission,
}

impl Ctap2Error {
    pub open spec fn spec_value(&self) -> u8 {
        match self {
            Ctap2Error::Success => 0x00,
            Ctap2Error::CborUnexpectedType => 0x11,
            Ctap2Error::InvalidCbor => 0x12,
            Ctap2Error::MissingParameter => 0x14,
            Ctap2Error::LimitExceeded => 0x15,
            Ctap2Error::FpDatabaseFull => 0x17,
            Ctap2Error::LargeBlobStorageFull => 0x18,
            Ctap2Error::CredentialExcluded => 0x19,
            Ctap2Error::Processing => 0x21,
            Ctap2Error::InvalidCredential => 0x22,
            Ctap2Error::UserActionPending => 0x23,
            Ctap2Error::OperationPending => 0x24,
            Ctap2Error::NoOperations => 0x25,
            Ctap2Error::UnsupportedAlgorithm => 0x26,
            Ctap2Error::OperationDenied => 0x27,
            Ctap2Error::KeyStoreFull => 0x28,
            Ctap2Error::UnsupportedOption => 0x2B,
            Ctap2Error::InvalidOption => 0x2C,
            Ctap2Error::KeepaliveCancel => 0x2D,
            Ctap2Error::NoCredentials => 0x2E,
            Ctap2Error::UserActionTimeout => 0x2F,
            Ctap2Error::NotAllowed => 0x30,
            Ctap2Error::PinInvalid => 0x31,
            Ctap2Error::PinBlocked => 0x32,
            Ctap2Error::PinAuthInvalid => 0x33,
            Ctap2Error::PinAuthBlocked => 0x34,
            Ctap2Error::PinNotSet => 0x35,
            Ctap2Error::PuatRequired => 0x36,
            Ctap2Error::PinPolicyViolation => 0x37,
            Ctap2Error::RequestTooLarge => 0x39,
            Ctap2Error::ActionTimeout => 0x3A,
            Ctap2Error::UpRequired => 0x3B,
            Ctap2Error::UvBlocked => 0x3C,
            Ctap2Error::IntegrityFailure => 0x3D,
            Ctap2Error::InvalidSubcommand => 0x3E,
            Ctap2Error::UvInvalid => 0x3F,
            Ctap2Error::UnauthorizedPermission => 0x40,
        }
    }

    /// The number this item stands for on the wire.
    #[verifier::when_used_as_spec(spec_value)]
    pub fn value(&self) -> (r: u8)
        ensures
            r == self.spec_value(),
    {
        match self {
            Ctap2Error::Success => 0x00,
            Ctap2Error::CborUnexpectedType => 0x11,
            Ctap2Error::InvalidCbor => 0x12,
            Ctap2Error::MissingParameter => 0x14,
            Ctap2Error::LimitExceeded => 0x15,
            Ctap2Error::FpDatabaseFull => 0x17,
            Ctap2Error::LargeBlobStorageFull => 0x18,
            Ctap2Error::CredentialExcluded => 0x19,
            Ctap2Error::Processing => 0x21,
            Ctap2Error::InvalidCredential => 0x22,
            Ctap2Error::UserActionPending => 0x23,
            Ctap2Error::OperationPending => 0x24,
            Ctap2Error::NoOperations => 0x25,
            Ctap2Error::UnsupportedAlgorithm => 0x26,
            Ctap2Error::OperationDenied => 0x27,
            Ctap2Error::KeyStoreFull => 0x28,
            Ctap2Error::UnsupportedOption => 0x2B,
            Ctap2Error::InvalidOption => 0x2C,
            Ctap2Error::KeepaliveCancel => 0x2D,
            Ctap2Error::NoCredentials => 0x2E,
            Ctap2Error::UserActionTimeout => 0x2F,
            Ctap2Error::NotAllowed => 0x30,
            Ctap2Error::PinInvalid => 0x31,
            Ctap2Error::PinBlocked => 0x32,
            Ctap2Error::PinAuthInvalid => 0x33,
            Ctap2Error::PinAuthBlocked => 0x34,
            Ctap2Error::PinNotSet => 0x35,
            Ctap2Error::PuatRequired => 0x36,
            Ctap2Error::PinPolicyViolation => 0x37,
            Ctap2Error::RequestTooLarge => 0x39,
            Ctap2Error::ActionTimeout => 0x3A,
            Ctap2Error::UpRequired => 0x3B,
            Ctap2Error::UvBlocked => 0x3C,
            Ctap2Error::IntegrityFailure => 0x3D,
            Ctap2Error::InvalidSubcommand => 0x3E,
            Ctap2Error::UvInvalid => 0x3F,
            Ctap2Error::UnauthorizedPermission => 0x40,
        }
    }
}

impl VendorConfigCommand {
    /// The item whose number is `v`, if there is one.
    pub open spec fn spec_from_value(v: u64) -> Option<Self> {
        if exists|c: Self| c.spec_value() == v {
            Some(choose|c: Self| c.spec_value() == v)
        } else {
            None
        }
    }

    /// The command whose identifier is `val`.
    pub fn from_u64(val: u64) -> (r: Option<Self>)
        ensures
            r == Self::spec_from_value(val),
    {
        let v: u64 = val;
        let r = match v {
            0x03e43f56b34285e2 => Some(VendorConfigCommand::AuthEncryptionEnable),
            0x1831a40f04a25ed9 => Some(VendorConfigCommand::AuthEncryptionDisable),
            0x66f2a674c29a8dcf => Some(VendorConfigCommand::EnterpriseAttestationUpload),
            0x6c07d70fe96c3897 => Some(VendorConfigCommand::PinComplexityPolicy),
            0x6fcb19b0cbe3acfa => Some(VendorConfigCommand::PhysicalVidPid),
            0x76a85945985d02fd => Some(VendorConfigCommand::PhysicalLedBrightness),
            0x7b392a394de9f948 => Some(VendorConfigCommand::PhysicalLedGpio),
            0x269f3b09eceb805f => Some(VendorConfigCommand::PhysicalOptions),
            _ => None,
        };
        proof {
            match r {
                Some(x) => {
                    assert(x.spec_value() == v);
                    assert forall|c: Self| c.spec_value() == v implies c == x by {
                        match c {
                            VendorConfigCommand::AuthEncryptionEnable => {},
                            VendorConfigCommand::AuthEncryptionDisable => {},
                            VendorConfigCommand::EnterpriseAttestationUpload => {},
                            VendorConfigCommand::PinComplexityPolicy => {},
                            VendorConfigCommand::PhysicalVidPid => {},
                            VendorConfigCommand::PhysicalLedBrightness => {},
                            VendorConfigCommand::PhysicalLedGpio => {},
                            VendorConfigCommand::PhysicalOptions => {},
                        }
                    }
                },
                None => {
                    assert forall|c: Self| c.spec_value() != v by {
                        match c {
                            VendorConfigCommand::AuthEncryptionEnable => {},
                            VendorConfigCommand::AuthEncryptionDisable => {},
                            VendorConfigCommand::EnterpriseAttestationUpload => {},
                            VendorConfigCommand::PinComplexityPolicy => {},
                            VendorConfigCommand::PhysicalVidPid => {},
                            VendorConfigCommand::PhysicalLedBrightness => {},
                            VendorConfigCommand::PhysicalLedGpio => {},
                            VendorConfigCommand::PhysicalOptions => {},
                        }
                    }
                },
            }
        }
        r
    }

    pub open spec fn spec_name(&self) -> Seq<char> {
        match self {
            VendorConfigCommand::AuthEncryptionEnable => "AuthEncryptionEnable"@,
            VendorConfigCommand::AuthEncryptionDisable => "AuthEncryptionDisable"@,
            VendorConfigCommand::EnterpriseAttestationUpload => "EnterpriseAttestationUpload"@,
            VendorConfigCommand::PinComplexityPolicy => "PinComplexityPolicy"@,
            VendorConfigCommand::PhysicalVidPid => "PhysicalVidPid"@,
            VendorConfigCommand::PhysicalLedBrightness => "PhysicalLedBrightness"@,
            VendorConfigCommand::PhysicalLedGpio => "PhysicalLedGpio"@,
            VendorConfigCommand::PhysicalOptions => "PhysicalOptions"@,
        }
    }

    /// The name shown to users.
    pub fn name(&self) -> (r: &'static str)
        ensures
            r@ == self.spec_name(),
    {
        match self {
            VendorConfigCommand::AuthEncryptionEnable => "AuthEncryptionEnable",
            VendorConfigCommand::AuthEncryptionDisable => "AuthEncryptionDisable",
            VendorConfigCommand::EnterpriseAttestationUpload => "EnterpriseAttestationUpload",
            VendorConfigCommand::PinComplexityPolicy => "PinComplexityPolicy",
            VendorConfigCommand::PhysicalVidPid => "PhysicalVidPid",
            VendorConfigCommand::PhysicalLedBrightness => "PhysicalLedBrightness",
            VendorConfigCommand::PhysicalLedGpio => "PhysicalLedGpio",
            VendorConfigCommand::PhysicalOptions => "PhysicalOptions",
        }
    }
}

impl FidoCertification {
    /// The item whose number is `v`, if there is one.
    pub open spec fn spec_from_value(v: u64) -> Option<Self> {
        if exists|c: Self| c.spec_value() == v {
            Some(choose|c: Self| c.spec_value() == v)
        } else {
            None
        }
    }

    /// The certification whose identifier is `val`.
    pub fn from_u64(val: u64) -> (r: Option<Self>)
        ensures
            r == Self::spec_from_value(val),
    {
        let v: u64 = val;
        let r = match v {
            0x03E43F56B34285E2 => Some(FidoCertification::AuthEncryption),
            0x1831A40F04A25ED9 => Some(FidoCertification::AuthEncryptionLock),
            0x66F2A674C29A8DCF => Some(FidoCertification::EnterpriseAttestation),
            0x6C07D70FE96C3897 => Some(FidoCertification::PinComplexity),
            0x6FCB19B0CBE3ACFA => Some(FidoCertification::PhysicalVidPid),
            0x76A85945985D02FD => Some(FidoCertification::LedBrightness),
            0x7B392A394DE9F948 => Some(FidoCertification::LedGpio),
            0x269F3B09ECEB805F => Some(FidoCertification::PhysicalOptions),
            _ => None,
        };
        proof {
            match r {
                Some(x) => {
                    assert(x.spec_value() == v);
                    assert forall|c: Self| c.spec_value() == v implies c == x by {
                        match c {
                            FidoCertification::AuthEncryption => {},
                            FidoCertification::AuthEncryptionLock => {},
                            FidoCertification::EnterpriseAttestation => {},
                            FidoCertification::PinComplexity => {},
                            FidoCertification::PhysicalVidPid => {},
                            FidoCertification::LedBrightness => {},
                            FidoCertification::LedGpio => {},
                            FidoCertification::PhysicalOptions => {},
                        }
                    }
                },
                None => {
                    assert forall|c: Self| c.spec_value() != v by {
                        match c {
                            FidoCertification::AuthEncryption => {},
                            FidoCertification::AuthEncryptionLock => {},
                            FidoCertification::EnterpriseAttestation => {},
                            FidoCertification::PinComplexity => {},
                            FidoCertification::PhysicalVidPid => {},
                            FidoCertification::LedBrightness => {},
                            FidoCertification::LedGpio => {},
                            FidoCertification::PhysicalOptions => {},
                        }
                    }
                },
            }
        }
        r
    }

    pub open spec fn spec_name(&self) -> Seq<char> {
        match self {
            FidoCertification::AuthEncryption => "Auth Encryption"@,
            FidoCertification::AuthEncryptionLock => "Auth Encryption (Lock)"@,
            FidoCertification::EnterpriseAttestation => "Enterprise Attestation"@,
            FidoCertification::PinComplexity => "PIN Complexity"@,
            FidoCertification::PhysicalVidPid => "Physical VID/PID"@,
            FidoCertification::LedBrightness => "LED Brightness"@,
            FidoCertification::LedGpio => "LED GPIO"@,
            FidoCertification::PhysicalOptions => "Physical Options"@,
        }
    }

    /// The name shown to users.
    pub fn name(&self) -> (r: &'static str)
        ensures
            r@ == self.spec_name(),
    {
        match self {
            FidoCertification::AuthEncryption => "Auth Encryption",
            FidoCertification::AuthEncryptionLock => "Auth Encryption (Lock)",
            FidoCertification::EnterpriseAttestation => "Enterprise Attestation",
            FidoCertification::PinComplexity => "PIN Complexity",
            FidoCertification::PhysicalVidPid => "Physical VID/PID",
            FidoCertification::LedBrightness => "LED Brightness",
            FidoCertification::LedGpio => "LED GPIO",
            FidoCertification::PhysicalOptions => "Physical Options",
        }
    }
}

impl CoseAlgorithm {
    /// The item whose number is `v`, if there is one.
    pub open spec fn spec_from_value(v: i32) -> Option<Self> {
        if exists|c: Self| c.spec_value() == v {
            Some(choose|c: Self| c.spec_value() == v)
        } else {
            None
        }
    }

    /// The algorithm whose identifier is `val` truncated to 32 bits, as `val as i32` gives.
    pub fn from_i128(val: i128) -> (r: Option<Self>)
        ensures
            r == Self::spec_from_value(val as i32),
    {
        let v: i32 = val as i32;
        let r = match v {
            -7 => Some(CoseAlgorithm::ES256),
            -8 => Some(CoseAlgorithm::EdDSA),
            -9 => Some(CoseAlgorithm::ESP256),
            -19 => Some(CoseAlgorithm::Ed25519),
            -25 => Some(CoseAlgorithm::EcdhEsHkdf256),
            -35 => Some(CoseAlgorithm::ES384),
            -36 => Some(CoseAlgorithm::ES512),
            -47 => Some(CoseAlgorithm::ES256K),
            -51 => Some(CoseAlgorithm::ESP384),
            -52 => Some(CoseAlgorithm::ESP512),
            -53 => Some(CoseAlgorithm::Ed448),
            -257 => Some(CoseAlgorithm::RS256),
            -258 => Some(CoseAlgorithm::RS384),
            -259 => Some(CoseAlgorithm::RS512),
            -265 => Some(CoseAlgorithm::ESB256),
            -267 => Some(CoseAlgorithm::ESB384),
            -268 => Some(CoseAlgorithm::ESB512),
            _ => None,
        };
        proof {
            match r {
                Some(x) => {
                    assert(x.spec_value() == v);
                    assert forall|c: Self| c.spec_value() == v implies c == x by {
                        match c {
                            CoseAlgorithm::ES256 => {},
                            CoseAlgorithm::EdDSA => {},
                            CoseAlgorithm::ESP256 => {},
                            CoseAlgorithm::Ed25519 => {},
                            CoseAlgorithm::EcdhEsHkdf256 => {},
                            CoseAlgorithm::ES384 => {},
                            CoseAlgorithm::ES512 => {},
                            CoseAlgorithm::ES256K => {},
                            CoseAlgorithm::ESP384 => {},
                            CoseAlgorithm::ESP512 => {},
                            CoseAlgorithm::Ed448 => {},
                            CoseAlgorithm::RS256 => {},
                            CoseAlgorithm::RS384 => {},
                            CoseAlgorithm::RS512 => {},
                            CoseAlgorithm::ESB256 => {},
                            CoseAlgorithm::ESB384 => {},
                            CoseAlgorithm::ESB512 => {},
                        }
                    }
                },
                None => {
                    assert forall|c: Self| c.spec_value() != v by {
                        match c {
                            CoseAlgorithm::ES256 => {},
                            CoseAlgorithm::EdDSA => {},
                            CoseAlgorithm::ESP256 => {},
                            CoseAlgorithm::Ed25519 => {},
                            CoseAlgorithm::EcdhEsHkdf256 => {},
                            CoseAlgorithm::ES384 => {},
                            CoseAlgorithm::ES512 => {},
                            CoseAlgorithm::ES256K => {},
                            CoseAlgorithm::ESP384 => {},
                            CoseAlgorithm::ESP512 => {},
                            CoseAlgorithm::Ed448 => {},
                            CoseAlgorithm::RS256 => {},
                            CoseAlgorithm::RS384 => {},
                            CoseAlgorithm::RS512 => {},
                            CoseAlgorithm::ESB256 => {},
                            CoseAlgorithm::ESB384 => {},
                            CoseAlgorithm::ESB512 => {},
                        }
                    }
                },
            }
        }
        r
    }

    pub open spec fn spec_name(&self) -> Seq<char> {
        match self {
            CoseAlgorithm::ES256 => "ES256"@,
            CoseAlgorithm::EdDSA => "EdDSA"@,
            CoseAlgorithm::ESP256 => "ESP256"@,
            CoseAlgorithm::Ed25519 => "Ed25519"@,
            CoseAlgorithm::EcdhEsHkdf256 => "ECDH-ES-HKDF-256"@,
            CoseAlgorithm::ES384 => "ES384"@,
            CoseAlgorithm::ES512 => "ES512"@,
            CoseAlgorithm::ES256K => "ES256K"@,
            CoseAlgorithm::ESP384 => "ESP384"@,
            CoseAlgorithm::ESP512 => "ESP512"@,
            CoseAlgorithm::Ed448 => "Ed448"@,
            CoseAlgorithm::RS256 => "RS256"@,
            CoseAlgorithm::RS384 => "RS384"@,
            CoseAlgorithm::RS512 => "RS512"@,
            CoseAlgorithm::ESB256 => "ESB256"@,
            CoseAlgorithm::ESB384 => "ESB384"@,
            CoseAlgorithm::ESB512 => "ESB512"@,
        }
    }

    /// The name shown to users.
    pub fn name(&self) -> (r: &'static str)
        ensures
            r@ == self.spec_name(),
    {
        match self {
            CoseAlgorithm::ES256 => "ES256",
            CoseAlgorithm::EdDSA => "EdDSA",
            CoseAlgorithm::ESP256 => "ESP256",
            CoseAlgorithm::Ed25519 => "Ed25519",
            CoseAlgorithm::EcdhEsHkdf256 => "ECDH-ES-HKDF-256",
            CoseAlgorithm::ES384 => "ES384",
            CoseAlgorithm::ES512 => "ES512",
            CoseAlgorithm::ES256K => "ES256K",
            CoseAlgorithm::ESP384 => "ESP384",
            CoseAlgorithm::ESP512 => "ESP512",
            CoseAlgorithm::Ed448 => "Ed448",
            CoseAlgorithm::RS256 => "RS256",
            CoseAlgorithm::RS384 => "RS384",
            CoseAlgorithm::RS512 => "RS512",
            CoseAlgorithm::ESB256 => "ESB256",
            CoseAlgorithm::ESB384 => "ESB384",
            CoseAlgorithm::ESB512 => "ESB512",
        }
    }
}

impl FidoCertification {
    /// The certification named by the hexadecimal text `val`, with or
    /// without a leading `0x`.
    pub fn from_str(val: &str) -> (r: Option<Self>)
        ensures
            r == (match spec_parse_hex_u64(strip_0x(val@)) {
                Some(v) => Self::spec_from_value(v),
                None => None,
            }),
    {
        let chars = str_chars(val);
        let digits = strip_0x_chars(chars.as_slice());
        match parse_hex_u64(digits.as_slice()) {
            Some(v) => Self::from_u64(v),
            None => None,
        }
    }
}

/// The permission bits of a pinUvAuthToken.
#[derive(Debug, Clone, Copy, PartialEq, Eq, Structural)]
pub struct PinUvAuthTokenPermissions {
    pub bits: u8,
}

impl PinUvAuthTokenPermissions {
    pub fn make_credential() -> (r: Self)
        ensures
            r.bits == 0x01,
    {
        PinUvAuthTokenPermissions { bits: 0x01 }
    }

    pub fn get_assertion() -> (r: Self)
        ensures
            r.bits == 0x02,
    {
        PinUvAuthTokenPermissions { bits: 0x02 }
    }

    pub fn credential_management() -> (r: Self)
        ensures
            r.bits == 0x04,
    {
        PinUvAuthTokenPermissions { bits: 0x04 }
    }

    pub fn bio_enrollment() -> (r: Self)
        ensures
            r.bits == 0x08,
    {
        PinUvAuthTokenPermissions { bits: 0x08 }
    }

    pub fn large_blob_write() -> (r: Self)
        ensures
            r.bits == 0x10,
    {
        PinUvAuthTokenPermissions { bits: 0x10 }
    }

    pub fn authenticator_config() -> (r: Self)
        ensures
            r.bits == 0x20,
    {
        PinUvAuthTokenPermissions { bits: 0x20 }
    }

    pub fn per_credential_mgmt_readonly() -> (r: Self)
        ensures
            r.bits == 0x40,
    {
        PinUvAuthTokenPermissions { bits: 0x40 }
    }

    /// The raw permission byte.
    pub fn bits(&self) -> (r: u8)
        ensures
            r == self.bits,
    {
        self.bits
    }
}

pub const CTAP_VENDOR_CBOR_CMD: u8 = 0xC1;
pub const CTAP_VENDOR_CONFIG_CMD: u8 = 0xC2;

pub const CTAP_APPID_SIZE: usize = 32;
pub const CTAP_CHAL_SIZE: usize = 32;
pub const CTAP_EC_KEY_SIZE: usize = 32;
pub const CTAP_EC_POINT_SIZE: usize = 65;
pub const CTAP_MAX_KH_SIZE: usize = 128;
pub const KEY_HANDLE_LEN: usize = 64;
pub const CTAP_MAX_EC_SIG_SIZE: usize = 72;
pub const CTAP_CTR_SIZE: usize = 4;

pub const MAX_PIN_RETRIES: u8 = 8;
pub const MAX_CREDENTIAL_COUNT_IN_LIST: usize = 16;
pub const MAX_CRED_ID_LENGTH: usize = 1024;
pub const MAX_RESIDENT_CREDENTIALS: usize = 256;
pub const MAX_CREDBLOB_LENGTH: usize = 128;
pub const MAX_MSG_SIZE: usize = 1024;
pub const MAX_FRAGMENT_LENGTH: usize = 960;
pub const MAX_LARGE_BLOB_SIZE: usize = 2048;

pub const AAGUID: [u8; 16] = [
    0x89, 0xFB, 0x94, 0xB7, 0x06, 0xC9, 0x36, 0x73, 0x9B, 0x7E, 0x30, 0x52, 0x6D, 0x96, 0x81, 0x45,
];


/// Each VendorConfigCommand is found again from its identifier.
pub proof fn lemma_vendor_config_command_identifier_roundtrip(c: VendorConfigCommand)
    ensures
        VendorConfigCommand::spec_from_value(c.spec_value()) == Some(c),
{
    assert forall|d: VendorConfigCommand| #[trigger] d.spec_value() == c.spec_value() implies d == c by {
        match d {
            VendorConfigCommand::AuthEncryptionEnable => {},
            VendorConfigCommand::AuthEncryptionDisable => {},
            VendorConfigCommand::EnterpriseAttestationUpload => {},
            VendorConfigCommand::PinComplexityPolicy => {},
            VendorConfigCommand::PhysicalVidPid => {},
            VendorConfigCommand::PhysicalLedBrightness => {},
            VendorConfigCommand::PhysicalLedGpio => {},
            VendorConfigCommand::PhysicalOptions => {},
        }
    }
}

/// Each FidoCertification is found again from its identifier.
pub proof fn lemma_fido_certification_identifier_roundtrip(c: FidoCertification)
    ensures
        FidoCertification::spec_from_value(c.spec_value()) == Some(c),
{
    assert forall|d: FidoCertification| #[trigger] d.spec_value() == c.spec_value() implies d == c by {
        match d {
            FidoCertification::AuthEncryption => {},
            FidoCertification::AuthEncryptionLock => {},
            FidoCertification::EnterpriseAttestation => {},
            FidoCertification::PinComplexity => {},
            FidoCertification::PhysicalVidPid => {},
            FidoCertification::LedBrightness => {},
            FidoCertification::LedGpio => {},
            FidoCertification::PhysicalOptions => {},
        }
    }
}

/// Each CoseAlgorithm is found again from its identifier.
pub proof fn lemma_cose_algorithm_identifier_roundtrip(c: CoseAlgorithm)
    ensures
        CoseAlgorithm::spec_from_value(c.spec_value()) == Some(c),
{
    assert forall|d: CoseAlgorithm| #[trigger] d.spec_value() == c.spec_value() implies d == c by {
        match d {
            CoseAlgorithm::ES256 => {},
            CoseAlgorithm::EdDSA => {},
            CoseAlgorithm::ESP256 => {},
            CoseAlgorithm::Ed25519 => {},
            CoseAlgorithm::EcdhEsHkdf256 => {},
            CoseAlgorithm::ES384 => {},
            CoseAlgorithm::ES512 => {},
            CoseAlgorithm::ES256K => {},
            CoseAlgorithm::ESP384 => {},
            CoseAlgorithm::ESP512 => {},
            CoseAlgorithm::Ed448 => {},
            CoseAlgorithm::RS256 => {},
            CoseAlgorithm::RS384 => {},
            CoseAlgorithm::RS512 => {},
            CoseAlgorithm::ESB256 => {},
            CoseAlgorithm::ESB384 => {},
            CoseAlgorithm::ESB512 => {},
        }
    }
}

} // verus!
