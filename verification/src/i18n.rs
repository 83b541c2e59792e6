//! The user interface texts in English and Chinese: the languages, the
//! keys of the texts, the two translation tables, and the translator that
//! looks texts up and fills in their arguments.
use vstd::prelude::*;

verus! {

/// A language of the user interface.
#[derive(Debug, Clone, Copy, PartialEq, Eq, Hash, Structural)]
pub enum Language {
    English,
    Chinese,
}

impl Language {
    /// The language of a language code: Chinese for "zh", "zh-CN" and
    /// "zh_CN", English for any other code.
    pub open spec fn spec_from_code(code: Seq<char>) -> Language {
        if code == "zh"@ || code == "zh-CN"@ || code == "zh_CN"@ {
            Language::Chinese
        } else {
            Language::English
        }
    }

    /// The language of a language code.
    pub fn from_code(code: &str) -> (r: Self)
        ensures
            r == Self::spec_from_code(code@),
    {
        if crate::cbor::str_eq(code, "zh") || crate::cbor::str_eq(code, "zh-CN") || crate::cbor::str_eq(code, "zh_CN") {
            Language::Chinese
        } else {
            Language::English
        }
    }

    /// The code of the language.
    pub open spec fn spec_code(&self) -> Seq<char> {
        match self {
            Language::English => "en"@,
            Language::Chinese => "zh"@,
        }
    }

    /// The code of the language.
    pub fn code(&self) -> (r: &'static str)
        ensures
            r@ == self.spec_code(),
    {
        match self {
            Language::English => "en",
            Language::Chinese => "zh",
        }
    }
}

/// The key of a user interface text.
#[derive(Debug, Clone, Copy, PartialEq, Eq, Hash, Structural)]
pub enum TranslationKey {
    AppName,
    Refresh,
    Expand,
    Collapse,
    NoDeviceConnected,
    NotAvailable,
    MenuHome,
    MenuPasskeys,
    MenuConfiguration,
    MenuSecurity,
    MenuAbout,
    MenuLogs,
    DeviceStatus,
    StatusOnline,
    StatusOnlineFido,
    StatusError,
    StatusOffline,
    HomeTitle,
    HomeDescription,
    DeviceInformation,
    Fido2Information,
    LedConfiguration,
    SecurityStatus,
    SerialNumber,
    FirmwareVersion,
    VidPid,
    ProductName,
    FlashMemory,
    Aaguid,
    FidoVersions,
    PinSet,
    ResidentKeys,
    MinPinLength,
    RemainingCredentials,
    PinSetLabel,
    NotSet,
    Supported,
    NotSupported,
    LedGpioPin,
    LedBrightness,
    PresenceTouchTimeout,
    LedDimmable,
    LedSteadyMode,
    FidoModeNotice,
    BootMode,
    SecureBoot,
    Development,
    DebugInterface,
    ReadoutLocked,
    DebugEnabled,
    SecureLock,
    Acknowledged,
    Pending,
    Yes,
    No,
    On,
    Off,
    SetAction,
    Save,
    Cancel,
    Delete,
    Edit,
    Add,
    NotificationSuccess,
    NotificationError,
    NotificationWarning,
    NotificationInfo,
    AboutTitle,
    AboutDescription,
    AboutTagline,
    CodeBy,
    Copyright,
    ConfigTitle,
    ConfigDescription,
    VendorPreset,
    VendorIdHex,
    ProductIdHex,
    LedSettings,
    LedGpio,
    LedDriver,
    LedBrightnessLabel,
    TouchTimeoutLabel,
    LedDimmableLabel,
    LedSteadyLabel,
    PowerCycleLabel,
    EnableSecp256k1Label,
    ApplyChanges,
    ApplyingConfig,
    ConfigAppliedSuccess,
    ConfigApplyFailed,
    AuthRequired,
    EnterPinToApply,
    Confirm,
    Unlock,
    PasskeysTitle,
    PasskeysDescription,
    UnlockStorage,
    LockStorage,
    EnterPinToView,
    StorageUnlocked,
    StorageLocked,
    NoCredentials,
    CredentialRpId,
    CredentialUser,
    CredentialCreated,
    DeletePasskey,
    DeleteConfirm,
    DeleteConfirmMsg,
    ChangePin,
    SetupPin,
    CurrentPin,
    NewPin,
    ConfirmNewPin,
    PinChangedSuccess,
    PinSetupSuccess,
    PinDoNotMatch,
    PinMinLength,
    UpdateMinPinLength,
    MinPinLengthUpdated,
    SecurityTitle,
    SecurityDescription,
    FeatureUnstable,
    FeatureDisabledWarning,
    LockSettings,
    EnableSecureBootLabel,
    EnableSecureBootDesc,
    SecureLockLabel,
    SecureLockDesc,
    UnderstandRisks,
    PermanentlyLockDevice,
    ActionDelete,
    ActionCancel,
    ActionUpdate,
    SetMinPinLengthDesc,
    NewPinMinChars,
    PinIsSet,
    NoPinConfigured,
    CurrentMinLength,
    UnlockToViewPasskeys,
    StoredPasskeys,
    ManageCredentialsDesc,
    Unlocked,
    CredentialsStored,
    Loading,
    Success,
    Error,
    Warning,
}

impl TranslationKey {
    /// The identifier of the key in the translation tables.
    pub open spec fn spec_as_str(&self) -> Seq<char> {
        match self {
            TranslationKey::AppName => "app.name"@,
            TranslationKey::Refresh => "action.refresh"@,
            TranslationKey::Expand => "action.expand"@,
            TranslationKey::Collapse => "action.collapse"@,
            TranslationKey::NoDeviceConnected => "device.no_device"@,
            TranslationKey::NotAvailable => "common.not_available"@,
            TranslationKey::MenuHome => "menu.home"@,
            TranslationKey::MenuPasskeys => "menu.passkeys"@,
            TranslationKey::MenuConfiguration => "menu.configuration"@,
            TranslationKey::MenuSecurity => "menu.security"@,
            TranslationKey::MenuAbout => "menu.about"@,
            TranslationKey::MenuLogs => "menu.logs"@,
            TranslationKey::DeviceStatus => "device.status"@,
            TranslationKey::StatusOnline => "device.status.online"@,
            TranslationKey::StatusOnlineFido => "device.status.online_fido"@,
            TranslationKey::StatusError => "device.status.error"@,
            TranslationKey::StatusOffline => "device.status.offline"@,
            TranslationKey::HomeTitle => "home.title"@,
            TranslationKey::HomeDescription => "home.description"@,
            TranslationKey::DeviceInformation => "card.device_info"@,
            TranslationKey::Fido2Information => "card.fido2_info"@,
            TranslationKey::LedConfiguration => "card.led_config"@,
            TranslationKey::SecurityStatus => "card.security_status"@,
            TranslationKey::SerialNumber => "device.serial"@,
            TranslationKey::FirmwareVersion => "device.firmware"@,
            TranslationKey::VidPid => "device.vid_pid"@,
            TranslationKey::ProductName => "device.product_name"@,
            TranslationKey::FlashMemory => "device.flash_memory"@,
            TranslationKey::Aaguid => "fido.aaguid"@,
            TranslationKey::FidoVersions => "fido.versions"@,
            TranslationKey::PinSet => "fido.pin_set"@,
            TranslationKey::ResidentKeys => "fido.resident_keys"@,
            TranslationKey::MinPinLength => "fido.min_pin_length"@,
            TranslationKey::RemainingCredentials => "fido.remaining_credentials"@,
            TranslationKey::PinSetLabel => "fido.pin_set_label"@,
            TranslationKey::NotSet => "status.not_set"@,
            TranslationKey::Supported => "status.supported"@,
            TranslationKey::NotSupported => "status.not_supported"@,
            TranslationKey::LedGpioPin => "led.gpio_pin"@,
            TranslationKey::LedBrightness => "led.brightness"@,
            TranslationKey::PresenceTouchTimeout => "led.touch_timeout"@,
            TranslationKey::LedDimmable => "led.dimmable"@,
            TranslationKey::LedSteadyMode => "led.steady_mode"@,
            TranslationKey::FidoModeNotice => "led.fido_mode_notice"@,
            TranslationKey::BootMode => "security.boot_mode"@,
            TranslationKey::SecureBoot => "security.secure_boot"@,
            TranslationKey::Development => "security.development"@,
            TranslationKey::DebugInterface => "security.debug_interface"@,
            TranslationKey::ReadoutLocked => "security.readout_locked"@,
            TranslationKey::DebugEnabled => "security.debug_enabled"@,
            TranslationKey::SecureLock => "security.secure_lock"@,
            TranslationKey::Acknowledged => "security.acknowledged"@,
            TranslationKey::Pending => "security.pending"@,
            TranslationKey::Yes => "common.yes"@,
            TranslationKey::No => "common.no"@,
            TranslationKey::On => "common.on"@,
            TranslationKey::Off => "common.off"@,
            TranslationKey::SetAction => "common.set"@,
            TranslationKey::Save => "action.save"@,
            TranslationKey::Cancel => "action.cancel"@,
            TranslationKey::Delete => "action.delete"@,
            TranslationKey::Edit => "action.edit"@,
            TranslationKey::Add => "action.add"@,
            TranslationKey::NotificationSuccess => "notification.success"@,
            TranslationKey::NotificationError => "notification.error"@,
            TranslationKey::NotificationWarning => "notification.warning"@,
            TranslationKey::NotificationInfo => "notification.info"@,
            TranslationKey::AboutTitle => "about.title"@,
            TranslationKey::AboutDescription => "about.description"@,
            TranslationKey::AboutTagline => "about.tagline"@,
            TranslationKey::CodeBy => "about.code_by"@,
            TranslationKey::Copyright => "about.copyright"@,
            TranslationKey::ConfigTitle => "config.title"@,
            TranslationKey::ConfigDescription => "config.description"@,
            TranslationKey::VendorPreset => "config.vendor_preset"@,
            TranslationKey::VendorIdHex => "config.vendor_id"@,
            TranslationKey::ProductIdHex => "config.product_id"@,
            TranslationKey::LedSettings => "config.led_settings"@,
            TranslationKey::LedGpio => "config.led_gpio"@,
            TranslationKey::LedDriver => "config.led_driver"@,
            TranslationKey::LedBrightnessLabel => "config.led_brightness"@,
            TranslationKey::TouchTimeoutLabel => "config.touch_timeout"@,
            TranslationKey::LedDimmableLabel => "config.led_dimmable"@,
            TranslationKey::LedSteadyLabel => "config.led_steady"@,
            TranslationKey::PowerCycleLabel => "config.power_cycle"@,
            TranslationKey::EnableSecp256k1Label => "config.enable_secp256k1"@,
            TranslationKey::ApplyChanges => "config.apply_changes"@,
            TranslationKey::ApplyingConfig => "config.applying"@,
            TranslationKey::ConfigAppliedSuccess => "config.success"@,
            TranslationKey::ConfigApplyFailed => "config.failed"@,
            TranslationKey::AuthRequired => "config.auth_required"@,
            TranslationKey::EnterPinToApply => "config.enter_pin"@,
            TranslationKey::Confirm => "action.confirm"@,
            TranslationKey::Unlock => "action.unlock"@,
            TranslationKey::PasskeysTitle => "passkeys.title"@,
            TranslationKey::PasskeysDescription => "passkeys.description"@,
            TranslationKey::UnlockStorage => "passkeys.unlock_storage"@,
            TranslationKey::LockStorage => "passkeys.lock_storage"@,
            TranslationKey::EnterPinToView => "passkeys.enter_pin"@,
            TranslationKey::StorageUnlocked => "passkeys.storage_unlocked"@,
            TranslationKey::StorageLocked => "passkeys.storage_locked"@,
            TranslationKey::NoCredentials => "passkeys.no_credentials"@,
            TranslationKey::CredentialRpId => "passkeys.rp_id"@,
            TranslationKey::CredentialUser => "passkeys.user"@,
            TranslationKey::CredentialCreated => "passkeys.created"@,
            TranslationKey::DeletePasskey => "passkeys.delete"@,
            TranslationKey::DeleteConfirm => "passkeys.delete_confirm"@,
            TranslationKey::DeleteConfirmMsg => "passkeys.delete_confirm_msg"@,
            TranslationKey::ChangePin => "passkeys.change_pin"@,
            TranslationKey::SetupPin => "passkeys.setup_pin"@,
            TranslationKey::CurrentPin => "passkeys.current_pin"@,
            TranslationKey::NewPin => "passkeys.new_pin"@,
            TranslationKey::ConfirmNewPin => "passkeys.confirm_pin"@,
            TranslationKey::PinChangedSuccess => "passkeys.pin_changed"@,
            TranslationKey::PinSetupSuccess => "passkeys.pin_setup"@,
            TranslationKey::PinDoNotMatch => "passkeys.pin_mismatch"@,
            TranslationKey::PinMinLength => "passkeys.pin_min_length"@,
            TranslationKey::UpdateMinPinLength => "passkeys.update_min_length"@,
            TranslationKey::MinPinLengthUpdated => "passkeys.min_length_updated"@,
            TranslationKey::SecurityTitle => "security_view.title"@,
            TranslationKey::SecurityDescription => "security_view.description"@,
            TranslationKey::FeatureUnstable => "security_view.feature_unstable"@,
            TranslationKey::FeatureDisabledWarning => "security_view.disabled_warning"@,
            TranslationKey::LockSettings => "security_view.lock_settings"@,
            TranslationKey::EnableSecureBootLabel => "security_view.enable_secure_boot"@,
            TranslationKey::EnableSecureBootDesc => "security_view.enable_secure_boot_desc"@,
            TranslationKey::SecureLockLabel => "security_view.secure_lock"@,
            TranslationKey::SecureLockDesc => "security_view.secure_lock_desc"@,
            TranslationKey::UnderstandRisks => "security_view.understand_risks"@,
            TranslationKey::PermanentlyLockDevice => "security_view.lock_device"@,
            TranslationKey::ActionDelete => "action.delete"@,
            TranslationKey::ActionCancel => "action.cancel"@,
            TranslationKey::ActionUpdate => "action.update"@,
            TranslationKey::SetMinPinLengthDesc => "passkeys.set_min_pin_length_desc"@,
            TranslationKey::NewPinMinChars => "passkeys.new_pin_min_chars"@,
            TranslationKey::PinIsSet => "passkeys.pin_is_set"@,
            TranslationKey::NoPinConfigured => "passkeys.no_pin_configured"@,
            TranslationKey::CurrentMinLength => "passkeys.current_min_length"@,
            TranslationKey::UnlockToViewPasskeys => "passkeys.unlock_to_view"@,
            TranslationKey::StoredPasskeys => "passkeys.stored_passkeys"@,
            TranslationKey::ManageCredentialsDesc => "passkeys.manage_credentials_desc"@,
            TranslationKey::Unlocked => "passkeys.unlocked"@,
            TranslationKey::CredentialsStored => "passkeys.credentials_stored"@,
            TranslationKey::Loading => "common.loading"@,
            TranslationKey::Success => "common.success"@,
            TranslationKey::Error => "common.error"@,
            TranslationKey::Warning => "common.warning"@,
        }
    }

    /// The identifier of the key in the translation tables.
    pub fn as_str(&self) -> (r: &'static str)
        ensures
            r@ == self.spec_as_str(),
    {
        match self {
            TranslationKey::AppName => "app.name",
            TranslationKey::Refresh => "action.refresh",
            TranslationKey::Expand => "action.expand",
            TranslationKey::Collapse => "action.collapse",
            TranslationKey::NoDeviceConnected => "device.no_device",
            TranslationKey::NotAvailable => "common.not_available",
            TranslationKey::MenuHome => "menu.home",
            TranslationKey::MenuPasskeys => "menu.passkeys",
            TranslationKey::MenuConfiguration => "menu.configuration",
            TranslationKey::MenuSecurity => "menu.security",
            TranslationKey::MenuAbout => "menu.about",
            TranslationKey::MenuLogs => "menu.logs",
            TranslationKey::DeviceStatus => "device.status",
            TranslationKey::StatusOnline => "device.status.online",
            TranslationKey::StatusOnlineFido => "device.status.online_fido",
            TranslationKey::StatusError => "device.status.error",
            TranslationKey::StatusOffline => "device.status.offline",
            TranslationKey::HomeTitle => "home.title",
            TranslationKey::HomeDescription => "home.description",
            TranslationKey::DeviceInformation => "card.device_info",
            TranslationKey::Fido2Information => "card.fido2_info",
            TranslationKey::LedConfiguration => "card.led_config",
            TranslationKey::SecurityStatus => "card.security_status",
            TranslationKey::SerialNumber => "device.serial",
            TranslationKey::FirmwareVersion => "device.firmware",
            TranslationKey::VidPid => "device.vid_pid",
            TranslationKey::ProductName => "device.product_name",
            TranslationKey::FlashMemory => "device.flash_memory",
            TranslationKey::Aaguid => "fido.aaguid",
            TranslationKey::FidoVersions => "fido.versions",
            TranslationKey::PinSet => "fido.pin_set",
            TranslationKey::ResidentKeys => "fido.resident_keys",
            TranslationKey::MinPinLength => "fido.min_pin_length",
            TranslationKey::RemainingCredentials => "fido.remaining_credentials",
            TranslationKey::PinSetLabel => "fido.pin_set_label",
            TranslationKey::NotSet => "status.not_set",
            TranslationKey::Supported => "status.supported",
            TranslationKey::NotSupported => "status.not_supported",
            TranslationKey::LedGpioPin => "led.gpio_pin",
            TranslationKey::LedBrightness => "led.brightness",
            TranslationKey::PresenceTouchTimeout => "led.touch_timeout",
            TranslationKey::LedDimmable => "led.dimmable",
            TranslationKey::LedSteadyMode => "led.steady_mode",
            TranslationKey::FidoModeNotice => "led.fido_mode_notice",
            TranslationKey::BootMode => "security.boot_mode",
            TranslationKey::SecureBoot => "security.secure_boot",
            TranslationKey::Development => "security.development",
            TranslationKey::DebugInterface => "security.debug_interface",
            TranslationKey::ReadoutLocked => "security.readout_locked",
            TranslationKey::DebugEnabled => "security.debug_enabled",
            TranslationKey::SecureLock => "security.secure_lock",
            TranslationKey::Acknowledged => "security.acknowledged",
            TranslationKey::Pending => "security.pending",
            TranslationKey::Yes => "common.yes",
            TranslationKey::No => "common.no",
            TranslationKey::On => "common.on",
            TranslationKey::Off => "common.off",
            TranslationKey::SetAction => "common.set",
            TranslationKey::Save => "action.save",
            TranslationKey::Cancel => "action.cancel",
            TranslationKey::Delete => "action.delete",
            TranslationKey::Edit => "action.edit",
            TranslationKey::Add => "action.add",
            TranslationKey::NotificationSuccess => "notification.success",
            TranslationKey::NotificationError => "notification.error",
            TranslationKey::NotificationWarning => "notification.warning",
            TranslationKey::NotificationInfo => "notification.info",
            TranslationKey::AboutTitle => "about.title",
            TranslationKey::AboutDescription => "about.description",
            TranslationKey::AboutTagline => "about.tagline",
            TranslationKey::CodeBy => "about.code_by",
            TranslationKey::Copyright => "about.copyright",
            TranslationKey::ConfigTitle => "config.title",
            TranslationKey::ConfigDescription => "config.description",
            TranslationKey::VendorPreset => "config.vendor_preset",
            TranslationKey::VendorIdHex => "config.vendor_id",
            TranslationKey::ProductIdHex => "config.product_id",
            TranslationKey::LedSettings => "config.led_settings",
            TranslationKey::LedGpio => "config.led_gpio",
            TranslationKey::LedDriver => "config.led_driver",
            TranslationKey::LedBrightnessLabel => "config.led_brightness",
            TranslationKey::TouchTimeoutLabel => "config.touch_timeout",
            TranslationKey::LedDimmableLabel => "config.led_dimmable",
            TranslationKey::LedSteadyLabel => "config.led_steady",
            TranslationKey::PowerCycleLabel => "config.power_cycle",
            TranslationKey::EnableSecp256k1Label => "config.enable_secp256k1",
            TranslationKey::ApplyChanges => "config.apply_changes",
            TranslationKey::ApplyingConfig => "config.applying",
            TranslationKey::ConfigAppliedSuccess => "config.success",
            TranslationKey::ConfigApplyFailed => "config.failed",
            TranslationKey::AuthRequired => "config.auth_required",
            TranslationKey::EnterPinToApply => "config.enter_pin",
            TranslationKey::Confirm => "action.confirm",
            TranslationKey::Unlock => "action.unlock",
            TranslationKey::PasskeysTitle => "passkeys.title",
            TranslationKey::PasskeysDescription => "passkeys.description",
            TranslationKey::UnlockStorage => "passkeys.unlock_storage",
            TranslationKey::LockStorage => "passkeys.lock_storage",
            TranslationKey::EnterPinToView => "passkeys.enter_pin",
            TranslationKey::StorageUnlocked => "passkeys.storage_unlocked",
            TranslationKey::StorageLocked => "passkeys.storage_locked",
            TranslationKey::NoCredentials => "passkeys.no_credentials",
            TranslationKey::CredentialRpId => "passkeys.rp_id",
            TranslationKey::CredentialUser => "passkeys.user",
            TranslationKey::CredentialCreated => "passkeys.created",
            TranslationKey::DeletePasskey => "passkeys.delete",
            TranslationKey::DeleteConfirm => "passkeys.delete_confirm",
            TranslationKey::DeleteConfirmMsg => "passkeys.delete_confirm_msg",
            TranslationKey::ChangePin => "passkeys.change_pin",
            TranslationKey::SetupPin => "passkeys.setup_pin",
            TranslationKey::CurrentPin => "passkeys.current_pin",
            TranslationKey::NewPin => "passkeys.new_pin",
            TranslationKey::ConfirmNewPin => "passkeys.confirm_pin",
            TranslationKey::PinChangedSuccess => "passkeys.pin_changed",
            TranslationKey::PinSetupSuccess => "passkeys.pin_setup",
            TranslationKey::PinDoNotMatch => "passkeys.pin_mismatch",
            TranslationKey::PinMinLength => "passkeys.pin_min_length",
            TranslationKey::UpdateMinPinLength => "passkeys.update_min_length",
            TranslationKey::MinPinLengthUpdated => "passkeys.min_length_updated",
            TranslationKey::SecurityTitle => "security_view.title",
            TranslationKey::SecurityDescription => "security_view.description",
            TranslationKey::FeatureUnstable => "security_view.feature_unstable",
            TranslationKey::FeatureDisabledWarning => "security_view.disabled_warning",
            TranslationKey::LockSettings => "security_view.lock_settings",
            TranslationKey::EnableSecureBootLabel => "security_view.enable_secure_boot",
            TranslationKey::EnableSecureBootDesc => "security_view.enable_secure_boot_desc",
            TranslationKey::SecureLockLabel => "security_view.secure_lock",
            TranslationKey::SecureLockDesc => "security_view.secure_lock_desc",
            TranslationKey::UnderstandRisks => "security_view.understand_risks",
            TranslationKey::PermanentlyLockDevice => "security_view.lock_device",
            TranslationKey::ActionDelete => "action.delete",
            TranslationKey::ActionCancel => "action.cancel",
            TranslationKey::ActionUpdate => "action.update",
            TranslationKey::SetMinPinLengthDesc => "passkeys.set_min_pin_length_desc",
            TranslationKey::NewPinMinChars => "passkeys.new_pin_min_chars",
            TranslationKey::PinIsSet => "passkeys.pin_is_set",
            TranslationKey::NoPinConfigured => "passkeys.no_pin_configured",
            TranslationKey::CurrentMinLength => "passkeys.current_min_length",
            TranslationKey::UnlockToViewPasskeys => "passkeys.unlock_to_view",
            TranslationKey::StoredPasskeys => "passkeys.stored_passkeys",
            TranslationKey::ManageCredentialsDesc => "passkeys.manage_credentials_desc",
            TranslationKey::Unlocked => "passkeys.unlocked",
            TranslationKey::CredentialsStored => "passkeys.credentials_stored",
            TranslationKey::Loading => "common.loading",
            TranslationKey::Success => "common.success",
            TranslationKey::Error => "common.error",
            TranslationKey::Warning => "common.warning",
        }
    }
}

/// The English table: the text stored for the key's identifier, if the
/// table holds one.
pub open spec fn english_text(key: TranslationKey) -> Option<Seq<char>> {
    match key {
        TranslationKey::AppName => Some("PicoForge"@),
        TranslationKey::Refresh => Some("Refresh"@),
        TranslationKey::Expand => Some("Expand"@),
        TranslationKey::Collapse => Some("Collapse"@),
        TranslationKey::NoDeviceConnected => Some("No Device Connected"@),
        TranslationKey::NotAvailable => Some("Not Available"@),
        TranslationKey::MenuHome => Some("Home"@),
        TranslationKey::MenuPasskeys => Some("Passkeys"@),
        TranslationKey::MenuConfiguration => Some("Configuration"@),
        TranslationKey::MenuSecurity => Some("Security"@),
        TranslationKey::MenuAbout => Some("About"@),
        TranslationKey::MenuLogs => Some("Logs"@),
        TranslationKey::DeviceStatus => Some("Device Status"@),
        TranslationKey::StatusOnline => Some("Online"@),
        TranslationKey::StatusOnlineFido => Some("Online - Fido"@),
        TranslationKey::StatusError => Some("Error"@),
        TranslationKey::StatusOffline => Some("Offline"@),
        TranslationKey::HomeTitle => Some("Device Overview"@),
        TranslationKey::HomeDescription => Some("Quick view of your device status and specifications."@),
        TranslationKey::DeviceInformation => Some("Device Information"@),
        TranslationKey::Fido2Information => Some("FIDO2 Information"@),
        TranslationKey::LedConfiguration => Some("LED Configuration"@),
        TranslationKey::SecurityStatus => Some("Security Status"@),
        TranslationKey::SerialNumber => Some("Serial Number"@),
        TranslationKey::FirmwareVersion => Some("Firmware Version"@),
        TranslationKey::VidPid => Some("VID:PID"@),
        TranslationKey::ProductName => Some("Product Name"@),
        TranslationKey::FlashMemory => Some("Flash Memory"@),
        TranslationKey::Aaguid => Some("AAGUID"@),
        TranslationKey::FidoVersions => Some("FIDO Versions"@),
        TranslationKey::PinSet => Some("PIN Set"@),
        TranslationKey::ResidentKeys => Some("Resident Keys"@),
        TranslationKey::MinPinLength => Some("Min PIN Length"@),
        TranslationKey::RemainingCredentials => Some("Remaining Credentials"@),
        TranslationKey::PinSetLabel => Some("PIN Set"@),
        TranslationKey::NotSet => Some("Not Set"@),
        TranslationKey::Supported => Some("Supported"@),
        TranslationKey::NotSupported => Some("Not Supported"@),
        TranslationKey::LedGpioPin => Some("LED GPIO Pin"@),
        TranslationKey::LedBrightness => Some("LED Brightness"@),
        TranslationKey::PresenceTouchTimeout => Some("Presence Touch Timeout"@),
        TranslationKey::LedDimmable => Some("LED Dimmable"@),
        TranslationKey::LedSteadyMode => Some("LED Steady Mode"@),
        TranslationKey::FidoModeNotice => Some("Information is not available in Fido only communication mode."@),
        TranslationKey::BootMode => Some("Boot Mode"@),
        TranslationKey::SecureBoot => Some("Secure Boot"@),
        TranslationKey::Development => Some("Development"@),
        TranslationKey::DebugInterface => Some("Debug Interface"@),
        TranslationKey::ReadoutLocked => Some("Read-out Locked"@),
        TranslationKey::DebugEnabled => Some("Debug Enabled"@),
        TranslationKey::SecureLock => Some("Secure Lock"@),
        TranslationKey::Acknowledged => Some("Acknowledged"@),
        TranslationKey::Pending => Some("Pending"@),
        TranslationKey::Yes => Some("Yes"@),
        TranslationKey::No => Some("No"@),
        TranslationKey::On => Some("On"@),
        TranslationKey::Off => Some("Off"@),
        TranslationKey::SetAction => Some("Set"@),
        TranslationKey::Save => Some("Save"@),
        TranslationKey::Cancel => Some("Cancel"@),
        TranslationKey::Delete => Some("Delete"@),
        TranslationKey::Edit => Some("Edit"@),
        TranslationKey::Add => Some("Add"@),
        TranslationKey::NotificationSuccess => Some("Success"@),
        TranslationKey::NotificationError => Some("Error"@),
        TranslationKey::NotificationWarning => Some("Warning"@),
        TranslationKey::NotificationInfo => Some("Information"@),
        TranslationKey::AboutTitle => Some("About"@),
        TranslationKey::AboutDescription => Some("Information about the application and its development."@),
        TranslationKey::AboutTagline => Some("An open source commissioning tool for Pico FIDO security keys. Developed with Rust and GPUI."@),
        TranslationKey::CodeBy => Some("Code By:"@),
        TranslationKey::Copyright => Some("Copyright:"@),
        TranslationKey::ConfigTitle => Some("Configuration"@),
        TranslationKey::ConfigDescription => Some("Configure device settings and USB identity."@),
        TranslationKey::VendorPreset => Some("Vendor Preset"@),
        TranslationKey::VendorIdHex => Some("Vendor ID (HEX)"@),
        TranslationKey::ProductIdHex => Some("Product ID (HEX)"@),
        TranslationKey::LedSettings => Some("LED Settings"@),
        TranslationKey::LedGpio => Some("LED GPIO Pin"@),
        TranslationKey::LedDriver => Some("LED Driver"@),
        TranslationKey::LedBrightnessLabel => Some("LED Brightness"@),
        TranslationKey::TouchTimeoutLabel => Some("Touch Timeout (seconds)"@),
        TranslationKey::LedDimmableLabel => Some("LED Dimmable"@),
        TranslationKey::LedSteadyLabel => Some("LED Steady Mode"@),
        TranslationKey::PowerCycleLabel => Some("Power Cycle on Reset"@),
        TranslationKey::EnableSecp256k1Label => Some("Enable SECP256K1"@),
        TranslationKey::ApplyChanges => Some("Apply Changes"@),
        TranslationKey::ApplyingConfig => Some("Applying Configuration"@),
        TranslationKey::ConfigAppliedSuccess => Some("Configuration applied successfully."@),
        TranslationKey::ConfigApplyFailed => Some("Failed to apply configuration"@),
        TranslationKey::AuthRequired => Some("Authentication Required"@),
        TranslationKey::EnterPinToApply => Some("Enter your device PIN to apply changes."@),
        TranslationKey::Confirm => Some("Confirm"@),
        TranslationKey::Unlock => Some("Unlock"@),
        TranslationKey::PasskeysTitle => Some("Passkeys"@),
        TranslationKey::PasskeysDescription => Some("Manage your FIDO2 credentials and PIN settings."@),
        TranslationKey::UnlockStorage => Some("Unlock Storage"@),
        TranslationKey::LockStorage => Some("Lock Storage"@),
        TranslationKey::EnterPinToView => Some("Enter your device PIN to view saved passkeys"@),
        TranslationKey::StorageUnlocked => Some("Storage unlocked successfully."@),
        TranslationKey::StorageLocked => Some("Storage locked."@),
        TranslationKey::NoCredentials => Some("No credentials stored"@),
        TranslationKey::CredentialRpId => Some("Relying Party"@),
        TranslationKey::CredentialUser => Some("User"@),
        TranslationKey::CredentialCreated => Some("Created"@),
        TranslationKey::DeletePasskey => Some("Delete Passkey"@),
        TranslationKey::DeleteConfirm => Some("Delete Passkey"@),
        TranslationKey::DeleteConfirmMsg => Some("Are you sure you want to delete the passkey for {0}?"@),
        TranslationKey::ChangePin => Some("Change PIN"@),
        TranslationKey::SetupPin => Some("Set PIN"@),
        TranslationKey::CurrentPin => Some("Current PIN"@),
        TranslationKey::NewPin => Some("New PIN"@),
        TranslationKey::ConfirmNewPin => Some("Confirm New PIN"@),
        TranslationKey::PinChangedSuccess => Some("PIN changed successfully."@),
        TranslationKey::PinSetupSuccess => Some("PIN configured successfully."@),
        TranslationKey::PinDoNotMatch => Some("PINs do not match"@),
        TranslationKey::PinMinLength => Some("Minimum PIN Length"@),
        TranslationKey::UpdateMinPinLength => Some("Update Minimum PIN Length"@),
        TranslationKey::MinPinLengthUpdated => Some("Minimum length updated to {0}."@),
        TranslationKey::SecurityTitle => Some("Secure Boot"@),
        TranslationKey::SecurityDescription => Some("Permanently lock this device to the current firmware vendor."@),
        TranslationKey::FeatureUnstable => Some("Feature Unstable"@),
        TranslationKey::FeatureDisabledWarning => Some("This feature is currently under work and disabled for safety."@),
        TranslationKey::LockSettings => Some("Lock Settings"@),
        TranslationKey::EnableSecureBootLabel => Some("Enable Secure Boot"@),
        TranslationKey::EnableSecureBootDesc => Some("Verifies firmware signature on startup"@),
        TranslationKey::SecureLockLabel => Some("Secure Lock"@),
        TranslationKey::SecureLockDesc => Some("Prevents reading key material via debug ports"@),
        TranslationKey::UnderstandRisks => Some("I understand the risks of bricking my device."@),
        TranslationKey::PermanentlyLockDevice => Some("Permanently Lock Device"@),
        TranslationKey::ActionDelete => Some("Delete"@),
        TranslationKey::ActionCancel => Some("Cancel"@),
        TranslationKey::ActionUpdate => None,
        TranslationKey::SetMinPinLengthDesc => None,
        TranslationKey::NewPinMinChars => None,
        TranslationKey::PinIsSet => None,
        TranslationKey::NoPinConfigured => None,
        TranslationKey::CurrentMinLength => None,
        TranslationKey::UnlockToViewPasskeys => None,
        TranslationKey::StoredPasskeys => None,
        TranslationKey::ManageCredentialsDesc => None,
        TranslationKey::Unlocked => None,
        TranslationKey::CredentialsStored => None,
        TranslationKey::Loading => Some("Loading..."@),
        TranslationKey::Success => Some("Success"@),
        TranslationKey::Error => Some("Error"@),
        TranslationKey::Warning => Some("Warning"@),
    }
}

/// Looks a key up in the English table.
pub fn load_english_translation(key: TranslationKey) -> (r: Option<&'static str>)
    ensures
        match english_text(key) {
            Some(t) => r matches Some(s) && s@ == t,
            None => r is None,
        },
{
    match key {
        TranslationKey::AppName => Some("PicoForge"),
        TranslationKey::Refresh => Some("Refresh"),
        TranslationKey::Expand => Some("Expand"),
        TranslationKey::Collapse => Some("Collapse"),
        TranslationKey::NoDeviceConnected => Some("No Device Connected"),
        TranslationKey::NotAvailable => Some("Not Available"),
        TranslationKey::MenuHome => Some("Home"),
        TranslationKey::MenuPasskeys => Some("Passkeys"),
        TranslationKey::MenuConfiguration => Some("Configuration"),
        TranslationKey::MenuSecurity => Some("Security"),
        TranslationKey::MenuAbout => Some("About"),
        TranslationKey::MenuLogs => Some("Logs"),
        TranslationKey::DeviceStatus => Some("Device Status"),
        TranslationKey::StatusOnline => Some("Online"),
        TranslationKey::StatusOnlineFido => Some("Online - Fido"),
        TranslationKey::StatusError => Some("Error"),
        TranslationKey::StatusOffline => Some("Offline"),
        TranslationKey::HomeTitle => Some("Device Overview"),
        TranslationKey::HomeDescription => Some("Quick view of your device status and specifications."),
        TranslationKey::DeviceInformation => Some("Device Information"),
        TranslationKey::Fido2Information => Some("FIDO2 Information"),
        TranslationKey::LedConfiguration => Some("LED Configuration"),
        TranslationKey::SecurityStatus => Some("Security Status"),
        TranslationKey::SerialNumber => Some("Serial Number"),
        TranslationKey::FirmwareVersion => Some("Firmware Version"),
        TranslationKey::VidPid => Some("VID:PID"),
        TranslationKey::ProductName => Some("Product Name"),
        TranslationKey::FlashMemory => Some("Flash Memory"),
        TranslationKey::Aaguid => Some("AAGUID"),
        TranslationKey::FidoVersions => Some("FIDO Versions"),
        TranslationKey::PinSet => Some("PIN Set"),
        TranslationKey::ResidentKeys => Some("Resident Keys"),
        TranslationKey::MinPinLength => Some("Min PIN Length"),
        TranslationKey::RemainingCredentials => Some("Remaining Credentials"),
        TranslationKey::PinSetLabel => Some("PIN Set"),
        TranslationKey::NotSet => Some("Not Set"),
        TranslationKey::Supported => Some("Supported"),
        TranslationKey::NotSupported => Some("Not Supported"),
        TranslationKey::LedGpioPin => Some("LED GPIO Pin"),
        TranslationKey::LedBrightness => Some("LED Brightness"),
        TranslationKey::PresenceTouchTimeout => Some("Presence Touch Timeout"),
        TranslationKey::LedDimmable => Some("LED Dimmable"),
        TranslationKey::LedSteadyMode => Some("LED Steady Mode"),
        TranslationKey::FidoModeNotice => Some("Information is not available in Fido only communication mode."),
        TranslationKey::BootMode => Some("Boot Mode"),
        TranslationKey::SecureBoot => Some("Secure Boot"),
        TranslationKey::Development => Some("Development"),
        TranslationKey::DebugInterface => Some("Debug Interface"),
        TranslationKey::ReadoutLocked => Some("Read-out Locked"),
        TranslationKey::DebugEnabled => Some("Debug Enabled"),
        TranslationKey::SecureLock => Some("Secure Lock"),
        TranslationKey::Acknowledged => Some("Acknowledged"),
        TranslationKey::Pending => Some("Pending"),
        TranslationKey::Yes => Some("Yes"),
        TranslationKey::No => Some("No"),
        TranslationKey::On => Some("On"),
        TranslationKey::Off => Some("Off"),
        TranslationKey::SetAction => Some("Set"),
        TranslationKey::Save => Some("Save"),
        TranslationKey::Cancel => Some("Cancel"),
        TranslationKey::Delete => Some("Delete"),
        TranslationKey::Edit => Some("Edit"),
        TranslationKey::Add => Some("Add"),
        TranslationKey::NotificationSuccess => Some("Success"),
        TranslationKey::NotificationError => Some("Error"),
        TranslationKey::NotificationWarning => Some("Warning"),
        TranslationKey::NotificationInfo => Some("Information"),
        TranslationKey::AboutTitle => Some("About"),
        TranslationKey::AboutDescription => Some("Information about the application and its development."),
        TranslationKey::AboutTagline => Some("An open source commissioning tool for Pico FIDO security keys. Developed with Rust and GPUI."),
        TranslationKey::CodeBy => Some("Code By:"),
        TranslationKey::Copyright => Some("Copyright:"),
        TranslationKey::ConfigTitle => Some("Configuration"),
        TranslationKey::ConfigDescription => Some("Configure device settings and USB identity."),
        TranslationKey::VendorPreset => Some("Vendor Preset"),
        TranslationKey::VendorIdHex => Some("Vendor ID (HEX)"),
        TranslationKey::ProductIdHex => Some("Product ID (HEX)"),
        TranslationKey::LedSettings => Some("LED Settings"),
        TranslationKey::LedGpio => Some("LED GPIO Pin"),
        TranslationKey::LedDriver => Some("LED Driver"),
        TranslationKey::LedBrightnessLabel => Some("LED Brightness"),
        TranslationKey::TouchTimeoutLabel => Some("Touch Timeout (seconds)"),
        TranslationKey::LedDimmableLabel => Some("LED Dimmable"),
        TranslationKey::LedSteadyLabel => Some("LED Steady Mode"),
        TranslationKey::PowerCycleLabel => Some("Power Cycle on Reset"),
        TranslationKey::EnableSecp256k1Label => Some("Enable SECP256K1"),
        TranslationKey::ApplyChanges => Some("Apply Changes"),
        TranslationKey::ApplyingConfig => Some("Applying Configuration"),
        TranslationKey::ConfigAppliedSuccess => Some("Configuration applied successfully."),
        TranslationKey::ConfigApplyFailed => Some("Failed to apply configuration"),
        TranslationKey::AuthRequired => Some("Authentication Required"),
        TranslationKey::EnterPinToApply => Some("Enter your device PIN to apply changes."),
        TranslationKey::Confirm => Some("Confirm"),
        TranslationKey::Unlock => Some("Unlock"),
        TranslationKey::PasskeysTitle => Some("Passkeys"),
        TranslationKey::PasskeysDescription => Some("Manage your FIDO2 credentials and PIN settings."),
        TranslationKey::UnlockStorage => Some("Unlock Storage"),
        TranslationKey::LockStorage => Some("Lock Storage"),
        TranslationKey::EnterPinToView => Some("Enter your device PIN to view saved passkeys"),
        TranslationKey::StorageUnlocked => Some("Storage unlocked successfully."),
        TranslationKey::StorageLocked => Some("Storage locked."),
        TranslationKey::NoCredentials => Some("No credentials stored"),
        TranslationKey::CredentialRpId => Some("Relying Party"),
        TranslationKey::CredentialUser => Some("User"),
        TranslationKey::CredentialCreated => Some("Created"),
        TranslationKey::DeletePasskey => Some("Delete Passkey"),
        TranslationKey::DeleteConfirm => Some("Delete Passkey"),
        TranslationKey::DeleteConfirmMsg => Some("Are you sure you want to delete the passkey for {0}?"),
        TranslationKey::ChangePin => Some("Change PIN"),
        TranslationKey::SetupPin => Some("Set PIN"),
        TranslationKey::CurrentPin => Some("Current PIN"),
        TranslationKey::NewPin => Some("New PIN"),
        TranslationKey::ConfirmNewPin => Some("Confirm New PIN"),
        TranslationKey::PinChangedSuccess => Some("PIN changed successfully."),
        TranslationKey::PinSetupSuccess => Some("PIN configured successfully."),
        TranslationKey::PinDoNotMatch => Some("PINs do not match"),
        TranslationKey::PinMinLength => Some("Minimum PIN Length"),
        TranslationKey::UpdateMinPinLength => Some("Update Minimum PIN Length"),
        TranslationKey::MinPinLengthUpdated => Some("Minimum length updated to {0}."),
        TranslationKey::SecurityTitle => Some("Secure Boot"),
        TranslationKey::SecurityDescription => Some("Permanently lock this device to the current firmware vendor."),
        TranslationKey::FeatureUnstable => Some("Feature Unstable"),
        TranslationKey::FeatureDisabledWarning => Some("This feature is currently under work and disabled for safety."),
        TranslationKey::LockSettings => Some("Lock Settings"),
        TranslationKey::EnableSecureBootLabel => Some("Enable Secure Boot"),
        TranslationKey::EnableSecureBootDesc => Some("Verifies firmware signature on startup"),
        TranslationKey::SecureLockLabel => Some("Secure Lock"),
        TranslationKey::SecureLockDesc => Some("Prevents reading key material via debug ports"),
        TranslationKey::UnderstandRisks => Some("I understand the risks of bricking my device."),
        TranslationKey::PermanentlyLockDevice => Some("Permanently Lock Device"),
        TranslationKey::ActionDelete => Some("Delete"),
        TranslationKey::ActionCancel => Some("Cancel"),
        TranslationKey::ActionUpdate => None,
        TranslationKey::SetMinPinLengthDesc => None,
        TranslationKey::NewPinMinChars => None,
        TranslationKey::PinIsSet => None,
        TranslationKey::NoPinConfigured => None,
        TranslationKey::CurrentMinLength => None,
        TranslationKey::UnlockToViewPasskeys => None,
        TranslationKey::StoredPasskeys => None,
        TranslationKey::ManageCredentialsDesc => None,
        TranslationKey::Unlocked => None,
        TranslationKey::CredentialsStored => None,
        TranslationKey::Loading => Some("Loading..."),
        TranslationKey::Success => Some("Success"),
        TranslationKey::Error => Some("Error"),
        TranslationKey::Warning => Some("Warning"),
    }
}

/// The Chinese table: the text stored for the key's identifier, if the
/// table holds one.
pub open spec fn chinese_text(key: TranslationKey) -> Option<Seq<char>> {
    match key {
        TranslationKey::AppName => Some("PicoForge"@),
        TranslationKey::Refresh => Some("刷新"@),
        TranslationKey::Expand => Some("展开"@),
        TranslationKey::Collapse => Some("收起"@),
        TranslationKey::NoDeviceConnected => Some("未连接设备"@),
        TranslationKey::NotAvailable => Some("不可用"@),
        TranslationKey::MenuHome => Some("主页"@),
        TranslationKey::MenuPasskeys => Some("通行密钥"@),
        TranslationKey::MenuConfiguration => Some("配置"@),
        TranslationKey::MenuSecurity => Some("安全"@),
        TranslationKey::MenuAbout => Some("关于"@),
        TranslationKey::MenuLogs => Some("日志"@),
        TranslationKey::DeviceStatus => Some("设备状态"@),
        TranslationKey::StatusOnline => Some("在线"@),
        TranslationKey::StatusOnlineFido => Some("在线 - Fido 模式"@),
        TranslationKey::StatusError => Some("错误"@),
        TranslationKey::StatusOffline => Some("离线"@),
        TranslationKey::HomeTitle => Some("设备概览"@),
        TranslationKey::HomeDescription => Some("快速查看您的设备状态和规格。"@),
        TranslationKey::DeviceInformation => Some("设备信息"@),
        TranslationKey::Fido2Information => Some("FIDO2 信息"@),
        TranslationKey::LedConfiguration => Some("LED 配置"@),
        TranslationKey::SecurityStatus => Some("安全状态"@),
        TranslationKey::SerialNumber => Some("序列号"@),
        TranslationKey::FirmwareVersion => Some("固件版本"@),
        TranslationKey::VidPid => Some("VID:PID"@),
        TranslationKey::ProductName => Some("产品名称"@),
        TranslationKey::FlashMemory => Some("闪存"@),
        TranslationKey::Aaguid => Some("AAGUID"@),
        TranslationKey::FidoVersions => Some("FIDO 版本"@),
        TranslationKey::PinSet => Some("PIN 已设置"@),
        TranslationKey::ResidentKeys => Some("驻留密钥"@),
        TranslationKey::MinPinLength => Some("最小 PIN 长度"@),
        TranslationKey::RemainingCredentials => Some("剩余凭据"@),
        TranslationKey::PinSetLabel => Some("PIN 设置"@),
        TranslationKey::NotSet => Some("未设置"@),
        TranslationKey::Supported => Some("支持"@),
        TranslationKey::NotSupported => Some("不支持"@),
        TranslationKey::LedGpioPin => Some("LED GPIO 引脚"@),
        TranslationKey::LedBrightness => Some("LED 亮度"@),
        TranslationKey::PresenceTouchTimeout => Some("存在触摸超时"@),
        TranslationKey::LedDimmable => Some("LED 可调光"@),
        TranslationKey::LedSteadyMode => Some("LED 常亮模式"@),
        TranslationKey::FidoModeNotice => Some("在仅 Fido 通信模式下无法获取此信息。"@),
        TranslationKey::BootMode => Some("启动模式"@),
        TranslationKey::SecureBoot => Some("安全启动"@),
        TranslationKey::Development => Some("开发模式"@),
        TranslationKey::DebugInterface => Some("调试接口"@),
        TranslationKey::ReadoutLocked => Some("读取锁定"@),
        TranslationKey::DebugEnabled => Some("调试已启用"@),
        TranslationKey::SecureLock => Some("安全锁定"@),
        TranslationKey::Acknowledged => Some("已确认"@),
        TranslationKey::Pending => Some("待处理"@),
        TranslationKey::Yes => Some("是"@),
        TranslationKey::No => Some("否"@),
        TranslationKey::On => Some("开"@),
        TranslationKey::Off => Some("关"@),
        TranslationKey::SetAction => Some("已设置"@),
        TranslationKey::Save => Some("保存"@),
        TranslationKey::Cancel => Some("取消"@),
        TranslationKey::Delete => Some("删除"@),
        TranslationKey::Edit => Some("编辑"@),
        TranslationKey::Add => Some("添加"@),
        TranslationKey::NotificationSuccess => Some("成功"@),
        TranslationKey::NotificationError => Some("错误"@),
        TranslationKey::NotificationWarning => Some("警告"@),
        TranslationKey::NotificationInfo => Some("信息"@),
        TranslationKey::AboutTitle => Some("关于"@),
        TranslationKey::AboutDescription => Some("关于应用程序及其开发的信息。"@),
        TranslationKey::AboutTagline => Some("一个开源的 Pico FIDO 安全密钥配置工具。使用 Rust 和 GPUI 开发。"@),
        TranslationKey::CodeBy => Some("代码作者："@),
        TranslationKey::Copyright => Some("版权所有："@),
        TranslationKey::ConfigTitle => Some("配置"@),
        TranslationKey::ConfigDescription => Some("配置设备设置和 USB 标识。"@),
        TranslationKey::VendorPreset => Some("供应商预设"@),
        TranslationKey::VendorIdHex => Some("供应商 ID (HEX)"@),
        TranslationKey::ProductIdHex => Some("产品 ID (HEX)"@),
        TranslationKey::LedSettings => Some("LED 设置"@),
        TranslationKey::LedGpio => Some("LED GPIO 引脚"@),
        TranslationKey::LedDriver => Some("LED 驱动器"@),
        TranslationKey::LedBrightnessLabel => Some("LED 亮度"@),
        TranslationKey::TouchTimeoutLabel => Some("触摸超时 (秒)"@),
        TranslationKey::LedDimmableLabel => Some("LED 可调光"@),
        TranslationKey::LedSteadyLabel => Some("LED 常亮模式"@),
        TranslationKey::PowerCycleLabel => Some("重置时重新上电"@),
        TranslationKey::EnableSecp256k1Label => Some("启用 SECP256K1"@),
        TranslationKey::ApplyChanges => Some("应用更改"@),
        TranslationKey::ApplyingConfig => Some("正在应用配置"@),
        TranslationKey::ConfigAppliedSuccess => Some("配置已成功应用。"@),
        TranslationKey::ConfigApplyFailed => Some("应用配置失败"@),
        TranslationKey::AuthRequired => Some("需要认证"@),
        TranslationKey::EnterPinToApply => Some("输入您的设备 PIN 以应用更改。"@),
        TranslationKey::Confirm => Some("确认"@),
        TranslationKey::Unlock => Some("解锁"@),
        TranslationKey::PasskeysTitle => Some("通行密钥"@),
        TranslationKey::PasskeysDescription => Some("管理您的 FIDO2 凭据和 PIN 设置。"@),
        TranslationKey::UnlockStorage => Some("解锁存储"@),
        TranslationKey::LockStorage => Some("锁定存储"@),
        TranslationKey::EnterPinToView => Some("输入您的设备 PIN 以查看保存的通行密钥"@),
        TranslationKey::StorageUnlocked => Some("存储已成功解锁。"@),
        TranslationKey::StorageLocked => Some("存储已锁定。"@),
        TranslationKey::NoCredentials => Some("没有存储的凭据"@),
        TranslationKey::CredentialRpId => Some("依赖方"@),
        TranslationKey::CredentialUser => Some("用户"@),
        TranslationKey::CredentialCreated => Some("创建时间"@),
        TranslationKey::DeletePasskey => Some("删除通行密钥"@),
        TranslationKey::DeleteConfirm => Some("删除通行密钥"@),
        TranslationKey::DeleteConfirmMsg => Some("您确定要删除 {0} 的通行密钥吗？"@),
        TranslationKey::ChangePin => Some("更改 PIN"@),
        TranslationKey::SetupPin => Some("设置 PIN"@),
        TranslationKey::CurrentPin => Some("当前 PIN"@),
        TranslationKey::NewPin => Some("新 PIN"@),
        TranslationKey::ConfirmNewPin => Some("确认新 PIN"@),
        TranslationKey::PinChangedSuccess => Some("PIN 已成功更改。"@),
        TranslationKey::PinSetupSuccess => Some("PIN 已成功配置。"@),
        TranslationKey::PinDoNotMatch => Some("PIN 不匹配"@),
        TranslationKey::PinMinLength => Some("最小 PIN 长度"@),
        TranslationKey::UpdateMinPinLength => Some("更新最小 PIN 长度"@),
        TranslationKey::MinPinLengthUpdated => Some("最小长度已更新为 {0}。"@),
        TranslationKey::SecurityTitle => Some("安全启动"@),
        TranslationKey::SecurityDescription => Some("将此设备永久锁定到当前固件供应商。"@),
        TranslationKey::FeatureUnstable => Some("功能不稳定"@),
        TranslationKey::FeatureDisabledWarning => Some("此功能目前正在开发中，为确保安全已禁用。"@),
        TranslationKey::LockSettings => Some("锁定设置"@),
        TranslationKey::EnableSecureBootLabel => Some("启用安全启动"@),
        TranslationKey::EnableSecureBootDesc => Some("启动时验证固件签名"@),
        TranslationKey::SecureLockLabel => Some("安全锁定"@),
        TranslationKey::SecureLockDesc => Some("防止通过调试端口读取密钥材料"@),
        TranslationKey::UnderstandRisks => Some("我了解设备变砖的风险。"@),
        TranslationKey::PermanentlyLockDevice => Some("永久锁定设备"@),
        TranslationKey::ActionDelete => Some("删除"@),
        TranslationKey::ActionCancel => Some("取消"@),
        TranslationKey::ActionUpdate => Some("更新"@),
        TranslationKey::SetMinPinLengthDesc => Some("设置允许的最小 PIN 长度（4-63 个字符），并输入满足此要求的新 PIN。"@),
        TranslationKey::NewPinMinChars => Some("新 PIN（最少 {0} 个字符）"@),
        TranslationKey::PinIsSet => Some("PIN 已设置"@),
        TranslationKey::NoPinConfigured => Some("未配置 PIN"@),
        TranslationKey::CurrentMinLength => Some("当前：{0} 个字符"@),
        TranslationKey::UnlockToViewPasskeys => Some("解锁您的设备以查看和管理通行密钥。"@),
        TranslationKey::StoredPasskeys => Some("存储的通行密钥"@),
        TranslationKey::ManageCredentialsDesc => Some("查看和管理您的驻留凭据"@),
        TranslationKey::Unlocked => Some("已解锁"@),
        TranslationKey::CredentialsStored => Some("{0} 个凭据已存储"@),
        TranslationKey::Loading => Some("加载中..."@),
        TranslationKey::Success => Some("成功"@),
        TranslationKey::Error => Some("错误"@),
        TranslationKey::Warning => Some("警告"@),
    }
}

/// Looks a key up in the Chinese table.
pub fn load_chinese_translation(key: TranslationKey) -> (r: Option<&'static str>)
    ensures
        match chinese_text(key) {
            Some(t) => r matches Some(s) && s@ == t,
            None => r is None,
        },
{
    match key {
        TranslationKey::AppName => Some("PicoForge"),
        TranslationKey::Refresh => Some("刷新"),
        TranslationKey::Expand => Some("展开"),
        TranslationKey::Collapse => Some("收起"),
        TranslationKey::NoDeviceConnected => Some("未连接设备"),
        TranslationKey::NotAvailable => Some("不可用"),
        TranslationKey::MenuHome => Some("主页"),
        TranslationKey::MenuPasskeys => Some("通行密钥"),
        TranslationKey::MenuConfiguration => Some("配置"),
        TranslationKey::MenuSecurity => Some("安全"),
        TranslationKey::MenuAbout => Some("关于"),
        TranslationKey::MenuLogs => Some("日志"),
        TranslationKey::DeviceStatus => Some("设备状态"),
        TranslationKey::StatusOnline => Some("在线"),
        TranslationKey::StatusOnlineFido => Some("在线 - Fido 模式"),
        TranslationKey::StatusError => Some("错误"),
        TranslationKey::StatusOffline => Some("离线"),
        TranslationKey::HomeTitle => Some("设备概览"),
        TranslationKey::HomeDescription => Some("快速查看您的设备状态和规格。"),
        TranslationKey::DeviceInformation => Some("设备信息"),
        TranslationKey::Fido2Information => Some("FIDO2 信息"),
        TranslationKey::LedConfiguration => Some("LED 配置"),
        TranslationKey::SecurityStatus => Some("安全状态"),
        TranslationKey::SerialNumber => Some("序列号"),
        TranslationKey::FirmwareVersion => Some("固件版本"),
        TranslationKey::VidPid => Some("VID:PID"),
        TranslationKey::ProductName => Some("产品名称"),
        TranslationKey::FlashMemory => Some("闪存"),
        TranslationKey::Aaguid => Some("AAGUID"),
        TranslationKey::FidoVersions => Some("FIDO 版本"),
        TranslationKey::PinSet => Some("PIN 已设置"),
        TranslationKey::ResidentKeys => Some("驻留密钥"),
        TranslationKey::MinPinLength => Some("最小 PIN 长度"),
        TranslationKey::RemainingCredentials => Some("剩余凭据"),
        TranslationKey::PinSetLabel => Some("PIN 设置"),
        TranslationKey::NotSet => Some("未设置"),
        TranslationKey::Supported => Some("支持"),
        TranslationKey::NotSupported => Some("不支持"),
        TranslationKey::LedGpioPin => Some("LED GPIO 引脚"),
        TranslationKey::LedBrightness => Some("LED 亮度"),
        TranslationKey::PresenceTouchTimeout => Some("存在触摸超时"),
        TranslationKey::LedDimmable => Some("LED 可调光"),
        TranslationKey::LedSteadyMode => Some("LED 常亮模式"),
        TranslationKey::FidoModeNotice => Some("在仅 Fido 通信模式下无法获取此信息。"),
        TranslationKey::BootMode => Some("启动模式"),
        TranslationKey::SecureBoot => Some("安全启动"),
        TranslationKey::Development => Some("开发模式"),
        TranslationKey::DebugInterface => Some("调试接口"),
        TranslationKey::ReadoutLocked => Some("读取锁定"),
        TranslationKey::DebugEnabled => Some("调试已启用"),
        TranslationKey::SecureLock => Some("安全锁定"),
        TranslationKey::Acknowledged => Some("已确认"),
        TranslationKey::Pending => Some("待处理"),
        TranslationKey::Yes => Some("是"),
        TranslationKey::No => Some("否"),
        TranslationKey::On => Some("开"),
        TranslationKey::Off => Some("关"),
        TranslationKey::SetAction => Some("已设置"),
        TranslationKey::Save => Some("保存"),
        TranslationKey::Cancel => Some("取消"),
        TranslationKey::Delete => Some("删除"),
        TranslationKey::Edit => Some("编辑"),
        TranslationKey::Add => Some("添加"),
        TranslationKey::NotificationSuccess => Some("成功"),
        TranslationKey::NotificationError => Some("错误"),
        TranslationKey::NotificationWarning => Some("警告"),
        TranslationKey::NotificationInfo => Some("信息"),
        TranslationKey::AboutTitle => Some("关于"),
        TranslationKey::AboutDescription => Some("关于应用程序及其开发的信息。"),
        TranslationKey::AboutTagline => Some("一个开源的 Pico FIDO 安全密钥配置工具。使用 Rust 和 GPUI 开发。"),
        TranslationKey::CodeBy => Some("代码作者："),
        TranslationKey::Copyright => Some("版权所有："),
        TranslationKey::ConfigTitle => Some("配置"),
        TranslationKey::ConfigDescription => Some("配置设备设置和 USB 标识。"),
        TranslationKey::VendorPreset => Some("供应商预设"),
        TranslationKey::VendorIdHex => Some("供应商 ID (HEX)"),
        TranslationKey::ProductIdHex => Some("产品 ID (HEX)"),
        TranslationKey::LedSettings => Some("LED 设置"),
        TranslationKey::LedGpio => Some("LED GPIO 引脚"),
        TranslationKey::LedDriver => Some("LED 驱动器"),
        TranslationKey::LedBrightnessLabel => Some("LED 亮度"),
        TranslationKey::TouchTimeoutLabel => Some("触摸超时 (秒)"),
        TranslationKey::LedDimmableLabel => Some("LED 可调光"),
        TranslationKey::LedSteadyLabel => Some("LED 常亮模式"),
        TranslationKey::PowerCycleLabel => Some("重置时重新上电"),
        TranslationKey::EnableSecp256k1Label => Some("启用 SECP256K1"),
        TranslationKey::ApplyChanges => Some("应用更改"),
        TranslationKey::ApplyingConfig => Some("正在应用配置"),
        TranslationKey::ConfigAppliedSuccess => Some("配置已成功应用。"),
        TranslationKey::ConfigApplyFailed => Some("应用配置失败"),
        TranslationKey::AuthRequired => Some("需要认证"),
        TranslationKey::EnterPinToApply => Some("输入您的设备 PIN 以应用更改。"),
        TranslationKey::Confirm => Some("确认"),
        TranslationKey::Unlock => Some("解锁"),
        TranslationKey::PasskeysTitle => Some("通行密钥"),
        TranslationKey::PasskeysDescription => Some("管理您的 FIDO2 凭据和 PIN 设置。"),
        TranslationKey::UnlockStorage => Some("解锁存储"),
        TranslationKey::LockStorage => Some("锁定存储"),
        TranslationKey::EnterPinToView => Some("输入您的设备 PIN 以查看保存的通行密钥"),
        TranslationKey::StorageUnlocked => Some("存储已成功解锁。"),
        TranslationKey::StorageLocked => Some("存储已锁定。"),
        TranslationKey::NoCredentials => Some("没有存储的凭据"),
        TranslationKey::CredentialRpId => Some("依赖方"),
        TranslationKey::CredentialUser => Some("用户"),
        TranslationKey::CredentialCreated => Some("创建时间"),
        TranslationKey::DeletePasskey => Some("删除通行密钥"),
        TranslationKey::DeleteConfirm => Some("删除通行密钥"),
        TranslationKey::DeleteConfirmMsg => Some("您确定要删除 {0} 的通行密钥吗？"),
        TranslationKey::ChangePin => Some("更改 PIN"),
        TranslationKey::SetupPin => Some("设置 PIN"),
        TranslationKey::CurrentPin => Some("当前 PIN"),
        TranslationKey::NewPin => Some("新 PIN"),
        TranslationKey::ConfirmNewPin => Some("确认新 PIN"),
        TranslationKey::PinChangedSuccess => Some("PIN 已成功更改。"),
        TranslationKey::PinSetupSuccess => Some("PIN 已成功配置。"),
        TranslationKey::PinDoNotMatch => Some("PIN 不匹配"),
        TranslationKey::PinMinLength => Some("最小 PIN 长度"),
        TranslationKey::UpdateMinPinLength => Some("更新最小 PIN 长度"),
        TranslationKey::MinPinLengthUpdated => Some("最小长度已更新为 {0}。"),
        TranslationKey::SecurityTitle => Some("安全启动"),
        TranslationKey::SecurityDescription => Some("将此设备永久锁定到当前固件供应商。"),
        TranslationKey::FeatureUnstable => Some("功能不稳定"),
        TranslationKey::FeatureDisabledWarning => Some("此功能目前正在开发中，为确保安全已禁用。"),
        TranslationKey::LockSettings => Some("锁定设置"),
        TranslationKey::EnableSecureBootLabel => Some("启用安全启动"),
        TranslationKey::EnableSecureBootDesc => Some("启动时验证固件签名"),
        TranslationKey::SecureLockLabel => Some("安全锁定"),
        TranslationKey::SecureLockDesc => Some("防止通过调试端口读取密钥材料"),
        TranslationKey::UnderstandRisks => Some("我了解设备变砖的风险。"),
        TranslationKey::PermanentlyLockDevice => Some("永久锁定设备"),
        TranslationKey::ActionDelete => Some("删除"),
        TranslationKey::ActionCancel => Some("取消"),
        TranslationKey::ActionUpdate => Some("更新"),
        TranslationKey::SetMinPinLengthDesc => Some("设置允许的最小 PIN 长度（4-63 个字符），并输入满足此要求的新 PIN。"),
        TranslationKey::NewPinMinChars => Some("新 PIN（最少 {0} 个字符）"),
        TranslationKey::PinIsSet => Some("PIN 已设置"),
        TranslationKey::NoPinConfigured => Some("未配置 PIN"),
        TranslationKey::CurrentMinLength => Some("当前：{0} 个字符"),
        TranslationKey::UnlockToViewPasskeys => Some("解锁您的设备以查看和管理通行密钥。"),
        TranslationKey::StoredPasskeys => Some("存储的通行密钥"),
        TranslationKey::ManageCredentialsDesc => Some("查看和管理您的驻留凭据"),
        TranslationKey::Unlocked => Some("已解锁"),
        TranslationKey::CredentialsStored => Some("{0} 个凭据已存储"),
        TranslationKey::Loading => Some("加载中..."),
        TranslationKey::Success => Some("成功"),
        TranslationKey::Error => Some("错误"),
        TranslationKey::Warning => Some("警告"),
    }
}


/// The key whose identifier a key goes by: `ActionDelete` and
/// `ActionCancel` share the identifiers of `Delete` and `Cancel`.
pub open spec fn identifier_owner(k: TranslationKey) -> TranslationKey {
    match k {
        TranslationKey::ActionDelete => TranslationKey::Delete,
        TranslationKey::ActionCancel => TranslationKey::Cancel,
        _ => k,
    }
}

/// Whether a text has the shape of an identifier: not empty, with a dot,
/// and without a space.
pub open spec fn is_identifier(s: Seq<char>) -> bool {
    &&& s.len() > 0
    &&& exists|i: int| 0 <= i < s.len() && s[i] == '.'
    &&& forall|i: int| 0 <= i < s.len() ==> s[i] != ' '
}

/// A few features of an identifier that tell all identifiers apart: its
/// length, its last character, its sixth character from the end, and its
/// third character.
spec fn identifier_features(s: Seq<char>) -> (int, char, char, char) {
    (s.len() as int, s[s.len() - 1], s[s.len() - 6], s[2])
}

/// The key that an identifier's features point to.
spec fn key_of_features(f: (int, char, char, char)) -> Option<TranslationKey> {
    if f == (8int, 'e', 'p', 'p') {
        Some(TranslationKey::AppName)
    } else if f == (14int, 'h', 'e', 't') {
        Some(TranslationKey::Refresh)
    } else if f == (13int, 'd', 'e', 't') {
        Some(TranslationKey::Expand)
    } else if f == (15int, 'e', 'l', 't') {
        Some(TranslationKey::Collapse)
    } else if f == (16int, 'e', 'd', 'v') {
        Some(TranslationKey::NoDeviceConnected)
    } else if f == (20int, 'e', 'i', 'm') {
        Some(TranslationKey::NotAvailable)
    } else if f == (9int, 'e', 'u', 'n') {
        Some(TranslationKey::MenuHome)
    } else if f == (13int, 's', 's', 'n') {
        Some(TranslationKey::MenuPasskeys)
    } else if f == (18int, 'n', 'r', 'n') {
        Some(TranslationKey::MenuConfiguration)
    } else if f == (13int, 'y', 'c', 'n') {
        Some(TranslationKey::MenuSecurity)
    } else if f == (10int, 't', '.', 'n') {
        Some(TranslationKey::MenuAbout)
    } else if f == (9int, 's', 'u', 'n') {
        Some(TranslationKey::MenuLogs)
    } else if f == (13int, 's', 's', 'v') {
        Some(TranslationKey::DeviceStatus)
    } else if f == (20int, 'e', 'o', 'v') {
        Some(TranslationKey::StatusOnline)
    } else if f == (25int, 'o', 'e', 'v') {
        Some(TranslationKey::StatusOnlineFido)
    } else if f == (19int, 'r', '.', 'v') {
        Some(TranslationKey::StatusError)
    } else if f == (21int, 'e', 'f', 'v') {
        Some(TranslationKey::StatusOffline)
    } else if f == (10int, 'e', '.', 'm') {
        Some(TranslationKey::HomeTitle)
    } else if f == (16int, 'n', 'i', 'm') {
        Some(TranslationKey::HomeDescription)
    } else if f == (16int, 'o', 'e', 'r') {
        Some(TranslationKey::DeviceInformation)
    } else if f == (15int, 'o', '2', 'r') {
        Some(TranslationKey::Fido2Information)
    } else if f == (15int, 'g', 'c', 'r') {
        Some(TranslationKey::LedConfiguration)
    } else if f == (20int, 's', 's', 'r') {
        Some(TranslationKey::SecurityStatus)
    } else if f == (13int, 'l', 's', 'v') {
        Some(TranslationKey::SerialNumber)
    } else if f == (15int, 'e', 'r', 'v') {
        Some(TranslationKey::FirmwareVersion)
    } else if f == (14int, 'd', 'i', 'v') {
        Some(TranslationKey::VidPid)
    } else if f == (19int, 'e', 't', 'v') {
        Some(TranslationKey::ProductName)
    } else if f == (19int, 'y', 'm', 'v') {
        Some(TranslationKey::FlashMemory)
    } else if f == (11int, 'd', 'a', 'd') {
        Some(TranslationKey::Aaguid)
    } else if f == (13int, 's', 'r', 'd') {
        Some(TranslationKey::FidoVersions)
    } else if f == (12int, 't', 'i', 'd') {
        Some(TranslationKey::PinSet)
    } else if f == (18int, 's', 't', 'd') {
        Some(TranslationKey::ResidentKeys)
    } else if f == (19int, 'h', 'l', 'd') {
        Some(TranslationKey::MinPinLength)
    } else if f == (26int, 's', 'n', 'd') {
        Some(TranslationKey::RemainingCredentials)
    } else if f == (18int, 'l', '_', 'd') {
        Some(TranslationKey::PinSetLabel)
    } else if f == (14int, 't', 'o', 'a') {
        Some(TranslationKey::NotSet)
    } else if f == (16int, 'd', 'p', 'a') {
        Some(TranslationKey::Supported)
    } else if f == (20int, 'd', 'p', 'a') {
        Some(TranslationKey::NotSupported)
    } else if f == (12int, 'n', 'i', 'd') {
        Some(TranslationKey::LedGpioPin)
    } else if f == (14int, 's', 'h', 'd') {
        Some(TranslationKey::LedBrightness)
    } else if f == (17int, 't', 'i', 'd') {
        Some(TranslationKey::PresenceTouchTimeout)
    } else if f == (12int, 'e', 'm', 'd') {
        Some(TranslationKey::LedDimmable)
    } else if f == (15int, 'e', 'y', 'd') {
        Some(TranslationKey::LedSteadyMode)
    } else if f == (20int, 'e', 'n', 'd') {
        Some(TranslationKey::FidoModeNotice)
    } else if f == (18int, 'e', 't', 'c') {
        Some(TranslationKey::BootMode)
    } else if f == (20int, 't', 'e', 'c') {
        Some(TranslationKey::SecureBoot)
    } else if f == (20int, 't', 'o', 'c') {
        Some(TranslationKey::Development)
    } else if f == (24int, 'e', 'e', 'c') {
        Some(TranslationKey::DebugInterface)
    } else if f == (23int, 'd', 'l', 'c') {
        Some(TranslationKey::ReadoutLocked)
    } else if f == (22int, 'd', 'n', 'c') {
        Some(TranslationKey::DebugEnabled)
    } else if f == (20int, 'k', 'e', 'c') {
        Some(TranslationKey::SecureLock)
    } else if f == (21int, 'd', 'l', 'c') {
        Some(TranslationKey::Acknowledged)
    } else if f == (16int, 'g', 'e', 'c') {
        Some(TranslationKey::Pending)
    } else if f == (10int, 's', 'o', 'm') {
        Some(TranslationKey::Yes)
    } else if f == (9int, 'o', 'm', 'm') {
        Some(TranslationKey::No)
    } else if f == (9int, 'n', 'm', 'm') {
        Some(TranslationKey::On)
    } else if f == (10int, 'f', 'o', 'm') {
        Some(TranslationKey::Off)
    } else if f == (10int, 't', 'o', 'm') {
        Some(TranslationKey::SetAction)
    } else if f == (11int, 'e', 'n', 't') {
        Some(TranslationKey::Save)
    } else if f == (13int, 'l', 'c', 't') {
        Some(TranslationKey::Cancel)
    } else if f == (13int, 'e', 'd', 't') {
        Some(TranslationKey::Delete)
    } else if f == (11int, 't', 'n', 't') {
        Some(TranslationKey::Edit)
    } else if f == (10int, 'd', 'o', 't') {
        Some(TranslationKey::Add)
    } else if f == (20int, 's', 'u', 't') {
        Some(TranslationKey::NotificationSuccess)
    } else if f == (18int, 'r', '.', 't') {
        Some(TranslationKey::NotificationError)
    } else if f == (20int, 'g', 'a', 't') {
        Some(TranslationKey::NotificationWarning)
    } else if f == (17int, 'o', 'n', 't') {
        Some(TranslationKey::NotificationInfo)
    } else if f == (11int, 'e', '.', 'o') {
        Some(TranslationKey::AboutTitle)
    } else if f == (17int, 'n', 'i', 'o') {
        Some(TranslationKey::AboutDescription)
    } else if f == (13int, 'e', 'a', 'o') {
        Some(TranslationKey::AboutTagline)
    } else if f == (13int, 'y', 'o', 'o') {
        Some(TranslationKey::CodeBy)
    } else if f == (15int, 't', 'y', 'o') {
        Some(TranslationKey::Copyright)
    } else if f == (12int, 'e', '.', 'n') {
        Some(TranslationKey::ConfigTitle)
    } else if f == (18int, 'n', 'i', 'n') {
        Some(TranslationKey::ConfigDescription)
    } else if f == (20int, 't', 'p', 'n') {
        Some(TranslationKey::VendorPreset)
    } else if f == (16int, 'd', 'd', 'n') {
        Some(TranslationKey::VendorIdHex)
    } else if f == (17int, 'd', 'u', 'n') {
        Some(TranslationKey::ProductIdHex)
    } else if f == (19int, 's', 't', 'n') {
        Some(TranslationKey::LedSettings)
    } else if f == (15int, 'o', 'd', 'n') {
        Some(TranslationKey::LedGpio)
    } else if f == (17int, 'r', 'd', 'n') {
        Some(TranslationKey::LedDriver)
    } else if f == (21int, 's', 'h', 'n') {
        Some(TranslationKey::LedBrightnessLabel)
    } else if f == (20int, 't', 'i', 'n') {
        Some(TranslationKey::TouchTimeoutLabel)
    } else if f == (19int, 'e', 'm', 'n') {
        Some(TranslationKey::LedDimmableLabel)
    } else if f == (17int, 'y', 's', 'n') {
        Some(TranslationKey::LedSteadyLabel)
    } else if f == (18int, 'e', '_', 'n') {
        Some(TranslationKey::PowerCycleLabel)
    } else if f == (23int, '1', 'p', 'n') {
        Some(TranslationKey::EnableSecp256k1Label)
    } else if f == (20int, 's', 'h', 'n') {
        Some(TranslationKey::ApplyChanges)
    } else if f == (15int, 'g', 'p', 'n') {
        Some(TranslationKey::ApplyingConfig)
    } else if f == (14int, 's', 'u', 'n') {
        Some(TranslationKey::ConfigAppliedSuccess)
    } else if f == (13int, 'd', 'f', 'n') {
        Some(TranslationKey::ConfigApplyFailed)
    } else if f == (20int, 'd', 'q', 'n') {
        Some(TranslationKey::AuthRequired)
    } else if f == (16int, 'n', 'e', 'n') {
        Some(TranslationKey::EnterPinToApply)
    } else if f == (14int, 'm', 'o', 't') {
        Some(TranslationKey::Confirm)
    } else if f == (13int, 'k', 'u', 't') {
        Some(TranslationKey::Unlock)
    } else if f == (14int, 'e', '.', 's') {
        Some(TranslationKey::PasskeysTitle)
    } else if f == (20int, 'n', 'i', 's') {
        Some(TranslationKey::PasskeysDescription)
    } else if f == (23int, 'e', 't', 's') {
        Some(TranslationKey::UnlockStorage)
    } else if f == (21int, 'e', 't', 's') {
        Some(TranslationKey::LockStorage)
    } else if f == (18int, 'n', 'e', 's') {
        Some(TranslationKey::EnterPinToView)
    } else if f == (25int, 'd', 'l', 's') {
        Some(TranslationKey::StorageUnlocked)
    } else if f == (23int, 'd', 'l', 's') {
        Some(TranslationKey::StorageLocked)
    } else if f == (23int, 's', 'n', 's') {
        Some(TranslationKey::NoCredentials)
    } else if f == (14int, 'd', '.', 's') {
        Some(TranslationKey::CredentialRpId)
    } else if f == (13int, 'r', 's', 's') {
        Some(TranslationKey::CredentialUser)
    } else if f == (16int, 'd', 'r', 's') {
        Some(TranslationKey::CredentialCreated)
    } else if f == (15int, 'e', 'd', 's') {
        Some(TranslationKey::DeletePasskey)
    } else if f == (23int, 'm', 'o', 's') {
        Some(TranslationKey::DeleteConfirm)
    } else if f == (27int, 'g', 'r', 's') {
        Some(TranslationKey::DeleteConfirmMsg)
    } else if f == (19int, 'n', 'g', 's') {
        Some(TranslationKey::ChangePin)
    } else if f == (18int, 'n', 'u', 's') {
        Some(TranslationKey::SetupPin)
    } else if f == (20int, 'n', 'n', 's') {
        Some(TranslationKey::CurrentPin)
    } else if f == (16int, 'n', 'e', 's') {
        Some(TranslationKey::NewPin)
    } else if f == (20int, 'n', 'r', 's') {
        Some(TranslationKey::ConfirmNewPin)
    } else if f == (20int, 'd', 'h', 's') {
        Some(TranslationKey::PinChangedSuccess)
    } else if f == (18int, 'p', '_', 's') {
        Some(TranslationKey::PinSetupSuccess)
    } else if f == (21int, 'h', 's', 's') {
        Some(TranslationKey::PinDoNotMatch)
    } else if f == (23int, 'h', 'l', 's') {
        Some(TranslationKey::PinMinLength)
    } else if f == (26int, 'h', 'l', 's') {
        Some(TranslationKey::UpdateMinPinLength)
    } else if f == (27int, 'd', 'p', 's') {
        Some(TranslationKey::MinPinLengthUpdated)
    } else if f == (19int, 'e', '.', 'c') {
        Some(TranslationKey::SecurityTitle)
    } else if f == (25int, 'n', 'i', 'c') {
        Some(TranslationKey::SecurityDescription)
    } else if f == (30int, 'e', 's', 'c') {
        Some(TranslationKey::FeatureUnstable)
    } else if f == (30int, 'g', 'a', 'c') {
        Some(TranslationKey::FeatureDisabledWarning)
    } else if f == (27int, 's', 't', 'c') {
        Some(TranslationKey::LockSettings)
    } else if f == (32int, 't', 'e', 'c') {
        Some(TranslationKey::EnableSecureBootLabel)
    } else if f == (37int, 'c', 't', 'c') {
        Some(TranslationKey::EnableSecureBootDesc)
    } else if f == (25int, 'k', 'e', 'c') {
        Some(TranslationKey::SecureLockLabel)
    } else if f == (30int, 'c', 'k', 'c') {
        Some(TranslationKey::SecureLockDesc)
    } else if f == (30int, 's', '_', 'c') {
        Some(TranslationKey::UnderstandRisks)
    } else if f == (25int, 'e', 'd', 'c') {
        Some(TranslationKey::PermanentlyLockDevice)
    } else if f == (13int, 'e', 'u', 't') {
        Some(TranslationKey::ActionUpdate)
    } else if f == (32int, 'c', 'h', 's') {
        Some(TranslationKey::SetMinPinLengthDesc)
    } else if f == (26int, 's', '_', 's') {
        Some(TranslationKey::NewPinMinChars)
    } else if f == (19int, 't', 'i', 's') {
        Some(TranslationKey::PinIsSet)
    } else if f == (26int, 'd', 'i', 's') {
        Some(TranslationKey::NoPinConfigured)
    } else if f == (27int, 'h', 'l', 's') {
        Some(TranslationKey::CurrentMinLength)
    } else if f == (23int, 'w', 'o', 's') {
        Some(TranslationKey::UnlockToViewPasskeys)
    } else if f == (24int, 's', 's', 's') {
        Some(TranslationKey::StoredPasskeys)
    } else if f == (32int, 'c', 's', 's') {
        Some(TranslationKey::ManageCredentialsDesc)
    } else if f == (17int, 'd', 'l', 's') {
        Some(TranslationKey::Unlocked)
    } else if f == (27int, 'd', 's', 's') {
        Some(TranslationKey::CredentialsStored)
    } else if f == (14int, 'g', 'o', 'm') {
        Some(TranslationKey::Loading)
    } else if f == (14int, 's', 'u', 'm') {
        Some(TranslationKey::Success)
    } else if f == (12int, 'r', '.', 'm') {
        Some(TranslationKey::Error)
    } else if f == (14int, 'g', 'a', 'm') {
        Some(TranslationKey::Warning)
    } else {
        None
    }
}

/// Each key's identifier is an identifier in shape, and its features
/// point back to the key that owns it.
proof fn lemma_identifier_features(k: TranslationKey)
    ensures
        key_of_features(identifier_features(k.spec_as_str())) == Some(identifier_owner(k)),
        is_identifier(k.spec_as_str()),
{
    match k {
        TranslationKey::AppName => {
            reveal_strlit("app.name");
            assert("app.name"@[3] == '.');
        },
        TranslationKey::Refresh => {
            reveal_strlit("action.refresh");
            assert("action.refresh"@[6] == '.');
        },
        TranslationKey::Expand => {
            reveal_strlit("action.expand");
            assert("action.expand"@[6] == '.');
        },
        TranslationKey::Collapse => {
            reveal_strlit("action.collapse");
            assert("action.collapse"@[6] == '.');
        },
        TranslationKey::NoDeviceConnected => {
            reveal_strlit("device.no_device");
            assert("device.no_device"@[6] == '.');
        },
        TranslationKey::NotAvailable => {
            reveal_strlit("common.not_available");
            assert("common.not_available"@[6] == '.');
        },
        TranslationKey::MenuHome => {
            reveal_strlit("menu.home");
            assert("menu.home"@[4] == '.');
        },
        TranslationKey::MenuPasskeys => {
            reveal_strlit("menu.passkeys");
            assert("menu.passkeys"@[4] == '.');
        },
        TranslationKey::MenuConfiguration => {
            reveal_strlit("menu.configuration");
            assert("menu.configuration"@[4] == '.');
        },
        TranslationKey::MenuSecurity => {
            reveal_strlit("menu.security");
            assert("menu.security"@[4] == '.');
        },
        TranslationKey::MenuAbout => {
            reveal_strlit("menu.about");
            assert("menu.about"@[4] == '.');
        },
        TranslationKey::MenuLogs => {
            reveal_strlit("menu.logs");
            assert("menu.logs"@[4] == '.');
        },
        TranslationKey::DeviceStatus => {
            reveal_strlit("device.status");
            assert("device.status"@[6] == '.');
        },
        TranslationKey::StatusOnline => {
            reveal_strlit("device.status.online");
            assert("device.status.online"@[6] == '.');
        },
        TranslationKey::StatusOnlineFido => {
            reveal_strlit("device.status.online_fido");
            assert("device.status.online_fido"@[6] == '.');
        },
        TranslationKey::StatusError => {
            reveal_strlit("device.status.error");
            assert("device.status.error"@[6] == '.');
        },
        TranslationKey::StatusOffline => {
            reveal_strlit("device.status.offline");
            assert("device.status.offline"@[6] == '.');
        },
        TranslationKey::HomeTitle => {
            reveal_strlit("home.title");
            assert("home.title"@[4] == '.');
        },
        TranslationKey::HomeDescription => {
            reveal_strlit("home.description");
            assert("home.description"@[4] == '.');
        },
        TranslationKey::DeviceInformation => {
            reveal_strlit("card.device_info");
            assert("card.device_info"@[4] == '.');
        },
        TranslationKey::Fido2Information => {
            reveal_strlit("card.fido2_info");
            assert("card.fido2_info"@[4] == '.');
        },
        TranslationKey::LedConfiguration => {
            reveal_strlit("card.led_config");
            assert("card.led_config"@[4] == '.');
        },
        TranslationKey::SecurityStatus => {
            reveal_strlit("card.security_status");
            assert("card.security_status"@[4] == '.');
        },
        TranslationKey::SerialNumber => {
            reveal_strlit("device.serial");
            assert("device.serial"@[6] == '.');
        },
        TranslationKey::FirmwareVersion => {
            reveal_strlit("device.firmware");
            assert("device.firmware"@[6] == '.');
        },
        TranslationKey::VidPid => {
            reveal_strlit("device.vid_pid");
            assert("device.vid_pid"@[6] == '.');
        },
        TranslationKey::ProductName => {
            reveal_strlit("device.product_name");
            assert("device.product_name"@[6] == '.');
        },
        TranslationKey::FlashMemory => {
            reveal_strlit("device.flash_memory");
            assert("device.flash_memory"@[6] == '.');
        },
        TranslationKey::Aaguid => {
            reveal_strlit("fido.aaguid");
            assert("fido.aaguid"@[4] == '.');
        },
        TranslationKey::FidoVersions => {
            reveal_strlit("fido.versions");
            assert("fido.versions"@[4] == '.');
        },
        TranslationKey::PinSet => {
            reveal_strlit("fido.pin_set");
            assert("fido.pin_set"@[4] == '.');
        },
        TranslationKey::ResidentKeys => {
            reveal_strlit("fido.resident_keys");
            assert("fido.resident_keys"@[4] == '.');
        },
        TranslationKey::MinPinLength => {
            reveal_strlit("fido.min_pin_length");
            assert("fido.min_pin_length"@[4] == '.');
        },
        TranslationKey::RemainingCredentials => {
            reveal_strlit("fido.remaining_credentials");
            assert("fido.remaining_credentials"@[4] == '.');
        },
        TranslationKey::PinSetLabel => {
            reveal_strlit("fido.pin_set_label");
            assert("fido.pin_set_label"@[4] == '.');
        },
        TranslationKey::NotSet => {
            reveal_strlit("status.not_set");
            assert("status.not_set"@[6] == '.');
        },
        TranslationKey::Supported => {
            reveal_strlit("status.supported");
            assert("status.supported"@[6] == '.');
        },
        TranslationKey::NotSupported => {
            reveal_strlit("status.not_supported");
            assert("status.not_supported"@[6] == '.');
        },
        TranslationKey::LedGpioPin => {
            reveal_strlit("led.gpio_pin");
            assert("led.gpio_pin"@[3] == '.');
        },
        TranslationKey::LedBrightness => {
            reveal_strlit("led.brightness");
            assert("led.brightness"@[3] == '.');
        },
        TranslationKey::PresenceTouchTimeout => {
            reveal_strlit("led.touch_timeout");
            assert("led.touch_timeout"@[3] == '.');
        },
        TranslationKey::LedDimmable => {
            reveal_strlit("led.dimmable");
            assert("led.dimmable"@[3] == '.');
        },
        TranslationKey::LedSteadyMode => {
            reveal_strlit("led.steady_mode");
            assert("led.steady_mode"@[3] == '.');
        },
        TranslationKey::FidoModeNotice => {
            reveal_strlit("led.fido_mode_notice");
            assert("led.fido_mode_notice"@[3] == '.');
        },
        TranslationKey::BootMode => {
            reveal_strlit("security.boot_mode");
            assert("security.boot_mode"@[8] == '.');
        },
        TranslationKey::SecureBoot => {
            reveal_strlit("security.secure_boot");
            assert("security.secure_boot"@[8] == '.');
        },
        TranslationKey::Development => {
            reveal_strlit("security.development");
            assert("security.development"@[8] == '.');
        },
        TranslationKey::DebugInterface => {
            reveal_strlit("security.debug_interface");
            assert("security.debug_interface"@[8] == '.');
        },
        TranslationKey::ReadoutLocked => {
            reveal_strlit("security.readout_locked");
            assert("security.readout_locked"@[8] == '.');
        },
        TranslationKey::DebugEnabled => {
            reveal_strlit("security.debug_enabled");
            assert("security.debug_enabled"@[8] == '.');
        },
        TranslationKey::SecureLock => {
            reveal_strlit("security.secure_lock");
            assert("security.secure_lock"@[8] == '.');
        },
        TranslationKey::Acknowledged => {
            reveal_strlit("security.acknowledged");
            assert("security.acknowledged"@[8] == '.');
        },
        TranslationKey::Pending => {
            reveal_strlit("security.pending");
            assert("security.pending"@[8] == '.');
        },
        TranslationKey::Yes => {
            reveal_strlit("common.yes");
            assert("common.yes"@[6] == '.');
        },
        TranslationKey::No => {
            reveal_strlit("common.no");
            assert("common.no"@[6] == '.');
        },
        TranslationKey::On => {
            reveal_strlit("common.on");
            assert("common.on"@[6] == '.');
        },
        TranslationKey::Off => {
            reveal_strlit("common.off");
            assert("common.off"@[6] == '.');
        },
        TranslationKey::SetAction => {
            reveal_strlit("common.set");
            assert("common.set"@[6] == '.');
        },
        TranslationKey::Save => {
            reveal_strlit("action.save");
            assert("action.save"@[6] == '.');
        },
        TranslationKey::Cancel => {
            reveal_strlit("action.cancel");
            assert("action.cancel"@[6] == '.');
        },
        TranslationKey::Delete => {
            reveal_strlit("action.delete");
            assert("action.delete"@[6] == '.');
        },
        TranslationKey::Edit => {
            reveal_strlit("action.edit");
            assert("action.edit"@[6] == '.');
        },
        TranslationKey::Add => {
            reveal_strlit("action.add");
            assert("action.add"@[6] == '.');
        },
        TranslationKey::NotificationSuccess => {
            reveal_strlit("notification.success");
            assert("notification.success"@[12] == '.');
        },
        TranslationKey::NotificationError => {
            reveal_strlit("notification.error");
            assert("notification.error"@[12] == '.');
        },
        TranslationKey::NotificationWarning => {
            reveal_strlit("notification.warning");
            assert("notification.warning"@[12] == '.');
        },
        TranslationKey::NotificationInfo => {
            reveal_strlit("notification.info");
            assert("notification.info"@[12] == '.');
        },
        TranslationKey::AboutTitle => {
            reveal_strlit("about.title");
            assert("about.title"@[5] == '.');
        },
        TranslationKey::AboutDescription => {
            reveal_strlit("about.description");
            assert("about.description"@[5] == '.');
        },
        TranslationKey::AboutTagline => {
            reveal_strlit("about.tagline");
            assert("about.tagline"@[5] == '.');
        },
        TranslationKey::CodeBy => {
            reveal_strlit("about.code_by");
            assert("about.code_by"@[5] == '.');
        },
        TranslationKey::Copyright => {
            reveal_strlit("about.copyright");
            assert("about.copyright"@[5] == '.');
        },
        TranslationKey::ConfigTitle => {
            reveal_strlit("config.title");
            assert("config.title"@[6] == '.');
        },
        TranslationKey::ConfigDescription => {
            reveal_strlit("config.description");
            assert("config.description"@[6] == '.');
        },
        TranslationKey::VendorPreset => {
            reveal_strlit("config.vendor_preset");
            assert("config.vendor_preset"@[6] == '.');
        },
        TranslationKey::VendorIdHex => {
            reveal_strlit("config.vendor_id");
            assert("config.vendor_id"@[6] == '.');
        },
        TranslationKey::ProductIdHex => {
            reveal_strlit("config.product_id");
            assert("config.product_id"@[6] == '.');
        },
        TranslationKey::LedSettings => {
            reveal_strlit("config.led_settings");
            assert("config.led_settings"@[6] == '.');
        },
        TranslationKey::LedGpio => {
            reveal_strlit("config.led_gpio");
            assert("config.led_gpio"@[6] == '.');
        },
        TranslationKey::LedDriver => {
            reveal_strlit("config.led_driver");
            assert("config.led_driver"@[6] == '.');
        },
        TranslationKey::LedBrightnessLabel => {
            reveal_strlit("config.led_brightness");
            assert("config.led_brightness"@[6] == '.');
        },
        TranslationKey::TouchTimeoutLabel => {
            reveal_strlit("config.touch_timeout");
            assert("config.touch_timeout"@[6] == '.');
        },
        TranslationKey::LedDimmableLabel => {
            reveal_strlit("config.led_dimmable");
            assert("config.led_dimmable"@[6] == '.');
        },
        TranslationKey::LedSteadyLabel => {
            reveal_strlit("config.led_steady");
            assert("config.led_steady"@[6] == '.');
        },
        TranslationKey::PowerCycleLabel => {
            reveal_strlit("config.power_cycle");
            assert("config.power_cycle"@[6] == '.');
        },
        TranslationKey::EnableSecp256k1Label => {
            reveal_strlit("config.enable_secp256k1");
            assert("config.enable_secp256k1"@[6] == '.');
        },
        TranslationKey::ApplyChanges => {
            reveal_strlit("config.apply_changes");
            assert("config.apply_changes"@[6] == '.');
        },
        TranslationKey::ApplyingConfig => {
            reveal_strlit("config.applying");
            assert("config.applying"@[6] == '.');
        },
        TranslationKey::ConfigAppliedSuccess => {
            reveal_strlit("config.success");
            assert("config.success"@[6] == '.');
        },
        TranslationKey::ConfigApplyFailed => {
            reveal_strlit("config.failed");
            assert("config.failed"@[6] == '.');
        },
        TranslationKey::AuthRequired => {
            reveal_strlit("config.auth_required");
            assert("config.auth_required"@[6] == '.');
        },
        TranslationKey::EnterPinToApply => {
            reveal_strlit("config.enter_pin");
            assert("config.enter_pin"@[6] == '.');
        },
        TranslationKey::Confirm => {
            reveal_strlit("action.confirm");
            assert("action.confirm"@[6] == '.');
        },
        TranslationKey::Unlock => {
            reveal_strlit("action.unlock");
            assert("action.unlock"@[6] == '.');
        },
        TranslationKey::PasskeysTitle => {
            reveal_strlit("passkeys.title");
            assert("passkeys.title"@[8] == '.');
        },
        TranslationKey::PasskeysDescription => {
            reveal_strlit("passkeys.description");
            assert("passkeys.description"@[8] == '.');
        },
        TranslationKey::UnlockStorage => {
            reveal_strlit("passkeys.unlock_storage");
            assert("passkeys.unlock_storage"@[8] == '.');
        },
        TranslationKey::LockStorage => {
            reveal_strlit("passkeys.lock_storage");
            assert("passkeys.lock_storage"@[8] == '.');
        },
        TranslationKey::EnterPinToView => {
            reveal_strlit("passkeys.enter_pin");
            assert("passkeys.enter_pin"@[8] == '.');
        },
        TranslationKey::StorageUnlocked => {
            reveal_strlit("passkeys.storage_unlocked");
            assert("passkeys.storage_unlocked"@[8] == '.');
        },
        TranslationKey::StorageLocked => {
            reveal_strlit("passkeys.storage_locked");
            assert("passkeys.storage_locked"@[8] == '.');
        },
        TranslationKey::NoCredentials => {
            reveal_strlit("passkeys.no_credentials");
            assert("passkeys.no_credentials"@[8] == '.');
        },
        TranslationKey::CredentialRpId => {
            reveal_strlit("passkeys.rp_id");
            assert("passkeys.rp_id"@[8] == '.');
        },
        TranslationKey::CredentialUser => {
            reveal_strlit("passkeys.user");
            assert("passkeys.user"@[8] == '.');
        },
        TranslationKey::CredentialCreated => {
            reveal_strlit("passkeys.created");
            assert("passkeys.created"@[8] == '.');
        },
        TranslationKey::DeletePasskey => {
            reveal_strlit("passkeys.delete");
            assert("passkeys.delete"@[8] == '.');
        },
        TranslationKey::DeleteConfirm => {
            reveal_strlit("passkeys.delete_confirm");
            assert("passkeys.delete_confirm"@[8] == '.');
        },
        TranslationKey::DeleteConfirmMsg => {
            reveal_strlit("passkeys.delete_confirm_msg");
            assert("passkeys.delete_confirm_msg"@[8] == '.');
        },
        TranslationKey::ChangePin => {
            reveal_strlit("passkeys.change_pin");
            assert("passkeys.change_pin"@[8] == '.');
        },
        TranslationKey::SetupPin => {
            reveal_strlit("passkeys.setup_pin");
            assert("passkeys.setup_pin"@[8] == '.');
        },
        TranslationKey::CurrentPin => {
            reveal_strlit("passkeys.current_pin");
            assert("passkeys.current_pin"@[8] == '.');
        },
        TranslationKey::NewPin => {
            reveal_strlit("passkeys.new_pin");
            assert("passkeys.new_pin"@[8] == '.');
        },
        TranslationKey::ConfirmNewPin => {
            reveal_strlit("passkeys.confirm_pin");
            assert("passkeys.confirm_pin"@[8] == '.');
        },
        TranslationKey::PinChangedSuccess => {
            reveal_strlit("passkeys.pin_changed");
            assert("passkeys.pin_changed"@[8] == '.');
        },
        TranslationKey::PinSetupSuccess => {
            reveal_strlit("passkeys.pin_setup");
            assert("passkeys.pin_setup"@[8] == '.');
        },
        TranslationKey::PinDoNotMatch => {
            reveal_strlit("passkeys.pin_mismatch");
            assert("passkeys.pin_mismatch"@[8] == '.');
        },
        TranslationKey::PinMinLength => {
            reveal_strlit("passkeys.pin_min_length");
            assert("passkeys.pin_min_length"@[8] == '.');
        },
        TranslationKey::UpdateMinPinLength => {
            reveal_strlit("passkeys.update_min_length");
            assert("passkeys.update_min_length"@[8] == '.');
        },
        TranslationKey::MinPinLengthUpdated => {
            reveal_strlit("passkeys.min_length_updated");
            assert("passkeys.min_length_updated"@[8] == '.');
        },
        TranslationKey::SecurityTitle => {
            reveal_strlit("security_view.title");
            assert("security_view.title"@[13] == '.');
        },
        TranslationKey::SecurityDescription => {
            reveal_strlit("security_view.description");
            assert("security_view.description"@[13] == '.');
        },
        TranslationKey::FeatureUnstable => {
            reveal_strlit("security_view.feature_unstable");
            assert("security_view.feature_unstable"@[13] == '.');
        },
        TranslationKey::FeatureDisabledWarning => {
            reveal_strlit("security_view.disabled_warning");
            assert("security_view.disabled_warning"@[13] == '.');
        },
        TranslationKey::LockSettings => {
            reveal_strlit("security_view.lock_settings");
            assert("security_view.lock_settings"@[13] == '.');
        },
        TranslationKey::EnableSecureBootLabel => {
            reveal_strlit("security_view.enable_secure_boot");
            assert("security_view.enable_secure_boot"@[13] == '.');
        },
        TranslationKey::EnableSecureBootDesc => {
            reveal_strlit("security_view.enable_secure_boot_desc");
            assert("security_view.enable_secure_boot_desc"@[13] == '.');
        },
        TranslationKey::SecureLockLabel => {
            reveal_strlit("security_view.secure_lock");
            assert("security_view.secure_lock"@[13] == '.');
        },
        TranslationKey::SecureLockDesc => {
            reveal_strlit("security_view.secure_lock_desc");
            assert("security_view.secure_lock_desc"@[13] == '.');
        },
        TranslationKey::UnderstandRisks => {
            reveal_strlit("security_view.understand_risks");
            assert("security_view.understand_risks"@[13] == '.');
        },
        TranslationKey::PermanentlyLockDevice => {
            reveal_strlit("security_view.lock_device");
            assert("security_view.lock_device"@[13] == '.');
        },
        TranslationKey::ActionDelete => {
            reveal_strlit("action.delete");
            assert("action.delete"@[6] == '.');
        },
        TranslationKey::ActionCancel => {
            reveal_strlit("action.cancel");
            assert("action.cancel"@[6] == '.');
        },
        TranslationKey::ActionUpdate => {
            reveal_strlit("action.update");
            assert("action.update"@[6] == '.');
        },
        TranslationKey::SetMinPinLengthDesc => {
            reveal_strlit("passkeys.set_min_pin_length_desc");
            assert("passkeys.set_min_pin_length_desc"@[8] == '.');
        },
        TranslationKey::NewPinMinChars => {
            reveal_strlit("passkeys.new_pin_min_chars");
            assert("passkeys.new_pin_min_chars"@[8] == '.');
        },
        TranslationKey::PinIsSet => {
            reveal_strlit("passkeys.pin_is_set");
            assert("passkeys.pin_is_set"@[8] == '.');
        },
        TranslationKey::NoPinConfigured => {
            reveal_strlit("passkeys.no_pin_configured");
            assert("passkeys.no_pin_configured"@[8] == '.');
        },
        TranslationKey::CurrentMinLength => {
            reveal_strlit("passkeys.current_min_length");
            assert("passkeys.current_min_length"@[8] == '.');
        },
        TranslationKey::UnlockToViewPasskeys => {
            reveal_strlit("passkeys.unlock_to_view");
            assert("passkeys.unlock_to_view"@[8] == '.');
        },
        TranslationKey::StoredPasskeys => {
            reveal_strlit("passkeys.stored_passkeys");
            assert("passkeys.stored_passkeys"@[8] == '.');
        },
        TranslationKey::ManageCredentialsDesc => {
            reveal_strlit("passkeys.manage_credentials_desc");
            assert("passkeys.manage_credentials_desc"@[8] == '.');
        },
        TranslationKey::Unlocked => {
            reveal_strlit("passkeys.unlocked");
            assert("passkeys.unlocked"@[8] == '.');
        },
        TranslationKey::CredentialsStored => {
            reveal_strlit("passkeys.credentials_stored");
            assert("passkeys.credentials_stored"@[8] == '.');
        },
        TranslationKey::Loading => {
            reveal_strlit("common.loading");
            assert("common.loading"@[6] == '.');
        },
        TranslationKey::Success => {
            reveal_strlit("common.success");
            assert("common.success"@[6] == '.');
        },
        TranslationKey::Error => {
            reveal_strlit("common.error");
            assert("common.error"@[6] == '.');
        },
        TranslationKey::Warning => {
            reveal_strlit("common.warning");
            assert("common.warning"@[6] == '.');
        },
    }
}

/// Different keys have different identifiers, apart from `ActionDelete`
/// and `ActionCancel`, which go by the identifiers of `Delete` and
/// `Cancel`; every identifier is non-empty, holds a dot and no space.
pub proof fn lemma_identifiers_distinct(a: TranslationKey, b: TranslationKey)
    ensures
        is_identifier(a.spec_as_str()),
        a.spec_as_str() == b.spec_as_str() <==> identifier_owner(a) == identifier_owner(b),
        a.spec_as_str() == b.spec_as_str() ==> a == b
            || (a == TranslationKey::Delete && b == TranslationKey::ActionDelete)
            || (a == TranslationKey::ActionDelete && b == TranslationKey::Delete)
            || (a == TranslationKey::Cancel && b == TranslationKey::ActionCancel)
            || (a == TranslationKey::ActionCancel && b == TranslationKey::Cancel),
{
    lemma_identifier_features(a);
    lemma_identifier_features(b);
}

} // verus!
