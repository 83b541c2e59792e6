//! Verified core of a configuration tool for Pico FIDO security keys:
//! CTAP2 constants, CTAPHID framing, CBOR request building and response
//! parsing, the Rescue applet protocol, and the translation tables.
pub mod cbor;
pub mod clientpin;
pub mod config;
pub mod constants;
pub mod credmgmt;
pub mod crypto;
pub mod ctaphid;
pub mod error;
pub mod rescue;
pub mod fidodevice;
pub mod forms;
pub mod getinfo;
pub mod i18n;
pub mod text;
pub mod translator;
pub mod types;
pub mod ui;
