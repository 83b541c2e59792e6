# picoforge

Configuration logic for Pico FIDO security keys, with its behaviour stated
in contracts and proved by Verus.

## Layout

- `src/` is the verified library:
  - `ctaphid` frames CTAPHID messages into 64-byte reports and reassembles
    answers; `cbor` holds the CBOR value model and the calls into
    `serde_cbor_2`; `crypto` holds the calls into `ring`, `aes`, `cbc` and
    `rand`.
  - `clientpin`, `config` and `credmgmt` build the CTAP2 requests for PIN
    tokens, PIN set/change, authenticator configuration and credential
    management, and interpret the answers; `getinfo` and `fidodevice` read
    device information.
  - `rescue` speaks the rescue applet over APDUs: selection, reading flash,
    secure-boot and physical configuration, and writing configuration as TLV.
  - `forms`, `ui`, `i18n` and `translator` hold the decisions of the user
    interface: form validation, presets, texts in English and Chinese.
  - `text` and `error` hold hexadecimal and decimal text, and the error type.
- `tests/` runs the library on concrete values.
- `app/` is the program around it: logging, HID and PC/SC transport, and the
  loops that carry the library's requests to a device.
