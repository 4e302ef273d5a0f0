# pkcs11

The object model of a PKCS#11 module for the Nitrokey NetHSM, verified with
Verus.

- `src/object.rs`: object handles, attribute values, objects; building the
  public and private key objects of a NetHSM key; matching and filling
  attribute templates.
- `src/attr.rs`: attribute templates as a PKCS#11 caller passes them.
- `src/der.rs`, `src/le_bytes.rs`: the byte layouts of attribute values.
- `src/codec.rs`: Base64 decoding and object identifier encoding, taken
  from the `base64` and `asn1` crates.
- `src/config.rs`, `src/device.rs`: merging configurations, the
  configuration file locations, password references, slot login state.
- `src/laws.rs`: properties that span several calls.
- `app/`: file and environment access, YAML, and the NetHSM client types.
