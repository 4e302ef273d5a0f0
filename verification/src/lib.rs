//! PKCS#11 object model for a NetHSM-backed token: the attribute values of
//! key objects, the matching and filling of attribute templates, and the
//! module configuration, each with a machine-checked contract.

pub mod constants;
pub mod le_bytes;
pub mod der;
pub mod codec;
pub mod attr;
pub mod mechanism;
pub mod object;
pub mod config;
pub mod device;
pub mod laws;
