//! The closed set of reportable failures of a received message.
use vstd::prelude::*;

verus! {

/// Why a received message could not be accepted as it stands.
#[derive(Clone, Copy, Debug, PartialEq, Eq, Structural)]
pub enum MisuseCode {
    /// The envelope did not open under the checked-out key.
    ProtocolDecryptionFailed,
    /// The envelope opened, but its plaintext is not a JSON document.
    ProtocolDeserializationFailed,
    /// The payload does not satisfy the schema of its declared version.
    SchemaValidationFailed,
    /// The declared schema version cannot be resolved.
    SchemaVersionInvalid,
}

/// The value under which a misuse is reported to the registry.
pub open spec fn wire_name_of(code: MisuseCode) -> Seq<char> {
    match code {
        MisuseCode::ProtocolDecryptionFailed => "protocol_decryption_failed"@,
        MisuseCode::ProtocolDeserializationFailed => "protocol_deserialization_failed"@,
        MisuseCode::SchemaValidationFailed => "schema_validation_failed"@,
        MisuseCode::SchemaVersionInvalid => "schema_version_invalid"@,
    }
}

impl MisuseCode {
    /// The wire value of this code.
    pub fn wire_name(&self) -> (r: String)
        ensures
            r@ == wire_name_of(*self),
    {
        match self {
            MisuseCode::ProtocolDecryptionFailed => String::from_str("protocol_decryption_failed"),
            MisuseCode::ProtocolDeserializationFailed => String::from_str(
                "protocol_deserialization_failed",
            ),
            MisuseCode::SchemaValidationFailed => String::from_str("schema_validation_failed"),
            MisuseCode::SchemaVersionInvalid => String::from_str("schema_version_invalid"),
        }
    }

    /// Whether this misuse rejects the message: a schema mismatch alone leaves
    /// the authenticated, decrypted data accepted (and reported).
    pub fn is_fatal(&self) -> (r: bool)
        ensures
            r == (*self != MisuseCode::SchemaValidationFailed),
    {
        !matches!(self, MisuseCode::SchemaValidationFailed)
    }
}

} // verus!
