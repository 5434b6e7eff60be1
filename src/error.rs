use vstd::prelude::*;

verus! {

/// A field of an operation record, named so that a decoding error can say
/// which one was missing or malformed.
#[derive(Clone, Copy, Debug, PartialEq, Eq, Structural)]
pub enum Field {
    TypeI,
    SignerKey,
    SignerWeight,
    MasterKeyWeight,
    LowThreshold,
    MedThreshold,
    HighThreshold,
    HomeDomain,
    SetFlags,
    ClearFlags,
    AuthRequired,
    AuthRevocable,
}

impl Field {
    /// The JSON key of the field.
    pub open spec fn key_of(self) -> Seq<char> {
        match self {
            Field::TypeI => "type_i"@,
            Field::SignerKey => "signer_key"@,
            Field::SignerWeight => "signer_weight"@,
            Field::MasterKeyWeight => "master_key_weight"@,
            Field::LowThreshold => "low_threshold"@,
            Field::MedThreshold => "med_threshold"@,
            Field::HighThreshold => "high_threshold"@,
            Field::HomeDomain => "home_domain"@,
            Field::SetFlags => "set_flags"@,
            Field::ClearFlags => "clear_flags"@,
            Field::AuthRequired => "auth_required"@,
            Field::AuthRevocable => "auth_revocable"@,
        }
    }

    /// The JSON key of the field.
    pub fn key(self) -> (r: &'static str)
        ensures
            r@ == self.key_of(),
    {
        match self {
            Field::TypeI => "type_i",
            Field::SignerKey => "signer_key",
            Field::SignerWeight => "signer_weight",
            Field::MasterKeyWeight => "master_key_weight",
            Field::LowThreshold => "low_threshold",
            Field::MedThreshold => "med_threshold",
            Field::HighThreshold => "high_threshold",
            Field::HomeDomain => "home_domain",
            Field::SetFlags => "set_flags",
            Field::ClearFlags => "clear_flags",
            Field::AuthRequired => "auth_required",
            Field::AuthRevocable => "auth_revocable",
        }
    }
}

/// Why a response body could not be decoded into a resource.
#[derive(Clone, Copy, Debug, PartialEq, Eq, Structural)]
pub enum DecodeError {
    /// The body is not a JSON object.
    NotAnObject,
    /// A required field is absent.
    Missing(Field),
    /// A field is present but does not have the expected shape or range.
    Invalid(Field),
}

/// The errors of converting endpoints into requests and bodies into resources.
#[derive(Clone, Copy, Debug, PartialEq, Eq, Structural)]
pub enum Error {
    /// The host and the endpoint's path do not form a valid URI.
    MalformedRequest,
    /// The body does not match the expected resource shape.
    Decode(DecodeError),
}

} // verus!
