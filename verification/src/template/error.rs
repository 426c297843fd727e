//! The failures of rendering and of regeneration.

use crate::store::StoreError;
use vstd::prelude::*;

verus! {

/// `base64::DecodeError`, the reason why a text does not decode.  It is
/// handed on as it came.
#[verifier::external_type_specification]
#[verifier::external_body]
pub struct ExDecodeError(base64::DecodeError);

/// Why a random string could not be made.
#[derive(Debug, Clone, Copy, PartialEq, Eq, Structural)]
pub enum GeneratorError {
    /// No character may occur.
    NoAlphabet,
    /// The length is smaller than the number of classes asked for.
    TooShort,
    /// The custom alphabet holds a character outside ASCII, or is asked for
    /// and empty.
    CustomAlphabet,
    /// The length is larger than a buffer can be.
    TooLong,
    /// The string that came out lacks a character of a class asked for.
    ClassMissing,
}

/// Why a template could not be rendered, or a secret not be regenerated.
#[derive(Debug)]
pub enum Error {
    /// The object store refused a call.
    Kube(StoreError),
    /// A base64 text does not decode.
    Base64(base64::DecodeError),
    /// A random string could not be made.
    RandStr(GeneratorError),
    /// A reference to a secret names no secret.
    SecretKeySelectorHasNoName,
    /// The secret referred to does not exist.
    SecretNotFound,
    /// The secret referred to holds no data.
    SecretHasNoData,
    /// The secret referred to does not hold the key.
    SecretKeyNotFound,
    /// The secret to regenerate names no template as its owner.
    OwnerMissing,
    /// The secret to regenerate names several templates as its owner.
    OwnerAmbiguous,
}

} // verus!
