use vstd::prelude::*;

verus! {

/// Why a lookup in a registry failed.
///
/// Every variant is recoverable: the registry is left as it was.
#[derive(Clone, Copy, Debug, PartialEq, Eq)]
pub enum RegistryError {
    /// The id is not below the number of stored values.
    OutOfRange,
    /// The key is not interned (it never was, or it was removed).
    UnknownKey,
    /// The stored value is not of the requested kind.
    WrongType,
    /// The stored value cannot be bound to a shader.
    NotBindable,
}

impl RegistryError {
    /// A one-line description of the failure.
    pub fn message(&self) -> (text: &'static str)
        ensures
            text@ == match *self {
                RegistryError::OutOfRange => "index is beyond the end of the resource collection"@,
                RegistryError::UnknownKey => "key is not interned"@,
                RegistryError::WrongType => "stored resource is of another kind"@,
                RegistryError::NotBindable => "stored resource cannot be bound to a shader"@,
            },
    {
        match self {
            RegistryError::OutOfRange => "index is beyond the end of the resource collection",
            RegistryError::UnknownKey => "key is not interned",
            RegistryError::WrongType => "stored resource is of another kind",
            RegistryError::NotBindable => "stored resource cannot be bound to a shader",
        }
    }
}

} // verus!
