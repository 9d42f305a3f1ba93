use vstd::prelude::*;

verus! {

/// The kinds of failure of the store, each distinct so that a caller can
/// react to it (offer to create a store when none exists, refuse to go on
/// when the passphrase is wrong).
#[derive(Debug)]
pub enum DatabaseError {
    /// A path is not representable as UTF-8 text.
    CannotConvertPath(),
    /// The ciphertext file is missing or unreadable.
    OpenError { source: String, path: String },
    /// The ciphertext file cannot be written, or already exists when creating.
    CreateError { source: String, path: String },
    /// A read or write in the staging directory failed.
    IOError(String),
    /// The storage engine could not open the working database.
    ConnectionError(String),
    /// A migration failed to apply.
    MigrationsError(String),
    /// The codec failed to produce a ciphertext.
    EncryptError(age::EncryptError),
    /// The ciphertext failed to decrypt: wrong passphrase or corrupt file.
    DecryptError(age::DecryptError),
    /// Any other failure reported by a collaborator.
    Other(String),
}

#[verifier::external_type_specification]
#[verifier::external_body]
pub struct ExEncryptError(age::EncryptError);

#[verifier::external_type_specification]
#[verifier::external_body]
pub struct ExDecryptError(age::DecryptError);

} // verus!
