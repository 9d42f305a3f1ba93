use crate::error::DatabaseError;
use vstd::prelude::*;

verus! {

/// The plaintext that an age file `c` authenticates under passphrase `p`,
/// or `None` when it does not authenticate (wrong passphrase, corrupt or
/// truncated file, a file not encrypted to a passphrase).
pub uninterp spec fn age_plaintext(c: Seq<u8>, p: Seq<char>) -> Option<Seq<u8>>;

/// The line every age file of the first format version begins with:
/// `age-encryption.org/v1` and a newline.
pub open spec fn age_header_start() -> Seq<u8> {
    seq![0x61u8, 0x67u8, 0x65u8, 0x2du8, 0x65u8, 0x6eu8, 0x63u8, 0x72u8, 0x79u8, 0x70u8, 0x74u8, 0x69u8, 0x6fu8, 0x6eu8, 0x2eu8, 0x6fu8, 0x72u8, 0x67u8, 0x2fu8, 0x76u8, 0x31u8, 0x0au8]
}

/// Whether `b` begins with the age file header line.
pub open spec fn is_age_file(b: Seq<u8>) -> bool {
    b.len() >= age_header_start().len() && b.subrange(0, age_header_start().len() as int) == age_header_start()
}

/// Relies on `age::Encryptor::with_user_passphrase`, `wrap_output` and
/// `StreamWriter::finish`: the age file they write starts with the header
/// line, and decrypts, under the same passphrase, to exactly the bytes
/// written into it. Written into a `Vec`, no step can fail: the passphrase
/// recipient always wraps the file key, every write to the `Vec` succeeds,
/// and `finish` is called once. Salt and nonce are drawn afresh on each
/// call, so nothing more is said of the bytes. (On a machine whose clock
/// measures the calibrating scrypt run as taking no time, age picks a work
/// factor its own scrypt refuses, and panics.)
#[verifier::external_body]
fn age_encrypt(plaintext: &Vec<u8>, passphrase: &String) -> (r: Result<Vec<u8>, age::EncryptError>)
    ensures
        r is Ok,
        r matches Ok(c) ==> age_plaintext(c@, passphrase@) == Some(plaintext@) && is_age_file(c@),
{
    let secret = age::secrecy::Secret::new(passphrase.clone());
    let mut output: Vec<u8> = Vec::new();
    let mut writer = age::Encryptor::with_user_passphrase(secret).wrap_output(&mut output)?;
    std::io::Write::write_all(&mut writer, plaintext)?;
    writer.finish()?;
    Ok(output)
}

/// Relies on `age::Decryptor::new`, `PassphraseDecryptor::decrypt` and
/// reading the `StreamReader` to its end: every chunk is authenticated, so a
/// success yields the authenticated plaintext and a file that does not
/// authenticate under the passphrase fails as a whole. A file encrypted to
/// recipients rather than a passphrase fails with `NoMatchingKeys`. The
/// scrypt work bound depends on the machine, so a file that does
/// authenticate may still fail.
#[verifier::external_body]
fn age_decrypt(ciphertext: &Vec<u8>, passphrase: &String) -> (r: Result<Vec<u8>, age::DecryptError>)
    ensures
        r matches Ok(p) ==> age_plaintext(ciphertext@, passphrase@) == Some(p@),
        age_plaintext(ciphertext@, passphrase@) is None ==> r is Err,
{
    let decryptor = match age::Decryptor::new(ciphertext.as_slice())? {
        age::Decryptor::Passphrase(d) => d,
        age::Decryptor::Recipients(_) => return Err(age::DecryptError::NoMatchingKeys),
    };
    let secret = age::secrecy::Secret::new(passphrase.clone());
    let mut reader = decryptor.decrypt(&secret, None)?;
    let mut plaintext: Vec<u8> = Vec::new();
    std::io::Read::read_to_end(&mut reader, &mut plaintext)?;
    Ok(plaintext)
}

/// Encrypts a database image under a passphrase. The ciphertext is an age
/// file that decrypts, under that passphrase, to the image.
pub fn seal(image: &Vec<u8>, passphrase: &String) -> (r: Result<Vec<u8>, DatabaseError>)
    ensures
        r is Ok,
        r matches Ok(c) ==> age_plaintext(c@, passphrase@) == Some(image@) && is_age_file(c@),
{
    match age_encrypt(image, passphrase) {
        Ok(c) => Ok(c),
        Err(e) => Err(DatabaseError::EncryptError(e)),
    }
}

/// Decrypts a ciphertext under a passphrase. A ciphertext that does not
/// authenticate always fails with [`DatabaseError::DecryptError`], and no
/// part of its plaintext is returned.
pub fn unseal(ciphertext: &Vec<u8>, passphrase: &String) -> (r: Result<Vec<u8>, DatabaseError>)
    ensures
        r matches Ok(p) ==> age_plaintext(ciphertext@, passphrase@) == Some(p@),
        age_plaintext(ciphertext@, passphrase@) is None ==> r is Err,
        r matches Err(e) ==> e is DecryptError,
{
    match age_decrypt(ciphertext, passphrase) {
        Ok(p) => Ok(p),
        Err(e) => Err(DatabaseError::DecryptError(e)),
    }
}

} // verus!
