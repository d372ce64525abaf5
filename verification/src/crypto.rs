//! Encryption of video frames.

use vstd::prelude::*;

verus! {

/// Why data could not be encrypted or decrypted.
#[derive(Debug, Clone)]
pub struct CipherError {
    pub reason: String,
}

/// Encrypts and decrypts the data of video frames.
pub trait FrameCipher: Send + Sync {
    fn encrypt(&self, data: &[u8]) -> (r: Result<Vec<u8>, CipherError>);

    fn decrypt(&self, data: &[u8]) -> (r: Result<Vec<u8>, CipherError>);
}

/// Leaves data as it is.
#[derive(Debug, Clone, Copy, PartialEq, Eq, Structural)]
pub struct NoOpCipher;

impl NoOpCipher {
    /// What encrypting gives.
    pub open spec fn encrypted(&self, data: Seq<u8>) -> Seq<u8> {
        data
    }

    /// What decrypting gives.
    pub open spec fn decrypted(&self, data: Seq<u8>) -> Seq<u8> {
        data
    }
}

impl FrameCipher for NoOpCipher {
    fn encrypt(&self, data: &[u8]) -> (r: Result<Vec<u8>, CipherError>)
        ensures
            r matches Ok(d) && d@ == self.encrypted(data@),
    {
        Ok(vstd::slice::slice_to_vec(data))
    }

    fn decrypt(&self, data: &[u8]) -> (r: Result<Vec<u8>, CipherError>)
        ensures
            r matches Ok(d) && d@ == self.decrypted(data@),
    {
        Ok(vstd::slice::slice_to_vec(data))
    }
}

/// What was encrypted decrypts to what it was.
pub proof fn law_decryption_undoes_encryption(cipher: NoOpCipher, data: Seq<u8>)
    ensures
        cipher.decrypted(cipher.encrypted(data)) == data,
{
}

/// Data that is not to be encrypted is left as it is.
pub proof fn law_data_is_left_as_it_is(cipher: NoOpCipher, data: Seq<u8>)
    ensures
        cipher.encrypted(data) == data,
        cipher.decrypted(data) == data,
{
}

} // verus!
