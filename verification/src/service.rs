//! What the listening service decides before it listens.

use vstd::prelude::*;
use crate::errors::{BerylliumError, BerylliumResult};

verus! {

/// The private key of the service among the RSA keys that its key file
/// holds: the first one. A file without a key is an error.
pub fn load_private_key(keys: Vec<Vec<u8>>) -> (r: BerylliumResult<Vec<u8>>)
    ensures
        keys@.len() == 0 ==> r == Err::<Vec<u8>, BerylliumError>(BerylliumError::PemFileError),
        keys@.len() > 0 ==> r == Ok::<Vec<u8>, BerylliumError>(keys@[0]),
{
    let mut keys = keys;
    keys.truncate(1);
    match keys.pop() {
        Some(key) => Ok(key),
        None => Err(BerylliumError::PemFileError),
    }
}

} // verus!
