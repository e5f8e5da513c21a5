//! The account of the device that the node runs on.

use vstd::prelude::*;
use crate::key::Sk;
use crate::secp256k1::public_key_of;
use crate::vecutil::copy_to_bytes32;

verus! {

/// The file that the secret key of the device is kept in.
pub const ACCOUNT_FILE: &'static str = "device.account";

/// The account of the device: its secret key and its address.
pub struct DeviceAccount {
    pub secret_key: Sk,
    pub address: [u8; 20],
}

impl DeviceAccount {
    /// The account of a secret key; nothing where its bytes are no secret key.
    pub fn of_key(secret_key: Sk) -> (r: Option<DeviceAccount>)
        ensures
            r.is_some() == public_key_of(secret_key@).is_some(),
            r.is_some() ==> r.unwrap().secret_key@ == secret_key@ && r.unwrap().address@
                == public_key_of(secret_key@).unwrap().subrange(12, 32),
    {
        match secret_key.pubkey() {
            Some(public_key) => Some(DeviceAccount { secret_key, address: public_key.address() }),
            None => None,
        }
    }

    /// The account that the bytes of the account file stand for: they must
    /// be the 32 bytes of a secret key.
    pub fn from_file_data(data: &Vec<u8>) -> (r: Result<DeviceAccount, ()>)
        ensures
            r.is_ok() == (data@.len() == 32 && public_key_of(data@).is_some()),
            r.is_ok() ==> r.unwrap().secret_key@ == data@ && r.unwrap().address@ == public_key_of(
                data@,
            ).unwrap().subrange(12, 32),
    {
        if data.len() != 32 {
            return Err(());
        }
        let u8l32data = copy_to_bytes32(data);
        assert(u8l32data@ =~= data@);
        match DeviceAccount::of_key(Sk::new(&u8l32data)) {
            Some(account) => Ok(account),
            None => Err(()),
        }
    }

    /// The bytes that go into the account file: those of the secret key.
    pub fn file_data(&self) -> (r: Vec<u8>)
        ensures
            r@ == self.secret_key@,
    {
        let bytes = self.secret_key.as_ref();
        let mut out: Vec<u8> = Vec::new();
        let mut i: usize = 0;
        while i < bytes.len()
            invariant
                i <= bytes@.len(),
                out@ == bytes@.subrange(0, i as int),
            decreases bytes.len() - i,
        {
            out.push(bytes[i]);
            i += 1;
            assert(out@ =~= bytes@.subrange(0, i as int));
        }
        assert(bytes@.subrange(0, i as int) =~= bytes@);
        out
    }
}

} // verus!
