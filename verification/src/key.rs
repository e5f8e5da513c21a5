//! Secret and public keys as byte strings.

use vstd::prelude::*;

verus! {

/// Calls `rand::random`, which draws 32 bytes from the generator of the
/// thread. Nothing is known of them.
#[verifier::external_body]
fn random_bytes() -> (r: [u8; 32]) {
    rand::random()
}

/// A secret key: 32 bytes.
pub struct Sk {
    value: [u8; 32],
}

impl View for Sk {
    type V = Seq<u8>;

    closed spec fn view(&self) -> Seq<u8> {
        self.value@
    }
}

impl Sk {
    /// The secret key that holds the bytes of `value`.
    pub fn new(value: &[u8; 32]) -> (r: Sk)
        ensures
            r@ == value@,
    {
        let mut sk = Sk { value: [0u8;32] };
        let mut idx: usize = 0;
        while idx < 32
            invariant
                idx <= 32,
                forall|j: int| 0 <= j < idx ==> sk.value@[j] == value@[j],
            decreases 32 - idx,
        {
            sk.value[idx] = value[idx];
            idx += 1;
        }
        assert(sk.value@ =~= value@);
        sk
    }

    /// A secret key of 32 bytes drawn at random.
    pub fn random() -> (r: Sk)
        ensures
            r@.len() == 32,
    {
        let rbytes = random_bytes();
        Sk::new(&rbytes)
    }

    /// The bytes of the key.
    pub fn as_ref(&self) -> (r: &[u8])
        ensures
            r@ == self@,
            r@.len() == 32,
    {
        self.value.as_slice()
    }
}

/// A public key in its short form: 33 bytes.
pub struct Pk {
    value: [u8; 33],
}

impl View for Pk {
    type V = Seq<u8>;

    closed spec fn view(&self) -> Seq<u8> {
        self.value@
    }
}

impl Pk {
    /// The public key that holds `value`.
    pub fn from(value: [u8; 33]) -> (r: Pk)
        ensures
            r@ == value@,
    {
        Pk { value }
    }

    /// The address that goes with the key: its bytes from the 13th to the
    /// 32nd.
    pub fn address(&self) -> (r: [u8; 20])
        ensures
            r@ == self@.subrange(12, 32),
    {
        let mut raw_address = [0u8;20];
        let mut idx: usize = 0;
        while idx < 20
            invariant
                idx <= 20,
                forall|j: int| 0 <= j < idx ==> raw_address@[j] == self.value@[12 + j],
            decreases 20 - idx,
        {
            raw_address[idx] = self.value[12 + idx];
            idx += 1;
        }
        assert(raw_address@ =~= self.value@.subrange(12, 32));
        raw_address
    }

    /// The bytes of the key, as a vector.
    pub fn to_vec(&self) -> (r: Vec<u8>)
        ensures
            r@ == self@,
    {
        let mut out: Vec<u8> = Vec::new();
        let mut i: usize = 0;
        while i < 33
            invariant
                i <= 33,
                out@ == self.value@.subrange(0, i as int),
            decreases 33 - i,
        {
            out.push(self.value[i]);
            i += 1;
            assert(out@ =~= self.value@.subrange(0, i as int));
        }
        assert(self.value@.subrange(0, 33) =~= self.value@);
        out
    }

    /// The bytes of the key.
    pub fn as_ref(&self) -> (r: &[u8])
        ensures
            r@ == self@,
    {
        self.value.as_slice()
    }
}

} // verus!
