//! Octet-wise address ciphers.
//!
//! A destination address is derived from a source address and a key, octet
//! by octet: by wrapping addition for the four octets of a version-4
//! address, and by exclusive-or for the sixteen octets of a version-6
//! address. The key is recovered from the two addresses by the inverse
//! octet operation. The arithmetic works on plain octet vectors; turning
//! addresses into octets and back is the caller's concern.

use vstd::prelude::*;

verus! {

/// A source address and a key, octet vectors of one address family, from
/// which a destination address is derived.
pub struct EgregiousEncryptionDestinationPacket<IPVersion> {
    pub from: IPVersion,
    pub key: IPVersion,
}

/// A source and a destination address, octet vectors of one address
/// family, from which the key that linked them is recovered.
pub struct EgregiousEncryptionKeyPacket<IPVersion> {
    pub from: IPVersion,
    pub to: IPVersion,
}

impl EgregiousEncryptionDestinationPacket<Vec<u8>> {
    /// The derived destination: each octet is the wrapping sum of the
    /// source octet and the key octet.
    pub fn destination(&self) -> (r: Vec<u8>)
        requires
            self.from@.len() == self.key@.len(),
        ensures
            r@.len() == self.from@.len(),
            forall|i: int|
                0 <= i < r@.len() ==> #[trigger] r@[i] == (self.from@[i] + self.key@[i]) % 256,
    {
        let n = self.from.len();
        let mut r: Vec<u8> = Vec::new();
        let mut i: usize = 0;
        while i < n
            invariant
                n == self.from@.len(),
                n == self.key@.len(),
                i <= n,
                r@.len() == i,
                forall|k: int|
                    0 <= k < i ==> #[trigger] r@[k] == (self.from@[k] + self.key@[k]) % 256,
            decreases n - i,
        {
            let o = self.from[i].wrapping_add(self.key[i]);
            proof {
                assert(o == (self.from@[i as int] + self.key@[i as int]) % 256);
            }
            r.push(o);
            i += 1;
        }
        r
    }

    /// The derived version-6 destination: each octet is the exclusive-or
    /// of the source octet and the key octet.
    pub fn destination_v6(&self) -> (r: Vec<u8>)
        requires
            self.from@.len() == self.key@.len(),
        ensures
            r@.len() == self.from@.len(),
            forall|i: int|
                0 <= i < r@.len() ==> #[trigger] r@[i] == (self.from@[i] ^ self.key@[i]),
    {
        xor_octets(&self.from, &self.key)
    }
}

impl EgregiousEncryptionKeyPacket<Vec<u8>> {
    /// The recovered key: each octet is the wrapping difference of the
    /// destination octet and the source octet.
    pub fn recovered_key(&self) -> (r: Vec<u8>)
        requires
            self.from@.len() == self.to@.len(),
        ensures
            r@.len() == self.to@.len(),
            forall|i: int|
                0 <= i < r@.len() ==> #[trigger] r@[i] == (self.to@[i] - self.from@[i]) % 256,
    {
        let n = self.to.len();
        let mut r: Vec<u8> = Vec::new();
        let mut i: usize = 0;
        while i < n
            invariant
                n == self.from@.len(),
                n == self.to@.len(),
                i <= n,
                r@.len() == i,
                forall|k: int|
                    0 <= k < i ==> #[trigger] r@[k] == (self.to@[k] - self.from@[k]) % 256,
            decreases n - i,
        {
            let o = self.to[i].wrapping_sub(self.from[i]);
            proof {
                assert(o == (self.to@[i as int] - self.from@[i as int]) % 256);
            }
            r.push(o);
            i += 1;
        }
        r
    }

    /// The recovered version-6 key: each octet is the exclusive-or of the
    /// destination octet and the source octet.
    pub fn recovered_key_v6(&self) -> (r: Vec<u8>)
        requires
            self.from@.len() == self.to@.len(),
        ensures
            r@.len() == self.to@.len(),
            forall|i: int| 0 <= i < r@.len() ==> #[trigger] r@[i] == (self.to@[i] ^ self.from@[i]),
    {
        xor_octets(&self.to, &self.from)
    }
}

/// The octet-wise exclusive-or of two equally long octet vectors.
fn xor_octets(a: &Vec<u8>, b: &Vec<u8>) -> (r: Vec<u8>)
    requires
        a@.len() == b@.len(),
    ensures
        r@.len() == a@.len(),
        forall|i: int| 0 <= i < r@.len() ==> #[trigger] r@[i] == (a@[i] ^ b@[i]),
{
    let n = a.len();
    let mut r: Vec<u8> = Vec::new();
    let mut i: usize = 0;
    while i < n
        invariant
            n == a@.len(),
            n == b@.len(),
            i <= n,
            r@.len() == i,
            forall|k: int| 0 <= k < i ==> #[trigger] r@[k] == (a@[k] ^ b@[k]),
        decreases n - i,
    {
        r.push(a[i] ^ b[i]);
        i += 1;
    }
    r
}

} // verus!
