//! The paired keys of the vault format.
//!
//! Every key of the format is 64 bytes: a 32-byte AES-256 encryption key
//! followed by a 32-byte HMAC-SHA256 verification key. The same shape
//! serves three roles — master, overview and per-item — kept apart by
//! wrapper types so one can never stand in for another.

use vstd::prelude::*;

verus! {

/// A pair of keys: 32 bytes for encryption then 32 bytes for verification.
pub struct Key {
    v: Vec<u8>,
}

impl View for Key {
    type V = Seq<u8>;

    closed spec fn view(&self) -> Seq<u8> {
        self.v@
    }
}

impl Key {
    /// A key is well formed when it holds exactly 64 bytes.
    pub open spec fn wf(self) -> bool {
        self@.len() == 64
    }

    /// Wrap 64 bytes of key material.
    pub fn from(v: Vec<u8>) -> (r: Key)
        requires
            v@.len() == 64,
        ensures
            r@ == v@,
            r.wf(),
    {
        Key { v }
    }

    /// The first 32 bytes: the key used for encryption.
    pub fn encryption(&self) -> (r: &[u8])
        requires
            self.wf(),
        ensures
            r@ == self@.take(32),
            r@.len() == 32,
    {
        vstd::slice::slice_subrange(self.v.as_slice(), 0, 32)
    }

    /// The last 32 bytes: the key used for verification (HMAC).
    pub fn verification(&self) -> (r: &[u8])
        requires
            self.wf(),
        ensures
            r@ == self@.skip(32),
            r@.len() == 32,
    {
        let r = vstd::slice::slice_subrange(self.v.as_slice(), 32, 64);
        proof {
            assert(self@.subrange(32, 64) =~= self@.skip(32));
        }
        r
    }
}

impl Clone for Key {
    fn clone(&self) -> (r: Self)
        ensures
            r@ == self@,
    {
        let mut v: Vec<u8> = Vec::new();
        let mut i: usize = 0;
        while i < self.v.len()
            invariant
                i <= self.v@.len(),
                v@ == self.v@.take(i as int),
            decreases self.v@.len() - i,
        {
            v.push(self.v[i]);
            i = i + 1;
        }
        proof {
            assert(v@ =~= self.v@);
        }
        Key { v }
    }
}

/// The master key: unwraps per-item keys and so guards item details.
pub struct MasterKey {
    key: Key,
}

impl View for MasterKey {
    type V = Seq<u8>;

    closed spec fn view(&self) -> Seq<u8> {
        self.key@
    }
}

impl MasterKey {
    pub open spec fn wf(self) -> bool {
        self@.len() == 64
    }

    pub fn from(v: Vec<u8>) -> (r: MasterKey)
        requires
            v@.len() == 64,
        ensures
            r@ == v@,
            r.wf(),
    {
        MasterKey { key: Key::from(v) }
    }

    pub fn key(&self) -> (r: &Key)
        ensures
            r@ == self@,
    {
        &self.key
    }

    pub fn encryption(&self) -> (r: &[u8])
        requires
            self.wf(),
        ensures
            r@ == self@.take(32),
            r@.len() == 32,
    {
        self.key.encryption()
    }

    pub fn verification(&self) -> (r: &[u8])
        requires
            self.wf(),
        ensures
            r@ == self@.skip(32),
            r@.len() == 32,
    {
        self.key.verification()
    }
}

impl Clone for MasterKey {
    fn clone(&self) -> (r: Self)
        ensures
            r@ == self@,
    {
        MasterKey { key: self.key.clone() }
    }
}

/// The overview key: guards item overviews, folder overviews, attachment
/// overviews and the per-item HMAC.
pub struct OverviewKey {
    key: Key,
}

impl View for OverviewKey {
    type V = Seq<u8>;

    closed spec fn view(&self) -> Seq<u8> {
        self.key@
    }
}

impl OverviewKey {
    pub open spec fn wf(self) -> bool {
        self@.len() == 64
    }

    pub fn from(v: Vec<u8>) -> (r: OverviewKey)
        requires
            v@.len() == 64,
        ensures
            r@ == v@,
            r.wf(),
    {
        OverviewKey { key: Key::from(v) }
    }

    pub fn key(&self) -> (r: &Key)
        ensures
            r@ == self@,
    {
        &self.key
    }

    pub fn encryption(&self) -> (r: &[u8])
        requires
            self.wf(),
        ensures
            r@ == self@.take(32),
            r@.len() == 32,
    {
        self.key.encryption()
    }

    pub fn verification(&self) -> (r: &[u8])
        requires
            self.wf(),
        ensures
            r@ == self@.skip(32),
            r@.len() == 32,
    {
        self.key.verification()
    }
}

impl Clone for OverviewKey {
    fn clone(&self) -> (r: Self)
        ensures
            r@ == self@,
    {
        OverviewKey { key: self.key.clone() }
    }
}

/// A per-item key: unwrapped from an item's `k` blob under the master key;
/// guards that item's detail and its attachments' icon and content.
pub struct ItemKey {
    key: Key,
}

impl View for ItemKey {
    type V = Seq<u8>;

    closed spec fn view(&self) -> Seq<u8> {
        self.key@
    }
}

impl ItemKey {
    pub open spec fn wf(self) -> bool {
        self@.len() == 64
    }

    pub fn from(v: Vec<u8>) -> (r: ItemKey)
        requires
            v@.len() == 64,
        ensures
            r@ == v@,
            r.wf(),
    {
        ItemKey { key: Key::from(v) }
    }

    pub fn key(&self) -> (r: &Key)
        ensures
            r@ == self@,
    {
        &self.key
    }

    pub fn encryption(&self) -> (r: &[u8])
        requires
            self.wf(),
        ensures
            r@ == self@.take(32),
            r@.len() == 32,
    {
        self.key.encryption()
    }

    pub fn verification(&self) -> (r: &[u8])
        requires
            self.wf(),
        ensures
            r@ == self@.skip(32),
            r@.len() == 32,
    {
        self.key.verification()
    }
}

impl Clone for ItemKey {
    fn clone(&self) -> (r: Self)
        ensures
            r@ == self@,
    {
        ItemKey { key: self.key.clone() }
    }
}

} // verus!
