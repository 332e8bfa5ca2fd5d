use vstd::prelude::*;

use crate::crypto::{key_bytes, PublicKey};

verus! {

/// The registration payload a client sends with `CreateUser`.
#[derive(Debug, Default, Clone, PartialEq, Eq)]
pub struct NewUser {
    pub username: String,
    pub identity_key: PublicKey,
    pub signed_prekey: PublicKey,
    pub prekey_signature: Vec<u8>,
}

/// A registered user: a verified key bundle plus its pool of one-time
/// prekeys, which grows at the end and is consumed from the end.
#[derive(Debug, Clone, PartialEq, Eq)]
pub struct User {
    pub username: String,
    pub identity_key: PublicKey,
    pub signed_prekey: PublicKey,
    pub prekey_signature: Vec<u8>,
    pub one_time_prekeys: Vec<PublicKey>,
}

impl User {
    /// The one-time prekeys in the order they were inserted.
    pub open spec fn prekey_pool(&self) -> Seq<PublicKey> {
        self.one_time_prekeys@
    }

    /// Whether this record is the one registered from `bundle`: the same
    /// identity material and an empty prekey pool.
    pub open spec fn registered_from(&self, bundle: NewUser) -> bool {
        &&& self.username == bundle.username
        &&& self.identity_key == bundle.identity_key
        &&& self.signed_prekey == bundle.signed_prekey
        &&& self.prekey_signature@ == bundle.prekey_signature@
        &&& self.prekey_pool().len() == 0
    }

    /// Builds a user record with the given one-time prekeys, oldest first.
    pub fn with_prekeys(bundle: NewUser, keys: Vec<PublicKey>) -> (r: User)
        ensures
            r.username == bundle.username,
            r.identity_key == bundle.identity_key,
            r.signed_prekey == bundle.signed_prekey,
            r.prekey_signature@ == bundle.prekey_signature@,
            r.prekey_pool() == keys@,
    {
        User {
            username: bundle.username,
            identity_key: bundle.identity_key,
            signed_prekey: bundle.signed_prekey,
            prekey_signature: bundle.prekey_signature,
            one_time_prekeys: keys,
        }
    }

    /// Registers `bundle` as a new user with an empty prekey pool.
    pub fn register(bundle: NewUser) -> (r: User)
        ensures
            r.registered_from(bundle),
    {
        User::with_prekeys(bundle, Vec::new())
    }

    /// A copy of the stored one-time prekeys, oldest first.
    pub fn one_time_prekeys(&self) -> (r: Vec<PublicKey>)
        ensures
            key_bytes(r@) == key_bytes(self.prekey_pool()),
    {
        let mut out: Vec<PublicKey> = Vec::new();
        let n = self.one_time_prekeys.len();
        let mut i: usize = 0;
        while i < n
            invariant
                n == self.one_time_prekeys@.len(),
                i <= n,
                out@.len() == i,
                forall|j: int| 0 <= j < i ==> (#[trigger] out@[j])@ == self.one_time_prekeys@[j]@,
            decreases n - i,
        {
            out.push(self.one_time_prekeys[i].duplicate());
            i = i + 1;
        }
        assert(key_bytes(out@) =~= key_bytes(self.one_time_prekeys@));
        out
    }

    /// Appends `keys` to the pool in the order given; nothing is dropped or
    /// deduplicated.
    pub fn insert_prekeys(&mut self, keys: Vec<PublicKey>)
        ensures
            final(self).prekey_pool() == old(self).prekey_pool() + keys@,
            final(self).username == old(self).username,
            final(self).identity_key == old(self).identity_key,
            final(self).signed_prekey == old(self).signed_prekey,
            final(self).prekey_signature == old(self).prekey_signature,
    {
        let mut keys = keys;
        self.one_time_prekeys.append(&mut keys);
    }

    /// Removes and returns the most recently inserted prekey, or `None` when
    /// the pool is empty. A returned key is no longer in the pool.
    pub fn pop_prekey(&mut self) -> (r: Option<PublicKey>)
        ensures
            old(self).prekey_pool().len() == 0 ==> r is None && final(self).prekey_pool()
                == old(self).prekey_pool(),
            old(self).prekey_pool().len() > 0 ==> r == Some(old(self).prekey_pool().last())
                && final(self).prekey_pool() == old(self).prekey_pool().drop_last(),
            final(self).username == old(self).username,
            final(self).identity_key == old(self).identity_key,
            final(self).signed_prekey == old(self).signed_prekey,
            final(self).prekey_signature == old(self).prekey_signature,
    {
        self.one_time_prekeys.pop()
    }
}

/// Prekeys leave the pool last in, first out: after `keys` are appended to
/// `pool`, a pop returns the last of `keys` and leaves `pool` followed by the
/// rest of `keys`, so successive pops hand out `keys` from the back.
pub proof fn lemma_pop_returns_last_inserted(pool: Seq<PublicKey>, keys: Seq<PublicKey>)
    requires
        keys.len() > 0,
    ensures
        (pool + keys).len() > 0,
        (pool + keys).last() == keys.last(),
        (pool + keys).drop_last() == pool + keys.drop_last(),
{
    assert((pool + keys).drop_last() =~= pool + keys.drop_last());
}

impl From<NewUser> for User {
    /// The record registered from `value`, with an empty prekey pool.
    fn from(value: NewUser) -> (r: User)
        ensures
            r.registered_from(value),
    {
        User::register(value)
    }
}

/// `from_spec` would have to name the record's fresh, empty pool vector,
/// which no spec expression builds; the result of `from` is stated by the
/// `ensures` of `from` itself instead.
impl vstd::std_specs::convert::FromSpecImpl<NewUser> for User {
    open spec fn obeys_from_spec() -> bool {
        false
    }

    open spec fn from_spec(v: NewUser) -> User {
        User {
            username: v.username,
            identity_key: v.identity_key,
            signed_prekey: v.signed_prekey,
            prekey_signature: v.prekey_signature,
            one_time_prekeys: vstd::pervasive::arbitrary(),
        }
    }
}

} // verus!
