//! Reference model of the durable credential store: usernames mapped to
//! numeric identities and salted password hashes.
//!
//! The deployed service queries a remote database for the first record
//! matching a username; this model answers the same query over an
//! in-process table. Accounts are provisioned elsewhere; the protocol
//! only ever reads them, so the model offers a lookup and a plain
//! append for populating it.

use vstd::prelude::*;

verus! {

/// One provisioned account: a unique username, its numeric identity,
/// and the opaque, algorithm-tagged hash of its password.
pub struct UserRecord {
    pub username: String,
    pub user_id: u64,
    pub password_hash: String,
}

/// What a credential lookup yields, at the specification level.
pub ghost struct Credential {
    pub user_id: u64,
    pub password_hash: Seq<char>,
}

/// The first record carrying `username`, if any — the store's query
/// returns records in order and the protocol reads the first.
pub open spec fn find_credential(users: Seq<UserRecord>, username: Seq<char>) -> Option<
    Credential,
>
    decreases users.len(),
{
    if users.len() == 0 {
        None
    } else if users[0].username@ == username {
        Some(
            Credential {
                user_id: users[0].user_id,
                password_hash: users[0].password_hash@,
            },
        )
    } else {
        find_credential(users.drop_first(), username)
    }
}

/// The username → identity/hash table.
pub struct CredentialStore {
    users: Vec<UserRecord>,
}

impl View for CredentialStore {
    type V = Seq<UserRecord>;

    closed spec fn view(&self) -> Seq<UserRecord> {
        self.users@
    }
}

impl CredentialStore {
    /// A store with no accounts.
    pub fn new() -> (r: Self)
        ensures
            r@ == Seq::<UserRecord>::empty(),
    {
        CredentialStore { users: Vec::new() }
    }

    /// Adds an account record. Provisioning is outside the protocol;
    /// this exists so a store can be populated before use.
    pub fn add_user(&mut self, username: String, user_id: u64, password_hash: String)
        ensures
            final(self)@ == old(self)@.push(
                (UserRecord { username, user_id, password_hash }),
            ),
    {
        self.users.push(UserRecord { username, user_id, password_hash });
    }

    /// Looks a username up: the identity and stored hash of the first
    /// matching record, or nothing when no record matches.
    pub fn find_user(&self, username: &String) -> (r: Option<(u64, String)>)
        ensures
            match r {
                Some(found) => find_credential(self@, username@) == Some(
                    (Credential { user_id: found.0, password_hash: found.1@ }),
                ),
                None => find_credential(self@, username@) is None,
            },
    {
        let n = self.users.len();
        let mut i: usize = 0;
        proof {
            assert(self.users@.skip(0) =~= self.users@);
        }
        while i < n
            invariant
                n == self.users@.len(),
                i <= n,
                find_credential(self.users@, username@) == find_credential(
                    self.users@.skip(i as int),
                    username@,
                ),
            decreases n - i,
        {
            proof {
                assert(self.users@.skip(i as int)[0] == self.users@[i as int]);
                assert(self.users@.skip(i as int).drop_first() =~= self.users@.skip(i as int + 1));
            }
            if self.users[i].username == *username {
                let record = &self.users[i];
                return Some((record.user_id, record.password_hash.clone()));
            }
            i += 1;
        }
        proof {
            assert(self.users@.skip(n as int).len() == 0);
        }
        None
    }
}

} // verus!
