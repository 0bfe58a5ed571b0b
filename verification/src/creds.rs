//! The credential store: one durable record per authenticated account,
//! keyed by the account identifier.

use vstd::prelude::*;

use crate::errors::CredentialError;

verus! {

/// The mathematical image of one stored credential record.
pub struct CredentialsView {
    pub uuid: u128,
    pub username: Seq<char>,
    pub access_token: Seq<char>,
    pub refresh_token: Seq<char>,
    pub expires_at_ms: int,
}

/// A durable authenticated-account record: profile data and the tokens
/// needed to authorize launches.
pub struct MinecraftCredentials {
    /// Account identifier.
    pub uuid: u128,
    /// Display name of the account.
    pub username: String,
    /// Token presented when launching.
    pub access_token: String,
    /// Token used to renew the access token.
    pub refresh_token: String,
    /// When the access token lapses, milliseconds since the epoch.
    pub expires_at_ms: i64,
}

impl View for MinecraftCredentials {
    type V = CredentialsView;

    open spec fn view(&self) -> CredentialsView {
        CredentialsView {
            uuid: self.uuid,
            username: self.username@,
            access_token: self.access_token@,
            refresh_token: self.refresh_token@,
            expires_at_ms: self.expires_at_ms as int,
        }
    }
}

impl Clone for MinecraftCredentials {
    fn clone(&self) -> (r: Self)
        ensures
            r@ == self@,
    {
        MinecraftCredentials {
            uuid: self.uuid,
            username: self.username.clone(),
            access_token: self.access_token.clone(),
            refresh_token: self.refresh_token.clone(),
            expires_at_ms: self.expires_at_ms,
        }
    }
}

/// Whether some record of `s` belongs to account `id`.
pub open spec fn contains_user(s: Seq<CredentialsView>, id: u128) -> bool {
    exists|i: int| 0 <= i < s.len() && s[i].uuid == id
}

/// Account identifiers are pairwise distinct: one record per account.
pub open spec fn users_unique(s: Seq<CredentialsView>) -> bool {
    forall|i: int, j: int| 0 <= i < j < s.len() ==> s[i].uuid != s[j].uuid
}

/// The store of authenticated accounts.
pub struct CredentialStore {
    records: Vec<MinecraftCredentials>,
}

impl View for CredentialStore {
    type V = Seq<CredentialsView>;

    closed spec fn view(&self) -> Seq<CredentialsView> {
        Seq::new(self.records@.len(), |i: int| self.records@[i]@)
    }
}

impl CredentialStore {
    /// The invariant every operation preserves.
    pub open spec fn wf(&self) -> bool {
        users_unique(self@)
    }

    /// An empty store.
    pub fn new() -> (r: Self)
        ensures
            r@ == Seq::<CredentialsView>::empty(),
            r.wf(),
    {
        let r = CredentialStore { records: Vec::new() };
        proof {
            assert(r@ =~= Seq::<CredentialsView>::empty());
        }
        r
    }

    /// Inserts the record for its account, replacing an existing record
    /// of the same account: afterwards the store holds exactly this
    /// record for the account, and every other account's record is
    /// untouched.
    #[verifier::loop_isolation(false)]
    pub fn add_user(&mut self, creds: MinecraftCredentials)
        requires
            old(self).wf(),
        ensures
            final(self).wf(),
            contains_user(final(self)@, creds.uuid),
            exists|i: int| 0 <= i < final(self)@.len() && final(self)@[i] == creds@,
            forall|i: int|
                0 <= i < final(self)@.len() && final(self)@[i].uuid == creds.uuid
                    ==> final(self)@[i] == creds@,
            forall|x: u128|
                x != creds.uuid ==> (contains_user(final(self)@, x) <==> contains_user(
                    old(self)@,
                    x,
                )),
            forall|i: int|
                0 <= i < old(self)@.len() && old(self)@[i].uuid != creds.uuid ==> exists|j: int|
                    0 <= j < final(self)@.len() && final(self)@[j] == old(self)@[i],
    {
        let ghost pre = self@;
        let mut i: usize = 0;
        while i < self.records.len()
            invariant
                0 <= i <= self.records.len(),
                *self == *old(self),
                forall|j: int| 0 <= j < i ==> self@[j].uuid != creds.uuid,
            decreases self.records.len() - i,
        {
            if self.records[i].uuid == creds.uuid {
                let ghost k = i as int;
                self.records.set(i, creds);
                proof {
                    assert(pre[k].uuid == creds.uuid);
                    assert(self@ =~= pre.update(k, creds@));
                    assert(self@[k] == creds@);
                    assert forall|a: int, b: int|
                        0 <= a < b < self@.len() implies self@[a].uuid != self@[b].uuid by {
                        assert(pre[a].uuid != pre[b].uuid);
                        if a != k {
                            assert(self@[a] == pre[a]);
                        }
                        if b != k {
                            assert(self@[b] == pre[b]);
                        }
                    }
                    assert forall|x: u128| x != creds.uuid implies (contains_user(self@, x)
                        <==> contains_user(pre, x)) by {
                        if contains_user(pre, x) {
                            let w = choose|w: int| 0 <= w < pre.len() && pre[w].uuid == x;
                            assert(w != k);
                            assert(self@[w] == pre[w]);
                            assert(self@[w].uuid == x);
                        }
                        if contains_user(self@, x) {
                            let w = choose|w: int| 0 <= w < self@.len() && self@[w].uuid == x;
                            assert(w != k);
                            assert(self@[w] == pre[w]);
                            assert(pre[w].uuid == x);
                        }
                    }
                    assert forall|j: int|
                        0 <= j < pre.len() && pre[j].uuid != creds.uuid implies exists|w: int|
                            0 <= w < self@.len() && self@[w] == pre[j] by {
                        assert(self@[j] == pre[j]);
                    }
                }
                return ;
            }
            i += 1;
        }
        self.records.push(creds);
        proof {
            assert(self@ =~= pre.push(creds@));
            assert(self@[pre.len() as int] == creds@);
            assert forall|a: int, b: int|
                0 <= a < b < self@.len() implies self@[a].uuid != self@[b].uuid by {
                if b < pre.len() {
                    assert(self@[a] == pre[a]);
                    assert(self@[b] == pre[b]);
                } else {
                    assert(self@[a] == pre[a]);
                    if self@[a].uuid == creds.uuid {
                        assert(contains_user(pre, creds.uuid));
                    }
                }
            }
            assert forall|j: int|
                0 <= j < pre.len() && pre[j].uuid != creds.uuid implies exists|w: int|
                    0 <= w < self@.len() && self@[w] == pre[j] by {
                assert(self@[j] == pre[j]);
            }
        }
    }

    /// Snapshot of every stored record.
    #[verifier::loop_isolation(false)]
    pub fn get_users(&self) -> (r: Vec<MinecraftCredentials>)
        ensures
            r@.len() == self@.len(),
            forall|i: int| 0 <= i < r@.len() ==> r@[i]@ == self@[i],
    {
        let mut out: Vec<MinecraftCredentials> = Vec::new();
        let mut i: usize = 0;
        while i < self.records.len()
            invariant
                0 <= i <= self.records.len(),
                out@.len() == i,
                forall|j: int| 0 <= j < i ==> out@[j]@ == self@[j],
            decreases self.records.len() - i,
        {
            out.push(self.records[i].clone());
            i += 1;
        }
        out
    }

    /// The record of account `id`. Succeeds exactly when the store
    /// holds one.
    #[verifier::loop_isolation(false)]
    pub fn get_user(&self, id: u128) -> (r: Result<MinecraftCredentials, CredentialError>)
        ensures
            r is Ok <==> contains_user(self@, id),
            match r {
                Ok(c) => c.uuid == id && exists|i: int|
                    0 <= i < self@.len() && self@[i] == c@,
                Err(e) => e == CredentialError::NotFound,
            },
    {
        let mut i: usize = 0;
        while i < self.records.len()
            invariant
                0 <= i <= self.records.len(),
                forall|j: int| 0 <= j < i ==> self@[j].uuid != id,
            decreases self.records.len() - i,
        {
            if self.records[i].uuid == id {
                let c = self.records[i].clone();
                proof {
                    assert(self@[i as int] == c@);
                }
                return Ok(c);
            }
            i += 1;
        }
        Err(CredentialError::NotFound)
    }

    /// Removes the record of account `id`. Returns `NotFound` exactly
    /// when no record of that account is stored, and is then
    /// side-effect free.
    #[verifier::loop_isolation(false)]
    pub fn remove_user(&mut self, id: u128) -> (r: Result<(), CredentialError>)
        requires
            old(self).wf(),
        ensures
            final(self).wf(),
            r is Ok <==> contains_user(old(self)@, id),
            r is Ok ==> !contains_user(final(self)@, id) && exists|k: int|
                0 <= k < old(self)@.len() && final(self)@ == old(self)@.remove(k),
            forall|x: u128|
                x != id ==> (contains_user(final(self)@, x) <==> contains_user(old(self)@, x)),
            r is Err ==> final(self)@ == old(self)@ && r == Err::<(), CredentialError>(
                CredentialError::NotFound,
            ),
    {
        let mut i: usize = 0;
        while i < self.records.len()
            invariant
                0 <= i <= self.records.len(),
                *self == *old(self),
                forall|j: int| 0 <= j < i ==> self@[j].uuid != id,
            decreases self.records.len() - i,
        {
            if self.records[i].uuid == id {
                let ghost k = i as int;
                let ghost pre = self@;
                self.records.remove(i);
                proof {
                    assert(pre[k].uuid == id);
                    assert(self@ =~= pre.remove(k));
                    assert forall|j: int| 0 <= j < self@.len() implies self@[j].uuid != id by {
                        if j < k {
                            assert(self@[j] == pre[j]);
                        } else {
                            assert(self@[j] == pre[j + 1]);
                            assert(pre[k].uuid != pre[j + 1].uuid);
                        }
                    }
                    assert forall|a: int, b: int|
                        0 <= a < b < self@.len() implies self@[a].uuid != self@[b].uuid by {
                        let a0 = if a < k { a } else { a + 1 };
                        let b0 = if b < k { b } else { b + 1 };
                        assert(self@[a] == pre[a0]);
                        assert(self@[b] == pre[b0]);
                        assert(pre[a0].uuid != pre[b0].uuid);
                    }
                    assert forall|x: u128| x != id implies (contains_user(self@, x)
                        <==> contains_user(pre, x)) by {
                        if contains_user(pre, x) {
                            let w = choose|w: int| 0 <= w < pre.len() && pre[w].uuid == x;
                            if w < k {
                                assert(self@[w] == pre[w]);
                            } else {
                                assert(w != k);
                                assert(self@[w - 1] == pre[w]);
                            }
                        }
                        if contains_user(self@, x) {
                            let w = choose|w: int| 0 <= w < self@.len() && self@[w].uuid == x;
                            if w < k {
                                assert(self@[w] == pre[w]);
                            } else {
                                assert(self@[w] == pre[w + 1]);
                            }
                        }
                    }
                }
                return Ok(());
            }
            i += 1;
        }
        Err(CredentialError::NotFound)
    }
}

} // verus!
