//! The session table: an opaque session-token to account-id lookup, created
//! at login and read-only during a match. A token that is not bound reports
//! the invalid-session sentinel; callers must test for it explicitly.

use vstd::prelude::*;

verus! {

/// The account id reported for a token with no valid session.
pub const INVALID_SESSION_SENTINEL: i32 = -1;

/// The account bound to `token`, the most recent binding winning, or the
/// invalid-session sentinel.
pub open spec fn session_value(entries: Seq<(String, i32)>, token: Seq<char>) -> int
    decreases entries.len(),
{
    if entries.len() == 0 {
        INVALID_SESSION_SENTINEL as int
    } else if entries.last().0@ == token {
        entries.last().1 as int
    } else {
        session_value(entries.drop_last(), token)
    }
}

/// Session-token to account-id bindings.
pub struct AccountSessionStore {
    pub entries: Vec<(String, i32)>,
}

impl AccountSessionStore {
    /// Every bound account id is a real one, distinct from the sentinel.
    pub open spec fn wf(self) -> bool {
        forall|i: int| 0 <= i < self.entries@.len() ==> (#[trigger] self.entries@[i]).1 >= 1
    }

    pub open spec fn spec_account_of(self, token: Seq<char>) -> int {
        session_value(self.entries@, token)
    }

    pub fn new() -> (store: Self)
        ensures
            store.wf(),
            store.entries@ == Seq::<(String, i32)>::empty(),
    {
        AccountSessionStore { entries: Vec::new() }
    }

    /// Binds a token to an account, as the login path does.
    pub fn register_session(&mut self, token: String, account_unique_id: i32)
        requires
            old(self).wf(),
            account_unique_id >= 1,
        ensures
            final(self).wf(),
            final(self).spec_account_of(token@) == account_unique_id,
            forall|other: Seq<char>| other != token@ ==> final(self).spec_account_of(other)
                == old(self).spec_account_of(other),
    {
        self.entries.push((token, account_unique_id));
        proof {
            assert(self.entries@.drop_last() =~= old(self).entries@);
        }
    }

    /// The account bound to the token, or the invalid-session sentinel. No
    /// side effects either way.
    #[verifier::loop_isolation(false)]
    pub fn get_account_for_session(&self, session_id: &String) -> (account_unique_id: i32)
        requires
            self.wf(),
        ensures
            account_unique_id == self.spec_account_of(session_id@),
            (account_unique_id == INVALID_SESSION_SENTINEL) == (self.spec_account_of(session_id@)
                == INVALID_SESSION_SENTINEL as int),
            account_unique_id != INVALID_SESSION_SENTINEL ==> account_unique_id >= 1,
    {
        let mut i: usize = self.entries.len();
        proof {
            assert(self.entries@.subrange(0, i as int) =~= self.entries@);
        }
        while i > 0
            invariant
                i <= self.entries@.len(),
                session_value(self.entries@, session_id@) == session_value(
                    self.entries@.subrange(0, i as int),
                    session_id@,
                ),
            decreases i,
        {
            i = i - 1;
            proof {
                let prefix = self.entries@.subrange(0, i as int + 1);
                assert(prefix.last() == self.entries@[i as int]);
                assert(prefix.drop_last() =~= self.entries@.subrange(0, i as int));
            }
            if self.entries[i].0.eq(session_id) {
                return self.entries[i].1;
            }
        }
        proof {
            assert(self.entries@.subrange(0, 0) =~= Seq::<(String, i32)>::empty());
        }
        INVALID_SESSION_SENTINEL
    }
}

} // verus!
