//! The laws that relate the services to one another, proved once and
//! for all over the store model.

use vstd::prelude::*;
use crate::account::Account;
use crate::session::Session;
use crate::store::{session_id_taken, AccountConfig};
use crate::strutil::lower;

verus! {

/// However many accounts have been created, at most one account exists
/// per distinct username and per distinct email, up to case, and per
/// id: in a well-formed store, two distinct rows never share any of
/// the three keys. Well-formedness holds of a fresh store and is
/// preserved by every operation, so this holds after any sequence of
/// creates.
pub proof fn lemma_unique_keys(s: AccountConfig, i: int, j: int)
    requires
        s.wf(),
        0 <= i < s.accounts@.len(),
        0 <= j < s.accounts@.len(),
        i != j,
    ensures
        lower(s.accounts@[i].username@) != lower(s.accounts@[j].username@),
        lower(s.accounts@[i].email@) != lower(s.accounts@[j].email@),
        s.accounts@[i].id@ != s.accounts@[j].id@,
{
    assert(s.accounts_wf());
    if i < j {
        assert(lower(s.accounts@[i].username@) != lower(s.accounts@[j].username@));
    } else {
        assert(lower(s.accounts@[j].username@) != lower(s.accounts@[i].username@));
    }
}

/// Creating an account and then finding it by its username yields the
/// very same record: the id, username, email and rank all match. The
/// two hypotheses are what `create` and `find_by_username` ensure on
/// success.
pub proof fn lemma_create_find_round_trip(
    pre: AccountConfig,
    post: AccountConfig,
    acc: Account,
    found: Account,
)
    requires
        post.wf(),
        post.accounts@ == pre.accounts@.push(acc),
        exists|i: int|
            0 <= i < post.accounts@.len() && found == #[trigger] post.accounts@[i] && lower(
                found.username@,
            ) == lower(acc.username@),
    ensures
        found == acc,
        found.id@ == acc.id@,
        found.username@ == acc.username@,
        found.email@ == acc.email@,
        found.rank == acc.rank,
{
    let i = choose|i: int|
        0 <= i < post.accounts@.len() && found == #[trigger] post.accounts@[i] && lower(
            found.username@,
        ) == lower(acc.username@);
    let n = pre.accounts@.len() as int;
    assert(post.accounts@[n] == acc);
    if i != n {
        assert(post.accounts_wf());
        assert(i < n);
        assert(lower(post.accounts@[i].username@) != lower(post.accounts@[n].username@));
    }
    assert(found == post.accounts@[n]);
}

/// Issuing a session, saving it, and resolving its token yields the
/// account id the session was bound to. The hypotheses are what `save`
/// ensures on success and what `find_by_session` ensures on a hit.
pub proof fn lemma_save_resolve_round_trip(
    pre: AccountConfig,
    post: AccountConfig,
    s: Session,
    resolved: Account,
    now_ms: u64,
)
    requires
        post.wf(),
        post.sessions@ == pre.sessions@.push(s),
        post.accounts@ == pre.accounts@,
        !session_id_taken(pre.sessions@, s.session_id@),
        exists|i: int, j: int|
            {
                &&& 0 <= i < post.sessions@.len()
                &&& (#[trigger] post.sessions@[i]).session_id@ == s.session_id@
                &&& now_ms < post.sessions@[i].expires_at
                &&& 0 <= j < post.accounts@.len()
                &&& resolved == #[trigger] post.accounts@[j]
                &&& resolved.id@ == post.sessions@[i].account_id@
            },
    ensures
        resolved.id@ == s.account_id@,
{
    let (i, j) = choose|i: int, j: int|
        {
            &&& 0 <= i < post.sessions@.len()
            &&& (#[trigger] post.sessions@[i]).session_id@ == s.session_id@
            &&& now_ms < post.sessions@[i].expires_at
            &&& 0 <= j < post.accounts@.len()
            &&& resolved == #[trigger] post.accounts@[j]
            &&& resolved.id@ == post.sessions@[i].account_id@
        };
    let n = pre.sessions@.len() as int;
    assert(post.sessions@[n] == s);
    if i != n {
        assert(i < n);
        assert(post.sessions@[i] == pre.sessions@[i]);
        assert(session_id_taken(pre.sessions@, s.session_id@));
    }
    assert(post.sessions@[i] == s);
}

} // verus!
