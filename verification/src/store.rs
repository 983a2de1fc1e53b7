//! An abstract model of the backing store, and the laws the addressing
//! layer guarantees over it.
//!
//! The native store is modelled as what its documentation promises: an
//! atomic key-value store from account strings to text payloads.  Entries
//! are created on first write, overwritten on later writes, removed on
//! erase, and absent until then.  The trusted wrappers in `backend` perform
//! these operations; the lemmas here state what the library's address
//! derivation guarantees about them.

use vstd::prelude::*;

use crate::address::address_spec;
use crate::address::lemma_address_injective;
use crate::models::CredentialType;

verus! {

/// The store after a write: the single entry at `account` is created or
/// overwritten with `payload`; nothing else changes.
pub open spec fn store_write(
    contents: Map<Seq<char>, Seq<char>>,
    account: Seq<char>,
    payload: Seq<char>,
) -> Map<Seq<char>, Seq<char>> {
    contents.insert(account, payload)
}

/// The store after an erase: the entry at `account` is gone; nothing else
/// changes.
pub open spec fn store_erase(
    contents: Map<Seq<char>, Seq<char>>,
    account: Seq<char>,
) -> Map<Seq<char>, Seq<char>> {
    contents.remove(account)
}

/// What a read of `account` returns: the stored payload, or nothing when
/// the entry is absent.
pub open spec fn store_read(contents: Map<Seq<char>, Seq<char>>, account: Seq<char>) -> Option<
    Seq<char>,
> {
    if contents.contains_key(account) {
        Some(contents[account])
    } else {
        None
    }
}

/// Whether an entry is stored at `account`.
pub open spec fn store_has(contents: Map<Seq<char>, Seq<char>>, account: Seq<char>) -> bool {
    contents.contains_key(account)
}

/// Isolation of derived addresses: a write for one `(username, credential
/// type)` pair neither creates, changes nor destroys the entry of any other
/// pair under the same service, and an erase of one pair leaves every other
/// pair's entry alone.  In particular, storing a password for a user never
/// makes that user's secret appear, and the other way round.
pub proof fn lemma_address_isolation(
    contents: Map<Seq<char>, Seq<char>>,
    service: Seq<char>,
    username1: Seq<char>,
    type1: CredentialType,
    payload: Seq<char>,
    username2: Seq<char>,
    type2: CredentialType,
)
    requires
        username1 != username2 || type1 != type2,
    ensures
        store_read(
            store_write(contents, address_spec(service, username1, type1), payload),
            address_spec(service, username2, type2),
        ) == store_read(contents, address_spec(service, username2, type2)),
        store_read(
            store_erase(contents, address_spec(service, username1, type1)),
            address_spec(service, username2, type2),
        ) == store_read(contents, address_spec(service, username2, type2)),
        store_has(
            store_write(contents, address_spec(service, username1, type1), payload),
            address_spec(service, username2, type2),
        ) == store_has(contents, address_spec(service, username2, type2)),
{
    lemma_address_injective(service, username1, type1, username2, type2);
}

/// Idempotent delete: erasing an absent entry leaves the store exactly as
/// it was, so ensuring absence twice in a row is the same as doing it once.
pub proof fn lemma_erase_idempotent(contents: Map<Seq<char>, Seq<char>>, account: Seq<char>)
    ensures
        !store_has(contents, account) ==> store_erase(contents, account) == contents,
        store_erase(store_erase(contents, account), account) == store_erase(contents, account),
{
    if !store_has(contents, account) {
        assert(store_erase(contents, account) =~= contents);
    }
    assert(store_erase(store_erase(contents, account), account) =~= store_erase(
        contents,
        account,
    ));
}

/// Existence over the entry's lifecycle: no entry is present in an empty
/// store, one is present at its account right after a write, absent right
/// after an erase, and a read directly after a write returns exactly the
/// payload written — so a stored credential is recovered unchanged.
pub proof fn lemma_entry_lifecycle(
    contents: Map<Seq<char>, Seq<char>>,
    account: Seq<char>,
    payload: Seq<char>,
)
    ensures
        !store_has(Map::<Seq<char>, Seq<char>>::empty(), account),
        store_has(store_write(contents, account, payload), account),
        !store_has(store_erase(contents, account), account),
        store_read(store_write(contents, account, payload), account) == Some(payload),
{
}

} // verus!
