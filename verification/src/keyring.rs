//! A keyring that works: a model of the service on which storing and reading
//! a password can be followed from end to end.

use vstd::prelude::*;
use vstd::utf8::*;
use crate::error::PlatformError;
use crate::keychain::{
    acquire_next, acquire_outcome, acquire_request, acquire_start, store_next, store_request,
    store_start, AcquireModel, ReplyModel, RequestModel, StoreModel,
};

verus! {

/// A keyring whose service is running and whose default collection can be
/// unlocked. It keeps one secret for each pair of attribute and value, and
/// remembers the secret that the last search found, which is then the only
/// match.
pub struct Keyring {
    pub items: Map<(Seq<char>, Seq<char>), Seq<u8>>,
    pub found: Option<Seq<u8>>,
}

/// The keyring's answer to a request. `locked` is what it says of its lock
/// when asked.
pub open spec fn keyring_reply(k: Keyring, request: RequestModel, locked: bool) -> ReplyModel {
    match request {
        RequestModel::Connect { .. } => ReplyModel::Connected,
        RequestModel::SearchItems { attribute, value } => if k.items.contains_key(
            (attribute, value),
        ) {
            ReplyModel::Matches { unlocked: 1, locked: 0 }
        } else {
            ReplyModel::Matches { unlocked: 0, locked: 0 }
        },
        RequestModel::ReadSecret { index } => match k.found {
            Some(secret) => if index == 0 {
                ReplyModel::Secret(secret)
            } else {
                ReplyModel::Failed
            },
            None => ReplyModel::Failed,
        },
        RequestModel::DefaultCollection => ReplyModel::Collection,
        RequestModel::QueryLocked => ReplyModel::Locked(locked),
        RequestModel::Unlock => ReplyModel::Unlocked,
        RequestModel::CreateItem { .. } => ReplyModel::Created,
    }
}

/// The keyring after it has served a request: a search leaves what it found,
/// a creation puts the secret in the place of the one with the same
/// attribute and value.
pub open spec fn keyring_after(k: Keyring, request: RequestModel) -> Keyring {
    match request {
        RequestModel::SearchItems { attribute, value } => Keyring {
            items: k.items,
            found: if k.items.contains_key((attribute, value)) {
                Some(k.items[(attribute, value)])
            } else {
                None
            },
        },
        RequestModel::CreateItem { attribute, value, secret, .. } => Keyring {
            items: k.items.insert((attribute, value), secret),
            found: k.found,
        },
        _ => k,
    }
}

/// A storing run against the keyring for at most `steps` requests.
pub open spec fn run_store(s: StoreModel, k: Keyring, locked: bool, steps: nat) -> (
    StoreModel,
    Keyring,
)
    decreases steps,
{
    if steps == 0 {
        (s, k)
    } else {
        match store_request(s) {
            None => (s, k),
            Some(request) => run_store(
                store_next(s, keyring_reply(k, request, locked)),
                keyring_after(k, request),
                locked,
                (steps - 1) as nat,
            ),
        }
    }
}

/// A reading run against the keyring for at most `steps` requests.
pub open spec fn run_acquire(s: AcquireModel, k: Keyring, steps: nat) -> (AcquireModel, Keyring)
    decreases steps,
{
    if steps == 0 {
        (s, k)
    } else {
        match acquire_request(s) {
            None => (s, k),
            Some(request) => run_acquire(
                acquire_next(s, keyring_reply(k, request, false)),
                keyring_after(k, request),
                (steps - 1) as nat,
            ),
        }
    }
}

/// On a keyring that works, a password that was stored for a user is the
/// password that is then read for that user, character for character,
/// whatever the keyring held before and whether or not it was locked.
pub proof fn stored_password_is_acquired(
    k: Keyring,
    user_name: Seq<char>,
    password: Seq<char>,
    locked: bool,
)
    ensures
        acquire_outcome(
            run_acquire(
                acquire_start(user_name),
                run_store(store_start(user_name, password), k, locked, 5).1,
                3,
            ).0,
        ) == Some(Ok::<Seq<char>, PlatformError>(password)),
{
    broadcast use encode_utf8_valid_utf8, encode_utf8_decode_utf8;

    reveal_with_fuel(run_store, 6);
    reveal_with_fuel(run_acquire, 4);
}

/// On a keyring that works and holds nothing for a user, reading that user's
/// password ends with `NotFound`.
pub proof fn absent_password_is_not_found(k: Keyring, user_name: Seq<char>)
    requires
        !k.items.contains_key((crate::keychain::username_attribute(), user_name)),
    ensures
        acquire_outcome(run_acquire(acquire_start(user_name), k, 3).0) == Some(
            Err::<Seq<char>, PlatformError>(PlatformError::NotFound),
        ),
{
    reveal_with_fuel(run_acquire, 4);
}

} // verus!
