use snx_platform::error::PlatformError;
use snx_platform::keychain::{
    acquire_password, store_password, AcquirePhase, AcquireSession, SessionEncryption,
    StorePhase, StoreReply, StoreRequest, StoreSession,
};

fn connect() -> StoreRequest {
    StoreRequest::Connect { encryption: SessionEncryption::Dh }
}

fn every_reply() -> Vec<StoreReply> {
    vec![
        StoreReply::Failed,
        StoreReply::Connected,
        StoreReply::Matches { unlocked: 0, locked: 0 },
        StoreReply::Matches { unlocked: 2, locked: 1 },
        StoreReply::Secret(vec![1, 2, 3]),
        StoreReply::Collection,
        StoreReply::Locked(true),
        StoreReply::Locked(false),
        StoreReply::Unlocked,
        StoreReply::Created,
    ]
}

fn search_for(user: &str) -> StoreRequest {
    StoreRequest::SearchItems {
        attribute: String::from("snx-rs.username"),
        value: String::from(user),
    }
}

fn create_for(user: &str, password: &str) -> StoreRequest {
    StoreRequest::CreateItem {
        label: format!("snx-rs - {}", user),
        attribute: String::from("snx-rs.username"),
        value: String::from(user),
        secret: password.as_bytes().to_vec(),
        replace: true,
        content_type: String::from("text/plain"),
    }
}

/// A keyring that works, holding at most one password.
fn serve(held: &mut Option<(String, Vec<u8>)>, locked: bool, request: StoreRequest) -> StoreReply {
    match request {
        StoreRequest::Connect { .. } => StoreReply::Connected,
        StoreRequest::SearchItems { value, .. } => match held {
            Some((user, _)) if *user == value => StoreReply::Matches { unlocked: 1, locked: 0 },
            _ => StoreReply::Matches { unlocked: 0, locked: 0 },
        },
        StoreRequest::ReadSecret { index } => match held {
            Some((_, secret)) if index == 0 => StoreReply::Secret(secret.clone()),
            _ => StoreReply::Failed,
        },
        StoreRequest::DefaultCollection => StoreReply::Collection,
        StoreRequest::QueryLocked => StoreReply::Locked(locked),
        StoreRequest::Unlock => StoreReply::Unlocked,
        StoreRequest::CreateItem { value, secret, .. } => {
            *held = Some((value, secret));
            StoreReply::Created
        }
    }
}

fn run_store(mut session: StoreSession, held: &mut Option<(String, Vec<u8>)>, locked: bool) -> StoreSession {
    let mut steps = 0;
    while let Some(request) = session.request() {
        session = session.advance(serve(held, locked, request));
        steps += 1;
        assert!(steps <= 5);
    }
    session
}

fn run_acquire(mut session: AcquireSession, held: &mut Option<(String, Vec<u8>)>) -> AcquireSession {
    let mut steps = 0;
    while let Some(request) = session.request() {
        session = session.advance(serve(held, false, request));
        steps += 1;
        assert!(steps <= 3);
    }
    session
}

#[test]
fn acquire_begins_by_connecting() {
    let session = acquire_password("alice");
    assert_eq!(session.user_name, "alice");
    assert_eq!(session.phase, AcquirePhase::Connecting);
    assert_eq!(session.request(), Some(connect()));
    assert_eq!(session.outcome(), None);
}

#[test]
fn acquire_without_session_is_store_unavailable() {
    let session = acquire_password("alice").advance(StoreReply::Failed);
    assert_eq!(session.request(), None);
    assert_eq!(session.outcome(), Some(Err(PlatformError::StoreUnavailable)));
}

#[test]
fn acquire_searches_by_username_attribute() {
    let session = acquire_password("alice").advance(StoreReply::Connected);
    assert_eq!(session.request(), Some(search_for("alice")));
    assert_eq!(session.outcome(), None);
}

#[test]
fn acquire_with_no_match_is_not_found() {
    let session = acquire_password("alice")
        .advance(StoreReply::Connected)
        .advance(StoreReply::Matches { unlocked: 0, locked: 0 });
    assert_eq!(session.request(), None);
    assert_eq!(session.outcome(), Some(Err(PlatformError::NotFound)));
}

#[test]
fn acquire_with_only_locked_matches_is_not_found() {
    let session = acquire_password("alice")
        .advance(StoreReply::Connected)
        .advance(StoreReply::Matches { unlocked: 0, locked: 3 });
    assert_eq!(session.outcome(), Some(Err(PlatformError::NotFound)));
}

#[test]
fn acquire_with_failed_search_is_not_found() {
    let session = acquire_password("alice")
        .advance(StoreReply::Connected)
        .advance(StoreReply::Failed);
    assert_eq!(session.outcome(), Some(Err(PlatformError::NotFound)));
}

#[test]
fn acquire_reads_the_first_unlocked_match() {
    let session = acquire_password("alice")
        .advance(StoreReply::Connected)
        .advance(StoreReply::Matches { unlocked: 2, locked: 1 });
    assert_eq!(session.phase, AcquirePhase::Reading);
    assert_eq!(session.request(), Some(StoreRequest::ReadSecret { index: 0 }));
}

#[test]
fn sessions_are_never_opened_in_clear_text() {
    assert_ne!(
        acquire_password("alice").request(),
        Some(StoreRequest::Connect { encryption: SessionEncryption::Plain })
    );
    assert_ne!(
        store_password("alice", "hunter2").request(),
        Some(StoreRequest::Connect { encryption: SessionEncryption::Plain })
    );
}

#[test]
fn acquire_never_unlocks() {
    let mut held = Some((String::from("alice"), b"pw".to_vec()));
    let mut session = acquire_password("alice");
    while let Some(request) = session.request() {
        assert_ne!(request, StoreRequest::Unlock);
        session = session.advance(serve(&mut held, true, request));
    }
    assert_eq!(session.outcome(), Some(Ok(String::from("pw"))));
}

#[test]
fn acquire_with_unreadable_secret_is_not_found() {
    let session = acquire_password("alice")
        .advance(StoreReply::Connected)
        .advance(StoreReply::Matches { unlocked: 1, locked: 0 })
        .advance(StoreReply::Failed);
    assert_eq!(session.outcome(), Some(Err(PlatformError::NotFound)));
}

#[test]
fn acquire_returns_the_secret_as_text() {
    let session = acquire_password("alice")
        .advance(StoreReply::Connected)
        .advance(StoreReply::Matches { unlocked: 1, locked: 0 })
        .advance(StoreReply::Secret(b"hunter2".to_vec()));
    assert_eq!(session.request(), None);
    assert_eq!(session.outcome(), Some(Ok(String::from("hunter2"))));
}

#[test]
fn acquire_decodes_utf8_secrets() {
    let session = acquire_password("alice")
        .advance(StoreReply::Connected)
        .advance(StoreReply::Matches { unlocked: 1, locked: 0 })
        .advance(StoreReply::Secret(vec![0x70, 0xc3, 0xa4, 0xc3, 0x9f, 0xe2, 0x82, 0xac]));
    assert_eq!(session.outcome(), Some(Ok(String::from("p\u{e4}\u{df}\u{20ac}"))));
}

#[test]
fn acquire_replaces_bytes_that_are_not_utf8() {
    let session = acquire_password("alice")
        .advance(StoreReply::Connected)
        .advance(StoreReply::Matches { unlocked: 1, locked: 0 })
        .advance(StoreReply::Secret(vec![0x61, 0xff, 0x62]));
    assert_eq!(session.outcome(), Some(Ok(String::from("a\u{fffd}b"))));
}

#[test]
fn acquire_stays_ended() {
    for reply in every_reply() {
        let session = acquire_password("alice").advance(StoreReply::Failed).advance(reply);
        assert_eq!(session.outcome(), Some(Err(PlatformError::StoreUnavailable)));
    }
}

#[test]
fn acquire_with_session_is_never_store_unavailable() {
    for second in every_reply() {
        for third in every_reply() {
            let session = acquire_password("alice")
                .advance(StoreReply::Connected)
                .advance(second.clone())
                .advance(third);
            let outcome = session.outcome();
            assert!(outcome.is_some());
            assert_ne!(outcome, Some(Err(PlatformError::StoreUnavailable)));
        }
    }
}

#[test]
fn store_begins_by_connecting() {
    let session = store_password("alice", "hunter2");
    assert_eq!(session.user_name, "alice");
    assert_eq!(session.password, "hunter2");
    assert_eq!(session.phase, StorePhase::Connecting);
    assert_eq!(session.request(), Some(connect()));
    assert_eq!(session.outcome(), None);
}

#[test]
fn store_without_session_succeeds() {
    let session = store_password("alice", "hunter2").advance(StoreReply::Failed);
    assert_eq!(session.request(), None);
    assert_eq!(session.outcome(), Some(Ok(())));
}

#[test]
fn store_without_collection_succeeds() {
    let session = store_password("alice", "hunter2").advance(StoreReply::Connected);
    assert_eq!(session.request(), Some(StoreRequest::DefaultCollection));
    let session = session.advance(StoreReply::Failed);
    assert_eq!(session.request(), None);
    assert_eq!(session.outcome(), Some(Ok(())));
}

#[test]
fn store_unlocks_a_locked_collection() {
    let session = store_password("alice", "hunter2")
        .advance(StoreReply::Connected)
        .advance(StoreReply::Collection);
    assert_eq!(session.request(), Some(StoreRequest::QueryLocked));
    let session = session.advance(StoreReply::Locked(true));
    assert_eq!(session.request(), Some(StoreRequest::Unlock));
    let session = session.advance(StoreReply::Unlocked);
    assert_eq!(session.request(), Some(create_for("alice", "hunter2")));
}

#[test]
fn store_goes_on_after_a_failed_unlock() {
    let session = store_password("alice", "hunter2")
        .advance(StoreReply::Connected)
        .advance(StoreReply::Collection)
        .advance(StoreReply::Locked(true))
        .advance(StoreReply::Failed);
    assert_eq!(session.request(), Some(create_for("alice", "hunter2")));
    let session = session.advance(StoreReply::Failed);
    assert_eq!(session.outcome(), Some(Ok(())));
}

#[test]
fn store_skips_unlock_when_not_locked() {
    let session = store_password("alice", "hunter2")
        .advance(StoreReply::Connected)
        .advance(StoreReply::Collection)
        .advance(StoreReply::Locked(false));
    assert_eq!(session.request(), Some(create_for("alice", "hunter2")));
}

#[test]
fn store_skips_unlock_when_lock_state_is_unknown() {
    let session = store_password("alice", "hunter2")
        .advance(StoreReply::Connected)
        .advance(StoreReply::Collection)
        .advance(StoreReply::Failed);
    assert_eq!(session.request(), Some(create_for("alice", "hunter2")));
}

#[test]
fn store_item_is_labelled_and_tagged() {
    let session = store_password("bob@example.org", "p\u{e4}ss")
        .advance(StoreReply::Connected)
        .advance(StoreReply::Collection)
        .advance(StoreReply::Locked(false));
    assert_eq!(
        session.request(),
        Some(StoreRequest::CreateItem {
            label: String::from("snx-rs - bob@example.org"),
            attribute: String::from("snx-rs.username"),
            value: String::from("bob@example.org"),
            secret: vec![0x70, 0xc3, 0xa4, 0x73, 0x73],
            replace: true,
            content_type: String::from("text/plain"),
        })
    );
}

#[test]
fn store_succeeds_after_a_failed_write() {
    let session = store_password("alice", "hunter2")
        .advance(StoreReply::Connected)
        .advance(StoreReply::Collection)
        .advance(StoreReply::Locked(false))
        .advance(StoreReply::Failed);
    assert_eq!(session.request(), None);
    assert_eq!(session.outcome(), Some(Ok(())));
}

#[test]
fn store_never_fails_whatever_the_replies() {
    let replies = every_reply();
    let n = replies.len();
    let mut code = 0usize;
    while code < n * n * n * n * n {
        let mut session = store_password("alice", "hunter2");
        let mut rest = code;
        for _ in 0..5 {
            assert_ne!(session.outcome().map(|r| r.is_err()), Some(true));
            session = session.advance(replies[rest % n].clone());
            rest /= n;
        }
        assert_eq!(session.outcome(), Some(Ok(())));
        assert_eq!(session.request(), None);
        code += 7;
    }
}

#[test]
fn stored_password_is_read_back() {
    for locked in [false, true] {
        let mut held = None;
        let stored = run_store(store_password("alice", "hunter2"), &mut held, locked);
        assert_eq!(stored.outcome(), Some(Ok(())));
        let read = run_acquire(acquire_password("alice"), &mut held);
        assert_eq!(read.outcome(), Some(Ok(String::from("hunter2"))));
    }
}

#[test]
fn stored_password_replaces_the_earlier_one() {
    let mut held = None;
    run_store(store_password("alice", "first"), &mut held, false);
    run_store(store_password("alice", "s\u{e9}cond \u{1f511}"), &mut held, true);
    let read = run_acquire(acquire_password("alice"), &mut held);
    assert_eq!(read.outcome(), Some(Ok(String::from("s\u{e9}cond \u{1f511}"))));
}

#[test]
fn password_of_another_user_is_not_found() {
    let mut held = None;
    run_store(store_password("alice", "hunter2"), &mut held, false);
    let read = run_acquire(acquire_password("bob"), &mut held);
    assert_eq!(read.outcome(), Some(Err(PlatformError::NotFound)));
}

#[test]
fn empty_keyring_is_not_found() {
    let mut held = None;
    let read = run_acquire(acquire_password("alice"), &mut held);
    assert_eq!(read.outcome(), Some(Err(PlatformError::NotFound)));
}
