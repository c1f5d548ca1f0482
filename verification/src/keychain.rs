//! The conversation with the desktop keyring that keeps the user's password.
//!
//! Reading a password and storing one are each a short sequence of requests
//! to the keyring service. A session says which request comes next, takes the
//! service's reply, and moves on; the requests themselves are made by the
//! caller. Reading is strict: a password that cannot be had is an error.
//! Storing is lenient: whatever goes wrong, the caller is told that all is
//! well, because it already holds the password it needs.

use vstd::prelude::*;
use vstd::slice::slice_to_vec;
use vstd::string::*;
use vstd::utf8::*;
use crate::error::PlatformError;

verus! {

/// How secrets travel between this process and the keyring service.
#[derive(Debug, Clone, Copy, PartialEq, Eq, Structural)]
pub enum SessionEncryption {
    /// In clear text.
    Plain,
    /// Encrypted under a key agreed by Diffie-Hellman exchange.
    Dh,
}

/// One request to the keyring service.
#[derive(Debug, Clone, PartialEq, Eq)]
pub enum StoreRequest {
    /// Open a session with the service, with secrets protected as
    /// `encryption` says.
    Connect { encryption: SessionEncryption },
    /// Search the items that carry `attribute` with the value `value`.
    SearchItems { attribute: String, value: String },
    /// Read the secret of one of the unlocked items that the search found:
    /// the one at `index`, counted from zero in the order of the search.
    ReadSecret { index: usize },
    /// Look up the default collection.
    DefaultCollection,
    /// Ask whether the collection is locked.
    QueryLocked,
    /// Unlock the collection.
    Unlock,
    /// Create an item in the collection, in place of a matching one if
    /// `replace` is set.
    CreateItem {
        label: String,
        attribute: String,
        value: String,
        secret: Vec<u8>,
        replace: bool,
        content_type: String,
    },
}

/// A request as plain values.
pub enum RequestModel {
    Connect { encryption: SessionEncryption },
    SearchItems { attribute: Seq<char>, value: Seq<char> },
    ReadSecret { index: usize },
    DefaultCollection,
    QueryLocked,
    Unlock,
    CreateItem {
        label: Seq<char>,
        attribute: Seq<char>,
        value: Seq<char>,
        secret: Seq<u8>,
        replace: bool,
        content_type: Seq<char>,
    },
}

impl View for StoreRequest {
    type V = RequestModel;

    open spec fn view(&self) -> RequestModel {
        match *self {
            StoreRequest::Connect { encryption } => RequestModel::Connect { encryption },
            StoreRequest::SearchItems { attribute, value } => RequestModel::SearchItems {
                attribute: attribute@,
                value: value@,
            },
            StoreRequest::ReadSecret { index } => RequestModel::ReadSecret { index },
            StoreRequest::DefaultCollection => RequestModel::DefaultCollection,
            StoreRequest::QueryLocked => RequestModel::QueryLocked,
            StoreRequest::Unlock => RequestModel::Unlock,
            StoreRequest::CreateItem { label, attribute, value, secret, replace, content_type } =>
                RequestModel::CreateItem {
                    label: label@,
                    attribute: attribute@,
                    value: value@,
                    secret: secret@,
                    replace,
                    content_type: content_type@,
                },
        }
    }
}

/// What the keyring service answered to a request.
#[derive(Debug, Clone, PartialEq, Eq)]
pub enum StoreReply {
    /// The request failed.
    Failed,
    /// The session is open.
    Connected,
    /// The search ended, with so many unlocked and so many locked matches.
    Matches { unlocked: usize, locked: usize },
    /// The secret that was read.
    Secret(Vec<u8>),
    /// The default collection is at hand.
    Collection,
    /// Whether the collection is locked.
    Locked(bool),
    /// The collection was unlocked.
    Unlocked,
    /// The item was created.
    Created,
}

/// A reply as plain values.
pub enum ReplyModel {
    Failed,
    Connected,
    Matches { unlocked: usize, locked: usize },
    Secret(Seq<u8>),
    Collection,
    Locked(bool),
    Unlocked,
    Created,
}

impl View for StoreReply {
    type V = ReplyModel;

    open spec fn view(&self) -> ReplyModel {
        match *self {
            StoreReply::Failed => ReplyModel::Failed,
            StoreReply::Connected => ReplyModel::Connected,
            StoreReply::Matches { unlocked, locked } => ReplyModel::Matches { unlocked, locked },
            StoreReply::Secret(bytes) => ReplyModel::Secret(bytes@),
            StoreReply::Collection => ReplyModel::Collection,
            StoreReply::Locked(locked) => ReplyModel::Locked(locked),
            StoreReply::Unlocked => ReplyModel::Unlocked,
            StoreReply::Created => ReplyModel::Created,
        }
    }
}

/// The request that opens a session: always an encrypted one, so that no
/// password crosses the bus in clear text.
pub open spec fn connect_request() -> RequestModel {
    RequestModel::Connect { encryption: SessionEncryption::Dh }
}

/// The attribute under which an item names its user.
pub open spec fn username_attribute() -> Seq<char> {
    "snx-rs.username"@
}

/// The label of the item that keeps the password of `user_name`.
pub open spec fn item_label(user_name: Seq<char>) -> Seq<char> {
    "snx-rs - "@ + user_name
}

/// The content type of a stored password.
pub open spec fn secret_content_type() -> Seq<char> {
    "text/plain"@
}

/// The text that `String::from_utf8_lossy` makes of bytes.
pub uninterp spec fn lossy_text(bytes: Seq<u8>) -> Seq<char>;

/// A secret read as text: its characters where the bytes are UTF-8, and
/// otherwise what a lossy decoding makes of them.
pub open spec fn secret_text(bytes: Seq<u8>) -> Seq<char> {
    if valid_utf8(bytes) {
        decode_utf8(bytes)
    } else {
        lossy_text(bytes)
    }
}

/// `String::from_utf8_lossy`, made into an owned string. The contract names
/// the result and adds what the function's documentation promises of valid
/// UTF-8: it comes back as the string that the bytes encode.
#[verifier::external_body]
fn decode_secret(bytes: &[u8]) -> (text: String)
    ensures
        text@ == lossy_text(bytes@),
        valid_utf8(bytes@) ==> text@ == decode_utf8(bytes@),
{
    String::from_utf8_lossy(bytes).into_owned()
}

/// How far the reading of a password has come.
#[derive(Debug, PartialEq, Eq)]
pub enum AcquirePhase {
    Connecting,
    Searching,
    Reading,
    Done(Result<String, PlatformError>),
}

/// The phase of a reading as plain values.
pub enum AcquirePhaseModel {
    Connecting,
    Searching,
    Reading,
    Done(Result<Seq<char>, PlatformError>),
}

/// A result with its text as plain characters.
pub open spec fn result_model(r: Result<String, PlatformError>) -> Result<
    Seq<char>,
    PlatformError,
> {
    match r {
        Ok(text) => Ok(text@),
        Err(e) => Err(e),
    }
}

impl View for AcquirePhase {
    type V = AcquirePhaseModel;

    open spec fn view(&self) -> AcquirePhaseModel {
        match *self {
            AcquirePhase::Connecting => AcquirePhaseModel::Connecting,
            AcquirePhase::Searching => AcquirePhaseModel::Searching,
            AcquirePhase::Reading => AcquirePhaseModel::Reading,
            AcquirePhase::Done(r) => AcquirePhaseModel::Done(result_model(r)),
        }
    }
}

/// The reading of one user's password from the keyring.
#[derive(Debug, PartialEq, Eq)]
pub struct AcquireSession {
    pub user_name: String,
    pub phase: AcquirePhase,
}

/// A reading as plain values.
pub struct AcquireModel {
    pub user_name: Seq<char>,
    pub phase: AcquirePhaseModel,
}

impl View for AcquireSession {
    type V = AcquireModel;

    open spec fn view(&self) -> AcquireModel {
        AcquireModel { user_name: self.user_name@, phase: self.phase@ }
    }
}

/// A reading that has not begun.
pub open spec fn acquire_start(user_name: Seq<char>) -> AcquireModel {
    AcquireModel { user_name, phase: AcquirePhaseModel::Connecting }
}

/// The request that a reading makes next; none once it has ended. Of the
/// unlocked matches it reads the first.
pub open spec fn acquire_request(s: AcquireModel) -> Option<RequestModel> {
    match s.phase {
        AcquirePhaseModel::Connecting => Some(connect_request()),
        AcquirePhaseModel::Searching => Some(
            RequestModel::SearchItems { attribute: username_attribute(), value: s.user_name },
        ),
        AcquirePhaseModel::Reading => Some(RequestModel::ReadSecret { index: 0 }),
        AcquirePhaseModel::Done(_) => None,
    }
}

/// The phase that follows `phase` on `reply`. Without a session the store is
/// unavailable. With one, anything short of an unlocked match whose secret
/// can be read means that no password was found: a failed search, no match,
/// only locked matches, a secret that cannot be read. A reply that does not
/// answer the pending request counts as that request's failure.
pub open spec fn acquire_next_phase(phase: AcquirePhaseModel, reply: ReplyModel) -> AcquirePhaseModel {
    match phase {
        AcquirePhaseModel::Connecting => match reply {
            ReplyModel::Connected => AcquirePhaseModel::Searching,
            _ => AcquirePhaseModel::Done(Err(PlatformError::StoreUnavailable)),
        },
        AcquirePhaseModel::Searching => match reply {
            ReplyModel::Matches { unlocked, locked } => if unlocked > 0 {
                AcquirePhaseModel::Reading
            } else {
                AcquirePhaseModel::Done(Err(PlatformError::NotFound))
            },
            _ => AcquirePhaseModel::Done(Err(PlatformError::NotFound)),
        },
        AcquirePhaseModel::Reading => match reply {
            ReplyModel::Secret(bytes) => AcquirePhaseModel::Done(Ok(secret_text(bytes))),
            _ => AcquirePhaseModel::Done(Err(PlatformError::NotFound)),
        },
        AcquirePhaseModel::Done(r) => AcquirePhaseModel::Done(r),
    }
}

/// The reading after `reply` has come in.
pub open spec fn acquire_next(s: AcquireModel, reply: ReplyModel) -> AcquireModel {
    AcquireModel { user_name: s.user_name, phase: acquire_next_phase(s.phase, reply) }
}

/// What a reading has come to, once it has ended.
pub open spec fn acquire_outcome(s: AcquireModel) -> Option<Result<Seq<char>, PlatformError>> {
    match s.phase {
        AcquirePhaseModel::Done(r) => Some(r),
        _ => None,
    }
}

/// Begins the reading of the password of `user_name`.
pub fn acquire_password(user_name: &str) -> (session: AcquireSession)
    ensures
        session@ == acquire_start(user_name@),
{
    AcquireSession { user_name: user_name.to_owned(), phase: AcquirePhase::Connecting }
}

impl AcquireSession {
    /// The request to make next, or `None` when the reading has ended.
    pub fn request(&self) -> (r: Option<StoreRequest>)
        ensures
            match r {
                Some(q) => acquire_request(self@) == Some(q@),
                None => acquire_request(self@) is None,
            },
    {
        match &self.phase {
            AcquirePhase::Connecting => Some(
                StoreRequest::Connect { encryption: SessionEncryption::Dh },
            ),
            AcquirePhase::Searching => Some(
                StoreRequest::SearchItems {
                    attribute: "snx-rs.username".to_owned(),
                    value: self.user_name.clone(),
                },
            ),
            AcquirePhase::Reading => Some(StoreRequest::ReadSecret { index: 0 }),
            AcquirePhase::Done(_) => None,
        }
    }

    /// Takes the service's reply to the pending request and moves on.
    pub fn advance(self, reply: StoreReply) -> (next: AcquireSession)
        ensures
            next@ == acquire_next(self@, reply@),
    {
        let AcquireSession { user_name, phase } = self;
        let phase = match phase {
            AcquirePhase::Connecting => match reply {
                StoreReply::Connected => AcquirePhase::Searching,
                _ => AcquirePhase::Done(Err(PlatformError::StoreUnavailable)),
            },
            AcquirePhase::Searching => match reply {
                StoreReply::Matches { unlocked, locked: _ } => if unlocked > 0 {
                    AcquirePhase::Reading
                } else {
                    AcquirePhase::Done(Err(PlatformError::NotFound))
                },
                _ => AcquirePhase::Done(Err(PlatformError::NotFound)),
            },
            AcquirePhase::Reading => match reply {
                StoreReply::Secret(bytes) => AcquirePhase::Done(Ok(decode_secret(bytes.as_slice()))),
                _ => AcquirePhase::Done(Err(PlatformError::NotFound)),
            },
            AcquirePhase::Done(r) => AcquirePhase::Done(r),
        };
        AcquireSession { user_name, phase }
    }

    /// The password or the error that the reading ended with, or `None` while
    /// it is under way.
    pub fn outcome(&self) -> (r: Option<Result<String, PlatformError>>)
        ensures
            match r {
                Some(res) => acquire_outcome(self@) == Some(result_model(res)),
                None => acquire_outcome(self@) is None,
            },
    {
        match &self.phase {
            AcquirePhase::Done(Ok(text)) => Some(Ok(text.clone())),
            AcquirePhase::Done(Err(e)) => Some(Err(*e)),
            _ => None,
        }
    }
}

/// How far the storing of a password has come.
#[derive(Debug, Clone, Copy, PartialEq, Eq, Structural)]
pub enum StorePhase {
    Connecting,
    OpeningCollection,
    CheckingLock,
    Unlocking,
    Creating,
    Done,
}

/// The storing of one user's password in the keyring.
#[derive(Debug, PartialEq, Eq)]
pub struct StoreSession {
    pub user_name: String,
    pub password: String,
    pub phase: StorePhase,
}

/// A storing as plain values.
pub struct StoreModel {
    pub user_name: Seq<char>,
    pub password: Seq<char>,
    pub phase: StorePhase,
}

impl View for StoreSession {
    type V = StoreModel;

    open spec fn view(&self) -> StoreModel {
        StoreModel { user_name: self.user_name@, password: self.password@, phase: self.phase }
    }
}

/// A storing that has not begun.
pub open spec fn store_start(user_name: Seq<char>, password: Seq<char>) -> StoreModel {
    StoreModel { user_name, password, phase: StorePhase::Connecting }
}

/// The request that a storing makes next; none once it has ended. The item
/// it creates is labelled with the user's name, carries the name under the
/// username attribute, holds the password's UTF-8 bytes as plain text, and
/// replaces a matching item.
pub open spec fn store_request(s: StoreModel) -> Option<RequestModel> {
    match s.phase {
        StorePhase::Connecting => Some(connect_request()),
        StorePhase::OpeningCollection => Some(RequestModel::DefaultCollection),
        StorePhase::CheckingLock => Some(RequestModel::QueryLocked),
        StorePhase::Unlocking => Some(RequestModel::Unlock),
        StorePhase::Creating => Some(
            RequestModel::CreateItem {
                label: item_label(s.user_name),
                attribute: username_attribute(),
                value: s.user_name,
                secret: encode_utf8(s.password),
                replace: true,
                content_type: secret_content_type(),
            },
        ),
        StorePhase::Done => None,
    }
}

/// The phase that follows `phase` on `reply`. Without a session or without
/// the default collection the storing ends at once. A collection that says
/// it is locked is unlocked first; whatever comes of that, and whenever the
/// lock's state is not known, the item is created next. Whatever comes of
/// the creation, the storing has then ended.
pub open spec fn store_next_phase(phase: StorePhase, reply: ReplyModel) -> StorePhase {
    match phase {
        StorePhase::Connecting => match reply {
            ReplyModel::Connected => StorePhase::OpeningCollection,
            _ => StorePhase::Done,
        },
        StorePhase::OpeningCollection => match reply {
            ReplyModel::Collection => StorePhase::CheckingLock,
            _ => StorePhase::Done,
        },
        StorePhase::CheckingLock => match reply {
            ReplyModel::Locked(locked) => if locked {
                StorePhase::Unlocking
            } else {
                StorePhase::Creating
            },
            _ => StorePhase::Creating,
        },
        StorePhase::Unlocking => StorePhase::Creating,
        StorePhase::Creating => StorePhase::Done,
        StorePhase::Done => StorePhase::Done,
    }
}

/// The storing after `reply` has come in.
pub open spec fn store_next(s: StoreModel, reply: ReplyModel) -> StoreModel {
    StoreModel {
        user_name: s.user_name,
        password: s.password,
        phase: store_next_phase(s.phase, reply),
    }
}

/// What a storing has come to, once it has ended: success, always.
pub open spec fn store_outcome(s: StoreModel) -> Option<Result<(), PlatformError>> {
    match s.phase {
        StorePhase::Done => Some(Ok(())),
        _ => None,
    }
}

/// Begins the storing of `password` for `user_name`.
pub fn store_password(user_name: &str, password: &str) -> (session: StoreSession)
    ensures
        session@ == store_start(user_name@, password@),
{
    StoreSession {
        user_name: user_name.to_owned(),
        password: password.to_owned(),
        phase: StorePhase::Connecting,
    }
}

impl StoreSession {
    /// The request to make next, or `None` when the storing has ended.
    pub fn request(&self) -> (r: Option<StoreRequest>)
        ensures
            match r {
                Some(q) => store_request(self@) == Some(q@),
                None => store_request(self@) is None,
            },
    {
        match self.phase {
            StorePhase::Connecting => Some(
                StoreRequest::Connect { encryption: SessionEncryption::Dh },
            ),
            StorePhase::OpeningCollection => Some(StoreRequest::DefaultCollection),
            StorePhase::CheckingLock => Some(StoreRequest::QueryLocked),
            StorePhase::Unlocking => Some(StoreRequest::Unlock),
            StorePhase::Creating => {
                let label = "snx-rs - ".to_owned().concat(self.user_name.as_str());
                Some(
                    StoreRequest::CreateItem {
                        label,
                        attribute: "snx-rs.username".to_owned(),
                        value: self.user_name.clone(),
                        secret: slice_to_vec(self.password.as_str().as_bytes()),
                        replace: true,
                        content_type: "text/plain".to_owned(),
                    },
                )
            },
            StorePhase::Done => None,
        }
    }

    /// Takes the service's reply to the pending request and moves on.
    pub fn advance(self, reply: StoreReply) -> (next: StoreSession)
        ensures
            next@ == store_next(self@, reply@),
    {
        let StoreSession { user_name, password, phase } = self;
        let phase = match phase {
            StorePhase::Connecting => match reply {
                StoreReply::Connected => StorePhase::OpeningCollection,
                _ => StorePhase::Done,
            },
            StorePhase::OpeningCollection => match reply {
                StoreReply::Collection => StorePhase::CheckingLock,
                _ => StorePhase::Done,
            },
            StorePhase::CheckingLock => match reply {
                StoreReply::Locked(true) => StorePhase::Unlocking,
                _ => StorePhase::Creating,
            },
            StorePhase::Unlocking => StorePhase::Creating,
            StorePhase::Creating => StorePhase::Done,
            StorePhase::Done => StorePhase::Done,
        };
        StoreSession { user_name, password, phase }
    }

    /// `Some(Ok(()))` once the storing has ended, `None` while it is under
    /// way. A storing never ends in an error.
    pub fn outcome(&self) -> (r: Option<Result<(), PlatformError>>)
        ensures
            r == store_outcome(self@),
            r matches Some(res) ==> res is Ok,
    {
        match self.phase {
            StorePhase::Done => Some(Ok(())),
            _ => None,
        }
    }
}

/// A reading that got its session never reports the store as unavailable:
/// once past connecting, it stays past connecting, and whatever the replies,
/// it does not end with `StoreUnavailable`.
pub proof fn reachable_store_is_not_unavailable(s: AcquireModel, reply: ReplyModel)
    requires
        s.phase != AcquirePhaseModel::Connecting,
        acquire_outcome(s) != Some(Err::<Seq<char>, PlatformError>(PlatformError::StoreUnavailable)),
    ensures
        acquire_next(s, reply).phase != AcquirePhaseModel::Connecting,
        acquire_outcome(acquire_next(s, reply)) != Some(
            Err::<Seq<char>, PlatformError>(PlatformError::StoreUnavailable),
        ),
{
}

/// With a session open, a search that brings no unlocked match ends the
/// reading with `NotFound`: no match at all, locked matches only, or a search
/// that failed.
pub proof fn missing_password_is_not_found(user_name: Seq<char>, found: ReplyModel)
    requires
        found matches ReplyModel::Matches { unlocked, .. } ==> unlocked == 0,
    ensures
        acquire_outcome(
            acquire_next(acquire_next(acquire_start(user_name), ReplyModel::Connected), found),
        ) == Some(Err::<Seq<char>, PlatformError>(PlatformError::NotFound)),
{
}

/// Without a session a reading ends at once, with `StoreUnavailable`.
pub proof fn unreachable_store_is_unavailable(user_name: Seq<char>, reply: ReplyModel)
    requires
        reply != ReplyModel::Connected,
    ensures
        acquire_outcome(acquire_next(acquire_start(user_name), reply)) == Some(
            Err::<Seq<char>, PlatformError>(PlatformError::StoreUnavailable),
        ),
{
}

/// How many replies a reading can still take before it has ended.
pub open spec fn acquire_steps_left(phase: AcquirePhaseModel) -> nat {
    match phase {
        AcquirePhaseModel::Connecting => 3,
        AcquirePhaseModel::Searching => 2,
        AcquirePhaseModel::Reading => 1,
        AcquirePhaseModel::Done(_) => 0,
    }
}

/// Every reply brings a reading closer to its end, and a reading that has
/// ended keeps its outcome.
pub proof fn acquire_moves_on(s: AcquireModel, reply: ReplyModel)
    ensures
        acquire_outcome(s) is None ==> acquire_steps_left(acquire_next(s, reply).phase)
            < acquire_steps_left(s.phase),
        acquire_outcome(s) is Some ==> acquire_next(s, reply) == s,
        acquire_outcome(s) is Some <==> acquire_request(s) is None,
        acquire_outcome(s) is Some <==> acquire_steps_left(s.phase) == 0,
{
}

/// A reading has ended after three replies, whatever they are.
pub proof fn acquire_ends_within_three(
    user_name: Seq<char>,
    r1: ReplyModel,
    r2: ReplyModel,
    r3: ReplyModel,
)
    ensures
        acquire_outcome(
            acquire_next(acquire_next(acquire_next(acquire_start(user_name), r1), r2), r3),
        ) is Some,
{
}

/// A storing never ends in an error: in every state its outcome is either
/// still open or success.
pub proof fn store_never_fails(s: StoreModel)
    ensures
        store_outcome(s) is None || store_outcome(s) == Some(Ok::<(), PlatformError>(())),
{
}

/// How many replies a storing can still take before it has ended.
pub open spec fn store_steps_left(phase: StorePhase) -> nat {
    match phase {
        StorePhase::Connecting => 5,
        StorePhase::OpeningCollection => 4,
        StorePhase::CheckingLock => 3,
        StorePhase::Unlocking => 2,
        StorePhase::Creating => 1,
        StorePhase::Done => 0,
    }
}

/// Every reply brings a storing closer to its end, and a storing that has
/// ended stays ended.
pub proof fn store_moves_on(s: StoreModel, reply: ReplyModel)
    ensures
        store_outcome(s) is None ==> store_steps_left(store_next(s, reply).phase)
            < store_steps_left(s.phase),
        store_outcome(s) is Some ==> store_next(s, reply) == s,
        store_outcome(s) is Some <==> store_request(s) is None,
        store_outcome(s) is Some <==> store_steps_left(s.phase) == 0,
{
}

/// A storing has ended, in success, after five replies, whatever they are:
/// no session, no collection, a failed unlock, a failed write.
pub proof fn store_ends_within_five(
    user_name: Seq<char>,
    password: Seq<char>,
    r1: ReplyModel,
    r2: ReplyModel,
    r3: ReplyModel,
    r4: ReplyModel,
    r5: ReplyModel,
)
    ensures
        store_outcome(
            store_next(
                store_next(
                    store_next(store_next(store_next(store_start(user_name, password), r1), r2), r3),
                    r4,
                ),
                r5,
            ),
        ) == Some(Ok::<(), PlatformError>(())),
{
}

/// A storing asks to unlock exactly when the collection has just said that it
/// is locked.
pub proof fn unlock_only_when_locked(s: StoreModel, reply: ReplyModel)
    ensures
        store_request(store_next(s, reply)) == Some(RequestModel::Unlock) <==> (s.phase
            == StorePhase::CheckingLock && reply == ReplyModel::Locked(true)),
{
}

/// A storing writes only after it has dealt with the lock: it comes to create
/// the item from its attempt to unlock, whatever that brought, or straight
/// from an answer that did not say that the collection is locked.
pub proof fn write_follows_unlock(s: StoreModel, reply: ReplyModel)
    requires
        s.phase != StorePhase::Creating,
        store_next(s, reply).phase == StorePhase::Creating,
    ensures
        s.phase == StorePhase::Unlocking || (s.phase == StorePhase::CheckingLock && reply
            != ReplyModel::Locked(true)),
{
}

/// A reading only reads: it connects, searches by the user's name and reads
/// the first secret found, and never unlocks or writes.
pub proof fn reading_only_reads(a: AcquireModel)
    ensures
        acquire_request(a) matches Some(request) ==> request == connect_request() || request
            == (RequestModel::SearchItems { attribute: username_attribute(), value: a.user_name })
            || request == (RequestModel::ReadSecret { index: 0 }),
{
}

/// Every session that is opened is an encrypted one: neither a reading nor
/// a storing ever asks for a session in clear text.
pub proof fn sessions_are_encrypted(a: AcquireModel, s: StoreModel)
    ensures
        acquire_request(a) matches Some(RequestModel::Connect { encryption }) ==> encryption
            == SessionEncryption::Dh,
        store_request(s) matches Some(RequestModel::Connect { encryption }) ==> encryption
            == SessionEncryption::Dh,
{
}

} // verus!
