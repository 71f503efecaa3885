//! Who is calling. A request presents a signed token or an API key with its
//! secret; [`auth_request`] decides from the directory of users, sessions and
//! login secrets whether that makes a principal.
//!
//! Checking a signature and hashing a secret are the caller's part: a
//! [`Credential`] holds what came of them.
use vstd::prelude::*;
use crate::codec::{field_of_with, get_text, get_time, req_text, req_time};
use crate::error::{ApiError, ApiErrorView, Failure, FailureView};
use crate::json::{Json, JsonValue};
use crate::permission::{RequestUser, RequestUserView};
use crate::text::{mark, text};

verus! {

/// The place of the first of `items` that equals `wanted`.
pub open spec fn first_index<T>(items: Seq<T>, wanted: T) -> Option<int>
    decreases items.len(),
{
    if items.len() == 0 {
        None
    } else {
        match first_index(items.drop_last(), wanted) {
            Some(i) => Some(i),
            None => if items.last() == wanted {
                Some(items.len() - 1)
            } else {
                None
            },
        }
    }
}

/// What `first_index` finds is a place that holds `wanted`, and nothing
/// before it does; where it finds nothing, no place holds `wanted`.
pub proof fn first_index_is_first<T>(items: Seq<T>, wanted: T)
    ensures
        match first_index(items, wanted) {
            Some(i) => 0 <= i < items.len() && items[i] == wanted && forall|j: int|
                0 <= j < i ==> items[j] != wanted,
            None => forall|j: int| 0 <= j < items.len() ==> items[j] != wanted,
        },
    decreases items.len(),
{
    if items.len() > 0 {
        first_index_is_first(items.drop_last(), wanted);
        assert forall|j: int| 0 <= j < items.len() - 1 implies items[j] == items.drop_last()[j] by {}
    }
}

/// What is found among the first `n` items is found among all of them.
pub proof fn first_index_in_prefix<T>(items: Seq<T>, wanted: T, n: int)
    requires
        0 <= n <= items.len(),
        first_index(items.take(n), wanted) is Some,
    ensures
        first_index(items, wanted) == first_index(items.take(n), wanted),
    decreases items.len() - n,
{
    if n < items.len() {
        assert(items.take(n + 1).drop_last() =~= items.take(n));
        first_index_in_prefix(items, wanted, n + 1);
    } else {
        assert(items.take(n) =~= items);
    }
}

/// A user as the directory knows it.
#[derive(Debug, PartialEq, Eq)]
pub struct UserRecord {
    pub id: String,
    pub is_admin: bool,
    /// A user that is not enabled is refused, whatever it presents.
    pub enabled: bool,
}

/// A [`UserRecord`] as plain values.
pub struct UserRecordView {
    pub id: Seq<char>,
    pub is_admin: bool,
    pub enabled: bool,
}

impl View for UserRecord {
    type V = UserRecordView;

    open spec fn view(&self) -> UserRecordView {
        UserRecordView { id: self.id@, is_admin: self.is_admin, enabled: self.enabled }
    }
}

/// A session: the record behind the tokens that a login gave out.
#[derive(Debug, PartialEq, Eq)]
pub struct Session {
    pub id: String,
    pub user_id: String,
    /// A revoked session makes its tokens worthless.
    pub revoked: bool,
}

/// A [`Session`] as plain values.
pub struct SessionView {
    pub id: Seq<char>,
    pub user_id: Seq<char>,
    pub revoked: bool,
}

impl View for Session {
    type V = SessionView;

    open spec fn view(&self) -> SessionView {
        SessionView { id: self.id@, user_id: self.user_id@, revoked: self.revoked }
    }
}

/// A login secret: an API key of a user, with the hash of the secret that
/// goes with it.
#[derive(Debug, PartialEq, Eq)]
pub struct LoginSecret {
    pub user_id: String,
    /// What the user calls the secret.
    pub name: String,
    pub key: String,
    pub hash: Vec<u8>,
    /// The time from which the secret is no longer taken, where it has one.
    pub expires_at: Option<i64>,
}

/// A [`LoginSecret`] as plain values.
pub struct LoginSecretView {
    pub user_id: Seq<char>,
    pub name: Seq<char>,
    pub key: Seq<char>,
    pub hash: Seq<u8>,
    pub expires_at: Option<i64>,
}

impl View for LoginSecret {
    type V = LoginSecretView;

    open spec fn view(&self) -> LoginSecretView {
        LoginSecretView {
            user_id: self.user_id@,
            name: self.name@,
            key: self.key@,
            hash: self.hash@,
            expires_at: self.expires_at,
        }
    }
}

/// What a token claims, as its signed part says.
#[derive(Debug, PartialEq, Eq)]
pub struct TokenClaims {
    pub session_id: String,
    pub user_id: String,
    /// The time from which the token is no longer taken.
    pub expires_at: i64,
}

/// [`TokenClaims`] as plain values.
pub struct TokenClaimsView {
    pub session_id: Seq<char>,
    pub user_id: Seq<char>,
    pub expires_at: i64,
}

impl View for TokenClaims {
    type V = TokenClaimsView;

    open spec fn view(&self) -> TokenClaimsView {
        TokenClaimsView {
            session_id: self.session_id@,
            user_id: self.user_id@,
            expires_at: self.expires_at,
        }
    }
}

impl TokenClaimsView {
    /// The claims as a document, which is what a token carries and signs.
    pub open spec fn json(self) -> JsonValue {
        JsonValue::empty().with("session_id"@, JsonValue::Str(self.session_id)).with(
            "user_id"@,
            JsonValue::Str(self.user_id),
        ).with("expires_at"@, JsonValue::Int(self.expires_at as int))
    }

    /// The claims that a document makes; none where one is missing or of the
    /// wrong sort.
    pub open spec fn parsed(j: JsonValue) -> Option<TokenClaimsView> {
        match (req_text(j, "session_id"@), req_text(j, "user_id"@), req_time(j, "expires_at"@)) {
            (Some(session_id), Some(user_id), Some(expires_at)) => Some(
                TokenClaimsView { session_id, user_id, expires_at },
            ),
            _ => None,
        }
    }
}

impl TokenClaims {
    /// The claims as a document.
    pub fn to_json(&self) -> (j: Json)
        ensures
            j@ == self@.json(),
    {
        Json::empty_object().with("session_id", Json::Str(self.session_id.clone())).with(
            "user_id",
            Json::Str(self.user_id.clone()),
        ).with("expires_at", Json::Int(self.expires_at))
    }

    /// The claims that a document makes.
    pub fn from_json(j: &Json) -> (r: Option<TokenClaims>)
        ensures
            match r {
                Some(claims) => TokenClaimsView::parsed(j@) == Some(claims@),
                None => TokenClaimsView::parsed(j@) is None,
            },
    {
        match (get_text(j, "session_id"), get_text(j, "user_id"), get_time(j, "expires_at")) {
            (Some(session_id), Some(user_id), Some(expires_at)) => Some(
                TokenClaims { session_id, user_id, expires_at },
            ),
            _ => None,
        }
    }
}

/// Claims that are written as a document and read back are the same claims.
pub proof fn claims_round_trip(claims: TokenClaimsView)
    ensures
        TokenClaimsView::parsed(claims.json()) == Some(claims),
{
    broadcast use field_of_with;

    reveal_strlit("session_id");
    reveal_strlit("user_id");
    reveal_strlit("expires_at");
    assert(mark("session_id"@, 0, 0) == (10nat, 's', 's'));
    assert(mark("user_id"@, 0, 0) == (7nat, 'u', 'u'));
    assert(mark("expires_at"@, 0, 0) == (10nat, 'e', 'e'));
}

/// What a request presents, as far as its headers show.
#[derive(Debug, PartialEq, Eq)]
pub enum Presented {
    /// A bearer token.
    Token { token: String },
    /// An API key with its secret.
    KeyAndSecret { key: String, secret: String },
    /// Neither.
    Nothing,
}

/// [`Presented`] as plain values.
pub enum PresentedView {
    Token { token: Seq<char> },
    KeyAndSecret { key: Seq<char>, secret: Seq<char> },
    Nothing,
}

impl View for Presented {
    type V = PresentedView;

    open spec fn view(&self) -> PresentedView {
        match self {
            Presented::Token { token } => PresentedView::Token { token: token@ },
            Presented::KeyAndSecret { key, secret } => PresentedView::KeyAndSecret {
                key: key@,
                secret: secret@,
            },
            Presented::Nothing => PresentedView::Nothing,
        }
    }
}

/// What the headers of a request present: the token where there is one,
/// else the key and the secret where both are there, else nothing.
pub open spec fn presented_by(
    authorization: Option<Seq<char>>,
    api_key: Option<Seq<char>>,
    api_secret: Option<Seq<char>>,
) -> PresentedView {
    match authorization {
        Some(token) => PresentedView::Token { token },
        None => match (api_key, api_secret) {
            (Some(key), Some(secret)) => PresentedView::KeyAndSecret { key, secret },
            _ => PresentedView::Nothing,
        },
    }
}

/// What the headers of a request present.
pub fn presented(
    authorization: Option<String>,
    api_key: Option<String>,
    api_secret: Option<String>,
) -> (p: Presented)
    ensures
        p@ == presented_by(
            crate::server::text_of(authorization),
            crate::server::text_of(api_key),
            crate::server::text_of(api_secret),
        ),
{
    match authorization {
        Some(token) => Presented::Token { token },
        None => match api_key {
            Some(key) => match api_secret {
                Some(secret) => Presented::KeyAndSecret { key, secret },
                None => Presented::Nothing,
            },
            None => Presented::Nothing,
        },
    }
}

/// What a request presents, after the signature of a token was checked and
/// the secret that goes with a key was hashed.
#[derive(Debug, PartialEq, Eq)]
pub enum Credential {
    /// A token with these claims; `signature_valid` says whether its
    /// signature is that of the core.
    Bearer { claims: TokenClaims, signature_valid: bool },
    /// An API key, and the hash of the secret that came with it.
    ApiKey { key: String, secret_hash: Vec<u8> },
    /// Nothing.
    Missing,
}

/// A [`Credential`] as plain values.
pub enum CredentialView {
    Bearer { claims: TokenClaimsView, signature_valid: bool },
    ApiKey { key: Seq<char>, secret_hash: Seq<u8> },
    Missing,
}

impl View for Credential {
    type V = CredentialView;

    open spec fn view(&self) -> CredentialView {
        match self {
            Credential::Bearer { claims, signature_valid } => CredentialView::Bearer {
                claims: claims@,
                signature_valid: *signature_valid,
            },
            Credential::ApiKey { key, secret_hash } => CredentialView::ApiKey {
                key: key@,
                secret_hash: secret_hash@,
            },
            Credential::Missing => CredentialView::Missing,
        }
    }
}

/// Whether two byte strings are the same. The time taken depends on their
/// lengths and on nothing else of them.
pub fn constant_time_eq(a: &Vec<u8>, b: &Vec<u8>) -> (same: bool)
    ensures
        same == (a@ == b@),
{
    if a.len() != b.len() {
        return false;
    }
    let mut difference: u8 = 0;
    let mut i: usize = 0;
    assert(a@.take(0) =~= b@.take(0));
    while i < a.len()
        invariant
            i <= a.len(),
            a.len() == b.len(),
            (difference == 0) == (a@.take(i as int) == b@.take(i as int)),
        decreases a.len() - i,
    {
        let x = a[i];
        let y = b[i];
        let ghost before = difference;
        difference = difference | (x ^ y);
        proof {
            assert((before | (x ^ y)) == 0 <==> before == 0 && x == y) by (bit_vector);
            assert(a@.take(i as int + 1).drop_last() =~= a@.take(i as int));
            assert(b@.take(i as int + 1).drop_last() =~= b@.take(i as int));
            assert(a@.take(i as int + 1).last() == x);
            assert(b@.take(i as int + 1).last() == y);
            if a@.take(i as int) == b@.take(i as int) && x == y {
                assert(a@.take(i as int + 1) =~= b@.take(i as int + 1));
            }
        }
        i += 1;
    }
    assert(a@.take(i as int) =~= a@ && b@.take(i as int) =~= b@);
    difference == 0
}

/// The directory as plain values.
pub struct DirectoryView {
    pub users: Seq<UserRecordView>,
    pub sessions: Seq<SessionView>,
    pub secrets: Seq<LoginSecretView>,
}

impl DirectoryView {
    /// The ids of the users, in order.
    pub open spec fn user_ids(self) -> Seq<Seq<char>> {
        Seq::new(self.users.len(), |i: int| self.users[i].id)
    }

    /// The ids of the sessions, in order.
    pub open spec fn session_ids(self) -> Seq<Seq<char>> {
        Seq::new(self.sessions.len(), |i: int| self.sessions[i].id)
    }

    /// The keys of the login secrets, in order.
    pub open spec fn secret_keys(self) -> Seq<Seq<char>> {
        Seq::new(self.secrets.len(), |i: int| self.secrets[i].key)
    }

    /// For each login secret its user and its name, in order.
    pub open spec fn secret_names(self) -> Seq<(Seq<char>, Seq<char>)> {
        Seq::new(self.secrets.len(), |i: int| (self.secrets[i].user_id, self.secrets[i].name))
    }

    /// The user with this id.
    pub open spec fn user(self, id: Seq<char>) -> Option<UserRecordView> {
        match first_index(self.user_ids(), id) {
            Some(i) => Some(self.users[i]),
            None => None,
        }
    }

    /// The session with this id.
    pub open spec fn session(self, id: Seq<char>) -> Option<SessionView> {
        match first_index(self.session_ids(), id) {
            Some(i) => Some(self.sessions[i]),
            None => None,
        }
    }

    /// The login secret with this key.
    pub open spec fn secret(self, key: Seq<char>) -> Option<LoginSecretView> {
        match first_index(self.secret_keys(), key) {
            Some(i) => Some(self.secrets[i]),
            None => None,
        }
    }

    /// The principal that the user `id` makes: none where the directory
    /// does not know the user, and none where the user is not enabled.
    pub open spec fn principal(self, id: Seq<char>) -> Result<RequestUserView, ApiErrorView> {
        match self.user(id) {
            None => Err(refused("unknown user"@)),
            Some(user) => if !user.enabled {
                Err(refused("user is disabled"@))
            } else {
                Ok(RequestUserView { id: user.id, is_admin: user.is_admin, enabled: true })
            },
        }
    }

    /// Who presents `credential` at the time `now`.
    ///
    /// A token counts where its signature is valid, it has not expired, and
    /// its session is on record for the same user and not revoked. A key
    /// counts where it is on record, the hash that came with it is the one on
    /// record, and the secret has not expired. Either way the user must be
    /// known and enabled.
    pub open spec fn authenticated(self, credential: CredentialView, now: i64) -> Result<
        RequestUserView,
        ApiErrorView,
    > {
        match credential {
            CredentialView::Missing => Err(refused("no credential"@)),
            CredentialView::Bearer { claims, signature_valid } => if !signature_valid {
                Err(refused("invalid token"@))
            } else if now >= claims.expires_at {
                Err(refused("token expired"@))
            } else {
                match self.session(claims.session_id) {
                    None => Err(refused("unknown session"@)),
                    Some(session) => if session.user_id != claims.user_id {
                        Err(refused("unknown session"@))
                    } else if session.revoked {
                        Err(refused("session revoked"@))
                    } else {
                        self.principal(claims.user_id)
                    },
                }
            },
            CredentialView::ApiKey { key, secret_hash } => match self.secret(key) {
                None => Err(refused("unknown api key"@)),
                Some(secret) => if secret.hash != secret_hash {
                    Err(refused("invalid api secret"@))
                } else if secret.expires_at is Some && now >= secret.expires_at->Some_0 {
                    Err(refused("api secret expired"@))
                } else {
                    self.principal(secret.user_id)
                },
            },
        }
    }

    /// The directory with one more user, where the id is new; unchanged
    /// where it is not.
    pub open spec fn with_user(self, user: UserRecordView) -> DirectoryView {
        if self.user(user.id) is Some {
            self
        } else {
            DirectoryView { users: self.users.push(user), ..self }
        }
    }

    /// The directory with the user `id` enabled or not; unchanged where
    /// there is no such user.
    pub open spec fn with_enabled(self, id: Seq<char>, enabled: bool) -> DirectoryView {
        match first_index(self.user_ids(), id) {
            Some(i) => DirectoryView {
                users: self.users.update(i, UserRecordView { enabled, ..self.users[i] }),
                ..self
            },
            None => self,
        }
    }

    /// The directory with one more session, where the id is new; unchanged
    /// where it is not.
    pub open spec fn with_session(self, id: Seq<char>, user_id: Seq<char>) -> DirectoryView {
        if self.session(id) is Some {
            self
        } else {
            DirectoryView {
                sessions: self.sessions.push(SessionView { id, user_id, revoked: false }),
                ..self
            }
        }
    }

    /// The directory with the session `id` revoked; unchanged where there
    /// is no such session.
    pub open spec fn with_revoked(self, id: Seq<char>) -> DirectoryView {
        match first_index(self.session_ids(), id) {
            Some(i) => DirectoryView {
                sessions: self.sessions.update(i, SessionView { revoked: true, ..self.sessions[i] }),
                ..self
            },
            None => self,
        }
    }

    /// Whether the user has a login secret of this name.
    pub open spec fn has_secret(self, user_id: Seq<char>, name: Seq<char>) -> bool {
        first_index(self.secret_names(), (user_id, name)) is Some
    }

    /// Whether `secret` can be added: its key is new, and its user has no
    /// secret of that name.
    pub open spec fn can_add_secret(self, secret: LoginSecretView) -> bool {
        self.secret(secret.key) is None && !self.has_secret(secret.user_id, secret.name)
    }

    /// The directory with one more login secret, where it can be added;
    /// unchanged where it cannot.
    pub open spec fn with_secret(self, secret: LoginSecretView) -> DirectoryView {
        if self.can_add_secret(secret) {
            DirectoryView { secrets: self.secrets.push(secret), ..self }
        } else {
            self
        }
    }

    /// The directory without the login secret of this user and name;
    /// unchanged where there is none.
    pub open spec fn without_secret(self, user_id: Seq<char>, name: Seq<char>) -> DirectoryView {
        match first_index(self.secret_names(), (user_id, name)) {
            Some(i) => DirectoryView { secrets: self.secrets.remove(i), ..self },
            None => self,
        }
    }
}

/// The failure of a request that is not let in.
pub open spec fn refused(reason: Seq<char>) -> ApiErrorView {
    ApiErrorView::plain(FailureView::Unauthenticated { reason })
}

fn refuse(reason: &str) -> (e: ApiError)
    ensures
        e@ == refused(reason@),
{
    ApiError::new(Failure::Unauthenticated { reason: text(reason) })
}

/// Whoever is let in is a user that the directory knows and has enabled, and
/// is an administrator exactly where the directory says so; and whoever is
/// not let in is refused as `Unauthenticated`.
pub proof fn only_enabled_users_are_let_in(directory: DirectoryView, credential: CredentialView, now: i64)
    ensures
        match directory.authenticated(credential, now) {
            Ok(principal) => principal.enabled && directory.user(principal.id) == Some(
                UserRecordView { id: principal.id, is_admin: principal.is_admin, enabled: true },
            ),
            Err(e) => e.failure is Unauthenticated && e.trace.len() == 0,
        },
{
    if let Ok(principal) = directory.authenticated(credential, now) {
        let id = match credential {
            CredentialView::Bearer { claims, .. } => claims.user_id,
            CredentialView::ApiKey { key, .. } => directory.secret(key)->Some_0.user_id,
            CredentialView::Missing => Seq::empty(),
        };
        first_index_is_first(directory.user_ids(), id);
    }
}

/// The users, the sessions that logins opened, and the login secrets.
#[derive(Debug, PartialEq, Eq)]
pub struct Directory {
    users: Vec<UserRecord>,
    sessions: Vec<Session>,
    secrets: Vec<LoginSecret>,
}

impl View for Directory {
    type V = DirectoryView;

    closed spec fn view(&self) -> DirectoryView {
        DirectoryView {
            users: Seq::new(self.users@.len(), |i: int| self.users@[i]@),
            sessions: Seq::new(self.sessions@.len(), |i: int| self.sessions@[i]@),
            secrets: Seq::new(self.secrets@.len(), |i: int| self.secrets@[i]@),
        }
    }
}

impl Directory {
    /// A directory that knows nobody.
    pub fn new() -> (d: Directory)
        ensures
            d@.users.len() == 0,
            d@.sessions.len() == 0,
            d@.secrets.len() == 0,
    {
        Directory { users: Vec::new(), sessions: Vec::new(), secrets: Vec::new() }
    }

    fn user_place(&self, id: &String) -> (r: Option<usize>)
        ensures
            match r {
                Some(i) => i < self@.users.len() && first_index(self@.user_ids(), id@) == Some(
                    i as int,
                ),
                None => first_index(self@.user_ids(), id@) is None,
            },
    {
        let ghost ids = self@.user_ids();
        let mut i: usize = 0;
        while i < self.users.len()
            invariant
                i <= self.users.len(),
                ids == self@.user_ids(),
                ids.len() == self.users@.len(),
                first_index(ids.take(i as int), id@) is None,
            decreases self.users.len() - i,
        {
            assert(ids.take(i as int + 1).drop_last() =~= ids.take(i as int));
            if self.users[i].id == *id {
                proof {
                    assert(ids[i as int] == id@);
                    first_index_in_prefix(ids, id@, i as int + 1);
                }
                return Some(i);
            }
            i += 1;
        }
        assert(ids.take(i as int) =~= ids);
        None
    }

    fn session_place(&self, id: &String) -> (r: Option<usize>)
        ensures
            match r {
                Some(i) => i < self@.sessions.len() && first_index(self@.session_ids(), id@)
                    == Some(i as int),
                None => first_index(self@.session_ids(), id@) is None,
            },
    {
        let ghost ids = self@.session_ids();
        let mut i: usize = 0;
        while i < self.sessions.len()
            invariant
                i <= self.sessions.len(),
                ids == self@.session_ids(),
                ids.len() == self.sessions@.len(),
                first_index(ids.take(i as int), id@) is None,
            decreases self.sessions.len() - i,
        {
            assert(ids.take(i as int + 1).drop_last() =~= ids.take(i as int));
            if self.sessions[i].id == *id {
                proof {
                    assert(ids[i as int] == id@);
                    first_index_in_prefix(ids, id@, i as int + 1);
                }
                return Some(i);
            }
            i += 1;
        }
        assert(ids.take(i as int) =~= ids);
        None
    }

    fn secret_place(&self, key: &String) -> (r: Option<usize>)
        ensures
            match r {
                Some(i) => i < self@.secrets.len() && first_index(self@.secret_keys(), key@)
                    == Some(i as int),
                None => first_index(self@.secret_keys(), key@) is None,
            },
    {
        let ghost keys = self@.secret_keys();
        let mut i: usize = 0;
        while i < self.secrets.len()
            invariant
                i <= self.secrets.len(),
                keys == self@.secret_keys(),
                keys.len() == self.secrets@.len(),
                first_index(keys.take(i as int), key@) is None,
            decreases self.secrets.len() - i,
        {
            assert(keys.take(i as int + 1).drop_last() =~= keys.take(i as int));
            if self.secrets[i].key == *key {
                proof {
                    assert(keys[i as int] == key@);
                    first_index_in_prefix(keys, key@, i as int + 1);
                }
                return Some(i);
            }
            i += 1;
        }
        assert(keys.take(i as int) =~= keys);
        None
    }

    fn secret_place_by_name(&self, user_id: &String, name: &String) -> (r: Option<usize>)
        ensures
            match r {
                Some(i) => i < self@.secrets.len() && first_index(
                    self@.secret_names(),
                    (user_id@, name@),
                ) == Some(i as int),
                None => first_index(self@.secret_names(), (user_id@, name@)) is None,
            },
    {
        let ghost names = self@.secret_names();
        let mut i: usize = 0;
        while i < self.secrets.len()
            invariant
                i <= self.secrets.len(),
                names == self@.secret_names(),
                names.len() == self.secrets@.len(),
                first_index(names.take(i as int), (user_id@, name@)) is None,
            decreases self.secrets.len() - i,
        {
            assert(names.take(i as int + 1).drop_last() =~= names.take(i as int));
            if self.secrets[i].user_id == *user_id && self.secrets[i].name == *name {
                proof {
                    assert(names[i as int] == (user_id@, name@));
                    first_index_in_prefix(names, (user_id@, name@), i as int + 1);
                }
                return Some(i);
            }
            i += 1;
        }
        assert(names.take(i as int) =~= names);
        None
    }

    /// Whether the directory knows a user with this id.
    pub fn knows(&self, id: &String) -> (known: bool)
        ensures
            known == (self@.user(id@) is Some),
    {
        self.user_place(id).is_some()
    }

    /// Adds a user, and says whether it did: the id must be new.
    pub fn add_user(&mut self, user: UserRecord) -> (added: bool)
        ensures
            added == (old(self)@.user(user@.id) is None),
            final(self)@ == old(self)@.with_user(user@),
    {
        match self.user_place(&user.id) {
            Some(_) => false,
            None => {
                let ghost before = self@;
                self.users.push(user);
                assert(self@.users =~= before.users.push(user@));
                assert(self@.sessions =~= before.sessions);
                assert(self@.secrets =~= before.secrets);
                true
            },
        }
    }

    /// Enables or disables the user `id`, and says whether there is one.
    pub fn set_enabled(&mut self, id: &String, enabled: bool) -> (found: bool)
        ensures
            found == (old(self)@.user(id@) is Some),
            final(self)@ == old(self)@.with_enabled(id@, enabled),
    {
        match self.user_place(id) {
            Some(i) => {
                let ghost before = self@;
                let user = UserRecord {
                    id: self.users[i].id.clone(),
                    is_admin: self.users[i].is_admin,
                    enabled,
                };
                self.users.set(i, user);
                assert(self@.users =~= before.with_enabled(id@, enabled).users);
                assert(self@.sessions =~= before.sessions);
                assert(self@.secrets =~= before.secrets);
                true
            },
            None => false,
        }
    }

    /// Opens a session for `user_id`, and says whether it did: the id of
    /// the session must be new.
    pub fn open_session(&mut self, id: String, user_id: String) -> (opened: bool)
        ensures
            opened == (old(self)@.session(id@) is None),
            final(self)@ == old(self)@.with_session(id@, user_id@),
    {
        match self.session_place(&id) {
            Some(_) => false,
            None => {
                let ghost before = self@;
                self.sessions.push(Session { id, user_id, revoked: false });
                assert(self@.sessions =~= before.with_session(id@, user_id@).sessions);
                assert(self@.users =~= before.users);
                assert(self@.secrets =~= before.secrets);
                true
            },
        }
    }

    /// Revokes the session `id`, and says whether there is one.
    pub fn revoke_session(&mut self, id: &String) -> (found: bool)
        ensures
            found == (old(self)@.session(id@) is Some),
            final(self)@ == old(self)@.with_revoked(id@),
    {
        match self.session_place(id) {
            Some(i) => {
                let ghost before = self@;
                let session = Session {
                    id: self.sessions[i].id.clone(),
                    user_id: self.sessions[i].user_id.clone(),
                    revoked: true,
                };
                self.sessions.set(i, session);
                assert(self@.sessions =~= before.with_revoked(id@).sessions);
                assert(self@.users =~= before.users);
                assert(self@.secrets =~= before.secrets);
                true
            },
            None => false,
        }
    }

    /// Whether the user has a login secret of this name.
    pub fn has_secret(&self, user_id: &String, name: &String) -> (has: bool)
        ensures
            has == self@.has_secret(user_id@, name@),
    {
        self.secret_place_by_name(user_id, name).is_some()
    }

    /// Adds a login secret, and says whether it did: its key must be new,
    /// and its user must have no secret of that name.
    pub fn add_secret(&mut self, secret: LoginSecret) -> (added: bool)
        ensures
            added == old(self)@.can_add_secret(secret@),
            final(self)@ == old(self)@.with_secret(secret@),
    {
        if self.secret_place(&secret.key).is_some() {
            return false;
        }
        if self.secret_place_by_name(&secret.user_id, &secret.name).is_some() {
            return false;
        }
        let ghost before = self@;
        self.secrets.push(secret);
        assert(self@.secrets =~= before.secrets.push(secret@));
        assert(self@.users =~= before.users);
        assert(self@.sessions =~= before.sessions);
        true
    }

    /// Removes the login secret of this user and name, and says whether
    /// there was one.
    pub fn remove_secret(&mut self, user_id: &String, name: &String) -> (removed: bool)
        ensures
            removed == old(self)@.has_secret(user_id@, name@),
            final(self)@ == old(self)@.without_secret(user_id@, name@),
    {
        match self.secret_place_by_name(user_id, name) {
            Some(i) => {
                let ghost before = self@;
                self.secrets.remove(i);
                assert(self@.secrets =~= before.secrets.remove(i as int));
                assert(self@.users =~= before.users);
                assert(self@.sessions =~= before.sessions);
                true
            },
            None => false,
        }
    }

    fn principal(&self, id: &String) -> (r: Result<RequestUser, ApiError>)
        ensures
            match r {
                Ok(user) => self@.principal(id@) == Ok::<RequestUserView, ApiErrorView>(user@),
                Err(e) => self@.principal(id@) == Err::<RequestUserView, ApiErrorView>(e@),
            },
    {
        match self.user_place(id) {
            None => Err(refuse("unknown user")),
            Some(i) => {
                if !self.users[i].enabled {
                    Err(refuse("user is disabled"))
                } else {
                    Ok(
                        RequestUser {
                            id: self.users[i].id.clone(),
                            is_admin: self.users[i].is_admin,
                            enabled: true,
                        },
                    )
                }
            },
        }
    }
}

/// Decides who makes a request: the principal that `credential` stands for
/// at the time `now`, or the refusal of the request.
pub fn auth_request(directory: &Directory, credential: &Credential, now: i64) -> (r: Result<
    RequestUser,
    ApiError,
>)
    ensures
        match r {
            Ok(user) => directory@.authenticated(credential@, now) == Ok::<
                RequestUserView,
                ApiErrorView,
            >(user@),
            Err(e) => directory@.authenticated(credential@, now) == Err::<
                RequestUserView,
                ApiErrorView,
            >(e@),
        },
{
    match credential {
        Credential::Missing => Err(refuse("no credential")),
        Credential::Bearer { claims, signature_valid } => {
            if !*signature_valid {
                Err(refuse("invalid token"))
            } else if now >= claims.expires_at {
                Err(refuse("token expired"))
            } else {
                match directory.session_place(&claims.session_id) {
                    None => Err(refuse("unknown session")),
                    Some(i) => {
                        if directory.sessions[i].user_id != claims.user_id {
                            Err(refuse("unknown session"))
                        } else if directory.sessions[i].revoked {
                            Err(refuse("session revoked"))
                        } else {
                            directory.principal(&claims.user_id)
                        }
                    },
                }
            }
        },
        Credential::ApiKey { key, secret_hash } => {
            match directory.secret_place(key) {
                None => Err(refuse("unknown api key")),
                Some(i) => {
                    let secret = &directory.secrets[i];
                    if !constant_time_eq(&secret.hash, secret_hash) {
                        Err(refuse("invalid api secret"))
                    } else {
                        let expired = match secret.expires_at {
                            Some(at) => now >= at,
                            None => false,
                        };
                        if expired {
                            Err(refuse("api secret expired"))
                        } else {
                            directory.principal(&secret.user_id)
                        }
                    }
                },
            }
        },
    }
}

} // verus!
