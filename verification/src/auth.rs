use vstd::prelude::*;

use crate::clock::{current_time, Timestamp};
use crate::dto::{CookieStruct, CookieView, SessionData, SessionEntry, SignInSignUp};
use crate::ids::{
    base64_decoding, base64_encoding, encode_id, is_session_key, random_id, socket_id_of,
    UniversalIdType,
};
use crate::password::{argon2_encoded_hash, argon2_verdict, hash_password, verify_password};
use crate::session::{live_sessions, SessionTable};
use vstd::utf8::encode_utf8;
use crate::sockets::{registry_remove, SocketRegistry};

verus! {

/// The text replies of the sign-up and login endpoints.
#[derive(Clone, Debug, PartialEq, Eq)]
pub enum AuthReply {
    MissingCredentials,
    UserExists,
    Welcome,
    WrongPassword(String),
    UnknownUser,
}

impl AuthReply {
    /// The text of a reply.
    pub open spec fn spec_text(&self) -> Seq<char> {
        match self {
            AuthReply::MissingCredentials => "Please type a name/password"@,
            AuthReply::UserExists => "User already exists"@,
            AuthReply::Welcome => "Welcome"@,
            AuthReply::WrongPassword(name) => "Password does not match the user: "@ + name@,
            AuthReply::UnknownUser => "User does not exist, please register."@,
        }
    }

    /// The text of a reply.
    pub fn text(&self) -> (r: String)
        ensures
            r@ == self.spec_text(),
    {
        match self {
            AuthReply::MissingCredentials => "Please type a name/password".to_owned(),
            AuthReply::UserExists => "User already exists".to_owned(),
            AuthReply::Welcome => "Welcome".to_owned(),
            AuthReply::WrongPassword(name) => {
                let mut s = "Password does not match the user: ".to_owned();
                s.append(name.as_str());
                s
            },
            AuthReply::UnknownUser => "User does not exist, please register.".to_owned(),
        }
    }
}

/// What sign-up does first with the submitted credentials.
#[derive(Clone, Debug, PartialEq, Eq)]
pub enum SignupStep {
    /// Answer with this reply and stop.
    Reply(AuthReply),
    /// Look up whether the user name is taken.
    LookUpUser,
}

/// A user to store: name, encoded password hash and the salt it was made with.
#[derive(Clone, Debug, PartialEq, Eq)]
pub struct NewUser {
    pub user_name: String,
    pub hash: String,
    pub salt: UniversalIdType,
}

/// What sign-up does once it knows whether the name is taken.
#[derive(Clone, Debug, PartialEq, Eq)]
pub enum SignupOutcome {
    /// Answer with this reply and stop.
    Reply(AuthReply),
    /// Store the user, then log them in.
    Register(NewUser),
    /// The password could not be hashed with this salt.
    HashFailed(UniversalIdType),
}

/// What login does with the submitted credentials and the stored hash.
#[derive(Clone, Debug, PartialEq, Eq)]
pub enum LoginOutcome {
    /// Answer with this reply and stop.
    Reply(AuthReply),
    /// The password matches: log the user in.
    LogIn,
    /// The stored hash could not be read.
    BadStoredHash,
}

/// What logout did.
#[derive(Clone, Debug, PartialEq, Eq)]
pub enum LogoutOutcome {
    /// No session cookie came with the request; nothing changed.
    NoCookie,
    /// The session and its socket are gone.
    LoggedOut,
    /// The session is gone; its id is no base64 of a socket id, so no socket was touched.
    BadSessionId,
}

/// A stored hash admits a password exactly when argon2 verifies the one against the other.
pub open spec fn login_admits(stored: Option<Seq<char>>, password: Seq<char>) -> bool {
    stored matches Some(hash) && argon2_verdict(hash, password) == Some(true)
}

/// The session id of a cookie, if one came.
pub open spec fn cookie_session(cookie: Option<CookieView>) -> Option<Seq<char>> {
    match cookie {
        Some(c) => Some(c.id),
        None => None,
    }
}

/// The view of an optional cookie.
pub open spec fn cookie_view(cookie: Option<CookieStruct>) -> Option<CookieView> {
    match cookie {
        Some(c) => Some(c@),
        None => None,
    }
}

/// The session table after `user` logs in at `now` under the new session id
/// `key`: sessions that are no longer live are dropped, the session of the
/// cookie the client came with is closed, and the new session lives for one
/// session lifetime.
pub open spec fn login_table(
    m: Map<Seq<char>, SessionEntry>,
    now: Timestamp,
    key: Seq<char>,
    previous: Option<Seq<char>>,
    user: Seq<char>,
) -> Map<Seq<char>, SessionEntry> {
    let live = live_sessions(m, now);
    let cleared = match previous {
        Some(p) => live.remove(p),
        None => live,
    };
    cleared.insert(key, SessionEntry { user_name: user, expiry: now.session_end() })
}

/// Sign-up's first step: empty names and passwords are refused.
pub fn signup(creds: &SignInSignUp) -> (r: SignupStep)
    ensures
        (creds.user_name@.len() == 0 || creds.password@.len() == 0) <==> r matches SignupStep::Reply(
            AuthReply::MissingCredentials,
        ),
        r is LookUpUser <==> !(creds.user_name@.len() == 0 || creds.password@.len() == 0),
{
    if creds.user_name.as_str().is_empty() || creds.password.as_str().is_empty() {
        SignupStep::Reply(AuthReply::MissingCredentials)
    } else {
        SignupStep::LookUpUser
    }
}

/// Registers the credentials with the given salt: the password is hashed with it.
pub fn register(creds: &SignInSignUp, salt: &UniversalIdType) -> (r: SignupOutcome)
    ensures
        r is Register <==> argon2_encoded_hash(creds.password@, salt@) is Some,
        r matches SignupOutcome::Register(u) ==> {
            &&& u.user_name@ == creds.user_name@
            &&& u.salt == *salt
            &&& Some(u.hash@) == argon2_encoded_hash(creds.password@, salt@)
            &&& login_admits(Some(u.hash@), creds.password@)
        },
        r matches SignupOutcome::HashFailed(s) ==> s == *salt,
        !(r is Reply),
        encode_utf8(creds.password@).len() <= 0xFFFF_FFFF ==> r is Register,
{
    match hash_password(creds.password.as_str(), salt) {
        Ok(hash) => SignupOutcome::Register(
            NewUser { user_name: creds.user_name.clone(), hash, salt: *salt },
        ),
        Err(_) => SignupOutcome::HashFailed(*salt),
    }
}

/// Sign-up's second step: a taken name is refused; otherwise the password is
/// hashed with a fresh random salt and the user is to be stored.
pub fn signup_after_lookup(creds: &SignInSignUp, user_exists: bool) -> (r: SignupOutcome)
    ensures
        user_exists ==> r matches SignupOutcome::Reply(AuthReply::UserExists),
        !user_exists ==> !(r is Reply),
        r matches SignupOutcome::Register(u) ==> {
            &&& u.user_name@ == creds.user_name@
            &&& Some(u.hash@) == argon2_encoded_hash(creds.password@, u.salt@)
            &&& login_admits(Some(u.hash@), creds.password@)
        },
        r matches SignupOutcome::HashFailed(s) ==> argon2_encoded_hash(creds.password@, s@) is None,
        !user_exists && encode_utf8(creds.password@).len() <= 0xFFFF_FFFF ==> r is Register,
{
    if user_exists {
        SignupOutcome::Reply(AuthReply::UserExists)
    } else {
        let salt = random_id();
        register(creds, &salt)
    }
}

/// Login: checks the password against the stored hash of the user, if the user exists.
pub fn login(creds: &SignInSignUp, stored_hash: Option<String>) -> (r: LoginOutcome)
    ensures
        stored_hash is None ==> r matches LoginOutcome::Reply(AuthReply::UnknownUser),
        stored_hash matches Some(h) ==> match argon2_verdict(h@, creds.password@) {
            Some(true) => r is LogIn,
            Some(false) => r matches LoginOutcome::Reply(AuthReply::WrongPassword(name))
                && name@ == creds.user_name@,
            None => r is BadStoredHash,
        },
        r is LogIn <==> login_admits(
            match stored_hash {
                Some(h) => Some(h@),
                None => None,
            },
            creds.password@,
        ),
{
    match stored_hash {
        None => LoginOutcome::Reply(AuthReply::UnknownUser),
        Some(hash) => match verify_password(hash.as_str(), creds.password.as_str()) {
            Ok(true) => LoginOutcome::LogIn,
            Ok(false) => LoginOutcome::Reply(AuthReply::WrongPassword(creds.user_name.clone())),
            Err(_) => LoginOutcome::BadStoredHash,
        },
    }
}

/// Opens a session for `user_name` at `now` under the session id that
/// `new_id` encodes, and returns the cookie that carries it.
pub fn login_process_at(
    table: &mut SessionTable,
    now: Timestamp,
    new_id: &UniversalIdType,
    cookie: Option<CookieStruct>,
    user_name: &str,
) -> (r: CookieStruct)
    requires
        old(table).wf(),
        now.in_clock_range(),
    ensures
        final(table).wf(),
        r.id@ == base64_encoding(new_id@),
        base64_decoding(r.id@) == Some(new_id@),
        r.user_name@ == user_name@,
        final(table)@ == login_table(
            old(table)@,
            now,
            r.id@,
            cookie_session(cookie_view(cookie)),
            user_name@,
        ),
        final(table)@.contains_key(r.id@),
        final(table)@[r.id@].user_name == user_name@,
        final(table)@[r.id@].expiry.secs == now.secs + 300,
        final(table)@[r.id@].expiry.nanos == now.nanos,
        forall|k: Seq<char>|
            k != r.id@ ==> (#[trigger] final(table)@.contains_key(k) <==> (old(table)@.contains_key(k)
                && now.precedes(old(table)@[k].expiry) && cookie_session(cookie_view(cookie)) != Some(k))),
        forall|k: Seq<char>|
            k != r.id@ && #[trigger] final(table)@.contains_key(k) ==> final(table)@[k] == old(table)@[k],
{
    let session_id = encode_id(new_id);
    table.retain_live(now);
    if let Some(previous) = cookie {
        let _ = table.remove(&previous.id);
    }
    let data = SessionData { user_name: user_name.to_owned(), expiry: now.plus_session_lifetime() };
    table.insert(session_id.clone(), data);
    CookieStruct { id: session_id, user_name: user_name.to_owned() }
}

/// Opens a session for `user_name` under a fresh random session id at the
/// current time, closing the session of the cookie the client came with.
pub fn login_process(table: &mut SessionTable, cookie: Option<CookieStruct>, user_name: &str) -> (r:
    CookieStruct)
    requires
        old(table).wf(),
    ensures
        final(table).wf(),
        is_session_key(r.id@),
        r.user_name@ == user_name@,
        exists|now: Timestamp|
            now.in_clock_range() && now.nanos < 1_000_000_000 && final(table)@ == login_table(
                old(table)@,
                now,
                r.id@,
                cookie_session(cookie_view(cookie)),
                user_name@,
            ),
{
    let new_id = random_id();
    let now = current_time();
    let ghost previous = cookie_session(cookie_view(cookie));
    let r = login_process_at(table, now, &new_id, cookie, user_name);
    assert(final(table)@ == login_table(old(table)@, now, r.id@, previous, user_name@));
    r
}

/// Logout: closes the session of the cookie and drops the socket behind it.
pub fn logout<A>(
    sessions: &mut SessionTable,
    sockets: &mut SocketRegistry<A>,
    cookie: Option<CookieStruct>,
) -> (r: LogoutOutcome)
    requires
        old(sessions).wf(),
        old(sockets).wf(),
    ensures
        final(sessions).wf(),
        final(sockets).wf(),
        cookie is None ==> r is NoCookie && final(sessions)@ == old(sessions)@ && final(sockets)@
            == old(sockets)@,
        cookie matches Some(c) ==> final(sessions)@ == old(sessions)@.remove(c.id@),
        cookie matches Some(c) ==> (is_session_key(c.id@) ==> r is LoggedOut && final(sockets)@
            == registry_remove(old(sockets)@, base64_decoding(c.id@)->0)),
        cookie matches Some(c) ==> (!is_session_key(c.id@) ==> r is BadSessionId && final(sockets)@
            == old(sockets)@),
{
    match cookie {
        None => LogoutOutcome::NoCookie,
        Some(c) => {
            let _ = sessions.remove(&c.id);
            match socket_id_of(c.id.as_str()) {
                Some(id) => {
                    let _ = sockets.remove(&id);
                    LogoutOutcome::LoggedOut
                },
                None => LogoutOutcome::BadSessionId,
            }
        },
    }
}

} // verus!
