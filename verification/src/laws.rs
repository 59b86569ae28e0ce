use vstd::prelude::*;

use crate::auth::login_table;
use crate::clock::{Elapsed, Timestamp};
use crate::dto::{CookieView, SessionEntry};
use crate::ids::base64_decoding;
use crate::socket_actor::{admit_table, admits, touch_session};
use crate::sockets::{
    has_socket, ids_distinct, registry_insert, registry_remove, socket_position, user_names_of,
    SocketEntry,
};

verus! {

/// Logging in opens a session that lets a socket open: a socket requested
/// with the cookie that login hands out, at any time up to the end of the new
/// session, is opened, and the session is renewed from that time on.
pub proof fn law_login_opens_socket(
    m: Map<Seq<char>, SessionEntry>,
    now: Timestamp,
    key: Seq<char>,
    previous: Option<Seq<char>>,
    user: Seq<char>,
    later: Timestamp,
)
    requires
        now.in_clock_range(),
        !now.session_end().precedes(later),
    ensures
        admits(
            login_table(m, now, key, previous, user),
            later,
            Some(CookieView { id: key, user_name: user }),
        ),
        admit_table(
            login_table(m, now, key, previous, user),
            later,
            Some(CookieView { id: key, user_name: user }),
        )[key] == (SessionEntry { user_name: user, expiry: later.session_end() }),
{
}

/// After login, every open session is live at the login time: expired
/// sessions are gone and the new one ends one session lifetime later.
pub proof fn law_login_leaves_live_sessions(
    m: Map<Seq<char>, SessionEntry>,
    now: Timestamp,
    key: Seq<char>,
    previous: Option<Seq<char>>,
    user: Seq<char>,
)
    requires
        now.in_clock_range(),
    ensures
        forall|k: Seq<char>| #[trigger]
            login_table(m, now, key, previous, user).contains_key(k) ==> now.precedes(
                login_table(m, now, key, previous, user)[k].expiry,
            ),
{
}

/// Login closes the session of the cookie the client came with, unless the
/// new session happens to reuse its id.
pub proof fn law_login_closes_previous_session(
    m: Map<Seq<char>, SessionEntry>,
    now: Timestamp,
    key: Seq<char>,
    previous: Seq<char>,
    user: Seq<char>,
)
    requires
        previous != key,
    ensures
        !login_table(m, now, key, Some(previous), user).contains_key(previous),
{
}

/// Login leaves every other live session as it was.
pub proof fn law_login_keeps_other_live_sessions(
    m: Map<Seq<char>, SessionEntry>,
    now: Timestamp,
    key: Seq<char>,
    previous: Option<Seq<char>>,
    user: Seq<char>,
    other: Seq<char>,
)
    requires
        other != key,
        previous != Some(other),
        m.contains_key(other),
        now.precedes(m[other].expiry),
    ensures
        login_table(m, now, key, previous, user).contains_key(other),
        login_table(m, now, key, previous, user)[other] == m[other],
{
}

/// A closed session opens no socket: after logout removed the session of a
/// cookie, a socket requested with that cookie is refused.
pub proof fn law_logged_out_cookie_opens_nothing(
    m: Map<Seq<char>, SessionEntry>,
    cookie: CookieView,
    later: Timestamp,
)
    ensures
        !admits(m.remove(cookie.id), later, Some(cookie)),
        admit_table(m.remove(cookie.id), later, Some(cookie)) == m.remove(cookie.id),
{
}

/// An expired session opens no socket and is closed when it is used.
pub proof fn law_expired_session_is_closed(
    m: Map<Seq<char>, SessionEntry>,
    key: Seq<char>,
    now: Timestamp,
)
    requires
        m.contains_key(key),
        m[key].expiry.precedes(now),
    ensures
        !admits(m, now, Some(CookieView { id: key, user_name: m[key].user_name })),
        !touch_session(m, key, now).contains_key(key),
        touch_session(m, key, now) == m.remove(key),
{
}

/// Using a live session renews it: it then ends one session lifetime after
/// the time of use, later than that time.
pub proof fn law_use_renews_session(m: Map<Seq<char>, SessionEntry>, key: Seq<char>, now: Timestamp)
    requires
        now.in_clock_range(),
        m.contains_key(key),
        !m[key].expiry.precedes(now),
    ensures
        touch_session(m, key, now).contains_key(key),
        touch_session(m, key, now)[key].user_name == m[key].user_name,
        touch_session(m, key, now)[key].expiry == now.session_end(),
        touch_session(m, key, now)[key].expiry.secs == now.secs + 300,
        touch_session(m, key, now)[key].expiry.nanos == now.nanos,
        now.precedes(touch_session(m, key, now)[key].expiry),
{
}

/// Using a session leaves every other session as it was.
pub proof fn law_use_touches_one_session(
    m: Map<Seq<char>, SessionEntry>,
    key: Seq<char>,
    other: Seq<char>,
    now: Timestamp,
)
    requires
        other != key,
    ensures
        touch_session(m, key, now).contains_key(other) == m.contains_key(other),
        m.contains_key(other) ==> touch_session(m, key, now)[other] == m[other],
{
}

/// A registered socket is open, and its user is among the online users.
pub proof fn law_started_socket_is_online<A>(s: Seq<SocketEntry<A>>, e: SocketEntry<A>)
    requires
        ids_distinct(s),
    ensures
        has_socket(registry_insert(s, e), e.id),
        registry_insert(s, e)[socket_position(registry_insert(s, e), e.id)] == e,
        user_names_of(registry_insert(s, e)).contains(e.user_name),
        ids_distinct(registry_insert(s, e)),
{
    let t = registry_insert(s, e);
    let p = if has_socket(s, e.id) { socket_position(s, e.id) } else { s.len() as int };
    assert(t[p] == e);
    assert(has_socket(t, e.id));
    assert forall|i: int, j: int| 0 <= i < t.len() && 0 <= j < t.len() && i != j implies
        (#[trigger] t[i]).id != (#[trigger] t[j]).id by {
        if i != p && j != p {
            assert(t[i] == s[i] && t[j] == s[j]);
        } else if i == p {
            assert(t[j] == s[j]);
            if has_socket(s, e.id) {
                assert(s[p].id == e.id);
            }
        } else {
            assert(t[i] == s[i]);
            if has_socket(s, e.id) {
                assert(s[p].id == e.id);
            }
        }
    }
    let q = socket_position(t, e.id);
    if q != p {
        assert(t[q].id != t[p].id);
    }
    assert(user_names_of(t)[p] == e.user_name);
}

/// Stopping a socket undoes starting it: registering a socket and then
/// dropping it leaves the open sockets as dropping it alone would.
pub proof fn law_stopping_undoes_started<A>(s: Seq<SocketEntry<A>>, e: SocketEntry<A>)
    requires
        ids_distinct(s),
    ensures
        registry_remove(registry_insert(s, e), e.id) == registry_remove(s, e.id),
        !has_socket(registry_remove(registry_insert(s, e), e.id), e.id),
{
    law_started_socket_is_online(s, e);
    let t = registry_insert(s, e);
    let q = socket_position(t, e.id);
    if has_socket(s, e.id) {
        let p = socket_position(s, e.id);
        assert(t[p] == e);
        if q != p {
            assert(t[q].id != t[p].id);
        }
        assert(t.remove(q) =~= s.remove(p));
    } else {
        let p = s.len() as int;
        assert(t[p] == e);
        if q != p {
            assert(t[q].id != t[p].id);
        }
        assert(t.remove(q) =~= s);
    }
    let r = registry_remove(s, e.id);
    if has_socket(r, e.id) {
        let i = choose|i: int| 0 <= i < r.len() && (#[trigger] r[i]).id == e.id;
        if has_socket(s, e.id) {
            let p = socket_position(s, e.id);
            let i0 = if i < p { i } else { i + 1 };
            assert(r[i] == s[i0]);
            assert(s[i0].id != s[p].id);
        } else {
            assert(r[i] == s[i]);
        }
    }
}

/// Logout drops the socket that was opened under the session: when the
/// session id of the cookie decodes to the id a socket was registered under,
/// dropping the socket that logout names leaves no socket with that id.
pub proof fn law_logout_drops_the_sessions_socket<A>(
    s: Seq<SocketEntry<A>>,
    e: SocketEntry<A>,
    session_id: Seq<char>,
)
    requires
        ids_distinct(s),
        base64_decoding(session_id) == Some(e.id),
    ensures
        !has_socket(registry_remove(registry_insert(s, e), base64_decoding(session_id)->0), e.id),
{
    law_stopping_undoes_started(s, e);
}

/// The session that login opens ends exactly five minutes (300 seconds)
/// after the login time, whatever cookie the client came with, and it belongs
/// to the user who logged in.
pub proof fn law_login_session_ends_five_minutes_later(
    m: Map<Seq<char>, SessionEntry>,
    now: Timestamp,
    key: Seq<char>,
    previous: Option<Seq<char>>,
    user: Seq<char>,
)
    requires
        now.in_clock_range(),
    ensures
        login_table(m, now, key, previous, user).contains_key(key),
        login_table(m, now, key, previous, user)[key].user_name == user,
        login_table(m, now, key, previous, user)[key].expiry.secs == now.secs + 300,
        login_table(m, now, key, previous, user)[key].expiry.nanos == now.nanos,
{
}

/// A session that login opened no longer opens a socket once more than five
/// minutes have passed since the login: the request is refused and the
/// session is closed.
pub proof fn law_login_session_expires_after_five_minutes(
    m: Map<Seq<char>, SessionEntry>,
    now: Timestamp,
    key: Seq<char>,
    previous: Option<Seq<char>>,
    user: Seq<char>,
    later: Timestamp,
)
    requires
        now.in_clock_range(),
        now.nanos < 1_000_000_000,
        later.nanos < 1_000_000_000,
        later.secs * 1_000_000_000 + later.nanos > (now.secs + 300) * 1_000_000_000 + now.nanos,
    ensures
        !admits(
            login_table(m, now, key, previous, user),
            later,
            Some(CookieView { id: key, user_name: user }),
        ),
        !admit_table(
            login_table(m, now, key, previous, user),
            later,
            Some(CookieView { id: key, user_name: user }),
        ).contains_key(key),
{
}

/// Dropping the socket with id `id` keeps every other socket: each socket
/// with another id is still open afterwards, the socket `id` is gone, and the
/// number of open sockets falls by exactly one when it was open (and not at
/// all otherwise).
pub proof fn law_dropping_a_socket_keeps_the_others<A>(s: Seq<SocketEntry<A>>, id: Seq<u8>)
    requires
        ids_distinct(s),
    ensures
        forall|i: int|
            0 <= i < s.len() && (#[trigger] s[i]).id != id ==> registry_remove(s, id).contains(s[i]),
        !has_socket(registry_remove(s, id), id),
        has_socket(s, id) ==> registry_remove(s, id).len() == s.len() - 1,
        !has_socket(s, id) ==> registry_remove(s, id) == s,
{
    let r = registry_remove(s, id);
    if has_socket(s, id) {
        let p = socket_position(s, id);
        assert forall|i: int| 0 <= i < s.len() && (#[trigger] s[i]).id != id implies r.contains(s[i]) by {
            let i1 = if i < p { i } else { i - 1 };
            assert(r[i1] == s[i]);
        }
        if has_socket(r, id) {
            let b = choose|b: int| 0 <= b < r.len() && (#[trigger] r[b]).id == id;
            let b0 = if b < p { b } else { b + 1 };
            assert(r[b] == s[b0]);
            assert(s[b0].id != s[p].id);
        }
    } else {
        assert forall|i: int| 0 <= i < s.len() && (#[trigger] s[i]).id != id implies r.contains(s[i]) by {
            assert(r[i] == s[i]);
        }
    }
}

/// `exceeds` is the order of durations: one span exceeds another exactly when
/// it is longer, counted in nanoseconds.
pub proof fn law_exceeds_is_longer(a: Elapsed, b: Elapsed)
    requires
        a.nanos < 1_000_000_000,
        b.nanos < 1_000_000_000,
    ensures
        a.exceeds(b) <==> a.secs * 1_000_000_000 + a.nanos > b.secs * 1_000_000_000 + b.nanos,
{
}

/// The heartbeat closes a socket exactly when more than ten seconds have
/// passed since the last pong; any span under ten seconds keeps it open.
pub proof fn law_client_timeout_is_ten_seconds(e: Elapsed)
    requires
        e.nanos < 1_000_000_000,
    ensures
        e.exceeds(Elapsed::client_timeout()) <==> e.secs * 1_000_000_000 + e.nanos > 10_000_000_000,
        e.secs < 10 ==> !e.exceeds(Elapsed::client_timeout()),
        e.secs == 10 && e.nanos == 0 ==> !e.exceeds(Elapsed::client_timeout()),
{
    law_exceeds_is_longer(e, Elapsed::client_timeout());
}

/// `precedes` is the order of time: one timestamp precedes another exactly
/// when it is earlier, counted in nanoseconds since the epoch.
pub proof fn law_precedes_is_earlier(a: Timestamp, b: Timestamp)
    requires
        a.nanos < 1_000_000_000,
        b.nanos < 1_000_000_000,
    ensures
        a.precedes(b) <==> a.secs * 1_000_000_000 + a.nanos < b.secs * 1_000_000_000 + b.nanos,
{
}

} // verus!
