//! What the control page decides: which sessions are valid, which handler
//! a request goes to, and how the parameters of a request are read.
use crate::decimal::{decimal, parse_unsigned, parse_unsigned_chars, push_decimal};
use crate::json::{
    json_member, json_parse, json_quoted, json_string, member_of, parsed_members,
    put_quoted_items, quoted_items,
};
use crate::text::{
    chars_are, chars_eq, chars_of, chars_to_lower, extend_chars, pieces, split_on, str_eq,
    string_of, strings, texts, to_lower,
};
use crate::tunnel::{TunnelStatus, TunnelStatusView};
use vstd::prelude::*;

verus! {

/// How long a session lasts after its last use, in seconds.
pub const SESSION_TTL_SECS: u64 = 3600;

/// A session: its token and the time, in seconds, at which it expires.
#[derive(Debug)]
pub struct Session {
    pub token: String,
    pub expiry: u64,
}

pub struct SessionView {
    pub token: Seq<char>,
    pub expiry: u64,
}

impl View for Session {
    type V = SessionView;

    open spec fn view(&self) -> SessionView {
        SessionView { token: self.token@, expiry: self.expiry }
    }
}

/// The sessions of the control page. No token occurs twice.
#[derive(Debug)]
pub struct Sessions {
    tokens: Vec<Session>,
}

pub open spec fn sessions(v: Seq<Session>) -> Seq<SessionView> {
    v.map_values(|s: Session| s@)
}

/// Whether no token occurs twice.
pub open spec fn distinct(all: Seq<SessionView>) -> bool {
    forall|i: int, j: int|
        0 <= i < all.len() && 0 <= j < all.len() && i != j ==> (#[trigger] all[i]).token
            != (#[trigger] all[j]).token
}

/// The time at which a session that is used at `now` expires.
pub open spec fn expiry_from(now: u64) -> u64 {
    if now <= u64::MAX - SESSION_TTL_SECS {
        (now + SESSION_TTL_SECS) as u64
    } else {
        u64::MAX
    }
}

/// The sessions that have not expired at `now`, in order.
pub open spec fn live(all: Seq<SessionView>, now: u64) -> Seq<SessionView>
    decreases all.len(),
{
    if all.len() == 0 {
        Seq::empty()
    } else if now < all.last().expiry {
        live(all.drop_last(), now).push(all.last())
    } else {
        live(all.drop_last(), now)
    }
}

/// The sessions with another token than `token`, in order.
pub open spec fn without(all: Seq<SessionView>, token: Seq<char>) -> Seq<SessionView>
    decreases all.len(),
{
    if all.len() == 0 {
        Seq::empty()
    } else if all.last().token != token {
        without(all.drop_last(), token).push(all.last())
    } else {
        without(all.drop_last(), token)
    }
}

/// The index of the session with the token `token`, from index `k` on.
pub open spec fn find(all: Seq<SessionView>, token: Seq<char>, k: int) -> Option<int>
    decreases all.len() - k,
{
    if k >= all.len() {
        None
    } else if all[k].token == token {
        Some(k)
    } else {
        find(all, token, k + 1)
    }
}

/// Whether the token names a session that has not expired at `now`.
pub open spec fn valid_at(all: Seq<SessionView>, token: Seq<char>, now: u64) -> bool {
    find(all, token, 0) is Some && now < all[find(all, token, 0)->0].expiry
}

/// The sessions after the token was presented at `now`: a session that has
/// not expired lasts anew from `now`; one that has expired is dropped.
pub open spec fn validated(all: Seq<SessionView>, token: Seq<char>, now: u64) -> Seq<SessionView> {
    match find(all, token, 0) {
        None => all,
        Some(i) => if now < all[i].expiry {
            all.update(i, SessionView { token: all[i].token, expiry: expiry_from(now) })
        } else {
            all.remove(i)
        },
    }
}

/// The sessions after one with the token `token` was created at `now`: the
/// expired ones are dropped, and the new one replaces any of its token.
pub open spec fn created(all: Seq<SessionView>, token: Seq<char>, now: u64) -> Seq<SessionView> {
    without(live(all, now), token).push(SessionView { token, expiry: expiry_from(now) })
}

proof fn lemma_live_subset(all: Seq<SessionView>, now: u64)
    ensures
        forall|i: int|
            0 <= i < live(all, now).len() ==> exists|j: int|
                0 <= j < all.len() && all[j] == #[trigger] live(all, now)[i],
        distinct(all) ==> distinct(live(all, now)),
    decreases all.len(),
{
    if all.len() > 0 {
        let rest = all.drop_last();
        lemma_live_subset(rest, now);
        let l = live(all, now);
        assert forall|i: int| 0 <= i < l.len() implies exists|j: int|
            0 <= j < all.len() && all[j] == #[trigger] l[i] by {
            if now < all.last().expiry && i == l.len() - 1 {
                assert(all[all.len() - 1] == l[i]);
            } else {
                assert(l[i] == live(rest, now)[i]);
                let j = choose|j: int| 0 <= j < rest.len() && rest[j] == live(rest, now)[i];
                assert(all[j] == l[i]);
            }
        }
        if distinct(all) {
            assert(distinct(rest)) by {
                assert forall|i: int, j: int|
                    0 <= i < rest.len() && 0 <= j < rest.len() && i != j implies (#[trigger] rest[i]).token
                    != (#[trigger] rest[j]).token by {
                    assert(rest[i] == all[i]);
                    assert(rest[j] == all[j]);
                }
            }
            if now < all.last().expiry {
                let lr = live(rest, now);
                assert forall|i: int, j: int|
                    0 <= i < l.len() && 0 <= j < l.len() && i != j implies (#[trigger] l[i]).token
                    != (#[trigger] l[j]).token by {
                    if i < lr.len() && j < lr.len() {
                        assert(l[i] == lr[i] && l[j] == lr[j]);
                    } else if i < lr.len() {
                        let a = choose|a: int| 0 <= a < rest.len() && rest[a] == lr[i];
                        assert(all[a] == l[i]);
                        assert(all[all.len() - 1] == l[j]);
                    } else {
                        let a = choose|a: int| 0 <= a < rest.len() && rest[a] == lr[j];
                        assert(all[a] == l[j]);
                        assert(all[all.len() - 1] == l[i]);
                    }
                }
            }
        }
    }
}

proof fn lemma_without_absent(all: Seq<SessionView>, token: Seq<char>)
    ensures
        forall|i: int|
            0 <= i < without(all, token).len() ==> (#[trigger] without(all, token)[i]).token
                != token,
        forall|i: int|
            0 <= i < without(all, token).len() ==> exists|j: int|
                0 <= j < all.len() && all[j] == #[trigger] without(all, token)[i],
        distinct(all) ==> distinct(without(all, token)),
    decreases all.len(),
{
    if all.len() > 0 {
        let rest = all.drop_last();
        lemma_without_absent(rest, token);
        let l = without(all, token);
        let lr = without(rest, token);
        assert forall|i: int| 0 <= i < l.len() implies exists|j: int|
            0 <= j < all.len() && all[j] == #[trigger] l[i] by {
            if all.last().token != token && i == l.len() - 1 {
                assert(all[all.len() - 1] == l[i]);
            } else {
                assert(l[i] == lr[i]);
                let j = choose|j: int| 0 <= j < rest.len() && rest[j] == lr[i];
                assert(all[j] == l[i]);
            }
        }
        if distinct(all) {
            assert(distinct(rest)) by {
                assert forall|i: int, j: int|
                    0 <= i < rest.len() && 0 <= j < rest.len() && i != j implies (#[trigger] rest[i]).token
                    != (#[trigger] rest[j]).token by {
                    assert(rest[i] == all[i]);
                    assert(rest[j] == all[j]);
                }
            }
            if all.last().token != token {
                assert forall|i: int, j: int|
                    0 <= i < l.len() && 0 <= j < l.len() && i != j implies (#[trigger] l[i]).token
                    != (#[trigger] l[j]).token by {
                    if i < lr.len() && j < lr.len() {
                        assert(l[i] == lr[i] && l[j] == lr[j]);
                    } else if i < lr.len() {
                        let a = choose|a: int| 0 <= a < rest.len() && rest[a] == lr[i];
                        assert(all[a] == l[i]);
                        assert(all[all.len() - 1] == l[j]);
                    } else {
                        let a = choose|a: int| 0 <= a < rest.len() && rest[a] == lr[j];
                        assert(all[a] == l[j]);
                        assert(all[all.len() - 1] == l[i]);
                    }
                }
            }
        }
    }
}

/// Creating a session keeps the tokens distinct, and so does presenting
/// one and dropping the expired ones.
pub proof fn lemma_sessions_stay_distinct(all: Seq<SessionView>, token: Seq<char>, now: u64)
    requires
        distinct(all),
    ensures
        distinct(live(all, now)),
        distinct(validated(all, token, now)),
        distinct(created(all, token, now)),
{
    lemma_live_subset(all, now);
    lemma_without_absent(live(all, now), token);
    let c = created(all, token, now);
    let w = without(live(all, now), token);
    assert forall|i: int, j: int|
        0 <= i < c.len() && 0 <= j < c.len() && i != j implies (#[trigger] c[i]).token
        != (#[trigger] c[j]).token by {
        if i < w.len() {
            assert(c[i] == w[i]);
        }
        if j < w.len() {
            assert(c[j] == w[j]);
        }
    }
    let v = validated(all, token, now);
    match find(all, token, 0) {
        None => {},
        Some(k) => {
            lemma_find(all, token, 0);
            assert forall|i: int, j: int|
                0 <= i < v.len() && 0 <= j < v.len() && i != j implies (#[trigger] v[i]).token
                != (#[trigger] v[j]).token by {
                if now < all[k].expiry {
                    assert(v[i].token == all[i].token);
                    assert(v[j].token == all[j].token);
                } else {
                    let a = if i < k {
                        i
                    } else {
                        i + 1
                    };
                    let b = if j < k {
                        j
                    } else {
                        j + 1
                    };
                    assert(v[i] == all[a]);
                    assert(v[j] == all[b]);
                }
            }
        },
    }
}

/// Where `find` finds a session, it is the first with the token.
pub proof fn lemma_find(all: Seq<SessionView>, token: Seq<char>, k: int)
    requires
        0 <= k,
    ensures
        match find(all, token, k) {
            Some(i) => k <= i < all.len() && all[i].token == token,
            None => forall|i: int| k <= i < all.len() ==> (#[trigger] all[i]).token != token,
        },
    decreases all.len() - k,
{
    if k < all.len() && all[k].token != token {
        lemma_find(all, token, k + 1);
    }
}

impl View for Sessions {
    type V = Seq<SessionView>;

    closed spec fn view(&self) -> Seq<SessionView> {
        sessions(self.tokens@)
    }
}

fn expiry_after(now: u64) -> (r: u64)
    ensures
        r == expiry_from(now),
{
    if now <= u64::MAX - SESSION_TTL_SECS {
        now + SESSION_TTL_SECS
    } else {
        u64::MAX
    }
}

/// Makes the token of a new session with `uuid::Uuid::new_v4`. Each call
/// gives another, random token; nothing is claimed of it.
#[verifier::external_body]
fn fresh_token() -> (r: String) {
    uuid::Uuid::new_v4().to_string()
}

impl Sessions {
    /// No sessions.
    pub fn new() -> (r: Self)
        ensures
            r@ == Seq::<SessionView>::empty(),
            distinct(r@),
    {
        let r = Sessions { tokens: Vec::new() };
        assert(sessions(r.tokens@) =~= Seq::<SessionView>::empty());
        r
    }

    /// How many sessions are kept.
    pub fn len(&self) -> (r: usize)
        ensures
            r == self@.len(),
    {
        self.tokens.len()
    }

    /// Drops the sessions that have expired at `now`.
    pub fn cleanup(&mut self, now: u64)
        ensures
            final(self)@ == live(old(self)@, now),
            distinct(old(self)@) ==> distinct(final(self)@),
    {
        proof {
            if distinct(self@) {
                lemma_sessions_stay_distinct(self@, Seq::empty(), now);
            }
        }
        let mut kept: Vec<Session> = Vec::new();
        let mut i: usize = 0;
        let ghost all = self@;
        assert(sessions(kept@) =~= live(all.take(0), now));
        while i < self.tokens.len()
            invariant
                i <= self.tokens.len(),
                all == sessions(self.tokens@),
                sessions(kept@) == live(all.take(i as int), now),
            decreases self.tokens.len() - i,
        {
            let ghost before = kept@;
            assert(all.take(i + 1).drop_last() == all.take(i as int));
            assert(all.take(i + 1).last() == self.tokens@[i as int]@);
            if now < self.tokens[i].expiry {
                let s = Session { token: self.tokens[i].token.clone(), expiry: self.tokens[i].expiry };
                kept.push(s);
                assert(sessions(kept@) =~= sessions(before).push(self.tokens@[i as int]@));
            }
            i += 1;
        }
        assert(all.take(self.tokens.len() as int) == all);
        self.tokens = kept;
    }

    fn remove_token(&mut self, token: &str)
        ensures
            final(self)@ == without(old(self)@, token@),
    {
        let mut kept: Vec<Session> = Vec::new();
        let mut i: usize = 0;
        let ghost all = self@;
        assert(sessions(kept@) =~= without(all.take(0), token@));
        while i < self.tokens.len()
            invariant
                i <= self.tokens.len(),
                all == sessions(self.tokens@),
                sessions(kept@) == without(all.take(i as int), token@),
            decreases self.tokens.len() - i,
        {
            let ghost before = kept@;
            assert(all.take(i + 1).drop_last() == all.take(i as int));
            assert(all.take(i + 1).last() == self.tokens@[i as int]@);
            if !str_eq(self.tokens[i].token.as_str(), token) {
                let s = Session { token: self.tokens[i].token.clone(), expiry: self.tokens[i].expiry };
                kept.push(s);
                assert(sessions(kept@) =~= sessions(before).push(self.tokens@[i as int]@));
            }
            i += 1;
        }
        assert(all.take(self.tokens.len() as int) == all);
        self.tokens = kept;
    }

    /// Keeps a new session with the given token, from `now` on.
    pub fn insert(&mut self, token: String, now: u64)
        ensures
            final(self)@ == created(old(self)@, token@, now),
            distinct(old(self)@) ==> distinct(final(self)@),
    {
        proof {
            if distinct(self@) {
                lemma_sessions_stay_distinct(self@, token@, now);
            }
        }
        self.cleanup(now);
        self.remove_token(token.as_str());
        let ghost before = self.tokens@;
        let s = Session { token, expiry: expiry_after(now) };
        self.tokens.push(s);
        assert(sessions(self.tokens@) =~= sessions(before).push(s@));
    }

    /// Creates a session at `now` and gives its token.
    pub fn create(&mut self, now: u64) -> (token: String)
        ensures
            final(self)@ == created(old(self)@, token@, now),
            distinct(old(self)@) ==> distinct(final(self)@),
    {
        let token = fresh_token();
        self.insert(token.clone(), now);
        token
    }

    fn index_of(&self, token: &str) -> (r: Option<usize>)
        ensures
            match r {
                Some(i) => find(self@, token@, 0) == Some(i as int) && i < self@.len(),
                None => find(self@, token@, 0) is None,
            },
    {
        let mut i: usize = 0;
        while i < self.tokens.len()
            invariant
                i <= self.tokens.len(),
                find(self@, token@, 0) == find(self@, token@, i as int),
            decreases self.tokens.len() - i,
        {
            assert(sessions(self.tokens@)[i as int] == self.tokens@[i as int]@);
            if str_eq(self.tokens[i].token.as_str(), token) {
                return Some(i);
            }
            i += 1;
        }
        None
    }

    /// Tells whether the token names a session that has not expired at
    /// `now`. Such a session lasts anew from `now`; one that has expired
    /// is dropped.
    pub fn validate(&mut self, token: &str, now: u64) -> (r: bool)
        ensures
            r == valid_at(old(self)@, token@, now),
            final(self)@ == validated(old(self)@, token@, now),
            distinct(old(self)@) ==> distinct(final(self)@),
    {
        proof {
            if distinct(self@) {
                lemma_sessions_stay_distinct(self@, token@, now);
            }
        }
        match self.index_of(token) {
            None => false,
            Some(i) => {
                assert(sessions(self.tokens@)[i as int] == self.tokens@[i as int]@);
                if now < self.tokens[i].expiry {
                    let s = Session {
                        token: self.tokens[i].token.clone(),
                        expiry: expiry_after(now),
                    };
                    self.tokens.set(i, s);
                    assert(sessions(self.tokens@) =~= validated(old(self)@, token@, now));
                    true
                } else {
                    self.tokens.remove(i);
                    assert(sessions(self.tokens@) =~= validated(old(self)@, token@, now));
                    false
                }
            },
        }
    }
}

/// The value of the parameter `key` among the pairs of a query, from pair
/// `k` on: the first pair that has an equals sign and `key` before it
/// gives what stands behind the sign.
pub open spec fn pair_value(pairs: Seq<Seq<char>>, key: Seq<char>, k: int) -> Option<Seq<char>>
    decreases pairs.len() - k,
{
    if k >= pairs.len() {
        None
    } else {
        let kv = pieces(pairs[k], '=');
        if kv.len() >= 2 && kv[0] == key {
            Some(pairs[k].skip(key.len() as int + 1))
        } else {
            pair_value(pairs, key, k + 1)
        }
    }
}

/// The value of the parameter `key` in an address: the query is what
/// stands between the first and the second question mark, and its pairs
/// are parted by ampersands.
pub open spec fn query_param(url: Seq<char>, key: Seq<char>) -> Option<Seq<char>> {
    if pieces(url, '?').len() >= 2 {
        pair_value(pieces(pieces(url, '?')[1], '&'), key, 0)
    } else {
        None
    }
}

/// Reads the value of a parameter out of the query of an address.
pub fn parse_query_param(url: &str, key: &str) -> (r: Option<String>)
    ensures
        option_chars(r) == query_param(url@, key@),
{
    let raw = chars_of(url);
    let wanted = chars_of(key);
    let parts = split_on(&raw, '?');
    if parts.len() < 2 {
        return None;
    }
    assert(texts(parts@)[1] == parts@[1]@);
    let pairs = split_on(&parts[1], '&');
    let mut k: usize = 0;
    while k < pairs.len()
        invariant
            k <= pairs.len(),
            wanted@ == key@,
            pieces(url@, '?').len() >= 2,
            texts(pairs@) == pieces(pieces(url@, '?')[1], '&'),
            pair_value(texts(pairs@), key@, 0) == pair_value(texts(pairs@), key@, k as int),
        decreases pairs.len() - k,
    {
        assert(texts(pairs@)[k as int] == pairs@[k as int]@);
        let kv = split_on(&pairs[k], '=');
        assert(texts(kv@)[0] == kv@[0]@);
        if kv.len() >= 2 && chars_eq(&kv[0], &wanted) {
            proof {
                lemma_first_piece(pairs@[k as int]@, '=', 0, Seq::empty());
            }
            let n = pairs[k].len();
            let value = crate::text::slice_of(&pairs[k], wanted.len() + 1, n);
            return Some(string_of(&value));
        }
        k += 1;
    }
    None
}

/// Where a text has more than one piece, the separator stands right behind
/// its first piece.
pub proof fn lemma_first_piece(s: Seq<char>, sep: char, i: int, cur: Seq<char>)
    requires
        0 <= i <= s.len(),
        crate::text::pieces_from(s, sep, i, cur).len() >= 2,
    ensures
        crate::text::pieces_from(s, sep, i, cur)[0].len() - cur.len() + i < s.len(),
        crate::text::pieces_from(s, sep, i, cur)[0].len() >= cur.len(),
    decreases s.len() - i,
{
    if i < s.len() && s[i] != sep {
        lemma_first_piece(s, sep, i + 1, cur.push(s[i]));
    }
}

/// The method of a request, as far as the control page tells methods
/// apart.
#[derive(Clone, Copy, PartialEq, Eq, Debug, Structural)]
pub enum Method {
    Get,
    Post,
    Other,
}

/// The handler that a request goes to.
#[derive(Clone, Copy, PartialEq, Eq, Debug, Structural)]
pub enum Route {
    Index,
    Login,
    Status,
    GetConfig,
    SetConfig,
    Control,
    Logs,
    NotFound,
}

/// The path of an address: what stands before its first question mark.
pub open spec fn path_of(url: Seq<char>) -> Seq<char> {
    pieces(url, '?')[0]
}

/// The handler for a method and an address.
pub open spec fn route_of(method: Method, url: Seq<char>) -> Route {
    let p = path_of(url);
    if method == Method::Get && (p == "/"@ || p == "/index.html"@) {
        Route::Index
    } else if method == Method::Post && p == "/api/login"@ {
        Route::Login
    } else if method == Method::Get && p == "/api/status"@ {
        Route::Status
    } else if method == Method::Get && p == "/api/config"@ {
        Route::GetConfig
    } else if method == Method::Post && p == "/api/config"@ {
        Route::SetConfig
    } else if method == Method::Post && p == "/api/control"@ {
        Route::Control
    } else if method == Method::Get && p == "/api/logs"@ {
        Route::Logs
    } else {
        Route::NotFound
    }
}

/// Picks the handler for a request.
pub fn handle_request(method: Method, url: &str) -> (r: Route)
    ensures
        r == route_of(method, url@),
{
    let raw = chars_of(url);
    let parts = split_on(&raw, '?');
    assert(texts(parts@)[0] == parts@[0]@);
    let p = &parts[0];
    let get = method == Method::Get;
    let post = method == Method::Post;
    if get && (chars_are(p, "/") || chars_are(p, "/index.html")) {
        Route::Index
    } else if post && chars_are(p, "/api/login") {
        Route::Login
    } else if get && chars_are(p, "/api/status") {
        Route::Status
    } else if get && chars_are(p, "/api/config") {
        Route::GetConfig
    } else if post && chars_are(p, "/api/config") {
        Route::SetConfig
    } else if post && chars_are(p, "/api/control") {
        Route::Control
    } else if get && chars_are(p, "/api/logs") {
        Route::Logs
    } else {
        Route::NotFound
    }
}

/// Whether a handler answers only requests that carry a valid session.
pub fn needs_session(route: Route) -> (r: bool)
    ensures
        r == (route == Route::Status || route == Route::GetConfig || route == Route::SetConfig
            || route == Route::Control || route == Route::Logs),
{
    match route {
        Route::Status | Route::GetConfig | Route::SetConfig | Route::Control | Route::Logs => true,
        _ => false,
    }
}

/// What a request to control the tunnel asks for.
#[derive(Clone, Copy, PartialEq, Eq, Debug, Structural)]
pub enum ControlAction {
    Connect,
    Disconnect,
    Restart,
    Unknown,
}

pub open spec fn control_of(action: Seq<char>) -> ControlAction {
    if action == "connect"@ {
        ControlAction::Connect
    } else if action == "disconnect"@ {
        ControlAction::Disconnect
    } else if action == "restart"@ {
        ControlAction::Restart
    } else {
        ControlAction::Unknown
    }
}

/// Reads the name of an action.
pub fn control_action(action: &str) -> (r: ControlAction)
    ensures
        r == control_of(action@),
{
    if str_eq(action, "connect") {
        ControlAction::Connect
    } else if str_eq(action, "disconnect") {
        ControlAction::Disconnect
    } else if str_eq(action, "restart") {
        ControlAction::Restart
    } else {
        ControlAction::Unknown
    }
}

/// What the body of a request to control the tunnel holds.
#[derive(Clone, Copy, PartialEq, Eq, Debug, Structural)]
pub enum ControlRequest {
    /// The body is no JSON.
    InvalidJson,
    /// The body asks for this action.
    Action(ControlAction),
}

/// The text that an optional string holds.
pub open spec fn option_chars(r: Option<String>) -> Option<Seq<char>> {
    match r {
        Some(s) => Some(s@),
        None => None,
    }
}

/// What a request to control the tunnel asks for, given the member
/// `action` of its body: nothing where the body is no JSON; else the
/// action that the member names, a member that is missing or no string
/// naming none.
pub open spec fn control_request_of(action: Option<Option<Seq<char>>>) -> ControlRequest {
    match action {
        None => ControlRequest::InvalidJson,
        Some(None) => ControlRequest::Action(ControlAction::Unknown),
        Some(Some(a)) => ControlRequest::Action(control_of(a)),
    }
}

pub open spec fn nested_chars(r: Option<Option<String>>) -> Option<Option<Seq<char>>> {
    match r {
        Some(inner) => Some(option_chars(inner)),
        None => None,
    }
}

/// Tells what a request to control the tunnel asks for, from what was read
/// of its body.
pub fn control_request(action: Option<Option<String>>) -> (r: ControlRequest)
    ensures
        r == control_request_of(nested_chars(action)),
{
    match action {
        None => ControlRequest::InvalidJson,
        Some(None) => ControlRequest::Action(ControlAction::Unknown),
        Some(Some(a)) => ControlRequest::Action(control_action(a.as_str())),
    }
}

/// What the body of a request to control the tunnel asks for.
pub open spec fn control_of_body(body: Seq<char>) -> ControlRequest {
    match parsed_members(body) {
        None => ControlRequest::InvalidJson,
        Some(members) => control_request_of(Some(member_of(members, "action"@))),
    }
}

/// Reads the body of a request to control the tunnel.
pub fn api_control(body: &str) -> (r: ControlRequest)
    ensures
        r == control_of_body(body@),
{
    match json_parse(body) {
        None => control_request(None),
        Some(v) => control_request(Some(json_member(&v, "action"))),
    }
}

/// What the body of a login request holds.
#[derive(Debug)]
pub enum LoginRequest {
    /// The body is no JSON.
    InvalidJson,
    /// The login or the password is missing or empty.
    Incomplete,
    /// The body names a login and a password.
    Credentials { login: String, password: String },
}

pub enum LoginRequestView {
    InvalidJson,
    Incomplete,
    Credentials { login: Seq<char>, password: Seq<char> },
}

impl View for LoginRequest {
    type V = LoginRequestView;

    open spec fn view(&self) -> LoginRequestView {
        match *self {
            LoginRequest::InvalidJson => LoginRequestView::InvalidJson,
            LoginRequest::Incomplete => LoginRequestView::Incomplete,
            LoginRequest::Credentials { login, password } => LoginRequestView::Credentials {
                login: login@,
                password: password@,
            },
        }
    }
}

/// The text that a member holds; none where it is missing.
pub open spec fn member_or_empty(m: Option<Seq<char>>) -> Seq<char> {
    match m {
        Some(s) => s,
        None => Seq::empty(),
    }
}

/// What a login request asks for, given the members `login` and
/// `password` of its body.
pub open spec fn login_request_of(
    parsed: bool,
    login: Option<Seq<char>>,
    password: Option<Seq<char>>,
) -> LoginRequestView {
    if !parsed {
        LoginRequestView::InvalidJson
    } else if member_or_empty(login).len() == 0 || member_or_empty(password).len() == 0 {
        LoginRequestView::Incomplete
    } else {
        LoginRequestView::Credentials {
            login: member_or_empty(login),
            password: member_or_empty(password),
        }
    }
}

/// Tells what a login request asks for, from what was read of its body.
pub fn login_request(parsed: bool, login: Option<String>, password: Option<String>) -> (r:
    LoginRequest)
    ensures
        r@ == login_request_of(parsed, option_chars(login), option_chars(password)),
{
    if !parsed {
        return LoginRequest::InvalidJson;
    }
    let l = match login {
        Some(s) => s,
        None => String::new(),
    };
    let p = match password {
        Some(s) => s,
        None => String::new(),
    };
    if l.as_str().is_empty() || p.as_str().is_empty() {
        LoginRequest::Incomplete
    } else {
        LoginRequest::Credentials { login: l, password: p }
    }
}

/// What the body of a login request asks for.
pub open spec fn login_of_body(body: Seq<char>) -> LoginRequestView {
    match parsed_members(body) {
        None => LoginRequestView::InvalidJson,
        Some(members) => login_request_of(
            true,
            member_of(members, "login"@),
            member_of(members, "password"@),
        ),
    }
}

/// Reads the body of a login request.
pub fn api_login(body: &str) -> (r: LoginRequest)
    ensures
        r@ == login_of_body(body@),
{
    match json_parse(body) {
        None => login_request(false, None, None),
        Some(v) => {
            let login = json_member(&v, "login");
            let password = json_member(&v, "password");
            login_request(true, login, password)
        },
    }
}

/// The body that tells of the tunnel's status.
pub open spec fn status_body(st: TunnelStatusView) -> Seq<char> {
    "{\"connected\":"@ + crate::config::bool_text(st.connected) + ",\"last_error\":"@
        + json_quoted(st.last_error) + ",\"pid\":"@ + (match st.pid {
        Some(p) => decimal(p as nat),
        None => "null"@,
    }) + ",\"uptime_seconds\":"@ + decimal(st.uptime_seconds as nat) + "}"@
}

/// Writes the body that tells of the tunnel's status.
pub fn api_status(st: &TunnelStatus) -> (r: String)
    ensures
        r@ == status_body(st@),
{
    let mut out = chars_of("{\"connected\":");
    let flag = if st.connected {
        chars_of("true")
    } else {
        chars_of("false")
    };
    extend_chars(&mut out, &flag);
    let a = chars_of(",\"last_error\":");
    extend_chars(&mut out, &a);
    let q = json_string(st.last_error.as_str());
    let qc = chars_of(q.as_str());
    extend_chars(&mut out, &qc);
    let b = chars_of(",\"pid\":");
    extend_chars(&mut out, &b);
    match st.pid {
        Some(p) => {
            push_decimal(&mut out, p as u64);
        },
        None => {
            let n = chars_of("null");
            extend_chars(&mut out, &n);
        },
    }
    let c = chars_of(",\"uptime_seconds\":");
    extend_chars(&mut out, &c);
    push_decimal(&mut out, st.uptime_seconds);
    let close = chars_of("}");
    extend_chars(&mut out, &close);
    string_of(&out)
}

/// The body that hands out the token of a new session.
pub open spec fn token_body(token: Seq<char>) -> Seq<char> {
    "{\"status\":\"ok\",\"token\":"@ + json_quoted(token) + "}"@
}

/// Writes the body that hands out the token of a new session.
pub fn login_reply(token: &str) -> (r: String)
    ensures
        r@ == token_body(token@),
{
    let mut out = chars_of("{\"status\":\"ok\",\"token\":");
    let q = json_string(token);
    let qc = chars_of(q.as_str());
    extend_chars(&mut out, &qc);
    let close = chars_of("}");
    extend_chars(&mut out, &close);
    string_of(&out)
}

/// The body that tells of an error.
pub open spec fn error_body(message: Seq<char>) -> Seq<char> {
    "{\"error\":"@ + json_quoted(message) + "}"@
}

/// Writes the body that tells of an error.
pub fn error_reply(message: &str) -> (r: String)
    ensures
        r@ == error_body(message@),
{
    let mut out = chars_of("{\"error\":");
    let q = json_string(message);
    let qc = chars_of(q.as_str());
    extend_chars(&mut out, &qc);
    let close = chars_of("}");
    extend_chars(&mut out, &close);
    string_of(&out)
}

/// The body that shows log lines, with the number of lines that the
/// buffer holds.
pub open spec fn logs_body(lines: Seq<Seq<char>>, total: usize) -> Seq<char> {
    "{\"lines\":["@ + quoted_items(lines) + "],\"total\":"@ + decimal(total as nat) + "}"@
}

/// Writes the body that shows log lines.
pub fn logs_reply(lines: &Vec<String>, total: usize) -> (r: String)
    ensures
        r@ == logs_body(strings(lines@), total),
{
    let mut out = chars_of("{\"lines\":[");
    put_quoted_items(&mut out, lines);
    let mid = chars_of("],\"total\":");
    extend_chars(&mut out, &mid);
    push_decimal(&mut out, total as u64);
    let close = chars_of("}");
    extend_chars(&mut out, &close);
    string_of(&out)
}

/// How many log lines are shown where the request names no number.
pub const DEFAULT_LOG_LIMIT: usize = 100;

/// How many log lines are shown at most.
pub const MAX_LOG_LIMIT: usize = 500;

/// How many log lines a request asks for: the number that its parameter
/// `limit` names, or the default, but no more than the maximum.
pub open spec fn log_limit(url: Seq<char>) -> usize {
    match query_param(url, "limit"@) {
        Some(v) => match parse_unsigned(v, usize::MAX as nat) {
            Some(n) => if n > MAX_LOG_LIMIT {
                MAX_LOG_LIMIT
            } else {
                n as usize
            },
            None => DEFAULT_LOG_LIMIT,
        },
        None => DEFAULT_LOG_LIMIT,
    }
}

/// Reads how many log lines a request asks for.
pub fn api_logs(url: &str) -> (r: usize)
    ensures
        r == log_limit(url@),
{
    match parse_query_param(url, "limit") {
        Some(v) => {
            let digits = chars_of(v.as_str());
            match parse_unsigned_chars(&digits, usize::MAX as u64) {
                Some(n) => {
                    if n > MAX_LOG_LIMIT as u64 {
                        MAX_LOG_LIMIT
                    } else {
                        n as usize
                    }
                },
                None => DEFAULT_LOG_LIMIT,
            }
        },
        None => DEFAULT_LOG_LIMIT,
    }
}

/// A header of a request.
#[derive(Debug)]
pub struct Header {
    pub name: String,
    pub value: String,
}

/// The value of the first header, from index `k` on, whose name is
/// `authorization` in any case of letters.
pub open spec fn auth_header(headers: Seq<Header>, k: int) -> Option<Seq<char>>
    decreases headers.len() - k,
{
    if k >= headers.len() {
        None
    } else if to_lower(headers[k].name@) == "authorization"@ {
        Some(headers[k].value@)
    } else {
        auth_header(headers, k + 1)
    }
}

/// Finds the session token that a request carries.
pub fn get_auth_header(headers: &Vec<Header>) -> (r: Option<String>)
    ensures
        option_chars(r) == auth_header(headers@, 0),
{
    let mut k: usize = 0;
    while k < headers.len()
        invariant
            k <= headers.len(),
            auth_header(headers@, 0) == auth_header(headers@, k as int),
        decreases headers.len() - k,
    {
        let raw = chars_of(headers[k].name.as_str());
        let lower = chars_to_lower(&raw);
        if chars_are(&lower, "authorization") {
            return Some(headers[k].value.clone());
        }
        k += 1;
    }
    None
}

} // verus!
