//! The client's side of the session: who is logged in, where the requests
//! of the client go, which key asks for which move, and what happens to a
//! message that is sent before the socket is open.

use vstd::prelude::*;
use vstd::string::{StrSliceExecFns, StringExecFns};
use crate::credentials::{is_white_space, white_space};
use crate::entities::{move_action, MoveCommand, MoveCommandView};
use crate::text::{owned, same_text};

verus! {

/// The user of one client, with the credential of its session once it has
/// logged in.
#[derive(Clone)]
pub struct User {
    pub username: String,
    pub token: Option<String>,
}

impl User {
    /// A user that has not logged in yet.
    pub fn new(username: String) -> (r: User)
        ensures
            r.username == username,
            r.token is None,
    {
        User { username, token: None }
    }

    /// The user after a login that returned `token`.
    pub fn logged_in(username: String, token: String) -> (r: User)
        ensures
            r.username == username,
            r.token == Some(token),
    {
        User { username, token: Some(token) }
    }

    /// Whether the user holds a credential.
    pub fn is_logged_in(&self) -> (r: bool)
        ensures
            r == self.token is Some,
    {
        self.token.is_some()
    }
}

/// Where the requests of a client go.
#[derive(Clone)]
pub struct ApiClient {
    base_url: String,
}

impl ApiClient {
    /// A client for the server at `base_url`.
    pub fn new(base_url: String) -> (r: ApiClient)
        ensures
            r.base_url() == base_url@,
    {
        ApiClient { base_url }
    }

    /// The address of the server.
    pub closed spec fn base_url(&self) -> Seq<char> {
        self.base_url@
    }

    /// The address that a login is sent to.
    pub fn login_url(&self) -> (r: String)
        ensures
            r@ == self.base_url() + "/login"@,
    {
        owned(self.base_url.as_str()).concat("/login")
    }

    /// The address that a registration is sent to.
    pub fn register_url(&self) -> (r: String)
        ensures
            r@ == self.base_url() + "/register"@,
    {
        owned(self.base_url.as_str()).concat("/register")
    }
}

/// Logs users in and registers them through an `ApiClient`.
#[derive(Clone)]
pub struct AuthService {
    api_client: ApiClient,
}

impl AuthService {
    /// A service that sends its requests through `api_client`.
    pub fn new(api_client: ApiClient) -> (r: AuthService)
        ensures
            r.api_client() == api_client,
    {
        AuthService { api_client }
    }

    /// The client that the requests go through.
    pub closed spec fn api_client(&self) -> ApiClient {
        self.api_client
    }

    /// The address that a login is sent to.
    pub fn login_url(&self) -> (r: String)
        ensures
            r@ == self.api_client().base_url() + "/login"@,
    {
        self.api_client.login_url()
    }

    /// The address that a registration is sent to.
    pub fn register_url(&self) -> (r: String)
        ensures
            r@ == self.api_client().base_url() + "/register"@,
    {
        self.api_client.register_url()
    }
}

/// What a `WebSocketService` holds: whether its socket is open, and the
/// messages that wait for that, oldest first.
pub ghost struct WebSocketServiceView {
    pub is_open: bool,
    pub queued: Seq<Seq<char>>,
}

/// The sending side of the client's socket. What is sent before the socket
/// is open waits in a queue and goes out, in its order, when it opens.
pub struct WebSocketService {
    is_open: bool,
    message_queue: Vec<String>,
}

/// The messages of a queue as mathematical values.
pub open spec fn texts(messages: Seq<String>) -> Seq<Seq<char>> {
    messages.map_values(|m: String| m@)
}

impl View for WebSocketService {
    type V = WebSocketServiceView;

    closed spec fn view(&self) -> WebSocketServiceView {
        WebSocketServiceView { is_open: self.is_open, queued: texts(self.message_queue@) }
    }
}

impl WebSocketService {
    /// The service of a socket that is not open yet, with nothing queued.
    pub fn connect() -> (r: WebSocketService)
        ensures
            r@ == (WebSocketServiceView { is_open: false, queued: Seq::<Seq<char>>::empty() }),
    {
        let r = WebSocketService { is_open: false, message_queue: Vec::new() };
        assert(texts(r.message_queue@) =~= Seq::<Seq<char>>::empty());
        r
    }

    /// Whether the socket is open.
    pub fn is_open(&self) -> (r: bool)
        ensures
            r == self@.is_open,
    {
        self.is_open
    }

    /// The number of messages that wait for the socket to open.
    pub fn queued(&self) -> (r: usize)
        ensures
            r as nat == self@.queued.len(),
    {
        self.message_queue.len()
    }

    /// Takes a message that is to be sent. On an open socket it is handed
    /// back, to be written now; otherwise it is queued and `None` is
    /// returned.
    pub fn send(&mut self, message: &str) -> (r: Option<String>)
        ensures
            final(self)@.is_open == old(self)@.is_open,
            match r {
                Some(now) => old(self)@.is_open && now@ == message@ && final(self)@.queued == old(
                    self,
                )@.queued,
                None => !old(self)@.is_open && final(self)@.queued == old(self)@.queued.push(
                    message@,
                ),
            },
    {
        if self.is_open {
            Some(owned(message))
        } else {
            let ghost before = self.message_queue@;
            self.message_queue.push(owned(message));
            assert(texts(self.message_queue@) =~= texts(before).push(message@));
            None
        }
    }

    /// The socket has opened: the queue is emptied, and the messages that
    /// waited in it are returned in the order in which they were sent, to be
    /// written now.
    pub fn on_open(&mut self) -> (r: Vec<String>)
        ensures
            final(self)@ == (WebSocketServiceView { is_open: true, queued: Seq::<Seq<char>>::empty() }),
            texts(r@) == old(self)@.queued,
    {
        let mut waiting: Vec<String> = Vec::new();
        std::mem::swap(&mut self.message_queue, &mut waiting);
        self.is_open = true;
        assert(texts(self.message_queue@) =~= Seq::<Seq<char>>::empty());
        waiting
    }
}

/// The step that a key asks for: one cell in the direction of an arrow key,
/// none for any other key. The rows of the grid count downwards.
pub open spec fn delta_of_key(key: Seq<char>) -> (int, int) {
    if key == "ArrowUp"@ {
        (0, -1)
    } else if key == "ArrowDown"@ {
        (0, 1)
    } else if key == "ArrowLeft"@ {
        (-1, 0)
    } else if key == "ArrowRight"@ {
        (1, 0)
    } else {
        (0, 0)
    }
}

/// The step that the key `key` asks for.
pub fn delta_for_key(key: &str) -> (r: (i32, i32))
    ensures
        (r.0 as int, r.1 as int) == delta_of_key(key@),
{
    if same_text(key, "ArrowUp") {
        (0, -1)
    } else if same_text(key, "ArrowDown") {
        (0, 1)
    } else if same_text(key, "ArrowLeft") {
        (-1, 0)
    } else if same_text(key, "ArrowRight") {
        (1, 0)
    } else {
        (0, 0)
    }
}

/// The command that the key `key` makes the client send: a move by one cell
/// for an arrow key, nothing for any other key.
pub fn command_for_key(key: &str) -> (r: Option<MoveCommand>)
    ensures
        match r {
            Some(cmd) => delta_of_key(key@) != (0int, 0int) && cmd@ == (MoveCommandView {
                action: move_action(),
                dx: delta_of_key(key@).0,
                dy: delta_of_key(key@).1,
            }),
            None => delta_of_key(key@) == (0int, 0int),
        },
{
    let (dx, dy) = delta_for_key(key);
    if dx != 0 || dy != 0 {
        Some(MoveCommand::new(dx, dy))
    } else {
        None
    }
}

/// The text that stands before the token in the answer to a login.
pub open spec fn token_marker() -> Seq<char> {
    "token: "@
}

/// Whether `pattern` stands in `text` at the index `i`.
pub open spec fn occurs_at(text: Seq<char>, pattern: Seq<char>, i: int) -> bool {
    &&& 0 <= i
    &&& i + pattern.len() <= text.len()
    &&& text.subrange(i, i + pattern.len()) == pattern
}

/// Whether `i` is the first index at which `pattern` stands in `text`.
pub open spec fn first_occurrence(text: Seq<char>, pattern: Seq<char>, i: int) -> bool {
    &&& occurs_at(text, pattern, i)
    &&& forall|j: int| 0 <= j < i ==> !occurs_at(text, pattern, j)
}

/// Whether `text` from `a` up to `b` is `text` without the white space at
/// its two ends: nothing but white space stands before `a` and from `b` on,
/// and what is between neither begins nor ends with white space.
pub open spec fn trim_bounds(text: Seq<char>, a: int, b: int) -> bool {
    &&& 0 <= a <= b <= text.len()
    &&& forall|j: int| 0 <= j < a ==> is_white_space(#[trigger] text[j])
    &&& forall|j: int| b <= j < text.len() ==> is_white_space(#[trigger] text[j])
    &&& a < b ==> !is_white_space(text[a]) && !is_white_space(text[b - 1])
}

/// Whether `trimmed` is `text` without the white space at its two ends.
pub open spec fn trims_to(text: Seq<char>, trimmed: Seq<char>) -> bool {
    exists|a: int, b: int| trim_bounds(text, a, b) && trimmed == #[trigger] text.subrange(a, b)
}

/// One decimal digit as text.
pub open spec fn digit_text(d: int) -> Seq<char> {
    if d == 0 {
        "0"@
    } else if d == 1 {
        "1"@
    } else if d == 2 {
        "2"@
    } else if d == 3 {
        "3"@
    } else if d == 4 {
        "4"@
    } else if d == 5 {
        "5"@
    } else if d == 6 {
        "6"@
    } else if d == 7 {
        "7"@
    } else if d == 8 {
        "8"@
    } else {
        "9"@
    }
}

/// A number in decimal, without leading zeros.
pub open spec fn decimal(n: nat) -> Seq<char>
    decreases n,
{
    if n < 10 {
        digit_text(n as int)
    } else {
        decimal(n / 10) + digit_text((n % 10) as int)
    }
}

/// Whether `r` is what the answer to a login gives the client: `ok` says
/// whether the status of the answer was a success, `status` is that status,
/// and `body` is the text of the answer.
///
/// An answer that is no success gives the error `HTTP error: ` with the
/// status. A success gives the token: what follows the first `token: ` in
/// the body, without the white space at its two ends. A success without
/// `token: ` gives the error `Token not found in response`.
pub open spec fn login_answer(ok: bool, status: u16, body: Seq<char>, r: Result<String, String>) -> bool {
    if !ok {
        r matches Err(message) && message@ == "HTTP error: "@ + decimal(status as nat)
    } else if exists|i: int| occurs_at(body, token_marker(), i) {
        r matches Ok(token) && exists|i: int| #[trigger]
            first_occurrence(body, token_marker(), i) && trims_to(
                body.subrange(i + token_marker().len(), body.len() as int),
                token@,
            )
    } else {
        r matches Err(message) && message@ == "Token not found in response"@
    }
}

/// One decimal digit as text.
fn digit(d: u16) -> (r: &'static str)
    requires
        d < 10,
    ensures
        r@ == digit_text(d as int),
{
    if d == 0 {
        "0"
    } else if d == 1 {
        "1"
    } else if d == 2 {
        "2"
    } else if d == 3 {
        "3"
    } else if d == 4 {
        "4"
    } else if d == 5 {
        "5"
    } else if d == 6 {
        "6"
    } else if d == 7 {
        "7"
    } else if d == 8 {
        "8"
    } else {
        "9"
    }
}

/// `n` in decimal.
pub fn decimal_of(n: u16) -> (r: String)
    ensures
        r@ == decimal(n as nat),
    decreases n,
{
    if n < 10 {
        owned(digit(n))
    } else {
        decimal_of(n / 10).concat(digit(n % 10))
    }
}

/// The characters of `text`.
fn chars_of(text: &str) -> (r: Vec<char>)
    ensures
        r@ == text@,
{
    let n = text.unicode_len();
    let mut out: Vec<char> = Vec::new();
    let mut i: usize = 0;
    while i < n
        invariant
            n == text@.len(),
            i <= n,
            out@ == text@.subrange(0, i as int),
        decreases n - i,
    {
        out.push(text.get_char(i));
        assert(out@ =~= text@.subrange(0, i + 1));
        i += 1;
    }
    assert(out@ =~= text@);
    out
}

/// Whether `pattern` stands in `text` at the index `i`.
fn stands_at(text: &Vec<char>, pattern: &Vec<char>, i: usize) -> (r: bool)
    requires
        i + pattern@.len() <= text@.len(),
    ensures
        r == occurs_at(text@, pattern@, i as int),
{
    let m = pattern.len();
    let n = text.len();
    let mut k: usize = 0;
    while k < m
        invariant
            m == pattern@.len(),
            n == text@.len(),
            i + m <= n,
            k <= m,
            forall|j: int| 0 <= j < k ==> text@[i + j] == pattern@[j],
        decreases m - k,
    {
        if text[i + k] != pattern[k] {
            assert(text@.subrange(i as int, i + m)[k as int] != pattern@[k as int]);
            return false;
        }
        k += 1;
    }
    assert(text@.subrange(i as int, i + m) =~= pattern@);
    true
}

/// The first index at which `pattern` stands in `text`, if it stands there
/// at all.
fn find_first(text: &Vec<char>, pattern: &Vec<char>) -> (r: Option<usize>)
    ensures
        match r {
            Some(i) => first_occurrence(text@, pattern@, i as int),
            None => forall|j: int| !occurs_at(text@, pattern@, j),
        },
{
    let n = text.len();
    let m = pattern.len();
    if m > n {
        return None;
    }
    let last = n - m;
    let mut i: usize = 0;
    while i < last
        invariant
            n == text@.len(),
            m == pattern@.len(),
            last == n - m,
            i <= last,
            forall|j: int| 0 <= j < i ==> !occurs_at(text@, pattern@, j),
        decreases last - i,
    {
        if stands_at(text, pattern, i) {
            return Some(i);
        }
        i += 1;
    }
    if stands_at(text, pattern, last) {
        Some(last)
    } else {
        None
    }
}

/// What the answer to a login gives the client: the token, or the reason
/// why there is none.
pub fn token_from_response(ok: bool, status: u16, body: &str) -> (r: Result<String, String>)
    ensures
        login_answer(ok, status, body@, r),
{
    if !ok {
        return Err(owned("HTTP error: ").concat(decimal_of(status).as_str()));
    }
    let text = chars_of(body);
    let marker = chars_of("token: ");
    match find_first(&text, &marker) {
        None => Err(owned("Token not found in response")),
        Some(at) => {
            let n = text.len();
            let start = at + marker.len();
            let mut a: usize = start;
            while a < n && white_space(text[a])
                invariant
                    n == text@.len(),
                    start <= a <= n,
                    forall|j: int| start <= j < a ==> is_white_space(#[trigger] text@[j]),
                decreases n - a,
            {
                a += 1;
            }
            let mut b: usize = n;
            while b > a && white_space(text[b - 1])
                invariant
                    n == text@.len(),
                    a <= b <= n,
                    forall|j: int| b <= j < n ==> is_white_space(#[trigger] text@[j]),
                decreases b,
            {
                b -= 1;
            }
            let token = owned(body.substring_char(a, b));
            proof {
                let rest = body@.subrange(start as int, n as int);
                assert(trim_bounds(rest, a - start, b - start));
                assert(token@ =~= rest.subrange(a - start, b - start));
                assert(first_occurrence(body@, token_marker(), at as int));
            }
            Ok(token)
        },
    }
}

/// A text has one trimmed form and no more.
pub proof fn lemma_trim_is_unique(text: Seq<char>, first: Seq<char>, second: Seq<char>)
    requires
        trims_to(text, first),
        trims_to(text, second),
    ensures
        first == second,
{
    let (a1, b1) = choose|a: int, b: int|
        trim_bounds(text, a, b) && first == #[trigger] text.subrange(a, b);
    let (a2, b2) = choose|a: int, b: int|
        trim_bounds(text, a, b) && second == #[trigger] text.subrange(a, b);
    if a1 < b1 && a2 < b2 {
        if a1 < a2 {
            assert(is_white_space(text[a1]));
        }
        if a2 < a1 {
            assert(is_white_space(text[a2]));
        }
        if b1 < b2 {
            assert(is_white_space(text[b2 - 1]));
        }
        if b2 < b1 {
            assert(is_white_space(text[b1 - 1]));
        }
    } else if a1 < b1 {
        if a1 < a2 {
            assert(is_white_space(text[a1]));
        } else {
            assert(b2 <= a1);
            assert(is_white_space(text[a1]));
        }
    } else if a2 < b2 {
        if a2 < a1 {
            assert(is_white_space(text[a2]));
        } else {
            assert(b1 <= a2);
            assert(is_white_space(text[a2]));
        }
    } else {
        assert(first =~= second);
    }
}

} // verus!
