//! The Twitter sign-in flow.
//!
//! Signing in alternates outside work (an HTTP request to Twitter, reading
//! its reply, storing the request token) with decisions. The decisions are
//! [`sign_in_step`]: from the flow's state and the outcome of the last piece
//! of outside work, the next state and the next thing to do. The caller
//! performs each action and feeds its outcome back as the next event.

use vstd::prelude::*;

use crate::text::str_equal;
use crate::token_reply::{
    granted_token_reply, lemma_granted_reply_parses, parse_token_reply, reply_secret, reply_token,
    token_reply_error_message, TokenReplyError,
};

verus! {

/// Where Twitter hands out request tokens.
pub open spec fn request_token_url() -> Seq<char> {
    "https://twitter.com/oauth/request_token"@
}

/// Where Twitter sends the visitor back once they have signed in.
pub open spec fn sign_in_callback_url() -> Seq<char> {
    "http://127.0.0.1:3000/persist_access/"@
}

/// Where a visitor who is already signed in is sent.
pub open spec fn league_page_url() -> Seq<char> {
    "http://localhost:3000/league/"@
}

/// Where the visitor signs in at Twitter with the request token.
pub open spec fn authenticate_url(token: Seq<char>) -> Seq<char> {
    "https://twitter.com/oauth/authenticate?oauth_token="@ + token
}

/// The name of the cookie that marks a signed-in visitor.
pub open spec fn session_cookie_name() -> Seq<char> {
    "userid"@
}

/// An address with the `http` or `https` scheme.
pub open spec fn is_http_url(s: Seq<char>) -> bool {
    ||| s.len() >= 7 && s.subrange(0, 7) == "http://"@
    ||| s.len() >= 8 && s.subrange(0, 8) == "https://"@
}

pub open spec fn is_ascii_digit(c: char) -> bool {
    48 <= (c as u32) <= 57
}

pub open spec fn is_ascii_alphanumeric(c: char) -> bool {
    ||| is_ascii_digit(c)
    ||| 65 <= (c as u32) <= 90
    ||| 97 <= (c as u32) <= 122
}

/// The number a string of decimal digits denotes.
pub open spec fn decimal_value(s: Seq<char>) -> nat
    decreases s.len(),
{
    if s.len() == 0 {
        0
    } else {
        decimal_value(s.drop_last()) * 10 + ((s.last() as u32) - 48) as nat
    }
}

/// The decimal writing of a number that fits in a `u64`.
pub open spec fn is_u64_decimal(s: Seq<char>) -> bool {
    &&& s.len() > 0
    &&& forall|i: int| 0 <= i < s.len() ==> is_ascii_digit(#[trigger] s[i])
    &&& decimal_value(s) <= u64::MAX
}

/// The decimal digit with the given value.
pub open spec fn digit_char(d: nat) -> char {
    if d == 0 {
        '0'
    } else if d == 1 {
        '1'
    } else if d == 2 {
        '2'
    } else if d == 3 {
        '3'
    } else if d == 4 {
        '4'
    } else if d == 5 {
        '5'
    } else if d == 6 {
        '6'
    } else if d == 7 {
        '7'
    } else if d == 8 {
        '8'
    } else {
        '9'
    }
}

/// The decimal writing of a number, without leading zeros.
pub open spec fn decimal_text(x: nat) -> Seq<char>
    decreases x,
{
    if x < 10 {
        seq![digit_char(x)]
    } else {
        decimal_text(x / 10).push(digit_char(x % 10))
    }
}

proof fn lemma_digit_char(d: nat)
    requires
        d < 10,
    ensures
        (digit_char(d) as u32) == 48 + d,
{
}

/// The decimal writing of a number denotes that number.
pub proof fn lemma_decimal_text(x: nat)
    ensures
        decimal_text(x).len() > 0,
        forall|i: int| 0 <= i < decimal_text(x).len() ==> is_ascii_digit(#[trigger] decimal_text(x)[i]),
        decimal_value(decimal_text(x)) == x,
    decreases x,
{
    if x >= 10 {
        lemma_decimal_text(x / 10);
        lemma_digit_char(x % 10);
        let t = decimal_text(x / 10);
        assert(decimal_text(x).drop_last() =~= t);
        assert(decimal_text(x).last() == digit_char(x % 10));
        assert(forall|i: int| 0 <= i < t.len() ==> decimal_text(x)[i] == t[i]);
        assert(x == (x / 10) * 10 + x % 10);
        let d = decimal_text(x);
        assert(decimal_value(d) == decimal_value(d.drop_last()) * 10 + ((d.last() as u32) - 48) as nat);
        assert(decimal_value(d) == decimal_value(t) * 10 + (x % 10));
    } else {
        lemma_digit_char(x);
        let d = decimal_text(x);
        assert(d.drop_last() =~= Seq::<char>::empty());
        assert(decimal_value(d) == decimal_value(d.drop_last()) * 10 + ((d.last() as u32) - 48) as nat);
    }
}

fn digit_str(d: u64) -> (r: &'static str)
    requires
        d < 10,
    ensures
        r@ == seq![digit_char(d as nat)],
{
    proof {
        reveal_strlit("0");
        reveal_strlit("1");
        reveal_strlit("2");
        reveal_strlit("3");
        reveal_strlit("4");
        reveal_strlit("5");
        reveal_strlit("6");
        reveal_strlit("7");
        reveal_strlit("8");
        reveal_strlit("9");
    }
    let r = if d == 0 {
        "0"
    } else if d == 1 {
        "1"
    } else if d == 2 {
        "2"
    } else if d == 3 {
        "3"
    } else if d == 4 {
        "4"
    } else if d == 5 {
        "5"
    } else if d == 6 {
        "6"
    } else if d == 7 {
        "7"
    } else if d == 8 {
        "8"
    } else {
        "9"
    };
    assert(r@ =~= seq![digit_char(d as nat)]);
    r
}

/// Writes a number in decimal.
pub fn decimal_string(x: u64) -> (r: String)
    ensures
        r@ == decimal_text(x as nat),
    decreases x,
{
    if x < 10 {
        String::from_str(digit_str(x))
    } else {
        let mut r = decimal_string(x / 10);
        r.append(digit_str(x % 10));
        r
    }
}

pub open spec fn is_lower_letter(c: char) -> bool {
    97 <= (c as u32) <= 122
}

/// A host name made of labels of lowercase ASCII letters joined by single dots.
pub open spec fn is_plain_host(h: Seq<char>) -> bool {
    &&& h.len() > 0
    &&& is_lower_letter(h[0])
    &&& is_lower_letter(h[h.len() - 1])
    &&& forall|i: int| 0 <= i < h.len() ==> is_lower_letter(#[trigger] h[i]) || h[i] == '.'
    &&& forall|i: int| 0 <= i < h.len() - 1 ==> !(#[trigger] h[i] == '.' && h[i + 1] == '.')
}

/// A path of lowercase ASCII letters, `/` and `_`, starting with `/`.
pub open spec fn is_plain_path(p: Seq<char>) -> bool {
    &&& p.len() > 0
    &&& p[0] == '/'
    &&& forall|i: int| 0 <= i < p.len() ==> is_lower_letter(#[trigger] p[i]) || p[i] == '/' || p[i] == '_'
}

/// An `https` address with a plain host and an optional plain path.
pub open spec fn is_plain_https_url(s: Seq<char>) -> bool {
    exists|k: int|
        8 < k <= s.len() && s.subrange(0, 8) == "https://"@ && is_plain_host(#[trigger] s.subrange(8, k))
            && (k == s.len() || is_plain_path(s.subrange(k, s.len() as int)))
}

/// Whether `url::Url::parse` accepts the text.
pub uninterp spec fn url_parses(url: Seq<char>) -> bool;

/// The `Authorization` header value that `oauthcli::authorization_header`
/// computes for an HMAC-SHA1 signed request without token and without
/// request parameters.
pub uninterp spec fn oauth_authorization(
    method: Seq<char>,
    url: Seq<char>,
    consumer_key: Seq<char>,
    consumer_secret: Seq<char>,
    timestamp: Seq<char>,
    nonce: Seq<char>,
    callback: Seq<char>,
) -> Seq<char>;

/// Signs a request with `oauthcli::authorization_header` (HMAC-SHA1, no
/// realm, no token, no verifier, no request parameters), after parsing the
/// address with `url::Url::parse`.
///
/// Trusted: the result is `None` exactly when `Url::parse` refuses the
/// address, which it does not for an `https` address with a host of
/// lowercase letters and dots and a path of lowercase letters, `/` and `_`;
/// otherwise it is the header that the named function gives for these
/// arguments (the signature depends on nothing else once the
/// timestamp and the nonce are given). The `requires` leaves out the inputs
/// on which `authorization_header` panics: a timestamp that is not a `u64`,
/// and an address whose scheme is not `http` or `https`.
#[verifier::external_body]
#[allow(deprecated)]
fn authorization_header(
    method: &str,
    url: &str,
    consumer_key: &str,
    consumer_secret: &str,
    timestamp: &str,
    nonce: &str,
    callback: &str,
) -> (r: Option<String>)
    requires
        is_http_url(url@),
        is_u64_decimal(timestamp@),
    ensures
        r is Some <==> url_parses(url@),
        is_plain_https_url(url@) ==> r is Some,
        r matches Some(h) ==> h@ == oauth_authorization(
            method@,
            url@,
            consumer_key@,
            consumer_secret@,
            timestamp@,
            nonce@,
            callback@,
        ),
{
    match url::Url::parse(url) {
        Ok(u) => Some(oauthcli::authorization_header(method, u, None, consumer_key, consumer_secret,
            None, None, oauthcli::SignatureMethod::HmacSha1, timestamp, nonce, Some(callback), None,
            Vec::<(String, String)>::new().into_iter())),
        Err(_) => None,
    }
}

/// A fresh `oauth_nonce`, from `oauthcli::nonce`.
///
/// Trusted: the result is 42 ASCII letters and digits (the source takes 42
/// characters of `rand`'s alphanumeric generator). Which ones is left to
/// chance.
#[verifier::external_body]
fn oauth_nonce() -> (r: String)
    ensures
        r@.len() == 42,
        forall|i: int| 0 <= i < r@.len() ==> is_ascii_alphanumeric(#[trigger] r@[i]),
{
    oauthcli::nonce()
}

/// The application's Twitter consumer key and secret.
pub struct Credentials {
    pub consumer_key: String,
    pub consumer_secret: String,
}

/// A signed request for a request token.
pub struct TokenRequest {
    /// Where to `POST` the request.
    pub url: String,
    /// The value of its `Authorization` header.
    pub authorization: String,
}

/// The request for a request token signed at the given time (seconds
/// since the Unix epoch) with the given nonce.
pub fn token_request(credentials: &Credentials, timestamp: u64, nonce: &str) -> (r: TokenRequest)
    ensures
        r.url@ == request_token_url(),
        r.authorization@ == oauth_authorization(
            "POST"@,
            request_token_url(),
            credentials.consumer_key@,
            credentials.consumer_secret@,
            decimal_text(timestamp as nat),
            nonce@,
            sign_in_callback_url(),
        ),
{
    let url = "https://twitter.com/oauth/request_token";
    proof {
        reveal_strlit("https://twitter.com/oauth/request_token");
        reveal_strlit("https://");
        assert(url@.subrange(0, 8) =~= "https://"@);
        let host = url@.subrange(8, 19);
        let path = url@.subrange(19, url@.len() as int);
        assert(is_plain_host(host));
        assert(is_plain_path(path));
        assert(is_plain_https_url(url@));
        lemma_decimal_text(timestamp as nat);
    }
    let time = decimal_string(timestamp);
    let authorization = authorization_header(
        "POST",
        url,
        credentials.consumer_key.as_str(),
        credentials.consumer_secret.as_str(),
        time.as_str(),
        nonce,
        "http://127.0.0.1:3000/persist_access/",
    ).unwrap();
    TokenRequest { url: String::from_str(url), authorization }
}

/// Whether one of the request's cookies marks a signed-in visitor.
pub open spec fn has_session_cookie(names: Seq<Seq<char>>) -> bool {
    exists|i: int| 0 <= i < names.len() && names[i] == session_cookie_name()
}

pub open spec fn names_view(names: Seq<String>) -> Seq<Seq<char>> {
    names.map_values(|n: String| n@)
}

/// Whether one of the named cookies marks a signed-in visitor.
pub fn has_session(cookie_names: &Vec<String>) -> (r: bool)
    ensures
        r == has_session_cookie(names_view(cookie_names@)),
{
    let ghost nv = names_view(cookie_names@);
    let mut i: usize = 0;
    while i < cookie_names.len()
        invariant
            nv == names_view(cookie_names@),
            i <= cookie_names@.len(),
            forall|j: int| 0 <= j < i ==> nv[j] != session_cookie_name(),
        decreases cookie_names.len() - i,
    {
        if str_equal(cookie_names[i].as_str(), "userid") {
            assert(nv[i as int] == session_cookie_name());
            return true;
        }
        i = i + 1;
    }
    false
}

/// Where the sign-in flow stands.
pub enum SignInState {
    /// Nothing has happened yet.
    Start,
    /// The request for a request token is being sent.
    AwaitingTokenReply,
    /// Twitter's reply is being read.
    ReadingTokenReply,
    /// The request token is being stored.
    SavingToken { token: String },
    /// The visitor has been answered.
    Done,
}

/// The outcome of the last piece of outside work.
pub enum SignInEvent {
    /// The visitor asked to sign in, sending cookies with these names, at
    /// this time (seconds since the Unix epoch).
    Requested { cookie_names: Vec<String>, timestamp: u64 },
    /// The request for a request token was sent, or the message of the error
    /// that stopped it.
    TokenRequestSent(Result<(), String>),
    /// The body of Twitter's reply, or the message of the error met reading it.
    TokenReplyRead(Result<String, String>),
    /// The request token was stored, or the message of the error that stopped it.
    TokenSaved(Result<(), String>),
}

/// What to do next.
pub enum SignInAction {
    /// Answer with a `302 Found` to this address, with an empty body.
    Redirect { location: String },
    /// Answer with this text.
    Reply { body: String },
    /// `POST` to Twitter with this `Authorization` header.
    SendTokenRequest { url: String, authorization: String },
    /// Read the body of Twitter's reply.
    ReadTokenReply,
    /// Store the request token and its secret.
    SaveToken { token: String, secret: String },
    /// The event does not belong to the flow's state: nothing to do.
    Ignore,
}

/// One step of the sign-in flow: `next` and `action` are what the flow
/// does on `event` in `state`.
pub open spec fn sign_in_transition(
    state: SignInState,
    event: SignInEvent,
    credentials: Credentials,
    next: SignInState,
    action: SignInAction,
) -> bool {
    match (state, event) {
        (SignInState::Start, SignInEvent::Requested { cookie_names, timestamp }) => {
            if has_session_cookie(names_view(cookie_names@)) {
                &&& next is Done
                &&& action matches SignInAction::Redirect { location } && location@ == league_page_url()
            } else {
                &&& next is AwaitingTokenReply
                &&& action matches SignInAction::SendTokenRequest { url, authorization }
                &&& url@ == request_token_url()
                &&& exists|nonce: Seq<char>|
                    #![trigger oauth_authorization("POST"@, request_token_url(), credentials.consumer_key@, credentials.consumer_secret@, decimal_text(timestamp as nat), nonce, sign_in_callback_url())]
                    nonce.len() == 42 && (forall|i: int|
                        0 <= i < 42 ==> is_ascii_alphanumeric(#[trigger] nonce[i]))
                        && authorization@ == oauth_authorization(
                        "POST"@,
                        request_token_url(),
                        credentials.consumer_key@,
                        credentials.consumer_secret@,
                        decimal_text(timestamp as nat),
                        nonce,
                        sign_in_callback_url(),
                    )
            }
        },
        (SignInState::AwaitingTokenReply, SignInEvent::TokenRequestSent(Ok(()))) => {
            &&& next is ReadingTokenReply
            &&& action is ReadTokenReply
        },
        (SignInState::AwaitingTokenReply, SignInEvent::TokenRequestSent(Err(message))) => {
            &&& next is Done
            &&& action matches SignInAction::Reply { body }
            &&& body@ == "Error sending initial oauth request: "@ + message@
        },
        (SignInState::ReadingTokenReply, SignInEvent::TokenReplyRead(Ok(reply))) => {
            match (reply_token(reply@), reply_secret(reply@)) {
                (Some(t), Some(s)) => {
                    &&& next matches SignInState::SavingToken { token } && token@ == t
                    &&& action matches SignInAction::SaveToken { token, secret }
                    &&& token@ == t
                    &&& secret@ == s
                },
                (None, _) => {
                    &&& next is Done
                    &&& action matches SignInAction::Reply { body }
                    &&& body@ == token_reply_error_message(TokenReplyError::MissingToken)
                },
                (Some(_), None) => {
                    &&& next is Done
                    &&& action matches SignInAction::Reply { body }
                    &&& body@ == token_reply_error_message(TokenReplyError::MissingSecret)
                },
            }
        },
        (SignInState::ReadingTokenReply, SignInEvent::TokenReplyRead(Err(message))) => {
            &&& next is Done
            &&& action matches SignInAction::Reply { body }
            &&& body@ == "Error reading response to initial oauth request: "@ + message@
        },
        (SignInState::SavingToken { token }, SignInEvent::TokenSaved(Ok(()))) => {
            &&& next is Done
            &&& action matches SignInAction::Redirect { location }
            &&& location@ == authenticate_url(token@)
        },
        (SignInState::SavingToken { .. }, SignInEvent::TokenSaved(Err(message))) => {
            &&& next is Done
            &&& action matches SignInAction::Reply { body }
            &&& body@ == "Error saving response in database: "@ + message@
        },
        _ => {
            &&& next == state
            &&& action is Ignore
        },
    }
}

fn reply_with(prefix: &str, message: &str) -> (r: SignInAction)
    ensures
        r matches SignInAction::Reply { body } && body@ == prefix@ + message@,
{
    let mut body = String::from_str(prefix);
    body.append(message);
    SignInAction::Reply { body }
}

/// Decides what the sign-in flow does next.
pub fn sign_in_step(state: SignInState, event: SignInEvent, credentials: &Credentials) -> (r: (
    SignInState,
    SignInAction,
))
    ensures
        sign_in_transition(state, event, *credentials, r.0, r.1),
{
    match (state, event) {
        (SignInState::Start, SignInEvent::Requested { cookie_names, timestamp }) => {
            if has_session(&cookie_names) {
                (
                    SignInState::Done,
                    SignInAction::Redirect {
                        location: String::from_str("http://localhost:3000/league/"),
                    },
                )
            } else {
                let nonce = oauth_nonce();
                let request = token_request(credentials, timestamp, nonce.as_str());
                (
                    SignInState::AwaitingTokenReply,
                    SignInAction::SendTokenRequest {
                        url: request.url,
                        authorization: request.authorization,
                    },
                )
            }
        },
        (SignInState::AwaitingTokenReply, SignInEvent::TokenRequestSent(sent)) => match sent {
            Ok(()) => (SignInState::ReadingTokenReply, SignInAction::ReadTokenReply),
            Err(message) => (
                SignInState::Done,
                reply_with("Error sending initial oauth request: ", message.as_str()),
            ),
        },
        (SignInState::ReadingTokenReply, SignInEvent::TokenReplyRead(read)) => match read {
            Ok(reply) => match parse_token_reply(reply.as_str()) {
                Ok((token, secret)) => {
                    let saved = token.clone();
                    (SignInState::SavingToken { token: saved }, SignInAction::SaveToken { token, secret })
                },
                Err(e) => (SignInState::Done, SignInAction::Reply { body: String::from_str(e.message()) }),
            },
            Err(message) => (
                SignInState::Done,
                reply_with("Error reading response to initial oauth request: ", message.as_str()),
            ),
        },
        (SignInState::SavingToken { token }, SignInEvent::TokenSaved(saved)) => match saved {
            Ok(()) => {
                let mut location = String::from_str("https://twitter.com/oauth/authenticate?oauth_token=");
                location.append(token.as_str());
                (SignInState::Done, SignInAction::Redirect { location })
            },
            Err(message) => (
                SignInState::Done,
                reply_with("Error saving response in database: ", message.as_str()),
            ),
        },
        (state, _) => (state, SignInAction::Ignore),
    }
}

/// How far the flow has come.
pub open spec fn stage(state: SignInState) -> nat {
    match state {
        SignInState::Start => 0,
        SignInState::AwaitingTokenReply => 1,
        SignInState::ReadingTokenReply => 2,
        SignInState::SavingToken { .. } => 3,
        SignInState::Done => 4,
    }
}

/// The flow only moves forward: every step that does something leaves it
/// at a later stage, so it answers the visitor after at most four steps.
pub proof fn lemma_sign_in_moves_forward(
    state: SignInState,
    event: SignInEvent,
    credentials: Credentials,
    next: SignInState,
    action: SignInAction,
)
    requires
        sign_in_transition(state, event, credentials, next, action),
        !(action is Ignore),
    ensures
        stage(next) > stage(state),
{
}

/// When Twitter grants a request token, the flow stores exactly that token
/// with its secret and, once it is stored, sends the visitor to Twitter's
/// sign-in page for that token.
pub proof fn lemma_granted_token_reaches_sign_in_page(
    token: Seq<char>,
    secret: Seq<char>,
    reply: String,
    credentials: Credentials,
    saving: SignInState,
    save: SignInAction,
    done: SignInState,
    redirect: SignInAction,
)
    requires
        !token.contains('&'),
        !token.contains('='),
        !secret.contains('&'),
        !secret.contains('='),
        reply@ == granted_token_reply(token, secret),
        sign_in_transition(
            SignInState::ReadingTokenReply,
            SignInEvent::TokenReplyRead(Ok(reply)),
            credentials,
            saving,
            save,
        ),
        sign_in_transition(saving, SignInEvent::TokenSaved(Ok(())), credentials, done, redirect),
    ensures
        save matches SignInAction::SaveToken { token: t, secret: s } && t@ == token && s@ == secret,
        redirect matches SignInAction::Redirect { location } && location@ == authenticate_url(token),
        done is Done,
{
    lemma_granted_reply_parses(token, secret);
}

/// The page Twitter sends the visitor back to; it does nothing yet.
pub fn persist_access() {
}


/// No cookie, no session.
pub proof fn lemma_no_cookies_no_session()
    ensures
        !has_session_cookie(Seq::empty()),
{
}

/// A single cookie marks a session exactly when it is named `userid`.
pub proof fn lemma_single_cookie_session(name: Seq<char>)
    ensures
        has_session_cookie(seq![name]) <==> name == seq!['u', 's', 'e', 'r', 'i', 'd'],
{
    reveal_strlit("userid");
    assert("userid"@ =~= seq!['u', 's', 'e', 'r', 'i', 'd']);
    if name == session_cookie_name() {
        assert(seq![name][0] == name);
    }
}

/// The cookies of a request mark a session when any of them does, wherever
/// it stands: the cookies can be split anywhere and looked at part by part.
pub proof fn lemma_session_of_parts(a: Seq<Seq<char>>, b: Seq<Seq<char>>)
    ensures
        has_session_cookie(a + b) <==> has_session_cookie(a) || has_session_cookie(b),
{
    let ab = a + b;
    if has_session_cookie(ab) {
        let i = choose|i: int| 0 <= i < ab.len() && ab[i] == session_cookie_name();
        if i < a.len() {
            assert(a[i] == ab[i]);
        } else {
            assert(b[i - a.len()] == ab[i]);
        }
    }
    if has_session_cookie(a) {
        let i = choose|i: int| 0 <= i < a.len() && a[i] == session_cookie_name();
        assert(ab[i] == a[i]);
    }
    if has_session_cookie(b) {
        let i = choose|i: int| 0 <= i < b.len() && b[i] == session_cookie_name();
        assert(ab[a.len() + i] == b[i]);
    }
}

/// The places of a visitor's destinations: the league page for a visitor
/// already signed in, Twitter's sign-in page for a token, and the address
/// that hands out request tokens.
pub proof fn lemma_destinations(token: Seq<char>)
    ensures
        league_page_url() == "http://localhost:3000/league/"@,
        authenticate_url(token) == "https://twitter.com/oauth/authenticate?oauth_token="@ + token,
        request_token_url() == "https://twitter.com/oauth/request_token"@,
        sign_in_callback_url() == "http://127.0.0.1:3000/persist_access/"@,
{
}

} // verus!
