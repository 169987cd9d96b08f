//! Reading the reply Twitter sends to a request for an OAuth request token.
//!
//! The reply is a form body, `key=value` fields joined by `&`. A field
//! without `=` is skipped, a field with several `=` keeps the text between
//! the first two as its value, and when a key occurs twice the later value
//! wins.
//!
//! The pairs are kept in a list in the order they come, and a key is looked
//! up from the end, which gives what inserting them one by one into a map
//! gives. A list is used because, for a `HashMap` keyed by `String`, not
//! even the size after one insertion can be proved here, let alone what a
//! lookup returns.

use vstd::prelude::*;

use crate::text::{lemma_split_concat, lemma_split_without_separator, split, split_on, str_equal};

verus! {

/// The key and value of one field, or `None` for a field without `=`.
pub open spec fn field_pair(field: Seq<char>) -> Option<(Seq<char>, Seq<char>)> {
    let parts = split_on(field, '=');
    if parts.len() >= 2 {
        Some((parts[0], parts[1]))
    } else {
        None
    }
}

/// The key/value pairs of the fields, in order, skipping fields without `=`.
pub open spec fn fields_pairs(fields: Seq<Seq<char>>) -> Seq<(Seq<char>, Seq<char>)>
    decreases fields.len(),
{
    if fields.len() == 0 {
        Seq::empty()
    } else {
        let rest = fields_pairs(fields.drop_last());
        match field_pair(fields.last()) {
            Some(pair) => rest.push(pair),
            None => rest,
        }
    }
}

/// The key/value pairs of a form body.
pub open spec fn reply_pairs(body: Seq<char>) -> Seq<(Seq<char>, Seq<char>)> {
    fields_pairs(split_on(body, '&'))
}

/// The value of the last pair with the given key.
pub open spec fn last_value(pairs: Seq<(Seq<char>, Seq<char>)>, key: Seq<char>) -> Option<Seq<char>>
    decreases pairs.len(),
{
    if pairs.len() == 0 {
        None
    } else if pairs.last().0 == key {
        Some(pairs.last().1)
    } else {
        last_value(pairs.drop_last(), key)
    }
}

/// The value a form body gives to a key.
pub open spec fn reply_value(body: Seq<char>, key: Seq<char>) -> Option<Seq<char>> {
    last_value(reply_pairs(body), key)
}

/// The request token a reply carries.
pub open spec fn reply_token(body: Seq<char>) -> Option<Seq<char>> {
    reply_value(body, "oauth_token"@)
}

/// The request token secret a reply carries.
pub open spec fn reply_secret(body: Seq<char>) -> Option<Seq<char>> {
    reply_value(body, "oauth_token_secret"@)
}

pub open spec fn pairs_view(pairs: Seq<(String, String)>) -> Seq<(Seq<char>, Seq<char>)> {
    pairs.map_values(|p: (String, String)| (p.0@, p.1@))
}

/// What is missing from a reply that carries no usable request token.
#[derive(PartialEq, Eq, Structural, Clone, Copy, Debug)]
pub enum TokenReplyError {
    /// The reply has no `oauth_token` field.
    MissingToken,
    /// The reply has an `oauth_token` field but no `oauth_token_secret` field.
    MissingSecret,
}

pub open spec fn token_reply_error_message(e: TokenReplyError) -> Seq<char> {
    match e {
        TokenReplyError::MissingToken => "No `oauth_token` in response from Twitter"@,
        TokenReplyError::MissingSecret => "No `oauth_token_secret` in response from Twitter"@,
    }
}

impl TokenReplyError {
    /// The text the sign-in page answers with for this error.
    pub fn message(&self) -> (r: &'static str)
        ensures
            r@ == token_reply_error_message(*self),
    {
        match self {
            TokenReplyError::MissingToken => "No `oauth_token` in response from Twitter",
            TokenReplyError::MissingSecret => "No `oauth_token_secret` in response from Twitter",
        }
    }
}

/// The key/value pairs of a form body, in order.
pub fn form_pairs(body: &str) -> (r: Vec<(String, String)>)
    ensures
        pairs_view(r@) == reply_pairs(body@),
{
    let fields = split(body, '&');
    let ghost fv = fields@.map_values(|p: String| p@);
    let mut pairs: Vec<(String, String)> = Vec::new();
    let mut i: usize = 0;
    assert(fv.take(0) =~= Seq::<Seq<char>>::empty());
    while i < fields.len()
        invariant
            fv == fields@.map_values(|p: String| p@),
            i <= fields@.len(),
            pairs_view(pairs@) == fields_pairs(fv.take(i as int)),
        decreases fields.len() - i,
    {
        assert(fv.take(i + 1).drop_last() =~= fv.take(i as int));
        assert(fv.take(i + 1).last() == fields@[i as int]@);
        let parts = split(fields[i].as_str(), '=');
        let ghost partsv = parts@.map_values(|p: String| p@);
        if parts.len() >= 2 {
            assert(partsv[0] == parts@[0]@ && partsv[1] == parts@[1]@);
            let key = parts[0].clone();
            let value = parts[1].clone();
            let ghost before = pairs@;
            pairs.push((key, value));
            assert(pairs_view(pairs@) =~= pairs_view(before).push((partsv[0], partsv[1])));
        }
        i = i + 1;
    }
    assert(fv.take(fields@.len() as int) =~= fv);
    pairs
}

/// The value of the last pair with the given key.
pub fn find_last_value(pairs: &Vec<(String, String)>, key: &str) -> (r: Option<String>)
    ensures
        match r {
            Some(v) => last_value(pairs_view(pairs@), key@) == Some(v@),
            None => last_value(pairs_view(pairs@), key@) is None,
        },
{
    let ghost pv = pairs_view(pairs@);
    let mut i: usize = pairs.len();
    assert(pv.take(pv.len() as int) =~= pv);
    while i > 0
        invariant
            pv == pairs_view(pairs@),
            i <= pairs@.len(),
            last_value(pv, key@) == last_value(pv.take(i as int), key@),
        decreases i,
    {
        let ghost prefix = pv.take(i as int);
        assert(prefix.last() == (pairs@[i - 1].0@, pairs@[i - 1].1@));
        assert(prefix.drop_last() =~= pv.take(i - 1));
        if str_equal(pairs[i - 1].0.as_str(), key) {
            return Some(pairs[i - 1].1.clone());
        }
        i = i - 1;
    }
    None
}

/// Reads the request token and its secret out of Twitter's reply.
pub fn parse_token_reply(body: &str) -> (r: Result<(String, String), TokenReplyError>)
    ensures
        match r {
            Ok((token, secret)) => reply_token(body@) == Some(token@) && reply_secret(body@) == Some(
                secret@,
            ),
            Err(TokenReplyError::MissingToken) => reply_token(body@) is None,
            Err(TokenReplyError::MissingSecret) => reply_token(body@) is Some && reply_secret(
                body@,
            ) is None,
        },
{
    let pairs = form_pairs(body);
    let token = match find_last_value(&pairs, "oauth_token") {
        Some(t) => t,
        None => return Err(TokenReplyError::MissingToken),
    };
    let secret = match find_last_value(&pairs, "oauth_token_secret") {
        Some(s) => s,
        None => return Err(TokenReplyError::MissingSecret),
    };
    Ok((token, secret))
}

/// The reply Twitter sends when it grants a request token.
pub open spec fn granted_token_reply(token: Seq<char>, secret: Seq<char>) -> Seq<char> {
    "oauth_token"@ + seq!['='] + token + seq!['&'] + "oauth_token_secret"@ + seq!['='] + secret
        + seq!['&'] + "oauth_callback_confirmed"@ + seq!['='] + "true"@
}

proof fn lemma_plain_field(key: Seq<char>, value: Seq<char>)
    requires
        !key.contains('&'),
        !key.contains('='),
        !value.contains('&'),
        !value.contains('='),
    ensures
        split_on(key + seq!['='] + value, '&') == seq![key + seq!['='] + value],
        field_pair(key + seq!['='] + value) == Some((key, value)),
{
    let f = key + seq!['='] + value;
    assert(!f.contains('&')) by {
        if f.contains('&') {
            let k = choose|k: int| 0 <= k < f.len() && f[k] == '&';
            if k < key.len() {
                assert(key[k] == '&');
            } else if k > key.len() {
                assert(value[k - key.len() - 1] == '&');
            }
        }
    }
    lemma_split_without_separator(f, '&');
    lemma_split_concat(key, '=', value);
    lemma_split_without_separator(key, '=');
    lemma_split_without_separator(value, '=');
    assert(split_on(f, '=') =~= seq![key, value]);
}

/// Reading the reply of a granted request gives back the token and the
/// secret that Twitter sent, whenever they hold no `&` and no `=`.
pub proof fn lemma_granted_reply_parses(token: Seq<char>, secret: Seq<char>)
    requires
        !token.contains('&'),
        !token.contains('='),
        !secret.contains('&'),
        !secret.contains('='),
    ensures
        reply_token(granted_token_reply(token, secret)) == Some(token),
        reply_secret(granted_token_reply(token, secret)) == Some(secret),
{
    reveal_strlit("oauth_token");
    reveal_strlit("oauth_token_secret");
    reveal_strlit("oauth_callback_confirmed");
    reveal_strlit("true");
    let k1 = "oauth_token"@;
    let k2 = "oauth_token_secret"@;
    let k3 = "oauth_callback_confirmed"@;
    let v3 = "true"@;
    assert(!k1.contains('&') && !k1.contains('='));
    assert(!k2.contains('&') && !k2.contains('='));
    assert(!k3.contains('&') && !k3.contains('='));
    assert(!v3.contains('&') && !v3.contains('='));
    assert(k1.len() == 11 && k2.len() == 18 && k3.len() == 24);
    let f1 = k1 + seq!['='] + token;
    let f2 = k2 + seq!['='] + secret;
    let f3 = k3 + seq!['='] + v3;
    lemma_plain_field(k1, token);
    lemma_plain_field(k2, secret);
    lemma_plain_field(k3, v3);
    let body = granted_token_reply(token, secret);
    assert(body =~= (f1 + seq!['&'] + f2) + seq!['&'] + f3);
    lemma_split_concat(f1 + seq!['&'] + f2, '&', f3);
    lemma_split_concat(f1, '&', f2);
    let fields = split_on(body, '&');
    assert(fields =~= seq![f1, f2, f3]);
    let e = Seq::<Seq<char>>::empty();
    assert(seq![f1].drop_last() =~= e);
    assert(seq![f1, f2].drop_last() =~= seq![f1]);
    assert(seq![f1, f2, f3].drop_last() =~= seq![f1, f2]);
    assert(fields_pairs(e) =~= Seq::<(Seq<char>, Seq<char>)>::empty());
    assert(fields_pairs(seq![f1]) =~= seq![(k1, token)]);
    assert(fields_pairs(seq![f1, f2]) =~= seq![(k1, token), (k2, secret)]);
    assert(fields_pairs(seq![f1, f2, f3]) =~= seq![(k1, token), (k2, secret), (k3, v3)]);
    let pairs = reply_pairs(body);
    let p2 = seq![(k1, token), (k2, secret)];
    let p1 = seq![(k1, token)];
    assert(pairs.drop_last() =~= p2);
    assert(p2.drop_last() =~= p1);
    assert(last_value(p1, k1) == Some(token));
    assert(last_value(p2, k1) == Some(token));
    assert(last_value(pairs, k1) == Some(token));
    assert(last_value(p2, k2) == Some(secret));
    assert(last_value(pairs, k2) == Some(secret));
}


/// A pair added at the end gives its key's value.
pub proof fn lemma_last_pair_wins(pairs: Seq<(Seq<char>, Seq<char>)>, key: Seq<char>, value: Seq<char>)
    ensures
        last_value(pairs.push((key, value)), key) == Some(value),
{
}

/// A pair with another key leaves a key's value as it was.
pub proof fn lemma_other_key_ignored(
    pairs: Seq<(Seq<char>, Seq<char>)>,
    key: Seq<char>,
    other: Seq<char>,
    value: Seq<char>,
)
    requires
        other != key,
    ensures
        last_value(pairs.push((other, value)), key) == last_value(pairs, key),
{
    assert(pairs.push((other, value)).drop_last() =~= pairs);
}

/// A key that no pair has gets no value; one that some pair has gets the
/// value of one of its pairs.
pub proof fn lemma_value_comes_from_a_pair(pairs: Seq<(Seq<char>, Seq<char>)>, key: Seq<char>)
    ensures
        last_value(pairs, key) is None <==> forall|i: int| 0 <= i < pairs.len() ==> #[trigger] pairs[i].0 != key,
        last_value(pairs, key) matches Some(v) ==> exists|i: int| 0 <= i < pairs.len() && #[trigger] pairs[i] == (key, v),
    decreases pairs.len(),
{
    if pairs.len() > 0 {
        let rest = pairs.drop_last();
        lemma_value_comes_from_a_pair(rest, key);
        assert(forall|i: int| 0 <= i < rest.len() ==> rest[i] == pairs[i]);
        if pairs.last().0 == key {
            assert(pairs[pairs.len() - 1] == (key, pairs.last().1));
        } else {
            match last_value(rest, key) {
                Some(v) => {
                    let i = choose|i: int| 0 <= i < rest.len() && #[trigger] rest[i] == (key, v);
                    assert(pairs[i] == (key, v));
                },
                None => {},
            }
            if forall|i: int| 0 <= i < rest.len() ==> #[trigger] rest[i].0 != key {
                assert forall|i: int| 0 <= i < pairs.len() implies #[trigger] pairs[i].0 != key by {
                    if i < rest.len() {
                        assert(rest[i] == pairs[i]);
                    }
                }
            } else {
                let j = choose|j: int| 0 <= j < rest.len() && !(#[trigger] rest[j].0 != key);
                assert(pairs[j] == rest[j]);
            }
        }
    }
}

/// The token and secret are the values of the fields named `oauth_token`
/// and `oauth_token_secret`.
pub proof fn lemma_reply_keys(body: Seq<char>)
    ensures
        reply_token(body) == last_value(reply_pairs(body), seq!['o', 'a', 'u', 't', 'h', '_', 't', 'o', 'k', 'e', 'n']),
        reply_secret(body) == last_value(
            reply_pairs(body),
            seq!['o', 'a', 'u', 't', 'h', '_', 't', 'o', 'k', 'e', 'n', '_', 's', 'e', 'c', 'r', 'e', 't'],
        ),
{
    reveal_strlit("oauth_token");
    reveal_strlit("oauth_token_secret");
    assert("oauth_token"@ =~= seq!['o', 'a', 'u', 't', 'h', '_', 't', 'o', 'k', 'e', 'n']);
    assert("oauth_token_secret"@ =~= seq!['o', 'a', 'u', 't', 'h', '_', 't', 'o', 'k', 'e', 'n', '_', 's', 'e', 'c', 'r', 'e', 't']);
}

} // verus!
