use rustball::text::{split, str_equal};
use rustball::token_reply::{find_last_value, form_pairs, parse_token_reply, TokenReplyError};

fn pairs(v: &[(&str, &str)]) -> Vec<(String, String)> {
    v.iter().map(|(a, b)| (a.to_string(), b.to_string())).collect()
}

#[test]
fn split_keeps_empty_pieces() {
    assert_eq!(split("a&&b", '&'), vec!["a", "", "b"]);
    assert_eq!(split("", '&'), vec![""]);
    assert_eq!(split("&", '&'), vec!["", ""]);
    assert_eq!(split("abc", '&'), vec!["abc"]);
    assert_eq!(split("ä&ö", '&'), vec!["ä", "ö"]);
}

#[test]
fn string_equality() {
    assert!(str_equal("userid", "userid"));
    assert!(!str_equal("userid", "userId"));
    assert!(!str_equal("user", "userid"));
    assert!(str_equal("", ""));
}

#[test]
fn granted_reply_parses() {
    let body = "oauth_token=NPcudxy0yU5T3tBzho7iCotZ3cnetKwcTIRlX0iwRl0&oauth_token_secret=veNRnAWe6inFuo8o2u8SLLZLjolYDmDP7SzL0YfYI&oauth_callback_confirmed=true";
    assert_eq!(
        parse_token_reply(body),
        Ok((
            "NPcudxy0yU5T3tBzho7iCotZ3cnetKwcTIRlX0iwRl0".to_string(),
            "veNRnAWe6inFuo8o2u8SLLZLjolYDmDP7SzL0YfYI".to_string()
        ))
    );
}

#[test]
fn reply_without_token() {
    assert_eq!(parse_token_reply("oauth_token_secret=s"), Err(TokenReplyError::MissingToken));
    assert_eq!(parse_token_reply(""), Err(TokenReplyError::MissingToken));
    assert_eq!(parse_token_reply("oauth_token"), Err(TokenReplyError::MissingToken));
}

#[test]
fn reply_without_secret() {
    assert_eq!(parse_token_reply("oauth_token=t&x=y"), Err(TokenReplyError::MissingSecret));
    assert_eq!(parse_token_reply("oauth_token=t&oauth_token_secret"), Err(TokenReplyError::MissingSecret));
}

#[test]
fn later_field_wins_and_extra_equals_ignored() {
    assert_eq!(
        parse_token_reply("oauth_token=a&oauth_token_secret=b=c&oauth_token=d"),
        Ok(("d".to_string(), "b".to_string()))
    );
    assert_eq!(parse_token_reply("oauth_token=&oauth_token_secret="), Ok((String::new(), String::new())));
}

#[test]
fn error_messages() {
    assert_eq!(TokenReplyError::MissingToken.message(), "No `oauth_token` in response from Twitter");
    assert_eq!(TokenReplyError::MissingSecret.message(), "No `oauth_token_secret` in response from Twitter");
}

#[test]
fn form_pairs_skip_fields_without_equals() {
    assert_eq!(form_pairs("a=1&b&c=3=4&=5"), pairs(&[("a", "1"), ("c", "3"), ("", "5")]));
    assert_eq!(form_pairs(""), pairs(&[]));
}

#[test]
fn last_value_lookup() {
    let p = pairs(&[("tag", "one"), ("x", "y"), ("tag", "two")]);
    assert_eq!(find_last_value(&p, "tag"), Some("two".to_string()));
    assert_eq!(find_last_value(&p, "x"), Some("y".to_string()));
    assert_eq!(find_last_value(&p, "z"), None);
}
