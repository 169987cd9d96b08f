//! The JSON bodies that the REST API answers with.
//!
//! Documents arrive here already rendered as JSON text; this module decides
//! how they, and the errors met while fetching them, are framed into a reply.

use vstd::prelude::*;

verus! {

/// `{"error":"<message>"}`: the reply to every failed request.
pub open spec fn json_error(message: Seq<char>) -> Seq<char> {
    "{\"error\":\""@ + message + "\"}"@
}

/// The items separated by single commas.
pub open spec fn join_items(items: Seq<Seq<char>>) -> Seq<char>
    decreases items.len(),
{
    if items.len() == 0 {
        Seq::empty()
    } else if items.len() == 1 {
        items[0]
    } else {
        join_items(items.drop_last()) + seq![','] + items.last()
    }
}

/// `{"result":[<item>,<item>,...]}`.
pub open spec fn result_list_json(items: Seq<Seq<char>>) -> Seq<char> {
    "{\"result\":["@ + join_items(items) + "]}"@
}

/// A fetched document (its JSON text) or the message of the error met fetching it.
pub open spec fn document_view(d: Result<String, String>) -> Result<Seq<char>, Seq<char>> {
    match d {
        Ok(text) => Ok(text@),
        Err(message) => Err(message@),
    }
}

pub open spec fn documents_view(docs: Seq<Result<String, String>>) -> Seq<Result<Seq<char>, Seq<char>>> {
    docs.map_values(|d: Result<String, String>| document_view(d))
}

/// The message of the first document that could not be fetched, if any.
pub open spec fn first_failure(docs: Seq<Result<Seq<char>, Seq<char>>>) -> Option<Seq<char>>
    decreases docs.len(),
{
    if docs.len() == 0 {
        None
    } else {
        match docs[0] {
            Err(message) => Some(message),
            Ok(_) => first_failure(docs.drop_first()),
        }
    }
}

/// The texts of the documents (meaningful when none of them failed).
pub open spec fn document_texts(docs: Seq<Result<Seq<char>, Seq<char>>>) -> Seq<Seq<char>> {
    docs.map_values(
        |d: Result<Seq<char>, Seq<char>>|
            match d {
                Ok(text) => text,
                Err(message) => message,
            },
    )
}

/// The reply listing the documents of a query: the list of all of them, or
/// the error of the first one that could not be fetched.
pub open spec fn documents_json(docs: Seq<Result<Seq<char>, Seq<char>>>) -> Seq<char> {
    match first_failure(docs) {
        Some(message) => json_error(message),
        None => result_list_json(document_texts(docs)),
    }
}

/// What reading the cursor of a successful query produced.
pub struct CursorOutcome {
    /// Whether the cursor holds a first document, or the message of the error
    /// met asking it.
    pub has_next: Result<bool, String>,
    /// The documents the cursor then yielded, in order, each as JSON text or
    /// as the message of the error met reading it.
    pub documents: Vec<Result<String, String>>,
}

/// The reply to a query given what its cursor produced.
pub open spec fn cursor_json(outcome: CursorOutcome) -> Seq<char> {
    match outcome.has_next {
        Err(message) => json_error(message@),
        Ok(false) => json_error("Invalid team"@),
        Ok(true) => documents_json(documents_view(outcome.documents@)),
    }
}

/// The reply to a query that returns many documents, given the query's
/// outcome: the message of the error that stopped it, or what its cursor produced.
pub open spec fn query_json(result: Result<CursorOutcome, String>) -> Seq<char> {
    match result {
        Err(message) => json_error(message@),
        Ok(outcome) => cursor_json(outcome),
    }
}

/// `{"result":<document>}`: the reply carrying one document.
pub open spec fn single_result_json(doc: Seq<char>) -> Seq<char> {
    "{\"result\":"@ + doc + "}"@
}

/// The reply to a lookup of one player.
pub open spec fn player_json(found: Result<Option<String>, String>) -> Seq<char> {
    match found {
        Err(message) => json_error(message@),
        Ok(Some(doc)) => single_result_json(doc@),
        Ok(None) => "{}"@,
    }
}

/// The reply to an update of a player's tags.
pub open spec fn tag_update_json(result: Result<(), String>) -> Seq<char> {
    match result {
        Err(message) => json_error(message@),
        Ok(()) => "{\"result\":\"ok\"}"@,
    }
}

/// Renders `{"error":"<message>"}`.
pub fn json_error_string(message: &str) -> (r: String)
    ensures
        r@ == json_error(message@),
{
    let mut r = String::from_str("{\"error\":\"");
    r.append(message);
    r.append("\"}");
    r
}

/// A fetched document's JSON text is kept; the error met fetching it becomes
/// the reply `{"error":"<message>"}`.
pub fn json_string_from_doc_result(result: &Result<String, String>) -> (r: Result<String, String>)
    ensures
        match *result {
            Ok(text) => r matches Ok(t) && t@ == text@,
            Err(message) => r matches Err(reply) && reply@ == json_error(message@),
        },
{
    match result {
        Ok(text) => Ok(text.clone()),
        Err(message) => Err(json_error_string(message.as_str())),
    }
}

proof fn lemma_join_push(items: Seq<Seq<char>>, i: int)
    requires
        0 < i < items.len(),
    ensures
        join_items(items.take(i + 1)) == join_items(items.take(i)) + seq![','] + items[i],
{
    assert(items.take(i + 1).drop_last() =~= items.take(i));
}

/// Renders the documents a cursor yielded: `{"result":[...]}` with the
/// documents in order, or the error of the first one that failed.
pub fn documents_string(docs: &Vec<Result<String, String>>) -> (r: String)
    ensures
        r@ == documents_json(documents_view(docs@)),
{
    let ghost dv = documents_view(docs@);
    let ghost texts = document_texts(dv);
    let mut r = String::from_str("{\"result\":[");
    let n: usize = docs.len();
    assert(dv.skip(0) =~= dv);
    assert(texts.take(0) =~= Seq::<Seq<char>>::empty());
    let mut i: usize = 0;
    while i < n
        invariant
            n == docs@.len(),
            dv == documents_view(docs@),
            texts == document_texts(dv),
            i <= n,
            first_failure(dv) == first_failure(dv.skip(i as int)),
            r@ == "{\"result\":["@ + join_items(texts.take(i as int)),
        decreases n - i,
    {
        assert(dv[i as int] == document_view(docs@[i as int]));
        match json_string_from_doc_result(&docs[i]) {
            Ok(text) => {
                assert(dv.skip(i as int).drop_first() =~= dv.skip(i + 1));
                assert(texts[i as int] == text@);
                if i > 0 {
                    r.append(",");
                    proof {
                        reveal_strlit(",");
                        lemma_join_push(texts, i as int);
                    }
                } else {
                    assert(texts.take(0) =~= Seq::<Seq<char>>::empty());
                    assert(texts.take(1) =~= seq![texts[0]]);
                    assert(join_items(texts.take(1)) == texts[0]);
                }
                r.append(text.as_str());
                assert(r@ =~= "{\"result\":["@ + join_items(texts.take(i + 1)));
            },
            Err(reply) => {
                assert(dv.skip(i as int)[0] == dv[i as int]);
                return reply;
            },
        }
        i = i + 1;
    }
    assert(texts.take(n as int) =~= texts);
    r.append("]}");
    r
}

/// The reply to a query that returns many documents: the error that stopped
/// the query, `Invalid team` when the cursor holds no document, or the
/// documents rendered by [`documents_string`].
pub fn get_json_string(result: Result<CursorOutcome, String>) -> (r: String)
    ensures
        r@ == query_json(result),
{
    match result {
        Err(message) => json_error_string(message.as_str()),
        Ok(outcome) => match outcome.has_next {
            Err(message) => json_error_string(message.as_str()),
            Ok(false) => json_error_string("Invalid team"),
            Ok(true) => documents_string(&outcome.documents),
        },
    }
}

/// The reply to a lookup of one player: the player's document, `{}` when no
/// player has the id, or the error of the lookup.
pub fn player_result_string(found: Result<Option<String>, String>) -> (r: String)
    ensures
        r@ == player_json(found),
{
    match found {
        Err(message) => json_error_string(message.as_str()),
        Ok(Some(doc)) => {
            let mut r = String::from_str("{\"result\":");
            r.append(doc.as_str());
            r.append("}");
            r
        },
        Ok(None) => String::from_str("{}"),
    }
}

/// The reply to an update of a player's tags.
pub fn tag_update_string(result: Result<(), String>) -> (r: String)
    ensures
        r@ == tag_update_json(result),
{
    match result {
        Err(message) => json_error_string(message.as_str()),
        Ok(()) => String::from_str("{\"result\":\"ok\"}"),
    }
}

proof fn lemma_first_failure_of(
    before: Seq<Result<Seq<char>, Seq<char>>>,
    message: Seq<char>,
    after: Seq<Result<Seq<char>, Seq<char>>>,
)
    requires
        forall|j: int| 0 <= j < before.len() ==> before[j] is Ok,
    ensures
        first_failure(before + seq![Err(message)] + after) == Some(message),
    decreases before.len(),
{
    let all = before + seq![Err(message)] + after;
    if before.len() == 0 {
        assert(all[0] == Err::<Seq<char>, Seq<char>>(message));
    } else {
        let rest = before.drop_first();
        lemma_first_failure_of(rest, message, after);
        assert(all.drop_first() =~= rest + seq![Err(message)] + after);
        assert(all[0] == before[0]);
    }
}

/// Once a document fails, the documents after it do not matter: the reply is
/// the error of the first failing document.
pub proof fn lemma_first_failure_decides(
    before: Seq<Result<Seq<char>, Seq<char>>>,
    message: Seq<char>,
    after: Seq<Result<Seq<char>, Seq<char>>>,
)
    requires
        forall|j: int| 0 <= j < before.len() ==> before[j] is Ok,
    ensures
        documents_json(before + seq![Err(message)] + after) == json_error(message),
{
    lemma_first_failure_of(before, message, after);
}

} // verus!
