//! The database queries behind the REST API, described as plain values, and
//! the checks made on a request's parameters before a query is run.
//!
//! A [`FindQuery`] says which players to look up and which of their fields
//! to return in which order. Its filter, projection and sort, and the tag
//! update, are given as document trees ([`crate::document::Value`]) that
//! the caller only converts into the database driver's documents.

use vstd::prelude::*;

use crate::document::{doc1, doc1_m, field_models, single_field, text_m, Value, ValueModel};
use crate::token_reply::{find_last_value, last_value, pairs_view};

verus! {

/// A field of a player's document.
#[derive(PartialEq, Eq, Structural, Clone, Copy, Debug)]
pub enum Field {
    FirstName,
    LastName,
    Team,
    Avg,
    Position,
    Tags,
}

/// The name of the field in the database.
pub open spec fn field_name(f: Field) -> Seq<char> {
    match f {
        Field::FirstName => "first_name"@,
        Field::LastName => "last_name"@,
        Field::Team => "team"@,
        Field::Avg => "avg"@,
        Field::Position => "position"@,
        Field::Tags => "tags"@,
    }
}

impl Field {
    /// The name of the field in the database.
    pub fn name(&self) -> (r: &'static str)
        ensures
            r@ == field_name(*self),
    {
        match self {
            Field::FirstName => "first_name",
            Field::LastName => "last_name",
            Field::Team => "team",
            Field::Avg => "avg",
            Field::Position => "position",
            Field::Tags => "tags",
        }
    }
}

/// Which players a query selects.
pub enum Filter {
    /// The players that have a batting average.
    HasAverage,
    /// The players of the team with this abbreviation.
    TeamIs(String),
    /// The player with this object id.
    IdIs([u8; 12]),
    /// The players tagged with this tag.
    HasTag(String),
}

/// A query that finds players.
pub struct FindQuery {
    /// Which players to find.
    pub filter: Filter,
    /// At most this many players, when set.
    pub limit: Option<i64>,
    /// The fields to return.
    pub projection: Vec<Field>,
    /// The order: by each field in turn, ascending for `1`, descending for `-1`.
    pub sort: Vec<(Field, i32)>,
}

/// The document that selects the players of a filter.
pub open spec fn filter_model(f: Filter) -> ValueModel {
    match f {
        Filter::HasAverage => doc1_m("avg"@, doc1_m("$ne"@, ValueModel::Null)),
        Filter::TeamIs(team) => doc1_m("team"@, text_m(team@)),
        Filter::IdIs(bytes) => doc1_m("_id"@, ValueModel::ObjectId(bytes@)),
        Filter::HasTag(tag) => doc1_m("tags"@, text_m(tag@)),
    }
}

/// The projection document: each field, in order, set to `1`.
pub open spec fn projection_model(fields: Seq<Field>) -> ValueModel {
    ValueModel::Doc(fields.map_values(|f: Field| (field_name(f), ValueModel::Int(1))))
}

/// The sort document: each field, in order, with its direction.
pub open spec fn sort_model(keys: Seq<(Field, i32)>) -> ValueModel {
    ValueModel::Doc(keys.map_values(|k: (Field, i32)| (field_name(k.0), ValueModel::Int(k.1 as int))))
}

impl Filter {
    /// The fields of the document that selects these players.
    pub fn to_document(&self) -> (r: Vec<(String, Value)>)
        ensures
            ValueModel::Doc(field_models(r@)) == filter_model(*self),
    {
        match self {
            Filter::HasAverage => single_field("avg", doc1("$ne", Value::Null)),
            Filter::TeamIs(team) => {
                let v = Value::Text(team.clone());
                single_field("team", v)
            },
            Filter::IdIs(bytes) => single_field("_id", Value::ObjectId(*bytes)),
            Filter::HasTag(tag) => {
                let v = Value::Text(tag.clone());
                single_field("tags", v)
            },
        }
    }
}

impl FindQuery {
    /// The fields of the projection document of the query.
    pub fn projection_document(&self) -> (r: Vec<(String, Value)>)
        ensures
            ValueModel::Doc(field_models(r@)) == projection_model(self.projection@),
    {
        let ghost want = self.projection@.map_values(|f: Field| (field_name(f), ValueModel::Int(1)));
        let mut fields: Vec<(String, Value)> = Vec::new();
        let mut i: usize = 0;
        while i < self.projection.len()
            invariant
                i <= self.projection@.len(),
                want == self.projection@.map_values(|f: Field| (field_name(f), ValueModel::Int(1))),
                field_models(fields@) =~= want.take(i as int),
            decreases self.projection.len() - i,
        {
            let f = self.projection[i];
            let ghost before = fields@;
            fields.push((String::from_str(f.name()), Value::Int(1)));
            assert(field_models(fields@) =~= field_models(before).push((field_name(f), ValueModel::Int(1))));
            assert(want.take(i + 1) =~= want.take(i as int).push(want[i as int]));
            i = i + 1;
        }
        assert(want.take(self.projection@.len() as int) =~= want);
        fields
    }

    /// The fields of the sort document of the query.
    pub fn sort_document(&self) -> (r: Vec<(String, Value)>)
        ensures
            ValueModel::Doc(field_models(r@)) == sort_model(self.sort@),
    {
        let ghost want = self.sort@.map_values(
            |k: (Field, i32)| (field_name(k.0), ValueModel::Int(k.1 as int)),
        );
        let mut fields: Vec<(String, Value)> = Vec::new();
        let mut i: usize = 0;
        while i < self.sort.len()
            invariant
                i <= self.sort@.len(),
                want == self.sort@.map_values(
                    |k: (Field, i32)| (field_name(k.0), ValueModel::Int(k.1 as int)),
                ),
                field_models(fields@) =~= want.take(i as int),
            decreases self.sort.len() - i,
        {
            let (f, direction) = self.sort[i];
            let ghost before = fields@;
            fields.push((String::from_str(f.name()), Value::Int(direction)));
            assert(field_models(fields@) =~= field_models(before).push(
                (field_name(f), ValueModel::Int(direction as int)),
            ));
            assert(want.take(i + 1) =~= want.take(i as int).push(want[i as int]));
            i = i + 1;
        }
        assert(want.take(self.sort@.len() as int) =~= want);
        fields
    }
}

/// The order of the average lists: by average (highest first for the list
/// of the best hitters), then by team, last name and first name.
pub open spec fn averages_sort(high: bool) -> Seq<(Field, i32)> {
    seq![
        (Field::Avg, if high { -1i32 } else { 1i32 }),
        (Field::Team, 1i32),
        (Field::LastName, 1i32),
        (Field::FirstName, 1i32),
    ]
}

/// The query for a list of hitters by average: the twenty players with an
/// average that come first in [`averages_sort`], with their names, team and
/// average.
pub open spec fn is_averages_query(q: FindQuery, high: bool) -> bool {
    &&& q.filter is HasAverage
    &&& q.limit == Some(20i64)
    &&& q.projection@ == seq![Field::FirstName, Field::LastName, Field::Team, Field::Avg]
    &&& q.sort@ == averages_sort(high)
}

fn averages(high: bool) -> (r: FindQuery)
    ensures
        is_averages_query(r, high),
{
    let avg_sort: i32 = if high {
        -1
    } else {
        1
    };
    let r = FindQuery {
        filter: Filter::HasAverage,
        limit: Some(20),
        projection: vec![Field::FirstName, Field::LastName, Field::Team, Field::Avg],
        sort: vec![(Field::Avg, avg_sort), (Field::Team, 1), (Field::LastName, 1), (Field::FirstName, 1)],
    };
    assert(r.projection@ =~= seq![Field::FirstName, Field::LastName, Field::Team, Field::Avg]);
    assert(r.sort@ =~= averages_sort(high));
    r
}

/// The query behind the list of the twenty best hitters.
pub fn highest_averages() -> (r: FindQuery)
    ensures
        is_averages_query(r, true),
{
    averages(true)
}

/// The query behind the list of the twenty worst hitters.
pub fn lowest_averages() -> (r: FindQuery)
    ensures
        is_averages_query(r, false),
{
    averages(false)
}

/// The two average lists differ only in the direction of the average: the
/// best hitters come first in one, the worst in the other.
pub proof fn lemma_average_lists_mirror(high: FindQuery, low: FindQuery)
    requires
        is_averages_query(high, true),
        is_averages_query(low, false),
    ensures
        high.limit == low.limit,
        high.projection@ == low.projection@,
        high.sort@.len() == low.sort@.len(),
        high.sort@[0].0 == low.sort@[0].0 && high.sort@[0].1 == -low.sort@[0].1,
        high.sort@.drop_first() == low.sort@.drop_first(),
{
    assert(high.sort@.drop_first() =~= low.sort@.drop_first());
}

/// Why a request was refused before any query ran.
pub enum RequestError {
    /// The address names no player id.
    NoId,
    /// The player id is not an object id; the text says why.
    InvalidId(String),
    /// The request's body could not be read; the text says why.
    UnreadableBody(String),
    /// The body gives no tag.
    NoTag,
    /// The address names no team.
    NoTeam,
}

/// The text a refused request is answered with, inside `{"error":"..."}`.
pub open spec fn request_error_message(e: RequestError) -> Seq<char> {
    match e {
        RequestError::NoId => "No id specified"@,
        RequestError::InvalidId(why) => why@,
        RequestError::UnreadableBody(why) => why@,
        RequestError::NoTag => "No tag specified"@,
        RequestError::NoTeam => "No team specified"@,
    }
}

impl RequestError {
    /// The text the refused request is answered with.
    pub fn message(&self) -> (r: String)
        ensures
            r@ == request_error_message(*self),
    {
        match self {
            RequestError::NoId => String::from_str("No id specified"),
            RequestError::InvalidId(why) => why.clone(),
            RequestError::UnreadableBody(why) => why.clone(),
            RequestError::NoTag => String::from_str("No tag specified"),
            RequestError::NoTeam => String::from_str("No team specified"),
        }
    }
}

pub open spec fn is_hex_digit(c: char) -> bool {
    ||| 48 <= (c as u32) <= 57
    ||| 65 <= (c as u32) <= 70
    ||| 97 <= (c as u32) <= 102
}

/// The value of a hexadecimal digit, either case.
pub open spec fn hex_value(c: char) -> int {
    if 48 <= (c as u32) <= 57 {
        (c as u32) - 48
    } else if 65 <= (c as u32) <= 70 {
        (c as u32) - 55
    } else {
        (c as u32) - 87
    }
}

/// The text of an object id: 24 hexadecimal digits.
pub open spec fn is_object_id_text(s: Seq<char>) -> bool {
    &&& s.len() == 24
    &&& forall|i: int| 0 <= i < s.len() ==> is_hex_digit(#[trigger] s[i])
}

/// The 12 bytes an object id's text denotes, two digits per byte, the high
/// digit first.
pub open spec fn object_id_bytes(s: Seq<char>) -> Seq<u8> {
    Seq::new(12, |i: int| (hex_value(s[2 * i]) * 16 + hex_value(s[2 * i + 1])) as u8)
}

/// The text of the error `bson::oid::ObjectId::parse_str` reports for a
/// text that is no object id.
pub uninterp spec fn object_id_error_text(s: Seq<char>) -> Seq<char>;

/// Parses an object id with `bson::oid::ObjectId::parse_str`.
///
/// Trusted: the source hex-decodes the text's bytes and accepts exactly 12
/// decoded bytes, so the parse succeeds exactly on 24 hexadecimal digits of
/// either case and yields the bytes they denote; otherwise the error's text
/// is the named function of the input.
#[verifier::external_body]
fn parse_object_id(s: &str) -> (r: Result<[u8; 12], String>)
    ensures
        match r {
            Ok(bytes) => is_object_id_text(s@) && bytes@ == object_id_bytes(s@),
            Err(why) => !is_object_id_text(s@) && why@ == object_id_error_text(s@),
        },
{
    match bson::oid::ObjectId::parse_str(s) {
        Ok(id) => Ok(id.bytes()),
        Err(e) => Err(e.to_string()),
    }
}

/// The object id a request names, if it names a well-formed one.
pub open spec fn requested_id(id: Option<Seq<char>>) -> Result<Seq<u8>, Seq<char>> {
    match id {
        None => Err("No id specified"@),
        Some(s) => if is_object_id_text(s) {
            Ok(object_id_bytes(s))
        } else {
            Err(object_id_error_text(s))
        },
    }
}

pub open spec fn opt_view(s: Option<&str>) -> Option<Seq<char>> {
    match s {
        Some(t) => Some(t@),
        None => None,
    }
}

/// The player id named by a request's `:id` segment.
pub fn get_id(id: Option<&str>) -> (r: Result<[u8; 12], RequestError>)
    ensures
        match r {
            Ok(bytes) => requested_id(opt_view(id)) == Ok::<Seq<u8>, Seq<char>>(bytes@),
            Err(e) => requested_id(opt_view(id)) == Err::<Seq<u8>, Seq<char>>(request_error_message(e)),
        },
        r matches Err(e) ==> (e is NoId <==> id is None) && (e is NoId || e is InvalidId),
{
    match id {
        None => Err(RequestError::NoId),
        Some(text) => match parse_object_id(text) {
            Ok(bytes) => Ok(bytes),
            Err(why) => Err(RequestError::InvalidId(why)),
        },
    }
}

/// The lookup of one player's card: names, position, team and tags.
pub open spec fn is_player_query(q: FindQuery, id: Seq<u8>) -> bool {
    &&& q.filter matches Filter::IdIs(bytes) && bytes@ == id
    &&& q.limit is None
    &&& q.projection@ == seq![Field::FirstName, Field::LastName, Field::Position, Field::Team, Field::Tags]
    &&& q.sort@ == Seq::<(Field, i32)>::empty()
}

/// The query behind a player's page, for the id in the request's address.
pub fn player_tags(id: Option<&str>) -> (r: Result<FindQuery, RequestError>)
    ensures
        match r {
            Ok(q) => requested_id(opt_view(id)) matches Ok(bytes) && is_player_query(q, bytes),
            Err(e) => requested_id(opt_view(id)) == Err::<Seq<u8>, Seq<char>>(request_error_message(e)),
        },
        r matches Err(e) ==> (e is NoId <==> id is None) && (e is NoId || e is InvalidId),
{
    let bytes = match get_id(id) {
        Ok(b) => b,
        Err(e) => return Err(e),
    };
    let q = FindQuery {
        filter: Filter::IdIs(bytes),
        limit: None,
        projection: vec![Field::FirstName, Field::LastName, Field::Position, Field::Team, Field::Tags],
        sort: Vec::new(),
    };
    assert(q.projection@ =~= seq![Field::FirstName, Field::LastName, Field::Position, Field::Team, Field::Tags]);
    assert(q.sort@ =~= Seq::<(Field, i32)>::empty());
    Ok(q)
}

/// The roster of a team, by position, then last and first name.
pub open spec fn is_roster_query(q: FindQuery, team: Seq<char>) -> bool {
    &&& q.filter matches Filter::TeamIs(t) && t@ == team
    &&& q.limit is None
    &&& q.projection@ == seq![Field::FirstName, Field::LastName, Field::Position]
    &&& q.sort@ == seq![(Field::Position, 1i32), (Field::LastName, 1i32), (Field::FirstName, 1i32)]
}

/// The query behind a team's roster, for the team in the request's address.
pub fn team_roster(team: Option<&str>) -> (r: Result<FindQuery, RequestError>)
    ensures
        match r {
            Ok(q) => team matches Some(t) && is_roster_query(q, t@),
            Err(e) => team is None && e is NoTeam,
        },
{
    let team = match team {
        Some(t) => t,
        None => return Err(RequestError::NoTeam),
    };
    let q = FindQuery {
        filter: Filter::TeamIs(String::from_str(team)),
        limit: None,
        projection: vec![Field::FirstName, Field::LastName, Field::Position],
        sort: vec![(Field::Position, 1), (Field::LastName, 1), (Field::FirstName, 1)],
    };
    assert(q.projection@ =~= seq![Field::FirstName, Field::LastName, Field::Position]);
    assert(q.sort@ =~= seq![(Field::Position, 1i32), (Field::LastName, 1i32), (Field::FirstName, 1i32)]);
    Ok(q)
}

/// The players with a tag, by last and first name.
pub open spec fn is_tagged_query(q: FindQuery, tag: Seq<char>) -> bool {
    &&& q.filter matches Filter::HasTag(t) && t@ == tag
    &&& q.limit is None
    &&& q.projection@ == seq![Field::FirstName, Field::LastName, Field::Team]
    &&& q.sort@ == seq![(Field::LastName, 1i32), (Field::FirstName, 1i32)]
}

/// The query behind the list of players with a tag, for the tag in the
/// request's address. The service promises this list without saying which
/// fields it shows or in which order: showing names and team, ordered by
/// name, and answering `No tag specified` when the address names no tag,
/// are choices of this library, made to match the other lists.
pub fn tagged_players(tag: Option<&str>) -> (r: Result<FindQuery, RequestError>)
    ensures
        match r {
            Ok(q) => tag matches Some(t) && is_tagged_query(q, t@),
            Err(e) => tag is None && e is NoTag,
        },
{
    let tag = match tag {
        Some(t) => t,
        None => return Err(RequestError::NoTag),
    };
    let q = FindQuery {
        filter: Filter::HasTag(String::from_str(tag)),
        limit: None,
        projection: vec![Field::FirstName, Field::LastName, Field::Team],
        sort: vec![(Field::LastName, 1), (Field::FirstName, 1)],
    };
    assert(q.projection@ =~= seq![Field::FirstName, Field::LastName, Field::Team]);
    assert(q.sort@ =~= seq![(Field::LastName, 1i32), (Field::FirstName, 1i32)]);
    Ok(q)
}

/// Adding a tag to a player's set of tags.
pub struct TagUpdate {
    /// The player's object id.
    pub id: [u8; 12],
    /// The tag; the player keeps a single copy of each tag.
    pub tag: String,
}

/// The document that selects the tagged player.
pub open spec fn tag_selector_model(u: TagUpdate) -> ValueModel {
    doc1_m("_id"@, ValueModel::ObjectId(u.id@))
}

/// The update: add the tag to the player's set of tags.
pub open spec fn tag_update_model(u: TagUpdate) -> ValueModel {
    doc1_m("$addToSet"@, doc1_m("tags"@, text_m(u.tag@)))
}

impl TagUpdate {
    /// The fields of the document that selects the tagged player.
    pub fn selector_document(&self) -> (r: Vec<(String, Value)>)
        ensures
            ValueModel::Doc(field_models(r@)) == tag_selector_model(*self),
    {
        single_field("_id", Value::ObjectId(self.id))
    }

    /// The fields of the update document: `$addToSet` of the tag to `tags`.
    pub fn update_document(&self) -> (r: Vec<(String, Value)>)
        ensures
            ValueModel::Doc(field_models(r@)) == tag_update_model(*self),
    {
        let v = Value::Text(self.tag.clone());
        single_field("$addToSet", doc1("tags", v))
    }
}

/// The tag a request's body gives: its last `tag` field.
pub open spec fn body_tag(body: Seq<(Seq<char>, Seq<char>)>) -> Option<Seq<char>> {
    last_value(body, "tag"@)
}

/// Checks the body of a request to tag the player with the given id (the id
/// is checked first, with [`get_id`], before the body is read). `body` is
/// the request's form body as key/value pairs, or the text of the error met
/// reading it.
pub fn add_tag(id: [u8; 12], body: Result<Vec<(String, String)>, String>) -> (r: Result<
    TagUpdate,
    RequestError,
>)
    ensures
        match body {
            Err(why) => r matches Err(RequestError::UnreadableBody(w)) && w@ == why@,
            Ok(pairs) => match body_tag(pairs_view(pairs@)) {
                None => r matches Err(e) && e is NoTag,
                Some(tag) => r matches Ok(u) && u.id@ == id@ && u.tag@ == tag,
            },
        },
{
    let pairs = match body {
        Ok(p) => p,
        Err(why) => return Err(RequestError::UnreadableBody(why)),
    };
    match find_last_value(&pairs, "tag") {
        Some(tag) => Ok(TagUpdate { id, tag }),
        None => Err(RequestError::NoTag),
    }
}


/// A team's roster is every player of that team: the query selects the
/// players whose `team` is the team asked for, and nothing cuts the list.
pub proof fn lemma_roster_is_whole_team(q: FindQuery, team: Seq<char>)
    requires
        is_roster_query(q, team),
    ensures
        q.limit is None,
        filter_model(q.filter) == ValueModel::Doc(seq![("team"@, ValueModel::Text(team))]),
        projection_model(q.projection@) == ValueModel::Doc(
            seq![("first_name"@, ValueModel::Int(1)), ("last_name"@, ValueModel::Int(1)), ("position"@, ValueModel::Int(1))],
        ),
        sort_model(q.sort@) == ValueModel::Doc(
            seq![("position"@, ValueModel::Int(1)), ("last_name"@, ValueModel::Int(1)), ("first_name"@, ValueModel::Int(1))],
        ),
{
    assert(q.projection@.map_values(|f: Field| (field_name(f), ValueModel::Int(1))) =~= (
        seq![("first_name"@, ValueModel::Int(1)), ("last_name"@, ValueModel::Int(1)), ("position"@, ValueModel::Int(1))]
    ));
    assert(q.sort@.map_values(|k: (Field, i32)| (field_name(k.0), ValueModel::Int(k.1 as int))) =~= (
        seq![("position"@, ValueModel::Int(1)), ("last_name"@, ValueModel::Int(1)), ("first_name"@, ValueModel::Int(1))]
    ));
}

/// The average lists hold the twenty players with an average that rank
/// first: by highest average for the best hitters, by lowest for the worst,
/// ties broken by team, last name and first name.
pub proof fn lemma_average_lists_are_top_twenty(q: FindQuery, high: bool)
    requires
        is_averages_query(q, high),
    ensures
        q.limit == Some(20i64),
        filter_model(q.filter) == ValueModel::Doc(
            seq![("avg"@, ValueModel::Doc(seq![("$ne"@, ValueModel::Null)]))],
        ),
        sort_model(q.sort@) == ValueModel::Doc(
            seq![
                ("avg"@, ValueModel::Int(if high { -1 } else { 1 })),
                ("team"@, ValueModel::Int(1)),
                ("last_name"@, ValueModel::Int(1)),
                ("first_name"@, ValueModel::Int(1)),
            ],
        ),
        projection_model(q.projection@) == ValueModel::Doc(
            seq![
                ("first_name"@, ValueModel::Int(1)),
                ("last_name"@, ValueModel::Int(1)),
                ("team"@, ValueModel::Int(1)),
                ("avg"@, ValueModel::Int(1)),
            ],
        ),
{
    assert(q.sort@.map_values(|k: (Field, i32)| (field_name(k.0), ValueModel::Int(k.1 as int))) =~= (
        seq![
            ("avg"@, ValueModel::Int(if high { -1 } else { 1 })),
            ("team"@, ValueModel::Int(1)),
            ("last_name"@, ValueModel::Int(1)),
            ("first_name"@, ValueModel::Int(1)),
        ]
    ));
    assert(q.projection@.map_values(|f: Field| (field_name(f), ValueModel::Int(1))) =~= (
        seq![
            ("first_name"@, ValueModel::Int(1)),
            ("last_name"@, ValueModel::Int(1)),
            ("team"@, ValueModel::Int(1)),
            ("avg"@, ValueModel::Int(1)),
        ]
    ));
}

/// A player's page looks the player up by exactly the requested id and
/// shows the player's names, position, team and tags.
pub proof fn lemma_player_query_selects_the_id(q: FindQuery, id: Seq<u8>)
    requires
        is_player_query(q, id),
    ensures
        q.limit is None,
        filter_model(q.filter) == ValueModel::Doc(seq![("_id"@, ValueModel::ObjectId(id))]),
        projection_model(q.projection@) == ValueModel::Doc(
            seq![
                ("first_name"@, ValueModel::Int(1)),
                ("last_name"@, ValueModel::Int(1)),
                ("position"@, ValueModel::Int(1)),
                ("team"@, ValueModel::Int(1)),
                ("tags"@, ValueModel::Int(1)),
            ],
        ),
{
    assert(q.projection@.map_values(|f: Field| (field_name(f), ValueModel::Int(1))) =~= (
        seq![
            ("first_name"@, ValueModel::Int(1)),
            ("last_name"@, ValueModel::Int(1)),
            ("position"@, ValueModel::Int(1)),
            ("team"@, ValueModel::Int(1)),
            ("tags"@, ValueModel::Int(1)),
        ]
    ));
}

/// The tag stored is, character for character, the value of the body's
/// last `tag` field: a `tag` field added at the end decides the tag.
pub proof fn lemma_tag_is_last_tag_field(body: Seq<(Seq<char>, Seq<char>)>, value: Seq<char>)
    ensures
        body_tag(body.push(("tag"@, value))) == Some(value),
{
}

/// Fields with another key do not change the tag.
pub proof fn lemma_other_fields_leave_tag(
    body: Seq<(Seq<char>, Seq<char>)>,
    key: Seq<char>,
    value: Seq<char>,
)
    requires
        key != "tag"@,
    ensures
        body_tag(body.push((key, value))) == body_tag(body),
{
    assert(body.push((key, value)).drop_last() =~= body);
}

/// An empty body gives no tag.
pub proof fn lemma_empty_body_has_no_tag()
    ensures
        body_tag(Seq::empty()) is None,
{
}

/// The update adds exactly the stored tag to the `tags` set of exactly the
/// player with the stored id.
pub proof fn lemma_tag_update_documents(u: TagUpdate)
    ensures
        tag_selector_model(u) == ValueModel::Doc(seq![("_id"@, ValueModel::ObjectId(u.id@))]),
        tag_update_model(u) == ValueModel::Doc(
            seq![("$addToSet"@, ValueModel::Doc(seq![("tags"@, ValueModel::Text(u.tag@))]))],
        ),
{
}

} // verus!
