use rustball::document::Value;
use rustball::query::{
    add_tag, get_id, highest_averages, lowest_averages, player_tags, tagged_players, team_roster,
    Field, Filter, RequestError,
};

const ID: &str = "507f1f77bcf86cd799439011";
const ID_BYTES: [u8; 12] = [0x50, 0x7f, 0x1f, 0x77, 0xbc, 0xf8, 0x6c, 0xd7, 0x99, 0x43, 0x90, 0x11];

fn body(v: &[(&str, &str)]) -> Result<Vec<(String, String)>, String> {
    Ok(v.iter().map(|(a, b)| (a.to_string(), b.to_string())).collect())
}

#[test]
fn average_lists() {
    let high = highest_averages();
    let low = lowest_averages();
    assert!(matches!(high.filter, Filter::HasAverage));
    assert_eq!(high.limit, Some(20));
    assert_eq!(high.projection, vec![Field::FirstName, Field::LastName, Field::Team, Field::Avg]);
    assert_eq!(
        high.sort,
        vec![(Field::Avg, -1), (Field::Team, 1), (Field::LastName, 1), (Field::FirstName, 1)]
    );
    assert_eq!(low.limit, Some(20));
    assert_eq!(low.projection, high.projection);
    assert_eq!(low.sort[0], (Field::Avg, 1));
    assert_eq!(low.sort[1..], high.sort[1..]);
}

#[test]
fn field_names() {
    assert_eq!(Field::FirstName.name(), "first_name");
    assert_eq!(Field::LastName.name(), "last_name");
    assert_eq!(Field::Avg.name(), "avg");
    assert_eq!(Field::Tags.name(), "tags");
    assert_eq!(Field::Position.name(), "position");
    assert_eq!(Field::Team.name(), "team");
}

#[test]
fn object_ids() {
    assert_eq!(get_id(Some(ID)).ok(), Some(ID_BYTES));
    assert_eq!(get_id(Some("507F1F77BCF86CD799439011")).ok(), Some(ID_BYTES));
    assert!(matches!(get_id(None), Err(RequestError::NoId)));
    assert!(matches!(get_id(Some("507f1f77bcf86cd79943901")), Err(RequestError::InvalidId(_))));
    assert!(matches!(get_id(Some("507f1f77bcf86cd79943901g")), Err(RequestError::InvalidId(_))));
    assert!(matches!(get_id(Some("")), Err(RequestError::InvalidId(_))));
    match get_id(Some("zz")) {
        Err(e) => assert!(!e.message().is_empty()),
        Ok(_) => panic!("accepted a bad id"),
    }
}

#[test]
fn player_query() {
    let q = player_tags(Some(ID)).ok().unwrap();
    match q.filter {
        Filter::IdIs(b) => assert_eq!(b, ID_BYTES),
        _ => panic!("wrong filter"),
    }
    assert_eq!(q.limit, None);
    assert_eq!(q.projection, vec![Field::FirstName, Field::LastName, Field::Position, Field::Team, Field::Tags]);
    assert!(q.sort.is_empty());
    assert!(matches!(player_tags(None), Err(RequestError::NoId)));
    assert!(matches!(player_tags(Some("nope")), Err(RequestError::InvalidId(_))));
}

#[test]
fn roster_query() {
    let q = team_roster(Some("BOS")).ok().unwrap();
    match &q.filter {
        Filter::TeamIs(t) => assert_eq!(t, "BOS"),
        _ => panic!("wrong filter"),
    }
    assert_eq!(q.projection, vec![Field::FirstName, Field::LastName, Field::Position]);
    assert_eq!(q.sort, vec![(Field::Position, 1), (Field::LastName, 1), (Field::FirstName, 1)]);
    match team_roster(None) {
        Err(e) => assert_eq!(e.message(), "No team specified"),
        Ok(_) => panic!("accepted a missing team"),
    }
}

#[test]
fn tagging() {
    let u = add_tag(ID_BYTES, body(&[("tag", "clutch")])).ok().unwrap();
    assert_eq!(u.id, ID_BYTES);
    assert_eq!(u.tag, "clutch");
    let u = add_tag(ID_BYTES, body(&[("tag", "a"), ("other", "b"), ("tag", "z")])).ok().unwrap();
    assert_eq!(u.tag, "z");
}

#[test]
fn tagging_errors() {
    match add_tag(ID_BYTES, Err("body too large".to_string())) {
        Err(RequestError::UnreadableBody(why)) => assert_eq!(why, "body too large"),
        _ => panic!(),
    }
    match add_tag(ID_BYTES, body(&[("label", "x")])) {
        Err(e) => {
            assert!(matches!(e, RequestError::NoTag));
            assert_eq!(e.message(), "No tag specified");
        }
        Ok(_) => panic!(),
    }
}

#[test]
fn tagged_players_query() {
    let q = tagged_players(Some("clutch")).ok().unwrap();
    match &q.filter {
        Filter::HasTag(t) => assert_eq!(t, "clutch"),
        _ => panic!("wrong filter"),
    }
    assert_eq!(q.limit, None);
    assert_eq!(q.projection, vec![Field::FirstName, Field::LastName, Field::Team]);
    assert_eq!(q.sort, vec![(Field::LastName, 1), (Field::FirstName, 1)]);
    assert!(matches!(tagged_players(None), Err(RequestError::NoTag)));
}

fn keys_of(fields: &[(String, Value)]) -> Vec<String> {
    fields.iter().map(|(k, _)| k.clone()).collect()
}

#[test]
fn query_documents() {
    let high = highest_averages();
    let filter = high.filter.to_document();
    assert_eq!(keys_of(&filter), vec!["avg"]);
    match &filter[0].1 {
        Value::Doc(inner) => {
            assert_eq!(inner[0].0, "$ne");
            assert!(matches!(inner[0].1, Value::Null));
        }
        _ => panic!("avg filter is not a document"),
    }
    let projection = high.projection_document();
    assert_eq!(keys_of(&projection), vec!["first_name", "last_name", "team", "avg"]);
    assert!(projection.iter().all(|(_, v)| matches!(v, Value::Int(1))));
    let sort = high.sort_document();
    assert_eq!(keys_of(&sort), vec!["avg", "team", "last_name", "first_name"]);
    assert!(matches!(sort[0].1, Value::Int(-1)));
    assert!(matches!(sort[1].1, Value::Int(1)));

    let roster = team_roster(Some("KC")).ok().unwrap().filter.to_document();
    assert_eq!(roster[0].0, "team");
    assert!(matches!(&roster[0].1, Value::Text(t) if t == "KC"));

    let player = player_tags(Some(ID)).ok().unwrap().filter.to_document();
    assert_eq!(player[0].0, "_id");
    assert!(matches!(player[0].1, Value::ObjectId(b) if b == ID_BYTES));

    let tagged = tagged_players(Some("ace")).ok().unwrap().filter.to_document();
    assert_eq!(tagged[0].0, "tags");
    assert!(matches!(&tagged[0].1, Value::Text(t) if t == "ace"));
}

#[test]
fn tag_update_documents() {
    let u = add_tag(ID_BYTES, body(&[("tag", "clutch")])).ok().unwrap();
    let selector = u.selector_document();
    assert_eq!(selector[0].0, "_id");
    assert!(matches!(selector[0].1, Value::ObjectId(b) if b == ID_BYTES));
    let update = u.update_document();
    assert_eq!(keys_of(&update), vec!["$addToSet"]);
    match &update[0].1 {
        Value::Doc(inner) => {
            assert_eq!(inner[0].0, "tags");
            assert!(matches!(&inner[0].1, Value::Text(t) if t == "clutch"));
        }
        _ => panic!(),
    }
}

#[test]
fn player_lookup_errors_name_their_cause() {
    assert!(matches!(player_tags(None), Err(RequestError::NoId)));
    match player_tags(Some("12")) {
        Err(RequestError::InvalidId(why)) => assert!(!why.is_empty()),
        _ => panic!(),
    }
}
