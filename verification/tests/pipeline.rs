use rustball::document::Value;
use rustball::pipeline::{team_batters, teams};

fn keys(v: &Value) -> Vec<String> {
    match v {
        Value::Doc(fields) => fields.iter().map(|(k, _)| k.clone()).collect(),
        _ => Vec::new(),
    }
}

fn field<'a>(v: &'a Value, key: &str) -> &'a Value {
    match v {
        Value::Doc(fields) => &fields.iter().find(|(k, _)| k == key).unwrap().1,
        _ => panic!("not a document"),
    }
}

fn stage_keys(stage: &[(String, Value)]) -> Vec<String> {
    stage.iter().map(|(k, _)| k.clone()).collect()
}

fn stage_field<'a>(stage: &'a [(String, Value)], key: &str) -> &'a Value {
    &stage.iter().find(|(k, _)| k == key).unwrap().1
}

fn text(v: &Value) -> &str {
    match v {
        Value::Text(t) => t,
        _ => panic!("not text"),
    }
}

#[test]
fn league_pipeline() {
    let p = teams();
    assert_eq!(p.len(), 2);
    assert_eq!(stage_keys(&p[0]), vec!["$group"]);
    let group = stage_field(&p[0], "$group");
    assert_eq!(keys(group), vec!["_id", "teams"]);
    assert!(matches!(field(group, "_id"), Value::Int(1)));
    assert_eq!(text(field(field(group, "teams"), "$addToSet")), "$team");
    let project = stage_field(&p[1], "$project");
    assert!(matches!(field(project, "_id"), Value::Int(0)));
    assert!(matches!(field(project, "teams"), Value::Int(1)));
}

#[test]
fn batters_pipeline() {
    let p = team_batters();
    assert_eq!(p.len(), 4);
    let stages: Vec<Vec<String>> = p.iter().map(|st| stage_keys(st)).collect();
    assert_eq!(stages, vec![vec!["$match"], vec!["$project"], vec!["$group"], vec!["$project"]]);
    assert_eq!(text(field(field(stage_field(&p[0], "$match"), "position"), "$ne")), "P");
    let player = field(stage_field(&p[1], "$project"), "player");
    assert_eq!(keys(player), vec!["_id", "first_name", "last_name"]);
    assert_eq!(text(field(player, "last_name")), "$last_name");
    let group = stage_field(&p[2], "$group");
    assert_eq!(keys(group), vec!["_id", "L", "R"]);
    assert_eq!(text(field(group, "_id")), "$team");
    match field(field(field(group, "R"), "$addToSet"), "$cond") {
        Value::List(parts) => {
            assert_eq!(parts.len(), 3);
            match field(&parts[0], "$eq") {
                Value::List(eq) => assert_eq!(text(&eq[1]), "R"),
                _ => panic!(),
            }
            assert_eq!(text(&parts[1]), "$player");
            assert!(matches!(parts[2], Value::Null));
        }
        _ => panic!("$cond is not a list"),
    }
    let last = stage_field(&p[3], "$project");
    assert_eq!(keys(last), vec!["L", "R"]);
    match field(last, "L") {
        Value::Doc(_) => match field(field(last, "L"), "$setDifference") {
            Value::List(parts) => {
                assert_eq!(text(&parts[0]), "$L");
                assert!(matches!(&parts[1], Value::List(n) if n.len() == 1 && matches!(n[0], Value::Null)));
            }
            _ => panic!(),
        },
        _ => panic!(),
    }
}
