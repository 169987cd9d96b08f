//! The aggregation pipelines behind the league and batters lists, as plain
//! document trees that the caller hands to the database.

use vstd::prelude::*;

use crate::document::{
    doc1, doc1_m, doc2, doc2_m, doc3, doc3_m, field_models, lemma_model_list, list2, list3, model,
    models, single_field, text, text_m, Value, ValueModel,
};

verus! {

/// A pipeline stage: a document with one field, the stage's operator.
pub open spec fn stage_m(op: Seq<char>, v: ValueModel) -> Seq<(Seq<char>, ValueModel)> {
    seq![(op, v)]
}

/// The content of a pipeline.
pub open spec fn stage_models(stages: Seq<Vec<(String, Value)>>) -> Seq<Seq<(Seq<char>, ValueModel)>> {
    stages.map_values(|f: Vec<(String, Value)>| field_models(f@))
}

/// The pipeline behind the league page: the set of all teams of the players.
pub open spec fn teams_pipeline() -> Seq<Seq<(Seq<char>, ValueModel)>> {
    seq![
        stage_m(
            "$group"@,
            doc2_m("_id"@, ValueModel::Int(1), "teams"@, doc1_m("$addToSet"@, text_m("$team"@))),
        ),
        stage_m("$project"@, doc2_m("_id"@, ValueModel::Int(0), "teams"@, ValueModel::Int(1))),
    ]
}

/// The players of a group who bat with the given hand, as a set.
pub open spec fn batting_with(hand: Seq<char>) -> ValueModel {
    doc1_m(
        "$addToSet"@,
        doc1_m(
            "$cond"@,
            ValueModel::List(
                seq![
                    doc1_m("$eq"@, ValueModel::List(seq![text_m("$bats"@), text_m(hand)])),
                    text_m("$player"@),
                    ValueModel::Null,
                ],
            ),
        ),
    )
}

/// A set without its `null` element.
pub open spec fn without_null(set: Seq<char>) -> ValueModel {
    doc1_m(
        "$setDifference"@,
        ValueModel::List(seq![text_m(set), ValueModel::List(seq![ValueModel::Null])]),
    )
}

/// The pipeline behind the batters page: for each team, the set of its
/// non-pitchers who bat left and the set of those who bat right, each
/// player given by id, first name and last name.
pub open spec fn team_batters_pipeline() -> Seq<Seq<(Seq<char>, ValueModel)>> {
    seq![
        stage_m("$match"@, doc1_m("position"@, doc1_m("$ne"@, text_m("P"@)))),
        stage_m(
            "$project"@,
            doc3_m(
                "team"@,
                ValueModel::Int(1),
                "bats"@,
                ValueModel::Int(1),
                "player"@,
                doc3_m(
                    "_id"@,
                    text_m("$_id"@),
                    "first_name"@,
                    text_m("$first_name"@),
                    "last_name"@,
                    text_m("$last_name"@),
                ),
            ),
        ),
        stage_m(
            "$group"@,
            doc3_m("_id"@, text_m("$team"@), "L"@, batting_with("L"@), "R"@, batting_with("R"@)),
        ),
        stage_m("$project"@, doc2_m("L"@, without_null("$L"@), "R"@, without_null("$R"@))),
    ]
}

/// The pipeline behind the league page.
pub fn teams() -> (r: Vec<Vec<(String, Value)>>)
    ensures
        stage_models(r@) == teams_pipeline(),
{
    let group = single_field(
        "$group",
        doc2("_id", Value::Int(1), "teams", doc1("$addToSet", text("$team"))),
    );
    let project = single_field("$project", doc2("_id", Value::Int(0), "teams", Value::Int(1)));
    let r = vec![group, project];
    assert(stage_models(r@) =~= teams_pipeline());
    r
}

fn batting_with_stage(hand: &str) -> (r: Value)
    ensures
        model(r) == batting_with(hand@),
{
    doc1(
        "$addToSet",
        doc1(
            "$cond",
            list3(doc1("$eq", list2(text("$bats"), text(hand))), text("$player"), Value::Null),
        ),
    )
}

fn without_null_stage(set: &str) -> (r: Value)
    ensures
        model(r) == without_null(set@),
{
    let items = vec![Value::Null];
    assert(items@ =~= seq![Value::Null]);
    proof {
        lemma_model_list(items);
        assert(model(Value::Null) == ValueModel::Null);
        assert(models(items@) =~= seq![ValueModel::Null]);
    }
    let nulls = Value::List(items);
    doc1("$setDifference", list2(text(set), nulls))
}

/// The pipeline behind the batters page.
pub fn team_batters() -> (r: Vec<Vec<(String, Value)>>)
    ensures
        stage_models(r@) == team_batters_pipeline(),
{
    let matching = single_field("$match", doc1("position", doc1("$ne", text("P"))));
    let project = single_field(
        "$project",
        doc3(
            "team",
            Value::Int(1),
            "bats",
            Value::Int(1),
            "player",
            doc3("_id", text("$_id"), "first_name", text("$first_name"), "last_name", text("$last_name")),
        ),
    );
    let group = single_field(
        "$group",
        doc3("_id", text("$team"), "L", batting_with_stage("L"), "R", batting_with_stage("R")),
    );
    let split = single_field("$project", doc2("L", without_null_stage("$L"), "R", without_null_stage("$R")));
    let r = vec![matching, project, group, split];
    assert(stage_models(r@) =~= team_batters_pipeline());
    r
}

/// In the batters pipeline each hand's list is built from the group field of
/// the same name, and that field collects the players whose `bats` field is
/// that very hand: the final `L` list holds the left-handed batters and the
/// final `R` list the right-handed ones, without the `null` that stands for
/// the others. Pitchers are left out first.
pub proof fn lemma_batters_split_by_hand()
    ensures
        ({
            let p = team_batters_pipeline();
            let groups = p[2][0].1->Doc_0;
            let out = p[3][0].1->Doc_0;
            &&& p.len() == 4
            &&& p[0] == seq![
                (
                    "$match"@,
                    ValueModel::Doc(
                        seq![("position"@, ValueModel::Doc(seq![("$ne"@, ValueModel::Text(seq!['P']))]))],
                    ),
                ),
            ]
            &&& p[2].len() == 1 && p[2][0].0 == "$group"@ && p[2][0].1 is Doc
            &&& p[3].len() == 1 && p[3][0].0 == "$project"@ && p[3][0].1 is Doc
            &&& out.len() == 2 && out[0].0 == seq!['L'] && out[1].0 == seq!['R']
            &&& groups.len() == 3 && groups[0] == ("_id"@, ValueModel::Text(seq!['$', 't', 'e', 'a', 'm']))
            &&& forall|i: int|
                #![trigger out[i]]
                0 <= i < 2 ==> out[i].1 == ValueModel::Doc(
                    seq![
                        (
                            "$setDifference"@,
                            ValueModel::List(
                                seq![
                                    ValueModel::Text(seq!['$'] + out[i].0),
                                    ValueModel::List(seq![ValueModel::Null]),
                                ],
                            ),
                        ),
                    ],
                )
            &&& forall|i: int|
                #![trigger out[i]]
                0 <= i < 2 ==> groups[i + 1] == (
                    out[i].0,
                    ValueModel::Doc(
                        seq![
                            (
                                "$addToSet"@,
                                ValueModel::Doc(
                                    seq![
                                        (
                                            "$cond"@,
                                            ValueModel::List(
                                                seq![
                                                    ValueModel::Doc(
                                                        seq![
                                                            (
                                                                "$eq"@,
                                                                ValueModel::List(
                                                                    seq![
                                                                        ValueModel::Text(seq!['$', 'b', 'a', 't', 's']),
                                                                        ValueModel::Text(out[i].0),
                                                                    ],
                                                                ),
                                                            ),
                                                        ],
                                                    ),
                                                    ValueModel::Text(seq!['$', 'p', 'l', 'a', 'y', 'e', 'r']),
                                                    ValueModel::Null,
                                                ],
                                            ),
                                        ),
                                    ],
                                ),
                            ),
                        ],
                    ),
                )
        }),
{
    reveal_strlit("L");
    reveal_strlit("R");
    reveal_strlit("$L");
    reveal_strlit("$R");
    reveal_strlit("P");
    reveal_strlit("$team");
    reveal_strlit("$bats");
    reveal_strlit("$player");
    assert("L"@ =~= seq!['L']);
    assert("R"@ =~= seq!['R']);
    assert("$L"@ =~= seq!['$'] + seq!['L']);
    assert("$R"@ =~= seq!['$'] + seq!['R']);
    assert("P"@ =~= seq!['P']);
    assert("$team"@ =~= seq!['$', 't', 'e', 'a', 'm']);
    assert("$bats"@ =~= seq!['$', 'b', 'a', 't', 's']);
    assert("$player"@ =~= seq!['$', 'p', 'l', 'a', 'y', 'e', 'r']);
}

/// The league pipeline puts every player in one group, whatever its fields,
/// collects there the set of the players' `team` fields, and keeps only
/// that set.
pub proof fn lemma_league_is_set_of_teams()
    ensures
        ({
            let p = teams_pipeline();
            &&& p.len() == 2
            &&& p[0] == seq![
                (
                    "$group"@,
                    ValueModel::Doc(
                        seq![
                            ("_id"@, ValueModel::Int(1)),
                            (
                                seq!['t', 'e', 'a', 'm', 's'],
                                ValueModel::Doc(
                                    seq![("$addToSet"@, ValueModel::Text(seq!['$', 't', 'e', 'a', 'm']))],
                                ),
                            ),
                        ],
                    ),
                ),
            ]
            &&& p[1] == seq![
                (
                    "$project"@,
                    ValueModel::Doc(
                        seq![("_id"@, ValueModel::Int(0)), (seq!['t', 'e', 'a', 'm', 's'], ValueModel::Int(1))],
                    ),
                ),
            ]
        }),
{
    reveal_strlit("teams");
    reveal_strlit("$team");
    assert("teams"@ =~= seq!['t', 'e', 'a', 'm', 's']);
    assert("$team"@ =~= seq!['$', 't', 'e', 'a', 'm']);
}

} // verus!
