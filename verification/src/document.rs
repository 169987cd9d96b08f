//! Query documents as plain trees: what the library hands to the database
//! driver, which only converts each node to its own document type.

use vstd::prelude::*;

verus! {

/// A value of a query document.
pub enum Value {
    Null,
    Int(i32),
    Text(String),
    /// An object id, by its 12 bytes.
    ObjectId([u8; 12]),
    List(Vec<Value>),
    /// Fields in order.
    Doc(Vec<(String, Value)>),
}

/// The mathematical content of a [`Value`].
#[verifier::ext_equal]
pub enum ValueModel {
    Null,
    Int(int),
    Text(Seq<char>),
    ObjectId(Seq<u8>),
    List(Seq<ValueModel>),
    Doc(Seq<(Seq<char>, ValueModel)>),
}

/// The content of a value.
pub open spec fn model(v: Value) -> ValueModel
    decreases v,
{
    match v {
        Value::Null => ValueModel::Null,
        Value::Int(i) => ValueModel::Int(i as int),
        Value::Text(s) => ValueModel::Text(s@),
        Value::ObjectId(bytes) => ValueModel::ObjectId(bytes@),
        Value::List(items) => ValueModel::List(
            Seq::new(
                items@.len(),
                |i: int|
                    if 0 <= i < items@.len() {
                        model(items@[i])
                    } else {
                        ValueModel::Null
                    },
            ),
        ),
        Value::Doc(fields) => ValueModel::Doc(
            Seq::new(
                fields@.len(),
                |i: int|
                    if 0 <= i < fields@.len() {
                        (fields@[i].0@, model(fields@[i].1))
                    } else {
                        (Seq::empty(), ValueModel::Null)
                    },
            ),
        ),
    }
}

pub open spec fn models(values: Seq<Value>) -> Seq<ValueModel> {
    values.map_values(|v: Value| model(v))
}

pub open spec fn field_models(fields: Seq<(String, Value)>) -> Seq<(Seq<char>, ValueModel)> {
    fields.map_values(|f: (String, Value)| (f.0@, model(f.1)))
}

pub(crate) proof fn lemma_model_list(items: Vec<Value>)
    ensures
        model(Value::List(items)) == ValueModel::List(models(items@)),
{
    let m = model(Value::List(items));
    assert(m is List);
    assert(m->List_0.len() == items@.len());
    assert(forall|i: int| 0 <= i < items@.len() ==> #[trigger] m->List_0[i] == model(items@[i]));
    assert(m->List_0 =~= models(items@));
}

pub(crate) proof fn lemma_model_doc(fields: Vec<(String, Value)>)
    ensures
        model(Value::Doc(fields)) == ValueModel::Doc(field_models(fields@)),
{
    let m = model(Value::Doc(fields));
    assert(m is Doc);
    assert(m->Doc_0.len() == fields@.len());
    assert(forall|i: int|
        0 <= i < fields@.len() ==> #[trigger] m->Doc_0[i] == (fields@[i].0@, model(fields@[i].1)));
    assert(m->Doc_0 =~= field_models(fields@));
}

pub open spec fn text_m(s: Seq<char>) -> ValueModel {
    ValueModel::Text(s)
}

pub open spec fn doc1_m(k: Seq<char>, v: ValueModel) -> ValueModel {
    ValueModel::Doc(seq![(k, v)])
}

pub open spec fn doc2_m(k1: Seq<char>, v1: ValueModel, k2: Seq<char>, v2: ValueModel) -> ValueModel {
    ValueModel::Doc(seq![(k1, v1), (k2, v2)])
}

pub open spec fn doc3_m(
    k1: Seq<char>,
    v1: ValueModel,
    k2: Seq<char>,
    v2: ValueModel,
    k3: Seq<char>,
    v3: ValueModel,
) -> ValueModel {
    ValueModel::Doc(seq![(k1, v1), (k2, v2), (k3, v3)])
}

pub(crate) fn text(s: &str) -> (r: Value)
    ensures
        model(r) == text_m(s@),
{
    Value::Text(String::from_str(s))
}

pub(crate) fn doc1(k: &str, v: Value) -> (r: Value)
    ensures
        model(r) == doc1_m(k@, model(v)),
{
    let ghost gv = v;
    let key = String::from_str(k);
    let ghost gk = key;
    let fields = vec![(key, v)];
    assert(fields@ =~= seq![(gk, gv)]);
    proof {
        lemma_model_doc(fields);
        assert(field_models(fields@) =~= seq![(k@, model(gv))]);
    }
    Value::Doc(fields)
}

pub(crate) fn doc2(k1: &str, v1: Value, k2: &str, v2: Value) -> (r: Value)
    ensures
        model(r) == doc2_m(k1@, model(v1), k2@, model(v2)),
{
    let ghost (gv1, gv2) = (v1, v2);
    let (key1, key2) = (String::from_str(k1), String::from_str(k2));
    let ghost (gk1, gk2) = (key1, key2);
    let fields = vec![(key1, v1), (key2, v2)];
    assert(fields@ =~= seq![(gk1, gv1), (gk2, gv2)]);
    proof {
        lemma_model_doc(fields);
        assert(field_models(fields@) =~= seq![(k1@, model(gv1)), (k2@, model(gv2))]);
    }
    Value::Doc(fields)
}

pub(crate) fn doc3(k1: &str, v1: Value, k2: &str, v2: Value, k3: &str, v3: Value) -> (r: Value)
    ensures
        model(r) == doc3_m(k1@, model(v1), k2@, model(v2), k3@, model(v3)),
{
    let ghost (gv1, gv2, gv3) = (v1, v2, v3);
    let (key1, key2, key3) = (String::from_str(k1), String::from_str(k2), String::from_str(k3));
    let ghost (gk1, gk2, gk3) = (key1, key2, key3);
    let fields = vec![(key1, v1), (key2, v2), (key3, v3)];
    assert(fields@ =~= seq![(gk1, gv1), (gk2, gv2), (gk3, gv3)]);
    proof {
        lemma_model_doc(fields);
        assert(field_models(fields@) =~= seq![(k1@, model(gv1)), (k2@, model(gv2)), (k3@, model(gv3))]);
    }
    Value::Doc(fields)
}

pub(crate) fn list2(a: Value, b: Value) -> (r: Value)
    ensures
        model(r) == ValueModel::List(seq![model(a), model(b)]),
{
    let ghost (ga, gb) = (a, b);
    let items = vec![a, b];
    assert(items@ =~= seq![ga, gb]);
    proof {
        lemma_model_list(items);
        assert(models(items@) =~= seq![model(ga), model(gb)]);
    }
    Value::List(items)
}

pub(crate) fn list3(a: Value, b: Value, c: Value) -> (r: Value)
    ensures
        model(r) == ValueModel::List(seq![model(a), model(b), model(c)]),
{
    let ghost (ga, gb, gc) = (a, b, c);
    let items = vec![a, b, c];
    assert(items@ =~= seq![ga, gb, gc]);
    proof {
        lemma_model_list(items);
        assert(models(items@) =~= seq![model(ga), model(gb), model(gc)]);
    }
    Value::List(items)
}


/// A document with a single field.
pub(crate) fn single_field(k: &str, v: Value) -> (r: Vec<(String, Value)>)
    ensures
        field_models(r@) == seq![(k@, model(v))],
{
    let ghost gv = v;
    let key = String::from_str(k);
    let ghost gk = key;
    let r = vec![(key, v)];
    assert(r@ =~= seq![(gk, gv)]);
    assert(field_models(r@) =~= seq![(k@, model(gv))]);
    r
}

} // verus!
