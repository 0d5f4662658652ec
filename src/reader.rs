use vstd::prelude::*;

use crate::decode::{decode_events, events_of};
use crate::error::DecodeError;
use crate::event::EventsResponse;
use crate::json::{view_of, Json, JsonNumber, JsonView};

verus! {

#[verifier::external_type_specification]
#[verifier::external_body]
pub struct ExValue(serde_json::Value);

#[verifier::external_type_specification]
#[verifier::external_body]
pub struct ExNumber(serde_json::Number);

#[verifier::external_type_specification]
#[verifier::external_body]
#[verifier::reject_recursive_types(K)]
#[verifier::reject_recursive_types(V)]
pub struct ExMap<K, V>(serde_json::Map<K, V>);

/// The document that serde_json reads from JSON text, or `None` where the
/// text is not JSON.
pub uninterp spec fn json_of(text: Seq<u8>) -> Option<JsonView>;

/// The document that a parsed `serde_json::Value` holds.
pub uninterp spec fn value_model(v: serde_json::Value) -> JsonView;

/// The members that a parsed `serde_json::Map` holds, in the order in which
/// it hands them out.
pub uninterp spec fn members_model(m: serde_json::Map<String, serde_json::Value>) -> Seq<(Seq<char>, JsonView)>;

/// The number that a parsed `serde_json::Number` holds.
pub uninterp spec fn number_model(n: serde_json::Number) -> JsonNumber;

/// Relies on serde_json::Number::as_u64: the number as a `u64`, where it is
/// a non-negative integer.
pub assume_specification[ serde_json::Number::as_u64 ](n: &serde_json::Number) -> (r: Option<u64>)
    ensures
        r == match number_model(*n) {
            JsonNumber::PosInt(u) => Some(u),
            _ => None::<u64>,
        },
;

/// Relies on serde_json::Number::as_i64: the number as an `i64`, where it is
/// an integer in that range.
pub assume_specification[ serde_json::Number::as_i64 ](n: &serde_json::Number) -> (r: Option<i64>)
    ensures
        r == match number_model(*n) {
            JsonNumber::PosInt(u) => if u <= i64::MAX as u64 {
                Some(u as i64)
            } else {
                None
            },
            JsonNumber::NegInt(i) => Some(i),
            JsonNumber::Float => None,
        },
;

/// The outermost layer of a parsed JSON value.
enum Node {
    Null,
    Bool(bool),
    Number(serde_json::Number),
    Str(String),
    Array(Vec<serde_json::Value>),
    Object(serde_json::Map<String, serde_json::Value>),
}

/// Relies on serde_json::from_slice, reading JSON text into a
/// `serde_json::Value`, and failing where the text is not JSON.
#[verifier::external_body]
fn parse_value(text: &[u8]) -> (r: Result<serde_json::Value, serde_json::Error>)
    ensures
        match r {
            Ok(v) => json_of(text@) == Some(value_model(v)),
            Err(_) => json_of(text@) is None,
        },
{
    serde_json::from_slice(text)
}

/// Relies on the variants of serde_json::Value: takes the outermost layer
/// apart.
#[verifier::external_body]
fn into_node(v: serde_json::Value) -> (r: Node)
    ensures
        match r {
            Node::Null => value_model(v) == JsonView::Null,
            Node::Bool(b) => value_model(v) == JsonView::Bool(b),
            Node::Number(n) => value_model(v) == JsonView::Number(number_model(n)),
            Node::Str(s) => value_model(v) == JsonView::Str(s@),
            Node::Array(items) => value_model(v) == JsonView::Array(
                items@.map_values(|x: serde_json::Value| value_model(x)),
            ),
            Node::Object(m) => value_model(v) == JsonView::Object(members_model(m)),
        },
{
    match v {
        serde_json::Value::Null => Node::Null,
        serde_json::Value::Bool(b) => Node::Bool(b),
        serde_json::Value::Number(n) => Node::Number(n),
        serde_json::Value::String(s) => Node::Str(s),
        serde_json::Value::Array(a) => Node::Array(a),
        serde_json::Value::Object(m) => Node::Object(m),
    }
}

/// Relies on serde_json::Map::into_iter: the members of an object as
/// key-value pairs.
#[verifier::external_body]
fn into_members(m: serde_json::Map<String, serde_json::Value>) -> (r: Vec<(String, serde_json::Value)>)
    ensures
        r@.map_values(|p: (String, serde_json::Value)| (p.0@, value_model(p.1))) == members_model(m),
{
    m.into_iter().collect()
}

fn number_of(n: &serde_json::Number) -> (r: JsonNumber)
    ensures
        r == number_model(*n),
{
    match n.as_u64() {
        Some(u) => JsonNumber::PosInt(u),
        None => match n.as_i64() {
            Some(i) => JsonNumber::NegInt(i),
            None => JsonNumber::Float,
        },
    }
}

/// The items of `v` in the opposite order.
fn reversed<T>(v: Vec<T>) -> (r: Vec<T>)
    ensures
        r@.len() == v@.len(),
        forall|i: int| 0 <= i < v@.len() ==> #[trigger] r@[i] == v@[v@.len() - 1 - i],
{
    let ghost n = v@.len();
    let mut rest = v;
    let mut out: Vec<T> = Vec::new();
    while rest.len() > 0
        invariant
            n == v@.len(),
            out@.len() + rest@.len() == n,
            rest@ == v@.subrange(0, rest@.len() as int),
            forall|i: int| 0 <= i < out@.len() ==> #[trigger] out@[i] == v@[n - 1 - i],
        decreases rest.len(),
    {
        if let Some(x) = rest.pop() {
            out.push(x);
        }
    }
    out
}

/// The model of a parsed value.
fn from_value(v: serde_json::Value) -> (r: Json)
    ensures
        r@ == value_model(v),
    decreases value_model(v),
{
    let ghost model = value_model(v);
    match into_node(v) {
        Node::Null => Json::Null,
        Node::Bool(b) => Json::Bool(b),
        Node::Number(n) => Json::Number(number_of(&n)),
        Node::Str(s) => Json::Str(s),
        Node::Array(items) => {
            let ghost n = items@.len();
            let ghost ms = items@.map_values(|x: serde_json::Value| value_model(x));
            let mut rest = reversed(items);
            let mut out: Vec<Json> = Vec::new();
            while rest.len() > 0
                invariant
                    model == value_model(v),
                    model == JsonView::Array(ms),
                    ms.len() == n,
                    out@.len() + rest@.len() == n,
                    forall|k: int| 0 <= k < rest@.len() ==> #[trigger] value_model(rest@[k]) == ms[n - 1 - k],
                    forall|k: int| 0 <= k < out@.len() ==> #[trigger] out@[k]@ == ms[k],
                decreases rest.len(),
            {
                if let Some(item) = rest.pop() {
                    proof {
                        let k = out@.len() as int;
                        assert(value_model(item) == ms[k]);
                        assert(model->Array_0 == ms);
                        assert(decreases_to!(model => model->Array_0));
                    }
                    let x = from_value(item);
                    out.push(x);
                }
            }
            assert forall|k: int| 0 <= k < n implies view_of(out@[k]) == ms[k] by {
                assert(out@[k]@ == ms[k]);
            }
            let r = Json::Array(out);
            proof {
                if let JsonView::Array(vs) = r@ {
                    assert(vs =~= ms);
                }
            }
            r
        },
        Node::Object(m) => {
            let members = into_members(m);
            let ghost n = members@.len();
            let ghost ms = members@.map_values(
                |p: (String, serde_json::Value)| (p.0@, value_model(p.1)),
            );
            let mut rest = reversed(members);
            let mut out: Vec<(String, Json)> = Vec::new();
            while rest.len() > 0
                invariant
                    model == value_model(v),
                    model == JsonView::Object(ms),
                    ms.len() == n,
                    out@.len() + rest@.len() == n,
                    forall|k: int|
                        0 <= k < rest@.len() ==> (#[trigger] rest@[k]).0@ == ms[n - 1 - k].0
                            && value_model(rest@[k].1) == ms[n - 1 - k].1,
                    forall|k: int|
                        0 <= k < out@.len() ==> (#[trigger] out@[k]).0@ == ms[k].0 && out@[k].1@
                            == ms[k].1,
                decreases rest.len(),
            {
                if let Some((key, item)) = rest.pop() {
                    proof {
                        let k = out@.len() as int;
                        assert(value_model(item) == ms[k].1);
                        assert(model->Object_0 == ms);
                        assert(decreases_to!(model => model->Object_0));
                    }
                    let x = from_value(item);
                    out.push((key, x));
                }
            }
            assert forall|k: int| 0 <= k < n implies (out@[k].0@, view_of(out@[k].1)) == ms[k] by {
                assert(out@[k].0@ == ms[k].0 && out@[k].1@ == ms[k].1);
            }
            let r = Json::Object(out);
            proof {
                if let JsonView::Object(vs) = r@ {
                    assert(vs =~= ms);
                }
            }
            r
        },
    }
}

/// Reads JSON text into its model. Fails with `Syntax` exactly where the
/// text is not JSON.
pub fn parse_json(text: &[u8]) -> (r: Result<Json, DecodeError>)
    ensures
        match json_of(text@) {
            Some(j) => r is Ok && r->Ok_0@ == j,
            None => r is Err && r->Err_0 is Syntax,
        },
{
    match parse_value(text) {
        Ok(v) => Ok(from_value(v)),
        Err(e) => Err(DecodeError::Syntax(e)),
    }
}

/// Reads the body of an event listing: the events that the JSON document
/// records, in order.
pub fn parse_events(body: &[u8]) -> (r: Result<EventsResponse, DecodeError>)
    ensures
        match json_of(body@) {
            Some(j) => match r {
                Ok(resp) => events_of(j) == Some(resp@),
                Err(e) => events_of(j) is None && e is Schema,
            },
            None => r is Err && r->Err_0 is Syntax,
        },
{
    match parse_json(body) {
        Ok(j) => decode_events(&j),
        Err(e) => Err(e),
    }
}

} // verus!
