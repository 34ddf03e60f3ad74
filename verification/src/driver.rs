//! The hand-over of a query to the graph store's driver.

use vstd::prelude::*;
use neo4rs::Query;
use crate::query::GraphQuery;
use crate::text::views;
use crate::value::{clone_strings, Scalar, Value};

verus! {

/// The driver's query: a statement and the parameters bound to it.
#[verifier::external_type_specification]
#[verifier::external_body]
pub struct ExQuery(neo4rs::Query);

/// The statement that a driver query holds.
pub uninterp spec fn bound_text(q: Query) -> Seq<char>;

/// The parameters that a driver query holds, by name.
pub uninterp spec fn bound_params(q: Query) -> Map<Seq<char>, Scalar>;

/// Calls `neo4rs::query`, which makes a query of the given statement with
/// no parameter bound.
#[verifier::external_body]
fn statement(text: &str) -> (q: Query)
    ensures
        bound_text(q) == text@,
        bound_params(q) == by_name(Seq::empty()),
{
    neo4rs::query(text)
}

/// Calls `neo4rs::Query::param` with no value: the statement stays, and the
/// driver's null goes into the parameter map under the name, in place of
/// what was bound to that name before.
#[verifier::external_body]
fn bind_null(q: Query, name: &str) -> (r: Query)
    ensures
        bound_text(r) == bound_text(q),
        bound_params(r) == bound_params(q).insert(name@, Scalar::Null),
{
    q.param(name, None::<String>)
}

/// Calls `neo4rs::Query::param` with a 64-bit number: the statement stays,
/// and the number goes into the parameter map under the name, in place of
/// what was bound to that name before.
#[verifier::external_body]
fn bind_number(q: Query, name: &str, value: i64) -> (r: Query)
    ensures
        bound_text(r) == bound_text(q),
        bound_params(r) == bound_params(q).insert(name@, Scalar::Int(value as int)),
{
    q.param(name, value)
}

/// Calls `neo4rs::Query::param` with a text: the statement stays, and the
/// text goes into the parameter map under the name, in place of what was
/// bound to that name before.
#[verifier::external_body]
fn bind_text(q: Query, name: &str, value: &str) -> (r: Query)
    ensures
        bound_text(r) == bound_text(q),
        bound_params(r) == bound_params(q).insert(name@, Scalar::Text(value@)),
{
    q.param(name, value)
}

/// Calls `neo4rs::Query::param` with a list of texts: the statement stays,
/// and the list goes into the parameter map under the name, in place of
/// what was bound to that name before.
#[verifier::external_body]
fn bind_list(q: Query, name: &str, value: Vec<String>) -> (r: Query)
    ensures
        bound_text(r) == bound_text(q),
        bound_params(r) == bound_params(q).insert(name@, Scalar::List(views(value@))),
{
    q.param(name, value)
}

/// Binds a value to a name in a driver query.
pub fn bind(q: Query, name: &str, value: &Value) -> (r: Query)
    ensures
        bound_text(r) == bound_text(q),
        bound_params(r) == bound_params(q).insert(name@, value@),
{
    match value {
        Value::Null => bind_null(q, name),
        Value::Int(i) => bind_number(q, name, *i),
        Value::Text(s) => bind_text(q, name, s.as_str()),
        Value::List(l) => bind_list(q, name, clone_strings(l)),
    }
}

/// The parameters of a list by name, a later one taking the place of an
/// earlier one of the same name.
pub open spec fn by_name(props: Seq<(Seq<char>, Scalar)>) -> Map<Seq<char>, Scalar>
    decreases props.len(),
{
    if props.len() == 0 {
        Map::empty()
    } else {
        by_name(props.drop_last()).insert(props.last().0, props.last().1)
    }
}

/// Hands a query to the driver: the same statement, with every parameter
/// bound under its name.
pub fn to_driver(q: &GraphQuery) -> (r: Query)
    ensures
        bound_text(r) == q@.text,
        bound_params(r) == by_name(q@.params),
{
    let mut r = statement(q.text.as_str());
    let mut i: usize = 0;
    proof {
        assert(q@.params.take(0) =~= Seq::<(Seq<char>, Scalar)>::empty());
    }
    while i < q.params.len()
        invariant
            i <= q.params.len(),
            bound_text(r) == q@.text,
            bound_params(r) == by_name(q@.params.take(i as int)),
        decreases q.params.len() - i,
    {
        proof {
            assert(q@.params.take(i + 1).drop_last() =~= q@.params.take(i as int));
            assert(q@.params.take(i + 1).last() == q.params@[i as int]@);
        }
        r = bind(r, q.params[i].name.as_str(), &q.params[i].value);
        i = i + 1;
    }
    proof {
        assert(q@.params.take(q.params.len() as int) =~= q@.params);
    }
    r
}

} // verus!
