//! Property values: what a record stores under each of its field names.

use vstd::prelude::*;
use vstd::string::*;
use crate::text::views;

verus! {

/// The mathematical value of a property.
pub enum Scalar {
    Null,
    Int(int),
    Text(Seq<char>),
    List(Seq<Seq<char>>),
}

/// A property value as the graph store takes it.
#[derive(Debug)]
pub enum Value {
    Null,
    Int(i64),
    Text(String),
    List(Vec<String>),
}

impl View for Value {
    type V = Scalar;

    open spec fn view(&self) -> Scalar {
        match self {
            Value::Null => Scalar::Null,
            Value::Int(i) => Scalar::Int(*i as int),
            Value::Text(s) => Scalar::Text(s@),
            Value::List(l) => Scalar::List(views(l@)),
        }
    }
}

/// A named property.
#[derive(Debug)]
pub struct Property {
    pub name: String,
    pub value: Value,
}

impl View for Property {
    type V = (Seq<char>, Scalar);

    open spec fn view(&self) -> (Seq<char>, Scalar) {
        (self.name@, self.value@)
    }
}

/// The mathematical value of a property list.
pub open spec fn props_view(props: Seq<Property>) -> Seq<(Seq<char>, Scalar)> {
    props.map_values(|p: Property| p@)
}

/// The value of an optional text.
pub open spec fn opt_text(s: Option<String>) -> Scalar {
    match s {
        None => Scalar::Null,
        Some(t) => Scalar::Text(t@),
    }
}

/// The value of an optional 64-bit number.
pub open spec fn opt_int(i: Option<i64>) -> Scalar {
    match i {
        None => Scalar::Null,
        Some(n) => Scalar::Int(n as int),
    }
}

/// The value of an optional 32-bit number.
pub open spec fn opt_small(i: Option<i32>) -> Scalar {
    match i {
        None => Scalar::Null,
        Some(n) => Scalar::Int(n as int),
    }
}

/// The value of an optional list of texts.
pub open spec fn opt_list(l: Option<Vec<String>>) -> Scalar {
    match l {
        None => Scalar::Null,
        Some(v) => Scalar::List(views(v@)),
    }
}

/// A copy of a list of texts.
pub fn clone_strings(v: &Vec<String>) -> (r: Vec<String>)
    ensures
        r@ == v@,
{
    let mut r: Vec<String> = Vec::new();
    let mut i: usize = 0;
    while i < v.len()
        invariant
            i <= v.len(),
            r@ == v@.take(i as int),
        decreases v.len() - i,
    {
        r.push(v[i].clone());
        proof {
            assert(v@.take(i + 1) =~= v@.take(i as int).push(v@[i as int]));
        }
        i = i + 1;
    }
    proof {
        assert(v@.take(v.len() as int) =~= v@);
    }
    r
}

/// A copy of an optional text.
pub fn clone_opt_string(s: &Option<String>) -> (r: Option<String>)
    ensures
        r == *s,
{
    match s {
        None => None,
        Some(t) => Some(t.clone()),
    }
}

/// A copy of an optional list of texts.
pub fn clone_opt_strings(l: &Option<Vec<String>>) -> (r: Option<Vec<String>>)
    ensures
        opt_list(r) == opt_list(*l),
        r.is_some() == l.is_some(),
        r.is_some() ==> r.unwrap()@ == l.unwrap()@,
{
    match l {
        None => None,
        Some(v) => Some(clone_strings(v)),
    }
}

impl Value {
    /// A copy of this value.
    pub fn duplicate(&self) -> (r: Value)
        ensures
            r@ == self@,
    {
        match self {
            Value::Null => Value::Null,
            Value::Int(i) => Value::Int(*i),
            Value::Text(s) => Value::Text(s.clone()),
            Value::List(l) => Value::List(clone_strings(l)),
        }
    }
}

impl Property {
    /// The property `name` holding a text.
    pub fn text(name: &str, s: &String) -> (p: Property)
        ensures
            p@ == (name@, Scalar::Text(s@)),
    {
        Property { name: String::from_str(name), value: Value::Text(s.clone()) }
    }

    /// The property `name` holding the text of a string slice.
    pub fn label(name: &str, s: &str) -> (p: Property)
        ensures
            p@ == (name@, Scalar::Text(s@)),
    {
        Property { name: String::from_str(name), value: Value::Text(String::from_str(s)) }
    }

    /// The property `name` holding a list of texts.
    pub fn list(name: &str, l: Vec<String>) -> (p: Property)
        ensures
            p@ == (name@, Scalar::List(views(l@))),
    {
        Property { name: String::from_str(name), value: Value::List(l) }
    }

    /// The property `name` holding a number.
    pub fn number(name: &str, i: i64) -> (p: Property)
        ensures
            p@ == (name@, Scalar::Int(i as int)),
    {
        Property { name: String::from_str(name), value: Value::Int(i) }
    }

    /// The property `name` holding a text, or nothing.
    pub fn maybe_text(name: &str, s: &Option<String>) -> (p: Property)
        ensures
            p@ == (name@, opt_text(*s)),
    {
        let value = match s {
            None => Value::Null,
            Some(t) => Value::Text(t.clone()),
        };
        Property { name: String::from_str(name), value }
    }

    /// The property `name` holding a number, or nothing.
    pub fn maybe_number(name: &str, i: &Option<i64>) -> (p: Property)
        ensures
            p@ == (name@, opt_int(*i)),
    {
        let value = match i {
            None => Value::Null,
            Some(n) => Value::Int(*n),
        };
        Property { name: String::from_str(name), value }
    }

    /// The property `name` holding a small number, or nothing.
    pub fn maybe_small(name: &str, i: &Option<i32>) -> (p: Property)
        ensures
            p@ == (name@, opt_small(*i)),
    {
        let value = match i {
            None => Value::Null,
            Some(n) => Value::Int(*n as i64),
        };
        Property { name: String::from_str(name), value }
    }

    /// The property `name` holding a list of texts, or nothing.
    pub fn maybe_list(name: &str, l: &Option<Vec<String>>) -> (p: Property)
        ensures
            p@ == (name@, opt_list(*l)),
    {
        let value = match l {
            None => Value::Null,
            Some(v) => Value::List(clone_strings(v)),
        };
        Property { name: String::from_str(name), value }
    }

    /// A copy of this property.
    pub fn duplicate(&self) -> (r: Property)
        ensures
            r@ == self@,
    {
        Property { name: self.name.clone(), value: self.value.duplicate() }
    }
}

/// A copy of a property list.
pub fn clone_props(props: &Vec<Property>) -> (r: Vec<Property>)
    ensures
        props_view(r@) == props_view(props@),
{
    let mut r: Vec<Property> = Vec::new();
    let mut i: usize = 0;
    while i < props.len()
        invariant
            i <= props.len(),
            props_view(r@) == props_view(props@.take(i as int)),
        decreases props.len() - i,
    {
        let p = props[i].duplicate();
        proof {
            assert(props@.take(i + 1) =~= props@.take(i as int).push(props@[i as int]));
            assert(props_view(r@.push(p)) =~= props_view(r@).push(p@));
            assert(props_view(props@.take(i as int).push(props@[i as int])) =~= props_view(
                props@.take(i as int),
            ).push(props@[i as int]@));
        }
        r.push(p);
        i = i + 1;
    }
    proof {
        assert(props@.take(props.len() as int) =~= props@);
    }
    r
}

/// Whether position `at` of a property list holds a text under `name`.
pub open spec fn named_text(p: Seq<(Seq<char>, Scalar)>, at: int, name: Seq<char>) -> bool {
    0 <= at < p.len() && p[at].0 == name && p[at].1 is Text
}

/// Whether position `at` of a property list holds a 64-bit number under `name`.
pub open spec fn named_number(p: Seq<(Seq<char>, Scalar)>, at: int, name: Seq<char>) -> bool {
    0 <= at < p.len() && p[at].0 == name && match p[at].1 {
        Scalar::Int(n) => i64::MIN <= n <= i64::MAX,
        _ => false,
    }
}

/// Whether position `at` of a property list holds a text or nothing under `name`.
pub open spec fn named_maybe_text(p: Seq<(Seq<char>, Scalar)>, at: int, name: Seq<char>) -> bool {
    0 <= at < p.len() && p[at].0 == name && (p[at].1 is Text || p[at].1 is Null)
}

/// Whether position `at` of a property list holds a 64-bit number or
/// nothing under `name`.
pub open spec fn named_maybe_number(p: Seq<(Seq<char>, Scalar)>, at: int, name: Seq<char>) -> bool {
    0 <= at < p.len() && p[at].0 == name && match p[at].1 {
        Scalar::Int(n) => i64::MIN <= n <= i64::MAX,
        Scalar::Null => true,
        _ => false,
    }
}

/// Whether position `at` of a property list holds a 32-bit number or
/// nothing under `name`.
pub open spec fn named_maybe_small(p: Seq<(Seq<char>, Scalar)>, at: int, name: Seq<char>) -> bool {
    0 <= at < p.len() && p[at].0 == name && match p[at].1 {
        Scalar::Int(n) => i32::MIN <= n <= i32::MAX,
        Scalar::Null => true,
        _ => false,
    }
}

/// Whether position `at` of a property list holds a list of texts or
/// nothing under `name`.
pub open spec fn named_maybe_list(p: Seq<(Seq<char>, Scalar)>, at: int, name: Seq<char>) -> bool {
    0 <= at < p.len() && p[at].0 == name && (p[at].1 is List || p[at].1 is Null)
}

/// Whether a property carries the given name.
pub fn has_name(p: &Property, name: &str) -> (b: bool)
    ensures
        b == (p.name@ == name@),
{
    let other = String::from_str(name);
    p.name == other
}

/// The text at position `at`, where a text stands there under `name`.
pub fn take_text(props: &Vec<Property>, at: usize, name: &str) -> (r: Option<String>)
    ensures
        r.is_some() == named_text(props_view(props@), at as int, name@),
        r.is_some() ==> props_view(props@)[at as int].1 == Scalar::Text(r.unwrap()@),
{
    if at >= props.len() || !has_name(&props[at], name) {
        return None;
    }
    match &props[at].value {
        Value::Text(s) => Some(s.clone()),
        _ => None,
    }
}

/// The number at position `at`, where a number stands there under `name`.
pub fn take_number(props: &Vec<Property>, at: usize, name: &str) -> (r: Option<i64>)
    ensures
        r.is_some() == named_number(props_view(props@), at as int, name@),
        r.is_some() ==> props_view(props@)[at as int].1 == Scalar::Int(r.unwrap() as int),
{
    if at >= props.len() || !has_name(&props[at], name) {
        return None;
    }
    match &props[at].value {
        Value::Int(n) => Some(*n),
        _ => None,
    }
}

/// The text or nothing at position `at`, where one of the two stands there
/// under `name`.
pub fn take_maybe_text(props: &Vec<Property>, at: usize, name: &str) -> (r: Option<Option<String>>)
    ensures
        r.is_some() == named_maybe_text(props_view(props@), at as int, name@),
        r.is_some() ==> props_view(props@)[at as int].1 == opt_text(r.unwrap()),
{
    if at >= props.len() || !has_name(&props[at], name) {
        return None;
    }
    match &props[at].value {
        Value::Text(s) => Some(Some(s.clone())),
        Value::Null => Some(None),
        _ => None,
    }
}

/// The number or nothing at position `at`, where one of the two stands
/// there under `name`.
pub fn take_maybe_number(props: &Vec<Property>, at: usize, name: &str) -> (r: Option<Option<i64>>)
    ensures
        r.is_some() == named_maybe_number(props_view(props@), at as int, name@),
        r.is_some() ==> props_view(props@)[at as int].1 == opt_int(r.unwrap()),
{
    if at >= props.len() || !has_name(&props[at], name) {
        return None;
    }
    match &props[at].value {
        Value::Int(n) => Some(Some(*n)),
        Value::Null => Some(None),
        _ => None,
    }
}

/// The small number or nothing at position `at`, where one of the two
/// stands there under `name`.
pub fn take_maybe_small(props: &Vec<Property>, at: usize, name: &str) -> (r: Option<Option<i32>>)
    ensures
        r.is_some() == named_maybe_small(props_view(props@), at as int, name@),
        r.is_some() ==> props_view(props@)[at as int].1 == opt_small(r.unwrap()),
{
    if at >= props.len() || !has_name(&props[at], name) {
        return None;
    }
    match &props[at].value {
        Value::Int(n) => {
            if *n < -2147483648 || *n > 2147483647 {
                None
            } else {
                Some(Some(*n as i32))
            }
        },
        Value::Null => Some(None),
        _ => None,
    }
}

/// The list or nothing at position `at`, where one of the two stands there
/// under `name`.
pub fn take_maybe_list(props: &Vec<Property>, at: usize, name: &str) -> (r: Option<Option<Vec<String>>>)
    ensures
        r.is_some() == named_maybe_list(props_view(props@), at as int, name@),
        r.is_some() ==> props_view(props@)[at as int].1 == opt_list(r.unwrap()),
{
    if at >= props.len() || !has_name(&props[at], name) {
        return None;
    }
    match &props[at].value {
        Value::List(l) => Some(Some(clone_strings(l))),
        Value::Null => Some(None),
        _ => None,
    }
}

} // verus!
