//! The rules by which JSON values become typed fields.
//!
//! A struct is decoded from a JSON object. Fields the struct does not know
//! are ignored. A field the struct knows must occur at most once; a required
//! one must occur. A value of another JSON type than the field's, or an
//! integer too large for it, is an error, and the error says where in the
//! document the value stands.

use vstd::prelude::*;
use crate::error::{DecodeError, DecodeErrorKind, DecodeErrorView};
use crate::json::{find, lookup, Json, Lookup, Member, Number};
use crate::text::{decimal_nat, push_decimal_nat};

verus! {

/// The path of the field `name` of the object at `prefix`. Fields of the
/// document itself, whose path is empty, are named without a dot in front.
pub open spec fn field_path(prefix: Seq<char>, name: Seq<char>) -> Seq<char> {
    if prefix.len() == 0 {
        name
    } else {
        prefix + seq!['.'] + name
    }
}

/// The path of the element at `index` of the list at `prefix`.
pub open spec fn index_path(prefix: Seq<char>, index: nat) -> Seq<char> {
    prefix + seq!['['] + decimal_nat(index) + seq![']']
}

/// A decode error of the given kind at the given path.
pub open spec fn failure(path: Seq<char>, kind: DecodeErrorKind) -> DecodeErrorView {
    DecodeErrorView { path, kind }
}

/// The result of a decoder as a mathematical value.
pub open spec fn outcome<T: DeepView>(r: Result<T, DecodeError>) -> Result<T::V, DecodeErrorView> {
    match r {
        Ok(value) => Ok(value.deep_view()),
        Err(e) => Err(e.deep_view()),
    }
}

/// Attaches a path to the error of a decoder that looks at one value only.
pub open spec fn located<T>(r: Result<T, DecodeErrorKind>, path: Seq<char>) -> Result<
    T,
    DecodeErrorView,
> {
    match r {
        Ok(value) => Ok(value),
        Err(kind) => Err(failure(path, kind)),
    }
}

/// Builds the path of a field.
pub fn join_field(prefix: &str, name: &str) -> (path: String)
    ensures
        path@ == field_path(prefix@, name@),
{
    if prefix.is_empty() {
        String::from_str(name)
    } else {
        proof {
            reveal_strlit(".");
        }
        let mut path: String = String::from_str(prefix);
        path.append(".");
        path.append(name);
        assert(path@ =~= field_path(prefix@, name@));
        path
    }
}

/// Builds the path of a list element.
pub fn join_index(prefix: &str, index: usize) -> (path: String)
    ensures
        path@ == index_path(prefix@, index as nat),
{
    proof {
        reveal_strlit("[");
        reveal_strlit("]");
    }
    let mut path: String = String::from_str(prefix);
    path.append("[");
    push_decimal_nat(&mut path, index as u64);
    path.append("]");
    assert(path@ =~= index_path(prefix@, index as nat));
    path
}

/// Builds the error for the field `name` of the object at `prefix`.
pub fn field_error(prefix: &str, name: &str, kind: DecodeErrorKind) -> (e: DecodeError)
    ensures
        e.deep_view() == failure(field_path(prefix@, name@), kind),
{
    DecodeError { path: join_field(prefix, name), kind }
}

/// Builds the error for the value at `path`.
pub fn value_error(path: &str, kind: DecodeErrorKind) -> (e: DecodeError)
    ensures
        e.deep_view() == failure(path@, kind),
{
    DecodeError { path: String::from_str(path), kind }
}

/// The value of a field that must be there exactly once.
pub open spec fn required_field(members: Seq<Member>, name: Seq<char>, prefix: Seq<char>) -> Result<
    Json,
    DecodeErrorView,
> {
    match lookup(members, name) {
        Lookup::Missing => Err(failure(field_path(prefix, name), DecodeErrorKind::Missing)),
        Lookup::Repeated => Err(failure(field_path(prefix, name), DecodeErrorKind::Repeated)),
        Lookup::Found(value) => Ok(value),
    }
}

/// The value of a field that may be left out. A field that is there with the
/// value `null` counts as left out.
pub open spec fn optional_field(members: Seq<Member>, name: Seq<char>, prefix: Seq<char>) -> Result<
    Option<Json>,
    DecodeErrorView,
> {
    match lookup(members, name) {
        Lookup::Missing => Ok(None),
        Lookup::Repeated => Err(failure(field_path(prefix, name), DecodeErrorKind::Repeated)),
        Lookup::Found(value) => if value is Null {
            Ok(None)
        } else {
            Ok(Some(value))
        },
    }
}

/// Finds a field that must be there exactly once.
pub fn get_required<'a>(members: &'a Vec<Member>, name: &str, prefix: &str) -> (r: Result<
    &'a Json,
    DecodeError,
>)
    ensures
        match r {
            Ok(value) => required_field(members@, name@, prefix@) == Ok::<Json, DecodeErrorView>(
                *value,
            ),
            Err(e) => required_field(members@, name@, prefix@) == Err::<Json, DecodeErrorView>(
                e.deep_view(),
            ),
        },
{
    match find(members, name) {
        Lookup::Missing => Err(field_error(prefix, name, DecodeErrorKind::Missing)),
        Lookup::Repeated => Err(field_error(prefix, name, DecodeErrorKind::Repeated)),
        Lookup::Found(value) => Ok(value),
    }
}

/// Finds a field that may be left out.
pub fn get_optional<'a>(members: &'a Vec<Member>, name: &str, prefix: &str) -> (r: Result<
    Option<&'a Json>,
    DecodeError,
>)
    ensures
        match r {
            Ok(Some(value)) => optional_field(members@, name@, prefix@) == Ok::<
                Option<Json>,
                DecodeErrorView,
            >(Some(*value)),
            Ok(None) => optional_field(members@, name@, prefix@) == Ok::<
                Option<Json>,
                DecodeErrorView,
            >(None),
            Err(e) => optional_field(members@, name@, prefix@) == Err::<
                Option<Json>,
                DecodeErrorView,
            >(e.deep_view()),
        },
{
    match find(members, name) {
        Lookup::Missing => Ok(None),
        Lookup::Repeated => Err(field_error(prefix, name, DecodeErrorKind::Repeated)),
        Lookup::Found(value) => match value {
            Json::Null => Ok(None),
            _ => Ok(Some(value)),
        },
    }
}

/// A JSON string as text.
pub open spec fn text_of(value: Json) -> Result<Seq<char>, DecodeErrorKind> {
    match value {
        Json::Text(s) => Ok(s@),
        _ => Err(DecodeErrorKind::WrongType),
    }
}

/// A JSON boolean.
pub open spec fn boolean_of(value: Json) -> Result<bool, DecodeErrorKind> {
    match value {
        Json::Boolean(b) => Ok(b),
        _ => Err(DecodeErrorKind::WrongType),
    }
}

/// A JSON integer between `least` and `greatest`. A number with a fraction or
/// an exponent is no integer, whatever its value.
pub open spec fn integer_of(value: Json, least: int, greatest: int) -> Result<int, DecodeErrorKind> {
    match value {
        Json::Number(Number::Integer(n)) => if least <= n <= greatest {
            Ok(n as int)
        } else {
            Err(DecodeErrorKind::OutOfRange)
        },
        _ => Err(DecodeErrorKind::WrongType),
    }
}

/// A JSON number, integer or not.
pub open spec fn number_of(value: Json) -> Result<Number, DecodeErrorKind> {
    match value {
        Json::Number(n) => Ok(n),
        _ => Err(DecodeErrorKind::WrongType),
    }
}

/// A required field that holds a string.
pub open spec fn text_field(members: Seq<Member>, name: Seq<char>, prefix: Seq<char>) -> Result<
    Seq<char>,
    DecodeErrorView,
> {
    match required_field(members, name, prefix) {
        Ok(value) => located(text_of(value), field_path(prefix, name)),
        Err(e) => Err(e),
    }
}

/// A required field that holds a boolean.
pub open spec fn boolean_field(members: Seq<Member>, name: Seq<char>, prefix: Seq<char>) -> Result<
    bool,
    DecodeErrorView,
> {
    match required_field(members, name, prefix) {
        Ok(value) => located(boolean_of(value), field_path(prefix, name)),
        Err(e) => Err(e),
    }
}

/// A required field that holds a signed 32-bit integer.
pub open spec fn i32_field(members: Seq<Member>, name: Seq<char>, prefix: Seq<char>) -> Result<
    i32,
    DecodeErrorView,
> {
    match required_field(members, name, prefix) {
        Ok(value) => match integer_of(value, i32::MIN as int, i32::MAX as int) {
            Ok(n) => Ok(n as i32),
            Err(kind) => Err(failure(field_path(prefix, name), kind)),
        },
        Err(e) => Err(e),
    }
}

/// A required field that holds a signed 16-bit integer.
pub open spec fn i16_field(members: Seq<Member>, name: Seq<char>, prefix: Seq<char>) -> Result<
    i16,
    DecodeErrorView,
> {
    match required_field(members, name, prefix) {
        Ok(value) => match integer_of(value, i16::MIN as int, i16::MAX as int) {
            Ok(n) => Ok(n as i16),
            Err(kind) => Err(failure(field_path(prefix, name), kind)),
        },
        Err(e) => Err(e),
    }
}

/// A required field that holds a number.
pub open spec fn number_field(members: Seq<Member>, name: Seq<char>, prefix: Seq<char>) -> Result<
    Number,
    DecodeErrorView,
> {
    match required_field(members, name, prefix) {
        Ok(value) => located(number_of(value), field_path(prefix, name)),
        Err(e) => Err(e),
    }
}

/// Decodes a required field that holds a string.
pub fn decode_text(members: &Vec<Member>, name: &str, prefix: &str) -> (r: Result<
    String,
    DecodeError,
>)
    ensures
        outcome(r) == text_field(members@, name@, prefix@),
{
    match get_required(members, name, prefix)? {
        Json::Text(s) => Ok(s.clone()),
        _ => Err(field_error(prefix, name, DecodeErrorKind::WrongType)),
    }
}

/// Decodes a required field that holds a boolean.
pub fn decode_boolean(members: &Vec<Member>, name: &str, prefix: &str) -> (r: Result<
    bool,
    DecodeError,
>)
    ensures
        outcome(r) == boolean_field(members@, name@, prefix@),
{
    match get_required(members, name, prefix)? {
        Json::Boolean(b) => Ok(*b),
        _ => Err(field_error(prefix, name, DecodeErrorKind::WrongType)),
    }
}

/// Decodes a required field that holds a signed 32-bit integer.
pub fn decode_i32(members: &Vec<Member>, name: &str, prefix: &str) -> (r: Result<i32, DecodeError>)
    ensures
        outcome(r) == i32_field(members@, name@, prefix@),
{
    match get_required(members, name, prefix)? {
        Json::Number(Number::Integer(n)) => {
            if -2147483648 <= *n && *n <= 2147483647 {
                Ok(*n as i32)
            } else {
                Err(field_error(prefix, name, DecodeErrorKind::OutOfRange))
            }
        },
        _ => Err(field_error(prefix, name, DecodeErrorKind::WrongType)),
    }
}

/// Decodes a required field that holds a signed 16-bit integer.
pub fn decode_i16(members: &Vec<Member>, name: &str, prefix: &str) -> (r: Result<i16, DecodeError>)
    ensures
        outcome(r) == i16_field(members@, name@, prefix@),
{
    match get_required(members, name, prefix)? {
        Json::Number(Number::Integer(n)) => {
            if -32768 <= *n && *n <= 32767 {
                Ok(*n as i16)
            } else {
                Err(field_error(prefix, name, DecodeErrorKind::OutOfRange))
            }
        },
        _ => Err(field_error(prefix, name, DecodeErrorKind::WrongType)),
    }
}

/// Decodes a required field that holds a number.
pub fn decode_number(members: &Vec<Member>, name: &str, prefix: &str) -> (r: Result<
    Number,
    DecodeError,
>)
    ensures
        match r {
            Ok(n) => number_field(members@, name@, prefix@) == Ok::<Number, DecodeErrorView>(n),
            Err(e) => number_field(members@, name@, prefix@) == Err::<Number, DecodeErrorView>(
                e.deep_view(),
            ),
        },
{
    match get_required(members, name, prefix)? {
        Json::Number(n) => Ok(*n),
        _ => Err(field_error(prefix, name, DecodeErrorKind::WrongType)),
    }
}

/// Whether `k` is the index of the first error among `outcomes`.
pub open spec fn first_error<T, E>(outcomes: Seq<Result<T, E>>, k: int) -> bool {
    &&& 0 <= k < outcomes.len()
    &&& outcomes[k] is Err
    &&& forall|j: int| 0 <= j < k ==> outcomes[j] is Ok
}

/// The outcome of decoding a list from the outcomes of its elements: the
/// decoded elements in order where none failed, else the error of the first
/// element that did.
pub open spec fn gather<T, E>(outcomes: Seq<Result<T, E>>) -> Result<Seq<T>, E> {
    if exists|k: int| first_error(outcomes, k) {
        let k = choose|k: int| first_error(outcomes, k);
        Err(outcomes[k]->Err_0)
    } else {
        Ok(Seq::new(outcomes.len(), |k: int| outcomes[k]->Ok_0))
    }
}

/// A list whose elements up to `k` decode and whose element `k` does not
/// fails with the error of element `k`.
pub proof fn lemma_gather_error<T, E>(outcomes: Seq<Result<T, E>>, k: int)
    requires
        first_error(outcomes, k),
    ensures
        gather(outcomes) == Err::<Seq<T>, E>(outcomes[k]->Err_0),
{
    let c = choose|c: int| first_error(outcomes, c);
    if c < k {
        assert(outcomes[c] is Ok);
    } else if k < c {
        assert(outcomes[k] is Ok);
    }
}

/// A list whose elements all decode gives the decoded elements in order.
pub proof fn lemma_gather_values<T, E>(outcomes: Seq<Result<T, E>>, values: Seq<T>)
    requires
        outcomes.len() == values.len(),
        forall|k: int| 0 <= k < outcomes.len() ==> outcomes[k] == Ok::<T, E>(values[k]),
    ensures
        gather(outcomes) == Ok::<Seq<T>, E>(values),
{
    assert forall|k: int| !first_error(outcomes, k) by {
        if 0 <= k < outcomes.len() {
            assert(outcomes[k] == Ok::<T, E>(values[k]));
        }
    }
    assert(Seq::new(outcomes.len(), |k: int| outcomes[k]->Ok_0) =~= values);
}

/// The outcomes of decoding each element of a list as a string.
pub open spec fn text_outcomes(items: Seq<Json>, path: Seq<char>) -> Seq<
    Result<Seq<char>, DecodeErrorView>,
> {
    Seq::new(items.len(), |k: int| located(text_of(items[k]), index_path(path, k as nat)))
}

/// A JSON list of strings, standing at `path`.
pub open spec fn text_list_of(value: Json, path: Seq<char>) -> Result<
    Seq<Seq<char>>,
    DecodeErrorView,
> {
    match value {
        Json::List(items) => gather(text_outcomes(items@, path)),
        _ => Err(failure(path, DecodeErrorKind::WrongType)),
    }
}

/// A field that holds a list of strings and may be left out.
pub open spec fn optional_text_list_field(
    members: Seq<Member>,
    name: Seq<char>,
    prefix: Seq<char>,
) -> Result<Option<Seq<Seq<char>>>, DecodeErrorView> {
    match optional_field(members, name, prefix) {
        Ok(Some(value)) => match text_list_of(value, field_path(prefix, name)) {
            Ok(list) => Ok(Some(list)),
            Err(e) => Err(e),
        },
        Ok(None) => Ok(None),
        Err(e) => Err(e),
    }
}

/// Decodes a JSON list of strings that stands at `path`.
pub fn decode_text_list(value: &Json, path: &str) -> (r: Result<Vec<String>, DecodeError>)
    ensures
        outcome(r) == text_list_of(*value, path@),
{
    match value {
        Json::List(items) => {
            let ghost outcomes = text_outcomes(items@, path@);
            let mut list: Vec<String> = Vec::new();
            let mut k: usize = 0;
            while k < items.len()
                invariant
                    k <= items.len(),
                    outcomes == text_outcomes(items@, path@),
                    text_list_of(*value, path@) == gather(outcomes),
                    list.len() == k,
                    forall|j: int|
                        0 <= j < k ==> #[trigger] outcomes[j] == Ok::<Seq<char>, DecodeErrorView>(
                            list[j]@,
                        ),
                decreases items.len() - k,
            {
                match &items[k] {
                    Json::Text(s) => {
                        list.push(s.clone());
                    },
                    _ => {
                        let e = DecodeError {
                            path: join_index(path, k),
                            kind: DecodeErrorKind::WrongType,
                        };
                        proof {
                            assert(outcomes[k as int] == Err::<Seq<char>, DecodeErrorView>(
                                e.deep_view(),
                            ));
                            lemma_gather_error(outcomes, k as int);
                        }
                        return Err(e);
                    },
                }
                k = k + 1;
            }
            proof {
                lemma_gather_values(outcomes, list.deep_view());
            }
            Ok(list)
        },
        _ => Err(value_error(path, DecodeErrorKind::WrongType)),
    }
}

/// Decodes a field that holds a list of strings and may be left out.
pub fn decode_optional_text_list(members: &Vec<Member>, name: &str, prefix: &str) -> (r: Result<
    Option<Vec<String>>,
    DecodeError,
>)
    ensures
        outcome(r) == optional_text_list_field(members@, name@, prefix@),
{
    match get_optional(members, name, prefix)? {
        Some(value) => {
            let path: String = join_field(prefix, name);
            let list: Vec<String> = decode_text_list(value, path.as_str())?;
            Ok(Some(list))
        },
        None => Ok(None),
    }
}

} // verus!
