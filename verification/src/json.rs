//! JSON documents as values, and the lookup of an object's fields.

use vstd::prelude::*;

verus! {

/// A JSON number. JSON does not tell integers from reals; a parser does, by
/// whether the numeral has a fraction or an exponent.
#[derive(Clone, Copy, Debug, PartialEq, Eq, Structural)]
pub enum Number {
    Integer(i128),
    /// A number with a fraction or an exponent, as the bits of the IEEE 754
    /// binary64 value nearest to it.
    Real(u64),
}

/// The bits of the binary64 value 100.
pub const HUNDRED_BITS: u64 = 0x4059_0000_0000_0000;

/// The bits of the binary64 value -0, which is as large as 0.
pub const NEGATIVE_ZERO_BITS: u64 = 0x8000_0000_0000_0000;

impl Number {
    /// Whether the number lies between 0 and 100, both included.
    ///
    /// Binary64 values that are not negative are ordered as their bits are,
    /// as unsigned integers, with the infinity and the NaNs above every
    /// number. A value with the sign bit set is negative, or is -0.
    pub open spec fn is_percentage(self) -> bool {
        match self {
            Number::Integer(n) => 0 <= n <= 100,
            Number::Real(bits) => bits <= HUNDRED_BITS || bits == NEGATIVE_ZERO_BITS,
        }
    }

    /// Tells whether the number lies between 0 and 100, both included.
    pub fn in_percent_range(&self) -> (b: bool)
        ensures
            b == self.is_percentage(),
    {
        match self {
            Number::Integer(n) => 0 <= *n && *n <= 100,
            Number::Real(bits) => *bits <= HUNDRED_BITS || *bits == NEGATIVE_ZERO_BITS,
        }
    }
}

/// One field of a JSON object.
#[derive(Debug, PartialEq, Eq)]
pub struct Member {
    pub name: String,
    pub value: Json,
}

/// A JSON document. An object keeps its fields in the order of the text, and
/// keeps fields of the same name apart.
#[derive(Debug, PartialEq, Eq)]
pub enum Json {
    Null,
    Boolean(bool),
    Number(Number),
    Text(String),
    List(Vec<Json>),
    Object(Vec<Member>),
}

/// A document is a mathematical value as it stands.
impl DeepView for Json {
    type V = Json;

    open spec fn deep_view(&self) -> Json {
        *self
    }
}

/// What looking for a name among the fields of an object can find.
pub enum Lookup<T> {
    /// No field has the name.
    Missing,
    /// More than one field has the name.
    Repeated,
    /// Exactly one field has the name, and this is its value.
    Found(T),
}

/// Whether the field at index `i` exists and has the name `name`.
pub open spec fn named(members: Seq<Member>, name: Seq<char>, i: int) -> bool {
    0 <= i < members.len() && members[i].name@ == name
}

/// The outcome of looking for `name` among `members`.
pub open spec fn lookup(members: Seq<Member>, name: Seq<char>) -> Lookup<Json> {
    if forall|i: int| !named(members, name, i) {
        Lookup::Missing
    } else {
        let i = choose|i: int| named(members, name, i);
        if forall|j: int| named(members, name, j) ==> j == i {
            Lookup::Found(members[i].value)
        } else {
            Lookup::Repeated
        }
    }
}

/// Looks for `name` among `members`.
pub fn find<'a>(members: &'a Vec<Member>, name: &str) -> (found: Lookup<&'a Json>)
    ensures
        match found {
            Lookup::Missing => lookup(members@, name@) is Missing,
            Lookup::Repeated => lookup(members@, name@) is Repeated,
            Lookup::Found(value) => lookup(members@, name@) == Lookup::Found(*value),
        },
{
    let wanted: String = String::from_str(name);
    let mut first: Option<usize> = None;
    let mut repeated: bool = false;
    let mut i: usize = 0;
    while i < members.len()
        invariant
            i <= members.len(),
            wanted@ == name@,
            first is None ==> !repeated && forall|j: int| 0 <= j < i ==> !named(members@, name@, j),
            first matches Some(f) ==> f < i && named(members@, name@, f as int),
            first matches Some(f) ==> (repeated <==> exists|j: int|
                0 <= j < i && j != f && named(members@, name@, j)),
        decreases members.len() - i,
    {
        if members[i].name == wanted {
            match first {
                None => {
                    first = Some(i);
                },
                Some(f) => {
                    repeated = true;
                    assert(i != f && named(members@, name@, i as int));
                },
            }
        }
        i = i + 1;
    }
    match first {
        None => Lookup::Missing,
        Some(f) => {
            if repeated {
                let ghost other = choose|j: int| 0 <= j < i && j != f && named(members@, name@, j);
                assert(named(members@, name@, other));
                Lookup::Repeated
            } else {
                assert forall|j: int| named(members@, name@, j) implies j == f by {
                    if j != f {
                        assert(0 <= j < i && j != f && named(members@, name@, j));
                    }
                }
                Lookup::Found(&members[f].value)
            }
        },
    }
}

} // verus!
