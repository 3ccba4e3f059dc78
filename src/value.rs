//! Field values behind one uniform representation, each tagged with the
//! declared type it belongs to.

use vstd::prelude::*;

verus! {

/// The declared type of a field.
#[derive(Clone, Copy, Debug, PartialEq, Eq, Structural)]
pub enum TypeTag {
    Int,
    UInt,
    Bool,
    Char,
    Str,
}

/// A field value with its runtime type tag.
#[derive(Clone, Debug, PartialEq, Eq)]
pub enum Value {
    Int(i64),
    UInt(u64),
    Bool(bool),
    Char(char),
    Str(String),
}

impl Value {
    /// The tag of the declared type that this value belongs to.
    pub open spec fn spec_tag(&self) -> TypeTag {
        match self {
            Value::Int(_) => TypeTag::Int,
            Value::UInt(_) => TypeTag::UInt,
            Value::Bool(_) => TypeTag::Bool,
            Value::Char(_) => TypeTag::Char,
            Value::Str(_) => TypeTag::Str,
        }
    }

    /// Whether this is the value that a freshly constructed field holds.
    pub open spec fn is_initial(&self) -> bool {
        match self {
            Value::Int(n) => *n == 0,
            Value::UInt(n) => *n == 0,
            Value::Bool(b) => !*b,
            Value::Char(c) => *c == '\0',
            Value::Str(s) => s@.len() == 0,
        }
    }

    pub fn tag(&self) -> (r: TypeTag)
        ensures
            r == self.spec_tag(),
    {
        match self {
            Value::Int(_) => TypeTag::Int,
            Value::UInt(_) => TypeTag::UInt,
            Value::Bool(_) => TypeTag::Bool,
            Value::Char(_) => TypeTag::Char,
            Value::Str(_) => TypeTag::Str,
        }
    }

    /// A copy of this value, equal to it.
    pub fn duplicate(&self) -> (r: Value)
        ensures
            r == *self,
    {
        match self {
            Value::Int(n) => Value::Int(*n),
            Value::UInt(n) => Value::UInt(*n),
            Value::Bool(b) => Value::Bool(*b),
            Value::Char(c) => Value::Char(*c),
            Value::Str(s) => Value::Str(s.clone()),
        }
    }

    /// The value that a freshly constructed field of the given type holds.
    pub fn initial(tag: TypeTag) -> (r: Value)
        ensures
            r.spec_tag() == tag,
            r.is_initial(),
    {
        match tag {
            TypeTag::Int => Value::Int(0),
            TypeTag::UInt => Value::UInt(0),
            TypeTag::Bool => Value::Bool(false),
            TypeTag::Char => Value::Char('\0'),
            TypeTag::Str => Value::Str(String::new()),
        }
    }
}

} // verus!
