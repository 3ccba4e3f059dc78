//! Accessors: for one field of one record type, a get and a set that work on
//! any instance through the uniform `Value` representation.

use crate::value::{TypeTag, Value};
use vstd::prelude::*;

verus! {

/// A record value of a reflected type: `record` names its type, and
/// `values` holds its fields in declaration order.
#[derive(Clone, Debug, PartialEq, Eq)]
pub struct Instance {
    pub record: String,
    pub values: Vec<Value>,
}

/// Why an access failed.
#[derive(Clone, Copy, Debug, PartialEq, Eq, Structural)]
pub enum AttrError {
    /// The value's tag is not the field's declared type.
    TypeMismatch,
    /// The instance is not of the accessor's owner type, or has no such field.
    WrongInstance,
}

/// The capability to read and write one field of one record type. It holds
/// no instance data.
#[derive(Clone, Debug, PartialEq, Eq)]
pub struct Accessor {
    owner: String,
    field: usize,
    tag: TypeTag,
}

impl Accessor {
    /// The name of the record type whose field this accessor reaches.
    pub closed spec fn owner_name(&self) -> Seq<char> {
        self.owner@
    }

    /// The position of the field among its type's fields.
    pub closed spec fn field_index(&self) -> nat {
        self.field as nat
    }

    /// The declared type of the field.
    pub closed spec fn spec_declared_type(&self) -> TypeTag {
        self.tag
    }

    /// `inst` is of the owner type and has the field.
    pub open spec fn targets(&self, inst: Instance) -> bool {
        inst.record@ == self.owner_name() && self.field_index() < inst.values@.len()
    }

    /// What `get` returns on `inst`.
    pub open spec fn spec_get(&self, inst: Instance) -> Result<Value, AttrError> {
        if self.targets(inst) {
            Ok(inst.values@[self.field_index() as int])
        } else {
            Err(AttrError::WrongInstance)
        }
    }

    /// `set` of `v` on `before` leaves `after` and returns `r`.
    pub open spec fn set_outcome(
        &self,
        before: Instance,
        v: Value,
        after: Instance,
        r: Result<(), AttrError>,
    ) -> bool {
        if !self.targets(before) {
            r == Err::<(), AttrError>(AttrError::WrongInstance) && after == before
        } else if v.spec_tag() != self.spec_declared_type() {
            r == Err::<(), AttrError>(AttrError::TypeMismatch) && after == before
        } else {
            &&& r == Ok::<(), AttrError>(())
            &&& after.record == before.record
            &&& after.values@ == before.values@.update(self.field_index() as int, v)
        }
    }

    /// The accessor for field number `field`, of type `tag`, of the record
    /// type named `owner`.
    pub fn new(owner: String, field: usize, tag: TypeTag) -> (r: Accessor)
        ensures
            r.owner_name() == owner@,
            r.field_index() == field,
            r.spec_declared_type() == tag,
    {
        Accessor { owner, field, tag }
    }

    pub fn owner(&self) -> (r: &str)
        ensures
            r@ == self.owner_name(),
    {
        self.owner.as_str()
    }

    pub fn field(&self) -> (r: usize)
        ensures
            r == self.field_index(),
    {
        self.field
    }

    pub fn declared_type(&self) -> (r: TypeTag)
        ensures
            r == self.spec_declared_type(),
    {
        self.tag
    }

    /// Reads the field of `inst`.
    pub fn get(&self, inst: &Instance) -> (r: Result<Value, AttrError>)
        ensures
            r == self.spec_get(*inst),
    {
        if inst.record == self.owner && self.field < inst.values.len() {
            Ok(inst.values[self.field].duplicate())
        } else {
            Err(AttrError::WrongInstance)
        }
    }

    /// Writes `v` into the field of `inst`, if `v` has the field's type.
    pub fn set(&self, inst: &mut Instance, v: Value) -> (r: Result<(), AttrError>)
        ensures
            self.set_outcome(*old(inst), v, *final(inst), r),
    {
        if !(inst.record == self.owner && self.field < inst.values.len()) {
            return Err(AttrError::WrongInstance);
        }
        if v.tag() != self.tag {
            return Err(AttrError::TypeMismatch);
        }
        inst.values.set(self.field, v);
        Ok(())
    }
}

/// A value written through an accessor, with the field's declared type, is
/// the value read back.
pub proof fn lemma_set_then_get(a: Accessor, before: Instance, v: Value, after: Instance, r: Result<(), AttrError>)
    requires
        a.targets(before),
        v.spec_tag() == a.spec_declared_type(),
        a.set_outcome(before, v, after, r),
    ensures
        r == Ok::<(), AttrError>(()),
        a.spec_get(after) == Ok::<Value, AttrError>(v),
{
}

/// Writing a value whose tag differs from the field's declared type fails
/// with `TypeMismatch` and leaves the instance as it was.
pub proof fn lemma_set_mismatch(a: Accessor, before: Instance, v: Value, after: Instance, r: Result<(), AttrError>)
    requires
        a.targets(before),
        v.spec_tag() != a.spec_declared_type(),
        a.set_outcome(before, v, after, r),
    ensures
        r == Err::<(), AttrError>(AttrError::TypeMismatch),
        after == before,
        a.spec_get(after) == a.spec_get(before),
{
}

} // verus!
