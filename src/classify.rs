//! Field descriptors: each declared field tagged mandatory or optional.
use vstd::prelude::*;
use crate::shape::{find_inner_type, inner_type_of, RawField};

verus! {

/// A field of the record, classified.
///
/// `inner_type` holds the wrapped type when the declared type is the optional
/// wrapper, and nothing when the field is mandatory.
pub struct FieldDescriptor {
    pub name: String,
    pub declared_type: String,
    pub inner_type: Option<String>,
}

impl FieldDescriptor {
    pub open spec fn optional(&self) -> bool {
        self.inner_type is Some
    }

    /// The type that the builder's setter takes and its slot wraps: the inner
    /// type of an optional field, the declared type of a mandatory one.
    pub open spec fn visible_type(&self) -> Seq<char> {
        match self.inner_type {
            Some(t) => t@,
            None => self.declared_type@,
        }
    }

    pub fn is_optional(&self) -> (r: bool)
        ensures
            r == self.optional(),
    {
        self.inner_type.is_some()
    }

    /// If the declared type is `Option<T>`, return `T`; otherwise the declared type.
    pub fn get_core_type(&self) -> (r: &String)
        ensures
            r@ == self.visible_type(),
    {
        match &self.inner_type {
            Some(t) => t,
            None => &self.declared_type,
        }
    }
}

/// `d` is the classification of the declared field `f`.
pub open spec fn describes(d: FieldDescriptor, f: RawField) -> bool {
    &&& d.name@ == f.name@
    &&& d.declared_type@ == f.ty.text@
    &&& match inner_type_of(f.ty) {
        Some(t) => d.inner_type is Some && d.inner_type->0@ == t.text@,
        None => d.inner_type is None,
    }
}

/// `ds` classifies `fs`, field by field and in order.
pub open spec fn describes_all(ds: Seq<FieldDescriptor>, fs: Seq<RawField>) -> bool {
    &&& ds.len() == fs.len()
    &&& forall|i: int| 0 <= i < fs.len() ==> describes(#[trigger] ds[i], fs[i])
}

/// Classifies one declared field.
pub fn describe_field(f: &RawField) -> (r: FieldDescriptor)
    ensures
        describes(r, *f),
{
    let inner_type = match find_inner_type(&f.ty) {
        Some(t) => Some(t.text.clone()),
        None => None,
    };
    FieldDescriptor { name: f.name.clone(), declared_type: f.ty.text.clone(), inner_type }
}

/// Classifies every declared field, keeping their order.
pub fn transform_fields(fields: &Vec<RawField>) -> (r: Vec<FieldDescriptor>)
    ensures
        describes_all(r@, fields@),
{
    let mut r: Vec<FieldDescriptor> = Vec::new();
    let mut i: usize = 0;
    while i < fields.len()
        invariant
            i <= fields@.len(),
            r@.len() == i,
            forall|j: int| 0 <= j < i ==> describes(#[trigger] r@[j], fields@[j]),
        decreases fields@.len() - i,
    {
        let d = describe_field(&fields[i]);
        r.push(d);
        i = i + 1;
    }
    r
}

} // verus!
