use vstd::prelude::*;

verus! {

/// The number under which a type is known.
#[derive(Clone, Copy, Debug, PartialEq, Eq, Structural)]
pub struct TypeId(pub usize);

#[derive(Clone, Debug, PartialEq)]
pub struct TypeName(pub String);

/// A property of a type.
#[derive(Clone, Debug, PartialEq)]
pub struct Property {}

/// A type: its id, its name and its named properties.
pub struct Type {
    pub id: TypeId,
    pub name: TypeName,
    pub properties: std::collections::HashMap<String, Property>,
}

/// The ids of the types that every program knows, fixed in this order.
pub struct DefaultTypeIds {}

impl DefaultTypeIds {
    pub fn never() -> (r: TypeId)
        ensures
            r == TypeId(0),
    {
        TypeId(0)
    }

    pub fn any() -> (r: TypeId)
        ensures
            r == TypeId(1),
    {
        TypeId(1)
    }

    pub fn unit() -> (r: TypeId)
        ensures
            r == TypeId(2),
    {
        TypeId(2)
    }

    pub fn string() -> (r: TypeId)
        ensures
            r == TypeId(3),
    {
        TypeId(3)
    }

    pub fn number() -> (r: TypeId)
        ensures
            r == TypeId(4),
    {
        TypeId(4)
    }

    pub fn boolean() -> (r: TypeId)
        ensures
            r == TypeId(5),
    {
        TypeId(5)
    }
}

} // verus!
