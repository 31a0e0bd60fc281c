use std::rc::Rc;

use vstd::prelude::*;

use crate::geometry::Size;
use crate::transform::Transform2D;

verus! {

/// The properties of any component, in one shape.
pub enum PropertiesCoproduct {
    Empty,
    /// One item of a repetition: the repeated datum and its index.
    RepeatItem(Rc<PropertiesCoproduct>, usize),
    Integer(i64),
    Text(String),
}

/// The result of any expression, in one shape.
pub enum TypesCoproduct {
    Integer(i64),
    Bool(bool),
    Size(Size),
    Text(String),
    Transform(Transform2D),
}

impl PropertiesCoproduct {
    /// The index of a repetition item; other variants have none.
    pub fn repeat_index(&self) -> (r: Option<usize>)
        ensures
            r == (match *self {
                PropertiesCoproduct::RepeatItem(_, i) => Some(i),
                _ => None,
            }),
    {
        match self {
            PropertiesCoproduct::RepeatItem(_, i) => Some(*i),
            _ => None,
        }
    }

    /// The index of a repetition item. Any other variant here means the glue code
    /// and the runtime disagree on shapes, which is fatal.
    pub fn expect_repeat_index(&self) -> (r: usize)
        requires
            *self is RepeatItem,
        ensures
            r == self->RepeatItem_1,
    {
        match self {
            PropertiesCoproduct::RepeatItem(_, i) => *i,
            _ => 0,
        }
    }

    /// The repeated datum of a repetition item.
    pub fn repeat_datum(&self) -> (r: Option<Rc<PropertiesCoproduct>>)
        ensures
            r == (match *self {
                PropertiesCoproduct::RepeatItem(d, _) => Some(d),
                _ => None,
            }),
    {
        match self {
            PropertiesCoproduct::RepeatItem(d, _) => Some(Rc::clone(d)),
            _ => None,
        }
    }
}

impl TypesCoproduct {
    /// The transform this result holds, if it is one.
    pub fn as_transform(&self) -> (r: Option<Transform2D>)
        ensures
            r == (match *self {
                TypesCoproduct::Transform(t) => Some(t),
                _ => None,
            }),
    {
        match self {
            TypesCoproduct::Transform(t) => Some(t.duplicate()),
            _ => None,
        }
    }

    /// The size this result holds, if it is one.
    pub fn as_size(&self) -> (r: Option<Size>)
        ensures
            r == (match *self {
                TypesCoproduct::Size(v) => Some(v),
                _ => None,
            }),
    {
        match self {
            TypesCoproduct::Size(v) => Some(*v),
            _ => None,
        }
    }

    /// The text this result holds, if it is one.
    pub fn as_text(&self) -> (r: Option<String>)
        ensures
            r == (match *self {
                TypesCoproduct::Text(v) => Some(v),
                _ => None,
            }),
    {
        match self {
            TypesCoproduct::Text(v) => Some(v.clone()),
            _ => None,
        }
    }

    /// The integer an expression computed. Another variant is fatal.
    pub fn expect_integer(self) -> (r: i64)
        requires
            self is Integer,
        ensures
            r == self->Integer_0,
    {
        match self {
            TypesCoproduct::Integer(v) => v,
            _ => 0,
        }
    }

    /// The size an expression computed. Another variant is fatal.
    pub fn expect_size(self) -> (r: Size)
        requires
            self is Size,
        ensures
            r == self->Size_0,
    {
        match self {
            TypesCoproduct::Size(v) => v,
            _ => Size::Pixels(0),
        }
    }

    /// The text an expression computed. Another variant is fatal.
    pub fn expect_text(self) -> (r: String)
        requires
            self is Text,
        ensures
            r == self->Text_0,
    {
        match self {
            TypesCoproduct::Text(v) => v,
            _ => String::new(),
        }
    }

    /// The transform an expression computed. Another variant is fatal.
    pub fn expect_transform(self) -> (r: Transform2D)
        requires
            self is Transform,
        ensures
            r == self->Transform_0,
    {
        match self {
            TypesCoproduct::Transform(v) => v,
            _ => Transform2D::identity(),
        }
    }
}

/// Arguments shared by all primitives at instantiation.
pub struct PrimitiveArgs {}

/// Marker for nodes that take part in the mount lifecycle.
pub trait LifecycleNode {}

} // verus!
