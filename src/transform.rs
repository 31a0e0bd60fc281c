use vstd::prelude::*;

use crate::property::PropertyLiteral;
use crate::geometry::{
    clamp64, clamp_i128, spec_compose, spec_identity, spec_translate, Affine, Size, UNIT,
    UNITS_PER_PERCENT,
};

verus! {

/// A rotation given by its cosine and sine, each in units of `UNIT`.
#[derive(Clone, Copy, PartialEq, Eq, Structural, Debug)]
pub struct Rotation {
    pub cos: i64,
    pub sin: i64,
}

impl Rotation {
    /// A rotation by `n` quarter turns.
    pub fn quarter_turns(n: u8) -> (r: Rotation)
        ensures
            n % 4 == 0 ==> r == (Rotation { cos: UNIT, sin: 0 }),
            n % 4 == 1 ==> r == (Rotation { cos: 0, sin: UNIT }),
            n % 4 == 2 ==> r == (Rotation { cos: (-UNIT) as i64, sin: 0 }),
            n % 4 == 3 ==> r == (Rotation { cos: 0, sin: (-UNIT) as i64 }),
    {
        let k = n % 4;
        if k == 0 {
            Rotation { cos: UNIT, sin: 0 }
        } else if k == 1 {
            Rotation { cos: 0, sin: UNIT }
        } else if k == 2 {
            Rotation { cos: -UNIT, sin: 0 }
        } else {
            Rotation { cos: 0, sin: -UNIT }
        }
    }
}

/// An authored transform: optional rotation, scale (in percent), translation
/// (in pixels), anchor and align, chained to the description it was composed onto.
#[derive(Debug)]
pub struct Transform2D {
    pub previous: Option<Box<Transform2D>>,
    pub rotate: Option<Rotation>,
    pub translate: Option<(i64, i64)>,
    pub anchor: Option<(Size, Size)>,
    pub align: Option<(Size, Size)>,
    pub scale: Option<(i64, i64)>,
}

pub open spec fn empty_transform() -> Transform2D {
    Transform2D { previous: None, rotate: None, translate: None, anchor: None, align: None, scale: None }
}

/// `l` set as the first link of the chain `r`.
pub open spec fn spec_chain(l: Transform2D, r: Transform2D) -> Transform2D
    decreases r,
{
    let inner = match r.previous {
        None => l,
        Some(p) => spec_chain(l, *p),
    };
    Transform2D {
        previous: Some(Box::new(inner)),
        rotate: r.rotate,
        translate: r.translate,
        anchor: r.anchor,
        align: r.align,
        scale: r.scale,
    }
}

/// Every align in the chain is given in percent.
pub open spec fn aligns_percent(t: Transform2D) -> bool
    decreases t,
{
    (match t.align {
        None => true,
        Some((x, y)) => x is Percent && y is Percent,
    }) && match t.previous {
        None => true,
        Some(p) => aligns_percent(*p),
    }
}

/// No link of the chain has an align.
pub open spec fn unaligned(t: Transform2D) -> bool
    decreases t,
{
    t.align is None && match t.previous {
        None => true,
        Some(p) => unaligned(*p),
    }
}

pub open spec fn negated(x: i64) -> i64 {
    clamp64(-(x as int))
}

/// The translation that moves the anchor point to the origin.
pub open spec fn anchor_matrix(t: Transform2D, node_size: (i64, i64)) -> Affine {
    match t.anchor {
        None => spec_identity(),
        Some((x, y)) => spec_translate(
            negated(x.spec_units(node_size.0 as int)),
            negated(y.spec_units(node_size.1 as int)),
        ),
    }
}

pub open spec fn rotation_matrix(r: Rotation) -> Affine {
    Affine { a: r.cos, b: r.sin, c: negated(r.sin), d: r.cos, e: 0, f: 0 }
}

pub open spec fn percent_units(p: i64) -> i64 {
    clamp64(p * UNITS_PER_PERCENT)
}

pub open spec fn pixel_units(p: i64) -> i64 {
    clamp64(p * UNIT)
}

/// Rotation, then scale, then translation, in that order of composition.
pub open spec fn local_matrix(t: Transform2D) -> Affine {
    let m0 = spec_identity();
    let m1 = match t.rotate {
        None => m0,
        Some(r) => spec_compose(m0, rotation_matrix(r)),
    };
    let m2 = match t.scale {
        None => m1,
        Some((x, y)) => spec_compose(
            m1,
            Affine { a: percent_units(x), b: 0, c: 0, d: percent_units(y), e: 0, f: 0 },
        ),
    };
    match t.translate {
        None => m2,
        Some((x, y)) => spec_compose(m2, spec_translate(pixel_units(x), pixel_units(y))),
    }
}

/// The offset of the origin within the container, for an align given in percent.
pub open spec fn align_matrix(al: (Size, Size), bounds: (i64, i64)) -> Affine {
    spec_translate(al.0.spec_units(bounds.0 as int), al.1.spec_units(bounds.1 as int))
}

/// The base matrix and the align offset of a chain.
pub open spec fn spec_matrices(t: Transform2D, node_size: (i64, i64), bounds: (i64, i64)) -> (
    Affine,
    Affine,
)
    decreases t,
{
    let prev = match t.previous {
        None => (spec_identity(), spec_identity()),
        Some(p) => spec_matrices(*p, node_size, bounds),
    };
    let align = match t.align {
        None => prev.1,
        Some(al) => align_matrix(al, bounds),
    };
    (spec_compose(spec_compose(anchor_matrix(t, node_size), local_matrix(t)), prev.0), align)
}

fn negate(x: i64) -> (r: i64)
    ensures
        r == negated(x),
{
    clamp_i128(-(x as i128))
}

impl Transform2D {
    pub fn identity() -> (r: Transform2D)
        ensures
            r == empty_transform(),
    {
        Transform2D { previous: None, rotate: None, translate: None, anchor: None, align: None, scale: None }
    }

    /// A scale by `x` and `y` percent.
    pub fn scale(x: i64, y: i64) -> (r: Transform2D)
        ensures
            r == (Transform2D { scale: Some((x, y)), ..empty_transform() }),
    {
        Transform2D { previous: None, rotate: None, translate: None, anchor: None, align: None, scale: Some((x, y)) }
    }

    pub fn rotate(z: Rotation) -> (r: Transform2D)
        ensures
            r == (Transform2D { rotate: Some(z), ..empty_transform() }),
    {
        Transform2D { previous: None, rotate: Some(z), translate: None, anchor: None, align: None, scale: None }
    }

    /// A translation by `x` and `y` pixels.
    pub fn translate(x: i64, y: i64) -> (r: Transform2D)
        ensures
            r == (Transform2D { translate: Some((x, y)), ..empty_transform() }),
    {
        Transform2D { previous: None, rotate: None, translate: Some((x, y)), anchor: None, align: None, scale: None }
    }

    /// Places the origin within the parent's bounds.
    pub fn align(x: Size, y: Size) -> (r: Transform2D)
        ensures
            r == (Transform2D { align: Some((x, y)), ..empty_transform() }),
    {
        Transform2D { previous: None, rotate: None, translate: None, anchor: None, align: Some((x, y)), scale: None }
    }

    /// Places the origin within the node's own bounds.
    pub fn anchor(x: Size, y: Size) -> (r: Transform2D)
        ensures
            r == (Transform2D { anchor: Some((x, y)), ..empty_transform() }),
    {
        Transform2D { previous: None, rotate: None, translate: None, anchor: Some((x, y)), align: None, scale: None }
    }

    /// A property cell holding the identity transform.
    pub fn default_wrapped() -> (r: PropertyLiteral<Transform2D>)
        ensures
            r.current() == empty_transform(),
            r.queue().len() == 0,
    {
        PropertyLiteral::new(Transform2D::identity())
    }

    /// A copy of this chain.
    pub fn duplicate(&self) -> (r: Transform2D)
        ensures
            r == *self,
        decreases *self,
    {
        let previous = match &self.previous {
            None => None,
            Some(p) => Some(Box::new(p.duplicate())),
        };
        Transform2D {
            previous,
            rotate: self.rotate,
            translate: self.translate,
            anchor: self.anchor,
            align: self.align,
            scale: self.scale,
        }
    }

    /// `self` followed by `rhs`: `self` becomes the first link of `rhs`'s chain.
    pub fn compose(self, rhs: Transform2D) -> (r: Transform2D)
        ensures
            r == spec_chain(self, rhs),
        decreases rhs,
    {
        let Transform2D { previous, rotate, translate, anchor, align, scale } = rhs;
        let inner = match previous {
            None => self,
            Some(p) => self.compose(*p),
        };
        Transform2D { previous: Some(Box::new(inner)), rotate, translate, anchor, align, scale }
    }

    /// Whether every align in the chain is given in percent.
    pub fn aligns_are_percent(&self) -> (r: bool)
        ensures
            r == aligns_percent(*self),
        decreases *self,
    {
        let own = match &self.align {
            None => true,
            Some((x, y)) => x.is_percent() && y.is_percent(),
        };
        own && match &self.previous {
            None => true,
            Some(p) => p.aligns_are_percent(),
        }
    }

    fn local_matrix(&self) -> (r: Affine)
        ensures
            r == local_matrix(*self),
    {
        let mut m = Affine::identity();
        if let Some(r) = &self.rotate {
            let rm = Affine::rotate(r.cos, r.sin);
            m = m.then_after(&rm);
        }
        if let Some((x, y)) = &self.scale {
            let sm = Affine::scale_non_uniform(
                Size::Percent(*x).get_units(1),
                Size::Percent(*y).get_units(1),
            );
            proof {
                assert(Size::Percent(*x).spec_units(1) == percent_units(*x)) by {
                    percent_of_one(*x);
                }
                assert(Size::Percent(*y).spec_units(1) == percent_units(*y)) by {
                    percent_of_one(*y);
                }
            }
            m = m.then_after(&sm);
        }
        if let Some((x, y)) = &self.translate {
            let tm = Affine::translate(Size::Pixels(*x).get_units(0), Size::Pixels(*y).get_units(0));
            m = m.then_after(&tm);
        }
        m
    }

    /// The base matrix of this chain for a node of `node_size` inside a container
    /// of `container_bounds`, and the align offset, taken from the nearest link
    /// that has an align.
    pub fn compute_transform_matrix(&self, node_size: (i64, i64), container_bounds: (i64, i64)) -> (r: (
        Affine,
        Affine,
    ))
        requires
            aligns_percent(*self),
        ensures
            r == spec_matrices(*self, node_size, container_bounds),
        decreases *self,
    {
        let anchor_transform = match &self.anchor {
            None => Affine::identity(),
            Some((x, y)) => Affine::translate(
                negate(x.get_units(node_size.0)),
                negate(y.get_units(node_size.1)),
            ),
        };
        let transform = self.local_matrix();
        let (previous_transform, previous_align) = match &self.previous {
            None => (Affine::identity(), Affine::identity()),
            Some(p) => p.compute_transform_matrix(node_size, container_bounds),
        };
        let align_component = match &self.align {
            None => previous_align,
            Some((x, y)) => Affine::translate(
                x.get_units(container_bounds.0),
                y.get_units(container_bounds.1),
            ),
        };
        let base = anchor_transform.then_after(&transform).then_after(&previous_transform);
        (base, align_component)
    }
}

proof fn percent_of_one(x: i64)
    ensures
        Size::Percent(x).spec_units(1) == percent_units(x),
{
}

impl Size {
    pub fn is_percent(&self) -> (r: bool)
        ensures
            r == (*self is Percent),
    {
        match self {
            Size::Percent(_) => true,
            Size::Pixels(_) => false,
        }
    }
}

/// Chaining is associative: `(a then b) then c` is the same chain as `a then (b then c)`.
pub proof fn lemma_chain_associative(a: Transform2D, b: Transform2D, c: Transform2D)
    ensures
        spec_chain(spec_chain(a, b), c) == spec_chain(a, spec_chain(b, c)),
    decreases c,
{
    match c.previous {
        None => {},
        Some(p) => {
            lemma_chain_associative(a, b, *p);
        },
    }
}

/// Composition is associative: for the same node size and container bounds,
/// `(a compose b) compose c` and `a compose (b compose c)` give identical matrices.
pub proof fn law_compose_associative(
    a: Transform2D,
    b: Transform2D,
    c: Transform2D,
    node_size: (i64, i64),
    container_bounds: (i64, i64),
)
    ensures
        spec_matrices(spec_chain(spec_chain(a, b), c), node_size, container_bounds)
            == spec_matrices(spec_chain(a, spec_chain(b, c)), node_size, container_bounds),
{
    lemma_chain_associative(a, b, c);
}

/// Links without an align, chained after `a`, leave `a`'s align offset in place.
pub proof fn lemma_unaligned_keeps_align(
    a: Transform2D,
    b: Transform2D,
    node_size: (i64, i64),
    bounds: (i64, i64),
)
    requires
        unaligned(b),
    ensures
        spec_matrices(spec_chain(a, b), node_size, bounds).1 == spec_matrices(a, node_size, bounds).1,
    decreases b,
{
    match b.previous {
        None => {},
        Some(p) => {
            lemma_unaligned_keeps_align(a, *p, node_size, bounds);
        },
    }
}

/// With an align set only on the first description of a chain, the align offset is
/// that align's percentages of the container bounds, however many unaligned
/// descriptions are composed after it.
pub proof fn law_align_from_first_link(
    a: Transform2D,
    b: Transform2D,
    node_size: (i64, i64),
    bounds: (i64, i64),
    x: i64,
    y: i64,
)
    requires
        a.align == Some((Size::Percent(x), Size::Percent(y))),
        unaligned(b),
    ensures
        spec_matrices(spec_chain(a, b), node_size, bounds).1 == spec_translate(
            clamp64(bounds.0 * x * UNITS_PER_PERCENT),
            clamp64(bounds.1 * y * UNITS_PER_PERCENT),
        ),
{
    lemma_unaligned_keeps_align(a, b, node_size, bounds);
}

} // verus!
