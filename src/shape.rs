//! Shape descriptors: the structural tokens that identify a family of
//! query expressions.
use vstd::prelude::*;

verus! {

/// A descriptor of an expression's shape.
///
/// A composite descriptor is a pair of its own type tag and the cons list of
/// its constituents' descriptors, so equal descriptors always come from equal
/// tags and equal constituents, in the same order.
#[derive(Debug)]
pub enum Shape {
    Unit,
    Tag(u64),
    Pair(Box<Shape>, Box<Shape>),
}

impl PartialEq for Shape {
    fn eq(&self, other: &Shape) -> (r: bool)
        decreases self,
    {
        match (self, other) {
            (Shape::Unit, Shape::Unit) => true,
            (Shape::Tag(a), Shape::Tag(b)) => *a == *b,
            (Shape::Pair(a1, b1), Shape::Pair(a2, b2)) => {
                let first = (**a1).eq(&**a2);
                first && (**b1).eq(&**b2)
            },
            _ => false,
        }
    }
}

impl vstd::std_specs::cmp::PartialEqSpecImpl for Shape {
    open spec fn obeys_eq_spec() -> bool {
        true
    }

    open spec fn eq_spec(&self, other: &Shape) -> bool {
        *self == *other
    }
}

impl Eq for Shape {
}

/// The cons list of the given descriptors, ending in `Unit`.
pub open spec fn shape_list(parts: Seq<Shape>) -> Shape
    decreases parts.len(),
{
    if parts.len() == 0 {
        Shape::Unit
    } else {
        Shape::Pair(Box::new(parts[0]), Box::new(shape_list(parts.drop_first())))
    }
}

/// The descriptor of a composite with type tag `tag` over the ordered
/// constituent descriptors `parts`.
pub open spec fn composite_shape(tag: u64, parts: Seq<Shape>) -> Shape {
    Shape::Pair(Box::new(Shape::Tag(tag)), Box::new(shape_list(parts)))
}

/// Two lists of descriptors give the same cons list only when they are equal.
pub proof fn lemma_shape_list_injective(a: Seq<Shape>, b: Seq<Shape>)
    ensures
        shape_list(a) == shape_list(b) <==> a == b,
    decreases a.len(),
{
    if a.len() == 0 && b.len() == 0 {
        assert(a =~= b);
    } else if shape_list(a) == shape_list(b) && a.len() > 0 && b.len() > 0 {
        lemma_shape_list_injective(a.drop_first(), b.drop_first());
        assert(a[0] == b[0]);
        assert(a.drop_first() == b.drop_first());
        assert(a =~= b) by {
            assert forall|i: int| 0 <= i < a.len() implies a[i] == b[i] by {
                if i > 0 {
                    assert(a[i] == a.drop_first()[i - 1]);
                    assert(b[i] == b.drop_first()[i - 1]);
                }
            }
        }
    }
}

/// Composite descriptors are equal exactly when their tags and their ordered
/// constituents are.
pub proof fn lemma_composite_injective(t1: u64, p1: Seq<Shape>, t2: u64, p2: Seq<Shape>)
    ensures
        composite_shape(t1, p1) == composite_shape(t2, p2) <==> (t1 == t2 && p1 == p2),
{
    lemma_shape_list_injective(p1, p2);
}

impl Shape {
    /// Builds the descriptor of a composite with type tag `tag` over the
    /// ordered constituent descriptors `parts`.
    pub fn composite(tag: u64, parts: Vec<Shape>) -> (r: Shape)
        ensures
            r == composite_shape(tag, parts@),
    {
        let ghost all = parts@;
        let mut rest = parts;
        let mut list = Shape::Unit;
        while rest.len() > 0
            invariant
                rest@.len() <= all.len(),
                rest@ == all.take(rest@.len() as int),
                list == shape_list(all.skip(rest@.len() as int)),
            decreases rest@.len(),
        {
            let ghost n = rest@.len() as int;
            let part = rest.pop().unwrap();
            assert(all.skip(n - 1).drop_first() =~= all.skip(n));
            assert(all.take(n - 1) =~= rest@);
            list = Shape::Pair(Box::new(part), Box::new(list));
        }
        assert(all.skip(0) =~= all);
        Shape::Pair(Box::new(Shape::Tag(tag)), Box::new(list))
    }
}

} // verus!
