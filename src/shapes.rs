//! The shapes of type expressions, and which of them the subset admits.
use vstd::prelude::*;

verus! {

/// The structural form of a type expression, independent of what it names.
pub enum TypeShape {
    /// `[T; N]`.
    Array(Box<TypeShape>),
    /// `(T1, ..., Tn)`; the empty tuple is `()`.
    Tuple(Vec<TypeShape>),
    /// A named type, by its resolved path.
    Path(Vec<String>),
    /// `[T]`.
    Slice(Box<TypeShape>),
    /// `&T` or `&mut T`.
    Reference(Box<TypeShape>),
    /// `*const T` or `*mut T`.
    Pointer(Box<TypeShape>),
    /// `fn(..) -> ..`.
    FnPointer,
    /// `!`.
    Never,
    /// `dyn Trait`.
    TraitObject,
    /// `impl Trait`.
    Opaque,
    /// `_`.
    Infer,
    /// A type the front end could not make sense of.
    Malformed,
}

/// Arrays are allowed when their element type is, tuples when each component
/// is, named types always; every other shape is refused.
pub open spec fn type_allowed(t: TypeShape) -> bool
    decreases t,
{
    match t {
        TypeShape::Array(e) => type_allowed(*e),
        TypeShape::Tuple(ts) => all_types_allowed(ts@),
        TypeShape::Path(_) => true,
        _ => false,
    }
}

/// Each of `ts` has an allowed shape; true of the empty sequence.
pub open spec fn all_types_allowed(ts: Seq<TypeShape>) -> bool
    decreases ts,
{
    if ts.len() == 0 {
        true
    } else {
        type_allowed(ts[0]) && all_types_allowed(ts.drop_first())
    }
}

/// A sequence of shapes is allowed exactly when each of its members is.
pub proof fn lemma_all_types_allowed(ts: Seq<TypeShape>)
    ensures
        all_types_allowed(ts) <==> forall|i: int| 0 <= i < ts.len() ==> #[trigger] type_allowed(ts[i]),
    decreases ts.len(),
{
    if ts.len() > 0 {
        lemma_all_types_allowed(ts.drop_first());
        assert forall|i: int| 0 < i < ts.len() implies #[trigger] ts[i] == ts.drop_first()[i - 1] by {}
        if forall|i: int| 0 <= i < ts.len() ==> #[trigger] type_allowed(ts[i]) {
            assert forall|i: int| 0 <= i < ts.drop_first().len() implies #[trigger] type_allowed(ts.drop_first()[i]) by {
                assert(type_allowed(ts[i + 1]));
            }
            assert(type_allowed(ts[0]));
        }
        if all_types_allowed(ts) {
            assert forall|i: int| 0 <= i < ts.len() implies #[trigger] type_allowed(ts[i]) by {
                if i > 0 {
                    assert(type_allowed(ts.drop_first()[i - 1]));
                }
            }
        }
    }
}

/// Whether the type expression `t` has an allowed shape.
pub fn allowed_type(t: &TypeShape) -> (r: bool)
    ensures
        r == type_allowed(*t),
    decreases t,
{
    match t {
        TypeShape::Array(e) => allowed_type(e),
        TypeShape::Tuple(ts) => {
            let mut i: usize = 0;
            while i < ts.len()
                invariant
                    *t == TypeShape::Tuple(*ts),
                    0 <= i <= ts.len(),
                    forall|j: int| 0 <= j < i ==> #[trigger] type_allowed(ts@[j]),
                decreases ts.len() - i,
            {
                proof {
                    assert(decreases_to!(*t => t->Tuple_0));
                    assert(decreases_to!(*ts => ts@));
                    assert(decreases_to!(ts@ => ts@[i as int]));
                }
                if !allowed_type(&ts[i]) {
                    proof {
                        lemma_all_types_allowed(ts@);
                    }
                    return false;
                }
                i = i + 1;
            }
            proof {
                lemma_all_types_allowed(ts@);
            }
            true
        },
        TypeShape::Path(_) => true,
        _ => false,
    }
}

} // verus!
