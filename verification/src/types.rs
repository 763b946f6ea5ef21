//! Runtime descriptors for the shape of native values.
//!
//! A [`Type`] describes a native value as a primitive, a pointer, or an
//! aggregate of ordered fields. Primitive and pointer descriptors carry only
//! a tag; an aggregate owns the descriptors of its fields. A [`TypeArray`]
//! holds an ordered argument list with an explicit element count and can
//! produce, as an explicit view, the sentinel-terminated boundary form a
//! native calling engine expects; no internal logic depends on sentinel
//! scanning.

use vstd::prelude::*;

verus! {

/// The primitive kinds a native value can have, named by width.
///
/// The kinds tag floating-point and integer widths alike; a descriptor
/// carries no value of the described type, only this tag.
#[derive(Clone, Copy, PartialEq, Eq, Structural, Debug)]
pub enum PrimKind {
    Void,
    U8,
    I8,
    U16,
    I16,
    U32,
    I32,
    U64,
    I64,
    Usize,
    Isize,
    Float,
    Double,
}

/// The mathematical shape of a native value: the model of a [`Type`].
pub enum Shape {
    /// A primitive of the given kind.
    Prim { kind: PrimKind },
    /// An untyped pointer.
    Pointer,
    /// An aggregate of ordered fields.
    Aggregate { fields: Seq<Shape> },
}

/// A runtime descriptor of a native value's shape.
///
/// Primitive and pointer descriptors allocate nothing. An aggregate
/// descriptor owns its ordered field descriptors; the field order determines
/// the native layout, which a calling engine computes when an interface is
/// prepared. The field array of an aggregate is immutable after
/// construction.
#[derive(Debug)]
pub enum Type {
    /// A primitive of the given kind.
    Prim(PrimKind),
    /// An untyped pointer.
    Pointer,
    /// An aggregate owning its ordered field descriptors.
    Aggregate(Vec<Type>),
}

impl View for Type {
    type V = Shape;

    open spec fn view(&self) -> Shape {
        self.shape()
    }
}

impl Type {
    /// The shape this descriptor describes.
    pub open spec fn shape(self) -> Shape
        decreases self via Type::shape_decreases
    {
        match self {
            Type::Prim(kind) => Shape::Prim { kind },
            Type::Pointer => Shape::Pointer,
            Type::Aggregate(fields) => Shape::Aggregate { fields: Type::shapes(fields@) },
        }
    }

    #[via_fn]
    proof fn shape_decreases(self) {
        match self {
            Type::Aggregate(fields) => {
                assert(decreases_to!(self => fields));
                assert(decreases_to!(fields => fields@));
            },
            _ => {},
        }
    }

    /// The shapes of an ordered sequence of descriptors.
    pub open spec fn shapes(ts: Seq<Type>) -> Seq<Shape>
        decreases ts,
    {
        if ts.len() == 0 {
            Seq::empty()
        } else {
            Type::shapes(ts.subrange(0, ts.len() - 1)).push(ts[ts.len() - 1].shape())
        }
    }

    /// Returns the void type descriptor.
    pub fn void() -> (t: Type)
        ensures
            t@ == (Shape::Prim { kind: PrimKind::Void }),
    {
        Type::Prim(PrimKind::Void)
    }

    /// Returns the unsigned 8-bit integer type descriptor.
    pub fn u8() -> (t: Type)
        ensures
            t@ == (Shape::Prim { kind: PrimKind::U8 }),
    {
        Type::Prim(PrimKind::U8)
    }

    /// Returns the signed 8-bit integer type descriptor.
    pub fn i8() -> (t: Type)
        ensures
            t@ == (Shape::Prim { kind: PrimKind::I8 }),
    {
        Type::Prim(PrimKind::I8)
    }

    /// Returns the unsigned 16-bit integer type descriptor.
    pub fn u16() -> (t: Type)
        ensures
            t@ == (Shape::Prim { kind: PrimKind::U16 }),
    {
        Type::Prim(PrimKind::U16)
    }

    /// Returns the signed 16-bit integer type descriptor.
    pub fn i16() -> (t: Type)
        ensures
            t@ == (Shape::Prim { kind: PrimKind::I16 }),
    {
        Type::Prim(PrimKind::I16)
    }

    /// Returns the unsigned 32-bit integer type descriptor.
    pub fn u32() -> (t: Type)
        ensures
            t@ == (Shape::Prim { kind: PrimKind::U32 }),
    {
        Type::Prim(PrimKind::U32)
    }

    /// Returns the signed 32-bit integer type descriptor.
    pub fn i32() -> (t: Type)
        ensures
            t@ == (Shape::Prim { kind: PrimKind::I32 }),
    {
        Type::Prim(PrimKind::I32)
    }

    /// Returns the unsigned 64-bit integer type descriptor.
    pub fn u64() -> (t: Type)
        ensures
            t@ == (Shape::Prim { kind: PrimKind::U64 }),
    {
        Type::Prim(PrimKind::U64)
    }

    /// Returns the signed 64-bit integer type descriptor.
    pub fn i64() -> (t: Type)
        ensures
            t@ == (Shape::Prim { kind: PrimKind::I64 }),
    {
        Type::Prim(PrimKind::I64)
    }

    /// Returns the pointer-width unsigned integer type descriptor.
    pub fn usize() -> (t: Type)
        ensures
            t@ == (Shape::Prim { kind: PrimKind::Usize }),
    {
        Type::Prim(PrimKind::Usize)
    }

    /// Returns the pointer-width signed integer type descriptor.
    pub fn isize() -> (t: Type)
        ensures
            t@ == (Shape::Prim { kind: PrimKind::Isize }),
    {
        Type::Prim(PrimKind::Isize)
    }

    /// Returns the single-precision floating-point type descriptor.
    pub fn float() -> (t: Type)
        ensures
            t@ == (Shape::Prim { kind: PrimKind::Float }),
    {
        Type::Prim(PrimKind::Float)
    }

    /// Returns the double-precision floating-point type descriptor.
    pub fn double() -> (t: Type)
        ensures
            t@ == (Shape::Prim { kind: PrimKind::Double }),
    {
        Type::Prim(PrimKind::Double)
    }

    /// Returns the untyped pointer type descriptor.
    pub fn pointer() -> (t: Type)
        ensures
            t@ == Shape::Pointer,
    {
        Type::Pointer
    }

    /// The number of fields of an aggregate descriptor; a primitive or
    /// pointer descriptor has none.
    pub fn field_count(&self) -> (n: Option<usize>)
        ensures
            match self@ {
                Shape::Aggregate { fields } => (n matches Some(c) && c == fields.len()),
                _ => n is None,
            },
    {
        match self {
            Type::Aggregate(fields) => {
                proof {
                    lemma_shapes(fields@);
                }
                Some(fields.len())
            },
            _ => None,
        }
    }

    /// Produces the boundary-facing form of an aggregate's field list: every
    /// field descriptor in order, wrapped in `Some`, followed by a single
    /// `None` sentinel entry — the representation of a child array a native
    /// calling engine expects. A primitive or pointer descriptor has no
    /// field list, and `None` is returned for it.
    pub fn terminated_fields(&self) -> (r: Option<Vec<Option<Type>>>)
        ensures
            match self@ {
                Shape::Aggregate { fields } => (r matches Some(v) && v@.len() == fields.len() + 1
                    && (forall|i: int|
                    0 <= i < fields.len() ==> (#[trigger] v@[i] matches Some(t) && t@
                        == fields[i])) && v@[fields.len() as int] is None),
                _ => r is None,
            },
    {
        match self {
            Type::Aggregate(fields) => {
                proof {
                    lemma_shapes(fields@);
                }
                let mut v: Vec<Option<Type>> = Vec::new();
                let mut i: usize = 0;
                while i < fields.len()
                    invariant
                        i <= fields.len(),
                        v@.len() == i,
                        forall|j: int|
                            0 <= j < i ==> (#[trigger] v@[j] matches Some(t) && t@
                                == Type::shapes(fields@)[j]),
                        Type::shapes(fields@).len() == fields@.len(),
                        forall|j: int|
                            0 <= j < fields@.len() ==> Type::shapes(fields@)[j]
                                == fields@[j].shape(),
                    decreases fields.len() - i,
                {
                    v.push(Some(fields[i].clone()));
                    i += 1;
                }
                v.push(None);
                Some(v)
            },
            _ => None,
        }
    }

    /// Constructs an aggregate descriptor owning the given ordered fields.
    ///
    /// An aggregate of zero fields is accepted here; whether a degenerate
    /// aggregate is usable is decided only when a call interface is
    /// prepared from it, not at this layer.
    pub fn structure(fields: Vec<Type>) -> (t: Type)
        ensures
            t@ == (Shape::Aggregate { fields: Type::shapes(fields@) }),
    {
        Type::Aggregate(fields)
    }
}

impl Clone for Type {
    /// Deep-copies the descriptor: the copy describes the same shape, over
    /// field storage of its own.
    #[verifier::loop_isolation(false)]
    fn clone(&self) -> (r: Type)
        ensures
            r@ == self@,
        decreases self,
    {
        match self {
            Type::Prim(kind) => Type::Prim(*kind),
            Type::Pointer => Type::Pointer,
            Type::Aggregate(fields) => {
                let mut copy: Vec<Type> = Vec::new();
                let mut i: usize = 0;
                while i < fields.len()
                    invariant
                        i <= fields.len(),
                        copy@.len() == i,
                        forall|j: int| 0 <= j < i ==> copy@[j].shape() == fields@[j].shape(),
                    decreases fields.len() - i,
                {
                    proof {
                        assert(decreases_to!(*self => *fields));
                        assert(decreases_to!(*fields => fields@));
                        assert(decreases_to!(fields@ => fields@[i as int]));
                    }
                    copy.push(fields[i].clone());
                    i += 1;
                }
                proof {
                    lemma_shapes(copy@);
                    lemma_shapes(fields@);
                    assert(Type::shapes(copy@) =~= Type::shapes(fields@));
                }
                Type::Aggregate(copy)
            },
        }
    }
}

/// An owned, ordered argument-descriptor list with an explicit element
/// count.
///
/// A native calling engine expects such a list as a contiguous array
/// terminated by a null sentinel entry. The list is held here without the
/// sentinel; [`TypeArray::terminated`] produces the boundary-facing form,
/// appending the sentinel only there, so that no internal logic ever depends
/// on sentinel scanning.
#[derive(Debug)]
pub struct TypeArray {
    elems: Vec<Type>,
}

impl View for TypeArray {
    type V = Seq<Shape>;

    closed spec fn view(&self) -> Seq<Shape> {
        Type::shapes(self.elems@)
    }
}

impl TypeArray {
    /// Takes ownership of the ordered element descriptors.
    pub fn new(elems: Vec<Type>) -> (a: TypeArray)
        ensures
            a@ == Type::shapes(elems@),
    {
        TypeArray { elems }
    }

    /// The explicit element count; the sentinel of the boundary form is
    /// never part of it.
    pub fn len(&self) -> (n: usize)
        ensures
            n == self@.len(),
    {
        proof {
            lemma_shapes(self.elems@);
        }
        self.elems.len()
    }

    /// Produces the boundary-facing form of the list: every element in
    /// order, wrapped in `Some`, followed by a single `None` sentinel entry,
    /// as a native calling engine expects.
    pub fn terminated(&self) -> (v: Vec<Option<Type>>)
        ensures
            v@.len() == self@.len() + 1,
            forall|i: int| 0 <= i < self@.len() ==> (#[trigger] v@[i] matches Some(t) && t@ == self@[i]),
            v@[self@.len() as int] is None,
    {
        proof {
            lemma_shapes(self.elems@);
        }
        let mut v: Vec<Option<Type>> = Vec::new();
        let mut i: usize = 0;
        while i < self.elems.len()
            invariant
                i <= self.elems.len(),
                v@.len() == i,
                forall|j: int|
                    0 <= j < i ==> (#[trigger] v@[j] matches Some(t) && t@ == Type::shapes(self.elems@)[j]),
                Type::shapes(self.elems@).len() == self.elems@.len(),
                forall|j: int|
                    0 <= j < self.elems@.len() ==> Type::shapes(self.elems@)[j]
                        == self.elems@[j].shape(),
            decreases self.elems.len() - i,
        {
            v.push(Some(self.elems[i].clone()));
            i += 1;
        }
        v.push(None);
        v
    }
}

impl Clone for TypeArray {
    /// Deep-copies the list: the copy holds the same shapes in the same
    /// order, in storage of its own.
    fn clone(&self) -> (r: TypeArray)
        ensures
            r@ == self@,
    {
        let mut copy: Vec<Type> = Vec::new();
        let mut i: usize = 0;
        while i < self.elems.len()
            invariant
                i <= self.elems.len(),
                copy@.len() == i,
                forall|j: int| 0 <= j < i ==> copy@[j].shape() == self.elems@[j].shape(),
            decreases self.elems.len() - i,
        {
            copy.push(self.elems[i].clone());
            i += 1;
        }
        proof {
            lemma_shapes(copy@);
            lemma_shapes(self.elems@);
            assert(Type::shapes(copy@) =~= Type::shapes(self.elems@));
        }
        TypeArray { elems: copy }
    }
}

/// Accepts the fields of an aggregate descriptor incrementally, in order,
/// and finalizes them into an immutable aggregate [`Type`].
///
/// The builder itself accepts any number of fields, zero included; whether a
/// degenerate aggregate is usable is decided only when a call interface is
/// prepared from the finished descriptor.
pub struct Builder {
    fields: Vec<Type>,
}

impl View for Builder {
    type V = Seq<Shape>;

    closed spec fn view(&self) -> Seq<Shape> {
        Type::shapes(self.fields@)
    }
}

impl Builder {
    /// Starts an aggregate with no fields yet.
    pub fn new() -> (b: Builder)
        ensures
            b@ == Seq::<Shape>::empty(),
    {
        Builder { fields: Vec::new() }
    }

    /// Appends one field after those already accepted; the order of the
    /// calls is the native field order.
    pub fn field(self, t: Type) -> (b: Builder)
        ensures
            b@ == self@.push(t@),
    {
        let ghost before = self.fields@;
        let mut fields = self.fields;
        fields.push(t);
        proof {
            assert(fields@.subrange(0, fields@.len() - 1) =~= before);
        }
        Builder { fields }
    }

    /// Finalizes the accepted fields into an immutable aggregate
    /// descriptor.
    pub fn finish(self) -> (t: Type)
        ensures
            t@ == (Shape::Aggregate { fields: self@ }),
    {
        Type::Aggregate(self.fields)
    }
}

/// What the shapes of a descriptor sequence are, element by element: the
/// sequence of shapes has the same length, and each entry is the shape of
/// the descriptor at the same position.
pub proof fn lemma_shapes(ts: Seq<Type>)
    ensures
        Type::shapes(ts).len() == ts.len(),
        forall|i: int| 0 <= i < ts.len() ==> Type::shapes(ts)[i] == ts[i].shape(),
    decreases ts,
{
    if ts.len() > 0 {
        lemma_shapes(ts.subrange(0, ts.len() - 1));
    }
}

} // verus!
