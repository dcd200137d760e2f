use vstd::prelude::*;

use crate::types::{PtrKind, Ty};

verus! {

/// Why a reinterpretation was refused.
#[derive(Clone, Copy, PartialEq, Eq, Structural, Debug)]
pub enum CastError {
    /// The two types do not carry one and the same identity.
    NotInterchangeable,
    /// One of the two types is an unsized placeholder, which cannot be held
    /// by value.
    Unsized,
    /// The types share an identity but differ in size: two different
    /// complete types claim that identity. The program is already
    /// type-confused; a caller must stop rather than go on.
    SizeMismatch,
}

/// The bits of a runtime value: the address held by a pointer or
/// reference, or the bytes of a complete value.
#[derive(Debug)]
pub enum Value {
    Addr(usize),
    Bytes(Vec<u8>),
}

/// A value together with the type it is read as.
#[derive(Debug)]
pub struct TypedValue {
    pub ty: Ty,
    pub value: Value,
}

/// Reinterprets `x` from a type of `from_size` bytes as a type of `to_size`
/// bytes, keeping every bit. Equal sizes are checked here, at the moment of
/// conversion; a mismatch is reported and nothing is reinterpreted.
pub fn transmute_checksize(x: Value, from_size: usize, to_size: usize) -> (r: Result<
    Value,
    CastError,
>)
    ensures
        r == (if from_size == to_size {
            Ok::<Value, CastError>(x)
        } else {
            Err(CastError::SizeMismatch)
        }),
{
    if from_size != to_size {
        return Err(CastError::SizeMismatch);
    }
    Ok(x)
}

/// The outcome of reinterpreting a value of type `from` as type `to`.
pub open spec fn cast_outcome(from: Ty, to: Ty) -> Result<(), CastError> {
    if !from.spec_interchangeable(to) {
        Err(CastError::NotInterchangeable)
    } else if from.spec_size() is None || to.spec_size() is None {
        Err(CastError::Unsized)
    } else if from.spec_size() != to.spec_size() {
        Err(CastError::SizeMismatch)
    } else {
        Ok(())
    }
}

/// Conversion between types that carry the same identity: complete to
/// incomplete, incomplete to complete, or between two placeholders.
pub trait IncompleteCast<T>: Sized {
    spec fn cast_spec(self, target: Ty) -> Result<T, CastError>;

    /// Reinterprets `self` as a value of type `target`.
    fn incomplete_cast(self, target: Ty) -> (r: Result<T, CastError>)
        ensures
            r == self.cast_spec(target),
    ;
}

impl IncompleteCast<TypedValue> for TypedValue {
    /// The value keeps every bit and only its type changes, when the types
    /// share an identity and a size.
    open spec fn cast_spec(self, target: Ty) -> Result<TypedValue, CastError> {
        match cast_outcome(self.ty, target) {
            Ok(()) => Ok(TypedValue { ty: target, value: self.value }),
            Err(e) => Err(e),
        }
    }

    fn incomplete_cast(self, target: Ty) -> (r: Result<TypedValue, CastError>) {
        if !self.ty.interchangeable(&target) {
            return Err(CastError::NotInterchangeable);
        }
        let from_size = self.ty.size();
        let to_size = target.size();
        match (from_size, to_size) {
            (Some(a), Some(b)) => {
                let TypedValue { ty, value } = self;
                match transmute_checksize(value, a, b) {
                    Ok(v) => Ok(TypedValue { ty: target, value: v }),
                    Err(e) => Err(e),
                }
            },
            _ => Err(CastError::Unsized),
        }
    }
}

/// An owned array of shared references to `target`, held as its backing
/// allocation, the referents' addresses and its capacity.
#[derive(Debug)]
pub struct RefVec {
    pub target: Ty,
    pub data: usize,
    pub elems: Vec<usize>,
    pub capacity: usize,
}

impl RefVec {
    pub open spec fn wf(self) -> bool {
        self.elems@.len() <= self.capacity
    }
}

impl IncompleteCast<RefVec> for RefVec {
    /// The array is taken over whole: allocation, elements and capacity are
    /// kept and only the referent type changes. References are thin, so
    /// their size never differs.
    open spec fn cast_spec(self, target: Ty) -> Result<RefVec, CastError> {
        if self.target.spec_interchangeable(target) {
            Ok(RefVec { target, data: self.data, elems: self.elems, capacity: self.capacity })
        } else {
            Err(CastError::NotInterchangeable)
        }
    }

    fn incomplete_cast(self, target: Ty) -> (r: Result<RefVec, CastError>) {
        if !self.target.interchangeable(&target) {
            return Err(CastError::NotInterchangeable);
        }
        let RefVec { target: _, data, elems, capacity } = self;
        Ok(RefVec { target, data, elems, capacity })
    }
}

} // verus!
