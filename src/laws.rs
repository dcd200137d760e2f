//! Laws that relate the reinterpretation operations to the type model.
use vstd::prelude::*;

use crate::cast::{CastError, IncompleteCast, RefVec, TypedValue, Value};
use crate::types::{base_name, base_unpin, Capability, PtrKind, Ty};

verus! {

/// A value reinterpreted as another type and back comes back bit for bit,
/// and reinterpreting it once more gives the first result again.
pub proof fn lemma_round_trip(v: TypedValue, u: Ty)
    requires
        v.cast_spec(u) is Ok,
    ensures
        ({
            let w = v.cast_spec(u)->Ok_0;
            &&& w.value == v.value
            &&& w.cast_spec(v.ty) == Ok::<TypedValue, CastError>(v)
            &&& v.cast_spec(u)->Ok_0.cast_spec(u) == Ok::<TypedValue, CastError>(w)
        }),
{
}

/// Reinterpreting a pointer or reference keeps the address it holds, and
/// fails only where the two types do not share an identity.
pub proof fn lemma_address_preserved(v: TypedValue, u: Ty, a: usize)
    requires
        v.ty.wrappers@.len() > 0,
        v.value == Value::Addr(a),
    ensures
        v.cast_spec(u) == (if v.ty.spec_interchangeable(u) {
            Ok(TypedValue { ty: u, value: Value::Addr(a) })
        } else {
            Err(CastError::NotInterchangeable)
        }),
{
    if v.ty.spec_interchangeable(u) {
        assert(v.ty.spec_identity()->0.kinds.len() == u.spec_identity()->0.kinds.len());
    }
}

/// Two placeholders introduced separately for one name are interchangeable
/// through any admitted pointer or reference, and the value is kept.
pub proof fn lemma_cross_declarer(v: TypedValue, u: Ty)
    requires
        (v.ty.base is Incomplete),
        (u.base is Incomplete),
        base_name(v.ty.base) == base_name(u.base),
        v.ty.wrappers@ == u.wrappers@,
        v.ty.wrappers@.len() > 0,
        v.ty.wrappers_admitted(),
    ensures
        v.cast_spec(u) == Ok::<TypedValue, CastError>(TypedValue { ty: u, value: v.value }),
{
    assert(u.wrappers_admitted());
}

/// Two complete types of different sizes that claim one identity are not
/// reinterpreted into each other by value: the size check refuses.
pub proof fn lemma_size_mismatch(v: TypedValue, u: Ty)
    requires
        v.ty.wrappers@.len() == 0,
        u.wrappers@.len() == 0,
        (v.ty.base is Complete),
        (u.base is Complete),
        base_name(v.ty.base) is Some,
        base_name(v.ty.base) == base_name(u.base),
        v.ty.spec_size() != u.spec_size(),
    ensures
        v.cast_spec(u) == Err::<TypedValue, CastError>(CastError::SizeMismatch),
{
    assert(v.ty.spec_identity()->0.kinds =~= u.spec_identity()->0.kinds);
}

/// Converting an array of references keeps its length, its capacity, its
/// elements and its backing allocation.
pub proof fn lemma_bulk_conversion(v: RefVec, u: Ty)
    requires
        v.wf(),
        v.target.spec_interchangeable(u),
    ensures
        v.cast_spec(u) is Ok,
        v.cast_spec(u)->Ok_0.wf(),
        v.cast_spec(u)->Ok_0.target == u,
        v.cast_spec(u)->Ok_0.data == v.data,
        v.cast_spec(u)->Ok_0.elems == v.elems,
        v.cast_spec(u)->Ok_0.elems@.len() == v.elems@.len(),
        v.cast_spec(u)->Ok_0.capacity == v.capacity,
{
}

/// An incomplete placeholder has none of the capabilities: it is not
/// complete, not move-safe, and may be neither sent nor shared across
/// threads. An exclusive reference `m` to it carries no identity either.
pub proof fn lemma_incomplete_denied(t: Ty, m: Ty, cap: Capability)
    requires
        t.wrappers@.len() == 0,
        (t.base is Incomplete),
        m.wrappers@ == seq![PtrKind::MutRef],
        m.base == t.base,
    ensures
        !t.spec_has_capability(cap),
        m.spec_identity() is None,
{
    assert(m.wrappers@[0] == PtrKind::MutRef && !m.level_unpin(1));
}

/// A pinned exclusive reference becomes a plain exclusive reference, at the
/// same address, exactly when the referent is move-safe.
pub proof fn lemma_unpin_conversion(v: TypedValue, u: Ty)
    requires
        v.ty.wrappers@ == seq![PtrKind::PinMutRef],
        u.wrappers@ == seq![PtrKind::MutRef],
        u.base == v.ty.base,
        base_name(u.base) is Some,
    ensures
        v.cast_spec(u) == (if base_unpin(u.base) {
            Ok(TypedValue { ty: u, value: v.value })
        } else {
            Err(CastError::NotInterchangeable)
        }),
{
    assert(u.wrappers@[0] == PtrKind::MutRef);
    if base_unpin(u.base) {
        assert(v.ty.spec_identity()->0.kinds =~= u.spec_identity()->0.kinds);
    }
}

} // verus!
