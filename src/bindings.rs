//! Bindings for foreign types that realize identities.
use vstd::prelude::*;

use crate::symbol::Symbol;
use crate::types::{base_name, declare_complete, Base, CompleteType, Ty};

verus! {

/// Marker for complete types: types that may be held, moved and returned by
/// value. Every move-safe type is complete; a type that must stay in place
/// is complete only where it says so. No incomplete placeholder is.
pub trait Complete {
}

/// Types that describe themselves in the type model: their identity, size
/// and capabilities.
pub trait CcType {
    fn cc_type() -> Ty;
}

/// Bindings for the foreign class `SomeClass`: one public and one private
/// 4-byte member, 8 bytes in all.
#[derive(Clone, Copy, Debug)]
pub struct SomeClass {
    pub public_member_variable_: i32,
    pub(crate) private_member_variable_: [u8; 4],
}

/// Size of `SomeClass` in bytes.
pub const SOME_CLASS_SIZE: usize = 8;

impl SomeClass {
    /// The type of `SomeClass`, which realizes the identity `SomeClass`: a
    /// complete, move-safe type that may be sent and shared across threads.
    pub fn descriptor() -> (r: Ty)
        ensures
            r.wrappers@.len() == 0,
            base_name(r.base) == Some("SomeClass"@),
            r.spec_size() == Some(SOME_CLASS_SIZE as nat),
            r.base matches Base::Complete(c) && c.unpin && c.send && c.sync && !c.complete_opt_in,
    {
        let t = CompleteType {
            size: SOME_CLASS_SIZE,
            unpin: true,
            complete_opt_in: false,
            send: true,
            sync: true,
            defines: None,
        };
        declare_complete(Symbol::new("SomeClass"), t)
    }
}

impl Complete for SomeClass {
}

impl CcType for SomeClass {
    fn cc_type() -> Ty {
        SomeClass::descriptor()
    }
}

/// A complete struct that wraps one integer.
#[derive(Clone, Copy, PartialEq, Eq, Structural, Debug)]
pub struct SomeStruct(pub i32);

impl Complete for SomeStruct {
}

/// The struct that holds `i`.
pub fn create_struct(i: i32) -> (r: SomeStruct)
    ensures
        r.0 == i,
{
    SomeStruct(i)
}

/// The integer that `s` holds.
pub fn extract_int(s: SomeStruct) -> (r: i32)
    ensures
        r == s.0,
{
    s.0
}

} // verus!
