use vstd::prelude::*;

use crate::symbol::Symbol;

verus! {

/// Number of bytes in a pointer or reference. Every pointer handled here is
/// thin: incomplete placeholders carry no size metadata.
pub const POINTER_BYTES: usize = 8;

/// The kinds of pointer and reference that may be built over a type.
#[derive(Clone, Copy, PartialEq, Eq, Structural, Debug)]
pub enum PtrKind {
    ConstPtr,
    MutPtr,
    Ref,
    MutRef,
    PinRef,
    PinMutRef,
}

/// A placeholder for a type with identity `name`, introduced at the use
/// site `declarer`. It has no size of its own and can only be reached
/// through a pointer or reference.
#[derive(Debug)]
pub struct Incomplete {
    pub name: Symbol,
    pub declarer: u64,
}

/// A type whose definition is known in full.
#[derive(Debug)]
pub struct CompleteType {
    pub size: usize,
    /// Move-safe: its address need not stay stable.
    pub unpin: bool,
    /// Declares the completeness capability by hand, for a type that is not
    /// move-safe.
    pub complete_opt_in: bool,
    pub send: bool,
    pub sync: bool,
    /// The identity that this type claims to realize, if any.
    pub defines: Option<Symbol>,
}

#[derive(Debug)]
pub enum Base {
    Complete(CompleteType),
    Incomplete(Incomplete),
}

/// A type: a base type under a stack of pointer/reference wrappers,
/// `wrappers[0]` outermost.
#[derive(Debug)]
pub struct Ty {
    pub wrappers: Vec<PtrKind>,
    pub base: Base,
}

/// The capabilities that an operation may require of its argument's type.
#[derive(Clone, Copy, PartialEq, Eq, Structural, Debug)]
pub enum Capability {
    Complete,
    MoveSafe,
    Send,
    Sync,
}

/// An identity: the base name under a stack of wrapper kinds, in which a
/// pinned reference counts as the plain reference of the same mutability.
pub struct IdentityView {
    pub kinds: Seq<PtrKind>,
    pub name: Seq<char>,
}

/// Wrapper kind as it enters an identity.
pub open spec fn identity_kind(k: PtrKind) -> PtrKind {
    match k {
        PtrKind::PinRef => PtrKind::Ref,
        PtrKind::PinMutRef => PtrKind::MutRef,
        _ => k,
    }
}

pub open spec fn base_unpin(b: Base) -> bool {
    match b {
        Base::Complete(c) => c.unpin,
        Base::Incomplete(_) => false,
    }
}

pub open spec fn base_name(b: Base) -> Option<Seq<char>> {
    match b {
        Base::Complete(c) => match c.defines {
            Some(s) => Some(s@),
            None => None,
        },
        Base::Incomplete(i) => Some(i.name@),
    }
}

impl Ty {
    /// Whether the type under the outermost `i` wrappers is move-safe: every
    /// pointer and reference is, and a base type is when it says so.
    pub open spec fn level_unpin(self, i: int) -> bool {
        i < self.wrappers@.len() || base_unpin(self.base)
    }

    /// Every exclusive (unpinned) reference in the stack refers to a
    /// move-safe type.
    pub open spec fn wrappers_admitted(self) -> bool {
        forall|i: int|
            0 <= i < self.wrappers@.len() && self.wrappers@[i] == PtrKind::MutRef
                ==> self.level_unpin(i + 1)
    }

    /// The identity that the type carries, if any.
    pub open spec fn spec_identity(self) -> Option<IdentityView> {
        if self.wrappers_admitted() && base_name(self.base) is Some {
            Some(
                IdentityView {
                    kinds: self.wrappers@.map_values(|k: PtrKind| identity_kind(k)),
                    name: base_name(self.base)->0,
                },
            )
        } else {
            None
        }
    }

    /// Whether the two types carry one and the same identity.
    pub open spec fn spec_interchangeable(self, other: Ty) -> bool {
        self.spec_identity() is Some && self.spec_identity() == other.spec_identity()
    }

    /// The size of a value of the type, or `None` for an unsized placeholder.
    pub open spec fn spec_size(self) -> Option<nat> {
        if self.wrappers@.len() > 0 {
            Some(POINTER_BYTES as nat)
        } else {
            match self.base {
                Base::Complete(c) => Some(c.size as nat),
                Base::Incomplete(_) => None,
            }
        }
    }
    /// Whether a value of the type under the outermost `i` wrappers may be
    /// sent to another thread, and shared between threads, as std rules it
    /// for pointers and references: a raw pointer is neither, `&T` is both
    /// exactly when `T` may be shared, `&mut T` follows `T`, and a pinned
    /// reference follows the reference it pins.
    pub open spec fn level_send_sync(self, i: int) -> (bool, bool)
        decreases self.wrappers@.len() - i,
    {
        if i < 0 || i >= self.wrappers@.len() {
            match self.base {
                Base::Complete(c) => (c.send, c.sync),
                Base::Incomplete(_) => (false, false),
            }
        } else {
            let (send, sync) = self.level_send_sync(i + 1);
            match self.wrappers@[i] {
                PtrKind::ConstPtr | PtrKind::MutPtr => (false, false),
                PtrKind::Ref | PtrKind::PinRef => (sync, sync),
                PtrKind::MutRef | PtrKind::PinMutRef => (send, sync),
            }
        }
    }

    /// Whether the type has the capability `cap`.
    pub open spec fn spec_has_capability(self, cap: Capability) -> bool {
        match cap {
            Capability::Complete => self.wrappers@.len() > 0 || match self.base {
                Base::Complete(c) => c.unpin || c.complete_opt_in,
                Base::Incomplete(_) => false,
            },
            Capability::MoveSafe => self.level_unpin(0),
            Capability::Send => self.level_send_sync(0).0,
            Capability::Sync => self.level_send_sync(0).1,
        }
    }
}

pub fn identity_kind_of(k: PtrKind) -> (r: PtrKind)
    ensures
        r == identity_kind(k),
{
    match k {
        PtrKind::PinRef => PtrKind::Ref,
        PtrKind::PinMutRef => PtrKind::MutRef,
        _ => k,
    }
}

/// Introduces a fresh placeholder for the identity `name`; `declarer` tells
/// this introduction apart from every other one.
pub fn forward_declare(name: Symbol, declarer: u64) -> (r: Ty)
    ensures
        r.wrappers@.len() == 0,
        r.base == Base::Incomplete(Incomplete { name, declarer }),
{
    Ty { wrappers: Vec::new(), base: Base::Incomplete(Incomplete { name, declarer }) }
}

/// Claims that the complete type `t` realizes the identity `name`. At most
/// one complete type of a program may claim a given identity: a single
/// declaration cannot tell, and two claims make unrelated types
/// interchangeable. `registry::find_duplicate_claim` scans a program for them.
pub fn declare_complete(name: Symbol, t: CompleteType) -> (r: Ty)
    ensures
        r.wrappers@.len() == 0,
        r.base == Base::Complete(
            CompleteType {
                size: t.size,
                unpin: t.unpin,
                complete_opt_in: t.complete_opt_in,
                send: t.send,
                sync: t.sync,
                defines: Some(name),
            },
        ),
{
    let c = CompleteType {
        size: t.size,
        unpin: t.unpin,
        complete_opt_in: t.complete_opt_in,
        send: t.send,
        sync: t.sync,
        defines: Some(name),
    };
    Ty { wrappers: Vec::new(), base: Base::Complete(c) }
}

impl Ty {
    /// The type of a pointer or reference of kind `k` to this type.
    pub fn wrap(self, k: PtrKind) -> (r: Ty)
        ensures
            r.wrappers@ == seq![k] + self.wrappers@,
            r.base == self.base,
    {
        let Ty { mut wrappers, base } = self;
        wrappers.insert(0, k);
        assert(wrappers@ =~= seq![k] + self.wrappers@);
        Ty { wrappers, base }
    }

    fn base_unpin_of(&self) -> (r: bool)
        ensures
            r == base_unpin(self.base),
    {
        match &self.base {
            Base::Complete(c) => c.unpin,
            Base::Incomplete(_) => false,
        }
    }

    fn base_name_of(&self) -> (r: Option<&Symbol>)
        ensures
            r is Some == base_name(self.base) is Some,
            r is Some ==> r->0@ == base_name(self.base)->0,
    {
        match &self.base {
            Base::Complete(c) => match &c.defines {
                Some(s) => Some(s),
                None => None,
            },
            Base::Incomplete(i) => Some(&i.name),
        }
    }

    /// Whether every exclusive reference in the stack refers to a move-safe
    /// type.
    pub fn is_admitted(&self) -> (r: bool)
        ensures
            r == self.wrappers_admitted(),
    {
        let n = self.wrappers.len();
        let unpin = self.base_unpin_of();
        let mut i: usize = 0;
        while i < n
            invariant
                n == self.wrappers@.len(),
                unpin == base_unpin(self.base),
                i <= n,
                forall|j: int|
                    0 <= j < i && self.wrappers@[j] == PtrKind::MutRef ==> self.level_unpin(j + 1),
            decreases n - i,
        {
            if self.wrappers[i] == PtrKind::MutRef && !(i + 1 < n || unpin) {
                return false;
            }
            i = i + 1;
        }
        true
    }

    /// Whether the type carries an identity.
    pub fn has_identity(&self) -> (r: bool)
        ensures
            r == self.spec_identity() is Some,
    {
        self.is_admitted() && self.base_name_of().is_some()
    }

    /// Whether the two types carry one and the same identity, so that values
    /// of one may be reinterpreted as values of the other.
    pub fn interchangeable(&self, other: &Ty) -> (r: bool)
        ensures
            r == self.spec_interchangeable(*other),
    {
        if !self.is_admitted() || !other.is_admitted() {
            return false;
        }
        let same_name = match (self.base_name_of(), other.base_name_of()) {
            (Some(a), Some(b)) => a.same_as(b),
            _ => false,
        };
        if !same_name {
            return false;
        }
        let n = self.wrappers.len();
        if n != other.wrappers.len() {
            assert(self.spec_identity()->0.kinds.len() != other.spec_identity()->0.kinds.len());
            return false;
        }
        let mut i: usize = 0;
        while i < n
            invariant
                n == self.wrappers@.len(),
                n == other.wrappers@.len(),
                i <= n,
                self.spec_identity() is Some,
                other.spec_identity() is Some,
                forall|j: int|
                    0 <= j < i ==> identity_kind(self.wrappers@[j]) == identity_kind(
                        other.wrappers@[j],
                    ),
            decreases n - i,
        {
            if identity_kind_of(self.wrappers[i]) != identity_kind_of(other.wrappers[i]) {
                assert(self.spec_identity()->0.kinds[i as int] != other.spec_identity()->0.kinds[i as int]);
                return false;
            }
            i = i + 1;
        }
        assert(self.spec_identity()->0.kinds =~= other.spec_identity()->0.kinds);
        true
    }

    /// The size of a value of the type, `None` for an unsized placeholder.
    pub fn size(&self) -> (r: Option<usize>)
        ensures
            r is Some == self.spec_size() is Some,
            r is Some ==> r->0 as nat == self.spec_size()->0,
    {
        if self.wrappers.len() > 0 {
            Some(POINTER_BYTES)
        } else {
            match &self.base {
                Base::Complete(c) => Some(c.size),
                Base::Incomplete(_) => None,
            }
        }
    }

    /// Whether the type has the capability `cap`.
    pub fn has_capability(&self, cap: Capability) -> (r: bool)
        ensures
            r == self.spec_has_capability(cap),
    {
        match cap {
            Capability::Complete => self.wrappers.len() > 0 || match &self.base {
                Base::Complete(c) => c.unpin || c.complete_opt_in,
                Base::Incomplete(_) => false,
            },
            Capability::MoveSafe => self.wrappers.len() > 0 || self.base_unpin_of(),
            Capability::Send => self.send_sync().0,
            Capability::Sync => self.send_sync().1,
        }
    }

    fn send_sync(&self) -> (r: (bool, bool))
        ensures
            r == self.level_send_sync(0),
    {
        let (mut send, mut sync) = match &self.base {
            Base::Complete(c) => (c.send, c.sync),
            Base::Incomplete(_) => (false, false),
        };
        let mut i: usize = self.wrappers.len();
        while i > 0
            invariant
                i <= self.wrappers@.len(),
                (send, sync) == self.level_send_sync(i as int),
            decreases i,
        {
            i = i - 1;
            let (s, y) = match self.wrappers[i] {
                PtrKind::ConstPtr | PtrKind::MutPtr => (false, false),
                PtrKind::Ref | PtrKind::PinRef => (sync, sync),
                PtrKind::MutRef | PtrKind::PinMutRef => (send, sync),
            };
            send = s;
            sync = y;
        }
        (send, sync)
    }
}

/// Hands out declarers, each one at most once.
#[derive(Debug)]
pub struct Declarers {
    next: u64,
}

impl Declarers {
    /// The declarer that the next introduction gets; every one handed out
    /// so far is below it.
    pub closed spec fn spec_next(&self) -> nat {
        self.next as nat
    }

    pub fn new() -> (r: Declarers)
        ensures
            r.spec_next() == 0,
    {
        Declarers { next: 0 }
    }

    /// Introduces a placeholder for the identity `name` with a declarer that
    /// no earlier introduction from this source has. `None` once every
    /// declarer has been handed out.
    pub fn forward_declare(&mut self, name: Symbol) -> (r: Option<Ty>)
        ensures
            old(self).spec_next() < u64::MAX ==> ({
                &&& final(self).spec_next() == old(self).spec_next() + 1
                &&& r matches Some(t) && t.wrappers@.len() == 0 && t.base == Base::Incomplete(
                    Incomplete { name, declarer: old(self).spec_next() as u64 },
                )
            }),
            old(self).spec_next() == u64::MAX ==> r is None && final(self).spec_next()
                == old(self).spec_next(),
    {
        if self.next == u64::MAX {
            return None;
        }
        let declarer = self.next;
        self.next = self.next + 1;
        Some(forward_declare(name, declarer))
    }
}

} // verus!
