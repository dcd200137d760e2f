use forward_declare::bindings::{create_struct, extract_int, SomeClass, SOME_CLASS_SIZE};
use forward_declare::cast::{transmute_checksize, CastError, IncompleteCast, RefVec, TypedValue, Value};
use forward_declare::symbol::Symbol;
use forward_declare::types::{
    declare_complete, forward_declare, Base, Capability, CompleteType, PtrKind, Ty, POINTER_BYTES,
};

fn placeholder(name: &str, declarer: u64) -> Ty {
    forward_declare(Symbol::new(name), declarer)
}

fn complete(name: &str, size: usize, unpin: bool) -> Ty {
    let t = CompleteType {
        size,
        unpin,
        complete_opt_in: false,
        send: true,
        sync: true,
        defines: None,
    };
    declare_complete(Symbol::new(name), t)
}

fn undeclared(size: usize) -> Ty {
    Ty {
        wrappers: Vec::new(),
        base: Base::Complete(CompleteType {
            size,
            unpin: true,
            complete_opt_in: false,
            send: true,
            sync: true,
            defines: None,
        }),
    }
}

fn addr_of(r: &Result<TypedValue, CastError>) -> Option<usize> {
    match r {
        Ok(TypedValue { value: Value::Addr(a), .. }) => Some(*a),
        _ => None,
    }
}

fn err_of<T>(r: &Result<T, CastError>) -> Option<CastError> {
    match r {
        Ok(_) => None,
        Err(e) => Some(*e),
    }
}

#[test]
fn symbols_with_equal_names_are_one_identity() {
    let a = Symbol::new("foo::Foo");
    let b = Symbol::new("foo::Foo");
    let c = Symbol::new("foo::Bar");
    assert!(a.same_as(&b));
    assert!(!a.same_as(&c));
    assert_eq!(a.len(), 8);
    assert_eq!(a.char_at(0).ch, 'f');
    assert_eq!(a.char_at(7).ch, 'o');
}

#[test]
fn round_trip_through_placeholder() {
    let v = TypedValue { ty: complete("foo::Foo", 16, true).wrap(PtrKind::Ref), value: Value::Addr(0x1000) };
    let w = v.incomplete_cast(placeholder("foo::Foo", 1).wrap(PtrKind::Ref));
    assert_eq!(addr_of(&w), Some(0x1000));
    let back = w.unwrap().incomplete_cast(complete("foo::Foo", 16, true).wrap(PtrKind::Ref));
    assert_eq!(addr_of(&back), Some(0x1000));
    let again = back.unwrap().incomplete_cast(placeholder("foo::Foo", 1).wrap(PtrKind::Ref));
    assert_eq!(addr_of(&again), Some(0x1000));
    assert!(matches!(again.unwrap().ty.base, Base::Incomplete(_)));
}

#[test]
fn round_trip_keeps_bytes() {
    let v = TypedValue { ty: complete("foo::Foo", 3, true), value: Value::Bytes(vec![1, 2, 3]) };
    let w = v.incomplete_cast(complete("foo::Foo", 3, true)).unwrap();
    let back = w.incomplete_cast(complete("foo::Foo", 3, true)).unwrap();
    assert!(matches!(back.value, Value::Bytes(ref b) if *b == vec![1u8, 2, 3]));
}

#[test]
fn every_pointer_kind_keeps_its_address() {
    let kinds = [PtrKind::ConstPtr, PtrKind::MutPtr, PtrKind::Ref, PtrKind::PinRef, PtrKind::PinMutRef];
    for k in kinds {
        let v = TypedValue { ty: complete("foo::Foo", 16, false).wrap(k), value: Value::Addr(0xdead0) };
        let r = v.incomplete_cast(placeholder("foo::Foo", 7).wrap(k));
        assert_eq!(addr_of(&r), Some(0xdead0));
    }
    let v = TypedValue { ty: complete("foo::Foo", 16, true).wrap(PtrKind::MutRef), value: Value::Addr(0x40) };
    let r = v.incomplete_cast(complete("foo::Foo", 16, true).wrap(PtrKind::PinMutRef));
    assert_eq!(addr_of(&r), Some(0x40));
}

#[test]
fn pinned_shared_reference_reduces_to_plain_reference() {
    let v = TypedValue { ty: placeholder("foo::Foo", 1).wrap(PtrKind::PinRef), value: Value::Addr(0x88) };
    let r = v.incomplete_cast(complete("foo::Foo", 16, false).wrap(PtrKind::Ref));
    assert_eq!(addr_of(&r), Some(0x88));
}

#[test]
fn placeholders_of_two_declarers_interchange() {
    let a = placeholder("foo::Foo", 1).wrap(PtrKind::Ref);
    let b = placeholder("foo::Foo", 2).wrap(PtrKind::Ref);
    assert!(a.interchangeable(&b));
    let v = TypedValue { ty: a, value: Value::Addr(0x2000) };
    let r = v.incomplete_cast(b);
    assert_eq!(addr_of(&r), Some(0x2000));
    let p = placeholder("foo::Foo", 1).wrap(PtrKind::PinMutRef).wrap(PtrKind::ConstPtr);
    let q = placeholder("foo::Foo", 2).wrap(PtrKind::PinMutRef).wrap(PtrKind::ConstPtr);
    let r = TypedValue { ty: p, value: Value::Addr(0x10) }.incomplete_cast(q);
    assert_eq!(addr_of(&r), Some(0x10));
}

#[test]
fn different_names_do_not_interchange() {
    let v = TypedValue { ty: placeholder("foo::Foo", 1).wrap(PtrKind::Ref), value: Value::Addr(0x10) };
    let r = v.incomplete_cast(placeholder("foo::Bar", 1).wrap(PtrKind::Ref));
    assert_eq!(err_of(&r), Some(CastError::NotInterchangeable));
    let v = TypedValue { ty: placeholder("foo::Foo", 1).wrap(PtrKind::Ref), value: Value::Addr(0x10) };
    let r = v.incomplete_cast(placeholder("foo::Foo", 1).wrap(PtrKind::ConstPtr));
    assert_eq!(err_of(&r), Some(CastError::NotInterchangeable));
    let v = TypedValue { ty: undeclared(4), value: Value::Bytes(vec![0; 4]) };
    let r = v.incomplete_cast(undeclared(4));
    assert_eq!(err_of(&r), Some(CastError::NotInterchangeable));
}

#[test]
fn two_sizes_under_one_identity_fail_the_size_check() {
    let v = TypedValue { ty: complete("foo::Foo", 4, true), value: Value::Bytes(vec![0; 4]) };
    let r = v.incomplete_cast(complete("foo::Foo", 8, true));
    assert_eq!(err_of(&r), Some(CastError::SizeMismatch));
}

#[test]
fn placeholder_by_value_is_unsized() {
    let v = TypedValue { ty: complete("foo::Foo", 4, true), value: Value::Bytes(vec![0; 4]) };
    let r = v.incomplete_cast(placeholder("foo::Foo", 1));
    assert_eq!(err_of(&r), Some(CastError::Unsized));
    assert_eq!(placeholder("foo::Foo", 1).size(), None);
    assert_eq!(placeholder("foo::Foo", 1).wrap(PtrKind::Ref).size(), Some(POINTER_BYTES));
}

#[test]
fn size_check_compares_sizes() {
    assert!(matches!(transmute_checksize(Value::Addr(5), 8, 8), Ok(Value::Addr(5))));
    assert!(matches!(transmute_checksize(Value::Addr(5), 8, 4), Err(CastError::SizeMismatch)));
}

#[test]
fn bulk_conversion_keeps_the_allocation() {
    let v = RefVec { target: complete("foo::Foo", 16, true), data: 0x7000, elems: vec![0x100, 0x200, 0x300], capacity: 8 };
    let r = v.incomplete_cast(placeholder("foo::Foo", 3)).unwrap();
    assert_eq!(r.data, 0x7000);
    assert_eq!(r.elems, vec![0x100, 0x200, 0x300]);
    assert_eq!(r.elems.len(), 3);
    assert_eq!(r.capacity, 8);
    assert!(matches!(r.target.base, Base::Incomplete(_)));
}

#[test]
fn bulk_conversion_refuses_other_identity() {
    let v = RefVec { target: complete("foo::Foo", 16, true), data: 0x7000, elems: Vec::new(), capacity: 0 };
    let r = v.incomplete_cast(placeholder("foo::Bar", 3));
    assert_eq!(err_of(&r), Some(CastError::NotInterchangeable));
}

#[test]
fn placeholder_has_no_capability() {
    for cap in [Capability::Complete, Capability::MoveSafe, Capability::Send, Capability::Sync] {
        assert!(!placeholder("foo::Foo", 1).has_capability(cap));
    }
    assert!(!placeholder("foo::Foo", 1).wrap(PtrKind::MutRef).has_identity());
    assert!(placeholder("foo::Foo", 1).wrap(PtrKind::PinMutRef).has_identity());
}

#[test]
fn thread_capabilities_follow_the_wrappers() {
    let r = complete("foo::Foo", 4, true).wrap(PtrKind::Ref);
    assert!(r.has_capability(Capability::Send));
    assert!(r.has_capability(Capability::Sync));
    let p = complete("foo::Foo", 4, true).wrap(PtrKind::ConstPtr);
    assert!(!p.has_capability(Capability::Send));
    assert!(p.has_capability(Capability::Complete));
    let q = placeholder("foo::Foo", 1).wrap(PtrKind::Ref);
    assert!(!q.has_capability(Capability::Send));
    assert!(q.has_capability(Capability::MoveSafe));
}

#[test]
fn unpinning_needs_a_move_safe_referent() {
    let v = TypedValue { ty: complete("foo::Foo", 16, false).wrap(PtrKind::PinMutRef), value: Value::Addr(0x30) };
    let r = v.incomplete_cast(complete("foo::Foo", 16, false).wrap(PtrKind::MutRef));
    assert_eq!(err_of(&r), Some(CastError::NotInterchangeable));
    let v = TypedValue { ty: complete("foo::Foo", 16, true).wrap(PtrKind::PinMutRef), value: Value::Addr(0x30) };
    let r = v.incomplete_cast(complete("foo::Foo", 16, true).wrap(PtrKind::MutRef));
    assert_eq!(addr_of(&r), Some(0x30));
}

#[test]
fn some_class_realizes_its_identity() {
    let t = SomeClass::descriptor();
    assert_eq!(t.size(), Some(SOME_CLASS_SIZE));
    assert!(t.has_capability(Capability::Complete));
    let v = TypedValue { ty: t.wrap(PtrKind::Ref), value: Value::Addr(0x500) };
    let r = v.incomplete_cast(placeholder("SomeClass", 9).wrap(PtrKind::Ref));
    assert_eq!(addr_of(&r), Some(0x500));
}

#[test]
fn struct_holds_its_integer() {
    assert_eq!(extract_int(create_struct(42)), 42);
    assert_eq!(create_struct(-7).0, -7);
}

#[test]
fn each_introduction_gets_its_own_declarer() {
    let mut d = forward_declare::types::Declarers::new();
    let a = d.forward_declare(Symbol::new("foo::Foo")).unwrap();
    let b = d.forward_declare(Symbol::new("foo::Foo")).unwrap();
    match (&a.base, &b.base) {
        (Base::Incomplete(x), Base::Incomplete(y)) => {
            assert_eq!(x.declarer, 0);
            assert_eq!(y.declarer, 1);
        }
        _ => panic!("placeholders expected"),
    }
    let v = TypedValue { ty: a.wrap(PtrKind::Ref), value: Value::Addr(0x90) };
    let r = v.incomplete_cast(b.wrap(PtrKind::Ref));
    assert_eq!(addr_of(&r), Some(0x90));
}
