use median::atom::Kind;
use median::builder::{Builder, Inlet};
use median::class::{AttrBuilder, AttrType, Class, MethodDescriptor, RegistrationError, Role};
use median::clock::ClockHandle;
use median::console::{error, fallback, post, report, Level};
use median::atom::MarshalError;
use median::wrapper::{teardown, Handle, HandleTable, LifecycleError};

fn peek<T: Copy>(t: &HandleTable<T>, h: Handle) -> Option<T> {
    t.from_handle(h).map(|w| *w.wrapped)
}

fn attr(name: &[u8], ty: AttrType) -> AttrBuilder {
    let mut getter = name.to_vec();
    getter.extend_from_slice(b"_tramp");
    let mut setter = b"set_".to_vec();
    setter.extend_from_slice(name);
    setter.extend_from_slice(b"_tramp");
    AttrBuilder::new_accessors(name, ty, &getter, &setter)
}

#[test]
fn duplicate_attribute_leaves_one() {
    let mut c = Class::new(b"simp");
    let first = attr(b"blah", AttrType::Int64).build().unwrap();
    let second = attr(b"blah", AttrType::Float64).build().unwrap();
    assert_eq!(c.add_attribute(first), Ok(()));
    assert_eq!(c.add_attribute(second), Err(RegistrationError::DuplicateAttribute));
    assert_eq!(c.attribute_count(), 1);
    assert_eq!(c.find_attribute(b"blah"), Some(0));
    assert_eq!(c.attribute(0).kind, Kind::Integer);
}

#[test]
fn unsupported_value_kinds_are_refused() {
    for ty in [
        AttrType::Char,
        AttrType::Float32,
        AttrType::AtomPtr,
        AttrType::Ptr,
        AttrType::ObjectPtr,
    ] {
        assert_eq!(
            attr(b"x", ty).build().err(),
            Some(RegistrationError::UnsupportedValueKind)
        );
    }
    assert_eq!(attr(b"x", AttrType::Int64).build().unwrap().kind, Kind::Integer);
    assert_eq!(attr(b"x", AttrType::Float64).build().unwrap().kind, Kind::Float);
    assert_eq!(attr(b"x", AttrType::SymbolRef).build().unwrap().kind, Kind::Symbol);
}

#[test]
fn built_attribute_keeps_its_names() {
    let d = attr(b"foo", AttrType::Float64).build().unwrap();
    assert_eq!(d.name, b"foo".to_vec());
    assert_eq!(d.getter, b"foo_tramp".to_vec());
    assert_eq!(d.setter, b"set_foo_tramp".to_vec());
}

#[test]
fn methods_are_kept_in_order() {
    let mut c = Class::new(b"simp");
    assert!(!c.finalized());
    c.add_method(b"int", Role::Integer, b"int_tramp");
    c.add_method(b"bang", Role::Bang, b"bang_tramp");
    assert_eq!(c.method_count(), 2);
    assert_eq!(c.method(0).name, b"int".to_vec());
    assert_eq!(c.method(0).role, Role::Integer);
    assert_eq!(c.method(1).shim, b"bang_tramp".to_vec());
    assert_eq!(c.attribute_count(), 0);
    c.finalize();
    assert!(c.finalized());
    assert_eq!(c.class_name(), b"simp".to_vec());
}

#[test]
fn setup_registers_everything_and_closes() {
    let methods = vec![MethodDescriptor {
        name: b"int".to_vec(),
        role: Role::Integer,
        shim: b"int_tramp".to_vec(),
    }];
    let requests = vec![attr(b"blah", AttrType::Int64), attr(b"foo", AttrType::Float64)];
    let c = Class::setup(b"simp", methods, &requests).ok().unwrap();
    assert!(c.finalized());
    assert_eq!(c.method_count(), 1);
    assert_eq!(c.attribute_count(), 2);
    assert_eq!(c.find_attribute(b"blah"), Some(0));
    assert_eq!(c.find_attribute(b"foo"), Some(1));
    assert_eq!(c.find_attribute(b"bar"), None);
    assert_eq!(c.attribute(1).kind, Kind::Float);
}

#[test]
fn setup_aborts_on_the_first_failure() {
    let dup = vec![
        attr(b"blah", AttrType::Int64),
        attr(b"blah", AttrType::Int64),
        attr(b"x", AttrType::Char),
    ];
    assert_eq!(
        Class::setup(b"simp", vec![], &dup).err(),
        Some(RegistrationError::DuplicateAttribute)
    );
    let unsupported = vec![
        attr(b"x", AttrType::Char),
        attr(b"blah", AttrType::Int64),
        attr(b"blah", AttrType::Int64),
    ];
    assert_eq!(
        Class::setup(b"simp", vec![], &unsupported).err(),
        Some(RegistrationError::UnsupportedValueKind)
    );
    let both = vec![attr(b"blah", AttrType::Int64), attr(b"blah", AttrType::Char)];
    assert_eq!(
        Class::setup(b"simp", vec![], &both).err(),
        Some(RegistrationError::UnsupportedValueKind)
    );
}

#[test]
fn rearming_resets_the_single_pending_timer() {
    let mut c = ClockHandle::bind(7, 3);
    assert_eq!(c.timer_handle(), 7);
    assert_eq!(c.deadline(), None);
    c.delay(100, 10);
    assert_eq!(c.deadline(), Some(110));
    c.delay(102, 5);
    assert_eq!(c.deadline(), Some(107));
    let mut runs = 0;
    for now in 102..130u64 {
        if let Some(cb) = c.fire(now) {
            assert_eq!(cb, 3);
            assert_eq!(now, 107);
            runs += 1;
        }
    }
    assert_eq!(runs, 1);
    assert_eq!(c.deadline(), None);
}

#[test]
fn clock_does_not_fire_early_or_unarmed() {
    let mut c = ClockHandle::bind(0, 1);
    assert_eq!(c.fire(u64::MAX), None);
    c.delay(5, 10);
    assert_eq!(c.fire(14), None);
    assert_eq!(c.deadline(), Some(15));
    assert_eq!(c.fire(15), Some(1));
    assert_eq!(c.fire(16), None);
}

#[test]
fn cancel_disarms() {
    let mut c = ClockHandle::bind(0, 1);
    c.delay(0, 1);
    c.cancel();
    assert_eq!(c.deadline(), None);
    assert_eq!(c.fire(100), None);
}

#[test]
fn delay_saturates_at_the_last_tick() {
    let mut c = ClockHandle::bind(0, 1);
    c.delay(u64::MAX - 1, 5);
    assert_eq!(c.deadline(), Some(u64::MAX));
    c.delay(3, 0);
    assert_eq!(c.deadline(), Some(3));
}

#[test]
fn handles_give_back_their_objects() {
    let mut t: HandleTable<i64> = HandleTable::new();
    let a = t.instantiate(10);
    let b = t.instantiate(20);
    assert_ne!(a, b);
    assert_eq!(peek(&t, a), Some(10));
    assert_eq!(peek(&t, b), Some(20));
    assert_eq!(peek(&t, Handle { index: 5, generation: 0 }), None);
    assert_eq!(t.from_handle(a).map(|w| w.handle), Some(a));
}

#[test]
fn destroyed_handles_stay_dead() {
    let mut t: HandleTable<i64> = HandleTable::new();
    let a = t.instantiate(10);
    let b = t.instantiate(20);
    assert_eq!(t.destroy(a), Ok(()));
    assert_eq!(peek(&t, a), None);
    assert_eq!(peek(&t, b), Some(20));
    assert_eq!(t.destroy(a), Err(LifecycleError::UseAfterDestroy));
    let c = t.instantiate(30);
    assert_ne!(c, a);
    assert_eq!(c.index, a.index);
    assert_eq!(c.generation, a.generation + 1);
    assert_eq!(peek(&t, a), None);
    assert_eq!(peek(&t, c), Some(30));
    assert_eq!(peek(&t, b), Some(20));
}

#[test]
fn destroying_an_unknown_handle_is_refused() {
    let mut t: HandleTable<u8> = HandleTable::new();
    assert_eq!(
        t.destroy(Handle { index: 0, generation: 0 }),
        Err(LifecycleError::UseAfterDestroy)
    );
    let a = t.instantiate(1);
    assert_eq!(
        t.destroy(Handle { index: a.index, generation: a.generation + 1 }),
        Err(LifecycleError::UseAfterDestroy)
    );
    assert_eq!(peek(&t, a), Some(1));
}

#[test]
fn console_lines() {
    let p = post(b"hello".to_vec());
    assert_eq!(p.level, Level::Post);
    assert_eq!(p.text, b"hello".to_vec());
    let e = error(b"bad".to_vec());
    assert_eq!(e.level, Level::Error);
    assert_eq!(e.text, b"bad".to_vec());
}

#[test]
fn console_falls_back_on_a_zero_byte() {
    let p = post(b"he\0llo".to_vec());
    assert_eq!(p.level, Level::Error);
    assert_eq!(p.text, b"failed to create CString".to_vec());
    let e = error(b"\0".to_vec());
    assert_eq!(e.level, Level::Error);
    assert_eq!(e.text, b"failed to create CString".to_vec());
    assert_eq!(fallback(), b"failed to create CString".to_vec());
}

#[test]
fn failure_reports() {
    let t = report(MarshalError::TypeMismatch);
    assert_eq!(t.level, Level::Error);
    assert_eq!(t.text, b"type mismatch".to_vec());
    assert_eq!(report(MarshalError::ArityMismatch).text, b"arity mismatch".to_vec());
    assert_eq!(
        report(MarshalError::InternFailure).text,
        b"failed to intern symbol".to_vec()
    );
}

#[test]
fn builder_collects_the_layout() {
    let mut b = Builder::new().with_inputs(2);
    b.add_signal_outlets(2);
    assert_eq!(b.add_inlet(Inlet::Float), 0);
    assert_eq!(b.add_inlet(Inlet::Integer), 1);
    assert_eq!(b.add_inlet(Inlet::Proxy), 2);
    assert!(!b.has_clock());
    let clock = b.with_clockfn(9, 4);
    assert!(b.has_clock());
    assert_eq!(clock.timer_handle(), 9);
    assert_eq!(clock.deadline(), None);
    assert_eq!(b.add_list_outlet(), 0);
    assert_eq!(b.add_list_outlet(), 1);
    let layout = b.finalize();
    assert_eq!(layout.signal_inputs, 2);
    assert_eq!(layout.signal_outputs, 2);
    assert_eq!(layout.inlets, vec![Inlet::Float, Inlet::Integer, Inlet::Proxy]);
    assert_eq!(layout.list_outlets, 2);
    assert_eq!(layout.clock, Some(4));
}

#[test]
fn teardown_disarms_the_clock() {
    let mut t: HandleTable<i64> = HandleTable::new();
    let h = t.instantiate(1);
    let mut clock = ClockHandle::bind(0, 9);
    clock.delay(0, 10);
    assert_eq!(teardown(&mut t, h, &mut clock), Ok(()));
    assert_eq!(peek(&t, h), None);
    assert_eq!(clock.deadline(), None);
    assert_eq!(clock.fire(10), None);
    assert_eq!(clock.fire(u64::MAX), None);
}

#[test]
fn teardown_of_a_stale_handle_changes_nothing() {
    let mut t: HandleTable<i64> = HandleTable::new();
    let h = t.instantiate(1);
    assert_eq!(t.destroy(h), Ok(()));
    let mut clock = ClockHandle::bind(0, 9);
    clock.delay(0, 10);
    assert_eq!(
        teardown(&mut t, h, &mut clock),
        Err(LifecycleError::UseAfterDestroy)
    );
    assert_eq!(clock.deadline(), Some(10));
    assert_eq!(clock.fire(10), Some(9));
}

#[test]
fn free_slots_are_taken_first_in_order() {
    let mut t: HandleTable<u8> = HandleTable::new();
    let a = t.instantiate(1);
    let b = t.instantiate(2);
    let c = t.instantiate(3);
    assert_eq!((a.index, b.index, c.index), (0, 1, 2));
    assert_eq!((a.generation, b.generation, c.generation), (0, 0, 0));
    assert_eq!(t.destroy(c), Ok(()));
    assert_eq!(t.destroy(a), Ok(()));
    let d = t.instantiate(4);
    assert_eq!(d, Handle { index: 0, generation: 1 });
    let e = t.instantiate(5);
    assert_eq!(e, Handle { index: 2, generation: 1 });
    let f = t.instantiate(6);
    assert_eq!(f, Handle { index: 3, generation: 0 });
    assert_eq!(peek(&t, b), Some(2));
}

#[test]
fn console_calls_from_the_crate_root() {
    let p = median::post(b"from rust 42 inlet 0".to_vec());
    assert_eq!(p.level, Level::Post);
    assert_eq!(p.text, b"from rust 42 inlet 0".to_vec());
    let e = median::error(b"failed to add attribute".to_vec());
    assert_eq!(e.level, Level::Error);
    assert_eq!(e.text, b"failed to add attribute".to_vec());
}
