use median::atom::{
    decode, decode_free, decode_free_list, decode_scalar, decode_selector_list, encode,
    encode_value, Atom, Kind, MarshalError, SymbolRef, Value,
};
use median::num::{highest_bit, truncate, widen};
use median::symbol::{contains_nul, copy_bytes, encode_symbol, same_bytes, SymbolTable};

fn sym(index: usize) -> SymbolRef {
    SymbolRef { index }
}

#[test]
fn scalar_round_trip_each_kind() {
    let values = vec![
        Value::Int(0),
        Value::Int(-7),
        Value::Int(i64::MAX),
        Value::Int(i64::MIN),
        Value::Float(3.5f64.to_bits()),
        Value::Float(f64::NAN.to_bits()),
        Value::Float((-0.0f64).to_bits()),
        Value::Symbol(sym(3)),
    ];
    for v in values {
        let kind = match v {
            Value::Int(_) => Kind::Integer,
            Value::Float(_) => Kind::Float,
            Value::Symbol(_) => Kind::Symbol,
        };
        assert_eq!(decode_scalar(encode_value(v), kind), Ok(v));
    }
}

#[test]
fn atom_round_trip_when_tag_matches() {
    let cases = vec![
        (Atom::Integer(12), Kind::Integer),
        (Atom::Float(1.25f64.to_bits()), Kind::Float),
        (Atom::Symbol(sym(0)), Kind::Symbol),
    ];
    for (a, k) in cases {
        let v = decode_scalar(a, k).unwrap();
        assert_eq!(encode_value(v), a);
    }
}

#[test]
fn encode_maps_each_value_to_one_atom_in_order() {
    let values = vec![Value::Int(1), Value::Float(12f64.to_bits()), Value::Symbol(sym(2))];
    let atoms = encode(&values);
    assert_eq!(
        atoms,
        vec![Atom::Integer(1), Atom::Float(12f64.to_bits()), Atom::Symbol(sym(2))]
    );
    let kinds = vec![Kind::Integer, Kind::Float, Kind::Symbol];
    assert_eq!(decode(&atoms, &kinds), Ok(values));
}

#[test]
fn encode_of_nothing_is_empty() {
    assert_eq!(encode(&[]), Vec::<Atom>::new());
    assert_eq!(decode(&[], &[]), Ok(Vec::<Value>::new()));
}

#[test]
fn integer_widens_where_float_is_expected() {
    assert_eq!(
        decode_scalar(Atom::Integer(42), Kind::Float),
        Ok(Value::Float(42f64.to_bits()))
    );
    assert_eq!(
        decode_scalar(Atom::Integer(-3), Kind::Float),
        Ok(Value::Float((-3f64).to_bits()))
    );
}

#[test]
fn float_truncates_toward_zero_where_integer_is_expected() {
    assert_eq!(
        decode_scalar(Atom::Float(3.99f64.to_bits()), Kind::Integer),
        Ok(Value::Int(3))
    );
    assert_eq!(
        decode_scalar(Atom::Float((-3.99f64).to_bits()), Kind::Integer),
        Ok(Value::Int(-3))
    );
    assert_eq!(
        decode_scalar(Atom::Float(0.5f64.to_bits()), Kind::Integer),
        Ok(Value::Int(0))
    );
}

#[test]
fn mismatched_tags_are_refused() {
    assert_eq!(
        decode_scalar(Atom::Symbol(sym(1)), Kind::Integer),
        Err(MarshalError::TypeMismatch)
    );
    assert_eq!(
        decode_scalar(Atom::Symbol(sym(1)), Kind::Float),
        Err(MarshalError::TypeMismatch)
    );
    assert_eq!(
        decode_scalar(Atom::Integer(1), Kind::Symbol),
        Err(MarshalError::TypeMismatch)
    );
    assert_eq!(
        decode_scalar(Atom::Float(0), Kind::Symbol),
        Err(MarshalError::TypeMismatch)
    );
    for k in [Kind::Integer, Kind::Float, Kind::Symbol] {
        assert_eq!(decode_scalar(Atom::Nothing, k), Err(MarshalError::TypeMismatch));
    }
}

#[test]
fn list_arity_must_match() {
    let kinds = vec![Kind::Integer, Kind::Integer];
    assert_eq!(
        decode(&[Atom::Integer(1)], &kinds),
        Err(MarshalError::ArityMismatch)
    );
    assert_eq!(
        decode(&[Atom::Integer(1), Atom::Integer(2), Atom::Integer(3)], &kinds),
        Err(MarshalError::ArityMismatch)
    );
    assert_eq!(
        decode(&[Atom::Symbol(sym(0))], &kinds),
        Err(MarshalError::ArityMismatch)
    );
}

#[test]
fn list_type_error_at_any_position() {
    let kinds = vec![Kind::Integer, Kind::Symbol];
    assert_eq!(
        decode(&[Atom::Integer(1), Atom::Integer(2)], &kinds),
        Err(MarshalError::TypeMismatch)
    );
    assert_eq!(
        decode(&[Atom::Symbol(sym(0)), Atom::Symbol(sym(1))], &kinds),
        Err(MarshalError::TypeMismatch)
    );
    assert_eq!(
        decode(&[Atom::Float(2.5f64.to_bits()), Atom::Symbol(sym(1))], &kinds),
        Ok(vec![Value::Int(2), Value::Symbol(sym(1))])
    );
}

#[test]
fn selector_list_splits_first_atom_from_rest() {
    let atoms = vec![
        Atom::Symbol(sym(4)),
        Atom::Integer(1),
        Atom::Float(2f64.to_bits()),
        Atom::Symbol(sym(5)),
    ];
    assert_eq!(
        decode_selector_list(&atoms),
        Ok((
            sym(4),
            vec![Value::Int(1), Value::Float(2f64.to_bits()), Value::Symbol(sym(5))]
        ))
    );
    assert_eq!(decode_selector_list(&[Atom::Symbol(sym(4))]), Ok((sym(4), vec![])));
}

#[test]
fn selector_list_failures() {
    assert_eq!(decode_selector_list(&[]), Err(MarshalError::ArityMismatch));
    assert_eq!(
        decode_selector_list(&[Atom::Integer(1), Atom::Integer(2)]),
        Err(MarshalError::TypeMismatch)
    );
    assert_eq!(
        decode_selector_list(&[Atom::Symbol(sym(0)), Atom::Nothing]),
        Err(MarshalError::TypeMismatch)
    );
}

#[test]
fn free_scalars() {
    assert_eq!(decode_free(Atom::Integer(9)), Ok(Value::Int(9)));
    assert_eq!(decode_free(Atom::Nothing), Err(MarshalError::TypeMismatch));
    let atoms = vec![Atom::Integer(1), Atom::Integer(2), Atom::Integer(3)];
    assert_eq!(decode_free_list(&atoms, 1), Ok(vec![Value::Int(2), Value::Int(3)]));
    assert_eq!(decode_free_list(&atoms, 3), Ok(vec![]));
}

#[test]
fn widen_agrees_with_the_machine() {
    let mut cases: Vec<i64> = vec![
        0,
        1,
        -1,
        2,
        3,
        42,
        -42,
        i64::MAX,
        i64::MIN,
        i64::MAX - 1,
        i64::MIN + 1,
        (1 << 52) - 1,
        1 << 52,
        (1 << 53) - 1,
        1 << 53,
        (1 << 53) + 1,
        (1 << 53) + 2,
        (1 << 53) + 3,
        (1 << 54) + 2,
        (1 << 54) + 6,
        (1 << 62) + (1 << 8),
        (1 << 62) + (1 << 9),
        (1 << 62) + (1 << 9) + 1,
        i64::MAX - 511,
        i64::MAX - 512,
        i64::MAX - 1023,
    ];
    let mut x: i64 = 1;
    for _ in 0..200 {
        x = x.wrapping_mul(6364136223846793005).wrapping_add(1442695040888963407);
        cases.push(x);
        cases.push(x >> 7);
        cases.push(x >> 20);
    }
    for v in cases {
        assert_eq!(widen(v), (v as f64).to_bits(), "widen({})", v);
    }
}

#[test]
fn widen_exact_values() {
    assert_eq!(widen(0), 0);
    assert_eq!(widen(1), 0x3ff0_0000_0000_0000);
    assert_eq!(widen(-2), 0xc000_0000_0000_0000);
    assert_eq!(widen(i64::MIN), 0xc3e0_0000_0000_0000);
    assert_eq!(widen(i64::MAX), 0x43e0_0000_0000_0000);
}

#[test]
fn truncate_agrees_with_the_machine() {
    let mut cases: Vec<f64> = vec![
        0.0,
        -0.0,
        0.5,
        -0.5,
        0.999999,
        1.0,
        -1.0,
        1.5,
        3.5,
        -3.99,
        4503599627370496.0,
        4503599627370497.0,
        9007199254740992.0,
        9007199254740993.0,
        1e18,
        -1e18,
        9223372036854775807.0,
        9223372036854774784.0,
        -9223372036854775808.0,
        -9223372036854777856.0,
        1e19,
        -1e19,
        1e300,
        -1e300,
        f64::INFINITY,
        f64::NEG_INFINITY,
        f64::NAN,
        f64::MIN_POSITIVE,
        5e-324,
        f64::MAX,
        f64::MIN,
    ];
    let mut x: u64 = 1;
    for _ in 0..300 {
        x = x.wrapping_mul(6364136223846793005).wrapping_add(1442695040888963407);
        cases.push(f64::from_bits(x));
        cases.push((x >> 11) as f64 / 1024.0);
        cases.push(-((x >> 30) as f64) / 3.0);
    }
    for f in cases {
        assert_eq!(truncate(f.to_bits()), f as i64, "truncate({})", f);
    }
}

#[test]
fn truncate_exact_values() {
    assert_eq!(truncate(3.5f64.to_bits()), 3);
    assert_eq!(truncate((-3.5f64).to_bits()), -3);
    assert_eq!(truncate(f64::NAN.to_bits()), 0);
    assert_eq!(truncate(f64::INFINITY.to_bits()), i64::MAX);
    assert_eq!(truncate(f64::NEG_INFINITY.to_bits()), i64::MIN);
}

#[test]
fn widening_is_lossless_up_to_two_to_the_fifty_third() {
    for v in [0i64, 1, -1, 1 << 53, -(1 << 53), (1 << 53) - 1, 123456789012345] {
        assert_eq!(truncate(widen(v)), v);
    }
}

#[test]
fn highest_bit_positions() {
    assert_eq!(highest_bit(0), 0);
    assert_eq!(highest_bit(1), 0);
    assert_eq!(highest_bit(2), 1);
    assert_eq!(highest_bit(3), 1);
    assert_eq!(highest_bit(1 << 40), 40);
    assert_eq!(highest_bit(u64::MAX), 63);
}

#[test]
fn interning_keeps_indices() {
    let mut t = SymbolTable::new();
    assert_eq!(t.len(), 0);
    let a = t.intern(b"foo").unwrap();
    let b = t.intern(b"blah").unwrap();
    let a2 = t.intern(b"foo").unwrap();
    assert_eq!(a, a2);
    assert_ne!(a, b);
    assert_eq!(a.index, 0);
    assert_eq!(b.index, 1);
    assert_eq!(t.len(), 2);
    assert_eq!(t.resolve(a), Some(b"foo".to_vec()));
    assert_eq!(t.resolve(b), Some(b"blah".to_vec()));
    assert_eq!(t.resolve(SymbolRef { index: 2 }), None);
    assert_eq!(t.lookup(b"blah"), Some(b));
    assert_eq!(t.lookup(b"nope"), None);
}

#[test]
fn interning_fails_on_a_zero_byte() {
    let mut t = SymbolTable::new();
    assert_eq!(t.intern(b"fo\0o"), Err(MarshalError::InternFailure));
    assert_eq!(t.len(), 0);
    assert_eq!(encode_symbol(&mut t, b"\0"), Err(MarshalError::InternFailure));
    assert_eq!(t.len(), 0);
}

#[test]
fn encode_symbol_interns_first() {
    let mut t = SymbolTable::new();
    let a = encode_symbol(&mut t, b"foo");
    assert_eq!(a, Ok(Atom::Symbol(SymbolRef { index: 0 })));
    assert_eq!(t.len(), 1);
    let again = encode_symbol(&mut t, b"foo");
    assert_eq!(again, a);
    assert_eq!(t.len(), 1);
    let v = decode_scalar(a.unwrap(), Kind::Symbol).unwrap();
    match v {
        Value::Symbol(s) => assert_eq!(t.resolve(s), Some(b"foo".to_vec())),
        _ => panic!("not a symbol"),
    }
}

#[test]
fn empty_name_can_be_interned() {
    let mut t = SymbolTable::new();
    let e = t.intern(b"").unwrap();
    assert_eq!(t.resolve(e), Some(Vec::new()));
}

#[test]
fn byte_helpers() {
    assert!(contains_nul(b"a\0"));
    assert!(!contains_nul(b"abc"));
    assert!(!contains_nul(b""));
    assert!(same_bytes(b"abc", b"abc"));
    assert!(!same_bytes(b"abc", b"abd"));
    assert!(!same_bytes(b"abc", b"ab"));
    assert_eq!(copy_bytes(b"xyz"), b"xyz".to_vec());
}

#[test]
fn widening_stays_within_one_rounding_step() {
    let cases: Vec<i64> = vec![
        (1 << 53) + 1,
        (1 << 53) + 3,
        -((1 << 53) + 1),
        (1 << 60) + 127,
        (1 << 60) + 128,
        (1 << 60) + 129,
        i64::MAX,
        i64::MAX - 511,
        i64::MAX - 512,
        i64::MIN,
        i64::MIN + 1,
        i64::MIN + 513,
    ];
    for v in cases {
        let p = highest_bit(v.unsigned_abs());
        assert!(p > 52);
        let step = 1i128 << (p - 52);
        let back = truncate(widen(v)) as i128;
        assert!((back - v as i128).abs() < step, "widen({})", v);
    }
    assert_eq!(truncate(widen((1 << 53) + 1)), 1 << 53);
    assert_eq!(truncate(widen((1 << 53) + 3)), (1 << 53) + 4);
    assert_eq!(truncate(widen(i64::MAX)), i64::MAX);
}

#[test]
fn truncation_is_the_floor_of_the_magnitude() {
    assert_eq!(truncate(0x4002_0000_0000_0000), 2);
    assert_eq!(truncate(0x4008_0000_0000_0000), 3);
    assert_eq!(truncate(0x400f_ffff_ffff_ffff), 3);
    assert_eq!(truncate(0xc00f_ffff_ffff_ffff), -3);
    assert_eq!(truncate(0x3fef_ffff_ffff_ffff), 0);
    assert_eq!(truncate(0x4340_0000_0000_0001), (1 << 53) + 2);
    assert_eq!(truncate(0x43d0_0000_0000_0000), 1 << 62);
}
