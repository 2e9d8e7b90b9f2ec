//! Atoms, the host's tagged values, and their marshalling to and from typed
//! values.

use vstd::prelude::*;
use crate::num::{truncate, truncated, widen, widened};

verus! {

/// A reference to an interned symbol: its index in the symbol table.
#[derive(Clone, Copy, Debug, PartialEq, Eq, Structural)]
pub struct SymbolRef {
    pub index: usize,
}

/// A tagged value as the host passes it. A float is held as its binary64 bit
/// pattern.
#[derive(Clone, Copy, Debug, PartialEq, Eq, Structural)]
pub enum Atom {
    Integer(i64),
    Float(u64),
    Symbol(SymbolRef),
    Nothing,
}

/// The kind of a scalar that a method or an attribute declares.
#[derive(Clone, Copy, Debug, PartialEq, Eq, Structural)]
pub enum Kind {
    Integer,
    Float,
    Symbol,
}

/// A typed scalar as a method receives it. A float is held as its binary64
/// bit pattern.
#[derive(Clone, Copy, Debug, PartialEq, Eq, Structural)]
pub enum Value {
    Int(i64),
    Float(u64),
    Symbol(SymbolRef),
}

/// Why marshalling failed.
#[derive(Clone, Copy, Debug, PartialEq, Eq, Structural)]
pub enum MarshalError {
    TypeMismatch,
    ArityMismatch,
    InternFailure,
}

/// Whether the atom's tag is exactly the expected kind.
pub open spec fn tag_matches(atom: Atom, kind: Kind) -> bool {
    match (atom, kind) {
        (Atom::Integer(_), Kind::Integer) => true,
        (Atom::Float(_), Kind::Float) => true,
        (Atom::Symbol(_), Kind::Symbol) => true,
        _ => false,
    }
}

/// What an atom decodes to where `kind` is expected. An integer widens to a
/// float, a float truncates toward zero to an integer; nothing else is
/// coerced.
pub open spec fn decoded(atom: Atom, kind: Kind) -> Result<Value, MarshalError> {
    match (atom, kind) {
        (Atom::Integer(i), Kind::Integer) => Ok(Value::Int(i)),
        (Atom::Float(b), Kind::Integer) => Ok(Value::Int(truncated(b) as i64)),
        (Atom::Integer(i), Kind::Float) => Ok(Value::Float(widened(i))),
        (Atom::Float(b), Kind::Float) => Ok(Value::Float(b)),
        (Atom::Symbol(s), Kind::Symbol) => Ok(Value::Symbol(s)),
        _ => Err(MarshalError::TypeMismatch),
    }
}

/// The atom that stands for a typed value.
pub open spec fn encoded(value: Value) -> Atom {
    match value {
        Value::Int(i) => Atom::Integer(i),
        Value::Float(b) => Atom::Float(b),
        Value::Symbol(s) => Atom::Symbol(s),
    }
}

/// The kind of a typed value.
pub open spec fn kind_of(value: Value) -> Kind {
    match value {
        Value::Int(_) => Kind::Integer,
        Value::Float(_) => Kind::Float,
        Value::Symbol(_) => Kind::Symbol,
    }
}

/// What an atom is as a scalar of its own kind; `Nothing` is no scalar.
pub open spec fn scalar_of(atom: Atom) -> Result<Value, MarshalError> {
    match atom {
        Atom::Integer(i) => Ok(Value::Int(i)),
        Atom::Float(b) => Ok(Value::Float(b)),
        Atom::Symbol(s) => Ok(Value::Symbol(s)),
        Atom::Nothing => Err(MarshalError::TypeMismatch),
    }
}

/// What a list of atoms decodes to against a declared shape: an arity error
/// where the lengths differ, else a type error where any position fails, else
/// each atom decoded against the kind at its position.
pub open spec fn decoded_list(atoms: Seq<Atom>, shape: Seq<Kind>) -> Result<Seq<Value>, MarshalError> {
    if atoms.len() != shape.len() {
        Err(MarshalError::ArityMismatch)
    } else if exists|i: int| 0 <= i < atoms.len() && (#[trigger] decoded(atoms[i], shape[i])).is_err() {
        Err(MarshalError::TypeMismatch)
    } else {
        Ok(Seq::new(atoms.len(), |i: int| decoded(atoms[i], shape[i]).unwrap()))
    }
}

/// What a list of atoms of any length is as scalars of their own kinds.
pub open spec fn scalars_of(atoms: Seq<Atom>) -> Result<Seq<Value>, MarshalError> {
    if exists|i: int| 0 <= i < atoms.len() && #[trigger] atoms[i] == Atom::Nothing {
        Err(MarshalError::TypeMismatch)
    } else {
        Ok(Seq::new(atoms.len(), |i: int| scalar_of(atoms[i]).unwrap()))
    }
}

/// What a selector-led list decodes to: the first atom as the selector, the
/// rest as scalars of their own kinds.
pub open spec fn decoded_selector_list(atoms: Seq<Atom>) -> Result<(SymbolRef, Seq<Value>), MarshalError> {
    if atoms.len() == 0 {
        Err(MarshalError::ArityMismatch)
    } else {
        match atoms[0] {
            Atom::Symbol(sel) => match scalars_of(atoms.skip(1)) {
                Ok(rest) => Ok((sel, rest)),
                Err(e) => Err(e),
            },
            _ => Err(MarshalError::TypeMismatch),
        }
    }
}

/// The atoms that stand for a list of typed values, one each, in order.
pub open spec fn encoded_list(values: Seq<Value>) -> Seq<Atom> {
    Seq::new(values.len(), |i: int| encoded(values[i]))
}

/// The kinds of a list of typed values, in order.
pub open spec fn kinds_of(values: Seq<Value>) -> Seq<Kind> {
    Seq::new(values.len(), |i: int| kind_of(values[i]))
}

/// Whether every atom's tag is exactly the kind at its position.
pub open spec fn shape_matches(atoms: Seq<Atom>, shape: Seq<Kind>) -> bool {
    atoms.len() == shape.len() && forall|i: int|
        0 <= i < atoms.len() ==> tag_matches(#[trigger] atoms[i], shape[i])
}

/// Decodes one atom where `kind` is expected.
pub fn decode_scalar(atom: Atom, kind: Kind) -> (r: Result<Value, MarshalError>)
    ensures
        r == decoded(atom, kind),
{
    match kind {
        Kind::Integer => match atom {
            Atom::Integer(i) => Ok(Value::Int(i)),
            Atom::Float(b) => Ok(Value::Int(truncate(b))),
            _ => Err(MarshalError::TypeMismatch),
        },
        Kind::Float => match atom {
            Atom::Integer(i) => Ok(Value::Float(widen(i))),
            Atom::Float(b) => Ok(Value::Float(b)),
            _ => Err(MarshalError::TypeMismatch),
        },
        Kind::Symbol => match atom {
            Atom::Symbol(s) => Ok(Value::Symbol(s)),
            _ => Err(MarshalError::TypeMismatch),
        },
    }
}

/// Encodes one typed value as one atom.
pub fn encode_value(value: Value) -> (atom: Atom)
    ensures
        atom == encoded(value),
{
    match value {
        Value::Int(i) => Atom::Integer(i),
        Value::Float(b) => Atom::Float(b),
        Value::Symbol(s) => Atom::Symbol(s),
    }
}

/// Decodes a list of atoms against a declared shape.
pub fn decode(atoms: &[Atom], shape: &[Kind]) -> (r: Result<Vec<Value>, MarshalError>)
    ensures
        match r {
            Ok(values) => decoded_list(atoms@, shape@) == Ok::<Seq<Value>, MarshalError>(values@),
            Err(e) => decoded_list(atoms@, shape@) == Err::<Seq<Value>, MarshalError>(e),
        },
{
    if atoms.len() != shape.len() {
        return Err(MarshalError::ArityMismatch);
    }
    let mut values: Vec<Value> = Vec::new();
    let mut i: usize = 0;
    while i < atoms.len()
        invariant
            atoms.len() == shape.len(),
            i <= atoms.len(),
            values.len() == i,
            forall|j: int| 0 <= j < i ==> (#[trigger] decoded(atoms@[j], shape@[j])) == Ok::<Value, MarshalError>(values@[j]),
        decreases atoms.len() - i,
    {
        match decode_scalar(atoms[i], shape[i]) {
            Ok(v) => {
                values.push(v);
            },
            Err(_) => {
                assert(decoded(atoms@[i as int], shape@[i as int]).is_err());
                return Err(MarshalError::TypeMismatch);
            },
        }
        i = i + 1;
    }
    assert(values@ =~= Seq::new(atoms@.len(), |k: int| decoded(atoms@[k], shape@[k]).unwrap()));
    Ok(values)
}

/// Encodes a list of typed values, one atom each, in order.
pub fn encode(values: &[Value]) -> (atoms: Vec<Atom>)
    ensures
        atoms@ == encoded_list(values@),
{
    let mut atoms: Vec<Atom> = Vec::new();
    let mut i: usize = 0;
    while i < values.len()
        invariant
            i <= values.len(),
            atoms.len() == i,
            forall|j: int| 0 <= j < i ==> #[trigger] atoms@[j] == encoded(values@[j]),
        decreases values.len() - i,
    {
        atoms.push(encode_value(values[i]));
        i = i + 1;
    }
    assert(atoms@ =~= encoded_list(values@));
    atoms
}

/// Reads one atom as a scalar of its own kind.
pub fn decode_free(atom: Atom) -> (r: Result<Value, MarshalError>)
    ensures
        r == scalar_of(atom),
{
    match atom {
        Atom::Integer(i) => Ok(Value::Int(i)),
        Atom::Float(b) => Ok(Value::Float(b)),
        Atom::Symbol(s) => Ok(Value::Symbol(s)),
        Atom::Nothing => Err(MarshalError::TypeMismatch),
    }
}

/// Reads the atoms from position `from` on as scalars of their own kinds.
pub fn decode_free_list(atoms: &[Atom], from: usize) -> (r: Result<Vec<Value>, MarshalError>)
    requires
        from <= atoms.len(),
    ensures
        match r {
            Ok(values) => scalars_of(atoms@.skip(from as int)) == Ok::<Seq<Value>, MarshalError>(values@),
            Err(e) => scalars_of(atoms@.skip(from as int)) == Err::<Seq<Value>, MarshalError>(e),
        },
{
    let ghost tail = atoms@.skip(from as int);
    let mut values: Vec<Value> = Vec::new();
    let mut i: usize = from;
    while i < atoms.len()
        invariant
            from <= i <= atoms.len(),
            tail == atoms@.skip(from as int),
            values.len() == i - from,
            forall|j: int| 0 <= j < i - from ==> (#[trigger] tail[j]) != Atom::Nothing
                && scalar_of(tail[j]) == Ok::<Value, MarshalError>(values@[j]),
        decreases atoms.len() - i,
    {
        match decode_free(atoms[i]) {
            Ok(v) => {
                assert(tail[i - from] == atoms@[i as int]);
                values.push(v);
            },
            Err(_) => {
                assert(tail[i - from] == Atom::Nothing);
                return Err(MarshalError::TypeMismatch);
            },
        }
        i = i + 1;
    }
    assert(values@ =~= Seq::new(tail.len(), |k: int| scalar_of(tail[k]).unwrap()));
    Ok(values)
}

/// Decodes a selector-led list: the first atom is the selector, the rest are
/// handed on as scalars of their own kinds.
pub fn decode_selector_list(atoms: &[Atom]) -> (r: Result<(SymbolRef, Vec<Value>), MarshalError>)
    ensures
        match r {
            Ok((sel, rest)) => decoded_selector_list(atoms@) == Ok::<(SymbolRef, Seq<Value>), MarshalError>((sel, rest@)),
            Err(e) => decoded_selector_list(atoms@) == Err::<(SymbolRef, Seq<Value>), MarshalError>(e),
        },
{
    if atoms.len() == 0 {
        return Err(MarshalError::ArityMismatch);
    }
    match atoms[0] {
        Atom::Symbol(sel) => match decode_free_list(atoms, 1) {
            Ok(rest) => Ok((sel, rest)),
            Err(e) => Err(e),
        },
        _ => Err(MarshalError::TypeMismatch),
    }
}

/// Decoding what a value encodes to, against the value's own kind, gives the
/// value back.
pub proof fn decode_after_encode(value: Value)
    ensures
        decoded(encoded(value), kind_of(value)) == Ok::<Value, MarshalError>(value),
{
}

/// Where an atom's tag is the expected kind, decoding succeeds and encoding
/// the result gives the atom back.
pub proof fn encode_after_decode(atom: Atom, kind: Kind)
    requires
        tag_matches(atom, kind),
    ensures
        decoded(atom, kind).is_ok(),
        encoded(decoded(atom, kind).unwrap()) == atom,
        kind_of(decoded(atom, kind).unwrap()) == kind,
{
}

/// Decoding what a list of values encodes to, against the values' own kinds,
/// gives the list back.
pub proof fn decode_after_encode_list(values: Seq<Value>)
    ensures
        decoded_list(encoded_list(values), kinds_of(values)) == Ok::<Seq<Value>, MarshalError>(values),
{
    let atoms = encoded_list(values);
    let shape = kinds_of(values);
    assert forall|i: int| 0 <= i < atoms.len() implies !(#[trigger] decoded(atoms[i], shape[i])).is_err() by {
        decode_after_encode(values[i]);
    }
    assert(Seq::new(atoms.len(), |i: int| decoded(atoms[i], shape[i]).unwrap()) =~= values) by {
        assert forall|i: int| 0 <= i < values.len() implies decoded(atoms[i], shape[i]).unwrap() == values[i] by {
            decode_after_encode(values[i]);
        }
    }
}

/// Where every atom's tag is the kind at its position, decoding succeeds and
/// encoding the result gives the atoms back.
pub proof fn encode_after_decode_list(atoms: Seq<Atom>, shape: Seq<Kind>)
    requires
        shape_matches(atoms, shape),
    ensures
        decoded_list(atoms, shape).is_ok(),
        encoded_list(decoded_list(atoms, shape).unwrap()) == atoms,
{
    assert forall|i: int| 0 <= i < atoms.len() implies !(#[trigger] decoded(atoms[i], shape[i])).is_err() by {
        encode_after_decode(atoms[i], shape[i]);
    }
    let values = decoded_list(atoms, shape).unwrap();
    assert forall|i: int| 0 <= i < atoms.len() implies encoded(values[i]) == atoms[i] by {
        encode_after_decode(atoms[i], shape[i]);
    }
    assert(encoded_list(values) =~= atoms);
}

} // verus!
