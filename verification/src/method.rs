//! Dispatch: what a shim does with the atoms that the host hands it, before
//! any typed method runs.

use vstd::prelude::*;
use crate::atom::{
    decode, decode_selector_list, decoded_list, decoded_selector_list, encode_value, encoded, Atom,
    Kind, MarshalError, SymbolRef, Value,
};
use crate::class::{MethodDescriptor, Role};
use crate::console::{failure_text, report, ConsoleLine, Level};
use crate::symbol::copy_bytes;
use crate::tramp::{Shape, Trampoline};
use crate::wrapper::{Handle, HandleTable, WrappedObject};

verus! {

/// What a shim decides on a message: to call the typed method with decoded
/// arguments, or to report a failure and call nothing.
#[derive(Clone, Debug)]
pub enum Outcome {
    Call { selector: Option<SymbolRef>, args: Vec<Value> },
    Report(MarshalError),
}

/// The call that a shim makes, as plain values.
pub struct Invocation {
    pub selector: Option<SymbolRef>,
    pub args: Seq<Value>,
}

/// The kinds that a shim of the given shape decodes its atoms against: one
/// integer, one float, or what the method declares.
pub open spec fn expected(shape: Shape, kinds: Seq<Kind>) -> Seq<Kind> {
    match shape {
        Shape::Bang => Seq::empty(),
        Shape::AttributeGet => Seq::empty(),
        Shape::Integer => seq![Kind::Integer],
        Shape::Float => seq![Kind::Float],
        _ => kinds,
    }
}

/// What a shim of the given shape does with the atoms it is handed: the call
/// it makes, or the failure it reports in place of any call.
pub open spec fn dispatched(shape: Shape, kinds: Seq<Kind>, atoms: Seq<Atom>) -> Result<Invocation, MarshalError> {
    match shape {
        Shape::SelectorList => match decoded_selector_list(atoms) {
            Ok((sel, rest)) => Ok((Invocation { selector: Some(sel), args: rest })),
            Err(e) => Err(e),
        },
        _ => match decoded_list(atoms, expected(shape, kinds)) {
            Ok(args) => Ok((Invocation { selector: None, args })),
            Err(e) => Err(e),
        },
    }
}

/// Whether an outcome is the given decision.
pub open spec fn decides(o: Outcome, d: Result<Invocation, MarshalError>) -> bool {
    match o {
        Outcome::Call { selector, args } => d == Ok::<Invocation, MarshalError>(
            (Invocation { selector, args: args@ }),
        ),
        Outcome::Report(e) => d == Err::<Invocation, MarshalError>(e),
    }
}

/// Decides what the shim does with the atoms that the host hands it.
pub fn dispatch(shim: &Trampoline, atoms: &[Atom]) -> (o: Outcome)
    ensures
        decides(o, dispatched(shim.shape, shim.kinds@, atoms@)),
{
    match shim.shape {
        Shape::SelectorList => match decode_selector_list(atoms) {
            Ok((sel, rest)) => Outcome::Call { selector: Some(sel), args: rest },
            Err(e) => Outcome::Report(e),
        },
        _ => {
            let mut shape: Vec<Kind> = Vec::new();
            match shim.shape {
                Shape::Bang => {},
                Shape::AttributeGet => {},
                Shape::Integer => {
                    shape.push(Kind::Integer);
                },
                Shape::Float => {
                    shape.push(Kind::Float);
                },
                _ => {
                    let mut i: usize = 0;
                    while i < shim.kinds.len()
                        invariant
                            i <= shim.kinds.len(),
                            shape@ == shim.kinds@.take(i as int),
                        decreases shim.kinds.len() - i,
                    {
                        shape.push(shim.kinds[i]);
                        assert(shim.kinds@.take(i as int).push(shim.kinds@[i as int]) =~= shim.kinds@.take(i + 1));
                        i = i + 1;
                    }
                    assert(shim.kinds@.take(shim.kinds@.len() as int) =~= shim.kinds@);
                },
            }
            assert(shape@ =~= expected(shim.shape, shim.kinds@));
            match decode(atoms, shape.as_slice()) {
                Ok(args) => Outcome::Call { selector: None, args },
                Err(e) => Outcome::Report(e),
            }
        },
    }
}

/// The role under which a shim of the given shape is registered as a method;
/// none for the shims of an attribute, which are registered with it.
pub open spec fn role_of(shape: Shape, deferred: bool) -> Option<Role> {
    match shape {
        Shape::Bang => Some(Role::Bang),
        Shape::Integer => Some(Role::Integer),
        Shape::Float => Some(Role::Float),
        Shape::List => Some(Role::List),
        Shape::SelectorList => if deferred { Some(Role::Deferred) } else { Some(Role::SelectorList) },
        Shape::AttributeGet => None,
        Shape::AttributeSet => None,
    }
}

/// The registry entry for a method's shim.
pub fn describe_method(shim: &Trampoline) -> (r: Option<MethodDescriptor>)
    ensures
        match r {
            Some(d) => role_of(shim.shape, shim.deferred) == Some(d.role) && d.name@ == shim.method@
                && d.shim@ == shim.name@,
            None => role_of(shim.shape, shim.deferred).is_none(),
        },
{
    let role = match shim.shape {
        Shape::Bang => Role::Bang,
        Shape::Integer => Role::Integer,
        Shape::Float => Role::Float,
        Shape::List => Role::List,
        Shape::SelectorList => if shim.deferred { Role::Deferred } else { Role::SelectorList },
        _ => {
            return None;
        },
    };
    Some(
        MethodDescriptor { name: copy_bytes(shim.method.as_slice()), role, shim: copy_bytes(shim.name.as_slice()) },
    )
}

/// What a shim finds when the host calls it: the object to call with the
/// decoded arguments, a failure to report, or a handle that is not live, on
/// which nothing is touched.
pub enum Entry<'a, T> {
    Call { object: WrappedObject<'a, T>, selector: Option<SymbolRef>, args: Vec<Value> },
    Report(MarshalError),
    Stale,
}

/// Enters a shim: recovers the object behind the handle, then decides on the
/// atoms. The object is lent for this one call.
pub fn enter<'a, T>(table: &'a HandleTable<T>, h: Handle, shim: &Trampoline, atoms: &[Atom]) -> (e: Entry<'a, T>)
    ensures
        match e {
            Entry::Call { object, selector, args } => table.live(h) && object.handle == h
                && *object.wrapped == table.object(h)
                && dispatched(shim.shape, shim.kinds@, atoms@) == Ok::<Invocation, MarshalError>(
                (Invocation { selector, args: args@ }),
            ),
            Entry::Report(err) => table.live(h) && dispatched(shim.shape, shim.kinds@, atoms@) == Err::<
                Invocation,
                MarshalError,
            >(err),
            Entry::Stale => !table.live(h),
        },
{
    match table.from_handle(h) {
        None => Entry::Stale,
        Some(object) => match dispatch(shim, atoms) {
            Outcome::Call { selector, args } => Entry::Call { object, selector, args },
            Outcome::Report(err) => Entry::Report(err),
        },
    }
}

/// The lines that an outcome sends to the console: one error line for a
/// failure, none for a call.
pub fn diagnostics(o: &Outcome) -> (lines: Vec<ConsoleLine>)
    ensures
        match *o {
            Outcome::Call { selector, args } => lines@.len() == 0,
            Outcome::Report(e) => lines@.len() == 1 && lines@[0].level == Level::Error
                && lines@[0].text@ == failure_text(e),
        },
{
    let mut lines: Vec<ConsoleLine> = Vec::new();
    match o {
        Outcome::Call { selector, args } => {},
        Outcome::Report(e) => {
            lines.push(report(*e));
        },
    }
    lines
}

/// The atoms that an attribute's getter shim writes out for the value that
/// the method returned.
pub fn reply(value: Value) -> (atoms: Vec<Atom>)
    ensures
        atoms@ == seq![encoded(value)],
{
    let mut atoms: Vec<Atom> = Vec::new();
    atoms.push(encode_value(value));
    assert(atoms@ =~= seq![encoded(value)]);
    atoms
}

/// A list shim handed a number of atoms other than the number of parameters
/// that its method declares reports an arity failure and makes no call.
pub proof fn wrong_count_is_reported(kinds: Seq<Kind>, atoms: Seq<Atom>)
    requires
        atoms.len() != kinds.len(),
    ensures
        dispatched(Shape::List, kinds, atoms) == Err::<Invocation, MarshalError>(MarshalError::ArityMismatch),
{
}

/// An integer shim handed a symbol reports a type failure and makes no call.
pub proof fn symbol_for_integer_is_reported(kinds: Seq<Kind>, s: SymbolRef)
    ensures
        dispatched(Shape::Integer, kinds, seq![Atom::Symbol(s)]) == Err::<Invocation, MarshalError>(
            MarshalError::TypeMismatch,
        ),
{
    let atoms = seq![Atom::Symbol(s)];
    let shape = seq![Kind::Integer];
    assert(crate::atom::decoded(atoms[0], shape[0]).is_err());
}

/// What a setter shim decodes from the atoms that a getter shim wrote out for
/// a value of the attribute's kind is that value.
pub proof fn set_after_get(value: Value)
    ensures
        dispatched(Shape::AttributeSet, seq![crate::atom::kind_of(value)], seq![encoded(value)]) == Ok::<
            Invocation,
            MarshalError,
        >((Invocation { selector: None, args: seq![value] })),
{
    let atoms = seq![encoded(value)];
    let shape = seq![crate::atom::kind_of(value)];
    crate::atom::decode_after_encode(value);
    assert forall|i: int| 0 <= i < atoms.len() implies !(#[trigger] crate::atom::decoded(atoms[i], shape[i])).is_err() by {
        assert(atoms[i] == encoded(value));
        assert(shape[i] == crate::atom::kind_of(value));
    }
    assert(decoded_list(atoms, shape).unwrap() =~= seq![value]);
}

} // verus!
