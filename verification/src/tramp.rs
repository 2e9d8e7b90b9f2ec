//! Trampoline generation: from a method's declaration and the role it is to
//! play, the description of the shim that the host will call, or the reason
//! why the declaration cannot play that role.

use vstd::prelude::*;
use vstd::string::StringSliceAdditionalSpecFns;
use crate::atom::Kind;
use crate::symbol::{copy_bytes, same_bytes};

verus! {

/// The type of a method parameter, as far as a shim can tell types apart.
#[derive(Clone, Copy, Debug, PartialEq, Eq, Structural)]
pub enum ParamType {
    Int64,
    Float64,
    Symbol,
    AtomList,
    Other,
}

/// The return type of a method, as far as a shim can tell types apart.
#[derive(Clone, Copy, Debug, PartialEq, Eq, Structural)]
pub enum ReturnType {
    Unit,
    Int64,
    Float64,
    Symbol,
    Other,
}

/// One input of a method: the receiver, or a pattern with its type.
#[derive(Clone, Debug)]
pub enum Arg {
    Receiver,
    Typed { pat: Vec<u8>, ty: ParamType },
}

/// A method as declared: its name, its inputs in order, its return type.
#[derive(Clone, Debug)]
pub struct MethodDecl {
    pub name: Vec<u8>,
    pub inputs: Vec<Arg>,
    pub output: ReturnType,
}

/// The wrapper type that a shim is generated for.
#[derive(Clone, Debug)]
pub struct TrampArgs {
    pub wrapper: Vec<u8>,
}

/// The kinds of shim that can be generated.
#[derive(Clone, Copy, Debug, PartialEq, Eq, Structural)]
pub enum Generator {
    Plain,
    Deferred,
    SelectorList,
    List,
    AttributeGet,
    AttributeSet,
}

/// The argument list that the host passes to a shim.
#[derive(Clone, Copy, Debug, PartialEq, Eq, Structural)]
pub enum Shape {
    /// The handle alone.
    Bang,
    /// The handle and an integer.
    Integer,
    /// The handle and a float.
    Float,
    /// The handle, a selector that is ignored, a count and atoms.
    List,
    /// The handle, a selector that is passed on, a count and atoms.
    SelectorList,
    /// The handle, unused attribute data, and a count and atoms to fill.
    AttributeGet,
    /// The handle, unused attribute data, a count and atoms.
    AttributeSet,
}

/// Why a declaration cannot play the role asked of it.
#[derive(Clone, Copy, Debug, PartialEq, Eq, Structural)]
pub enum GenError {
    MissingReceiver,
    UnexpectedReceiver,
    WrongArity,
    UnsupportedType,
}

/// A generated shim, described: its name, the method it calls, the wrapper
/// type it recovers the object from, the argument list the host passes, the
/// kinds it decodes or encodes, and the variables it hands to the method.
#[derive(Clone, Debug)]
pub struct Trampoline {
    pub name: Vec<u8>,
    pub method: Vec<u8>,
    pub wrapper: Vec<u8>,
    pub shape: Shape,
    pub deferred: bool,
    pub kinds: Vec<Kind>,
    pub vars: Vec<Vec<u8>>,
}

/// What a generator hands back to the compiler: items, or an error to show.
#[derive(Clone, Debug)]
pub enum Expansion {
    Shim(Trampoline),
    CompileError(GenError),
}

/// The suffix that turns a method's name into its shim's: `_tramp`.
pub open spec fn suffix() -> Seq<u8> {
    "_tramp".spec_bytes()
}

/// The name of the shim of the method of that name.
pub open spec fn shim_name(method: Seq<u8>) -> Seq<u8> {
    method + suffix()
}

/// Whether an input is the receiver.
pub open spec fn is_receiver(a: Arg) -> bool {
    a is Receiver
}

/// The type of an input; a receiver has none that a shim could pass.
pub open spec fn type_of(a: Arg) -> ParamType {
    match a {
        Arg::Receiver => ParamType::Other,
        Arg::Typed { pat, ty } => ty,
    }
}

/// The pattern of an input.
pub open spec fn pattern_of(a: Arg) -> Seq<u8> {
    match a {
        Arg::Receiver => Seq::empty(),
        Arg::Typed { pat, ty } => pat@,
    }
}

/// The kind of scalar that a parameter type is marshalled as.
pub open spec fn param_kind(ty: ParamType) -> Option<Kind> {
    match ty {
        ParamType::Int64 => Some(Kind::Integer),
        ParamType::Float64 => Some(Kind::Float),
        ParamType::Symbol => Some(Kind::Symbol),
        _ => None,
    }
}

/// The kind of scalar that a return type is marshalled as.
pub open spec fn return_kind(ty: ReturnType) -> Option<Kind> {
    match ty {
        ReturnType::Int64 => Some(Kind::Integer),
        ReturnType::Float64 => Some(Kind::Float),
        ReturnType::Symbol => Some(Kind::Symbol),
        _ => None,
    }
}

/// Whether a method with `n` parameters after the receiver can play the role.
pub open spec fn arity_fits(g: Generator, n: int) -> bool {
    match g {
        Generator::Plain => n <= 1,
        Generator::Deferred => n == 2,
        Generator::SelectorList => n == 2,
        Generator::List => true,
        Generator::AttributeGet => n == 0,
        Generator::AttributeSet => n == 1,
    }
}

/// Whether the types of a method of fitting arity can play the role.
pub open spec fn types_fit(g: Generator, inputs: Seq<Arg>, output: ReturnType) -> bool {
    match g {
        Generator::Plain => output == ReturnType::Unit && (inputs.len() == 1 || type_of(inputs[1])
            == ParamType::Int64 || type_of(inputs[1]) == ParamType::Float64),
        Generator::Deferred | Generator::SelectorList => output == ReturnType::Unit && type_of(inputs[1])
            == ParamType::Symbol && type_of(inputs[2]) == ParamType::AtomList,
        Generator::List => output == ReturnType::Unit && forall|i: int|
            1 <= i < inputs.len() ==> param_kind(type_of(#[trigger] inputs[i])).is_some(),
        Generator::AttributeGet => return_kind(output).is_some(),
        Generator::AttributeSet => output == ReturnType::Unit && param_kind(type_of(inputs[1])).is_some(),
    }
}

/// Whether a receiver stands anywhere after the first input.
pub open spec fn has_stray_receiver(inputs: Seq<Arg>) -> bool {
    exists|i: int| 1 <= i < inputs.len() && is_receiver(#[trigger] inputs[i])
}

/// Why a declaration is refused for a role, if it is: first for a receiver
/// anywhere after the first input, whatever the first input is, then for
/// want of a receiver in front, then for its arity, then for its types.
pub open spec fn rejection(g: Generator, inputs: Seq<Arg>, output: ReturnType) -> Option<GenError> {
    if has_stray_receiver(inputs) {
        Some(GenError::UnexpectedReceiver)
    } else if inputs.len() == 0 || !is_receiver(inputs[0]) {
        Some(GenError::MissingReceiver)
    } else if !arity_fits(g, inputs.len() - 1) {
        Some(GenError::WrongArity)
    } else if !types_fit(g, inputs, output) {
        Some(GenError::UnsupportedType)
    } else {
        None
    }
}

/// The argument list of the shim for an accepted declaration.
pub open spec fn shape_of(g: Generator, inputs: Seq<Arg>) -> Shape {
    match g {
        Generator::Plain => if inputs.len() == 1 {
            Shape::Bang
        } else if type_of(inputs[1]) == ParamType::Int64 {
            Shape::Integer
        } else {
            Shape::Float
        },
        Generator::Deferred => Shape::SelectorList,
        Generator::SelectorList => Shape::SelectorList,
        Generator::List => Shape::List,
        Generator::AttributeGet => Shape::AttributeGet,
        Generator::AttributeSet => Shape::AttributeSet,
    }
}

/// The kinds that the shim for an accepted declaration marshals: those of the
/// parameters it decodes into, or that of the value it encodes.
pub open spec fn kinds_declared(g: Generator, inputs: Seq<Arg>, output: ReturnType) -> Seq<Kind> {
    match g {
        Generator::Deferred | Generator::SelectorList => Seq::empty(),
        Generator::AttributeGet => seq![return_kind(output).unwrap()],
        _ => Seq::new((inputs.len() - 1) as nat, |i: int| param_kind(type_of(inputs[i + 1])).unwrap()),
    }
}

/// The patterns of the parameters after the receiver, in order.
pub open spec fn vars_of(inputs: Seq<Arg>) -> Seq<Seq<u8>> {
    Seq::new((inputs.len() - 1) as nat, |i: int| pattern_of(inputs[i + 1]))
}

/// A list of byte strings as plain values.
pub open spec fn names_of(v: Seq<Vec<u8>>) -> Seq<Seq<u8>> {
    Seq::new(v.len(), |i: int| v[i]@)
}

/// Whether `t` is the shim of `meth` in role `g` for the wrapper type.
pub open spec fn describes(t: Trampoline, g: Generator, wrapper: Seq<u8>, meth: MethodDecl) -> bool {
    &&& t.name@ == shim_name(meth.name@)
    &&& t.method@ == meth.name@
    &&& t.wrapper@ == wrapper
    &&& t.shape == shape_of(g, meth.inputs@)
    &&& t.deferred == (g == Generator::Deferred)
    &&& t.kinds@ == kinds_declared(g, meth.inputs@, meth.output)
    &&& names_of(t.vars@) == vars_of(meth.inputs@)
}

/// Whether `r` is what generating for `meth` in role `g` gives: the shim of
/// an accepted declaration, or the reason why it is refused.
pub open spec fn generates(r: Result<Trampoline, GenError>, g: Generator, wrapper: Seq<u8>, meth: MethodDecl) -> bool {
    match r {
        Ok(t) => rejection(g, meth.inputs@, meth.output).is_none() && describes(t, g, wrapper, meth),
        Err(e) => rejection(g, meth.inputs@, meth.output) == Some(e),
    }
}

/// Whether `e` is what a generator's entry point gives for `meth`.
pub open spec fn expands(e: Expansion, g: Generator, wrapper: Seq<u8>, meth: MethodDecl) -> bool {
    match e {
        Expansion::Shim(t) => generates(Ok(t), g, wrapper, meth),
        Expansion::CompileError(err) => generates(Err(err), g, wrapper, meth),
    }
}

/// The method's name and its shim's, as the shim is named after the method.
pub struct Names {
    pub meth_name: Vec<u8>,
    pub tramp_name: Vec<u8>,
}

/// Derives the shim's name from the method's.
pub fn get_names(meth: &MethodDecl) -> (names: Names)
    ensures
        names.meth_name@ == meth.name@,
        names.tramp_name@ == shim_name(meth.name@),
{
    let meth_name = copy_bytes(meth.name.as_slice());
    let mut tramp_name = copy_bytes(meth.name.as_slice());
    let tail = "_tramp".as_bytes();
    let mut i: usize = 0;
    while i < tail.len()
        invariant
            i <= tail.len(),
            tail@ == suffix(),
            tramp_name@ == meth.name@ + tail@.take(i as int),
        decreases tail.len() - i,
    {
        tramp_name.push(tail[i]);
        assert(tail@.take(i as int).push(tail@[i as int]) =~= tail@.take(i + 1));
        assert(tramp_name@ =~= meth.name@ + tail@.take(i + 1));
        i = i + 1;
    }
    assert(tail@.take(tail@.len() as int) =~= tail@);
    Names { meth_name, tramp_name }
}

/// The kind that a parameter type is marshalled as.
pub fn kind_of_param(ty: ParamType) -> (k: Option<Kind>)
    ensures
        k == param_kind(ty),
{
    match ty {
        ParamType::Int64 => Some(Kind::Integer),
        ParamType::Float64 => Some(Kind::Float),
        ParamType::Symbol => Some(Kind::Symbol),
        _ => None,
    }
}

/// The kind that a return type is marshalled as.
pub fn kind_of_return(ty: ReturnType) -> (k: Option<Kind>)
    ensures
        k == return_kind(ty),
{
    match ty {
        ReturnType::Int64 => Some(Kind::Integer),
        ReturnType::Float64 => Some(Kind::Float),
        ReturnType::Symbol => Some(Kind::Symbol),
        _ => None,
    }
}

/// The type of an input.
pub fn arg_type(a: &Arg) -> (ty: ParamType)
    ensures
        ty == type_of(*a),
{
    match a {
        Arg::Receiver => ParamType::Other,
        Arg::Typed { pat, ty } => *ty,
    }
}

/// Finds the first receiver that stands after the first input.
pub fn stray_receiver(meth: &MethodDecl) -> (r: Option<usize>)
    ensures
        match r {
            Some(i) => 1 <= i < meth.inputs@.len() && is_receiver(meth.inputs@[i as int]) && forall|j: int|
                1 <= j < i ==> !is_receiver(#[trigger] meth.inputs@[j]),
            None => !has_stray_receiver(meth.inputs@),
        },
{
    let n = meth.inputs.len();
    let mut i: usize = 1;
    while i < n
        invariant
            1 <= i,
            n == meth.inputs@.len(),
            forall|j: int| 1 <= j < i ==> !is_receiver(#[trigger] meth.inputs@[j]),
        decreases n - i,
    {
        match &meth.inputs[i] {
            Arg::Receiver => {
                return Some(i);
            },
            _ => {},
        }
        i = i + 1;
    }
    None
}

/// Checks a declaration against a role.
pub fn check_signature(g: Generator, meth: &MethodDecl) -> (r: Option<GenError>)
    ensures
        r == rejection(g, meth.inputs@, meth.output),
{
    let n = meth.inputs.len();
    if stray_receiver(meth).is_some() {
        return Some(GenError::UnexpectedReceiver);
    }
    if n == 0 {
        return Some(GenError::MissingReceiver);
    }
    match &meth.inputs[0] {
        Arg::Receiver => {},
        _ => {
            return Some(GenError::MissingReceiver);
        },
    }
    let arity_ok = match g {
        Generator::Plain => n - 1 <= 1,
        Generator::Deferred => n - 1 == 2,
        Generator::SelectorList => n - 1 == 2,
        Generator::List => true,
        Generator::AttributeGet => n - 1 == 0,
        Generator::AttributeSet => n - 1 == 1,
    };
    if !arity_ok {
        return Some(GenError::WrongArity);
    }
    let unit = meth.output == ReturnType::Unit;
    let types_ok = match g {
        Generator::Plain => unit && (n == 1 || arg_type(&meth.inputs[1]) == ParamType::Int64 || arg_type(
            &meth.inputs[1],
        ) == ParamType::Float64),
        Generator::Deferred | Generator::SelectorList => unit && arg_type(&meth.inputs[1]) == ParamType::Symbol
            && arg_type(&meth.inputs[2]) == ParamType::AtomList,
        Generator::List => {
            let mut all = true;
            let mut k: usize = 1;
            while k < n
                invariant
                    1 <= k <= n,
                    n == meth.inputs@.len(),
                    all == forall|j: int| 1 <= j < k ==> param_kind(type_of(#[trigger] meth.inputs@[j])).is_some(),
                decreases n - k,
            {
                if kind_of_param(arg_type(&meth.inputs[k])).is_none() {
                    all = false;
                }
                k = k + 1;
            }
            unit && all
        },
        Generator::AttributeGet => kind_of_return(meth.output).is_some(),
        Generator::AttributeSet => unit && kind_of_param(arg_type(&meth.inputs[1])).is_some(),
    };
    if !types_ok {
        return Some(GenError::UnsupportedType);
    }
    None
}

/// Generates the shim of `meth` in role `g`, or says why it cannot be one.
pub fn generate(g: Generator, wrapper: Vec<u8>, meth: &MethodDecl) -> (r: Result<Trampoline, GenError>)
    ensures
        generates(r, g, wrapper@, *meth),
{
    match check_signature(g, meth) {
        Some(e) => {
            return Err(e);
        },
        None => {},
    }
    let Names { meth_name, tramp_name } = get_names(meth);
    let n = meth.inputs.len();
    let mut vars: Vec<Vec<u8>> = Vec::new();
    let mut kinds: Vec<Kind> = Vec::new();
    let marshalled = match g {
        Generator::Plain | Generator::List | Generator::AttributeSet => true,
        _ => false,
    };
    let mut i: usize = 1;
    while i < n
        invariant
            1 <= i <= n,
            n == meth.inputs@.len(),
            rejection(g, meth.inputs@, meth.output).is_none(),
            marshalled == (g == Generator::Plain || g == Generator::List || g == Generator::AttributeSet),
            vars@.len() == i - 1,
            forall|j: int| 0 <= j < i - 1 ==> (#[trigger] vars@[j])@ == pattern_of(meth.inputs@[j + 1]),
            marshalled ==> kinds@.len() == i - 1,
            !marshalled ==> kinds@.len() == 0,
            marshalled ==> forall|j: int| 0 <= j < i - 1 ==> Some(#[trigger] kinds@[j]) == param_kind(type_of(meth.inputs@[j + 1])),
        decreases n - i,
    {
        match &meth.inputs[i] {
            Arg::Receiver => {
                vars.push(Vec::new());
            },
            Arg::Typed { pat, ty } => {
                vars.push(copy_bytes(pat.as_slice()));
                if marshalled {
                    match kind_of_param(*ty) {
                        Some(k) => {
                            kinds.push(k);
                        },
                        None => {
                            // An accepted declaration has no such parameter.
                            assert(types_fit(g, meth.inputs@, meth.output));
                            assert(false);
                        },
                    }
                }
            },
        }
        i = i + 1;
    }
    match g {
        Generator::AttributeGet => match kind_of_return(meth.output) {
            Some(k) => {
                kinds.push(k);
            },
            None => {},
        },
        _ => {},
    }
    let shape = match g {
        Generator::Plain => {
            if n == 1 {
                Shape::Bang
            } else if arg_type(&meth.inputs[1]) == ParamType::Int64 {
                Shape::Integer
            } else {
                Shape::Float
            }
        },
        Generator::Deferred => Shape::SelectorList,
        Generator::SelectorList => Shape::SelectorList,
        Generator::List => Shape::List,
        Generator::AttributeGet => Shape::AttributeGet,
        Generator::AttributeSet => Shape::AttributeSet,
    };
    let deferred = match g {
        Generator::Deferred => true,
        _ => false,
    };
    assert(kinds@ =~= kinds_declared(g, meth.inputs@, meth.output));
    assert(names_of(vars@) =~= vars_of(meth.inputs@));
    Ok(Trampoline { name: tramp_name, method: meth_name, wrapper, shape, deferred, kinds, vars })
}

/// Turns the outcome of generation into what the compiler is handed.
pub fn wrap(r: Result<Trampoline, GenError>) -> (e: Expansion)
    ensures
        match r {
            Ok(t) => e == Expansion::Shim(t),
            Err(err) => e == Expansion::CompileError(err),
        },
{
    match r {
        Ok(t) => Expansion::Shim(t),
        Err(err) => Expansion::CompileError(err),
    }
}

/// The shim of a plain handler: a bang, an integer or a float.
pub fn wrapped_tramp_with_type(t: Vec<u8>, meth: MethodDecl) -> (r: Result<Trampoline, GenError>)
    ensures
        generates(r, Generator::Plain, t@, meth),
{
    generate(Generator::Plain, t, &meth)
}

/// The shim of a handler that the host runs from its low-priority queue.
pub fn wrapped_defer_tramp_with_type(t: Vec<u8>, meth: MethodDecl) -> (r: Result<Trampoline, GenError>)
    ensures
        generates(r, Generator::Deferred, t@, meth),
{
    generate(Generator::Deferred, t, &meth)
}

/// The shim of a handler that takes the selector and the list after it.
pub fn wrapped_sel_list_tramp_with_type(t: Vec<u8>, meth: MethodDecl) -> (r: Result<Trampoline, GenError>)
    ensures
        generates(r, Generator::SelectorList, t@, meth),
{
    generate(Generator::SelectorList, t, &meth)
}

/// The shim of a handler that takes a list decoded into its parameters; the
/// selector reaches the shim and is not passed on.
pub fn wrapped_list_tramp_with_type(t: Vec<u8>, meth: MethodDecl) -> (r: Result<Trampoline, GenError>)
    ensures
        generates(r, Generator::List, t@, meth),
{
    generate(Generator::List, t, &meth)
}

/// The shim of an attribute's getter.
pub fn wrapped_attr_get_tramp_with_type(t: Vec<u8>, meth: MethodDecl) -> (r: Result<Trampoline, GenError>)
    ensures
        generates(r, Generator::AttributeGet, t@, meth),
{
    generate(Generator::AttributeGet, t, &meth)
}

/// The shim of an attribute's setter.
pub fn wrapped_attr_set_tramp_with_type(t: Vec<u8>, meth: MethodDecl) -> (r: Result<Trampoline, GenError>)
    ensures
        generates(r, Generator::AttributeSet, t@, meth),
{
    generate(Generator::AttributeSet, t, &meth)
}

/// Expands a plain handler.
pub fn wrapped_tramp(attr: TrampArgs, item: MethodDecl) -> (e: Expansion)
    ensures
        expands(e, Generator::Plain, attr.wrapper@, item),
{
    let TrampArgs { wrapper } = attr;
    wrap(wrapped_tramp_with_type(wrapper, item))
}

/// Expands a deferred handler.
pub fn defer_tramp(attr: TrampArgs, item: MethodDecl) -> (e: Expansion)
    ensures
        expands(e, Generator::Deferred, attr.wrapper@, item),
{
    let TrampArgs { wrapper } = attr;
    wrap(wrapped_defer_tramp_with_type(wrapper, item))
}

/// Expands a selector-and-list handler.
pub fn wrapped_sel_list_tramp(attr: TrampArgs, item: MethodDecl) -> (e: Expansion)
    ensures
        expands(e, Generator::SelectorList, attr.wrapper@, item),
{
    let TrampArgs { wrapper } = attr;
    wrap(wrapped_sel_list_tramp_with_type(wrapper, item))
}

/// Expands a list handler.
pub fn wrapped_list_tramp(attr: TrampArgs, item: MethodDecl) -> (e: Expansion)
    ensures
        expands(e, Generator::List, attr.wrapper@, item),
{
    let TrampArgs { wrapper } = attr;
    wrap(wrapped_list_tramp_with_type(wrapper, item))
}

/// Expands an attribute getter.
pub fn wrapped_attr_get_tramp(attr: TrampArgs, item: MethodDecl) -> (e: Expansion)
    ensures
        expands(e, Generator::AttributeGet, attr.wrapper@, item),
{
    let TrampArgs { wrapper } = attr;
    wrap(wrapped_attr_get_tramp_with_type(wrapper, item))
}

/// Expands an attribute setter.
pub fn wrapped_attr_set_tramp(attr: TrampArgs, item: MethodDecl) -> (e: Expansion)
    ensures
        expands(e, Generator::AttributeSet, attr.wrapper@, item),
{
    let TrampArgs { wrapper } = attr;
    wrap(wrapped_attr_set_tramp_with_type(wrapper, item))
}

/// The type names that a shim knows how to marshal.
#[derive(Clone, Copy, Debug, PartialEq, Eq, Structural)]
pub enum Word {
    Int,
    Float,
    Symbol,
    SymbolBorrow,
    Atoms,
    Unit,
}

/// A known type name as text.
pub open spec fn spelled(w: Word) -> Seq<u8> {
    match w {
        Word::Int => "i64".spec_bytes(),
        Word::Float => "f64".spec_bytes(),
        Word::Symbol => "SymbolRef".spec_bytes(),
        Word::SymbolBorrow => "&SymbolRef".spec_bytes(),
        Word::Atoms => "&[Atom]".spec_bytes(),
        Word::Unit => "()".spec_bytes(),
    }
}

/// A known type name as bytes.
pub fn spell(w: Word) -> (v: Vec<u8>)
    ensures
        v@ == spelled(w),
{
    match w {
        Word::Int => copy_bytes("i64".as_bytes()),
        Word::Float => copy_bytes("f64".as_bytes()),
        Word::Symbol => copy_bytes("SymbolRef".as_bytes()),
        Word::SymbolBorrow => copy_bytes("&SymbolRef".as_bytes()),
        Word::Atoms => copy_bytes("&[Atom]".as_bytes()),
        Word::Unit => copy_bytes("()".as_bytes()),
    }
}

/// A text with its spaces taken out.
pub open spec fn squeezed(s: Seq<u8>) -> Seq<u8>
    decreases s.len(),
{
    if s.len() == 0 {
        Seq::empty()
    } else if s.last() == 32u8 {
        squeezed(s.drop_last())
    } else {
        squeezed(s.drop_last()).push(s.last())
    }
}

/// Takes the spaces out of a text.
pub fn squeeze(s: &[u8]) -> (v: Vec<u8>)
    ensures
        v@ == squeezed(s@),
{
    let mut v: Vec<u8> = Vec::new();
    let mut i: usize = 0;
    while i < s.len()
        invariant
            i <= s.len(),
            v@ == squeezed(s@.take(i as int)),
        decreases s.len() - i,
    {
        assert(s@.take(i + 1).drop_last() =~= s@.take(i as int));
        if s[i] != 32u8 {
            v.push(s[i]);
        }
        i = i + 1;
    }
    assert(s@.take(s@.len() as int) =~= s@);
    v
}

/// The parameter type that a type's text names, spaces aside: `i64`, `f64`,
/// `SymbolRef` or a borrow of it, a borrowed slice of atoms, or none of
/// these.
pub open spec fn param_type_named(text: Seq<u8>) -> ParamType {
    let t = squeezed(text);
    if t == spelled(Word::Int) {
        ParamType::Int64
    } else if t == spelled(Word::Float) {
        ParamType::Float64
    } else if t == spelled(Word::Symbol) || t == spelled(Word::SymbolBorrow) {
        ParamType::Symbol
    } else if t == spelled(Word::Atoms) {
        ParamType::AtomList
    } else {
        ParamType::Other
    }
}

/// The return type that a type's text names, spaces aside: nothing or `()`
/// for no value, `i64`, `f64`, `SymbolRef`, or none of these.
pub open spec fn return_type_named(text: Seq<u8>) -> ReturnType {
    let t = squeezed(text);
    if t.len() == 0 || t == spelled(Word::Unit) {
        ReturnType::Unit
    } else if t == spelled(Word::Int) {
        ReturnType::Int64
    } else if t == spelled(Word::Float) {
        ReturnType::Float64
    } else if t == spelled(Word::Symbol) {
        ReturnType::Symbol
    } else {
        ReturnType::Other
    }
}

/// Whether a text, spaces aside, is the known type name.
pub fn names(text: &[u8], w: Word) -> (b: bool)
    ensures
        b == (squeezed(text@) == spelled(w)),
{
    let t = squeeze(text);
    let word = spell(w);
    same_bytes(t.as_slice(), word.as_slice())
}

/// Reads a parameter's type from its text.
pub fn param_type_of(text: &[u8]) -> (ty: ParamType)
    ensures
        ty == param_type_named(text@),
{
    if names(text, Word::Int) {
        ParamType::Int64
    } else if names(text, Word::Float) {
        ParamType::Float64
    } else if names(text, Word::Symbol) || names(text, Word::SymbolBorrow) {
        ParamType::Symbol
    } else if names(text, Word::Atoms) {
        ParamType::AtomList
    } else {
        ParamType::Other
    }
}

/// Reads a return type from its text.
pub fn return_type_of(text: &[u8]) -> (ty: ReturnType)
    ensures
        ty == return_type_named(text@),
{
    let t = squeeze(text);
    if t.len() == 0 || names(text, Word::Unit) {
        ReturnType::Unit
    } else if names(text, Word::Int) {
        ReturnType::Int64
    } else if names(text, Word::Float) {
        ReturnType::Float64
    } else if names(text, Word::Symbol) {
        ReturnType::Symbol
    } else {
        ReturnType::Other
    }
}

/// The text that the compiler shows for a refused declaration.
pub open spec fn refusal_text(e: GenError) -> Seq<u8> {
    match e {
        GenError::MissingReceiver => "expected a receiver as the first input".spec_bytes(),
        GenError::UnexpectedReceiver => "unexpected type in signature".spec_bytes(),
        GenError::WrongArity => "wrong number of parameters in signature".spec_bytes(),
        GenError::UnsupportedType => "unsupported type in signature".spec_bytes(),
    }
}

/// The text that the compiler shows for a refused declaration.
pub fn explain(e: GenError) -> (text: Vec<u8>)
    ensures
        text@ == refusal_text(e),
{
    match e {
        GenError::MissingReceiver => copy_bytes("expected a receiver as the first input".as_bytes()),
        GenError::UnexpectedReceiver => copy_bytes("unexpected type in signature".as_bytes()),
        GenError::WrongArity => copy_bytes("wrong number of parameters in signature".as_bytes()),
        GenError::UnsupportedType => copy_bytes("unsupported type in signature".as_bytes()),
    }
}

/// Two methods with different names get shims with different names.
pub proof fn shim_names_differ(a: Seq<u8>, b: Seq<u8>)
    requires
        shim_name(a) == shim_name(b),
    ensures
        a == b,
{
    assert(shim_name(a).len() == a.len() + suffix().len());
    assert(shim_name(b).len() == b.len() + suffix().len());
    assert forall|i: int| 0 <= i < a.len() implies a[i] == b[i] by {
        assert(shim_name(a)[i] == a[i]);
        assert(shim_name(b)[i] == b[i]);
    }
    assert(a =~= b);
}

} // verus!
