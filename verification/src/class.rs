//! The per-class registry of methods and attributes, filled once while a
//! class is set up and closed for good when it is registered.

use vstd::prelude::*;
use crate::atom::Kind;
use crate::symbol::{copy_bytes, same_bytes};

verus! {

/// The role of a message handler, which fixes the shape of its shim.
#[derive(Clone, Copy, Debug, PartialEq, Eq, Structural)]
pub enum Role {
    Bang,
    Integer,
    Float,
    List,
    SelectorList,
    Deferred,
}

/// The value types that a host attribute can be asked to have.
#[derive(Clone, Copy, Debug, PartialEq, Eq, Structural)]
pub enum AttrType {
    Char,
    Int64,
    Float32,
    Float64,
    AtomPtr,
    SymbolRef,
    Ptr,
    ObjectPtr,
}

/// Why a class could not be set up.
#[derive(Clone, Copy, Debug, PartialEq, Eq, Structural)]
pub enum RegistrationError {
    DuplicateAttribute,
    UnsupportedValueKind,
}

/// The kind of scalar that an attribute of the given type carries, for the
/// types that accessors are offered for.
pub open spec fn attr_kind(ty: AttrType) -> Option<Kind> {
    match ty {
        AttrType::Int64 => Some(Kind::Integer),
        AttrType::Float64 => Some(Kind::Float),
        AttrType::SymbolRef => Some(Kind::Symbol),
        _ => None,
    }
}

/// A method of a class: its name, its role and the name of its shim.
#[derive(Clone, Debug)]
pub struct MethodDescriptor {
    pub name: Vec<u8>,
    pub role: Role,
    pub shim: Vec<u8>,
}

/// A method descriptor as a plain value.
pub struct MethodView {
    pub name: Seq<u8>,
    pub role: Role,
    pub shim: Seq<u8>,
}

impl View for MethodDescriptor {
    type V = MethodView;

    open spec fn view(&self) -> MethodView {
        MethodView { name: self.name@, role: self.role, shim: self.shim@ }
    }
}

/// An attribute of a class: its name, the kind of its value, and the names
/// of its getter and setter shims.
#[derive(Clone, Debug)]
pub struct AttributeDescriptor {
    pub name: Vec<u8>,
    pub kind: Kind,
    pub getter: Vec<u8>,
    pub setter: Vec<u8>,
}

/// An attribute descriptor as a plain value.
pub struct AttributeView {
    pub name: Seq<u8>,
    pub kind: Kind,
    pub getter: Seq<u8>,
    pub setter: Seq<u8>,
}

impl View for AttributeDescriptor {
    type V = AttributeView;

    open spec fn view(&self) -> AttributeView {
        AttributeView { name: self.name@, kind: self.kind, getter: self.getter@, setter: self.setter@ }
    }
}

/// A request for an attribute with accessors, not yet checked.
#[derive(Clone, Debug)]
pub struct AttrBuilder {
    pub name: Vec<u8>,
    pub ty: AttrType,
    pub getter: Vec<u8>,
    pub setter: Vec<u8>,
}

impl AttrBuilder {
    /// What `build` gives: the descriptor, or `UnsupportedValueKind` for a
    /// type that no accessor can carry.
    pub open spec fn built(&self) -> Result<AttributeView, RegistrationError> {
        match attr_kind(self.ty) {
            Some(kind) => Ok(
                (AttributeView { name: self.name@, kind, getter: self.getter@, setter: self.setter@ }),
            ),
            None => Err(RegistrationError::UnsupportedValueKind),
        }
    }

    /// A request for an attribute read and written through the two shims.
    pub fn new_accessors(name: &[u8], ty: AttrType, getter: &[u8], setter: &[u8]) -> (b: AttrBuilder)
        ensures
            b.name@ == name@,
            b.ty == ty,
            b.getter@ == getter@,
            b.setter@ == setter@,
    {
        AttrBuilder { name: copy_bytes(name), ty, getter: copy_bytes(getter), setter: copy_bytes(setter) }
    }

    /// Checks the request and turns it into a descriptor.
    pub fn build(&self) -> (r: Result<AttributeDescriptor, RegistrationError>)
        ensures
            match r {
                Ok(d) => self.built() == Ok::<AttributeView, RegistrationError>(d@),
                Err(e) => self.built() == Err::<AttributeView, RegistrationError>(e),
            },
    {
        let kind = match self.ty {
            AttrType::Int64 => Kind::Integer,
            AttrType::Float64 => Kind::Float,
            AttrType::SymbolRef => Kind::Symbol,
            _ => {
                return Err(RegistrationError::UnsupportedValueKind);
            },
        };
        Ok(
            AttributeDescriptor {
                name: copy_bytes(self.name.as_slice()),
                kind,
                getter: copy_bytes(self.getter.as_slice()),
                setter: copy_bytes(self.setter.as_slice()),
            },
        )
    }
}

/// Whether an attribute of that name is among `attrs`.
pub open spec fn has_attribute(attrs: Seq<AttributeView>, name: Seq<u8>) -> bool {
    exists|i: int| 0 <= i < attrs.len() && (#[trigger] attrs[i]).name == name
}

/// Whether no two of the attributes share a name.
pub open spec fn distinct_names(attrs: Seq<AttributeView>) -> bool {
    forall|i: int, j: int| 0 <= i < j < attrs.len() ==> attrs[i].name != attrs[j].name
}

/// What adding one attribute to those already there gives: the longer list,
/// or `DuplicateAttribute` where the name is taken.
pub open spec fn added(attrs: Seq<AttributeView>, a: AttributeView) -> Result<Seq<AttributeView>, RegistrationError> {
    if has_attribute(attrs, a.name) {
        Err(RegistrationError::DuplicateAttribute)
    } else {
        Ok(attrs.push(a))
    }
}

/// What registering the first `n` requests in order gives: every attribute,
/// or the error of the first request that fails, whether by its type or by
/// its name.
pub open spec fn registered(requests: Seq<AttrBuilder>, n: int) -> Result<Seq<AttributeView>, RegistrationError>
    decreases n,
{
    if n <= 0 {
        Ok(Seq::empty())
    } else {
        match registered(requests, n - 1) {
            Err(e) => Err(e),
            Ok(done) => match requests[n - 1].built() {
                Err(e) => Err(e),
                Ok(a) => added(done, a),
            },
        }
    }
}

/// The registry of one class.
pub struct Class {
    name: Vec<u8>,
    methods: Vec<MethodDescriptor>,
    attributes: Vec<AttributeDescriptor>,
    finalized: bool,
}

impl Class {
    /// The class's name.
    pub closed spec fn name(&self) -> Seq<u8> {
        self.name@
    }

    /// The methods, in the order in which they were added.
    pub closed spec fn methods(&self) -> Seq<MethodView> {
        Seq::new(self.methods@.len(), |i: int| self.methods@[i]@)
    }

    /// The attributes, in the order in which they were added.
    pub closed spec fn attributes(&self) -> Seq<AttributeView> {
        Seq::new(self.attributes@.len(), |i: int| self.attributes@[i]@)
    }

    /// Whether the class has been registered and is closed to changes.
    pub closed spec fn is_finalized(&self) -> bool {
        self.finalized
    }

    /// No two attributes share a name.
    pub open spec fn wf(&self) -> bool {
        distinct_names(self.attributes())
    }

    /// A class under setup, with nothing registered yet.
    pub fn new(name: &[u8]) -> (c: Class)
        ensures
            c.name() == name@,
            c.methods() == Seq::<MethodView>::empty(),
            c.attributes() == Seq::<AttributeView>::empty(),
            !c.is_finalized(),
            c.wf(),
    {
        let c = Class { name: copy_bytes(name), methods: Vec::new(), attributes: Vec::new(), finalized: false };
        assert(c.methods() =~= Seq::<MethodView>::empty());
        assert(c.attributes() =~= Seq::<AttributeView>::empty());
        c
    }

    /// Whether the class is closed to changes.
    pub fn finalized(&self) -> (b: bool)
        ensures
            b == self.is_finalized(),
    {
        self.finalized
    }

    /// How many methods are registered.
    pub fn method_count(&self) -> (n: usize)
        ensures
            n == self.methods().len(),
    {
        self.methods.len()
    }

    /// How many attributes are registered.
    pub fn attribute_count(&self) -> (n: usize)
        ensures
            n == self.attributes().len(),
    {
        self.attributes.len()
    }

    /// The method at position `i`.
    pub fn method(&self, i: usize) -> (m: &MethodDescriptor)
        requires
            i < self.methods().len(),
        ensures
            m@ == self.methods()[i as int],
    {
        &self.methods[i]
    }

    /// The attribute at position `i`.
    pub fn attribute(&self, i: usize) -> (a: &AttributeDescriptor)
        requires
            i < self.attributes().len(),
        ensures
            a@ == self.attributes()[i as int],
    {
        &self.attributes[i]
    }

    /// The class's name.
    pub fn class_name(&self) -> (name: Vec<u8>)
        ensures
            name@ == self.name(),
    {
        copy_bytes(self.name.as_slice())
    }

    /// Adds a method under its name and role, with the name of its shim. Only
    /// a class still under setup takes one.
    pub fn add_method(&mut self, name: &[u8], role: Role, shim: &[u8])
        requires
            !old(self).is_finalized(),
        ensures
            final(self).methods() == old(self).methods().push((MethodView { name: name@, role, shim: shim@ })),
            final(self).attributes() == old(self).attributes(),
            final(self).name() == old(self).name(),
            !final(self).is_finalized(),
    {
        let method = MethodDescriptor { name: copy_bytes(name), role, shim: copy_bytes(shim) };
        self.methods.push(method);
        assert(self.methods() =~= old(self).methods().push(method@));
        assert(self.attributes() =~= old(self).attributes());
    }

    /// Finds the position of the attribute of that name.
    pub fn find_attribute(&self, name: &[u8]) -> (r: Option<usize>)
        ensures
            match r {
                Some(i) => i < self.attributes().len() && self.attributes()[i as int].name == name@
                    && forall|j: int| 0 <= j < i ==> (#[trigger] self.attributes()[j]).name != name@,
                None => !has_attribute(self.attributes(), name@),
            },
    {
        let mut i: usize = 0;
        while i < self.attributes.len()
            invariant
                i <= self.attributes.len(),
                forall|j: int| 0 <= j < i ==> (#[trigger] self.attributes()[j]).name != name@,
            decreases self.attributes.len() - i,
        {
            if same_bytes(self.attributes[i].name.as_slice(), name) {
                return Some(i);
            }
            i = i + 1;
        }
        None
    }

    /// Adds an attribute. Only a class still under setup takes one. Where the
    /// name is taken the class stays as it was and the error says so.
    pub fn add_attribute(&mut self, attribute: AttributeDescriptor) -> (r: Result<(), RegistrationError>)
        requires
            !old(self).is_finalized(),
            old(self).wf(),
        ensures
            final(self).wf(),
            !final(self).is_finalized(),
            final(self).name() == old(self).name(),
            final(self).methods() == old(self).methods(),
            match r {
                Ok(()) => added(old(self).attributes(), attribute@) == Ok::<Seq<AttributeView>, RegistrationError>(
                    final(self).attributes(),
                ),
                Err(e) => added(old(self).attributes(), attribute@) == Err::<Seq<AttributeView>, RegistrationError>(e)
                    && final(self).attributes() == old(self).attributes(),
            },
    {
        match self.find_attribute(attribute.name.as_slice()) {
            Some(_) => Err(RegistrationError::DuplicateAttribute),
            None => {
                self.attributes.push(attribute);
                assert(self.attributes() =~= old(self).attributes().push(attribute@));
                assert(self.methods() =~= old(self).methods());
                Ok(())
            },
        }
    }

    /// Closes the class: from here on nothing can be added.
    pub fn finalize(&mut self)
        ensures
            final(self).is_finalized(),
            final(self).name() == old(self).name(),
            final(self).methods() == old(self).methods(),
            final(self).attributes() == old(self).attributes(),
    {
        self.finalized = true;
    }

    /// Sets a class up in one go: the methods as given, then the attribute
    /// requests in order. The first request that fails ends the setup with
    /// its error and no class; otherwise the class comes back closed.
    pub fn setup(name: &[u8], methods: Vec<MethodDescriptor>, requests: &[AttrBuilder]) -> (r: Result<Class, RegistrationError>)
        ensures
            match r {
                Ok(c) => c.is_finalized() && c.wf() && c.name() == name@
                    && c.methods() == Seq::new(methods@.len(), |i: int| methods@[i]@)
                    && registered(requests@, requests@.len() as int) == Ok::<Seq<AttributeView>, RegistrationError>(
                    c.attributes(),
                ),
                Err(e) => registered(requests@, requests@.len() as int) == Err::<Seq<AttributeView>, RegistrationError>(e),
            },
    {
        let mut c = Class { name: copy_bytes(name), methods, attributes: Vec::new(), finalized: false };
        assert(c.attributes() =~= Seq::<AttributeView>::empty());
        let mut i: usize = 0;
        while i < requests.len()
            invariant
                i <= requests.len(),
                !c.is_finalized(),
                c.wf(),
                c.name() == name@,
                c.methods() == Seq::new(methods@.len(), |k: int| methods@[k]@),
                registered(requests@, i as int) == Ok::<Seq<AttributeView>, RegistrationError>(c.attributes()),
            decreases requests.len() - i,
        {
            let built = requests[i].build();
            match built {
                Err(e) => {
                    proof {
                        registered_stays_failed(requests@, i as int + 1, requests@.len() as int);
                    }
                    return Err(e);
                },
                Ok(d) => match c.add_attribute(d) {
                    Err(e) => {
                        proof {
                            registered_stays_failed(requests@, i as int + 1, requests@.len() as int);
                        }
                        return Err(e);
                    },
                    Ok(()) => {},
                },
            }
            i = i + 1;
        }
        c.finalize();
        Ok(c)
    }
}

/// Once a request has failed, the requests after it change nothing: the same
/// error stands.
pub proof fn registered_stays_failed(requests: Seq<AttrBuilder>, n: int, m: int)
    requires
        0 <= n <= m,
        registered(requests, n).is_err(),
    ensures
        registered(requests, m) == registered(requests, n),
    decreases m - n,
{
    if n < m {
        registered_stays_failed(requests, n, m - 1);
    }
}

/// Adding an attribute keeps the names distinct, and a second attribute of
/// the same name is then refused as a duplicate: exactly one of that name
/// stays.
pub proof fn duplicate_leaves_one(attrs: Seq<AttributeView>, a: AttributeView, b: AttributeView)
    requires
        distinct_names(attrs),
        !has_attribute(attrs, a.name),
        b.name == a.name,
    ensures
        added(attrs, a) == Ok::<Seq<AttributeView>, RegistrationError>(attrs.push(a)),
        distinct_names(attrs.push(a)),
        added(attrs.push(a), b) == Err::<Seq<AttributeView>, RegistrationError>(
            RegistrationError::DuplicateAttribute,
        ),
        forall|i: int| 0 <= i < attrs.push(a).len() && (#[trigger] attrs.push(a)[i]).name == a.name ==> i == attrs.len(),
{
    let s = attrs.push(a);
    assert(s[attrs.len() as int].name == b.name);
    assert forall|i: int, j: int| 0 <= i < j < s.len() implies s[i].name != s[j].name by {
        if j == attrs.len() {
            assert(attrs[i].name != a.name);
        }
    }
    assert forall|i: int| 0 <= i < s.len() && (#[trigger] s[i]).name == a.name implies i == attrs.len() by {
        if i < attrs.len() {
            assert(attrs[i].name != a.name);
        }
    }
}

} // verus!
