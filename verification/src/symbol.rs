//! The symbol table: names interned once and referred to by index from then
//! on.

use vstd::prelude::*;
use crate::atom::{Atom, MarshalError, SymbolRef};

verus! {

/// Whether a byte string holds a zero byte, which no host string can carry.
pub open spec fn has_nul(s: Seq<u8>) -> bool {
    exists|i: int| 0 <= i < s.len() && #[trigger] s[i] == 0u8
}

/// Whether `name` is among `names`.
pub open spec fn holds(names: Seq<Seq<u8>>, name: Seq<u8>) -> bool {
    exists|i: int| 0 <= i < names.len() && #[trigger] names[i] == name
}

/// Tests a byte string for a zero byte.
pub fn contains_nul(s: &[u8]) -> (b: bool)
    ensures
        b == has_nul(s@),
{
    let mut i: usize = 0;
    while i < s.len()
        invariant
            i <= s.len(),
            forall|j: int| 0 <= j < i ==> #[trigger] s@[j] != 0u8,
        decreases s.len() - i,
    {
        if s[i] == 0 {
            return true;
        }
        i = i + 1;
    }
    false
}

/// Compares two byte strings.
pub fn same_bytes(a: &[u8], b: &[u8]) -> (eq: bool)
    ensures
        eq == (a@ == b@),
{
    if a.len() != b.len() {
        return false;
    }
    let mut i: usize = 0;
    while i < a.len()
        invariant
            a.len() == b.len(),
            i <= a.len(),
            forall|j: int| 0 <= j < i ==> a@[j] == b@[j],
        decreases a.len() - i,
    {
        if a[i] != b[i] {
            return false;
        }
        i = i + 1;
    }
    assert(a@ =~= b@);
    true
}

/// Copies a byte string.
pub fn copy_bytes(s: &[u8]) -> (v: Vec<u8>)
    ensures
        v@ == s@,
{
    let mut v: Vec<u8> = Vec::new();
    let mut i: usize = 0;
    while i < s.len()
        invariant
            i <= s.len(),
            v@ == s@.take(i as int),
        decreases s.len() - i,
    {
        v.push(s[i]);
        assert(s@.take(i as int).push(s@[i as int]) =~= s@.take(i + 1));
        i = i + 1;
    }
    assert(s@.take(s@.len() as int) =~= s@);
    v
}

/// The interned names of one process. A name, once interned, keeps its index
/// for good.
pub struct SymbolTable {
    names: Vec<Vec<u8>>,
}

impl SymbolTable {
    /// The interned names, by index.
    pub closed spec fn view(&self) -> Seq<Seq<u8>> {
        Seq::new(self.names@.len(), |i: int| self.names@[i]@)
    }

    /// No name is held twice and none holds a zero byte.
    pub open spec fn wf(&self) -> bool {
        &&& forall|i: int, j: int| 0 <= i < j < self@.len() ==> self@[i] != self@[j]
        &&& forall|i: int| 0 <= i < self@.len() ==> !has_nul(#[trigger] self@[i])
    }

    /// An empty table.
    pub fn new() -> (t: SymbolTable)
        ensures
            t@ == Seq::<Seq<u8>>::empty(),
            t.wf(),
    {
        let t = SymbolTable { names: Vec::new() };
        assert(t@ =~= Seq::<Seq<u8>>::empty());
        t
    }

    /// How many names are interned.
    pub fn len(&self) -> (n: usize)
        ensures
            n == self@.len(),
    {
        self.names.len()
    }

    /// Finds the reference of a name that is already interned.
    pub fn lookup(&self, name: &[u8]) -> (r: Option<SymbolRef>)
        ensures
            match r {
                Some(s) => s.index < self@.len() && self@[s.index as int] == name@
                    && forall|j: int| 0 <= j < s.index ==> #[trigger] self@[j] != name@,
                None => !holds(self@, name@),
            },
    {
        let mut i: usize = 0;
        while i < self.names.len()
            invariant
                i <= self.names.len(),
                forall|j: int| 0 <= j < i ==> #[trigger] self@[j] != name@,
            decreases self.names.len() - i,
        {
            if same_bytes(self.names[i].as_slice(), name) {
                return Some(SymbolRef { index: i });
            }
            i = i + 1;
        }
        None
    }

    /// The name behind a reference, if the reference is of this table.
    pub fn resolve(&self, s: SymbolRef) -> (r: Option<Vec<u8>>)
        ensures
            match r {
                Some(name) => s.index < self@.len() && name@ == self@[s.index as int],
                None => s.index >= self@.len(),
            },
    {
        if s.index < self.names.len() {
            Some(copy_bytes(self.names[s.index].as_slice()))
        } else {
            None
        }
    }

    /// Interns a name. A name with a zero byte cannot be interned and leaves
    /// the table as it was; a name already held keeps its index; a new name
    /// goes to the end.
    pub fn intern(&mut self, name: &[u8]) -> (r: Result<SymbolRef, MarshalError>)
        requires
            old(self).wf(),
        ensures
            final(self).wf(),
            has_nul(name@) ==> r == Err::<SymbolRef, MarshalError>(MarshalError::InternFailure)
                && final(self)@ == old(self)@,
            !has_nul(name@) ==> r.is_ok() && r.unwrap().index < final(self)@.len()
                && final(self)@[r.unwrap().index as int] == name@,
            !has_nul(name@) && holds(old(self)@, name@) ==> final(self)@ == old(self)@,
            !has_nul(name@) && !holds(old(self)@, name@) ==> final(self)@ == old(self)@.push(name@),
    {
        if contains_nul(name) {
            return Err(MarshalError::InternFailure);
        }
        match self.lookup(name) {
            Some(s) => Ok(s),
            None => {
                let index = self.names.len();
                self.names.push(copy_bytes(name));
                assert(self@ =~= old(self)@.push(name@));
                Ok(SymbolRef { index })
            },
        }
    }
}

/// Encodes a name as a symbol atom, interning it first.
pub fn encode_symbol(table: &mut SymbolTable, name: &[u8]) -> (r: Result<Atom, MarshalError>)
    requires
        old(table).wf(),
    ensures
        final(table).wf(),
        has_nul(name@) ==> r == Err::<Atom, MarshalError>(MarshalError::InternFailure)
            && final(table)@ == old(table)@,
        !has_nul(name@) ==> match r {
            Ok(Atom::Symbol(s)) => s.index < final(table)@.len() && final(table)@[s.index as int] == name@,
            _ => false,
        },
        !has_nul(name@) && holds(old(table)@, name@) ==> final(table)@ == old(table)@,
        !has_nul(name@) && !holds(old(table)@, name@) ==> final(table)@ == old(table)@.push(name@),
{
    match table.intern(name) {
        Ok(s) => Ok(Atom::Symbol(s)),
        Err(e) => Err(e),
    }
}

/// Where no name is held twice, a name stands at one index only: whoever
/// finds it finds it there.
pub proof fn interned_once(names: Seq<Seq<u8>>, i: int, j: int)
    requires
        forall|a: int, b: int| 0 <= a < b < names.len() ==> names[a] != names[b],
        0 <= i < names.len(),
        0 <= j < names.len(),
        names[i] == names[j],
    ensures
        i == j,
{
    if i < j {
        assert(names[i] != names[j]);
    } else if j < i {
        assert(names[j] != names[i]);
    }
}

} // verus!
