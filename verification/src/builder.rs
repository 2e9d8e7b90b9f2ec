//! The builder that an object's constructor declares its layout with, and the
//! layout that registration consumes.

use vstd::prelude::*;
use crate::clock::ClockHandle;

verus! {

/// The handler of an extra message inlet.
#[derive(Clone, Copy, Debug, PartialEq, Eq, Structural)]
pub enum Inlet {
    Integer,
    Float,
    Proxy,
}

/// What a constructor declared, fixed for the object's life.
pub struct FinalizedLayout {
    pub signal_inputs: usize,
    pub signal_outputs: usize,
    pub inlets: Vec<Inlet>,
    pub list_outlets: usize,
    pub clock: Option<usize>,
}

/// What a constructor has declared so far.
pub struct Builder {
    signal_inputs: usize,
    signal_outputs: usize,
    inlets: Vec<Inlet>,
    list_outlets: usize,
    clock: Option<usize>,
}

impl Builder {
    /// The number of signal inputs declared.
    pub closed spec fn signal_inputs(&self) -> usize {
        self.signal_inputs
    }

    /// The number of signal outputs declared.
    pub closed spec fn signal_outputs(&self) -> usize {
        self.signal_outputs
    }

    /// The extra inlets declared, in order.
    pub closed spec fn inlets(&self) -> Seq<Inlet> {
        self.inlets@
    }

    /// The number of list outlets declared.
    pub closed spec fn list_outlets(&self) -> usize {
        self.list_outlets
    }

    /// The callback of the clock, if one is bound.
    pub closed spec fn clock(&self) -> Option<usize> {
        self.clock
    }

    /// A builder with nothing declared.
    pub fn new() -> (b: Builder)
        ensures
            b.signal_inputs() == 0,
            b.signal_outputs() == 0,
            b.inlets() == Seq::<Inlet>::empty(),
            b.list_outlets() == 0,
            b.clock().is_none(),
    {
        Builder { signal_inputs: 0, signal_outputs: 0, inlets: Vec::new(), list_outlets: 0, clock: None }
    }

    /// Declares the number of signal inputs.
    pub fn with_inputs(self, n: usize) -> (b: Builder)
        ensures
            b.signal_inputs() == n,
            b.signal_outputs() == self.signal_outputs(),
            b.inlets() == self.inlets(),
            b.list_outlets() == self.list_outlets(),
            b.clock() == self.clock(),
    {
        Builder {
            signal_inputs: n,
            signal_outputs: self.signal_outputs,
            inlets: self.inlets,
            list_outlets: self.list_outlets,
            clock: self.clock,
        }
    }

    /// Declares the number of signal outputs.
    pub fn add_signal_outlets(&mut self, n: usize)
        ensures
            final(self).signal_outputs() == n,
            final(self).signal_inputs() == old(self).signal_inputs(),
            final(self).inlets() == old(self).inlets(),
            final(self).list_outlets() == old(self).list_outlets(),
            final(self).clock() == old(self).clock(),
    {
        self.signal_outputs = n;
    }

    /// Declares one more inlet and gives its position.
    pub fn add_inlet(&mut self, inlet: Inlet) -> (index: usize)
        ensures
            index == old(self).inlets().len(),
            final(self).inlets() == old(self).inlets().push(inlet),
            final(self).signal_inputs() == old(self).signal_inputs(),
            final(self).signal_outputs() == old(self).signal_outputs(),
            final(self).list_outlets() == old(self).list_outlets(),
            final(self).clock() == old(self).clock(),
    {
        let index = self.inlets.len();
        self.inlets.push(inlet);
        index
    }

    /// Declares one more list outlet and gives its position.
    pub fn add_list_outlet(&mut self) -> (index: usize)
        requires
            old(self).list_outlets() < usize::MAX,
        ensures
            index == old(self).list_outlets(),
            final(self).list_outlets() == old(self).list_outlets() + 1,
            final(self).signal_inputs() == old(self).signal_inputs(),
            final(self).signal_outputs() == old(self).signal_outputs(),
            final(self).inlets() == old(self).inlets(),
            final(self).clock() == old(self).clock(),
    {
        let index = self.list_outlets;
        self.list_outlets = index + 1;
        index
    }

    /// Binds the object's one clock to a callback and gives the handle to
    /// arm it with.
    pub fn with_clockfn(&mut self, timer: usize, callback: usize) -> (c: ClockHandle)
        requires
            old(self).clock().is_none(),
        ensures
            final(self).clock() == Some(callback),
            c.timer() == timer,
            c.callback() == callback,
            c.state().pending.is_none(),
            final(self).signal_inputs() == old(self).signal_inputs(),
            final(self).signal_outputs() == old(self).signal_outputs(),
            final(self).inlets() == old(self).inlets(),
            final(self).list_outlets() == old(self).list_outlets(),
    {
        self.clock = Some(callback);
        ClockHandle::bind(timer, callback)
    }

    /// Whether a clock is bound already.
    pub fn has_clock(&self) -> (b: bool)
        ensures
            b == self.clock().is_some(),
    {
        self.clock.is_some()
    }

    /// Ends the declarations. The builder is used up.
    pub fn finalize(self) -> (layout: FinalizedLayout)
        ensures
            layout.signal_inputs == self.signal_inputs(),
            layout.signal_outputs == self.signal_outputs(),
            layout.inlets@ == self.inlets(),
            layout.list_outlets == self.list_outlets(),
            layout.clock == self.clock(),
    {
        FinalizedLayout {
            signal_inputs: self.signal_inputs,
            signal_outputs: self.signal_outputs,
            inlets: self.inlets,
            list_outlets: self.list_outlets,
            clock: self.clock,
        }
    }
}

} // verus!
