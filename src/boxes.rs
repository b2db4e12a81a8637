//! Owned handles on the engine's bounding boxes: a value and time box, and a
//! space and time box.
use vstd::prelude::*;

use crate::error::Error;

verus! {

/// A box over values and time, owned by the binding.
pub struct TBox {
    addr: usize,
}

/// A box over space and time, owned by the binding.
pub struct STBox {
    addr: usize,
}

impl View for TBox {
    type V = usize;

    closed spec fn view(&self) -> usize {
        self.addr
    }
}

impl View for STBox {
    type V = usize;

    closed spec fn view(&self) -> usize {
        self.addr
    }
}

impl TBox {
    #[verifier::type_invariant]
    spec fn wf(&self) -> bool {
        self.addr != 0
    }

    /// Takes the parser's answer: the box's address, zero where the text did
    /// not parse.
    pub fn from_parsed(addr: usize) -> (r: Result<TBox, Error>)
        ensures
            addr == 0 <==> r is Err,
            r matches Ok(b) ==> b@ == addr,
            r matches Err(e) ==> e == Error::ParseError,
    {
        if addr == 0 {
            Err(Error::ParseError)
        } else {
            Ok(TBox { addr })
        }
    }

    /// The engine's address of this box.
    pub fn addr(&self) -> (r: usize)
        ensures
            r == self@,
            r != 0,
    {
        proof {
            use_type_invariant(self);
        }
        self.addr
    }
}

impl STBox {
    #[verifier::type_invariant]
    spec fn wf(&self) -> bool {
        self.addr != 0
    }

    /// Takes the parser's answer: the box's address, zero where the text did
    /// not parse.
    pub fn from_parsed(addr: usize) -> (r: Result<STBox, Error>)
        ensures
            addr == 0 <==> r is Err,
            r matches Ok(b) ==> b@ == addr,
            r matches Err(e) ==> e == Error::ParseError,
    {
        if addr == 0 {
            Err(Error::ParseError)
        } else {
            Ok(STBox { addr })
        }
    }

    /// The engine's address of this box.
    pub fn addr(&self) -> (r: usize)
        ensures
            r == self@,
            r != 0,
    {
        proof {
            use_type_invariant(self);
        }
        self.addr
    }
}

} // verus!
