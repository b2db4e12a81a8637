//! Owned handles on values that the engine allocated.
//!
//! A handle holds the address that the engine returned, never zero. The
//! engine's subtype tag is checked once, when a handle is made, and the handle's
//! type records the outcome. Where a freshly returned value is refused, the
//! refusal names the address that must be released, so that nothing leaks.
use vstd::prelude::*;

use crate::error::Error;
use crate::kind::{type_of_tag, Type};

verus! {

/// A value that the engine returned and the binding refused: the error for the
/// caller, and the address to release, if the engine allocated one.
#[derive(Debug, PartialEq, Eq)]
pub struct Rejection {
    pub error: Error,
    pub release: Option<usize>,
}

/// What becomes of the address `addr` with subtype tag `tag` that the parser
/// returned, when the caller asked for `wanted` (or for any variant).
///
/// Address zero means the parse failed and nothing was allocated. A tag that
/// names no concrete variant, or a variant other than the one asked for,
/// refuses the value and releases it.
pub open spec fn admission(addr: usize, tag: u8, wanted: Option<Type>) -> Result<Type, Rejection> {
    if addr == 0 {
        Err(Rejection { error: Error::ParseError, release: None })
    } else {
        match type_of_tag(tag) {
            None => Err(Rejection { error: Error::MeosError(tag as i32), release: Some(addr) }),
            Some(t) => match wanted {
                Some(w) if w != t => Err(
                    Rejection { error: Error::WrongTemporalType, release: Some(addr) },
                ),
                _ => Ok(t),
            },
        }
    }
}

/// Decides whether a freshly parsed value is accepted, and as which variant.
pub fn accept_parsed(addr: usize, tag: u8, wanted: Option<Type>) -> (r: Result<Type, Rejection>)
    ensures
        r == admission(addr, tag, wanted),
{
    if addr == 0 {
        return Err(Rejection { error: Error::ParseError, release: None });
    }
    match Type::from_tag(tag) {
        None => Err(Rejection { error: Error::MeosError(tag as i32), release: Some(addr) }),
        Some(t) => match wanted {
            Some(w) => {
                if w != t {
                    Err(Rejection { error: Error::WrongTemporalType, release: Some(addr) })
                } else {
                    Ok(t)
                }
            },
            None => Ok(t),
        },
    }
}

/// A temporal instant owned by the binding.
pub struct TInst {
    addr: usize,
}

/// A temporal sequence owned by the binding.
pub struct TSeq {
    addr: usize,
}

/// A temporal sequence set owned by the binding.
pub struct TSet {
    addr: usize,
}

impl View for TInst {
    type V = usize;

    closed spec fn view(&self) -> usize {
        self.addr
    }
}

impl View for TSeq {
    type V = usize;

    closed spec fn view(&self) -> usize {
        self.addr
    }
}

impl View for TSet {
    type V = usize;

    closed spec fn view(&self) -> usize {
        self.addr
    }
}

impl TInst {
    #[verifier::type_invariant]
    spec fn wf(&self) -> bool {
        self.addr != 0
    }

    /// Accepts a freshly parsed value as an instant.
    pub fn from_parsed(addr: usize, tag: u8) -> (r: Result<TInst, Rejection>)
        ensures
            admission(addr, tag, Some(Type::Instant)) is Ok ==> (r matches Ok(t) && t@ == addr),
            admission(addr, tag, Some(Type::Instant)) matches Err(e) ==> r == Err::<TInst, _>(e),
    {
        match accept_parsed(addr, tag, Some(Type::Instant)) {
            Ok(_) => Ok(TInst { addr }),
            Err(e) => Err(e),
        }
    }

    /// The engine's address of this instant.
    pub fn addr(&self) -> (r: usize)
        ensures
            r == self@,
            r != 0,
    {
        proof {
            use_type_invariant(self);
        }
        self.addr
    }

    /// The variant, always `Instant`.
    pub fn ttype(&self) -> (r: Type)
        ensures
            r == Type::Instant,
    {
        Type::Instant
    }
}

impl TSeq {
    #[verifier::type_invariant]
    spec fn wf(&self) -> bool {
        self.addr != 0
    }

    /// Accepts a freshly parsed value as a sequence.
    pub fn from_parsed(addr: usize, tag: u8) -> (r: Result<TSeq, Rejection>)
        ensures
            admission(addr, tag, Some(Type::Sequence)) is Ok ==> (r matches Ok(t) && t@ == addr),
            admission(addr, tag, Some(Type::Sequence)) matches Err(e) ==> r == Err::<TSeq, _>(e),
    {
        match accept_parsed(addr, tag, Some(Type::Sequence)) {
            Ok(_) => Ok(TSeq { addr }),
            Err(e) => Err(e),
        }
    }

    /// The engine's address of this sequence.
    pub fn addr(&self) -> (r: usize)
        ensures
            r == self@,
            r != 0,
    {
        proof {
            use_type_invariant(self);
        }
        self.addr
    }

    /// Replaces the address held, after the engine moved the sequence.
    pub(crate) fn move_to(&mut self, addr: usize)
        requires
            addr != 0,
        ensures
            final(self)@ == addr,
    {
        self.addr = addr;
    }

    /// The variant, always `Sequence`.
    pub fn ttype(&self) -> (r: Type)
        ensures
            r == Type::Sequence,
    {
        Type::Sequence
    }
}

impl TSet {
    #[verifier::type_invariant]
    spec fn wf(&self) -> bool {
        self.addr != 0
    }

    /// Accepts a freshly parsed value as a sequence set.
    pub fn from_parsed(addr: usize, tag: u8) -> (r: Result<TSet, Rejection>)
        ensures
            admission(addr, tag, Some(Type::SequenceSet)) is Ok ==> (r matches Ok(t) && t@ == addr),
            admission(addr, tag, Some(Type::SequenceSet)) matches Err(e) ==> r == Err::<TSet, _>(e),
    {
        match accept_parsed(addr, tag, Some(Type::SequenceSet)) {
            Ok(_) => Ok(TSet { addr }),
            Err(e) => Err(e),
        }
    }

    /// The engine's address of this sequence set.
    pub fn addr(&self) -> (r: usize)
        ensures
            r == self@,
            r != 0,
    {
        proof {
            use_type_invariant(self);
        }
        self.addr
    }

    /// The variant, always `SequenceSet`.
    pub fn ttype(&self) -> (r: Type)
        ensures
            r == Type::SequenceSet,
    {
        Type::SequenceSet
    }
}

/// A temporal value of any variant, as the tag decoded it.
pub enum AnyTemporal {
    Instant(TInst),
    Sequence(TSeq),
    SequenceSet(TSet),
}

/// The variant of a decoded value.
pub open spec fn any_type(t: AnyTemporal) -> Type {
    match t {
        AnyTemporal::Instant(_) => Type::Instant,
        AnyTemporal::Sequence(_) => Type::Sequence,
        AnyTemporal::SequenceSet(_) => Type::SequenceSet,
    }
}

/// The address of a decoded value.
pub open spec fn any_addr(t: AnyTemporal) -> usize {
    match t {
        AnyTemporal::Instant(i) => i@,
        AnyTemporal::Sequence(s) => s@,
        AnyTemporal::SequenceSet(s) => s@,
    }
}

impl AnyTemporal {
    /// Accepts a freshly parsed value of whatever variant its tag names.
    pub fn from_parsed(addr: usize, tag: u8) -> (r: Result<AnyTemporal, Rejection>)
        ensures
            admission(addr, tag, None) matches Ok(t) ==> (r matches Ok(v) && any_type(v) == t
                && any_addr(v) == addr),
            admission(addr, tag, None) matches Err(e) ==> r == Err::<AnyTemporal, _>(e),
    {
        match accept_parsed(addr, tag, None) {
            Ok(Type::Instant) => Ok(AnyTemporal::Instant(TInst { addr })),
            Ok(Type::Sequence) => Ok(AnyTemporal::Sequence(TSeq { addr })),
            Ok(Type::SequenceSet) => Ok(AnyTemporal::SequenceSet(TSet { addr })),
            Err(e) => Err(e),
        }
    }

    /// The variant of this value.
    pub fn ttype(&self) -> (r: Type)
        ensures
            r == any_type(*self),
    {
        match self {
            AnyTemporal::Instant(_) => Type::Instant,
            AnyTemporal::Sequence(_) => Type::Sequence,
            AnyTemporal::SequenceSet(_) => Type::SequenceSet,
        }
    }

    /// The engine's address of this value.
    pub fn addr(&self) -> (r: usize)
        ensures
            r == any_addr(*self),
            r != 0,
    {
        match self {
            AnyTemporal::Instant(i) => i.addr(),
            AnyTemporal::Sequence(s) => s.addr(),
            AnyTemporal::SequenceSet(s) => s.addr(),
        }
    }
}

/// Nothing that the parser allocated leaks: a value it returned is either
/// accepted, or refused with its own address named for release.
pub proof fn lemma_refusal_releases(addr: usize, tag: u8, wanted: Option<Type>)
    requires
        addr != 0,
    ensures
        admission(addr, tag, wanted) is Ok || admission(addr, tag, wanted)->Err_0.release == Some(
            addr,
        ),
{
}

/// Asking for one variant of text that parses to another fails with
/// `WrongTemporalType`, and the value parsed is released.
pub proof fn lemma_wrong_variant(addr: usize, tag: u8, wanted: Type)
    requires
        addr != 0,
        type_of_tag(tag) is Some,
        type_of_tag(tag) != Some(wanted),
    ensures
        admission(addr, tag, Some(wanted)) == Err::<Type, Rejection>(
            Rejection { error: Error::WrongTemporalType, release: Some(addr) },
        ),
{
}

} // verus!
