//! The subtype tag that the engine stores in every temporal value, and the
//! variants it decodes to.
use vstd::prelude::*;

verus! {

/// Tag of a value whose subtype is not fixed.
pub const ANY_SUBTYPE_TAG: u8 = 0;

/// Tag of a temporal instant.
pub const INSTANT_TAG: u8 = 1;

/// Tag of a temporal sequence.
pub const SEQUENCE_TAG: u8 = 2;

/// Tag of a temporal sequence set.
pub const SEQUENCE_SET_TAG: u8 = 3;

/// The engine's subtype tag, decoded.
#[derive(Debug, Clone, Copy, PartialEq, Eq, Structural)]
pub enum TemporalSubtype {
    TAny,
    TInstant,
    TSequence,
    TSequenceSet,
}

/// The variant of a concrete temporal value.
#[derive(Debug, Clone, Copy, PartialEq, Eq, Structural)]
pub enum Type {
    Instant,
    Sequence,
    SequenceSet,
}

/// The subtype that a tag stands for, if it stands for one.
pub open spec fn subtype_of_tag(tag: u8) -> Option<TemporalSubtype> {
    if tag == ANY_SUBTYPE_TAG {
        Some(TemporalSubtype::TAny)
    } else if tag == INSTANT_TAG {
        Some(TemporalSubtype::TInstant)
    } else if tag == SEQUENCE_TAG {
        Some(TemporalSubtype::TSequence)
    } else if tag == SEQUENCE_SET_TAG {
        Some(TemporalSubtype::TSequenceSet)
    } else {
        None
    }
}

/// The tag that the engine stores for a subtype.
pub open spec fn tag_of_subtype(s: TemporalSubtype) -> u8 {
    match s {
        TemporalSubtype::TAny => ANY_SUBTYPE_TAG,
        TemporalSubtype::TInstant => INSTANT_TAG,
        TemporalSubtype::TSequence => SEQUENCE_TAG,
        TemporalSubtype::TSequenceSet => SEQUENCE_SET_TAG,
    }
}

/// The variant of a concrete value of a subtype; `TAny` has none.
pub open spec fn type_of_subtype(s: TemporalSubtype) -> Option<Type> {
    match s {
        TemporalSubtype::TAny => None,
        TemporalSubtype::TInstant => Some(Type::Instant),
        TemporalSubtype::TSequence => Some(Type::Sequence),
        TemporalSubtype::TSequenceSet => Some(Type::SequenceSet),
    }
}

/// The variant that a tag read from a concrete value stands for.
pub open spec fn type_of_tag(tag: u8) -> Option<Type> {
    match subtype_of_tag(tag) {
        Some(s) => type_of_subtype(s),
        None => None,
    }
}

/// The subtype of a variant.
pub open spec fn subtype_of_type(t: Type) -> TemporalSubtype {
    match t {
        Type::Instant => TemporalSubtype::TInstant,
        Type::Sequence => TemporalSubtype::TSequence,
        Type::SequenceSet => TemporalSubtype::TSequenceSet,
    }
}

impl TemporalSubtype {
    /// Decodes a tag; tags the engine does not define give `None`.
    pub fn from_tag(tag: u8) -> (r: Option<TemporalSubtype>)
        ensures
            r == subtype_of_tag(tag),
    {
        if tag == ANY_SUBTYPE_TAG {
            Some(TemporalSubtype::TAny)
        } else if tag == INSTANT_TAG {
            Some(TemporalSubtype::TInstant)
        } else if tag == SEQUENCE_TAG {
            Some(TemporalSubtype::TSequence)
        } else if tag == SEQUENCE_SET_TAG {
            Some(TemporalSubtype::TSequenceSet)
        } else {
            None
        }
    }

    /// The tag that the engine stores for this subtype.
    pub fn tag(&self) -> (r: u8)
        ensures
            r == tag_of_subtype(*self),
            subtype_of_tag(r) == Some(*self),
    {
        match self {
            TemporalSubtype::TAny => ANY_SUBTYPE_TAG,
            TemporalSubtype::TInstant => INSTANT_TAG,
            TemporalSubtype::TSequence => SEQUENCE_TAG,
            TemporalSubtype::TSequenceSet => SEQUENCE_SET_TAG,
        }
    }

    /// The variant of a concrete value of this subtype.
    pub fn temporal_type(&self) -> (r: Option<Type>)
        ensures
            r == type_of_subtype(*self),
    {
        match self {
            TemporalSubtype::TAny => None,
            TemporalSubtype::TInstant => Some(Type::Instant),
            TemporalSubtype::TSequence => Some(Type::Sequence),
            TemporalSubtype::TSequenceSet => Some(Type::SequenceSet),
        }
    }

    /// The subtype's display name.
    pub fn name(&self) -> (r: &'static str)
        ensures
            r@ == subtype_label(*self),
    {
        match self {
            TemporalSubtype::TAny => "Any",
            TemporalSubtype::TInstant => "Instant",
            TemporalSubtype::TSequence => "Sequence",
            TemporalSubtype::TSequenceSet => "SequenceSet",
        }
    }
}

/// Display name of a subtype.
pub open spec fn subtype_label(s: TemporalSubtype) -> Seq<char> {
    match s {
        TemporalSubtype::TAny => "Any"@,
        TemporalSubtype::TInstant => "Instant"@,
        TemporalSubtype::TSequence => "Sequence"@,
        TemporalSubtype::TSequenceSet => "SequenceSet"@,
    }
}

/// Display name of a variant.
pub open spec fn variant_name(t: Type) -> Seq<char> {
    match t {
        Type::Instant => "Instant"@,
        Type::Sequence => "Sequence"@,
        Type::SequenceSet => "SequenceSet"@,
    }
}

impl Type {
    /// Decodes the tag read from a concrete value; `None` where the tag names
    /// no concrete variant.
    pub fn from_tag(tag: u8) -> (r: Option<Type>)
        ensures
            r == type_of_tag(tag),
    {
        match TemporalSubtype::from_tag(tag) {
            Some(s) => s.temporal_type(),
            None => None,
        }
    }

    /// The subtype of this variant.
    pub fn subtype(&self) -> (r: TemporalSubtype)
        ensures
            r == subtype_of_type(*self),
            type_of_subtype(r) == Some(*self),
    {
        match self {
            Type::Instant => TemporalSubtype::TInstant,
            Type::Sequence => TemporalSubtype::TSequence,
            Type::SequenceSet => TemporalSubtype::TSequenceSet,
        }
    }

    /// The variant's display name.
    pub fn name(&self) -> (r: &'static str)
        ensures
            r@ == variant_name(*self),
    {
        match self {
            Type::Instant => "Instant",
            Type::Sequence => "Sequence",
            Type::SequenceSet => "SequenceSet",
        }
    }
}

/// Tag of discrete interpolation.
pub const DISCRETE_TAG: u8 = 1;

/// Tag of step interpolation.
pub const STEP_TAG: u8 = 2;

/// Tag of linear interpolation.
pub const LINEAR_TAG: u8 = 3;

/// How a sequence interpolates between its instants.
#[derive(Debug, Clone, Copy, PartialEq, Eq, Structural)]
pub enum Interpolation {
    Discrete,
    Step,
    Linear,
}

/// The tag that the engine takes for an interpolation.
pub open spec fn tag_of_interpolation(i: Interpolation) -> u8 {
    match i {
        Interpolation::Discrete => DISCRETE_TAG,
        Interpolation::Step => STEP_TAG,
        Interpolation::Linear => LINEAR_TAG,
    }
}

/// The interpolation that a tag stands for, if any.
pub open spec fn interpolation_of_tag(tag: u8) -> Option<Interpolation> {
    if tag == DISCRETE_TAG {
        Some(Interpolation::Discrete)
    } else if tag == STEP_TAG {
        Some(Interpolation::Step)
    } else if tag == LINEAR_TAG {
        Some(Interpolation::Linear)
    } else {
        None
    }
}

impl Interpolation {
    /// Decodes an interpolation tag.
    pub fn from_tag(tag: u8) -> (r: Option<Interpolation>)
        ensures
            r == interpolation_of_tag(tag),
    {
        if tag == DISCRETE_TAG {
            Some(Interpolation::Discrete)
        } else if tag == STEP_TAG {
            Some(Interpolation::Step)
        } else if tag == LINEAR_TAG {
            Some(Interpolation::Linear)
        } else {
            None
        }
    }

    /// The tag that the engine takes for this interpolation.
    pub fn tag(&self) -> (r: u8)
        ensures
            r == tag_of_interpolation(*self),
            interpolation_of_tag(r) == Some(*self),
    {
        match self {
            Interpolation::Discrete => DISCRETE_TAG,
            Interpolation::Step => STEP_TAG,
            Interpolation::Linear => LINEAR_TAG,
        }
    }

    /// Whether values between instants are defined (step or linear).
    pub fn is_continuous(&self) -> (r: bool)
        ensures
            r == (*self != Interpolation::Discrete),
    {
        match self {
            Interpolation::Discrete => false,
            _ => true,
        }
    }
}

} // verus!
