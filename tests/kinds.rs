use meos::kind::{
    Interpolation, TemporalSubtype, Type, ANY_SUBTYPE_TAG, INSTANT_TAG, SEQUENCE_SET_TAG,
    SEQUENCE_TAG,
};

#[test]
fn subtype_tags_decode_and_encode() {
    assert_eq!(TemporalSubtype::from_tag(0), Some(TemporalSubtype::TAny));
    assert_eq!(TemporalSubtype::from_tag(1), Some(TemporalSubtype::TInstant));
    assert_eq!(TemporalSubtype::from_tag(2), Some(TemporalSubtype::TSequence));
    assert_eq!(TemporalSubtype::from_tag(3), Some(TemporalSubtype::TSequenceSet));
    assert_eq!(TemporalSubtype::from_tag(4), None);
    assert_eq!(TemporalSubtype::from_tag(255), None);
    for s in [
        TemporalSubtype::TAny,
        TemporalSubtype::TInstant,
        TemporalSubtype::TSequence,
        TemporalSubtype::TSequenceSet,
    ] {
        assert_eq!(TemporalSubtype::from_tag(s.tag()), Some(s));
    }
}

#[test]
fn type_from_tag_excludes_any_subtype() {
    assert_eq!(Type::from_tag(ANY_SUBTYPE_TAG), None);
    assert_eq!(Type::from_tag(INSTANT_TAG), Some(Type::Instant));
    assert_eq!(Type::from_tag(SEQUENCE_TAG), Some(Type::Sequence));
    assert_eq!(Type::from_tag(SEQUENCE_SET_TAG), Some(Type::SequenceSet));
    assert_eq!(Type::from_tag(9), None);
    assert_eq!(TemporalSubtype::TAny.temporal_type(), None);
    assert_eq!(Type::Sequence.subtype(), TemporalSubtype::TSequence);
}

#[test]
fn names_of_variants() {
    assert_eq!(Type::Instant.name(), "Instant");
    assert_eq!(Type::Sequence.name(), "Sequence");
    assert_eq!(Type::SequenceSet.name(), "SequenceSet");
    assert_eq!(TemporalSubtype::TAny.name(), "Any");
    assert_eq!(TemporalSubtype::TInstant.name(), "Instant");
    assert_eq!(TemporalSubtype::TSequence.name(), "Sequence");
    assert_eq!(TemporalSubtype::TSequenceSet.name(), "SequenceSet");
}

#[test]
fn interpolation_tags() {
    assert_eq!(Interpolation::Discrete.tag(), 1);
    assert_eq!(Interpolation::Step.tag(), 2);
    assert_eq!(Interpolation::Linear.tag(), 3);
    assert_eq!(Interpolation::from_tag(3), Some(Interpolation::Linear));
    assert_eq!(Interpolation::from_tag(2), Some(Interpolation::Step));
    assert_eq!(Interpolation::from_tag(0), None);
    assert!(!Interpolation::Discrete.is_continuous());
    assert!(Interpolation::Step.is_continuous());
    assert!(Interpolation::Linear.is_continuous());
}
