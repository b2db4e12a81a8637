use std::collections::BTreeSet;

use meos::error::Error;
use meos::handle::{accept_parsed, AnyTemporal, Rejection, TInst, TSeq, TSet};
use meos::kind::{Interpolation, Type, ANY_SUBTYPE_TAG, INSTANT_TAG, SEQUENCE_SET_TAG, SEQUENCE_TAG};

#[test]
fn instant_and_sequence_texts_decode_to_their_variants() {
    // What the engine answers for "POINT(1 1)@2000-01-01".
    let v = AnyTemporal::from_parsed(0x1000, INSTANT_TAG).unwrap();
    assert_eq!(v.ttype(), Type::Instant);
    assert_eq!(v.addr(), 0x1000);
    // For "[POINT(1 1)@2000-01-01, POINT(2 2)@2000-01-02]": a linear sequence.
    let v = AnyTemporal::from_parsed(0x2000, SEQUENCE_TAG).unwrap();
    assert_eq!(v.ttype(), Type::Sequence);
    assert_eq!(Interpolation::from_tag(3), Some(Interpolation::Linear));
    // For "Interp=Step;[...]": a step sequence.
    let v = AnyTemporal::from_parsed(0x3000, SEQUENCE_TAG).unwrap();
    assert_eq!(v.ttype(), Type::Sequence);
    assert_eq!(Interpolation::from_tag(2), Some(Interpolation::Step));
    let v = AnyTemporal::from_parsed(0x4000, SEQUENCE_SET_TAG).unwrap();
    assert_eq!(v.ttype(), Type::SequenceSet);
}

#[test]
fn failed_parse_is_parse_error_and_releases_nothing() {
    let r = TInst::from_parsed(0, INSTANT_TAG);
    assert_eq!(r.err(), Some(Rejection { error: Error::ParseError, release: None }));
    assert_eq!(
        accept_parsed(0, SEQUENCE_TAG, None),
        Err(Rejection { error: Error::ParseError, release: None })
    );
}

#[test]
fn strict_variant_on_sequence_text_is_wrong_type_and_leaks_nothing() {
    let mut live: BTreeSet<usize> = BTreeSet::new();
    let addr: usize = 0x5000;
    live.insert(addr);
    let r = TInst::from_parsed(addr, SEQUENCE_TAG);
    let rejection = r.err().unwrap();
    assert_eq!(rejection.error, Error::WrongTemporalType);
    assert_eq!(rejection.release, Some(addr));
    assert!(live.remove(&rejection.release.unwrap()));
    assert!(live.is_empty());
}

#[test]
fn each_strict_constructor_accepts_only_its_variant() {
    assert_eq!(TInst::from_parsed(0x10, INSTANT_TAG).unwrap().addr(), 0x10);
    assert_eq!(TSeq::from_parsed(0x20, SEQUENCE_TAG).unwrap().addr(), 0x20);
    assert_eq!(TSet::from_parsed(0x30, SEQUENCE_SET_TAG).unwrap().addr(), 0x30);
    assert_eq!(TSeq::from_parsed(0x20, SEQUENCE_TAG).unwrap().ttype(), Type::Sequence);
    assert_eq!(
        TSeq::from_parsed(0x40, INSTANT_TAG).err(),
        Some(Rejection { error: Error::WrongTemporalType, release: Some(0x40) })
    );
    assert_eq!(
        TSet::from_parsed(0x50, SEQUENCE_TAG).err(),
        Some(Rejection { error: Error::WrongTemporalType, release: Some(0x50) })
    );
}

#[test]
fn undefined_tag_is_engine_error_and_released() {
    assert_eq!(
        accept_parsed(0x60, ANY_SUBTYPE_TAG, None),
        Err(Rejection { error: Error::MeosError(0), release: Some(0x60) })
    );
    assert_eq!(
        AnyTemporal::from_parsed(0x70, 7).err(),
        Some(Rejection { error: Error::MeosError(7), release: Some(0x70) })
    );
    assert_eq!(accept_parsed(0x80, INSTANT_TAG, None), Ok(Type::Instant));
}
