use std::collections::BTreeSet;

use meos::error::Error;
use meos::handle::{Rejection, TInst, TSeq};
use meos::kind::{Interpolation, Type, INSTANT_TAG, SEQUENCE_SET_TAG, SEQUENCE_TAG};
use meos::sequence::{RestartPolicy, MAX_COUNT};

fn instants(addrs: &[usize]) -> Vec<TInst> {
    addrs.iter().map(|a| TInst::from_parsed(*a, INSTANT_TAG).unwrap()).collect()
}

#[test]
fn make_from_empty_list_fails() {
    let r = TSeq::make_request(&Vec::new(), 10, true, true, Interpolation::Linear, false);
    assert_eq!(r.err(), Some(Error::ConstructionError));
}

#[test]
fn make_request_lays_out_arguments() {
    let insts = instants(&[0x100, 0x200, 0x300]);
    let refs: Vec<&TInst> = insts.iter().collect();
    let q = TSeq::make_request(&refs, 8, true, false, Interpolation::Linear, false).unwrap();
    assert_eq!(q.instants, vec![0x100, 0x200, 0x300]);
    assert_eq!(q.count, 3);
    assert_eq!(q.max_count, 8);
    assert!(q.lower_inc);
    assert!(!q.upper_inc);
    assert_eq!(q.interp, 3);
    assert!(!q.normalize);
    let q = TSeq::make_request(&refs, 3, true, true, Interpolation::Step, true).unwrap();
    assert_eq!(q.max_count, 3);
    assert_eq!(q.interp, 2);
    assert!(q.normalize);
    // The instants stay with their owner.
    assert_eq!(insts[1].addr(), 0x200);
}

#[test]
fn make_refuses_capacity_below_count_or_beyond_engine_counts() {
    let insts = instants(&[0x100, 0x200]);
    let refs: Vec<&TInst> = insts.iter().collect();
    let r = TSeq::make_request(&refs, 1, true, true, Interpolation::Discrete, false);
    assert_eq!(r.err(), Some(Error::ConstructionError));
    let r = TSeq::make_request(&refs, MAX_COUNT + 1, true, true, Interpolation::Linear, false);
    assert_eq!(r.err(), Some(Error::ConstructionError));
    let q = TSeq::make_request(&refs, MAX_COUNT, true, true, Interpolation::Linear, false);
    assert_eq!(q.unwrap().max_count, i32::MAX);
}

#[test]
fn made_sequence_is_a_sequence() {
    let s = TSeq::made(0x900, SEQUENCE_TAG).unwrap();
    assert_eq!(s.ttype(), Type::Sequence);
    assert_eq!(s.addr(), 0x900);
    assert_eq!(
        TSeq::made(0, SEQUENCE_TAG).err(),
        Some(Rejection { error: Error::ConstructionError, release: None })
    );
    assert_eq!(
        TSeq::made(0x901, SEQUENCE_SET_TAG).err(),
        Some(Rejection { error: Error::WrongTemporalType, release: Some(0x901) })
    );
}

#[test]
fn append_in_place_keeps_address() {
    let mut s = TSeq::made(0xA00, SEQUENCE_TAG).unwrap();
    assert_eq!(s.record_append(0xA00), Ok(None));
    assert_eq!(s.addr(), 0xA00);
}

#[test]
fn refused_append_keeps_handle() {
    let mut s = TSeq::made(0xB00, SEQUENCE_TAG).unwrap();
    assert_eq!(s.record_append(0), Err(Error::ConstructionError));
    assert_eq!(s.addr(), 0xB00);
}

#[test]
fn append_beyond_capacity_moves_and_releases_old_once() {
    // A sequence made with room for 4 instants, appended to 5 times: the
    // engine grows it in place until it is full, then moves it.
    let capacity = 4;
    let mut live: BTreeSet<usize> = BTreeSet::new();
    let mut released: Vec<usize> = Vec::new();
    let mut s = TSeq::made(0xC00, SEQUENCE_TAG).unwrap();
    live.insert(0xC00);
    let mut count = 1;
    for k in 0..capacity {
        let answer = if count < capacity { s.addr() } else { 0xD00 + k };
        if answer != s.addr() {
            live.insert(answer);
        }
        if let Some(old) = s.record_append(answer).unwrap() {
            assert!(live.remove(&old));
            released.push(old);
        }
        count += 1;
    }
    assert_eq!(count, capacity + 1);
    assert_eq!(released, vec![0xC00]);
    assert_eq!(s.addr(), 0xD03);
    assert_eq!(live.into_iter().collect::<Vec<_>>(), vec![0xD03]);
}

#[test]
fn restart_policy_keeps_last_instants_when_full() {
    let p = RestartPolicy::new(100, 2).unwrap();
    assert_eq!(p.due(99), None);
    assert_eq!(p.due(100), Some(2));
    assert_eq!(p.due(150), Some(2));
    assert_eq!(RestartPolicy::new(2, 2).err(), Some(Error::ConstructionError));
    assert_eq!(RestartPolicy::new(5, 0).err(), Some(Error::ConstructionError));
    assert_eq!(RestartPolicy::new(MAX_COUNT + 1, 2).err(), Some(Error::ConstructionError));
}
