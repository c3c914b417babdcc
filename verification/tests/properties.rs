use simple_slab::SlabError;
use simple_slab::Slab;
use std::rc::Rc;

/// A small generator of offsets, the same on every run.
fn step(state: &mut u64) -> u64 {
    *state = state.wrapping_mul(6364136223846793005).wrapping_add(1442695040888963407);
    *state >> 33
}

#[test]
fn len_never_exceeds_capacity() {
    let mut slab: Slab<u64> = Slab::with_capacity(0).unwrap();
    let mut state: u64 = 7;
    assert!(slab.len() <= slab.capacity());
    for round in 0..2000u64 {
        if step(&mut state) % 3 != 0 || slab.len() == 0 {
            slab.insert(round).unwrap();
        } else {
            let offset = (step(&mut state) as usize) % slab.len();
            slab.remove(offset).unwrap();
        }
        assert!(slab.len() <= slab.capacity());
        assert_eq!(slab.remove(slab.len()), Err(SlabError::OutOfBounds));
        assert!(slab.len() <= slab.capacity());
    }
}

#[test]
fn capacity_never_shrinks() {
    let mut slab: Slab<u64> = Slab::new().unwrap();
    for x in 0..100u64 {
        slab.insert(x).unwrap();
    }
    assert_eq!(slab.capacity(), 128);
    while slab.len() > 0 {
        slab.remove(0).unwrap();
        assert_eq!(slab.capacity(), 128);
    }
}

#[test]
fn an_inserted_element_is_found_at_its_offset() {
    let mut slab: Slab<u64> = Slab::new().unwrap();
    for x in 0..300u64 {
        let before = slab.len();
        let offset = slab.insert(x * 3 + 1).unwrap();
        assert_eq!(offset, before);
        assert_eq!(slab.get(offset), Ok(&(x * 3 + 1)));
        assert_eq!(slab[offset], x * 3 + 1);
        assert_eq!(slab.len(), before + 1);
    }
    for x in 0..300u64 {
        assert_eq!(slab.get(x as usize), Ok(&(x * 3 + 1)));
    }
}

#[test]
fn remove_takes_one_and_moves_the_last() {
    let mut slab: Slab<u64> = Slab::new().unwrap();
    for x in 0..64u64 {
        slab.insert(x).unwrap();
    }
    let mut state: u64 = 99;
    while slab.len() > 0 {
        let before: Vec<u64> = slab.iter().map(|x| *x).collect();
        let offset = (step(&mut state) as usize) % slab.len();
        let taken = slab.remove(offset).unwrap();
        assert_eq!(taken, before[offset]);
        assert_eq!(slab.len(), before.len() - 1);
        if offset != before.len() - 1 {
            assert_eq!(slab.get(offset), Ok(&before[before.len() - 1]));
        }
        for i in 0..slab.len() {
            if i != offset {
                assert_eq!(slab.get(i), Ok(&before[i]));
            }
        }
    }
}

#[test]
fn what_goes_in_comes_out() {
    let count: u64 = 500;
    let mut slab: Slab<u64> = Slab::with_capacity(3).unwrap();
    for x in 0..count {
        slab.insert(x * x).unwrap();
    }
    let mut state: u64 = 12345;
    let mut out: Vec<u64> = Vec::new();
    while slab.len() > 0 {
        let offset = (step(&mut state) as usize) % slab.len();
        out.push(slab.remove(offset).unwrap());
    }
    assert_eq!(out.len(), count as usize);
    assert_ne!(out, (0..count).map(|x| x * x).collect::<Vec<u64>>());
    out.sort();
    assert_eq!(out, (0..count).map(|x| x * x).collect::<Vec<u64>>());
    assert_eq!(slab.iter().count(), 0);
}

#[test]
fn a_walk_yields_every_element_once() {
    let mut slab: Slab<u64> = Slab::new().unwrap();
    let mut expected: Vec<u64> = Vec::new();
    let mut state: u64 = 5;
    for round in 0..400u64 {
        if step(&mut state) % 4 != 0 || expected.is_empty() {
            slab.insert(round).unwrap();
            expected.push(round);
        } else {
            let offset = (step(&mut state) as usize) % expected.len();
            let taken = slab.remove(offset).unwrap();
            assert_eq!(taken, expected.swap_remove(offset));
        }
        let seen: Vec<u64> = slab.iter().map(|x| *x).collect();
        assert_eq!(seen.len(), slab.len());
        assert_eq!(seen, expected);
    }
}

#[test]
fn every_element_is_dropped_exactly_once() {
    let token: Rc<()> = Rc::new(());
    {
        let mut slab: Slab<Rc<()>> = Slab::new().unwrap();
        for _ in 0..10 {
            slab.insert(Rc::clone(&token)).unwrap();
        }
        assert_eq!(Rc::strong_count(&token), 11);
        let taken = slab.remove(3).unwrap();
        assert_eq!(Rc::strong_count(&token), 11);
        drop(taken);
        assert_eq!(Rc::strong_count(&token), 10);
        slab.remove(0).unwrap();
        slab.remove(7).unwrap();
        assert_eq!(Rc::strong_count(&token), 8);
        assert_eq!(slab.len(), 7);
    }
    assert_eq!(Rc::strong_count(&token), 1);
}

fn crosses_threads<S: Send>(_: &S) {}

fn shared_between_threads<S: Sync>(_: &S) {}

#[test]
fn a_slab_of_plain_values_can_be_sent_and_shared() {
    let mut slab: Slab<u64> = Slab::new().unwrap();
    slab.insert(1).unwrap();
    crosses_threads(&slab);
    shared_between_threads(&slab);
    assert_eq!(slab.get(0), Ok(&1));
}
