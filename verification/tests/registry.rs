use bosminer_am1_s9::midstate::MidstateCount;
use bosminer_am1_s9::registry::{
    InsertSolutionStatus, MiningWorkRegistry, Solution, UniqueSolution, Work, WorkItem,
};

fn work(job: u64, midstates: usize) -> Work {
    Work { job: Some(job), midstates }
}

fn solution(nonce: u32, hardware_id: u32) -> Solution {
    Solution { nonce, ntime: None, solution_idx: 0, hardware_id }
}

fn registry(work_id_range: usize, midstates: usize) -> MiningWorkRegistry {
    MiningWorkRegistry::new(work_id_range, MidstateCount::new(midstates).unwrap())
}

fn found(registry: &mut MiningWorkRegistry, id: usize) -> Option<Work> {
    registry.find_work(id).map(|item| item.work())
}

const MISMATCHED: InsertSolutionStatus =
    InsertSolutionStatus { duplicate: false, mismatched_nonce: true, unique_solution: None };
const DUPLICATE: InsertSolutionStatus =
    InsertSolutionStatus { duplicate: true, mismatched_nonce: false, unique_solution: None };

fn unique(work: Work, midstate_idx: usize, solution: Solution) -> InsertSolutionStatus {
    InsertSolutionStatus {
        duplicate: false,
        mismatched_nonce: false,
        unique_solution: Some(UniqueSolution { work, midstate_idx, solution }),
    }
}

#[test]
fn new_registry_is_empty() {
    let mut registry = registry(16, 4);
    assert_eq!(registry.work_id_range(), 16);
    assert_eq!(registry.midstate_count(), MidstateCount::new(4).unwrap());
    for id in 0..20 {
        assert!(registry.find_work(id).is_none());
    }
}

#[test]
fn ids_are_given_out_in_turn() {
    let mut registry = registry(4, 1);
    let ids: Vec<usize> = (0..10).map(|job| registry.store_work(work(job, 1))).collect();
    assert_eq!(ids, vec![0, 1, 2, 3, 0, 1, 2, 3, 0, 1]);
}

#[test]
fn fewer_works_than_ids_are_all_found() {
    for stored in 0..8usize {
        let mut registry = registry(8, 4);
        let ids: Vec<usize> =
            (0..stored).map(|job| registry.store_work(work(100 + job as u64, 4))).collect();
        for (job, id) in ids.iter().enumerate() {
            assert_eq!(found(&mut registry, *id), Some(work(100 + job as u64, 4)));
            assert!(!ids[..job].contains(id), "id {} was given out twice", id);
        }
        for id in stored..8 {
            assert_eq!(found(&mut registry, id), None);
        }
    }
}

#[test]
fn as_many_works_as_ids_are_all_found() {
    let mut registry = registry(8, 4);
    let ids: Vec<usize> = (0..8).map(|job| registry.store_work(work(job, 4))).collect();
    assert_eq!(ids, vec![0, 1, 2, 3, 4, 5, 6, 7]);
    for job in 0..8 {
        assert_eq!(found(&mut registry, job as usize), Some(work(job, 4)));
    }
}

#[test]
fn one_work_too_many_takes_the_place_of_the_oldest() {
    let mut registry = registry(8, 4);
    let ids: Vec<usize> = (0..9).map(|job| registry.store_work(work(job, 4))).collect();
    assert_eq!(ids[8], ids[0]);
    // the oldest is found no more: its id is that of the newest
    assert_eq!(found(&mut registry, ids[0]), Some(work(8, 4)));
    for job in 1..8 {
        assert_eq!(found(&mut registry, ids[job]), Some(work(job as u64, 4)));
    }
    let held: Vec<Option<Work>> = (0..8).map(|id| found(&mut registry, id)).collect();
    assert!(!held.contains(&Some(work(0, 4))));
}

#[test]
fn ids_go_round_from_wherever_the_registry_stands() {
    let mut registry = registry(5, 2);
    for job in 0..3 {
        registry.store_work(work(job, 2));
    }
    let ids: Vec<usize> = (10..15).map(|job| registry.store_work(work(job, 2))).collect();
    assert_eq!(ids, vec![3, 4, 0, 1, 2]);
    for (i, id) in ids.iter().enumerate() {
        assert_eq!(found(&mut registry, *id), Some(work(10 + i as u64, 2)));
    }
}

#[test]
fn registry_with_a_single_id() {
    let mut registry = registry(1, 4);
    assert_eq!(registry.store_work(work(1, 4)), 0);
    assert_eq!(found(&mut registry, 0), Some(work(1, 4)));
    assert_eq!(registry.store_work(work(2, 4)), 0);
    assert_eq!(found(&mut registry, 0), Some(work(2, 4)));
    assert_eq!(found(&mut registry, 1), None);
}

#[test]
fn id_beyond_the_range_finds_nothing() {
    let mut registry = registry(4, 4);
    for job in 0..4 {
        registry.store_work(work(job, 4));
    }
    assert!(registry.find_work(4).is_none());
    assert!(registry.find_work(1000).is_none());
    assert!(registry.find_work(usize::MAX).is_none());
}

#[test]
fn first_solution_of_a_midstate_is_unique() {
    let four = MidstateCount::new(4).unwrap();
    let mut item = WorkItem::new(work(7, 4), four);
    let first = solution(0xdead_beef, 8);
    assert_eq!(item.insert_solution(first), unique(work(7, 4), 0, first));
    assert!(item.is_solved(0));
    assert!(!item.is_solved(1));
}

#[test]
fn second_solution_of_a_midstate_is_a_duplicate() {
    let four = MidstateCount::new(4).unwrap();
    let mut item = WorkItem::new(work(7, 4), four);
    let first = solution(0xdead_beef, 8);
    assert_eq!(item.insert_solution(first), unique(work(7, 4), 0, first));
    assert_eq!(item.insert_solution(first), DUPLICATE);
    // whatever its nonce, and whichever work id it carries
    assert_eq!(item.insert_solution(solution(1, 8)), DUPLICATE);
    assert_eq!(item.insert_solution(solution(2, 12)), DUPLICATE);
}

#[test]
fn each_midstate_has_a_unique_solution_of_its_own() {
    let four = MidstateCount::new(4).unwrap();
    let mut item = WorkItem::new(work(7, 4), four);
    for midstate_idx in 0..4usize {
        let s = solution(midstate_idx as u32, 8 + midstate_idx as u32);
        assert_eq!(item.insert_solution(s), unique(work(7, 4), midstate_idx, s));
        assert_eq!(item.insert_solution(s), DUPLICATE);
    }
    for midstate_idx in 0..4 {
        assert!(item.is_solved(midstate_idx));
    }
    assert!(!item.is_solved(4));
    assert!(!item.is_solved(usize::MAX));
}

#[test]
fn solution_for_a_midstate_that_is_not_there_is_a_mismatch() {
    let four = MidstateCount::new(4).unwrap();
    // work with two midstates on hardware that takes four
    let mut item = WorkItem::new(work(7, 2), four);
    assert_eq!(item.insert_solution(solution(1, 2)), MISMATCHED);
    assert_eq!(item.insert_solution(solution(1, 3)), MISMATCHED);
    // and it stays one, however often it comes
    assert_eq!(item.insert_solution(solution(1, 3)), MISMATCHED);
    assert!(!item.is_solved(2));
    assert!(!item.is_solved(3));
    let s = solution(1, 1);
    assert_eq!(item.insert_solution(s), unique(work(7, 2), 1, s));
}

#[test]
fn work_without_midstates_has_no_solutions() {
    let one = MidstateCount::new(1).unwrap();
    let mut item = WorkItem::new(work(7, 0), one);
    assert_eq!(item.insert_solution(solution(1, 0)), MISMATCHED);
    assert_eq!(item.insert_solution(solution(1, 5)), MISMATCHED);
}

#[test]
fn every_solution_is_one_of_three_things() {
    for count in [1usize, 2, 4] {
        let midstate_count = MidstateCount::new(count).unwrap();
        for midstates in 0..6usize {
            let mut item = WorkItem::new(work(1, midstates), midstate_count);
            for hardware_id in 0u32..32 {
                let status = item.insert_solution(solution(9, hardware_id));
                let kinds = [
                    status.duplicate,
                    status.mismatched_nonce,
                    status.unique_solution.is_some(),
                ];
                assert_eq!(kinds.iter().filter(|kind| **kind).count(), 1);
                let midstate_idx = hardware_id as usize % count;
                assert_eq!(status.mismatched_nonce, midstate_idx >= midstates);
                let seen_before = hardware_id as usize >= count;
                assert_eq!(status.duplicate, midstate_idx < midstates && seen_before);
            }
        }
    }
}

#[test]
fn solution_is_kept_with_the_work_that_was_found() {
    let mut registry = registry(8, 4);
    for job in 0..5 {
        registry.store_work(work(job, 4));
    }
    let s = solution(42, 2 << 2);
    let status = registry.find_work(2).expect("work 2").insert_solution(s);
    assert_eq!(status, unique(work(2, 4), 0, s));
    // the registry remembers
    assert!(registry.find_work(2).unwrap().is_solved(0));
    assert_eq!(registry.find_work(2).unwrap().insert_solution(s), DUPLICATE);
    // and the other works know nothing of it
    assert!(!registry.find_work(1).unwrap().is_solved(0));
    assert!(!registry.find_work(3).unwrap().is_solved(0));
}

#[test]
fn work_that_takes_a_slot_starts_unsolved() {
    let mut registry = registry(2, 4);
    registry.store_work(work(1, 4));
    registry.store_work(work(2, 4));
    let s = solution(42, 0);
    assert_eq!(registry.find_work(0).unwrap().insert_solution(s), unique(work(1, 4), 0, s));
    assert_eq!(registry.store_work(work(3, 4)), 0);
    assert!(!registry.find_work(0).unwrap().is_solved(0));
    assert_eq!(registry.find_work(0).unwrap().insert_solution(s), unique(work(3, 4), 0, s));
}
