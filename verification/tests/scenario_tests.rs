//! End-to-end scenarios over the verified core, driving two simulated workers
//! the way the orchestrator shell does: signals through the loop state
//! machine, solve attempts against the shared job state.

use cuckoo_miner::header::{build_header, get_next_header_data};
use cuckoo_miner::shared::JobSharedData;
use cuckoo_miner::types::{ControlMessage, Solution, SolverSolutions, SolverStats};
use cuckoo_miner::worker::{loop_step, WorkerAction, WorkerPhase};

/// One solve attempt by worker `instance`: fetch both fragments, build a
/// header, pretend the plugin found one cycle, and publish the result.
fn attempt(sd: &mut JobSharedData, instance: usize, iterations: u64) -> (u64, Vec<u8>) {
    let (pre, post) = sd.header_fragments();
    let (nonce, header) = get_next_header_data(&pre, &post).unwrap();
    let mut found = SolverSolutions::default();
    found.push_solution(Solution { nonce: 0, cycle: vec![instance as u64, 7, 13] });
    let scratch = SolverStats::default();
    sd.record_solve_result(instance, &scratch, iterations, &found, nonce);
    (nonce, header)
}

#[test]
fn two_workers_report_stats_and_a_stamped_batch() {
    // two workers configured, both start paused
    let mut sd = JobSharedData::new(2);
    let mut phases = [WorkerPhase::Paused, WorkerPhase::Paused];

    // notify(1, "00", "ff", 10): pause all, install, resume all
    for p in phases.iter_mut() {
        let (next, _) = loop_step(*p, Some(ControlMessage::Pause));
        *p = next;
    }
    sd.set_job(1, "00", "ff", 10);
    for p in phases.iter_mut() {
        let (next, action) = loop_step(*p, Some(ControlMessage::Resume));
        *p = next;
        assert_eq!(action, WorkerAction::Solve);
    }

    // both workers complete one attempt each
    let (nonce0, header0) = attempt(&mut sd, 0, 1);
    let (_nonce1, _header1) = attempt(&mut sd, 1, 1);

    // both stats records show at least one iteration
    let stats = sd.stats_snapshot();
    assert_eq!(stats.len(), 2);
    assert!(stats[0].iterations >= 1);
    assert!(stats[1].iterations >= 1);

    // a surfaced batch carries a nonce whose header comes from "00"/"ff"
    let batch = sd.pop_solution().unwrap();
    let stamped = batch.sols[0].nonce;
    let rebuilt = build_header("00", "ff", stamped).unwrap();
    assert_eq!(rebuilt[0], 0x00);
    assert_eq!(*rebuilt.last().unwrap(), 0xff);
    assert_eq!(&rebuilt[1..9], &stamped.to_le_bytes());

    // the earlier batch is stamped with its own attempt's nonce
    let earlier = sd.pop_solution().unwrap();
    assert_eq!(earlier.sols[0].nonce, nonce0);
    assert_eq!(header0, build_header("00", "ff", nonce0).unwrap());
}

#[test]
fn rapid_second_notify_leaves_no_attempt_on_the_old_job() {
    let mut sd = JobSharedData::new(2);
    let mut phases = [WorkerPhase::Paused, WorkerPhase::Paused];

    // notify(1, "00", "ff", 10), then immediately notify(2, "a1", "b2", 20)
    for job in [(1u32, "00", "ff", 10u64), (2u32, "a1", "b2", 20u64)] {
        for p in phases.iter_mut() {
            let (next, _) = loop_step(*p, Some(ControlMessage::Pause));
            *p = next;
        }
        sd.set_job(job.0, job.1, job.2, job.3);
        for p in phases.iter_mut() {
            let (next, _) = loop_step(*p, Some(ControlMessage::Resume));
            *p = next;
        }
    }

    // every worker is observed solving against job 2
    assert_eq!(sd.current_job_id(), 2);
    assert!(phases.iter().all(|p| *p == WorkerPhase::Solving));
    let (pre, post) = sd.header_fragments();
    assert_eq!((pre.as_str(), post.as_str()), ("a1", "b2"));

    // attempts beginning now use job 2's fragments only
    let (nonce0, header0) = attempt(&mut sd, 0, 1);
    let (nonce1, header1) = attempt(&mut sd, 1, 1);
    assert_eq!(header0, build_header("a1", "b2", nonce0).unwrap());
    assert_eq!(header1, build_header("a1", "b2", nonce1).unwrap());
    assert_ne!(header0, build_header("00", "ff", nonce0).unwrap());

    // no surfaced solution is stamped with a nonce from job 1's header
    while let Some(batch) = sd.pop_solution() {
        for sol in &batch.sols {
            assert!(sol.nonce == nonce0 || sol.nonce == nonce1);
        }
    }
}
