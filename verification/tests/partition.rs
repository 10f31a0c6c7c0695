use ore_miner::partition::{lane, Lane, Partitioning};

fn nonces(lane: Lane, count: usize) -> Vec<u64> {
    let mut out = Vec::new();
    let mut cursor = Some(lane.start);
    while let Some(nonce) = cursor {
        if out.len() == count {
            break;
        }
        out.push(nonce);
        cursor = lane.next(nonce);
    }
    out
}

#[test]
fn strided_lanes_start_at_the_worker_and_step_by_the_count() {
    assert_eq!(
        lane(Partitioning::Strided, 2, 4),
        Lane { start: 2, stride: 4, last: u64::MAX }
    );
    assert_eq!(nonces(lane(Partitioning::Strided, 2, 4), 4), vec![2, 6, 10, 14]);
    assert_eq!(nonces(lane(Partitioning::Strided, 0, 1), 3), vec![0, 1, 2]);
}

#[test]
fn contiguous_lanes_are_consecutive_blocks() {
    let block = u64::MAX / 4;
    assert_eq!(
        lane(Partitioning::Contiguous, 0, 4),
        Lane { start: 0, stride: 1, last: block - 1 }
    );
    assert_eq!(
        lane(Partitioning::Contiguous, 1, 4),
        Lane { start: block, stride: 1, last: 2 * block - 1 }
    );
    assert_eq!(
        lane(Partitioning::Contiguous, 3, 4),
        Lane { start: 3 * block, stride: 1, last: u64::MAX }
    );
    assert_eq!(
        lane(Partitioning::Contiguous, 0, 1),
        Lane { start: 0, stride: 1, last: u64::MAX }
    );
}

#[test]
fn the_most_workers_there_can_be_still_get_a_nonce_each() {
    assert_eq!(
        lane(Partitioning::Contiguous, u64::MAX - 1, u64::MAX),
        Lane { start: u64::MAX - 1, stride: 1, last: u64::MAX }
    );
    assert_eq!(
        lane(Partitioning::Contiguous, 5, u64::MAX),
        Lane { start: 5, stride: 1, last: 5 }
    );
    assert_eq!(
        lane(Partitioning::Strided, u64::MAX - 1, u64::MAX),
        Lane { start: u64::MAX - 1, stride: u64::MAX, last: u64::MAX }
    );
}

#[test]
fn lanes_of_a_round_share_no_nonce() {
    for partitioning in [Partitioning::Strided, Partitioning::Contiguous] {
        for workers in [1u64, 2, 3, 4, 7, 16] {
            let mut all = Vec::new();
            for worker in 0..workers {
                all.extend(nonces(lane(partitioning, worker, workers), 50));
            }
            let total = all.len();
            all.sort();
            all.dedup();
            assert_eq!(all.len(), total);
            assert_eq!(total, 50 * workers as usize);
        }
    }
}

#[test]
fn a_lane_ends_at_its_last_nonce() {
    let lane = Lane { start: 5, stride: 10, last: 30 };
    assert_eq!(lane.next(5), Some(15));
    assert_eq!(lane.next(15), Some(25));
    assert_eq!(lane.next(25), None);
    assert_eq!(lane.next(30), None);
    assert_eq!(lane.next(31), None);
}

#[test]
fn stepping_never_wraps_around() {
    let strided = lane(Partitioning::Strided, 3, 4);
    assert_eq!(strided.next(u64::MAX - 4), Some(u64::MAX));
    assert_eq!(strided.next(u64::MAX), None);
    assert_eq!(strided.next(u64::MAX - 3), None);
    let all = Lane { start: 0, stride: 1, last: u64::MAX };
    assert_eq!(all.next(u64::MAX - 1), Some(u64::MAX));
    assert_eq!(all.next(u64::MAX), None);
}
