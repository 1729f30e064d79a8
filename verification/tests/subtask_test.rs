use dataflow_core::context::{guard, WorkerContext};
use dataflow_core::errors::BuildJobError;
use dataflow_core::exchange::exchange;
use dataflow_core::iterate::iterate;
use dataflow_core::subtask::{
    count_subtask, flat_map_tagged, fork_tag, join_subtask, sink_values, Tagged,
};
use dataflow_core::worker_id::WorkerId;
use std::collections::HashMap;

/// Runs one worker's partition through a fork whose body is `body`, inside a
/// worker-scoped context, and returns the forked terminal stream with the
/// tagged parent stream.
fn run_fork_on_worker<F: Fn(u64) -> Vec<u64>>(
    job_id: u64,
    peers: u32,
    index: u32,
    partition: &Vec<u64>,
    body: &F,
) -> (Vec<Tagged>, Vec<Tagged>) {
    let mut ctx = WorkerContext::new();
    let g = guard(&mut ctx, WorkerId::new(job_id, peers, index, false));
    let tagged = fork_tag(partition);
    let sub = flat_map_tagged(&tagged, body);
    g.release(&mut ctx);
    (tagged, sub)
}

#[test]
fn test_subtask_fork() {
    let source: Vec<u64> = (0..10).collect();
    let parts = vec![source, Vec::new()];
    let parts = exchange(&parts, 2);

    let mut count = 0;
    let mut res_map: HashMap<u64, u64> = HashMap::new();
    for (w, partition) in parts.iter().enumerate() {
        let (_tagged, sub) = run_fork_on_worker(50, 2, w as u32, partition, &|item: u64| {
            vec![item + 1; 8]
        });
        let data = sink_values(&sub);
        count += data.len();
        for d in data {
            let group_count = res_map.entry(d).or_insert(0);
            *group_count += 1;
        }
    }

    assert_eq!(count, 80);
    assert_eq!(res_map.len(), 10);
    for i in 1..11 {
        let r = res_map.get(&i).map(|i| *i);
        assert_eq!(r, Some(8))
    }
}

#[test]
fn test_subtask_fork_join() {
    let source: Vec<u64> = (0..2000).collect();
    let parts = vec![source, Vec::new()];
    let parts = exchange(&parts, 2);

    let mut count = 0;
    for (w, partition) in parts.iter().enumerate() {
        let (_tagged, sub) = run_fork_on_worker(51, 2, w as u32, partition, &|item: u64| {
            vec![item + 1; 8]
        });
        let joined = join_subtask(partition, &sub, &|p: u64, s: u64| Some(s - p))
            .expect("submit job failure;");
        count += joined.len();
        for d in joined {
            assert_eq!(d, 1);
        }
    }
    assert_eq!(count, 8 * 2000);
}

#[test]
fn test_subtask_fork_count_join() {
    let source: Vec<u64> = (0..10).collect();
    let parts = vec![source, Vec::new()];
    let parts = exchange(&parts, 2);

    for (w, partition) in parts.iter().enumerate() {
        let (tagged, sub) = run_fork_on_worker(52, 2, w as u32, partition, &|item: u64| {
            vec![item; (item + 1) as usize]
        });
        let counted = count_subtask(&sub, &tagged);
        let joined = join_subtask(partition, &counted, &|p: u64, s: u64| Some((p, s)))
            .expect("submit job failure;");
        for (i, count) in joined {
            assert_eq!(i + 1, count);
        }
    }
}

#[test]
fn test_subtask_in_iteration() {
    let source: Vec<u64> = (0..10).collect();
    let body = |input: Vec<u64>| -> Result<Vec<u64>, BuildJobError> {
        let parts = exchange(&vec![input, Vec::new()], 2);
        let mut round_out: Vec<u64> = Vec::new();
        for partition in parts.iter() {
            let tagged = fork_tag(partition);
            let sub = flat_map_tagged(&tagged, &|item: u64| vec![item; 2]);
            let joined = join_subtask(partition, &sub, &|p: u64, s: u64| Some(p + s))?;
            round_out.extend(joined);
        }
        Ok(round_out)
    };
    let result = iterate(source, 3, &body).expect("submit job failure;");
    assert_eq!(80, result.len());
}

#[test]
fn fork_fan_out_tags_each_record_once() {
    let parent: Vec<u64> = vec![4, 7, 7];
    let tagged = fork_tag(&parent);
    assert_eq!(
        tagged,
        vec![
            Tagged { tag: 0, value: 4 },
            Tagged { tag: 1, value: 7 },
            Tagged { tag: 2, value: 7 },
        ]
    );
}

#[test]
fn flat_map_keeps_tags_and_order() {
    let input = vec![Tagged { tag: 0, value: 3 }, Tagged { tag: 1, value: 5 }];
    let out = flat_map_tagged(&input, &|x: u64| vec![x, x + 1]);
    assert_eq!(
        out,
        vec![
            Tagged { tag: 0, value: 3 },
            Tagged { tag: 0, value: 4 },
            Tagged { tag: 1, value: 5 },
            Tagged { tag: 1, value: 6 },
        ]
    );
}

#[test]
fn count_subtask_counts_empty_groups() {
    let parents = vec![Tagged { tag: 0, value: 9 }, Tagged { tag: 1, value: 2 }];
    let sub = vec![Tagged { tag: 1, value: 8 }, Tagged { tag: 1, value: 8 }];
    let counted = count_subtask(&sub, &parents);
    assert_eq!(
        counted,
        vec![Tagged { tag: 0, value: 0 }, Tagged { tag: 1, value: 2 }]
    );
}

#[test]
fn join_reports_correlation_failure_for_stray_tag() {
    let parent: Vec<u64> = vec![1];
    let sub = vec![Tagged { tag: 5, value: 1 }];
    let r = join_subtask(&parent, &sub, &|p: u64, s: u64| Some(p + s));
    assert_eq!(r, Err(BuildJobError::Correlation));
}

#[test]
fn join_combiner_none_drops_group_silently() {
    let parent: Vec<u64> = vec![1, 2];
    let tagged = fork_tag(&parent);
    let sub = flat_map_tagged(&tagged, &|x: u64| vec![x]);
    let joined: Vec<u64> =
        join_subtask(&parent, &sub, &|_p: u64, _s: u64| None).expect("join failed");
    assert!(joined.is_empty());
}

#[test]
fn iteration_round_count_zero_returns_source() {
    let source: Vec<u64> = vec![3, 1];
    let body = |input: Vec<u64>| -> Result<Vec<u64>, BuildJobError> { Ok(input) };
    let result = iterate(source.clone(), 0, &body).expect("iterate failed");
    assert_eq!(result, source);
}

#[test]
fn iteration_error_in_round_aborts() {
    let source: Vec<u64> = vec![1];
    let body = |_input: Vec<u64>| -> Result<Vec<u64>, BuildJobError> {
        Err(BuildJobError::Construction("bad round".to_string()))
    };
    let r = iterate(source, 2, &body);
    assert_eq!(
        r,
        Err(BuildJobError::Construction("bad round".to_string()))
    );
}

#[test]
fn iteration_with_nested_fork_keeps_record_count() {
    // Each round forks a doubling sub-step and joins by addition: one output
    // per input record, so three rounds leave the record count unchanged.
    let source: Vec<u64> = (0..10).collect();
    let body = |input: Vec<u64>| -> Result<Vec<u64>, BuildJobError> {
        let tagged = fork_tag(&input);
        let sub = flat_map_tagged(&tagged, &|x: u64| vec![2 * x]);
        join_subtask(&input, &sub, &|p: u64, s: u64| Some(p + s))
    };
    let result = iterate(source, 3, &body).expect("submit job failure;");
    assert_eq!(result.len(), 10);
    // x -> 3x each round, so after three rounds record i holds 27 * i.
    for (i, v) in result.iter().enumerate() {
        assert_eq!(*v, 27 * i as u64);
    }
}

#[test]
fn fork_subtask_builds_the_nested_dataflow() {
    let parent: Vec<u64> = vec![1, 2, 3];
    let build = |tagged: Vec<Tagged>| -> Result<Vec<Tagged>, BuildJobError> {
        Ok(flat_map_tagged(&tagged, &|x: u64| vec![x * 10]))
    };
    let sub = dataflow_core::subtask::fork_subtask(&parent, &build).expect("submit job failure;");
    assert_eq!(
        sub,
        vec![
            Tagged { tag: 0, value: 10 },
            Tagged { tag: 1, value: 20 },
            Tagged { tag: 2, value: 30 },
        ]
    );
}

#[test]
fn fork_subtask_build_failure_fails_at_submission() {
    let parent: Vec<u64> = vec![1];
    let build = |_tagged: Vec<Tagged>| -> Result<Vec<Tagged>, BuildJobError> {
        Err(BuildJobError::Construction("bad graph".to_string()))
    };
    let r = dataflow_core::subtask::fork_subtask(&parent, &build);
    assert_eq!(r, Err(BuildJobError::Construction("bad graph".to_string())));
}
