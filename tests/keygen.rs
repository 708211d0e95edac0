use agger_node::keygen::VkBatch;
use agger_node::types::{CircuitConfig, DemoRunConfig, EntryFunctionConfig};

fn run(outcomes: Vec<Result<Vec<u8>, String>>) -> (usize, Result<Vec<Vec<u8>>, agger_node::keygen::KeygenError>) {
    let mut batch = VkBatch::new(outcomes.len());
    let mut calls = 0;
    let mut it = outcomes.into_iter();
    while let Some(i) = batch.next_entry() {
        assert_eq!(i, calls);
        calls += 1;
        batch.record(it.next().unwrap());
    }
    (calls, batch.finish())
}

#[test]
fn two_entries_give_two_keys_in_order() {
    let configs = vec![
        EntryFunctionConfig {
            entry_function: "0x1::coin::transfer".to_string(),
            demo_run_config: DemoRunConfig { args: Some(vec!["u64:10".to_string()]), ty_args: None },
            circuit_config: CircuitConfig::default(),
        },
        EntryFunctionConfig {
            entry_function: "0x1::coin::mint".to_string(),
            demo_run_config: DemoRunConfig { args: None, ty_args: None },
            circuit_config: CircuitConfig { max_step_row: Some(64), ..CircuitConfig::default() },
        },
    ];
    let outcomes = configs
        .iter()
        .map(|c| Ok(c.entry_function.as_bytes().to_vec()))
        .collect();
    let (calls, r) = run(outcomes);
    assert_eq!(calls, 2);
    let vks = r.unwrap();
    assert_eq!(vks.len(), 2);
    assert_eq!(vks[0], b"0x1::coin::transfer".to_vec());
    assert_eq!(vks[1], b"0x1::coin::mint".to_vec());
    assert_ne!(vks[0], vks[1]);
}

#[test]
fn first_failure_aborts_batch() {
    let (calls, r) = run(vec![Ok(vec![1]), Err("setup failed".to_string()), Ok(vec![3])]);
    assert_eq!(calls, 2);
    let e = r.unwrap_err();
    assert_eq!(e.entry, 1);
    assert_eq!(e.reason, "setup failed");
}

#[test]
fn empty_batch_is_empty() {
    let (calls, r) = run(vec![]);
    assert_eq!(calls, 0);
    assert!(r.unwrap().is_empty());
}

#[test]
fn circuit_config_default_sets_nothing() {
    let c = CircuitConfig::default();
    assert!(c.max_step_row.is_none() && c.stack_ops_num.is_none() && c.locals_ops_num.is_none());
    assert!(c.global_ops_num.is_none() && c.max_frame_index.is_none() && c.max_locals_size.is_none());
    assert!(c.max_stack_size.is_none() && c.word_size.is_none());
}
