use kv_store::store::AppState;
use kv_store::table::{Entry, PutOutcome, StoreError};

fn s(text: &str) -> String {
    text.to_string()
}

fn pairs(mut entries: Vec<Entry>) -> Vec<(String, String)> {
    entries.sort_by(|a, b| a.key.cmp(&b.key));
    entries.into_iter().map(|e| (e.key, e.value)).collect()
}

fn shared<T: Clone + Send + Sync + 'static>(_: &T) {}

#[test]
fn handle_can_be_shared_between_tasks() {
    let state = AppState::new();
    shared(&state);
}

#[test]
fn new_store_is_empty() {
    let state = AppState::new();
    assert!(state.list().is_empty());
    assert_eq!(state.get(&s("a")), Err(StoreError::NotFound));
}

#[test]
fn default_store_is_empty() {
    let state = AppState::default();
    assert!(state.list().is_empty());
    assert_eq!(state.delete(&s("a")), Err(StoreError::NotFound));
}

#[test]
fn store_runs_the_whole_life_of_an_entry() {
    let state = AppState::new();
    assert_eq!(state.put(s("a"), s("1")), PutOutcome::Created);
    assert_eq!(state.get(&s("a")), Ok(s("1")));
    assert_eq!(state.put(s("a"), s("2")), PutOutcome::Updated);
    assert_eq!(state.get(&s("a")), Ok(s("2")));
    assert_eq!(state.delete(&s("a")), Ok(s("2")));
    assert_eq!(state.get(&s("a")), Err(StoreError::NotFound));
    assert_eq!(state.delete(&s("a")), Err(StoreError::NotFound));
}

#[test]
fn clones_reach_the_same_mapping() {
    let state = AppState::new();
    let other = state.clone();
    state.put(s("a"), s("1"));
    assert_eq!(other.get(&s("a")), Ok(s("1")));
    assert_eq!(other.put(s("a"), s("2")), PutOutcome::Updated);
    assert_eq!(state.get(&s("a")), Ok(s("2")));
    assert_eq!(other.delete(&s("a")), Ok(s("2")));
    assert!(state.list().is_empty());
}

#[test]
fn separate_stores_do_not_share() {
    let first = AppState::new();
    let second = AppState::new();
    first.put(s("a"), s("1"));
    assert_eq!(second.get(&s("a")), Err(StoreError::NotFound));
    assert_eq!(second.put(s("a"), s("2")), PutOutcome::Created);
    assert_eq!(first.get(&s("a")), Ok(s("1")));
}

#[test]
fn store_list_is_a_snapshot() {
    let state = AppState::new();
    state.put(s("a"), s("1"));
    state.put(s("b"), s("2"));
    let snapshot = state.list();
    state.delete(&s("a")).unwrap();
    state.put(s("b"), s("3"));
    assert_eq!(pairs(snapshot), vec![(s("a"), s("1")), (s("b"), s("2"))]);
    assert_eq!(pairs(state.list()), vec![(s("b"), s("3"))]);
}

#[test]
fn locks_are_released_after_every_operation() {
    let state = AppState::new();
    for i in 0..100u32 {
        state.put(format!("k{}", i % 7), format!("{i}"));
        let _ = state.get(&format!("k{}", i % 5));
        let _ = state.list();
        let _ = state.delete(&format!("k{}", i % 3));
    }
    assert_eq!(state.put(s("done"), s("yes")), PutOutcome::Created);
}

#[test]
fn concurrent_puts_to_distinct_keys_all_land() {
    let runtime = tokio::runtime::Builder::new_multi_thread()
        .worker_threads(4)
        .build()
        .unwrap();
    let state = AppState::new();
    let mut workers = Vec::new();
    for t in 0..4u32 {
        let state = state.clone();
        workers.push(runtime.spawn(async move {
            for i in 0..50u32 {
                let outcome = state.put(format!("k{t}-{i}"), format!("v{t}-{i}"));
                assert_eq!(outcome, PutOutcome::Created);
            }
        }));
    }
    for w in workers {
        runtime.block_on(w).unwrap();
    }
    assert_eq!(state.list().len(), 200);
    for t in 0..4u32 {
        for i in 0..50u32 {
            assert_eq!(state.get(&format!("k{t}-{i}")), Ok(format!("v{t}-{i}")));
        }
    }
    assert_eq!(state.get(&s("absent")), Err(StoreError::NotFound));
}

#[test]
fn concurrent_puts_to_one_key_leave_one_whole_value() {
    let runtime = tokio::runtime::Builder::new_multi_thread()
        .worker_threads(4)
        .build()
        .unwrap();
    let state = AppState::new();
    let written: Vec<String> = (0..4u32).map(|t| format!("{t}").repeat(64)).collect();
    let mut workers = Vec::new();
    for value in written.iter().cloned() {
        let state = state.clone();
        workers.push(runtime.spawn(async move {
            let mut created = 0u32;
            for _ in 0..50u32 {
                if state.put("shared".to_string(), value.clone()) == PutOutcome::Created {
                    created += 1;
                }
                let seen = state.get(&"shared".to_string()).unwrap();
                assert_eq!(seen.len(), 64);
                assert!(seen.chars().all(|c| Some(c) == seen.chars().next()));
            }
            created
        }));
    }
    let mut created = 0u32;
    for w in workers {
        created += runtime.block_on(w).unwrap();
    }
    assert_eq!(created, 1);
    let last = state.get(&s("shared")).unwrap();
    assert!(written.contains(&last));
    assert_eq!(state.list().len(), 1);
}

#[test]
fn concurrent_readers_see_a_value_that_was_written() {
    let runtime = tokio::runtime::Builder::new_multi_thread()
        .worker_threads(4)
        .build()
        .unwrap();
    let state = AppState::new();
    state.put(s("k"), s("0"));
    let writer = {
        let state = state.clone();
        runtime.spawn(async move {
            for i in 1..=200u32 {
                state.put("k".to_string(), format!("{i}"));
            }
        })
    };
    let mut readers = Vec::new();
    for _ in 0..3 {
        let state = state.clone();
        readers.push(runtime.spawn(async move {
            let mut last = 0u32;
            for _ in 0..200 {
                let seen: u32 = state.get(&"k".to_string()).unwrap().parse().unwrap();
                assert!(seen >= last && seen <= 200);
                last = seen;
                let listed = state.list();
                assert_eq!(listed.len(), 1);
                assert_eq!(listed[0].key, "k");
            }
        }));
    }
    runtime.block_on(writer).unwrap();
    for r in readers {
        runtime.block_on(r).unwrap();
    }
    assert_eq!(state.get(&s("k")), Ok(s("200")));
}
