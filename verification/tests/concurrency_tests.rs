use btnify::button::{Button, ButtonResponse};
use btnify::dispatch::dispatch;
use btnify::registry::Registry;
use std::sync::atomic::{AtomicUsize, Ordering};
use std::sync::Arc;

struct Counter {
    count: AtomicUsize,
}

#[test]
fn simultaneous_dispatches_lose_no_update() {
    const TASKS: usize = 64;

    let runtime = tokio::runtime::Builder::new_multi_thread()
        .worker_threads(4)
        .build()
        .expect("runtime");

    let registry = Arc::new(Registry::build(vec![Button::create_button_with_state(
        "Count",
    )]));
    let state = Arc::new(Counter {
        count: AtomicUsize::new(0),
    });

    runtime.block_on(async {
        let mut handles = Vec::new();
        for _ in 0..TASKS {
            let registry = Arc::clone(&registry);
            let state = Arc::clone(&state);
            handles.push(tokio::spawn(async move {
                let increment =
                    |state: &Counter, _id: usize, _answers: Option<Vec<Option<String>>>| {
                        let now = state.count.fetch_add(1, Ordering::SeqCst) + 1;
                        ButtonResponse::new(format!("The count is: {now}"))
                    };
                dispatch(&registry, 0, Vec::new(), state.as_ref(), increment)
            }));
        }
        for handle in handles {
            let response = handle.await.expect("dispatch task");
            assert!(response.message.starts_with("The count is: "));
        }
    });

    assert_eq!(state.count.load(Ordering::SeqCst), TASKS);
}
