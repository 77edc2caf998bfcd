use anchor_kit::todo::{Todo, TodoError, TodoQueue};

fn descriptions(q: &TodoQueue) -> Vec<(u64, String)> {
    q.list_tasks()
        .into_iter()
        .map(|t| (t.id, t.description.clone()))
        .collect()
}

#[test]
fn new_list_is_empty_and_starts_at_one() {
    let q = TodoQueue::new("todos.bin");
    assert!(q.list_tasks().is_empty());
    assert_eq!(q.next_id(), 1);
    assert_eq!(q.storage_path(), "todos.bin");
}

#[test]
fn example_session() {
    let mut q = TodoQueue::new("todos.bin");
    let t = q.add_task_at("Buy groceries".to_string(), 100);
    assert_eq!(t.id, 1);
    assert_eq!(t.description, "Buy groceries");
    let t = q.add_task_at("Walk the dog".to_string(), 101);
    assert_eq!(t.id, 2);
    assert_eq!(t.description, "Walk the dog");
    let t = q.add_task_at("Finish project".to_string(), 102);
    assert_eq!(t.id, 3);
    assert_eq!(
        descriptions(&q),
        vec![
            (1, "Buy groceries".to_string()),
            (2, "Walk the dog".to_string()),
            (3, "Finish project".to_string())
        ]
    );
    let done = q.complete_next().unwrap();
    assert_eq!(done.id, 1);
    assert_eq!(done.description, "Buy groceries");
    assert_eq!(
        descriptions(&q),
        vec![(2, "Walk the dog".to_string()), (3, "Finish project".to_string())]
    );
}

#[test]
fn add_task_returns_the_new_task() {
    let mut q = TodoQueue::new("x");
    q.add_task("first".to_string()).unwrap();
    let t = q.add_task("second".to_string()).unwrap();
    assert_eq!(t.id, 2);
    assert_eq!(t.description, "second");
    assert_eq!(q.next_id(), 3);
}

#[test]
fn add_task_at_keeps_creation_time() {
    let mut q = TodoQueue::new("x");
    let t = q.add_task_at("t".to_string(), 1_700_000_000);
    assert_eq!(t.created_at, 1_700_000_000);
}

#[test]
fn complete_on_empty_gives_nothing() {
    let mut q = TodoQueue::new("x");
    assert!(q.complete_next().is_none());
    assert_eq!(q.next_id(), 1);
}

#[test]
fn ids_keep_increasing_after_completion() {
    let mut q = TodoQueue::new("x");
    q.add_task_at("a".to_string(), 0);
    q.complete_next();
    let t = q.add_task_at("b".to_string(), 0);
    assert_eq!(t.id, 2);
}

#[test]
fn completed_task_has_smallest_id() {
    let mut q = TodoQueue::new("x");
    for i in 0..4 {
        q.add_task_at(format!("task {}", i), i);
    }
    let smallest = q.list_tasks().iter().map(|t| t.id).min().unwrap();
    assert_eq!(q.complete_next().unwrap().id, smallest);
}

#[test]
fn restore_replaces_tasks_and_next_id() {
    let mut q = TodoQueue::new("store.bin");
    q.add_task_at("old".to_string(), 0);
    let tasks = vec![
        Todo { id: 5, description: "five".to_string(), created_at: 50 },
        Todo { id: 8, description: "eight".to_string(), created_at: 80 },
    ];
    q.restore(tasks, 9);
    assert_eq!(
        descriptions(&q),
        vec![(5, "five".to_string()), (8, "eight".to_string())]
    );
    assert_eq!(q.next_id(), 9);
    assert_eq!(q.storage_path(), "store.bin");
    let t = q.add_task_at("nine".to_string(), 90);
    assert_eq!(t.id, 9);
}

#[test]
fn add_task_with_clock_reading() {
    let mut q = TodoQueue::new("x");
    let t = q.add_task_with_clock("t".to_string(), Some(42)).unwrap();
    assert_eq!((t.id, t.created_at), (1, 42));
    assert_eq!(q.next_id(), 2);
}

#[test]
fn add_task_with_clock_before_epoch_adds_nothing() {
    let mut q = TodoQueue::new("x");
    q.add_task_at("a".to_string(), 1);
    assert!(matches!(
        q.add_task_with_clock("b".to_string(), None),
        Err(TodoError::ClockBeforeUnixEpoch)
    ));
    assert_eq!(q.list_tasks().len(), 1);
    assert_eq!(q.next_id(), 2);
}
