use task_service::{
    new_task, status_of_create, status_of_get, status_of_list, status_of_update, Action, Event, Phase, Task,
    TaskError, TaskPatch, UpdatePipeline, TASK_TOPIC,
};

const T0: i64 = 1_704_067_200_000_000;

fn only_completed(c: bool) -> TaskPatch {
    TaskPatch { title: None, description: None, completed: Some(c) }
}

#[test]
fn missing_row_is_not_found_and_never_publishes() {
    let (p, a) = UpdatePipeline::start(999_999, only_completed(true));
    assert_eq!(a, Action::Fetch { id: 999_999 });
    let (p, a) = p.step(Event::Fetched { row: None, now: T0 });
    assert_eq!(a, Action::Finish { result: Err(TaskError::NotFound) });
    assert_eq!(p.phase, Phase::Done);
    let (p, a) = p.step(Event::Written);
    assert_eq!(a, Action::Ignore);
    let (_, a) = p.step(Event::Published);
    assert_eq!(a, Action::Ignore);
    assert_eq!(status_of_update(&Err(TaskError::NotFound)), 500);
}

#[test]
fn create_then_complete_publishes_completed_row() {
    let created = new_task(1, "A".to_string(), None, T0);
    assert!(!created.completed);
    assert_eq!(status_of_create(&Ok(created.copy())), 201);

    let (p, a) = UpdatePipeline::start(1, only_completed(true));
    assert_eq!(a, Action::Fetch { id: 1 });
    let (p, a) = p.step(Event::Fetched { row: Some(created), now: T0 + 1_000_000 });
    let written = match a {
        Action::Write { task } => task,
        other => panic!("expected a write, got {:?}", other),
    };
    assert_eq!(written.title, "A");
    assert!(written.completed);
    let (p, a) = p.step(Event::Written);
    let payload = match a {
        Action::Publish { topic, payload } => {
            assert_eq!(topic, "task_updates");
            payload
        }
        other => panic!("expected a publish, got {:?}", other),
    };
    let v: serde_json::Value = serde_json::from_str(&payload).unwrap();
    assert_eq!(v.get("completed").and_then(|x| x.as_bool()), Some(true));
    assert_eq!(v.get("title").and_then(|x| x.as_str()), Some("A"));
    let (p, a) = p.step(Event::Published);
    match a {
        Action::Finish { result: Ok(t) } => {
            assert_eq!(t.title, "A");
            assert!(t.completed);
            assert_eq!(t.updated_at, T0 + 1_000_000);
            assert_eq!(status_of_update(&Ok(t)), 200);
        }
        other => panic!("expected success, got {:?}", other),
    }
    assert_eq!(p.phase, Phase::Done);
}

#[test]
fn get_of_unknown_id_is_404() {
    assert_eq!(status_of_get(&Ok(None)), 404);
    assert_eq!(status_of_get(&Ok(Some(new_task(1, "A".to_string(), None, T0)))), 200);
    assert_eq!(status_of_get(&Err(TaskError::Store)), 500);
}

#[test]
fn list_status() {
    assert_eq!(status_of_list(&Ok(Vec::new())), 200);
    assert_eq!(status_of_list(&Err(TaskError::Store)), 500);
    assert_eq!(status_of_create(&Err(TaskError::Store)), 500);
}

fn row(id: i32, title: &str) -> Task {
    new_task(id, title.to_string(), None, T0)
}

#[test]
fn interleaved_updates_publish_once_each() {
    let (p1, _) = UpdatePipeline::start(1, only_completed(true));
    let (p2, _) = UpdatePipeline::start(2, only_completed(false));
    let (p1, _) = p1.step(Event::Fetched { row: Some(row(1, "one")), now: T0 + 1 });
    let (p2, _) = p2.step(Event::Fetched { row: Some(row(2, "two")), now: T0 + 2 });
    let (p2, a2) = p2.step(Event::Written);
    let (p1, a1) = p1.step(Event::Written);
    let mut published = Vec::new();
    for a in [a1, a2] {
        if let Action::Publish { topic, payload } = a {
            assert_eq!(topic, TASK_TOPIC);
            published.push(payload);
        }
    }
    let (_, f1) = p1.step(Event::Published);
    let (_, f2) = p2.step(Event::Published);
    assert!(matches!(f1, Action::Finish { result: Ok(_) }));
    assert!(matches!(f2, Action::Finish { result: Ok(_) }));
    assert_eq!(published.len(), 2);
    let v1: serde_json::Value = serde_json::from_str(&published[0]).unwrap();
    let v2: serde_json::Value = serde_json::from_str(&published[1]).unwrap();
    assert_eq!(v1.get("id").and_then(|x| x.as_i64()), Some(1));
    assert_eq!(v1.get("title").and_then(|x| x.as_str()), Some("one"));
    assert_eq!(v2.get("id").and_then(|x| x.as_i64()), Some(2));
    assert_eq!(v2.get("title").and_then(|x| x.as_str()), Some("two"));
}

#[test]
fn store_and_publish_failures() {
    let (p, _) = UpdatePipeline::start(1, only_completed(true));
    let (_, a) = p.step(Event::FetchFailed);
    assert_eq!(a, Action::Finish { result: Err(TaskError::Store) });

    let (p, _) = UpdatePipeline::start(1, only_completed(true));
    let (p, _) = p.step(Event::Fetched { row: Some(row(1, "A")), now: T0 });
    let (_, a) = p.step(Event::WriteFailed);
    assert_eq!(a, Action::Finish { result: Err(TaskError::Store) });

    let (p, _) = UpdatePipeline::start(1, only_completed(true));
    let (p, _) = p.step(Event::Fetched { row: Some(row(1, "A")), now: T0 });
    let (p, _) = p.step(Event::Written);
    let (_, a) = p.step(Event::PublishFailed);
    assert_eq!(a, Action::Finish { result: Err(TaskError::Publish) });
    assert_eq!(status_of_update(&Err(TaskError::Publish)), 500);
}

#[test]
fn unencodable_row_is_not_published() {
    let (p, _) = UpdatePipeline::start(1, only_completed(true));
    let (p, _) = p.step(Event::Fetched { row: Some(row(1, "A")), now: i64::MAX });
    let (p, a) = p.step(Event::Written);
    assert_eq!(a, Action::Finish { result: Err(TaskError::Encode) });
    assert_eq!(p.phase, Phase::Done);
}

#[test]
fn out_of_order_events_are_ignored() {
    let (p, _) = UpdatePipeline::start(4, only_completed(true));
    let (p, a) = p.step(Event::Published);
    assert_eq!(a, Action::Ignore);
    assert!(matches!(p.phase, Phase::Fetching { .. }));
}

#[test]
fn clock_behind_row_still_publishes_well_formed_row() {
    let (p, _) = UpdatePipeline::start(1, only_completed(true));
    let prior = new_task(1, "A".to_string(), None, T0);
    let (p, a) = p.step(Event::Fetched { row: Some(prior), now: T0 - 5 });
    match a {
        Action::Write { task } => {
            assert_eq!(task.updated_at, T0);
            assert_eq!(task.created_at, T0);
        }
        other => panic!("expected a write, got {:?}", other),
    }
    let (_, a) = p.step(Event::Written);
    assert!(matches!(a, Action::Publish { .. }));
}
