use plexo_cognition::fingerprint::{
    acquire_tasks_fingerprints, calculate_task_fingerprint, calculate_task_suggestion_fingerprint, Task,
    TaskPriority, TaskStatus, TaskSuggestionInput,
};

fn task() -> Task {
    Task {
        id: 1,
        created_at: 0,
        updated_at: 0,
        title: "a".to_string(),
        description: None,
        status: TaskStatus::Unset,
        priority: TaskPriority::Unset,
        due_date: None,
        project_id: None,
        lead_id: None,
        owner_id: 2,
        count: 0,
        parent_id: None,
    }
}

#[test]
fn task_fingerprint_exact_text() {
    let expected = format!(
        "{}1{}{}{}a-00---{}2{}-",
        "0".repeat(31),
        "8000000000000000",
        "8000000000000000",
        "0000000000000001",
        "0".repeat(31),
        "80000000"
    );
    assert_eq!(calculate_task_fingerprint(task()), expected);
}

#[test]
fn equal_tasks_have_equal_fingerprints() {
    assert_eq!(calculate_task_fingerprint(task()), calculate_task_fingerprint(task()));
}

#[test]
fn any_field_change_changes_the_fingerprint() {
    let base = calculate_task_fingerprint(task());
    let variants: Vec<Task> = vec![
        Task { id: 2, ..task() },
        Task { created_at: -1, ..task() },
        Task { updated_at: 5, ..task() },
        Task { title: "b".to_string(), ..task() },
        Task { description: Some(String::new()), ..task() },
        Task { status: TaskStatus::Done, ..task() },
        Task { priority: TaskPriority::Urgent, ..task() },
        Task { due_date: Some(0), ..task() },
        Task { project_id: Some(0), ..task() },
        Task { lead_id: Some(1), ..task() },
        Task { owner_id: 3, ..task() },
        Task { count: i32::MIN, ..task() },
        Task { parent_id: Some(u128::MAX), ..task() },
    ];
    for t in variants {
        assert_ne!(calculate_task_fingerprint(t), base);
    }
}

#[test]
fn text_boundaries_are_kept_apart() {
    let t1 = Task { title: "ab".to_string(), description: Some("c".to_string()), ..task() };
    let t2 = Task { title: "a".to_string(), description: Some("bc".to_string()), ..task() };
    assert_ne!(calculate_task_fingerprint(t1), calculate_task_fingerprint(t2));
}

#[test]
fn unicode_title_length_counts_characters() {
    let t = Task { title: "é".to_string(), ..task() };
    assert!(calculate_task_fingerprint(t).contains("0000000000000001é"));
}

#[test]
fn suggestion_with_only_a_title_marks_every_other_field() {
    let s = TaskSuggestionInput {
        title: Some("Buy milk".to_string()),
        description: None,
        status: None,
        priority: None,
        due_date: None,
    };
    assert_eq!(
        calculate_task_suggestion_fingerprint(s),
        "Task Title: Buy milk\n        Task Description: <suggest>\n        Task Status: <suggest>\n        Task Priority: <suggest>\n        Task Due Date: <suggest>"
    );
}

#[test]
fn suggestion_with_every_field_set() {
    let s = TaskSuggestionInput {
        title: None,
        description: Some("From the shop".to_string()),
        status: Some(TaskStatus::InProgress),
        priority: Some(TaskPriority::High),
        due_date: Some("2024-01-02T03:04:05+00:00".to_string()),
    };
    assert_eq!(
        calculate_task_suggestion_fingerprint(s),
        "Task Title: <suggest>\n        Task Description: From the shop\n        Task Status: InProgress\n        Task Priority: High\n        Task Due Date: 2024-01-02T03:04:05+00:00"
    );
}

#[test]
fn status_and_priority_names() {
    assert_eq!(TaskStatus::Unset.to_text(), "None");
    assert_eq!(TaskStatus::ToDo.to_text(), "ToDo");
    assert_eq!(TaskStatus::Canceled.to_text(), "Canceled");
    assert_eq!(TaskPriority::Unset.to_text(), "None");
    assert_eq!(TaskPriority::Medium.to_text(), "Medium");
}

#[test]
fn fingerprints_are_limited_to_the_requested_count() {
    let tasks = vec![task(), Task { id: 7, ..task() }, Task { id: 8, ..task() }];
    let fps = acquire_tasks_fingerprints(&tasks, 2, None);
    assert_eq!(fps.len(), 2);
    assert_eq!(fps[0], calculate_task_fingerprint(task()));
    assert_eq!(fps[1], calculate_task_fingerprint(Task { id: 7, ..task() }));
    assert_eq!(acquire_tasks_fingerprints(&tasks, 10, None).len(), 3);
    assert!(acquire_tasks_fingerprints(&tasks, 0, None).is_empty());
}

#[test]
fn fingerprints_keep_to_the_project_scope() {
    let tasks = vec![
        Task { id: 1, project_id: Some(5), ..task() },
        Task { id: 2, project_id: None, ..task() },
        Task { id: 3, project_id: Some(6), ..task() },
        Task { id: 4, project_id: Some(5), ..task() },
        Task { id: 5, project_id: Some(5), ..task() },
    ];
    let fps = acquire_tasks_fingerprints(&tasks, 2, Some(5));
    assert_eq!(fps.len(), 2);
    assert_eq!(fps[0], calculate_task_fingerprint(Task { id: 1, project_id: Some(5), ..task() }));
    assert_eq!(fps[1], calculate_task_fingerprint(Task { id: 4, project_id: Some(5), ..task() }));
    assert_eq!(acquire_tasks_fingerprints(&tasks, 10, Some(6)).len(), 1);
    assert!(acquire_tasks_fingerprints(&tasks, 10, Some(7)).is_empty());
}
