use clickup::tasks::{
    get_task_endpoint, list_team_tasks_endpoint, move_task_v3_path, track_task_after_get,
    track_task_get_options, TrackTaskStep,
};
use clickup::{GetTaskOptions, ListTeamTasksRequest, Task, TaskReference, TrackTaskOptions};

const TEST_WORKSPACE_ID: u64 = 42;
const TEST_CUSTOM_TASK_ID: &str = "TASK-123";

fn pair(name: &str, value: &str) -> (String, String) {
    (name.to_owned(), value.to_owned())
}

fn task(id: &str, name: Option<&str>) -> Task {
    Task {
        id: id.to_owned(),
        custom_id: None,
        name: name.map(str::to_owned),
        text_content: None,
        description: None,
        markdown_description: None,
        status: None,
        parent: None,
        priority: None,
        due_date: None,
        start_date: None,
        date_created: None,
        date_updated: None,
        date_closed: None,
        date_done: None,
        url: None,
        creator: None,
        list: None,
        folder: None,
        space: None,
        extra: Vec::new(),
    }
}

#[test]
fn tasks_custom_task_references_add_expected_query_params() {
    let reference = TaskReference::custom_id(TEST_WORKSPACE_ID, TEST_CUSTOM_TASK_ID);
    let mut query = Vec::new();
    reference.append_query(&mut query);

    assert!(query.contains(&("custom_task_ids".to_owned(), "true".to_owned())));
    assert!(query.contains(&("team_id".to_owned(), TEST_WORKSPACE_ID.to_string())));
    assert!(!query.iter().any(|(name, _)| name == "workspace_id"));
}

#[test]
fn internal_ids_add_no_query_params() {
    let reference = TaskReference::id("86abc123");
    let mut query = vec![pair("a", "b")];
    reference.append_query(&mut query);
    assert_eq!(query, vec![pair("a", "b")]);
    assert_eq!(reference.workspace_id(), None);
    assert_eq!(reference.path_value(), "86abc123");
    let custom = TaskReference::custom_id(7, "PROJ-42");
    assert_eq!(custom.workspace_id(), Some(7));
    assert_eq!(custom.path_value(), "PROJ-42");
}

#[test]
fn get_task_endpoint_path_and_query() {
    let reference = TaskReference::custom_id(9_012_345_678, "PROJ-42");
    let endpoint = get_task_endpoint(
        &reference,
        &GetTaskOptions { include_subtasks: true, include_markdown_description: true },
    );
    assert_eq!(endpoint.path, "/api/v2/task/PROJ-42");
    assert_eq!(
        endpoint.query,
        vec![
            pair("custom_task_ids", "true"),
            pair("team_id", "9012345678"),
            pair("include_subtasks", "true"),
            pair("include_markdown_description", "true"),
        ]
    );
    let endpoint = get_task_endpoint(&TaskReference::id("{task_id}x"), &GetTaskOptions::default());
    assert_eq!(endpoint.path, "/api/v2/task/{task_id}x");
    assert!(endpoint.query.is_empty());
}

#[test]
fn list_team_tasks_endpoint_path_and_query() {
    let request = ListTeamTasksRequest {
        workspace_id: 0,
        parent: Some("p1".to_owned()),
        include_closed: true,
        include_subtasks: true,
        include_markdown_description: true,
        page: Some(3),
    };
    let endpoint = list_team_tasks_endpoint(&request);
    assert_eq!(endpoint.path, "/api/v2/team/0/task");
    assert_eq!(
        endpoint.query,
        vec![
            pair("parent", "p1"),
            pair("include_closed", "true"),
            pair("subtasks", "true"),
            pair("include_markdown_description", "true"),
            pair("page", "3"),
        ]
    );
    let endpoint = list_team_tasks_endpoint(&ListTeamTasksRequest {
        workspace_id: u64::MAX,
        ..Default::default()
    });
    assert_eq!(endpoint.path, "/api/v2/team/18446744073709551615/task");
    assert!(endpoint.query.is_empty());
}

#[test]
fn subtask_requests_ask_for_closed_subtasks() {
    let request = ListTeamTasksRequest::for_subtasks(5, "parent-1");
    assert_eq!(request.workspace_id, 5);
    assert_eq!(
        request.to_query(),
        vec![
            pair("parent", "parent-1"),
            pair("include_closed", "true"),
            pair("subtasks", "true"),
        ]
    );
}

#[test]
fn move_task_path_substitutes_placeholders() {
    assert_eq!(
        move_task_v3_path(12, "t1", "l2"),
        "/api/v3/workspaces/12/tasks/t1/home_list/l2"
    );
    assert_eq!(
        move_task_v3_path(1, "a{list_id}", "L"),
        "/api/v3/workspaces/1/tasks/aL/home_list/L"
    );
}

#[test]
fn display_name_falls_back_to_id() {
    assert_eq!(task("86abc", Some("Write docs")).display_name(), "Write docs");
    assert_eq!(task("86abc", None).display_name(), "86abc");
}

#[test]
fn tracking_uses_inline_subtasks_when_present() {
    let options = TrackTaskOptions { include_markdown_description: true };
    let get = track_task_get_options(&options);
    assert!(get.include_subtasks && get.include_markdown_description);

    match track_task_after_get(42, task("t", None), vec![task("s1", None)], &options) {
        TrackTaskStep::Done(done) => {
            assert_eq!(done.task.id, "t");
            assert_eq!(done.subtasks.len(), 1);
            assert_eq!(done.subtasks[0].id, "s1");
        }
        other => panic!("unexpected {other:?}"),
    }
    match track_task_after_get(42, task("t", None), Vec::new(), &options) {
        TrackTaskStep::FetchSubtasks { task, request } => {
            assert_eq!(task.id, "t");
            assert_eq!(request.workspace_id, 42);
            assert_eq!(request.parent.as_deref(), Some("t"));
            assert!(request.include_closed && request.include_subtasks);
            assert!(request.include_markdown_description);
            assert_eq!(request.page, None);
        }
        other => panic!("unexpected {other:?}"),
    }
}
