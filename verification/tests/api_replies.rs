use asynqmon::api::{
    connect, get_queue_info, get_queues, get_servers, get_tasks, pause_queue, tasks_listed,
    unpause_queue, ApiResponse, HttpStatus, ServerInfoResponse, TaskInfoResponse, TasksStep,
};
use asynqmon::task_state::{parse_task_state, TaskState};

fn task(id: &str) -> TaskInfoResponse {
    TaskInfoResponse {
        id: id.to_string(),
        task_type: "email:send".to_string(),
        queue: "default".to_string(),
        max_retry: 25,
        retried: 3,
    }
}

#[test]
fn success_response_carries_data_only() {
    let (ok, data, error) = ApiResponse::success(41u32).into_parts();
    assert!(ok);
    assert_eq!(data, Some(41));
    assert_eq!(error, None);
}

#[test]
fn error_response_carries_message_only() {
    let response = ApiResponse::<Vec<String>>::error("Inspector not initialized".to_string());
    assert!(!response.is_success());
    let (ok, data, error) = response.into_parts();
    assert!(!ok);
    assert!(data.is_none());
    assert_eq!(error.as_deref(), Some("Inspector not initialized"));
}

#[test]
fn status_codes() {
    assert_eq!(HttpStatus::Success.code(), 200);
    assert_eq!(HttpStatus::BadRequest.code(), 400);
    assert_eq!(HttpStatus::InternalServerError.code(), 500);
}

#[test]
fn every_listed_state_name_is_accepted() {
    assert_eq!(parse_task_state("pending"), Some(TaskState::Pending));
    assert_eq!(parse_task_state("active"), Some(TaskState::Active));
    assert_eq!(parse_task_state("scheduled"), Some(TaskState::Scheduled));
    assert_eq!(parse_task_state("retry"), Some(TaskState::Retry));
    assert_eq!(parse_task_state("archived"), Some(TaskState::Archived));
    assert_eq!(parse_task_state("completed"), Some(TaskState::Completed));
}

#[test]
fn other_state_names_are_refused() {
    assert_eq!(parse_task_state("aggregating"), None);
    assert_eq!(parse_task_state("Pending"), None);
    assert_eq!(parse_task_state("pending "), None);
    assert_eq!(parse_task_state(""), None);
}

#[test]
fn get_tasks_lists_a_known_state() {
    match get_tasks("emails".to_string(), "scheduled") {
        TasksStep::List(queue, state) => {
            assert_eq!(queue, "emails");
            assert_eq!(state, TaskState::Scheduled);
        }
        TasksStep::Reply(_) => panic!("a known state must be listed"),
    }
}

#[test]
fn get_tasks_refuses_an_unknown_state_with_400() {
    match get_tasks("emails".to_string(), "finished") {
        TasksStep::Reply((status, body)) => {
            assert_eq!(status, HttpStatus::BadRequest);
            let (ok, data, error) = body.into_parts();
            assert!(!ok);
            assert!(data.is_none());
            assert_eq!(error.as_deref(), Some("Invalid task state"));
        }
        TasksStep::List(_, _) => panic!("an unknown state must be refused"),
    }
}

#[test]
fn listed_tasks_are_returned_with_200() {
    let (status, body) = tasks_listed(Ok(vec![task("a1"), task("b2")]));
    assert_eq!(status, HttpStatus::Success);
    let (ok, data, error) = body.into_parts();
    assert!(ok);
    let tasks = data.unwrap();
    assert_eq!(tasks.len(), 2);
    assert_eq!(tasks[0].id, "a1");
    assert_eq!(tasks[1].retried, 3);
    assert!(error.is_none());
}

#[test]
fn failed_listing_is_returned_with_500() {
    let (status, body) = tasks_listed(Err("Failed to list tasks: connection refused".to_string()));
    assert_eq!(status, HttpStatus::InternalServerError);
    let (ok, data, error) = body.into_parts();
    assert!(!ok);
    assert!(data.is_none());
    assert_eq!(error.as_deref(), Some("Failed to list tasks: connection refused"));
}

#[test]
fn queues_are_returned_with_200() {
    let (status, body) = get_queues(Ok(vec!["default".to_string(), "critical".to_string()]));
    assert_eq!(status, HttpStatus::Success);
    let (_, data, _) = body.into_parts();
    assert_eq!(data.unwrap(), vec!["default".to_string(), "critical".to_string()]);
}

#[test]
fn queue_info_error_is_returned_with_500() {
    let (status, body) = get_queue_info::<u64>(Err("Inspector not initialized".to_string()));
    assert_eq!(status, HttpStatus::InternalServerError);
    assert!(!body.is_success());
}

#[test]
fn servers_are_returned_with_200() {
    let server = ServerInfoResponse {
        server_id: "srv-1".to_string(),
        host: "worker-a".to_string(),
        pid: 4242,
        concurrency: 10,
        status: "active".to_string(),
        active_worker_count: 2,
        strict_priority: true,
    };
    let (status, body) = get_servers(Ok(vec![server]));
    assert_eq!(status, HttpStatus::Success);
    let (_, data, _) = body.into_parts();
    let servers = data.unwrap();
    assert_eq!(servers[0].server_id, "srv-1");
    assert_eq!(servers[0].pid, 4242);
}

#[test]
fn acknowledgements_name_the_action() {
    let (status, body) = connect(Ok(()));
    assert_eq!(status, HttpStatus::Success);
    assert_eq!(body.into_parts().1.as_deref(), Some("Connected"));

    let (status, body) = pause_queue(Ok(()));
    assert_eq!(status, HttpStatus::Success);
    assert_eq!(body.into_parts().1.as_deref(), Some("Paused"));

    let (status, body) = unpause_queue(Ok(()));
    assert_eq!(status, HttpStatus::Success);
    assert_eq!(body.into_parts().1.as_deref(), Some("Resumed"));
}

#[test]
fn failed_actions_are_returned_with_500() {
    let (status, body) = pause_queue(Err("Failed to pause queue: no such queue".to_string()));
    assert_eq!(status, HttpStatus::InternalServerError);
    let (ok, data, error) = body.into_parts();
    assert!(!ok);
    assert!(data.is_none());
    assert_eq!(error.as_deref(), Some("Failed to pause queue: no such queue"));

    let (status, body) = connect(Err("Failed to create Inspector: refused".to_string()));
    assert_eq!(status, HttpStatus::InternalServerError);
    assert_eq!(body.into_parts().2.as_deref(), Some("Failed to create Inspector: refused"));
}
