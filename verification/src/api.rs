use vstd::prelude::*;

use crate::task_state::{parse_task_state, state_named, TaskState};

verus! {

/// The body of every API reply: either the requested data, or an error
/// message, never both and never neither.
pub struct ApiResponse<T> {
    success: bool,
    data: Option<T>,
    error: Option<String>,
}

impl<T> ApiResponse<T> {
    #[verifier::type_invariant]
    spec fn well_formed(self) -> bool {
        if self.success {
            self.data is Some && self.error is None
        } else {
            self.data is None && self.error is Some
        }
    }

    /// Whether the reply reports success.
    pub closed spec fn succeeded(self) -> bool {
        self.success
    }

    /// The data that the reply carries.
    pub closed spec fn payload(self) -> Option<T> {
        self.data
    }

    /// The text of the error that the reply carries.
    pub closed spec fn message(self) -> Option<Seq<char>> {
        match self.error {
            Some(e) => Some(e@),
            None => None,
        }
    }

    /// A successful reply carrying `data`.
    pub fn success(data: T) -> (response: Self)
        ensures
            response.succeeded(),
            response.payload() == Some(data),
            response.message() is None,
    {
        ApiResponse { success: true, data: Some(data), error: None }
    }

    /// A failed reply carrying the message `error`.
    pub fn error(error: String) -> (response: Self)
        ensures
            !response.succeeded(),
            response.payload() is None,
            response.message() == Some(error@),
    {
        ApiResponse { success: false, data: None, error: Some(error) }
    }

    /// Whether the reply reports success.
    pub fn is_success(&self) -> (ok: bool)
        ensures
            ok == self.succeeded(),
    {
        self.success
    }

    /// Takes the reply apart into its flag, its data and its error message.
    /// Whatever reply it is given, the flag is set exactly when data is
    /// present, and exactly when no message is.
    pub fn into_parts(self) -> (parts: (bool, Option<T>, Option<String>))
        ensures
            parts.0 == self.succeeded(),
            parts.1 == self.payload(),
            parts.2 is None <==> self.message() is None,
            parts.2 matches Some(e) ==> self.message() == Some(e@),
            parts.0 ==> parts.1 is Some && parts.2 is None,
            !parts.0 ==> parts.1 is None && parts.2 is Some,
    {
        proof {
            use_type_invariant(&self);
        }
        (self.success, self.data, self.error)
    }
}

/// The HTTP status of a reply.
#[derive(Clone, Copy, Debug, PartialEq, Eq, Structural)]
pub enum HttpStatus {
    Success,
    BadRequest,
    InternalServerError,
}

/// The numeric code of an HTTP status.
pub open spec fn status_code(status: HttpStatus) -> u16 {
    match status {
        HttpStatus::Success => 200,
        HttpStatus::BadRequest => 400,
        HttpStatus::InternalServerError => 500,
    }
}

impl HttpStatus {
    /// The numeric code of this status.
    pub fn code(&self) -> (code: u16)
        ensures
            code == status_code(*self),
    {
        match self {
            HttpStatus::Success => 200,
            HttpStatus::BadRequest => 400,
            HttpStatus::InternalServerError => 500,
        }
    }
}

/// A successful reply with status 200 that carries `data`.
pub open spec fn is_success_reply<T>(reply: (HttpStatus, ApiResponse<T>), data: T) -> bool {
    &&& reply.0 == HttpStatus::Success
    &&& reply.1.succeeded()
    &&& reply.1.payload() == Some(data)
    &&& reply.1.message() is None
}

/// A failed reply with the given status that carries the message `message`.
pub open spec fn is_error_reply<T>(
    reply: (HttpStatus, ApiResponse<T>),
    status: HttpStatus,
    message: Seq<char>,
) -> bool {
    &&& reply.0 == status
    &&& !reply.1.succeeded()
    &&& reply.1.payload() is None
    &&& reply.1.message() == Some(message)
}

/// The reply to a request whose service call came back with `outcome`:
/// its data with status 200, or its error message with status 500.
pub open spec fn answers<T>(reply: (HttpStatus, ApiResponse<T>), outcome: Result<T, String>) -> bool {
    match outcome {
        Ok(data) => is_success_reply(reply, data),
        Err(e) => is_error_reply(reply, HttpStatus::InternalServerError, e@),
    }
}

/// The reply to a request whose service call came back with `outcome` and
/// yields no data: the acknowledgement `ack` with status 200, or the error
/// message with status 500.
pub open spec fn acknowledges(
    reply: (HttpStatus, ApiResponse<String>),
    outcome: Result<(), String>,
    ack: Seq<char>,
) -> bool {
    match outcome {
        Ok(_) => {
            &&& reply.0 == HttpStatus::Success
            &&& reply.1.succeeded()
            &&& reply.1.payload() matches Some(text) && text@ == ack
            &&& reply.1.message() is None
        },
        Err(e) => is_error_reply(reply, HttpStatus::InternalServerError, e@),
    }
}

fn answer<T>(outcome: Result<T, String>) -> (reply: (HttpStatus, ApiResponse<T>))
    ensures
        answers(reply, outcome),
{
    match outcome {
        Ok(data) => (HttpStatus::Success, ApiResponse::success(data)),
        Err(e) => (HttpStatus::InternalServerError, ApiResponse::error(e)),
    }
}

fn acknowledge(outcome: Result<(), String>, ack: &str) -> (reply: (HttpStatus, ApiResponse<String>))
    ensures
        acknowledges(reply, outcome, ack@),
{
    match outcome {
        Ok(_) => (HttpStatus::Success, ApiResponse::success(ack.to_owned())),
        Err(e) => (HttpStatus::InternalServerError, ApiResponse::error(e)),
    }
}

/// The body of a request to connect to Redis.
pub struct ConnectRequest {
    pub redis_url: String,
}

/// What a client is shown of a task.
#[derive(Clone)]
pub struct TaskInfoResponse {
    pub id: String,
    pub task_type: String,
    pub queue: String,
    pub max_retry: i32,
    pub retried: i32,
}

/// What a client is shown of a worker server.
#[derive(Clone)]
pub struct ServerInfoResponse {
    pub server_id: String,
    pub host: String,
    pub pid: i32,
    pub concurrency: i32,
    pub status: String,
    pub active_worker_count: i32,
    pub strict_priority: bool,
}

/// Replies to a request to connect, given how the connection attempt ended.
pub fn connect(outcome: Result<(), String>) -> (reply: (HttpStatus, ApiResponse<String>))
    ensures
        acknowledges(reply, outcome, "Connected"@),
        outcome is Ok ==> reply.0 == HttpStatus::Success && reply.1.succeeded(),
        outcome matches Err(e) ==> reply.0 == HttpStatus::InternalServerError
            && !reply.1.succeeded() && reply.1.payload() is None && reply.1.message() == Some(e@),
{
    acknowledge(outcome, "Connected")
}

/// Replies to a request for the queue names, given what the service returned.
pub fn get_queues(outcome: Result<Vec<String>, String>) -> (reply: (
    HttpStatus,
    ApiResponse<Vec<String>>,
))
    ensures
        answers(reply, outcome),
{
    answer(outcome)
}

/// Replies to a request for one queue's statistics, given what the service
/// returned.
pub fn get_queue_info<Q>(outcome: Result<Q, String>) -> (reply: (HttpStatus, ApiResponse<Q>))
    ensures
        answers(reply, outcome),
{
    answer(outcome)
}

/// Replies to a request for the worker servers, given what the service
/// returned.
pub fn get_servers(outcome: Result<Vec<ServerInfoResponse>, String>) -> (reply: (
    HttpStatus,
    ApiResponse<Vec<ServerInfoResponse>>,
))
    ensures
        answers(reply, outcome),
{
    answer(outcome)
}

/// What a request for the tasks of a queue in a named state leads to.
pub enum TasksStep {
    /// The request is answered at once with this reply.
    Reply((HttpStatus, ApiResponse<Vec<TaskInfoResponse>>)),
    /// The tasks of this queue in this state are to be listed.
    List(String, TaskState),
}

/// Decides a request for the tasks of `queue` in the state named
/// `state_name`: a known name leads to listing that queue's tasks in that
/// state, any other is refused with status 400 and the message "Invalid task
/// state".
pub fn get_tasks(queue: String, state_name: &str) -> (step: TasksStep)
    ensures
        match state_named(state_name@) {
            Some(state) => step == TasksStep::List(queue, state),
            None => step matches TasksStep::Reply(reply) && is_error_reply(
                reply,
                HttpStatus::BadRequest,
                "Invalid task state"@,
            ),
        },
{
    match parse_task_state(state_name) {
        Some(state) => TasksStep::List(queue, state),
        None => TasksStep::Reply(
            (HttpStatus::BadRequest, ApiResponse::error("Invalid task state".to_owned())),
        ),
    }
}

/// Replies to a request for tasks once they were listed, given what the
/// service returned.
pub fn tasks_listed(outcome: Result<Vec<TaskInfoResponse>, String>) -> (reply: (
    HttpStatus,
    ApiResponse<Vec<TaskInfoResponse>>,
))
    ensures
        answers(reply, outcome),
{
    answer(outcome)
}

/// Replies to a request to pause a queue, given how the service call ended.
pub fn pause_queue(outcome: Result<(), String>) -> (reply: (HttpStatus, ApiResponse<String>))
    ensures
        acknowledges(reply, outcome, "Paused"@),
        outcome is Ok ==> reply.0 == HttpStatus::Success && reply.1.succeeded(),
        outcome matches Err(e) ==> reply.0 == HttpStatus::InternalServerError
            && !reply.1.succeeded() && reply.1.payload() is None && reply.1.message() == Some(e@),
{
    acknowledge(outcome, "Paused")
}

/// Replies to a request to resume a queue, given how the service call ended.
pub fn unpause_queue(outcome: Result<(), String>) -> (reply: (HttpStatus, ApiResponse<String>))
    ensures
        acknowledges(reply, outcome, "Resumed"@),
        outcome is Ok ==> reply.0 == HttpStatus::Success && reply.1.succeeded(),
        outcome matches Err(e) ==> reply.0 == HttpStatus::InternalServerError
            && !reply.1.succeeded() && reply.1.payload() is None && reply.1.message() == Some(e@),
{
    acknowledge(outcome, "Resumed")
}

/// Whatever the acknowledgement text, a failed action is answered with
/// status 500, no data and the failure's message; a successful one with
/// status 200, the acknowledgement as data and no message.
pub proof fn lemma_acknowledgement_follows_outcome(
    reply: (HttpStatus, ApiResponse<String>),
    outcome: Result<(), String>,
    ack: Seq<char>,
)
    requires
        acknowledges(reply, outcome, ack),
    ensures
        outcome matches Err(e) ==> status_code(reply.0) == 500 && !reply.1.succeeded()
            && reply.1.payload() is None && reply.1.message() == Some(e@),
        outcome is Ok ==> status_code(reply.0) == 200 && reply.1.succeeded()
            && reply.1.message() is None && (reply.1.payload() matches Some(text) && text@ == ack),
{
}

/// A service outcome is answered with status 200 and its data when it is a
/// success, and with status 500, no data and its message when it is a
/// failure.
pub proof fn lemma_answer_follows_outcome<T>(reply: (HttpStatus, ApiResponse<T>), outcome: Result<T, String>)
    requires
        answers(reply, outcome),
    ensures
        outcome matches Ok(data) ==> status_code(reply.0) == 200 && reply.1.succeeded()
            && reply.1.payload() == Some(data) && reply.1.message() is None,
        outcome matches Err(e) ==> status_code(reply.0) == 500 && !reply.1.succeeded()
            && reply.1.payload() is None && reply.1.message() == Some(e@),
{
}

} // verus!
