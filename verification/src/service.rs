use vstd::prelude::*;

use asynq::backend::RedisConnectionType;

use crate::text::{failure_message, failure_text};

verus! {

/// How an Asynq backend is reached; built from a Redis URL.
#[verifier::external_type_specification]
#[verifier::external_body]
pub struct ExRedisConnectionType(RedisConnectionType);

/// An error of the Asynq crate.
#[verifier::external_type_specification]
#[verifier::external_body]
pub struct ExAsynqError(asynq::error::Error);

/// Whether a URL names a plain Redis or Valkey server over TCP: it starts
/// with `redis://` or `valkey://`.
pub open spec fn is_redis_tcp_url(url: Seq<char>) -> bool {
    ||| url.len() >= 8 && url.subrange(0, 8) == "redis://"@
    ||| url.len() >= 9 && url.subrange(0, 9) == "valkey://"@
}

/// Whether `RedisConnectionType::single` accepts a `redis://` or
/// `valkey://` URL. For such a URL the call parses it with `url::Url::parse`
/// and reads host, port, database, user, password and protocol from it,
/// with no switch on the platform or the build's features and nothing read
/// from the environment: the answer depends on the text alone.
pub uninterp spec fn redis_tcp_url_accepted(url: Seq<char>) -> bool;

/// An ASCII letter.
pub open spec fn is_ascii_letter(c: char) -> bool {
    ('a' <= c && c <= 'z') || ('A' <= c && c <= 'Z')
}

/// A character that `url::Url::parse` takes into a scheme.
pub open spec fn is_scheme_char(c: char) -> bool {
    is_ascii_letter(c) || ('0' <= c && c <= '9') || c == '+' || c == '-' || c == '.'
}

/// A character in ASCII lower case.
pub open spec fn ascii_lower(c: char) -> char {
    if 'A' <= c && c <= 'Z' {
        ((c as int) + 32) as char
    } else {
        c
    }
}

/// Whether the text opens with a scheme that ends at the colon at `end`:
/// a letter first, then scheme characters only, up to that colon.
pub open spec fn scheme_ends_at(url: Seq<char>, end: int) -> bool {
    &&& 0 < end < url.len()
    &&& url[end] == ':'
    &&& is_ascii_letter(url[0])
    &&& forall|j: int| 0 <= j < end ==> is_scheme_char(#[trigger] url[j])
}

/// The schemes that the `redis` crate takes as a Redis URL.
pub open spec fn is_redis_scheme(scheme: Seq<char>) -> bool {
    ||| scheme == "redis"@
    ||| scheme == "rediss"@
    ||| scheme == "valkey"@
    ||| scheme == "valkeys"@
    ||| scheme == "redis+unix"@
    ||| scheme == "valkey+unix"@
    ||| scheme == "unix"@
}

/// Calls `asynq::backend::RedisConnectionType::single`, which parses the URL
/// into the description of a single Redis server. The contract states:
/// - a text without a colon has no scheme, so `url::Url::parse` refuses it,
///   `redis` reports that the URL did not parse, and the call fails;
/// - a text that opens with a scheme which, in lower case, is none of the
///   schemes `redis` knows, is refused by `redis`, and the call fails;
/// - for a `redis://` or `valkey://` URL, success is
///   `redis_tcp_url_accepted` of its text.
/// What is left unsaid: the outcome for `rediss`, `valkeys` and unix-socket
/// URLs, which depends on the build's TLS features and on the platform the
/// program was built for, and for texts that open with spaces or control
/// characters.
#[verifier::external_body]
fn redis_connection_single(redis_url: String) -> (config: Result<RedisConnectionType, asynq::error::Error>)
    ensures
        !redis_url@.contains(':') ==> config is Err,
        forall|end: int|
            #[trigger] scheme_ends_at(redis_url@, end) && !is_redis_scheme(
                redis_url@.take(end).map_values(|c: char| ascii_lower(c)),
            ) ==> config is Err,
        is_redis_tcp_url(redis_url@) ==> (config is Ok <==> redis_tcp_url_accepted(redis_url@)),
{
    RedisConnectionType::single(redis_url)
}

/// Calls `ToString::to_string` on an Asynq error, which writes it through
/// its `Display` impl. Nothing is stated of the text, since the error is
/// opaque here.
#[verifier::external_body]
fn asynq_error_text(error: &asynq::error::Error) -> (text: String) {
    error.to_string()
}

/// The Redis URL that the service points at before any connection is made.
pub open spec fn default_redis_url() -> Seq<char> {
    "redis://127.0.0.1:6379"@
}

/// The message given when a query is made before an inspector is in place.
pub open spec fn not_initialized_text() -> Seq<char> {
    "Inspector not initialized"@
}

/// An outcome whose error is taken by its text.
pub open spec fn outcome_view<T>(outcome: Result<T, String>) -> Result<T, Seq<char>> {
    match outcome {
        Ok(value) => Ok(value),
        Err(e) => Err(e@),
    }
}

/// An outcome with its error message prefixed by `context`.
pub open spec fn with_context<T>(outcome: Result<T, String>, context: Seq<char>) -> Result<T, Seq<char>> {
    match outcome {
        Ok(value) => Ok(value),
        Err(e) => Err(failure_text(context, e@)),
    }
}

/// What the inspector service holds: the inspector, once one was created,
/// and the URL of the Redis server it was created for.
pub struct ServiceModel<I> {
    pub inspector: Option<I>,
    pub redis_url: Seq<char>,
}

impl<I> ServiceModel<I> {
    /// A service that was just made: no inspector, the default URL.
    pub open spec fn fresh() -> Self {
        ServiceModel { inspector: None, redis_url: default_redis_url() }
    }

    /// The service after an attempt to connect to `redis_url` that created
    /// an inspector, or failed with a message: a created inspector and its
    /// URL replace what was held; a failure changes nothing.
    pub open spec fn installed(self, redis_url: Seq<char>, created: Result<I, Seq<char>>) -> Self {
        match created {
            Ok(inspector) => ServiceModel { inspector: Some(inspector), redis_url },
            Err(_) => self,
        }
    }

    /// The inspector that queries go to, or the message that refuses them.
    pub open spec fn lookup(self) -> Result<I, Seq<char>> {
        match self.inspector {
            Some(inspector) => Ok(inspector),
            None => Err(not_initialized_text()),
        }
    }
}

/// The calls that the service forwards to the inspector.
#[derive(Clone, Copy, Debug, PartialEq, Eq, Structural)]
pub enum Operation {
    GetQueues,
    GetQueueInfo,
    GetServers,
    ListTasks,
    GetHistory,
    PauseQueue,
    UnpauseQueue,
    DeleteTask,
    ArchiveAllPendingTasks,
    RunAllArchivedTasks,
}

/// The context in which a failure of an operation is reported.
pub open spec fn operation_context(operation: Operation) -> Seq<char> {
    match operation {
        Operation::GetQueues => "Failed to get queues"@,
        Operation::GetQueueInfo => "Failed to get queue info"@,
        Operation::GetServers => "Failed to get servers"@,
        Operation::ListTasks => "Failed to list tasks"@,
        Operation::GetHistory => "Failed to get history"@,
        Operation::PauseQueue => "Failed to pause queue"@,
        Operation::UnpauseQueue => "Failed to resume queue"@,
        Operation::DeleteTask => "Failed to delete task"@,
        Operation::ArchiveAllPendingTasks => "Failed to archive pending tasks"@,
        Operation::RunAllArchivedTasks => "Failed to run archived tasks"@,
    }
}

impl Operation {
    /// The context in which a failure of this operation is reported.
    pub fn context(&self) -> (context: &'static str)
        ensures
            context@ == operation_context(*self),
    {
        match self {
            Operation::GetQueues => "Failed to get queues",
            Operation::GetQueueInfo => "Failed to get queue info",
            Operation::GetServers => "Failed to get servers",
            Operation::ListTasks => "Failed to list tasks",
            Operation::GetHistory => "Failed to get history",
            Operation::PauseQueue => "Failed to pause queue",
            Operation::UnpauseQueue => "Failed to resume queue",
            Operation::DeleteTask => "Failed to delete task",
            Operation::ArchiveAllPendingTasks => "Failed to archive pending tasks",
            Operation::RunAllArchivedTasks => "Failed to run archived tasks",
        }
    }
}

/// Passes on what an operation returned, with an error message put in the
/// context of that operation.
pub fn complete<T>(operation: Operation, outcome: Result<T, String>) -> (result: Result<T, String>)
    ensures
        outcome_view(result) == with_context(outcome, operation_context(operation)),
{
    match outcome {
        Ok(value) => Ok(value),
        Err(detail) => Err(failure_message(operation.context(), detail.as_str())),
    }
}

/// Passes on the outcome of building a connection description, with an
/// error message put in the context "Failed to create Redis config".
pub fn config_outcome(outcome: Result<RedisConnectionType, String>) -> (result: Result<
    RedisConnectionType,
    String,
>)
    ensures
        outcome_view(result) == with_context(outcome, "Failed to create Redis config"@),
{
    match outcome {
        Ok(config) => Ok(config),
        Err(detail) => Err(failure_message("Failed to create Redis config", detail.as_str())),
    }
}

/// The inspector service: holds the inspector of type `I` once a connection
/// was made, and the Redis URL it was made for. Every query goes through
/// `inspector`, which refuses it while no inspector is in place.
pub struct InspectorService<I> {
    inspector: Option<I>,
    redis_url: String,
}

impl<I> View for InspectorService<I> {
    type V = ServiceModel<I>;

    closed spec fn view(&self) -> ServiceModel<I> {
        ServiceModel { inspector: self.inspector, redis_url: self.redis_url@ }
    }
}

impl<I> InspectorService<I> {
    /// A service with no inspector, pointing at the default Redis URL.
    pub fn new() -> (service: Self)
        ensures
            service@ == ServiceModel::<I>::fresh(),
    {
        InspectorService { inspector: None, redis_url: "redis://127.0.0.1:6379".to_owned() }
    }

    /// Describes the Redis server at `redis_url`, the first step of a
    /// connection. A refused URL is reported in the context "Failed to
    /// create Redis config". A URL without a colon, or with a scheme that
    /// Redis does not know, is always refused; a `redis://` or `valkey://`
    /// URL succeeds exactly when the parser accepts its text.
    pub fn connection_config(redis_url: &String) -> (config: Result<RedisConnectionType, String>)
        ensures
            !redis_url@.contains(':') ==> config is Err,
            forall|end: int|
                #[trigger] scheme_ends_at(redis_url@, end) && !is_redis_scheme(
                    redis_url@.take(end).map_values(|c: char| ascii_lower(c)),
                ) ==> config is Err,
            is_redis_tcp_url(redis_url@) ==> (config is Ok <==> redis_tcp_url_accepted(redis_url@)),
            config matches Err(message) ==> exists|detail: Seq<char>|
                message@ == failure_text("Failed to create Redis config"@, detail),
    {
        let parsed = match redis_connection_single(redis_url.clone()) {
            Ok(config) => Ok(config),
            Err(error) => Err(asynq_error_text(&error)),
        };
        let ghost raw = parsed;
        let config = config_outcome(parsed);
        proof {
            if let Err(detail) = raw {
                assert(config matches Err(message) && message@ == failure_text(
                    "Failed to create Redis config"@,
                    detail@,
                ));
            }
        }
        config
    }

    /// Records the end of an attempt to connect to `redis_url`: a created
    /// inspector is put in place together with the URL; a failure leaves the
    /// service as it was and is reported in the context "Failed to create
    /// Inspector".
    pub fn initialize(&mut self, redis_url: String, created: Result<I, String>) -> (result: Result<
        (),
        String,
    >)
        ensures
            final(self)@ == old(self)@.installed(redis_url@, outcome_view(created)),
            created is Ok ==> result is Ok,
            created matches Err(detail) ==> result matches Err(message) && message@
                == failure_text("Failed to create Inspector"@, detail@),
    {
        match created {
            Ok(inspector) => {
                self.inspector = Some(inspector);
                self.redis_url = redis_url;
                Ok(())
            },
            Err(detail) => Err(failure_message("Failed to create Inspector", detail.as_str())),
        }
    }

    /// The Redis URL that the service points at.
    pub fn get_redis_url(&self) -> (redis_url: String)
        ensures
            redis_url@ == self@.redis_url,
    {
        self.redis_url.clone()
    }

    /// Whether an inspector is in place.
    pub fn is_initialized(&self) -> (initialized: bool)
        ensures
            initialized == (self@.inspector is Some),
    {
        self.inspector.is_some()
    }

    /// The inspector that a query goes to, or the message "Inspector not
    /// initialized" while there is none.
    pub fn inspector(&self) -> (found: Result<&I, String>)
        ensures
            match self@.lookup() {
                Ok(inspector) => found matches Ok(held) && *held == inspector,
                Err(message) => found matches Err(text) && text@ == message,
            },
    {
        match &self.inspector {
            Some(inspector) => Ok(inspector),
            None => Err("Inspector not initialized".to_owned()),
        }
    }
}

impl<I> Default for InspectorService<I> {
    fn default() -> (service: Self)
        ensures
            service@ == ServiceModel::<I>::fresh(),
    {
        Self::new()
    }
}

/// A service that was just made holds no inspector, refuses every query
/// with "Inspector not initialized", and points at redis://127.0.0.1:6379.
pub proof fn lemma_fresh_service_refuses_queries<I>()
    ensures
        ServiceModel::<I>::fresh().lookup() == Err::<I, Seq<char>>(not_initialized_text()),
        ServiceModel::<I>::fresh().redis_url == default_redis_url(),
{
}

/// After a connection that created an inspector, queries go to that
/// inspector and the service reports the URL it connected to.
pub proof fn lemma_read_after_initialize<I>(service: ServiceModel<I>, redis_url: Seq<char>, inspector: I)
    ensures
        service.installed(redis_url, Ok(inspector)).lookup() == Ok::<I, Seq<char>>(inspector),
        service.installed(redis_url, Ok(inspector)).redis_url == redis_url,
{
}

/// A connection attempt that failed changes nothing: the same inspector
/// (or none) answers queries, and the URL stays as it was.
pub proof fn lemma_failed_initialize_keeps_state<I>(
    service: ServiceModel<I>,
    redis_url: Seq<char>,
    detail: Seq<char>,
)
    ensures
        service.installed(redis_url, Err(detail)) == service,
{
}

/// A later successful connection replaces an earlier one entirely.
pub proof fn lemma_latest_connection_wins<I>(
    service: ServiceModel<I>,
    first_url: Seq<char>,
    first: I,
    second_url: Seq<char>,
    second: I,
)
    ensures
        service.installed(first_url, Ok(first)).installed(second_url, Ok(second))
            == service.installed(second_url, Ok(second)),
{
}

/// The service after a series of connection attempts, each given by the URL
/// tried and how it ended, made in order from `service`. Connection attempts
/// (`initialize`) are the only calls that change the service: every other
/// method takes it by shared reference.
pub open spec fn after_attempts<I>(
    service: ServiceModel<I>,
    attempts: Seq<(Seq<char>, Result<I, Seq<char>>)>,
) -> ServiceModel<I>
    decreases attempts.len(),
{
    if attempts.len() == 0 {
        service
    } else {
        after_attempts(service, attempts.drop_last()).installed(
            attempts.last().0,
            attempts.last().1,
        )
    }
}

/// The URL of the last attempt in the series that created an inspector.
pub open spec fn last_accepted_url<I>(attempts: Seq<(Seq<char>, Result<I, Seq<char>>)>) -> Option<
    Seq<char>,
>
    decreases attempts.len(),
{
    if attempts.len() == 0 {
        None
    } else if attempts.last().1 is Ok {
        Some(attempts.last().0)
    } else {
        last_accepted_url(attempts.drop_last())
    }
}

/// Over any series of connection attempts on a new service: an inspector is
/// in place exactly when some attempt created one, and the service points
/// at the URL of the last attempt that did, or at redis://127.0.0.1:6379
/// when none did.
pub proof fn lemma_connection_history<I>(attempts: Seq<(Seq<char>, Result<I, Seq<char>>)>)
    ensures
        after_attempts(ServiceModel::<I>::fresh(), attempts).inspector is Some <==> exists|k: int|
            0 <= k < attempts.len() && (#[trigger] attempts[k]).1 is Ok,
        after_attempts(ServiceModel::<I>::fresh(), attempts).redis_url == match last_accepted_url(
            attempts,
        ) {
            Some(url) => url,
            None => default_redis_url(),
        },
    decreases attempts.len(),
{
    if attempts.len() > 0 {
        let earlier = attempts.drop_last();
        lemma_connection_history(earlier);
        let last = attempts.last();
        if last.1 is Ok {
            assert(attempts[attempts.len() - 1].1 is Ok);
        } else {
            if exists|k: int| 0 <= k < attempts.len() && (#[trigger] attempts[k]).1 is Ok {
                let k = choose|k: int| 0 <= k < attempts.len() && (#[trigger] attempts[k]).1 is Ok;
                assert(k < attempts.len() - 1);
                assert(earlier[k] == attempts[k]);
            }
            if exists|k: int| 0 <= k < earlier.len() && (#[trigger] earlier[k]).1 is Ok {
                let k = choose|k: int| 0 <= k < earlier.len() && (#[trigger] earlier[k]).1 is Ok;
                assert(attempts[k] == earlier[k]);
            }
        }
    }
}

/// Once an inspector is in place it stays in place, whatever connection
/// attempts follow.
pub proof fn lemma_connected_stays_connected<I>(
    service: ServiceModel<I>,
    attempts: Seq<(Seq<char>, Result<I, Seq<char>>)>,
)
    requires
        service.inspector is Some,
    ensures
        after_attempts(service, attempts).inspector is Some,
    decreases attempts.len(),
{
    if attempts.len() > 0 {
        lemma_connected_stays_connected(service, attempts.drop_last());
    }
}

} // verus!
