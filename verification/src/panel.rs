use vstd::prelude::*;

use crate::decimal::{decimal, decimal_text};

verus! {

/// A worker server as the control panel shows it.
#[derive(Clone, PartialEq)]
pub struct ServerInfo {
    pub server_id: String,
    pub host: String,
    pub pid: i32,
    pub concurrency: i32,
    pub status: String,
    pub active_worker_count: i32,
    pub strict_priority: bool,
}

/// The statistics of a queue as its card shows them.
#[derive(Clone)]
pub struct QueueSummary {
    pub queue: String,
    pub paused: bool,
    pub pending: i32,
    pub active: i32,
    pub scheduled: i32,
}

/// The two screens of the control panel.
#[derive(Clone, Copy, Debug, PartialEq, Eq, Structural)]
pub enum Screen {
    ConnectionDialog,
    Dashboard,
}

/// What the control panel holds: the URL typed into the connection dialog,
/// whether it is connected, the error to show, and the queue names, queue
/// statistics and servers on display.
pub struct PanelModel {
    pub redis_url: Seq<char>,
    pub connected: bool,
    pub error_message: Seq<char>,
    pub queues: Seq<Seq<char>>,
    pub queue_stats: Seq<QueueSummary>,
    pub servers: Seq<ServerInfo>,
}

impl PanelModel {
    /// The panel when it opens: the default URL, not connected, no error,
    /// nothing on display.
    pub open spec fn opening() -> Self {
        PanelModel {
            redis_url: "redis://127.0.0.1:6379"@,
            connected: false,
            error_message: Seq::empty(),
            queues: Seq::empty(),
            queue_stats: Seq::empty(),
            servers: Seq::empty(),
        }
    }

    /// The screen shown: the dashboard once connected, the connection
    /// dialog before.
    pub open spec fn screen(self) -> Screen {
        if self.connected {
            Screen::Dashboard
        } else {
            Screen::ConnectionDialog
        }
    }

    /// The panel after one event.
    pub open spec fn step(self, event: PanelEvent) -> Self {
        match event {
            PanelEvent::EditUrl(url) => PanelModel { redis_url: url, ..self },
            PanelEvent::Connected => PanelModel { connected: true, ..self },
            PanelEvent::ConnectionFailed(message) => PanelModel { error_message: message, ..self },
            PanelEvent::QueuesLoaded(queues) => PanelModel { queues, ..self },
            PanelEvent::QueueStatsLoaded(queue_stats) => PanelModel { queue_stats, ..self },
            PanelEvent::ServersLoaded(servers) => PanelModel { servers, ..self },
        }
    }
}

/// What happens to the control panel: the URL field is edited, a connection
/// is made or fails with a message, queue names, queue statistics or
/// servers are loaded.
pub enum PanelEvent {
    EditUrl(Seq<char>),
    Connected,
    ConnectionFailed(Seq<char>),
    QueuesLoaded(Seq<Seq<char>>),
    QueueStatsLoaded(Seq<QueueSummary>),
    ServersLoaded(Seq<ServerInfo>),
}

/// The panel after a series of events, in order.
pub open spec fn after_events(panel: PanelModel, events: Seq<PanelEvent>) -> PanelModel
    decreases events.len(),
{
    if events.len() == 0 {
        panel
    } else {
        after_events(panel, events.drop_last()).step(events.last())
    }
}

/// The state of the control panel's page.
pub struct ControlPanel {
    redis_url: String,
    connected: bool,
    error_message: String,
    queues: Vec<String>,
    queue_stats: Vec<QueueSummary>,
    servers: Vec<ServerInfo>,
}

impl View for ControlPanel {
    type V = PanelModel;

    closed spec fn view(&self) -> PanelModel {
        PanelModel {
            redis_url: self.redis_url@,
            connected: self.connected,
            error_message: self.error_message@,
            queues: self.queues@.map_values(|q: String| q@),
            queue_stats: self.queue_stats@,
            servers: self.servers@,
        }
    }
}

impl ControlPanel {
    /// The panel when the page opens.
    pub fn new() -> (panel: Self)
        ensures
            panel@ == PanelModel::opening(),
    {
        let panel = ControlPanel {
            redis_url: "redis://127.0.0.1:6379".to_owned(),
            connected: false,
            error_message: String::new(),
            queues: Vec::new(),
            queue_stats: Vec::new(),
            servers: Vec::new(),
        };
        assert(panel@.queues =~= Seq::<Seq<char>>::empty());
        panel
    }

    /// The URL field of the connection dialog was edited to `redis_url`.
    pub fn edit_redis_url(&mut self, redis_url: String)
        ensures
            final(self)@ == old(self)@.step(PanelEvent::EditUrl(redis_url@)),
    {
        self.redis_url = redis_url;
    }

    /// The connection dialog reported a connection.
    pub fn connected(&mut self)
        ensures
            final(self)@ == old(self)@.step(PanelEvent::Connected),
    {
        self.connected = true;
    }

    /// The connection dialog's attempt ended: a connection switches to the
    /// dashboard, a failure puts its message in the dialog.
    pub fn connection_result(&mut self, outcome: Result<(), String>)
        ensures
            final(self)@ == old(self)@.step(
                match outcome {
                    Ok(_) => PanelEvent::Connected,
                    Err(message) => PanelEvent::ConnectionFailed(message@),
                },
            ),
    {
        match outcome {
            Ok(_) => {
                self.connected = true;
            },
            Err(message) => {
                self.error_message = message;
            },
        }
    }

    /// The queue names were loaded for the dashboard.
    pub fn show_queues(&mut self, queues: Vec<String>)
        ensures
            final(self)@ == old(self)@.step(
                PanelEvent::QueuesLoaded(queues@.map_values(|q: String| q@)),
            ),
            final(self)@.queues == queues@.map_values(|q: String| q@),
    {
        self.queues = queues;
    }

    /// The statistics of the queues were loaded for the dashboard.
    pub fn show_queue_stats(&mut self, queue_stats: Vec<QueueSummary>)
        ensures
            final(self)@ == old(self)@.step(PanelEvent::QueueStatsLoaded(queue_stats@)),
            final(self)@.queue_stats == queue_stats@,
    {
        self.queue_stats = queue_stats;
    }

    /// The servers were loaded for the dashboard.
    pub fn show_servers(&mut self, servers: Vec<ServerInfo>)
        ensures
            final(self)@ == old(self)@.step(PanelEvent::ServersLoaded(servers@)),
            final(self)@.servers == servers@,
    {
        self.servers = servers;
    }

    /// The error message of the connection dialog.
    pub fn error_message(&self) -> (message: &String)
        ensures
            message@ == self@.error_message,
    {
        &self.error_message
    }

    /// The URL in the connection dialog.
    pub fn redis_url(&self) -> (redis_url: &String)
        ensures
            redis_url@ == self@.redis_url,
    {
        &self.redis_url
    }

    /// The screen to show.
    pub fn screen(&self) -> (screen: Screen)
        ensures
            screen == self@.screen(),
    {
        if self.connected {
            Screen::Dashboard
        } else {
            Screen::ConnectionDialog
        }
    }

    /// Whether the connection dialog shows an error: exactly when there is
    /// an error message that is not empty.
    pub fn shows_error(&self) -> (shown: bool)
        ensures
            shown == (self@.error_message.len() > 0),
    {
        !self.error_message.as_str().is_empty()
    }

    /// The queues handed to the dashboard.
    pub fn queues(&self) -> (queues: &Vec<String>)
        ensures
            queues@.map_values(|q: String| q@) == self@.queues,
    {
        &self.queues
    }

    /// The queue statistics handed to the dashboard's cards.
    pub fn queue_stats(&self) -> (queue_stats: &Vec<QueueSummary>)
        ensures
            queue_stats@ == self@.queue_stats,
    {
        &self.queue_stats
    }

    /// The servers handed to the dashboard.
    pub fn servers(&self) -> (servers: &Vec<ServerInfo>)
        ensures
            servers@ == self@.servers,
    {
        &self.servers
    }
}

/// The note the dashboard shows in place of server cards: "No servers
/// found" when there are none, nothing otherwise.
pub fn servers_note(servers: &Vec<ServerInfo>) -> (note: Option<&'static str>)
    ensures
        servers@.len() == 0 ==> (note matches Some(text) && text@ == "No servers found"@),
        servers@.len() > 0 ==> note is None,
{
    if servers.len() == 0 {
        Some("No servers found")
    } else {
        None
    }
}

/// The note the dashboard shows in place of queue cards: "No queues found"
/// when there are none, nothing otherwise.
pub fn queues_note(queues: &Vec<String>) -> (note: Option<&'static str>)
    ensures
        queues@.len() == 0 ==> (note matches Some(text) && text@ == "No queues found"@),
        queues@.len() > 0 ==> note is None,
{
    if queues.len() == 0 {
        Some("No queues found")
    } else {
        None
    }
}

/// The line under a server card's title: the host, a colon, the process id.
pub open spec fn server_address(server: ServerInfo) -> Seq<char> {
    server.host@ + ":"@ + decimal(server.pid as int)
}

/// Writes the line under a server card's title.
pub fn server_subtitle(server: &ServerInfo) -> (subtitle: String)
    ensures
        subtitle@ == server_address(*server),
{
    let pid = decimal_text(server.pid);
    let mut subtitle: String = server.host.clone();
    subtitle.append(":");
    subtitle.append(pid.as_str());
    subtitle
}

/// How a server card states whether the server runs queues in strict
/// priority: "✓ Yes" or "✗ No".
pub fn strict_priority_label(strict: bool) -> (label: &'static str)
    ensures
        strict ==> label@ == "✓ Yes"@,
        !strict ==> label@ == "✗ No"@,
{
    if strict {
        "✓ Yes"
    } else {
        "✗ No"
    }
}

/// A panel that opens shows the connection dialog, with the default URL and
/// no error; once told it is connected it shows the dashboard, whatever URL
/// was typed before.
pub proof fn lemma_panel_opens_on_dialog(url: Seq<char>)
    ensures
        PanelModel::opening().screen() == Screen::ConnectionDialog,
        PanelModel::opening().error_message.len() == 0,
        (PanelModel { connected: true, ..(PanelModel { redis_url: url, ..PanelModel::opening() }) }).screen()
            == Screen::Dashboard,
{
}

/// Once connected, the panel shows the dashboard for good: no event leads
/// back to the connection dialog.
pub proof fn lemma_connected_panel_stays_on_dashboard(panel: PanelModel, events: Seq<PanelEvent>)
    requires
        panel.connected,
    ensures
        after_events(panel, events).connected,
        after_events(panel, events).screen() == Screen::Dashboard,
    decreases events.len(),
{
    if events.len() > 0 {
        lemma_connected_panel_stays_on_dashboard(panel, events.drop_last());
    }
}

/// From the moment it opens, the panel shows the dashboard exactly when a
/// connection was made at some point; a failed connection only sets the
/// message that the dialog shows.
pub proof fn lemma_panel_history(events: Seq<PanelEvent>)
    ensures
        after_events(PanelModel::opening(), events).screen() == Screen::Dashboard <==> exists|k: int|
            0 <= k < events.len() && (#[trigger] events[k]) is Connected,
    decreases events.len(),
{
    if events.len() > 0 {
        let earlier = events.drop_last();
        lemma_panel_history(earlier);
        if events.last() is Connected {
            assert(events[events.len() - 1] is Connected);
        } else {
            if exists|k: int| 0 <= k < events.len() && (#[trigger] events[k]) is Connected {
                let k = choose|k: int| 0 <= k < events.len() && (#[trigger] events[k]) is Connected;
                assert(k < events.len() - 1);
                assert(earlier[k] == events[k]);
            }
            if exists|k: int| 0 <= k < earlier.len() && (#[trigger] earlier[k]) is Connected {
                let k = choose|k: int| 0 <= k < earlier.len() && (#[trigger] earlier[k]) is Connected;
                assert(events[k] == earlier[k]);
            }
        }
    }
}

/// The control a queue card offers: pausing an active queue, resuming a
/// paused one.
#[derive(Clone, Copy, Debug, PartialEq, Eq, Structural)]
pub enum QueueControl {
    Pause,
    Resume,
}

/// The control a queue card offers for a queue that is paused or not.
pub fn queue_control(paused: bool) -> (control: QueueControl)
    ensures
        paused ==> control == QueueControl::Resume,
        !paused ==> control == QueueControl::Pause,
{
    if paused {
        QueueControl::Resume
    } else {
        QueueControl::Pause
    }
}

impl QueueControl {
    /// The text of the control's button: "⏸️ Pause" or "▶️ Resume".
    pub fn label(&self) -> (label: &'static str)
        ensures
            *self == QueueControl::Pause ==> label@ == "⏸️ Pause"@,
            *self == QueueControl::Resume ==> label@ == "▶️ Resume"@,
    {
        match self {
            QueueControl::Pause => "⏸️ Pause",
            QueueControl::Resume => "▶️ Resume",
        }
    }
}

/// How a queue card states whether the queue is paused: "Paused" or
/// "Active".
pub fn queue_status_label(paused: bool) -> (label: &'static str)
    ensures
        paused ==> label@ == "Paused"@,
        !paused ==> label@ == "Active"@,
{
    if paused {
        "Paused"
    } else {
        "Active"
    }
}

/// What a queue card shows.
pub struct QueueCard {
    pub title: String,
    pub status: &'static str,
    pub pending: String,
    pub active: String,
    pub scheduled: String,
    pub control: QueueControl,
}

/// Fills a queue card: the title "📋 " and the queue's name, its status,
/// its pending, active and scheduled counts in decimal, and the control
/// that pauses an active queue or resumes a paused one.
pub fn queue_card(summary: &QueueSummary) -> (card: QueueCard)
    ensures
        card.title@ == "📋 "@ + summary.queue@,
        card.status@ == (if summary.paused { "Paused"@ } else { "Active"@ }),
        card.pending@ == decimal(summary.pending as int),
        card.active@ == decimal(summary.active as int),
        card.scheduled@ == decimal(summary.scheduled as int),
        card.control == (if summary.paused { QueueControl::Resume } else { QueueControl::Pause }),
{
    let mut title: String = "📋 ".to_owned();
    title.append(summary.queue.as_str());
    QueueCard {
        title,
        status: queue_status_label(summary.paused),
        pending: decimal_text(summary.pending),
        active: decimal_text(summary.active),
        scheduled: decimal_text(summary.scheduled),
        control: queue_control(summary.paused),
    }
}

/// What a server card shows.
pub struct ServerCard {
    pub title: String,
    pub subtitle: String,
    pub status: String,
    pub concurrency: String,
    pub active_workers: String,
    pub strict_priority: &'static str,
}

/// Fills a server card: the title "🖥️ " and the server's id, the host and
/// process id, its status, its concurrency and active worker count in
/// decimal, and whether it runs queues in strict priority.
pub fn server_card(server: &ServerInfo) -> (card: ServerCard)
    ensures
        card.title@ == "🖥️ "@ + server.server_id@,
        card.subtitle@ == server_address(*server),
        card.status@ == server.status@,
        card.concurrency@ == decimal(server.concurrency as int),
        card.active_workers@ == decimal(server.active_worker_count as int),
        card.strict_priority@ == (if server.strict_priority { "✓ Yes"@ } else { "✗ No"@ }),
{
    let mut title: String = "🖥️ ".to_owned();
    title.append(server.server_id.as_str());
    ServerCard {
        title,
        subtitle: server_subtitle(server),
        status: server.status.clone(),
        concurrency: decimal_text(server.concurrency),
        active_workers: decimal_text(server.active_worker_count),
        strict_priority: strict_priority_label(server.strict_priority),
    }
}

/// A failed connection shows its message in the dialog, which stays on
/// screen.
pub proof fn lemma_failure_is_shown(panel: PanelModel, message: Seq<char>)
    requires
        !panel.connected,
    ensures
        panel.step(PanelEvent::ConnectionFailed(message)).error_message == message,
        panel.step(PanelEvent::ConnectionFailed(message)).screen() == Screen::ConnectionDialog,
{
}

/// Loading shows exactly what was loaded, whatever was on display before:
/// loading replaces, so loading the same lists again changes nothing, and
/// every other part of the panel stays as it was.
pub proof fn lemma_loading_replaces(
    panel: PanelModel,
    queues: Seq<Seq<char>>,
    queue_stats: Seq<QueueSummary>,
    servers: Seq<ServerInfo>,
)
    ensures
        panel.step(PanelEvent::QueuesLoaded(queues)).queues == queues,
        panel.step(PanelEvent::QueueStatsLoaded(queue_stats)).queue_stats == queue_stats,
        panel.step(PanelEvent::ServersLoaded(servers)).servers == servers,
        panel.step(PanelEvent::ServersLoaded(servers)).step(PanelEvent::ServersLoaded(servers))
            == panel.step(PanelEvent::ServersLoaded(servers)),
        panel.step(PanelEvent::QueueStatsLoaded(queue_stats)).step(
            PanelEvent::QueueStatsLoaded(queue_stats),
        ) == panel.step(PanelEvent::QueueStatsLoaded(queue_stats)),
        panel.step(PanelEvent::ServersLoaded(servers)).servers.len() == servers.len(),
        panel.step(PanelEvent::QueueStatsLoaded(queue_stats)).queue_stats.len() == queue_stats.len(),
        panel.step(PanelEvent::ServersLoaded(servers)).queue_stats == panel.queue_stats,
        panel.step(PanelEvent::QueueStatsLoaded(queue_stats)).servers == panel.servers,
{
}

} // verus!
