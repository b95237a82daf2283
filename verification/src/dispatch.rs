//! The logger core: configuration, the submission queue, and the exact
//! delivery work each message gives rise to.
//!
//! The dispatcher is modeled as an explicit state machine. Application
//! threads submit records with [`DefaultLogger::log`], which filters by
//! the global level, formats, and appends the message to the queue — the
//! model of the submission channel. The host's worker consumes messages
//! and obtains, from [`DefaultLogger::process_message`], the ordered
//! [`Action`] list to perform for one message: for each configured target
//! that accepts the severity, the before-hook calls, one write, and the
//! after-hook calls. [`DefaultLogger::abort`] drains the whole queue and
//! stops the worker.
//!
//! The dispatcher performs no input/output itself: the host executes the
//! returned actions, so everything up to the final system call is
//! verified.

use vstd::prelude::*;
use vstd::string::*;

use crate::Record;
use crate::RecordData;
use crate::format::DefaultFormatter;
use crate::format::Formatter;
use crate::format::SpanPosition;
use crate::format::format_spec;
use crate::format::format_with_span_position;
use crate::hooks::HookCall;
use crate::hooks::HookCallData;
use crate::hooks::HookSystem;
use crate::hooks::HookSystemData;
use crate::hooks::calls_spec;
use crate::level::LogLevel;
use crate::target::Console;
use crate::target::Output;
use crate::target::Target;
use crate::target::TargetData;
use crate::target::TargetId;
use crate::target::TargetIdData;
use crate::target::id_spec;
use crate::target::passes_spec;
use crate::target::route_spec;
use crate::util::strip_ansi_codes;
use crate::util::strip_spec;

verus! {

/// One message on the submission channel: a formatted log line with its
/// severity, or the sentinel that tells the worker to drain and exit.
#[derive(Debug)]
pub enum ChannelMessage {
    /// A formatted message awaiting delivery, with its severity.
    Log(String, LogLevel),
    /// The termination sentinel: drain the queue and stop.
    Flush,
}

/// The mathematical content of a [`ChannelMessage`].
pub enum MessageData {
    /// A formatted message awaiting delivery, with its severity.
    Log(Seq<char>, LogLevel),
    /// The termination sentinel.
    Flush,
}

impl View for ChannelMessage {
    type V = MessageData;

    open spec fn view(&self) -> MessageData {
        match self {
            ChannelMessage::Log(text, level) => MessageData::Log(text@, *level),
            ChannelMessage::Flush => MessageData::Flush,
        }
    }
}

impl DeepView for ChannelMessage {
    type V = MessageData;

    open spec fn deep_view(&self) -> MessageData {
        self.view()
    }
}

/// Whether the worker of a dispatcher is still consuming messages.
#[derive(Debug, Clone, Copy, PartialEq, Eq, Structural)]
pub enum WorkerState {
    /// The worker is alive and awaiting messages.
    Running,
    /// The worker has drained the queue and exited; further submissions
    /// are kept on the queue but nobody consumes them.
    Stopped,
}

/// Configuration for initializing a logger.
pub struct Config {
    /// The minimum log level that will be processed.
    pub level: LogLevel,
    /// The targets log messages are delivered to, in delivery order.
    pub targets: Vec<Target>,
    /// Optional formatter; the default formatter is used when absent.
    pub format: Option<DefaultFormatter>,
}

/// The mathematical content of a [`Config`].
pub struct ConfigData {
    /// The minimum log level that will be processed.
    pub level: LogLevel,
    /// The targets, in delivery order.
    pub targets: Seq<TargetData>,
    /// The formatter, when one is configured.
    pub format: Option<DefaultFormatter>,
}

impl View for Config {
    type V = ConfigData;

    open spec fn view(&self) -> ConfigData {
        ConfigData {
            level: self.level,
            targets: self.targets.deep_view(),
            format: self.format,
        }
    }
}

impl Config {
    /// Creates a default configuration with the specified log level: one
    /// console target and the default formatter.
    pub fn default_with_level(level: LogLevel) -> (r: Config)
        ensures
            r@.level == level,
            r@.targets.len() == 1,
            r@.targets[0] == TargetData::Console(Console::new_data()),
            r@.format == Some(DefaultFormatter { position: SpanPosition::End }),
    {
        let r = Config {
            level,
            targets: vec![Target::Console(Console::new())],
            format: Some(DefaultFormatter::new()),
        };
        proof {
            assert(r@.targets =~= seq![TargetData::Console(Console::new_data())]);
        }
        r
    }
}

/// The default configuration processes `Info` and above, with one console
/// target and the default formatter.
impl Default for Config {
    fn default() -> (r: Self)
        ensures
            r@.level == LogLevel::Info,
            r@.targets.len() == 1,
            r@.targets[0] == TargetData::Console(Console::new_data()),
            r@.format == Some(DefaultFormatter { position: SpanPosition::End }),
    {
        Config::default_with_level(LogLevel::Info)
    }
}

/// One write the host must perform on behalf of a target.
#[derive(Debug)]
pub struct WriteOp {
    /// The identity of the target being written.
    pub target: TargetId,
    /// For a console target, the stream the message goes to, routed by
    /// severity; `None` for file and custom targets.
    pub stream: Option<Output>,
    /// The severity of the message.
    pub level: LogLevel,
    /// The text to write: the formatted message, with ANSI escape
    /// sequences stripped for a file target.
    pub text: String,
}

/// The mathematical content of a [`WriteOp`].
pub struct WriteOpData {
    /// The identity of the target being written.
    pub target: TargetIdData,
    /// The routed console stream, when the target is a console.
    pub stream: Option<Output>,
    /// The severity of the message.
    pub level: LogLevel,
    /// The characters to write.
    pub text: Seq<char>,
}

impl View for WriteOp {
    type V = WriteOpData;

    open spec fn view(&self) -> WriteOpData {
        WriteOpData {
            target: self.target@,
            stream: self.stream,
            level: self.level,
            text: self.text@,
        }
    }
}

/// One step of delivery work the host performs for the dispatcher, in
/// the order the actions are handed out.
#[derive(Debug)]
pub enum Action {
    /// Run a before-delivery hook callback.
    Before(HookCall),
    /// Write text to a target.
    Write(WriteOp),
    /// Run an after-delivery hook callback.
    After(HookCall),
}

/// The mathematical content of an [`Action`].
pub enum ActionData {
    /// Run a before-delivery hook callback.
    Before(HookCallData),
    /// Write text to a target.
    Write(WriteOpData),
    /// Run an after-delivery hook callback.
    After(HookCallData),
}

impl View for Action {
    type V = ActionData;

    open spec fn view(&self) -> ActionData {
        match self {
            Action::Before(c) => ActionData::Before(c@),
            Action::Write(w) => ActionData::Write(w@),
            Action::After(c) => ActionData::After(c@),
        }
    }
}

impl DeepView for Action {
    type V = ActionData;

    open spec fn deep_view(&self) -> ActionData {
        self.view()
    }
}

/// The write performed for one target: the formatted text goes to the
/// routed stream of a console, stripped of ANSI escapes to a file, and
/// unchanged to a custom sink.
pub open spec fn write_op_spec(t: TargetData, text: Seq<char>, level: LogLevel) -> WriteOpData {
    match t {
        TargetData::Console(c) => WriteOpData {
            target: id_spec(t),
            stream: Some(route_spec(c, level)),
            level,
            text,
        },
        TargetData::File(_) => WriteOpData {
            target: id_spec(t),
            stream: None,
            level,
            text: strip_spec(text),
        },
        TargetData::Custom(_) => WriteOpData { target: id_spec(t), stream: None, level, text },
    }
}

/// The delivery block of one target for one message: nothing when the
/// message is below the target's own floor; otherwise every before-hook
/// call in registration order, then the write, then every after-hook
/// call in registration order.
pub open spec fn target_actions_spec(
    t: TargetData,
    text: Seq<char>,
    level: LogLevel,
    hooks: HookSystemData,
) -> Seq<ActionData> {
    if passes_spec(t, level) {
        calls_spec(hooks.before, level, id_spec(t)).map_values(|c: HookCallData| ActionData::Before(c))
            + seq![ActionData::Write(write_op_spec(t, text, level))] + calls_spec(
            hooks.after,
            level,
            id_spec(t),
        ).map_values(|c: HookCallData| ActionData::After(c))
    } else {
        Seq::empty()
    }
}

/// The delivery work of one message: the delivery blocks of all targets,
/// in configuration order.
pub open spec fn process_message_spec(
    text: Seq<char>,
    level: LogLevel,
    targets: Seq<TargetData>,
    hooks: HookSystemData,
) -> Seq<ActionData>
    decreases targets.len(),
{
    if targets.len() == 0 {
        Seq::empty()
    } else {
        target_actions_spec(targets[0], text, level, hooks) + process_message_spec(
            text,
            level,
            targets.drop_first(),
            hooks,
        )
    }
}

/// The delivery work of one channel message: a log message is delivered
/// to the targets; the sentinel gives rise to none.
pub open spec fn message_actions_spec(
    m: MessageData,
    targets: Seq<TargetData>,
    hooks: HookSystemData,
) -> Seq<ActionData> {
    match m {
        MessageData::Log(text, level) => process_message_spec(text, level, targets, hooks),
        MessageData::Flush => Seq::empty(),
    }
}

/// The delivery work of a whole queue of messages, in queue order.
pub open spec fn process_queue_spec(
    queue: Seq<MessageData>,
    targets: Seq<TargetData>,
    hooks: HookSystemData,
) -> Seq<ActionData>
    decreases queue.len(),
{
    if queue.len() == 0 {
        Seq::empty()
    } else {
        message_actions_spec(queue[0], targets, hooks) + process_queue_spec(
            queue.drop_first(),
            targets,
            hooks,
        )
    }
}

/// Whether a message of level `level` passes the global floor.
pub open spec fn enabled_spec(config: ConfigData, level: LogLevel) -> bool {
    config.level.as_int() <= level.as_int()
}

/// The text the configured formatter produces for a record: the default
/// formatter's rendering at its configured span position, or at the
/// default position when no formatter is configured.
pub open spec fn config_format_spec(config: ConfigData, r: RecordData) -> Seq<char> {
    match config.format {
        Some(f) => format_spec(r, f.position),
        None => format_spec(r, SpanPosition::End),
    }
}

/// The mathematical content of a [`DefaultLogger`].
pub struct LoggerData {
    /// The configuration the dispatcher was initialized with.
    pub config: ConfigData,
    /// The messages submitted and not yet consumed, in submission order.
    pub queue: Seq<MessageData>,
    /// Whether the worker is still consuming messages.
    pub state: WorkerState,
}

/// What submitting already-formatted text does to the dispatcher:
/// nothing when its level is below the global floor; otherwise the
/// message is appended to the queue.
pub open spec fn submit_spec(l: LoggerData, text: Seq<char>, level: LogLevel) -> LoggerData {
    if enabled_spec(l.config, level) {
        LoggerData { queue: l.queue.push(MessageData::Log(text, level)), ..l }
    } else {
        l
    }
}

/// What submitting a record does to the dispatcher: nothing when the
/// record's level is below the global floor; otherwise the formatted
/// message is appended to the queue.
pub open spec fn log_spec(l: LoggerData, r: RecordData) -> LoggerData {
    submit_spec(l, config_format_spec(l.config, r), r.level)
}

/// What a shutdown leaves behind: an empty queue and a stopped worker,
/// with the configuration untouched.
pub open spec fn abort_state_spec(l: LoggerData) -> LoggerData {
    LoggerData { queue: Seq::empty(), state: WorkerState::Stopped, ..l }
}

/// The delivery work a shutdown performs: every queued message, in order.
pub open spec fn abort_actions_spec(l: LoggerData, hooks: HookSystemData) -> Seq<ActionData> {
    process_queue_spec(l.queue, l.config.targets, hooks)
}

/// The dispatcher: the single logger instance behind the process-wide
/// registry.
///
/// It owns the configuration and the submission queue — the model of the
/// channel between producer threads and the consuming worker. Its
/// methods return the host's delivery work as [`Action`] values rather
/// than performing any input/output.
pub struct DefaultLogger {
    config: Config,
    queue: Vec<ChannelMessage>,
    state: WorkerState,
}

impl View for DefaultLogger {
    type V = LoggerData;

    closed spec fn view(&self) -> LoggerData {
        LoggerData { config: self.config@, queue: self.queue.deep_view(), state: self.state }
    }
}

impl DefaultLogger {
    /// Creates a dispatcher from the given configuration, with an empty
    /// queue and a running worker. The host spawns the worker thread and
    /// drives it with the queue's messages.
    pub fn new(config: Config) -> (r: DefaultLogger)
        ensures
            r@.config == config@,
            r@.queue == Seq::<MessageData>::empty(),
            r@.state == WorkerState::Running,
    {
        let r = DefaultLogger { config, queue: Vec::new(), state: WorkerState::Running };
        proof {
            assert(r@.queue =~= Seq::<MessageData>::empty());
        }
        r
    }

    /// The configured targets, in delivery order; the host's worker hands
    /// them to `process_message`.
    pub fn targets(&self) -> (r: &Vec<Target>)
        ensures
            r.deep_view() == self@.config.targets,
    {
        &self.config.targets
    }

    /// Whether a message with the given log level would be processed:
    /// a pure comparison against the global level, usable by call sites
    /// to avoid formatting cost when disabled.
    pub fn enabled(&self, level: LogLevel) -> (r: bool)
        ensures
            r == enabled_spec(self@.config, level),
    {
        self.config.level.le(level)
    }

    /// Submits a record: dropped silently when its level is below the
    /// global floor, otherwise formatted and appended to the queue. The
    /// call never blocks on input/output, and succeeds also after the
    /// worker stopped (the message then simply stays unconsumed).
    pub fn log(&mut self, record: &Record)
        ensures
            final(self)@ == log_spec(old(self)@, record@),
    {
        if !self.enabled(record.level) {
            return;
        }
        let formatted = match &self.config.format {
            Some(f) => f.format(record),
            None => format_with_span_position(record, SpanPosition::End),
        };
        self.log_formatted(formatted, record.level);
    }

    /// Submits text a host-side formatter already rendered: the seam for
    /// custom formatters the library cannot run itself. The text is
    /// queued under the same global filter and with the same ordering and
    /// drain guarantees as a record submitted through `log`.
    pub fn log_formatted(&mut self, formatted: String, level: LogLevel)
        ensures
            final(self)@ == submit_spec(old(self)@, formatted@, level),
    {
        if !self.enabled(level) {
            return;
        }
        let ghost prev = self@.queue;
        let ghost text = formatted@;
        self.queue.push(ChannelMessage::Log(formatted, level));
        proof {
            assert(self@.queue =~= prev.push(MessageData::Log(text, level)));
        }
    }

    /// The delivery work of one log message: for each configured target,
    /// in configuration order, whose floor accepts the severity, the
    /// before-hook calls, one write, and the after-hook calls. The
    /// host's worker performs the returned actions; a failed write is
    /// reported by the host and does not keep later targets from being
    /// written.
    pub fn process_message(
        formatted: &str,
        level: LogLevel,
        targets: &Vec<Target>,
        hooks: &HookSystem,
    ) -> (r: Vec<Action>)
        ensures
            r.deep_view() == process_message_spec(formatted@, level, targets.deep_view(), hooks@),
    {
        let ghost tgt = targets.deep_view();
        let mut actions: Vec<Action> = Vec::new();
        let n = targets.len();
        let mut i: usize = 0;
        proof {
            assert(tgt.take(0) =~= Seq::<TargetData>::empty());
            assert(actions.deep_view() =~= process_message_spec(
                formatted@,
                level,
                tgt.take(0),
                hooks@,
            ));
        }
        while i < n
            invariant
                i <= n,
                n == targets@.len(),
                tgt == targets.deep_view(),
                actions.deep_view() == process_message_spec(
                    formatted@,
                    level,
                    tgt.take(i as int),
                    hooks@,
                ),
            decreases n - i,
        {
            let ghost prev = actions.deep_view();
            let t = &targets[i];
            proof {
                assert(t@ == tgt[i as int]);
            }
            if t.passes(level) {
                let target_id = t.id();
                let before = hooks.trigger_before_log(level, &target_id);
                push_hook_actions(&mut actions, &before, true);
                let stream = match t {
                    Target::Console(c) => Some(c.route(level)),
                    _ => None,
                };
                let text = match t {
                    Target::File(_) => strip_ansi_codes(formatted),
                    _ => String::from_str(formatted),
                };
                let ghost mid = actions.deep_view();
                actions.push(
                    Action::Write(WriteOp { target: target_id.clone(), stream, level, text }),
                );
                proof {
                    assert(actions.deep_view() =~= mid.push(
                        ActionData::Write(write_op_spec(t@, formatted@, level)),
                    ));
                }
                let after = hooks.trigger_after_log(level, &target_id);
                push_hook_actions(&mut actions, &after, false);
                proof {
                    assert(actions.deep_view() =~= prev + target_actions_spec(
                        tgt[i as int],
                        formatted@,
                        level,
                        hooks@,
                    ));
                }
            } else {
                proof {
                    assert(actions.deep_view() =~= prev + target_actions_spec(
                        tgt[i as int],
                        formatted@,
                        level,
                        hooks@,
                    ));
                }
            }
            proof {
                lemma_process_message_snoc(formatted@, level, tgt, hooks@, i as int);
            }
            i += 1;
        }
        proof {
            assert(tgt.take(n as int) =~= tgt);
        }
        actions
    }

    /// Consumes the next queued message, handing back its delivery work:
    /// the worker's receive step. A log message yields its actions; the
    /// termination sentinel yields none and stops the worker; an empty
    /// queue means there is nothing to consume yet.
    pub fn process_next(&mut self, hooks: &HookSystem) -> (r: Option<Vec<Action>>)
        ensures
            old(self)@.queue.len() == 0 ==> final(self)@ == old(self)@ && r is None,
            old(self)@.queue.len() > 0 ==> final(self)@.config == old(self)@.config
                && final(self)@.queue == old(self)@.queue.drop_first()
                && (match old(self)@.queue[0] {
                MessageData::Log(text, level) => final(self)@.state == old(self)@.state && (
                r matches Some(acts) && acts.deep_view() == process_message_spec(
                    text,
                    level,
                    old(self)@.config.targets,
                    hooks@,
                )),
                MessageData::Flush => final(self)@.state == WorkerState::Stopped && (
                r matches Some(acts) && acts.deep_view() == Seq::<ActionData>::empty()),
            }),
    {
        if self.queue.len() == 0 {
            return None;
        }
        let msg = self.queue.remove(0);
        proof {
            assert(self@.queue =~= old(self)@.queue.drop_first());
            assert(msg@ == old(self)@.queue[0]);
        }
        match msg {
            ChannelMessage::Log(text, level) => {
                let acts = Self::process_message(text.as_str(), level, &self.config.targets, hooks);
                Some(acts)
            },
            ChannelMessage::Flush => {
                self.state = WorkerState::Stopped;
                let acts: Vec<Action> = Vec::new();
                proof {
                    assert(acts.deep_view() =~= Seq::<ActionData>::empty());
                }
                Some(acts)
            },
        }
    }

    /// Shuts the dispatcher down: every message still on the queue is
    /// processed, in submission order, before the worker stops — no
    /// buffered message is lost. The returned actions are the drain's
    /// delivery work. Calling this again later finds an empty queue, does
    /// nothing, and returns no work: a second shutdown is harmless.
    pub fn abort(&mut self, hooks: &HookSystem) -> (r: Vec<Action>)
        ensures
            final(self)@ == abort_state_spec(old(self)@),
            r.deep_view() == abort_actions_spec(old(self)@, hooks@),
    {
        let ghost q = old(self)@.queue;
        let ghost tgt = old(self)@.config.targets;
        let mut actions: Vec<Action> = Vec::new();
        let n = self.queue.len();
        let mut i: usize = 0;
        proof {
            assert(q.take(0) =~= Seq::<MessageData>::empty());
            assert(actions.deep_view() =~= process_queue_spec(q.take(0), tgt, hooks@));
        }
        while i < n
            invariant
                i <= n,
                self@ == old(self)@,
                n == old(self)@.queue.len(),
                q == old(self)@.queue,
                tgt == old(self)@.config.targets,
                actions.deep_view() == process_queue_spec(q.take(i as int), tgt, hooks@),
            decreases n - i,
        {
            let ghost prev = actions.deep_view();
            match &self.queue[i] {
                ChannelMessage::Log(text, level) => {
                    let mut acts = Self::process_message(
                        text.as_str(),
                        *level,
                        &self.config.targets,
                        hooks,
                    );
                    let ghost acts_dv = acts.deep_view();
                    actions.append(&mut acts);
                    proof {
                        assert(self.queue@[i as int]@ == q[i as int]);
                        assert(actions.deep_view() =~= prev + acts_dv);
                    }
                },
                ChannelMessage::Flush => {
                    proof {
                        assert(self.queue@[i as int]@ == q[i as int]);
                        assert(actions.deep_view() =~= prev + message_actions_spec(
                            q[i as int],
                            tgt,
                            hooks@,
                        ));
                    }
                },
            }
            proof {
                lemma_process_queue_snoc(q, tgt, hooks@, i as int);
            }
            i += 1;
        }
        self.queue.clear();
        self.state = WorkerState::Stopped;
        proof {
            assert(q.take(n as int) =~= q);
            assert(self@.queue =~= Seq::<MessageData>::empty());
        }
        actions
    }
}

/// A default dispatcher runs the default configuration: `Info` and
/// above, one console target, the default formatter.
impl Default for DefaultLogger {
    fn default() -> (r: Self)
        ensures
            r@.config.level == LogLevel::Info,
            r@.config.targets.len() == 1,
            r@.config.targets[0] == TargetData::Console(Console::new_data()),
            r@.config.format == Some(DefaultFormatter { position: SpanPosition::End }),
            r@.queue == Seq::<MessageData>::empty(),
            r@.state == WorkerState::Running,
    {
        DefaultLogger::new(Config::default())
    }
}

/// Appends one action per hook call, in order, keeping the calls' order.
fn push_hook_actions(actions: &mut Vec<Action>, calls: &Vec<HookCall>, before: bool)
    ensures
        before ==> final(actions).deep_view() == old(actions).deep_view()
            + calls.deep_view().map_values(|c: HookCallData| ActionData::Before(c)),
        !before ==> final(actions).deep_view() == old(actions).deep_view()
            + calls.deep_view().map_values(|c: HookCallData| ActionData::After(c)),
{
    let ghost cdv = calls.deep_view();
    let ghost mapped: Seq<ActionData> = if before {
        cdv.map_values(|c: HookCallData| ActionData::Before(c))
    } else {
        cdv.map_values(|c: HookCallData| ActionData::After(c))
    };
    let n = calls.len();
    let mut k: usize = 0;
    proof {
        assert(mapped.take(0) =~= Seq::<ActionData>::empty());
        assert(actions.deep_view() =~= old(actions).deep_view() + mapped.take(0));
    }
    while k < n
        invariant
            k <= n,
            n == calls@.len(),
            cdv == calls.deep_view(),
            mapped == if before {
                cdv.map_values(|c: HookCallData| ActionData::Before(c))
            } else {
                cdv.map_values(|c: HookCallData| ActionData::After(c))
            },
            actions.deep_view() == old(actions).deep_view() + mapped.take(k as int),
        decreases n - k,
    {
        let ghost prev = actions.deep_view();
        let call = calls[k].clone();
        if before {
            actions.push(Action::Before(call));
        } else {
            actions.push(Action::After(call));
        }
        proof {
            assert(calls@[k as int]@ == cdv[k as int]);
            assert(actions.deep_view() =~= prev.push(mapped[k as int]));
            assert(mapped.take(k + 1) =~= mapped.take(k as int).push(mapped[k as int]));
            assert(actions.deep_view() =~= old(actions).deep_view() + mapped.take(k + 1));
        }
        k += 1;
    }
    proof {
        assert(mapped.take(n as int) =~= mapped);
    }
}

/// Processing one more target appends exactly that target's delivery
/// block.
pub proof fn lemma_process_message_snoc(
    text: Seq<char>,
    level: LogLevel,
    targets: Seq<TargetData>,
    hooks: HookSystemData,
    i: int,
)
    requires
        0 <= i < targets.len(),
    ensures
        process_message_spec(text, level, targets.take(i + 1), hooks) == process_message_spec(
            text,
            level,
            targets.take(i),
            hooks,
        ) + target_actions_spec(targets[i], text, level, hooks),
    decreases i,
{
    if i == 0 {
        assert(targets.take(1) =~= seq![targets[0]]);
        assert(targets.take(1).drop_first() =~= Seq::<TargetData>::empty());
        assert(targets.take(0) =~= Seq::<TargetData>::empty());
        assert(process_message_spec(text, level, targets.take(1), hooks) =~= process_message_spec(
            text,
            level,
            targets.take(0),
            hooks,
        ) + target_actions_spec(targets[0], text, level, hooks));
    } else {
        lemma_process_message_snoc(text, level, targets.drop_first(), hooks, i - 1);
        assert(targets.take(i + 1).drop_first() =~= targets.drop_first().take(i));
        assert(targets.take(i).drop_first() =~= targets.drop_first().take(i - 1));
        assert(targets.take(i + 1)[0] == targets[0]);
        assert(targets.take(i)[0] == targets[0]);
        assert(targets.drop_first()[i - 1] == targets[i]);
        assert(process_message_spec(text, level, targets.take(i + 1), hooks)
            =~= process_message_spec(text, level, targets.take(i), hooks) + target_actions_spec(
            targets[i],
            text,
            level,
            hooks,
        ));
    }
}

/// Processing one more queued message appends exactly that message's
/// delivery work.
pub proof fn lemma_process_queue_snoc(
    queue: Seq<MessageData>,
    targets: Seq<TargetData>,
    hooks: HookSystemData,
    i: int,
)
    requires
        0 <= i < queue.len(),
    ensures
        process_queue_spec(queue.take(i + 1), targets, hooks) == process_queue_spec(
            queue.take(i),
            targets,
            hooks,
        ) + message_actions_spec(queue[i], targets, hooks),
    decreases i,
{
    if i == 0 {
        assert(queue.take(1) =~= seq![queue[0]]);
        assert(queue.take(1).drop_first() =~= Seq::<MessageData>::empty());
        assert(queue.take(0) =~= Seq::<MessageData>::empty());
        assert(process_queue_spec(queue.take(1), targets, hooks) =~= process_queue_spec(
            queue.take(0),
            targets,
            hooks,
        ) + message_actions_spec(queue[0], targets, hooks));
    } else {
        lemma_process_queue_snoc(queue.drop_first(), targets, hooks, i - 1);
        assert(queue.take(i + 1).drop_first() =~= queue.drop_first().take(i));
        assert(queue.take(i).drop_first() =~= queue.drop_first().take(i - 1));
        assert(queue.take(i + 1)[0] == queue[0]);
        assert(queue.take(i)[0] == queue[0]);
        assert(queue.drop_first()[i - 1] == queue[i]);
        assert(process_queue_spec(queue.take(i + 1), targets, hooks) =~= process_queue_spec(
            queue.take(i),
            targets,
            hooks,
        ) + message_actions_spec(queue[i], targets, hooks));
    }
}

} // verus!
