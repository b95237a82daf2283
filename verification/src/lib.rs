//! A structured logging facade: severity-filtered records are formatted and
//! delivered, in submission order, to a configurable set of output sinks.
//!
//! The crate is organised around a small, fully specified dispatch pipeline:
//!
//! * [`LogLevel`] is the ordered severity scale used for filtering.
//! * [`Record`] is an immutable snapshot of one log event.
//! * [`DefaultFormatter`] renders a record as `[LEVEL] message`, with the
//!   level colored and span context placed according to a [`SpanPosition`].
//! * [`Target`] describes an output sink (console, file, or a host-defined
//!   sink), each with an optional per-sink severity floor.
//! * [`HookSystem`] holds ordered before/after callbacks observed around
//!   every delivery.
//! * [`DefaultLogger`] is the dispatcher: it owns the configuration and a
//!   queue modeling the submission channel, and turns each accepted record
//!   into the exact sequence of [`Action`]s the host must perform.
//! * [`Registry`] is the set-at-most-once holder of the global dispatcher.
//!
//! The dispatcher never performs input/output itself: every write, console
//! print and hook callback is returned as an [`Action`] value, so the whole
//! filter/format/deliver pipeline is verified, and the host merely executes
//! the returned actions (possibly on a dedicated worker thread).

use vstd::prelude::*;

mod dispatch;
mod error;
mod format;
mod hooks;
pub mod laws;
mod level;
mod registry;
mod span;
mod strings;
mod target;
mod util;

pub use dispatch::Action;
pub use dispatch::ActionData;
pub use dispatch::ChannelMessage;
pub use dispatch::Config;
pub use dispatch::ConfigData;
pub use dispatch::DefaultLogger;
pub use dispatch::LoggerData;
pub use dispatch::MessageData;
pub use dispatch::WorkerState;
pub use dispatch::WriteOp;
pub use dispatch::WriteOpData;
pub use dispatch::abort_actions_spec;
pub use dispatch::abort_state_spec;
pub use dispatch::config_format_spec;
pub use dispatch::enabled_spec;
pub use dispatch::log_spec;
pub use dispatch::message_actions_spec;
pub use dispatch::process_message_spec;
pub use dispatch::process_queue_spec;
pub use dispatch::submit_spec;
pub use dispatch::target_actions_spec;
pub use dispatch::write_op_spec;
pub use error::Error;
pub use format::DefaultFormatter;
pub use format::Formatter;
pub use format::FormatterBuilder;
pub use format::SpanPosition;
pub use format::format_span_context;
pub use format::format_span_context_with;
pub use format::format_spec;
pub use format::format_with_span_position;
pub use format::formatter_output_ok;
pub use format::join_spaced;
pub use format::lemma_level_tag_strips;
pub use format::lemma_span_context_plain;
pub use format::lemma_strip_restores_plain_rendering;
pub use format::level_tag_seq;
pub use format::plain_format_spec;
pub use format::plain_level_tag_seq;
pub use format::span_context_seq;
pub use format::span_entry_seq;
pub use hooks::Hook;
pub use hooks::HookCall;
pub use hooks::HookCallData;
pub use hooks::HookSystem;
pub use hooks::HookSystemData;
pub use hooks::calls_spec;
pub use level::LogLevel;
pub use registry::Registry;
pub use registry::lemma_double_init_distinct_from_uninitialized_use;
pub use registry::retrieval_error_spec;
pub use registry::set_logger_spec;
pub use span::Span;
pub use span::SpanData;
pub use span::SpanStack;
pub use span::context_spec;
pub use span::span_entries;
pub use strings::Color;
pub use strings::Colorize;
pub use strings::Style;
pub use strings::dec_spec;
pub use strings::reset_seq;
pub use target::Console;
pub use target::ConsoleData;
pub use target::CustomTarget;
pub use target::CustomTargetData;
pub use target::File;
pub use target::FileData;
pub use target::FileMode;
pub use target::Output;
pub use target::Target;
pub use target::TargetData;
pub use target::TargetId;
pub use target::TargetIdData;
pub use target::filter_level_spec;
pub use target::id_spec;
pub use target::lookup_route;
pub use target::passes_spec;
pub use target::route_spec;
pub use util::lemma_strip_no_escape;
pub use util::lemma_strip_plain;
pub use util::plain_text;
pub use util::strip_ansi_codes;
pub use util::strip_spec;

verus! {

/// A single log event with all relevant metadata.
///
/// A record is immutable once constructed: it is built by the caller at the
/// log call site, borrowed by the formatter, and then discarded.
#[derive(Debug, Clone)]
pub struct Record {
    /// The severity level of the log message.
    pub level: LogLevel,
    /// An identifier of the thread where the log call was made.
    pub thread_id: u64,
    /// The target component or category for the log message.
    pub target: String,
    /// The actual log message content.
    pub message: String,
    /// Optional path of the module where the log was generated.
    pub module: Option<&'static str>,
    /// Optional source file where the log was generated.
    pub file: Option<&'static str>,
    /// Optional line number where the log was generated.
    pub line: Option<u32>,
    /// The span context captured at the call site, outermost span first:
    /// pairs of span name and one `key=value` rendering per span field.
    pub context: Vec<(String, String)>,
}

/// The mathematical content of a [`Record`], with all text as character
/// sequences.
pub struct RecordData {
    /// The severity level of the log message.
    pub level: LogLevel,
    /// An identifier of the thread where the log call was made.
    pub thread_id: u64,
    /// The characters of the target component name.
    pub target: Seq<char>,
    /// The characters of the message.
    pub message: Seq<char>,
    /// The characters of the module path, when one was captured.
    pub module: Option<Seq<char>>,
    /// The characters of the source file name, when one was captured.
    pub file: Option<Seq<char>>,
    /// The source line, when one was captured.
    pub line: Option<u32>,
    /// The span context entries, as pairs of span name and rendered field.
    pub context: Seq<(Seq<char>, Seq<char>)>,
}

impl View for Record {
    type V = RecordData;

    open spec fn view(&self) -> RecordData {
        RecordData {
            level: self.level,
            thread_id: self.thread_id,
            target: self.target@,
            message: self.message@,
            module: match self.module {
                Some(m) => Some(m@),
                None => None,
            },
            file: match self.file {
                Some(f) => Some(f@),
                None => None,
            },
            line: self.line,
            context: self.context.deep_view(),
        }
    }
}

} // verus!
