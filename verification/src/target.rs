//! Output destinations for log messages.
//!
//! A [`Target`] describes one configured sink: the console, a file on
//! disk, or a host-defined sink. Each target carries an optional per-sink
//! severity floor and a stable identity used for hook correlation. The
//! actual stream and file handles live with the host; the types here hold
//! everything the dispatcher needs to decide what is written where.

use vstd::prelude::*;

use crate::level::LogLevel;

verus! {

/// Output destination for console log messages.
#[derive(Debug, Clone, Copy, PartialEq, Eq, Hash, Structural)]
pub enum Output {
    /// Standard output
    Stdout,
    /// Standard error
    Stderr,
}

/// The default console output is standard output.
impl Default for Output {
    fn default() -> (r: Self)
        ensures
            r == Output::Stdout,
    {
        Output::Stdout
    }
}

/// File open mode for a file sink.
#[derive(Debug, Clone, Copy, PartialEq, Eq, Structural)]
pub enum FileMode {
    /// Open the file in append mode, preserving existing content
    Append,
    /// Open the file in write mode, truncating existing content
    Truncate,
}

/// The default file mode preserves existing content.
impl Default for FileMode {
    fn default() -> (r: Self)
        ensures
            r == FileMode::Append,
    {
        FileMode::Append
    }
}

/// The identity of the target a log message is written to: a console
/// stream, a file path, or a custom string identifier. Used to identify
/// the target in hooks and filters.
#[derive(Debug, PartialEq, Eq, Hash)]
pub enum TargetId {
    /// A console output target, identified by its default stream
    Console(Output),
    /// A file output target, identified by its path
    File(String),
    /// A custom target identifier, for sinks that fit no predefined
    /// category
    Custom(String),
}

/// The mathematical content of a [`TargetId`].
pub enum TargetIdData {
    /// A console output target, identified by its default stream
    Console(Output),
    /// A file output target, identified by its path
    File(Seq<char>),
    /// A custom target identifier
    Custom(Seq<char>),
}

impl View for TargetId {
    type V = TargetIdData;

    open spec fn view(&self) -> TargetIdData {
        match self {
            TargetId::Console(o) => TargetIdData::Console(*o),
            TargetId::File(p) => TargetIdData::File(p@),
            TargetId::Custom(c) => TargetIdData::Custom(c@),
        }
    }
}

impl Clone for TargetId {
    /// A cloned identity denotes the same target.
    fn clone(&self) -> (r: Self)
        ensures
            r@ == self@,
    {
        match self {
            TargetId::Console(o) => TargetId::Console(*o),
            TargetId::File(p) => TargetId::File(p.clone()),
            TargetId::Custom(c) => TargetId::Custom(c.clone()),
        }
    }
}

/// The first route configured for `l`, scanning in order.
pub open spec fn lookup_route(routes: Seq<(LogLevel, Output)>, l: LogLevel) -> Option<Output>
    decreases routes.len(),
{
    if routes.len() == 0 {
        None
    } else if routes[0].0 == l {
        Some(routes[0].1)
    } else {
        lookup_route(routes.drop_first(), l)
    }
}

/// The mathematical content of a [`Console`] target.
pub struct ConsoleData {
    /// The per-target severity floor, when one is set.
    pub level: Option<LogLevel>,
    /// The stream all messages go to by default, when one is set.
    pub output: Option<Output>,
    /// Level-specific stream overrides, most recently added first.
    pub routes: Seq<(LogLevel, Output)>,
}

/// The stream a console target sends a message of level `l` to: the
/// level-specific override when one is set, otherwise the configured
/// default stream, otherwise standard output.
pub open spec fn route_spec(c: ConsoleData, l: LogLevel) -> Output {
    match lookup_route(c.routes, l) {
        Some(o) => o,
        None => match c.output {
            Some(o) => o,
            None => Output::Stdout,
        },
    }
}

/// Standard console output target.
///
/// Messages for this target go to standard output or standard error; a
/// single default stream may be set, and overridden per level.
#[derive(Debug, Clone)]
pub struct Console {
    level: Option<LogLevel>,
    output: Option<Output>,
    filtered_outputs: Vec<(LogLevel, Output)>,
}

impl View for Console {
    type V = ConsoleData;

    closed spec fn view(&self) -> ConsoleData {
        ConsoleData {
            level: self.level,
            output: self.output,
            routes: self.filtered_outputs@,
        }
    }
}

impl Console {
    /// The content of a freshly created console target: no floor, the
    /// default stream, no per-level overrides.
    pub open spec fn new_data() -> ConsoleData {
        ConsoleData {
            level: None,
            output: None,
            routes: Seq::<(LogLevel, Output)>::empty(),
        }
    }

    /// Creates a new console target with no floor, the default stream and
    /// no per-level overrides.
    pub fn new() -> (r: Console)
        ensures
            r@.level is None,
            r@.output is None,
            r@.routes == Seq::<(LogLevel, Output)>::empty(),
    {
        let r = Console { level: None, output: None, filtered_outputs: Vec::new() };
        proof {
            assert(r@.routes =~= Seq::<(LogLevel, Output)>::empty());
        }
        r
    }

    /// Builder method to set the severity floor for this target.
    pub fn filtered(self, level: LogLevel) -> (r: Console)
        ensures
            r@ == (ConsoleData { level: Some(level), ..self@ }),
    {
        Console { level: Some(level), ..self }
    }

    /// Builder method to set the stream all messages for this console go
    /// to. A per-level override set with `filtered_output` takes
    /// precedence.
    pub fn output(self, output: Output) -> (r: Console)
        ensures
            r@ == (ConsoleData { output: Some(output), ..self@ }),
    {
        Console { output: Some(output), ..self }
    }

    /// Builder method to route one specific level to the given stream,
    /// overriding the default stream and any earlier route for that
    /// level.
    pub fn filtered_output(self, level: LogLevel, output: Output) -> (r: Console)
        ensures
            r@.level == self@.level,
            r@.output == self@.output,
            forall|l: LogLevel| #[trigger] lookup_route(r@.routes, l) == if l == level {
                Some(output)
            } else {
                lookup_route(self@.routes, l)
            },
    {
        let mut outputs = self.filtered_outputs;
        outputs.insert(0, (level, output));
        let r = Console { level: self.level, output: self.output, filtered_outputs: outputs };
        proof {
            assert(r@.routes.drop_first() =~= self@.routes);
            assert(r@.routes[0] == (level, output));
        }
        r
    }

    /// The stream a message of level `level` is sent to.
    pub fn route(&self, level: LogLevel) -> (r: Output)
        ensures
            r == route_spec(self@, level),
    {
        let n = self.filtered_outputs.len();
        let mut i: usize = 0;
        proof {
            assert(self@.routes.skip(0) =~= self@.routes);
        }
        while i < n
            invariant
                i <= n,
                n == self.filtered_outputs.len(),
                lookup_route(self@.routes, level) == lookup_route(
                    self@.routes.skip(i as int),
                    level,
                ),
            decreases n - i,
        {
            let ghost prev = i as int;
            if self.filtered_outputs[i].0 == level {
                return self.filtered_outputs[i].1;
            }
            i += 1;
            proof {
                assert(self@.routes.skip(prev)[0] == self@.routes[prev]);
                assert(self@.routes.skip(prev).drop_first() =~= self@.routes.skip(i as int));
            }
        }
        proof {
            assert(self@.routes.skip(n as int) =~= Seq::<(LogLevel, Output)>::empty());
        }
        match self.output {
            Some(o) => o,
            None => Output::Stdout,
        }
    }

    /// The severity floor of the console target, when one is set:
    /// messages below it are ignored for this target only.
    pub fn filter_level(&self) -> (r: Option<LogLevel>)
        ensures
            r == self@.level,
    {
        self.level
    }

    /// The identity of the console target: its default stream.
    pub fn id(&self) -> (r: TargetId)
        ensures
            r@ == TargetIdData::Console(
                match self@.output {
                    Some(o) => o,
                    None => Output::Stdout,
                },
            ),
    {
        match self.output {
            Some(o) => TargetId::Console(o),
            None => TargetId::Console(Output::Stdout),
        }
    }
}

/// The mathematical content of a [`File`] target.
pub struct FileData {
    /// The characters of the file path.
    pub path: Seq<char>,
    /// The file open mode the host is to use.
    pub mode: FileMode,
    /// The per-target severity floor, when one is set.
    pub level: Option<LogLevel>,
}

/// File output target.
///
/// Messages for this target are persisted to a file on disk, with ANSI
/// color codes stripped first. The host opens the handle at the
/// configured path and mode and performs the writes, under an exclusive
/// lock, since the handle is shared with the worker thread.
#[derive(Debug, Clone)]
pub struct File {
    path: String,
    mode: FileMode,
    level: Option<LogLevel>,
}

impl View for File {
    type V = FileData;

    closed spec fn view(&self) -> FileData {
        FileData { path: self.path@, mode: self.mode, level: self.level }
    }
}

impl File {
    /// Creates a new file target at the given path and open mode. The
    /// host creates missing parent directories and opens the file when
    /// the logger starts; a path that cannot be opened surfaces there as
    /// an input/output error.
    pub fn new(path: String, mode: FileMode) -> (r: File)
        ensures
            r@ == (FileData { path: path@, mode, level: None }),
    {
        File { path, mode, level: None }
    }

    /// Builder method to set the severity floor for this target.
    pub fn filtered(self, level: LogLevel) -> (r: File)
        ensures
            r@ == (FileData { level: Some(level), ..self@ }),
    {
        File { level: Some(level), ..self }
    }

    /// The path the host opens the file at.
    pub fn path(&self) -> (r: &String)
        ensures
            r@ == self@.path,
    {
        &self.path
    }

    /// The open mode the host uses for the file.
    pub fn mode(&self) -> (r: FileMode)
        ensures
            r == self@.mode,
    {
        self.mode
    }

    /// The severity floor of the file target, when one is set.
    pub fn filter_level(&self) -> (r: Option<LogLevel>)
        ensures
            r == self@.level,
    {
        self.level
    }

    /// The identity of the file target: its path.
    pub fn id(&self) -> (r: TargetId)
        ensures
            r@ == TargetIdData::File(self@.path),
    {
        TargetId::File(self.path.clone())
    }
}

/// The mathematical content of a [`CustomTarget`].
pub struct CustomTargetData {
    /// The characters of the sink's identifier.
    pub id: Seq<char>,
    /// The per-target severity floor, when one is set.
    pub level: Option<LogLevel>,
}

/// A host-defined sink, named by a string identifier.
///
/// The dispatcher filters and formats for it like for any other target
/// and hands the host a write action carrying this identifier; the host
/// performs the actual write.
#[derive(Debug, Clone)]
pub struct CustomTarget {
    id: String,
    level: Option<LogLevel>,
}

impl View for CustomTarget {
    type V = CustomTargetData;

    closed spec fn view(&self) -> CustomTargetData {
        CustomTargetData { id: self.id@, level: self.level }
    }
}

impl CustomTarget {
    /// Creates a custom sink description with the given identifier.
    pub fn new(id: String) -> (r: CustomTarget)
        ensures
            r@ == (CustomTargetData { id: id@, level: None }),
    {
        CustomTarget { id, level: None }
    }

    /// Builder method to set the severity floor for this sink.
    pub fn filtered(self, level: LogLevel) -> (r: CustomTarget)
        ensures
            r@ == (CustomTargetData { level: Some(level), ..self@ }),
    {
        CustomTarget { level: Some(level), ..self }
    }

    /// The severity floor of the sink, when one is set.
    pub fn filter_level(&self) -> (r: Option<LogLevel>)
        ensures
            r == self@.level,
    {
        self.level
    }

    /// The identity of the sink: its string identifier.
    pub fn id(&self) -> (r: TargetId)
        ensures
            r@ == TargetIdData::Custom(self@.id),
    {
        TargetId::Custom(self.id.clone())
    }
}

/// The mathematical content of a [`Target`].
pub enum TargetData {
    /// A console target
    Console(ConsoleData),
    /// A file target
    File(FileData),
    /// A host-defined sink
    Custom(CustomTargetData),
}

/// A configured output sink: console, file, or a host-defined sink.
#[derive(Debug, Clone)]
pub enum Target {
    /// Writes to standard output or standard error
    Console(Console),
    /// Persists to a file on disk, with ANSI codes stripped
    File(File),
    /// A host-defined sink, written by the host
    Custom(CustomTarget),
}

impl View for Target {
    type V = TargetData;

    open spec fn view(&self) -> TargetData {
        match self {
            Target::Console(c) => TargetData::Console(c@),
            Target::File(f) => TargetData::File(f@),
            Target::Custom(c) => TargetData::Custom(c@),
        }
    }
}

impl DeepView for Target {
    type V = TargetData;

    open spec fn deep_view(&self) -> TargetData {
        self.view()
    }
}

/// The severity floor of a target, when one is set.
pub open spec fn filter_level_spec(t: TargetData) -> Option<LogLevel> {
    match t {
        TargetData::Console(c) => c.level,
        TargetData::File(f) => f.level,
        TargetData::Custom(c) => c.level,
    }
}

/// The identity of a target, used for hook correlation.
pub open spec fn id_spec(t: TargetData) -> TargetIdData {
    match t {
        TargetData::Console(c) => TargetIdData::Console(
            match c.output {
                Some(o) => o,
                None => Output::Stdout,
            },
        ),
        TargetData::File(f) => TargetIdData::File(f.path),
        TargetData::Custom(c) => TargetIdData::Custom(c.id),
    }
}

/// Whether a message of level `l` passes the target's own floor: it does
/// whenever no floor is set, or the level is at least the floor.
pub open spec fn passes_spec(t: TargetData, l: LogLevel) -> bool {
    match filter_level_spec(t) {
        Some(f) => f.as_int() <= l.as_int(),
        None => true,
    }
}

impl Target {
    /// The severity floor of this target, when one is set; messages below
    /// it are dropped for this target only.
    pub fn filter_level(&self) -> (r: Option<LogLevel>)
        ensures
            r == filter_level_spec(self@),
    {
        match self {
            Target::Console(c) => c.filter_level(),
            Target::File(f) => f.filter_level(),
            Target::Custom(c) => c.filter_level(),
        }
    }

    /// The identity of this target, used to correlate hook calls.
    pub fn id(&self) -> (r: TargetId)
        ensures
            r@ == id_spec(self@),
    {
        match self {
            Target::Console(c) => c.id(),
            Target::File(f) => f.id(),
            Target::Custom(c) => c.id(),
        }
    }

    /// Whether a message of level `level` passes this target's floor.
    pub fn passes(&self, level: LogLevel) -> (r: bool)
        ensures
            r == passes_spec(self@, level),
    {
        match self.filter_level() {
            Some(f) => f.le(level),
            None => true,
        }
    }
}

} // verus!
