//! Formatting of log records as display text.
//!
//! The default rendering is `[LEVEL] message`, with the level name in its
//! conventional color and the span context placed according to a
//! [`SpanPosition`].

use vstd::prelude::*;
use vstd::string::*;

use crate::Record;
use crate::RecordData;
use crate::util::escape_after;
use crate::util::lemma_escape_after_concat;
use crate::util::lemma_plain_concat;
use crate::util::lemma_plain_escape_after;
use crate::util::lemma_strip_plain;
use crate::util::lemma_strip_rec_concat;
use crate::util::plain_text;
use crate::util::strip_rec;
use crate::util::strip_spec;

verus! {

/// Position where span context appears in a formatted log message.
#[derive(Debug, Clone, Copy, PartialEq, Eq, Structural)]
pub enum SpanPosition {
    /// Span context appears at the end of the message (the default).
    /// Example: `[INFO] message [span: key=value]`
    End,
    /// Span context appears at the beginning, before the level.
    /// Example: `[span: key=value] [INFO] message`
    Start,
    /// Span context appears after the level, before the message.
    /// Example: `[INFO] [span: key=value] message`
    AfterLevel,
    /// Span context is left out of the output.
    Omitted,
}

/// The default span position places the context at the end.
impl Default for SpanPosition {
    fn default() -> (r: Self)
        ensures
            r == SpanPosition::End,
    {
        SpanPosition::End
    }
}

/// One rendered span context entry: `[name: fields]`.
pub open spec fn span_entry_seq(name: Seq<char>, fields: Seq<char>) -> Seq<char> {
    "["@ + name + ": "@ + fields + "]"@
}

/// All span context entries rendered and joined with single spaces; empty
/// when there are no entries.
pub open spec fn span_context_seq(ctx: Seq<(Seq<char>, Seq<char>)>) -> Seq<char>
    decreases ctx.len(),
{
    if ctx.len() == 0 {
        Seq::empty()
    } else if ctx.len() == 1 {
        span_entry_seq(ctx[0].0, ctx[0].1)
    } else {
        span_entry_seq(ctx[0].0, ctx[0].1) + " "@ + span_context_seq(ctx.drop_first())
    }
}

/// Rendering one more entry extends the joined text by a separating space
/// (except before the first entry) and that entry.
pub proof fn lemma_span_context_snoc(ctx: Seq<(Seq<char>, Seq<char>)>, k: int)
    requires
        0 <= k < ctx.len(),
    ensures
        k == 0 ==> span_context_seq(ctx.take(1)) == span_entry_seq(ctx[0].0, ctx[0].1),
        k > 0 ==> span_context_seq(ctx.take(k + 1)) == span_context_seq(ctx.take(k)) + " "@
            + span_entry_seq(ctx[k].0, ctx[k].1),
    decreases k,
{
    if k == 0 {
        assert(ctx.take(1) =~= seq![ctx[0]]);
    } else if k == 1 {
        reveal_with_fuel(span_context_seq, 3);
        assert(ctx.take(2) =~= seq![ctx[0], ctx[1]]);
        assert(ctx.take(2).drop_first() =~= seq![ctx[1]]);
        assert(ctx.take(1) =~= seq![ctx[0]]);
        assert(span_context_seq(ctx.take(2)) =~= span_context_seq(ctx.take(1)) + " "@
            + span_entry_seq(ctx[1].0, ctx[1].1));
    } else {
        lemma_span_context_snoc(ctx.drop_first(), k - 1);
        assert(ctx.take(k + 1).drop_first() =~= ctx.drop_first().take(k));
        assert(ctx.take(k).drop_first() =~= ctx.drop_first().take(k - 1));
        assert(ctx.take(k + 1)[0] == ctx[0]);
        assert(ctx.take(k)[0] == ctx[0]);
        assert(ctx.drop_first()[k - 1] == ctx[k]);
        assert(span_context_seq(ctx.take(k + 1)) =~= span_context_seq(ctx.take(k)) + " "@
            + span_entry_seq(ctx[k].0, ctx[k].1));
    }
}

/// The `[LEVEL]` prefix of a formatted message, with the level colored.
pub open spec fn level_tag_seq(level: crate::LogLevel) -> Seq<char> {
    "["@ + level.colored_name_seq() + "]"@
}

/// The full default rendering of a record: the colored `[LEVEL]` tag and
/// the message, with the span context (when present) placed according to
/// `position`.
pub open spec fn format_spec(r: RecordData, position: SpanPosition) -> Seq<char> {
    let level_str = level_tag_seq(r.level);
    let span_str = span_context_seq(r.context);
    if span_str.len() == 0 {
        level_str + " "@ + r.message
    } else {
        match position {
            SpanPosition::End => level_str + " "@ + r.message + " "@ + span_str,
            SpanPosition::Start => span_str + " "@ + level_str + " "@ + r.message,
            SpanPosition::AfterLevel => level_str + " "@ + span_str + " "@ + r.message,
            SpanPosition::Omitted => level_str + " "@ + r.message,
        }
    }
}

/// Appends `[name: fields]` to `out`.
fn push_entry(out: &mut String, name: &str, fields: &str)
    ensures
        final(out)@ == old(out)@ + span_entry_seq(name@, fields@),
{
    out.append("[");
    out.append(name);
    out.append(": ");
    out.append(fields);
    out.append("]");
}

/// Formats span context into a string with default formatting.
///
/// Each entry is rendered as `[span_name: fields]` and entries are joined
/// with single spaces; the result is empty when no context exists.
pub fn format_span_context(context: &[(String, String)]) -> (r: String)
    ensures
        r@ == span_context_seq(context.deep_view()),
{
    let ghost dv = context.deep_view();
    let n = context.len();
    let mut out = String::new();
    let mut k: usize = 0;
    proof {
        assert(dv.take(0) =~= Seq::<(Seq<char>, Seq<char>)>::empty());
        assert(out@ =~= span_context_seq(dv.take(0)));
    }
    while k < n
        invariant
            k <= n,
            n == context@.len(),
            dv == context.deep_view(),
            out@ == span_context_seq(dv.take(k as int)),
        decreases n - k,
    {
        if k > 0 {
            out.append(" ");
        }
        let name: &String = &context[k].0;
        let fields: &String = &context[k].1;
        push_entry(&mut out, name.as_str(), fields.as_str());
        proof {
            assert(dv[k as int] == (name@, fields@));
            lemma_span_context_snoc(dv, k as int);
            assert(out@ =~= span_context_seq(dv.take(k + 1)));
        }
        k += 1;
    }
    proof {
        assert(dv.take(n as int) =~= dv);
    }
    out
}

/// Rendered pieces joined with single spaces.
pub open spec fn join_spaced(parts: Seq<Seq<char>>) -> Seq<char>
    decreases parts.len(),
{
    if parts.len() == 0 {
        Seq::empty()
    } else if parts.len() == 1 {
        parts[0]
    } else {
        parts[0] + " "@ + join_spaced(parts.drop_first())
    }
}

/// Joining one more piece appends a separating space (except before the
/// first piece) and that piece.
pub proof fn lemma_join_spaced_snoc(parts: Seq<Seq<char>>, k: int)
    requires
        0 <= k < parts.len(),
    ensures
        k == 0 ==> join_spaced(parts.take(1)) == parts[0],
        k > 0 ==> join_spaced(parts.take(k + 1)) == join_spaced(parts.take(k)) + " "@ + parts[k],
    decreases k,
{
    if k == 0 {
        assert(parts.take(1) =~= seq![parts[0]]);
    } else if k == 1 {
        reveal_with_fuel(join_spaced, 3);
        assert(parts.take(2) =~= seq![parts[0], parts[1]]);
        assert(parts.take(2).drop_first() =~= seq![parts[1]]);
        assert(parts.take(1) =~= seq![parts[0]]);
        assert(join_spaced(parts.take(2)) =~= join_spaced(parts.take(1)) + " "@ + parts[1]);
    } else {
        lemma_join_spaced_snoc(parts.drop_first(), k - 1);
        assert(parts.take(k + 1).drop_first() =~= parts.drop_first().take(k));
        assert(parts.take(k).drop_first() =~= parts.drop_first().take(k - 1));
        assert(parts.take(k + 1)[0] == parts[0]);
        assert(parts.take(k)[0] == parts[0]);
        assert(parts.drop_first()[k - 1] == parts[k]);
        assert(join_spaced(parts.take(k + 1)) =~= join_spaced(parts.take(k)) + " "@ + parts[k]);
    }
}

/// Whether `out` is a possible output of the formatter `f` on a context
/// entry with the given name and fields.
pub open spec fn formatter_output_ok<F: Fn(&str, &str) -> String>(
    f: F,
    entry: (Seq<char>, Seq<char>),
    out: Seq<char>,
) -> bool {
    exists|a: &str, b: &str, s: String|
        a@ == entry.0 && b@ == entry.1 && s@ == out && call_ensures(f, (a, b), s)
}

/// Formats span context with a custom formatter function: one piece per
/// entry, in order, joined with single spaces. Each piece is an output of
/// `formatter` on that entry's name and fields; the result is empty when
/// no context exists.
pub fn format_span_context_with<F: Fn(&str, &str) -> String>(
    context: &[(String, String)],
    formatter: F,
) -> (r: String)
    requires
        forall|a: &str, b: &str| call_requires(formatter, (a, b)),
    ensures
        exists|outs: Seq<Seq<char>>|
            outs.len() == context.deep_view().len() && r@ == join_spaced(outs) && forall|i: int|
                0 <= i < outs.len() ==> formatter_output_ok(
                    formatter,
                    context.deep_view()[i],
                    outs[i],
                ),
{
    let ghost dv = context.deep_view();
    let n = context.len();
    let mut out = String::new();
    let ghost mut outs: Seq<Seq<char>> = Seq::empty();
    let mut k: usize = 0;
    proof {
        assert(out@ =~= join_spaced(outs));
    }
    while k < n
        invariant
            k <= n,
            n == context@.len(),
            dv == context.deep_view(),
            outs.len() == k,
            out@ == join_spaced(outs),
            forall|i: int| 0 <= i < k ==> formatter_output_ok(formatter, dv[i], outs[i]),
            forall|a: &str, b: &str| call_requires(formatter, (a, b)),
        decreases n - k,
    {
        if k > 0 {
            out.append(" ");
        }
        let name = context[k].0.as_str();
        let fields = context[k].1.as_str();
        let piece = formatter(name, fields);
        out.append(piece.as_str());
        proof {
            let ghost prev = outs;
            outs = outs.push(piece@);
            assert(dv[k as int] == (name@, fields@));
            assert(formatter_output_ok(formatter, dv[k as int], piece@));
            assert(outs.take(k as int) =~= prev);
            assert(outs.take(k + 1) =~= outs);
            lemma_join_spaced_snoc(outs, k as int);
            assert(out@ =~= join_spaced(outs));
        }
        k += 1;
    }
    out
}

/// Formats a record with span context at the specified position.
///
/// This is the standard rendering used by [`DefaultFormatter`]; custom
/// formatters can call it to get consistent span placement.
pub fn format_with_span_position(record: &Record, position: SpanPosition) -> (r: String)
    ensures
        r@ == format_spec(record@, position),
{
    let mut level_str = String::from_str("[");
    let colored = record.level.default_coloring();
    level_str.append(colored.as_str());
    level_str.append("]");
    let ctx = record.context.as_slice();
    let span_str = format_span_context(ctx);
    proof {
        assert(level_str@ == level_tag_seq(record@.level));
        assert(ctx.deep_view() =~= record@.context);
    }
    let mut out = String::new();
    if span_str.as_str().is_empty() {
        out.append(level_str.as_str());
        out.append(" ");
        out.append(record.message.as_str());
    } else {
        match position {
            SpanPosition::End => {
                out.append(level_str.as_str());
                out.append(" ");
                out.append(record.message.as_str());
                out.append(" ");
                out.append(span_str.as_str());
            },
            SpanPosition::Start => {
                out.append(span_str.as_str());
                out.append(" ");
                out.append(level_str.as_str());
                out.append(" ");
                out.append(record.message.as_str());
            },
            SpanPosition::AfterLevel => {
                out.append(level_str.as_str());
                out.append(" ");
                out.append(span_str.as_str());
                out.append(" ");
                out.append(record.message.as_str());
            },
            SpanPosition::Omitted => {
                out.append(level_str.as_str());
                out.append(" ");
                out.append(record.message.as_str());
            },
        }
    }
    out
}

/// The `[LEVEL]` prefix without color: what remains of the tag in
/// persisted plain text.
pub open spec fn plain_level_tag_seq(level: crate::LogLevel) -> Seq<char> {
    "["@ + level.name_seq() + "]"@
}

/// The default rendering of a record without any color: the plain
/// `[LEVEL]` tag and the message, with the span context placed according
/// to `position`. This is exactly what a file target persists.
pub open spec fn plain_format_spec(r: RecordData, position: SpanPosition) -> Seq<char> {
    let level_str = plain_level_tag_seq(r.level);
    let span_str = span_context_seq(r.context);
    if span_str.len() == 0 {
        level_str + " "@ + r.message
    } else {
        match position {
            SpanPosition::End => level_str + " "@ + r.message + " "@ + span_str,
            SpanPosition::Start => span_str + " "@ + level_str + " "@ + r.message,
            SpanPosition::AfterLevel => level_str + " "@ + span_str + " "@ + r.message,
            SpanPosition::Omitted => level_str + " "@ + r.message,
        }
    }
}

/// A single opening bracket is plain text.
proof fn lemma_bracket_open_plain()
    ensures
        plain_text("["@),
{
    reveal_strlit("[");
    assert forall|i: int| 0 <= i < "["@.len() implies "["@[i] != '\x1b' by {
        assert("["@[i] == '[');
    }
}

/// A single closing bracket is plain text.
proof fn lemma_bracket_close_plain()
    ensures
        plain_text("]"@),
{
    reveal_strlit("]");
    assert forall|i: int| 0 <= i < "]"@.len() implies "]"@[i] != '\x1b' by {
        assert("]"@[i] == ']');
    }
}

/// A single space is plain text.
proof fn lemma_space_plain()
    ensures
        plain_text(" "@),
{
    reveal_strlit(" ");
    assert forall|i: int| 0 <= i < " "@.len() implies " "@[i] != '\x1b' by {
        assert(" "@[i] == ' ');
    }
}

/// The colon-space separator is plain text.
proof fn lemma_separator_plain()
    ensures
        plain_text(": "@),
{
    reveal_strlit(": ");
    assert forall|i: int| 0 <= i < ": "@.len() implies ": "@[i] != '\x1b' by {
        if i == 0 {
            assert(": "@[0] == ':');
        } else {
            assert(": "@[1] == ' ');
        }
    }
}

/// Stripping the colored `[LEVEL]` tag yields the plain tag, and leaves
/// the stripper outside any escape sequence.
pub proof fn lemma_level_tag_strips(level: crate::LogLevel)
    ensures
        strip_rec(level_tag_seq(level), false) == plain_level_tag_seq(level),
        escape_after(level_tag_seq(level), false) == false,
{
    let colored = level.colored_name_seq();
    level.lemma_colored_name_strips();
    lemma_bracket_open_plain();
    lemma_bracket_close_plain();
    lemma_strip_plain("["@);
    lemma_plain_escape_after("["@);
    lemma_strip_plain("]"@);
    lemma_plain_escape_after("]"@);
    assert(level_tag_seq(level) =~= "["@ + (colored + "]"@));
    lemma_strip_rec_concat("["@, colored + "]"@, false);
    lemma_escape_after_concat("["@, colored + "]"@, false);
    lemma_strip_rec_concat(colored, "]"@, false);
    lemma_escape_after_concat(colored, "]"@, false);
    assert(strip_rec(level_tag_seq(level), false) =~= plain_level_tag_seq(level));
}

/// Rendered span context built from plain names and fields is plain.
pub proof fn lemma_span_context_plain(ctx: Seq<(Seq<char>, Seq<char>)>)
    requires
        forall|i: int| 0 <= i < ctx.len() ==> plain_text(ctx[i].0) && plain_text(ctx[i].1),
    ensures
        plain_text(span_context_seq(ctx)),
    decreases ctx.len(),
{
    lemma_bracket_open_plain();
    lemma_bracket_close_plain();
    lemma_separator_plain();
    lemma_space_plain();
    if ctx.len() == 0 {
    } else {
        assert(plain_text(ctx[0].0) && plain_text(ctx[0].1));
        lemma_plain_concat("["@, ctx[0].0);
        lemma_plain_concat("["@ + ctx[0].0, ": "@);
        lemma_plain_concat("["@ + ctx[0].0 + ": "@, ctx[0].1);
        lemma_plain_concat("["@ + ctx[0].0 + ": "@ + ctx[0].1, "]"@);
        assert(plain_text(span_entry_seq(ctx[0].0, ctx[0].1)));
        if ctx.len() > 1 {
            assert(forall|i: int|
                0 <= i < ctx.drop_first().len() ==> plain_text(ctx.drop_first()[i].0)
                    && plain_text(ctx.drop_first()[i].1));
            lemma_span_context_plain(ctx.drop_first());
            lemma_plain_concat(span_entry_seq(ctx[0].0, ctx[0].1), " "@);
            lemma_plain_concat(
                span_entry_seq(ctx[0].0, ctx[0].1) + " "@,
                span_context_seq(ctx.drop_first()),
            );
        }
    }
}

/// Stripping the formatted rendering of a record with a plain message
/// and plain span context yields exactly the plain rendering: a file
/// line matches the uncolored text, character for character.
pub proof fn lemma_strip_restores_plain_rendering(r: RecordData, position: SpanPosition)
    requires
        plain_text(r.message),
        forall|i: int| 0 <= i < r.context.len() ==> plain_text(r.context[i].0) && plain_text(
            r.context[i].1,
        ),
    ensures
        strip_spec(format_spec(r, position)) == plain_format_spec(r, position),
{
    let tag = level_tag_seq(r.level);
    let ptag = plain_level_tag_seq(r.level);
    let span = span_context_seq(r.context);
    let msg = r.message;
    lemma_level_tag_strips(r.level);
    lemma_span_context_plain(r.context);
    lemma_space_plain();
    if span.len() == 0 || position == SpanPosition::Omitted || position == SpanPosition::End
        || position == SpanPosition::AfterLevel {
        // Everything after the tag is plain: a space, the message, and
        // (for these positions) the span context with its separators.
        let rest: Seq<char> = if span.len() == 0 || position == SpanPosition::Omitted {
            " "@ + msg
        } else if position == SpanPosition::End {
            " "@ + msg + " "@ + span
        } else {
            " "@ + span + " "@ + msg
        };
        lemma_plain_concat(" "@, msg);
        lemma_plain_concat(" "@, span);
        lemma_plain_concat(" "@ + msg, " "@);
        lemma_plain_concat(" "@ + msg + " "@, span);
        lemma_plain_concat(" "@ + span, " "@);
        lemma_plain_concat(" "@ + span + " "@, msg);
        assert(plain_text(rest));
        lemma_strip_plain(rest);
        lemma_strip_rec_concat(tag, rest, false);
        assert(format_spec(r, position) =~= tag + rest);
        assert(plain_format_spec(r, position) =~= ptag + rest);
        assert(strip_spec(format_spec(r, position)) =~= plain_format_spec(r, position));
    } else {
        // The span context leads, then the tag, then a space and the
        // message.
        let lead = span + " "@;
        let rest = " "@ + msg;
        lemma_plain_concat(span, " "@);
        lemma_plain_concat(" "@, msg);
        lemma_strip_plain(lead);
        lemma_plain_escape_after(lead);
        lemma_strip_plain(rest);
        lemma_strip_rec_concat(lead, tag + rest, false);
        lemma_strip_rec_concat(tag, rest, false);
        assert(format_spec(r, position) =~= lead + (tag + rest));
        assert(plain_format_spec(r, position) =~= lead + (ptag + rest));
        assert(strip_spec(format_spec(r, position)) =~= plain_format_spec(r, position));
    }
}

/// A log message formatter: the extension seam for custom renderings.
///
/// A formatter states, as `format_spec_of`, exactly what text it produces
/// for a record, and `format` delivers that text.
pub trait Formatter {
    /// The text this formatter produces for a record.
    spec fn format_spec_of(&self, r: RecordData) -> Seq<char>;

    /// Formats a log record into a string.
    fn format(&self, record: &Record) -> (s: String)
        ensures
            s@ == self.format_spec_of(record@),
    ;
}

/// The default log message formatter, with configurable span positioning.
///
/// Renders records as `[LEVEL] message`, with the level color-coded and
/// span context placed according to [`SpanPosition`].
#[derive(Debug, Clone, Copy, PartialEq, Eq, Structural)]
pub struct DefaultFormatter {
    /// The position where span context appears.
    pub position: SpanPosition,
}

impl DefaultFormatter {
    /// Creates a formatter with the specified span position.
    pub fn with_position(position: SpanPosition) -> (r: Self)
        ensures
            r.position == position,
    {
        DefaultFormatter { position }
    }

    /// Creates a formatter with default settings (span context at the end).
    pub fn new() -> (r: Self)
        ensures
            r.position == SpanPosition::End,
    {
        DefaultFormatter { position: SpanPosition::End }
    }

    /// Creates a formatter with span context at the start:
    /// `[span: key=value] [LEVEL] message`.
    pub fn with_span_at_start() -> (r: Self)
        ensures
            r.position == SpanPosition::Start,
    {
        Self::with_position(SpanPosition::Start)
    }

    /// Creates a formatter with span context after the level:
    /// `[LEVEL] [span: key=value] message`.
    pub fn with_span_after_level() -> (r: Self)
        ensures
            r.position == SpanPosition::AfterLevel,
    {
        Self::with_position(SpanPosition::AfterLevel)
    }

    /// Creates a formatter with span context at the end (the default):
    /// `[LEVEL] message [span: key=value]`.
    pub fn with_span_at_end() -> (r: Self)
        ensures
            r.position == SpanPosition::End,
    {
        Self::with_position(SpanPosition::End)
    }

    /// Creates a formatter that leaves span context out:
    /// `[LEVEL] message`.
    pub fn without_span() -> (r: Self)
        ensures
            r.position == SpanPosition::Omitted,
    {
        Self::with_position(SpanPosition::Omitted)
    }
}

/// The default formatter places span context at the end.
impl Default for DefaultFormatter {
    fn default() -> (r: Self)
        ensures
            r.position == SpanPosition::End,
    {
        DefaultFormatter { position: SpanPosition::End }
    }
}

impl Formatter for DefaultFormatter {
    /// The default formatter renders exactly `format_spec` at its
    /// configured position.
    open spec fn format_spec_of(&self, r: RecordData) -> Seq<char> {
        format_spec(r, self.position)
    }

    fn format(&self, record: &Record) -> (s: String) {
        format_with_span_position(record, self.position)
    }
}

/// Helper builder for creating formatters with span positioning support.
#[derive(Debug, Clone, Copy, PartialEq, Eq, Structural)]
pub struct FormatterBuilder {
    span_position: SpanPosition,
}

impl FormatterBuilder {
    /// The span position the builder will hand to the formatter it builds.
    pub closed spec fn position_spec(&self) -> SpanPosition {
        self.span_position
    }

    /// Creates a new builder with the default span position (end).
    pub fn new() -> (r: Self)
        ensures
            r.position_spec() == SpanPosition::End,
    {
        FormatterBuilder { span_position: SpanPosition::End }
    }

    /// Sets the span position for the formatter being built.
    pub fn with_span_position(self, position: SpanPosition) -> (r: Self)
        ensures
            r.position_spec() == position,
    {
        FormatterBuilder { span_position: position }
    }

    /// Builds a default formatter at the configured span position.
    pub fn build(self) -> (r: DefaultFormatter)
        ensures
            r.position == self.position_spec(),
    {
        DefaultFormatter { position: self.span_position }
    }
}

/// A builder starts out with the span position at the end.
impl Default for FormatterBuilder {
    fn default() -> (r: Self)
        ensures
            r.position_spec() == SpanPosition::End,
    {
        FormatterBuilder { span_position: SpanPosition::End }
    }
}

} // verus!
