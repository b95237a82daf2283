//! Span-based context management for structured logging.
//!
//! A span represents a period of execution and carries key/value context.
//! Spans nest: the stack of currently active spans is rendered into every
//! log record made while they are active. The stack itself is an explicit
//! value here; the host keeps one per thread and pushes a span on entry
//! and pops it when the corresponding scope ends.

use vstd::prelude::*;
use vstd::string::*;

use crate::strings::push_char;

verus! {

/// A single span with a name and key-value pairs of context.
#[derive(Debug, Clone)]
pub struct Span {
    /// The name of the span (e.g., "request", "database_query").
    pub name: String,
    /// Key-value pairs of context information.
    pub fields: Vec<(String, String)>,
}

/// The mathematical content of a [`Span`]: its name and fields as
/// character sequences.
pub struct SpanData {
    /// The characters of the span's name.
    pub name: Seq<char>,
    /// The key and value characters of each field, in order.
    pub fields: Seq<(Seq<char>, Seq<char>)>,
}

impl View for Span {
    type V = SpanData;

    open spec fn view(&self) -> SpanData {
        SpanData { name: self.name@, fields: self.fields.deep_view() }
    }
}

impl DeepView for Span {
    type V = SpanData;

    open spec fn deep_view(&self) -> SpanData {
        self.view()
    }
}

impl Span {
    /// Creates a new span with the given name and fields.
    pub fn new(name: String, fields: Vec<(String, String)>) -> (r: Span)
        ensures
            r@.name == name@,
            r@.fields == fields.deep_view(),
    {
        Span { name, fields }
    }
}

/// The context entries contributed by one span: one `(name, key=value)`
/// pair per field, in field order.
pub open spec fn span_entries(sp: SpanData) -> Seq<(Seq<char>, Seq<char>)> {
    sp.fields.map_values(|kv: (Seq<char>, Seq<char>)| (sp.name, kv.0 + "="@ + kv.1))
}

/// The context entries of a whole stack of spans, outermost span first.
pub open spec fn context_spec(spans: Seq<SpanData>) -> Seq<(Seq<char>, Seq<char>)>
    decreases spans.len(),
{
    if spans.len() == 0 {
        Seq::empty()
    } else {
        span_entries(spans[0]) + context_spec(spans.drop_first())
    }
}

/// Extending a stack by one span appends exactly that span's entries.
pub proof fn lemma_context_take_snoc(spans: Seq<SpanData>, i: int)
    requires
        0 <= i < spans.len(),
    ensures
        context_spec(spans.take(i + 1)) == context_spec(spans.take(i)) + span_entries(spans[i]),
    decreases i,
{
    if i == 0 {
        assert(spans.take(1) =~= seq![spans[0]]);
        assert(spans.take(1).drop_first() =~= Seq::<SpanData>::empty());
        assert(spans.take(0) =~= Seq::<SpanData>::empty());
        assert(context_spec(spans.take(1)) =~= context_spec(spans.take(0)) + span_entries(
            spans[0],
        ));
    } else {
        lemma_context_take_snoc(spans.drop_first(), i - 1);
        assert(spans.take(i + 1).drop_first() =~= spans.drop_first().take(i));
        assert(spans.take(i).drop_first() =~= spans.drop_first().take(i - 1));
        assert(spans.take(i + 1)[0] == spans[0]);
        assert(spans.take(i)[0] == spans[0]);
        assert(spans.drop_first()[i - 1] == spans[i]);
        assert(context_spec(spans.take(i + 1)) =~= context_spec(spans.take(i)) + span_entries(
            spans[i],
        ));
    }
}

/// The stack of currently active spans, outermost first.
///
/// The host keeps one stack per thread: entering a span pushes it, leaving
/// the span's scope pops it again, and every record captures the stack's
/// rendered context at the moment of the log call.
#[derive(Debug, Clone)]
pub struct SpanStack {
    spans: Vec<Span>,
}

impl View for SpanStack {
    type V = Seq<SpanData>;

    closed spec fn view(&self) -> Seq<SpanData> {
        self.spans.deep_view()
    }
}

impl SpanStack {
    /// Creates an empty stack: no span is active.
    pub fn new() -> (r: SpanStack)
        ensures
            r@ == Seq::<SpanData>::empty(),
    {
        let r = SpanStack { spans: Vec::new() };
        proof {
            assert(r@ =~= Seq::<SpanData>::empty());
        }
        r
    }

    /// Enters `span`: it becomes the innermost active span.
    pub fn enter(&mut self, span: Span)
        ensures
            final(self)@ == old(self)@.push(span@),
    {
        self.spans.push(span);
        proof {
            assert(self@ =~= old(self)@.push(self.spans@.last()@));
        }
    }

    /// Leaves the innermost active span, returning it; `None` when no
    /// span is active.
    pub fn exit(&mut self) -> (r: Option<Span>)
        ensures
            old(self)@.len() == 0 ==> final(self)@ == old(self)@ && r is None,
            old(self)@.len() > 0 ==> final(self)@ == old(self)@.drop_last() && (r matches Some(sp)
                && sp@ == old(self)@.last()),
    {
        let r = self.spans.pop();
        proof {
            if old(self)@.len() == 0 {
                assert(self@ =~= old(self)@);
            } else {
                assert(self@ =~= old(self)@.drop_last());
            }
        }
        r
    }

    /// The number of currently active spans.
    pub fn depth(&self) -> (r: usize)
        ensures
            r == self@.len(),
    {
        self.spans.len()
    }

    /// The current span context as `(span_name, key=value)` pairs: each
    /// active span contributes one pair per field, outermost span first.
    pub fn current_context(&self) -> (r: Vec<(String, String)>)
        ensures
            r.deep_view() == context_spec(self@),
    {
        let mut context: Vec<(String, String)> = Vec::new();
        let n = self.spans.len();
        let mut i: usize = 0;
        proof {
            assert(self@.take(0) =~= Seq::<SpanData>::empty());
            assert(context.deep_view() =~= context_spec(self@.take(0)));
        }
        while i < n
            invariant
                i <= n,
                n == self.spans.len(),
                self@ == self.spans.deep_view(),
                context.deep_view() == context_spec(self@.take(i as int)),
            decreases n - i,
        {
            let span = &self.spans[i];
            let m = span.fields.len();
            let mut k: usize = 0;
            proof {
                assert(span_entries(self@[i as int]).take(0) =~= Seq::<
                    (Seq<char>, Seq<char>),
                >::empty());
                assert(context.deep_view() =~= context_spec(self@.take(i as int)) + span_entries(
                    self@[i as int],
                ).take(0));
            }
            while k < m
                invariant
                    k <= m,
                    i < n,
                    n == self.spans.len(),
                    self@ == self.spans.deep_view(),
                    span == &self.spans[i as int],
                    m == span.fields.len(),
                    context.deep_view() == context_spec(self@.take(i as int)) + span_entries(
                        self@[i as int],
                    ).take(k as int),
                decreases m - k,
            {
                let ghost prev = context.deep_view();
                let key = &span.fields[k].0;
                let value = &span.fields[k].1;
                let mut rendered = key.clone();
                push_char(&mut rendered, '=');
                rendered.append(value.as_str());
                context.push((span.name.clone(), rendered));
                proof {
                    reveal_strlit("=");
                    let entries = span_entries(self@[i as int]);
                    assert(self@[i as int].fields[k as int] == (key@, value@));
                    assert(rendered@ =~= key@ + "="@ + value@);
                    assert(entries[k as int] == (span.name@, rendered@));
                    assert(entries.take(k + 1) =~= entries.take(k as int).push(
                        entries[k as int],
                    ));
                    assert(context.deep_view() =~= prev.push(entries[k as int]));
                    assert(context.deep_view() =~= context_spec(self@.take(i as int))
                        + entries.take(k + 1));
                }
                k += 1;
            }
            proof {
                let entries = span_entries(self@[i as int]);
                assert(entries.take(m as int) =~= entries);
                lemma_context_take_snoc(self@, i as int);
            }
            i += 1;
        }
        proof {
            assert(self@.take(n as int) =~= self@);
        }
        context
    }
}

} // verus!
