//! The delivery guarantees of the dispatch pipeline, stated and proved
//! over the pipeline's specification functions.

use vstd::prelude::*;

use crate::dispatch::ActionData;
use crate::dispatch::LoggerData;
use crate::dispatch::MessageData;
use crate::dispatch::WriteOpData;
use crate::dispatch::abort_actions_spec;
use crate::dispatch::abort_state_spec;
use crate::dispatch::log_spec;
use crate::dispatch::message_actions_spec;
use crate::dispatch::process_message_spec;
use crate::dispatch::process_queue_spec;
use crate::dispatch::target_actions_spec;
use crate::dispatch::write_op_spec;
use crate::format::SpanPosition;
use crate::format::format_spec;
use crate::format::lemma_strip_restores_plain_rendering;
use crate::format::plain_format_spec;
use crate::hooks::HookCallData;
use crate::hooks::HookSystemData;
use crate::hooks::calls_spec;
use crate::level::LogLevel;
use crate::target::TargetData;
use crate::target::id_spec;
use crate::target::passes_spec;
use crate::util::lemma_strip_no_escape;
use crate::util::plain_text;

verus! {

/// The writes among a sequence of delivery actions, in order.
pub open spec fn writes_of(actions: Seq<ActionData>) -> Seq<WriteOpData>
    decreases actions.len(),
{
    if actions.len() == 0 {
        Seq::empty()
    } else {
        (match actions[0] {
            ActionData::Write(w) => seq![w],
            _ => Seq::empty(),
        }) + writes_of(actions.drop_first())
    }
}

/// The writes one message gives rise to: one per target that accepts the
/// severity, in configuration order.
pub open spec fn target_writes_spec(
    text: Seq<char>,
    level: LogLevel,
    targets: Seq<TargetData>,
) -> Seq<WriteOpData>
    decreases targets.len(),
{
    if targets.len() == 0 {
        Seq::empty()
    } else {
        (if passes_spec(targets[0], level) {
            seq![write_op_spec(targets[0], text, level)]
        } else {
            Seq::empty()
        }) + target_writes_spec(text, level, targets.drop_first())
    }
}

/// The writes one channel message gives rise to.
pub open spec fn message_writes_spec(m: MessageData, targets: Seq<TargetData>) -> Seq<
    WriteOpData,
> {
    match m {
        MessageData::Log(text, level) => target_writes_spec(text, level, targets),
        MessageData::Flush => Seq::empty(),
    }
}

/// The writes a whole queue gives rise to, message by message in
/// submission order.
pub open spec fn queue_writes_spec(queue: Seq<MessageData>, targets: Seq<TargetData>) -> Seq<
    WriteOpData,
>
    decreases queue.len(),
{
    if queue.len() == 0 {
        Seq::empty()
    } else {
        message_writes_spec(queue[0], targets) + queue_writes_spec(queue.drop_first(), targets)
    }
}

/// Extracting writes distributes over concatenation of action sequences.
pub proof fn lemma_writes_of_concat(a: Seq<ActionData>, b: Seq<ActionData>)
    ensures
        writes_of(a + b) == writes_of(a) + writes_of(b),
    decreases a.len(),
{
    if a.len() == 0 {
        assert(a + b =~= b);
        assert(writes_of(a) =~= Seq::<WriteOpData>::empty());
        assert(writes_of(a) + writes_of(b) =~= writes_of(b));
    } else {
        lemma_writes_of_concat(a.drop_first(), b);
        assert((a + b)[0] == a[0]);
        assert((a + b).drop_first() =~= a.drop_first() + b);
        assert(writes_of(a + b) =~= writes_of(a) + writes_of(b));
    }
}

/// Hook actions contribute no writes.
pub proof fn lemma_writes_of_hook_calls(calls: Seq<HookCallData>, before: bool)
    ensures
        before ==> writes_of(calls.map_values(|c: HookCallData| ActionData::Before(c)))
            == Seq::<WriteOpData>::empty(),
        !before ==> writes_of(calls.map_values(|c: HookCallData| ActionData::After(c)))
            == Seq::<WriteOpData>::empty(),
    decreases calls.len(),
{
    if calls.len() == 0 {
        assert(calls.map_values(|c: HookCallData| ActionData::Before(c)) =~= Seq::<
            ActionData,
        >::empty());
        assert(calls.map_values(|c: HookCallData| ActionData::After(c)) =~= Seq::<
            ActionData,
        >::empty());
    } else {
        lemma_writes_of_hook_calls(calls.drop_first(), before);
        if before {
            let mapped = calls.map_values(|c: HookCallData| ActionData::Before(c));
            assert(mapped.drop_first() =~= calls.drop_first().map_values(
                |c: HookCallData| ActionData::Before(c),
            ));
            assert(writes_of(mapped) =~= Seq::<WriteOpData>::empty());
        } else {
            let mapped = calls.map_values(|c: HookCallData| ActionData::After(c));
            assert(mapped.drop_first() =~= calls.drop_first().map_values(
                |c: HookCallData| ActionData::After(c),
            ));
            assert(writes_of(mapped) =~= Seq::<WriteOpData>::empty());
        }
    }
}

/// A target below its own floor receives nothing at all for the message,
/// while a target that accepts the severity receives exactly one write —
/// whatever other targets do.
pub proof fn lemma_per_target_filter(
    t: TargetData,
    text: Seq<char>,
    level: LogLevel,
    hooks: HookSystemData,
)
    ensures
        !passes_spec(t, level) ==> target_actions_spec(t, text, level, hooks) == Seq::<
            ActionData,
        >::empty(),
        passes_spec(t, level) ==> writes_of(target_actions_spec(t, text, level, hooks)) == seq![
            write_op_spec(t, text, level),
        ],
{
    if passes_spec(t, level) {
        let before = calls_spec(hooks.before, level, id_spec(t)).map_values(
            |c: HookCallData| ActionData::Before(c),
        );
        let write = seq![ActionData::Write(write_op_spec(t, text, level))];
        let after = calls_spec(hooks.after, level, id_spec(t)).map_values(
            |c: HookCallData| ActionData::After(c),
        );
        lemma_writes_of_hook_calls(calls_spec(hooks.before, level, id_spec(t)), true);
        lemma_writes_of_hook_calls(calls_spec(hooks.after, level, id_spec(t)), false);
        lemma_writes_of_concat(before, write + after);
        lemma_writes_of_concat(write, after);
        assert(before + write + after =~= before + (write + after));
        assert(write.drop_first() =~= Seq::<ActionData>::empty());
        reveal_with_fuel(writes_of, 2);
        assert(writes_of(write) =~= seq![write_op_spec(t, text, level)]);
        assert(writes_of(target_actions_spec(t, text, level, hooks)) =~= seq![
            write_op_spec(t, text, level),
        ]);
    }
}

/// One message's delivery work writes exactly once to each target whose
/// floor accepts the severity, in configuration order; no failing or
/// filtered target keeps another from being written.
pub proof fn lemma_message_writes(
    text: Seq<char>,
    level: LogLevel,
    targets: Seq<TargetData>,
    hooks: HookSystemData,
)
    ensures
        writes_of(process_message_spec(text, level, targets, hooks)) == target_writes_spec(
            text,
            level,
            targets,
        ),
    decreases targets.len(),
{
    if targets.len() == 0 {
        assert(writes_of(process_message_spec(text, level, targets, hooks)) =~= target_writes_spec(
            text,
            level,
            targets,
        ));
    } else {
        lemma_message_writes(text, level, targets.drop_first(), hooks);
        lemma_per_target_filter(targets[0], text, level, hooks);
        lemma_writes_of_concat(
            target_actions_spec(targets[0], text, level, hooks),
            process_message_spec(text, level, targets.drop_first(), hooks),
        );
        assert(writes_of(process_message_spec(text, level, targets, hooks)) =~= target_writes_spec(
            text,
            level,
            targets,
        ));
    }
}

/// Delivery order equals submission order: the writes performed for a
/// whole queue are exactly the per-message writes, message by message in
/// the order the messages were submitted. In particular, two messages
/// submitted one after the other reach every common target in that
/// order.
pub proof fn lemma_delivery_in_submission_order(
    queue: Seq<MessageData>,
    targets: Seq<TargetData>,
    hooks: HookSystemData,
)
    ensures
        writes_of(process_queue_spec(queue, targets, hooks)) == queue_writes_spec(queue, targets),
    decreases queue.len(),
{
    if queue.len() == 0 {
        assert(writes_of(process_queue_spec(queue, targets, hooks)) =~= queue_writes_spec(
            queue,
            targets,
        ));
    } else {
        lemma_delivery_in_submission_order(queue.drop_first(), targets, hooks);
        match queue[0] {
            MessageData::Log(text, level) => {
                lemma_message_writes(text, level, targets, hooks);
            },
            MessageData::Flush => {},
        }
        lemma_writes_of_concat(
            message_actions_spec(queue[0], targets, hooks),
            process_queue_spec(queue.drop_first(), targets, hooks),
        );
        assert(writes_of(process_queue_spec(queue, targets, hooks)) =~= queue_writes_spec(
            queue,
            targets,
        ));
    }
}

/// A message below the global level is dropped before it reaches the
/// queue: submitting it leaves the dispatcher exactly as it was, so no
/// target ever sees a write for it.
pub proof fn lemma_below_global_level_is_dropped(
    l: LoggerData,
    r: crate::RecordData,
    hooks: HookSystemData,
)
    requires
        r.level.as_int() < l.config.level.as_int(),
    ensures
        log_spec(l, r) == l,
        abort_actions_spec(log_spec(l, r), hooks) == abort_actions_spec(l, hooks),
{
}

/// A file target is never handed text holding a raw ANSI escape
/// character, whatever colors the formatter injected: every write to a
/// file target carries stripped text.
pub proof fn lemma_file_writes_are_plain(text: Seq<char>, level: LogLevel, targets: Seq<
    TargetData,
>)
    ensures
        forall|k: int|
            0 <= k < target_writes_spec(text, level, targets).len() && target_writes_spec(
                text,
                level,
                targets,
            )[k].target is File ==> plain_text(target_writes_spec(text, level, targets)[k].text),
    decreases targets.len(),
{
    if targets.len() == 0 {
    } else {
        lemma_file_writes_are_plain(text, level, targets.drop_first());
        let tw = target_writes_spec(text, level, targets);
        let head: Seq<WriteOpData> = if passes_spec(targets[0], level) {
            seq![write_op_spec(targets[0], text, level)]
        } else {
            Seq::empty()
        };
        let tail = target_writes_spec(text, level, targets.drop_first());
        assert forall|k: int| 0 <= k < tw.len() && tw[k].target is File implies plain_text(
            tw[k].text,
        ) by {
            if k < head.len() {
                assert(tw[k] == write_op_spec(targets[0], text, level));
                if targets[0] is File {
                    lemma_strip_no_escape(text);
                }
            } else {
                assert(tw[k] == tail[k - head.len()]);
            }
        }
    }
}

/// A file target persists exactly the uncolored line: for a record whose
/// message and span context are plain text, the write handed to a file
/// target carries the plain rendering of the record, character for
/// character, even though the formatter injected color codes.
pub proof fn lemma_file_line_matches_plain_rendering(
    t: TargetData,
    r: crate::RecordData,
    position: SpanPosition,
)
    requires
        t is File,
        plain_text(r.message),
        forall|i: int| 0 <= i < r.context.len() ==> plain_text(r.context[i].0) && plain_text(
            r.context[i].1,
        ),
    ensures
        write_op_spec(t, format_spec(r, position), r.level).text == plain_format_spec(r, position),
{
    lemma_strip_restores_plain_rendering(r, position);
}

/// For each (message, target) pair that passes the target's filter, the
/// before-hooks fire exactly once each, in registration order, then the
/// write happens, then the after-hooks fire exactly once each, in
/// registration order; for a pair the filter rejects, no hook fires at
/// all.
pub proof fn lemma_hooks_fire_once_per_delivery(
    t: TargetData,
    text: Seq<char>,
    level: LogLevel,
    hooks: HookSystemData,
)
    ensures
        !passes_spec(t, level) ==> target_actions_spec(t, text, level, hooks) == Seq::<
            ActionData,
        >::empty(),
        passes_spec(t, level) ==> target_actions_spec(t, text, level, hooks).len()
            == hooks.before.len() + 1 + hooks.after.len(),
        passes_spec(t, level) ==> forall|k: int|
            0 <= k < hooks.before.len() ==> target_actions_spec(t, text, level, hooks)[k]
                == ActionData::Before(
                HookCallData { hook: hooks.before[k], level, target: id_spec(t) },
            ),
        passes_spec(t, level) ==> target_actions_spec(t, text, level, hooks)[hooks.before.len() as int]
            == ActionData::Write(write_op_spec(t, text, level)),
        passes_spec(t, level) ==> forall|k: int|
            0 <= k < hooks.after.len() ==> target_actions_spec(t, text, level, hooks)[hooks.before.len()
                + 1 + k] == ActionData::After(
                HookCallData { hook: hooks.after[k], level, target: id_spec(t) },
            ),
{
    if passes_spec(t, level) {
        let before = calls_spec(hooks.before, level, id_spec(t)).map_values(
            |c: HookCallData| ActionData::Before(c),
        );
        let write = seq![ActionData::Write(write_op_spec(t, text, level))];
        let after = calls_spec(hooks.after, level, id_spec(t)).map_values(
            |c: HookCallData| ActionData::After(c),
        );
        let block = target_actions_spec(t, text, level, hooks);
        assert(block == before + write + after);
        assert(before.len() == hooks.before.len());
        assert(after.len() == hooks.after.len());
        assert forall|k: int| 0 <= k < hooks.before.len() implies block[k] == ActionData::Before(
            HookCallData { hook: hooks.before[k], level, target: id_spec(t) },
        ) by {
            assert(block[k] == before[k]);
        }
        assert(block[hooks.before.len() as int] == write[0]);
        assert forall|k: int| 0 <= k < hooks.after.len() implies block[hooks.before.len() + 1 + k]
            == ActionData::After(
            HookCallData { hook: hooks.after[k], level, target: id_spec(t) },
        ) by {
            assert(block[hooks.before.len() + 1 + k] == after[k]);
        }
    }
}

/// Shutting down after N submissions delivers all N messages: the
/// drain's writes are exactly the queued messages' writes, in
/// submission order. A second shutdown finds the drained state, changes
/// nothing, and performs no work.
pub proof fn lemma_shutdown_drains_and_is_idempotent(l: LoggerData, hooks: HookSystemData)
    ensures
        writes_of(abort_actions_spec(l, hooks)) == queue_writes_spec(l.queue, l.config.targets),
        abort_state_spec(abort_state_spec(l)) == abort_state_spec(l),
        abort_actions_spec(abort_state_spec(l), hooks) == Seq::<ActionData>::empty(),
{
    lemma_delivery_in_submission_order(l.queue, l.config.targets, hooks);
}

} // verus!
