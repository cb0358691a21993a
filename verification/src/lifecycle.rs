//! Call lifecycle lines: one when a bridged call starts, one when it ends.
use vstd::prelude::*;

use crate::decimal;
use crate::text;

verus! {

/// The call lifecycle moments that are shipped as log lines.
#[derive(Debug, Clone, Copy)]
pub enum CallLifecycle<'a> {
    /// The call is bridged and its controller is starting. `route` is the
    /// matched route (inbound) or gateway (outbound), as the call's record
    /// has it.
    Started { route: &'a str, from: &'a str, to: &'a str },
    /// The call has been torn down. `cause` is the termination cause in the
    /// call's record; `duration_ms` its duration.
    Ended { cause: &'a str, duration_ms: u64 },
}

/// The token that the line of a lifecycle moment starts with.
pub open spec fn lifecycle_name(event: CallLifecycle<'_>) -> Seq<char> {
    match event {
        CallLifecycle::Started { .. } => "call_started"@,
        CallLifecycle::Ended { .. } => "call_ended"@,
    }
}

/// The fields of a lifecycle line, in order.
pub open spec fn lifecycle_fields(
    node_id: Seq<char>,
    call_id: Seq<char>,
    direction: Seq<char>,
    event: CallLifecycle<'_>,
) -> Seq<(Seq<char>, Seq<char>)> {
    match event {
        CallLifecycle::Started { route, from, to } => seq![
            ("call_id"@, call_id),
            ("direction"@, direction),
            ("node"@, node_id),
            ("route"@, route@),
            ("from"@, from@),
            ("to"@, to@),
        ],
        CallLifecycle::Ended { cause, duration_ms } => seq![
            ("call_id"@, call_id),
            ("direction"@, direction),
            ("node"@, node_id),
            ("cause"@, cause@),
            ("duration_ms"@, decimal::decimal(duration_ms as nat)),
        ],
    }
}

/// The line of a lifecycle moment.
pub open spec fn lifecycle_text(
    node_id: Seq<char>,
    call_id: Seq<char>,
    direction: Seq<char>,
    event: CallLifecycle<'_>,
) -> Seq<char> {
    text::line_text(
        lifecycle_name(event),
        lifecycle_fields(node_id, call_id, direction, event),
    )
}

/// Composes the line for a lifecycle moment: the event name, then the call id
/// of the bridge, the direction, the node, and what belongs to the moment.
///
/// Some of the values come off the wire. Whatever they hold, the result is one
/// line, and a reader gets back the event name and every value as it was.
pub fn call_lifecycle_line(
    node_id: &str,
    call_id: &str,
    direction: &str,
    event: CallLifecycle<'_>,
) -> (line: String)
    ensures
        line@ == lifecycle_text(node_id@, call_id@, direction@, event),
        text::is_one_line(line@),
        text::read_line(line@) == (
            lifecycle_name(event),
            lifecycle_fields(node_id@, call_id@, direction@, event),
        ),
        match event {
            CallLifecycle::Started { route, from, to } => text::read_line(line@) == (
                "call_started"@,
                seq![
                    ("call_id"@, call_id@),
                    ("direction"@, direction@),
                    ("node"@, node_id@),
                    ("route"@, route@),
                    ("from"@, from@),
                    ("to"@, to@),
                ],
            ),
            CallLifecycle::Ended { cause, duration_ms } => text::read_line(line@) == (
                "call_ended"@,
                seq![
                    ("call_id"@, call_id@),
                    ("direction"@, direction@),
                    ("node"@, node_id@),
                    ("cause"@, cause@),
                    ("duration_ms"@, decimal::decimal(duration_ms as nat)),
                ],
            ),
        },
{
    let ghost name = lifecycle_name(event);
    let ghost mut fields: Seq<(Seq<char>, Seq<char>)> = Seq::empty();
    let mut line = String::new();
    line.append(
        match event {
            CallLifecycle::Started { .. } => "call_started",
            CallLifecycle::Ended { .. } => "call_ended",
        },
    );
    assert(line@ =~= text::line_text(name, fields));
    text::push_field(&mut line, "call_id", call_id);
    proof {
        text::lemma_line_push(name, fields, "call_id"@, call_id@);
        fields = fields.push(("call_id"@, call_id@));
    }
    text::push_field(&mut line, "direction", direction);
    proof {
        text::lemma_line_push(name, fields, "direction"@, direction@);
        fields = fields.push(("direction"@, direction@));
    }
    text::push_field(&mut line, "node", node_id);
    proof {
        text::lemma_line_push(name, fields, "node"@, node_id@);
        fields = fields.push(("node"@, node_id@));
    }
    match event {
        CallLifecycle::Started { route, from, to } => {
            text::push_field(&mut line, "route", route);
            proof {
                text::lemma_line_push(name, fields, "route"@, route@);
                fields = fields.push(("route"@, route@));
            }
            text::push_field(&mut line, "from", from);
            proof {
                text::lemma_line_push(name, fields, "from"@, from@);
                fields = fields.push(("from"@, from@));
            }
            text::push_field(&mut line, "to", to);
            proof {
                text::lemma_line_push(name, fields, "to"@, to@);
                fields = fields.push(("to"@, to@));
            }
        },
        CallLifecycle::Ended { cause, duration_ms } => {
            text::push_field(&mut line, "cause", cause);
            proof {
                text::lemma_line_push(name, fields, "cause"@, cause@);
                fields = fields.push(("cause"@, cause@));
            }
            let duration = decimal::decimal_string(duration_ms);
            text::push_field(&mut line, "duration_ms", duration.as_str());
            proof {
                text::lemma_line_push(name, fields, "duration_ms"@, duration@);
                fields = fields.push(("duration_ms"@, duration@));
            }
        },
    }
    proof {
        assert(fields =~= lifecycle_fields(node_id@, call_id@, direction@, event));
        lemma_lifecycle_words(node_id@, call_id@, direction@, event);
        text::law_line_reads_back(name, fields);
    }
    line
}

/// The event names and the keys are plain tokens.
proof fn lemma_lifecycle_words(
    node_id: Seq<char>,
    call_id: Seq<char>,
    direction: Seq<char>,
    event: CallLifecycle<'_>,
)
    ensures
        text::is_plain(lifecycle_name(event)),
        ({
            let fields = lifecycle_fields(node_id, call_id, direction, event);
            forall|i: int| 0 <= i < fields.len() ==> text::is_plain((#[trigger] fields[i]).0)
        }),
{
    reveal_strlit("call_started");
    reveal_strlit("call_ended");
    reveal_strlit("call_id");
    reveal_strlit("direction");
    reveal_strlit("node");
    reveal_strlit("route");
    reveal_strlit("from");
    reveal_strlit("to");
    reveal_strlit("cause");
    reveal_strlit("duration_ms");
    assert(text::is_plain("call_started"@));
    assert(text::is_plain("call_ended"@));
    assert(text::is_plain("call_id"@));
    assert(text::is_plain("direction"@));
    assert(text::is_plain("node"@));
    assert(text::is_plain("route"@));
    assert(text::is_plain("from"@));
    assert(text::is_plain("to"@));
    assert(text::is_plain("cause"@));
    assert(text::is_plain("duration_ms"@));
}

/// Each value of a lifecycle moment stands under its own key, and nothing else
/// does, for every direction, node and call: the route under `route`, the
/// caller under `from`, the callee under `to`; the cause under `cause` and the
/// duration under `duration_ms`. A line of one kind has no key of the other.
pub proof fn law_lifecycle_values_stand_under_their_keys(
    node_id: Seq<char>,
    call_id: Seq<char>,
    direction: Seq<char>,
    event: CallLifecycle<'_>,
)
    ensures
        ({
            let fields = lifecycle_fields(node_id, call_id, direction, event);
            &&& lifecycle_text(node_id, call_id, direction, event) == text::line_text(
                lifecycle_name(event),
                fields,
            )
            &&& forall|v: Seq<char>| #[trigger]
                fields.contains(("call_id"@, v)) <==> v == call_id
            &&& forall|v: Seq<char>| #[trigger]
                fields.contains(("direction"@, v)) <==> v == direction
            &&& forall|v: Seq<char>| #[trigger] fields.contains(("node"@, v)) <==> v == node_id
            &&& match event {
                CallLifecycle::Started { route, from, to } => {
                    &&& lifecycle_name(event) == "call_started"@
                    &&& fields.len() == 6
                    &&& forall|v: Seq<char>| #[trigger]
                        fields.contains(("route"@, v)) <==> v == route@
                    &&& forall|v: Seq<char>| #[trigger]
                        fields.contains(("from"@, v)) <==> v == from@
                    &&& forall|v: Seq<char>| #[trigger] fields.contains(("to"@, v)) <==> v == to@
                },
                CallLifecycle::Ended { cause, duration_ms } => {
                    &&& lifecycle_name(event) == "call_ended"@
                    &&& fields.len() == 5
                    &&& forall|v: Seq<char>| #[trigger]
                        fields.contains(("cause"@, v)) <==> v == cause@
                    &&& forall|v: Seq<char>| #[trigger]
                        fields.contains(("duration_ms"@, v)) <==> v == decimal::decimal(
                            duration_ms as nat,
                        )
                },
            }
        }),
{
    lemma_lifecycle_keys_distinct();
    let fields = lifecycle_fields(node_id, call_id, direction, event);
    assert(fields[0] == ("call_id"@, call_id) && fields.contains(fields[0]));
    assert(fields[1] == ("direction"@, direction) && fields.contains(fields[1]));
    assert(fields[2] == ("node"@, node_id) && fields.contains(fields[2]));
    assert(fields.contains(fields[3]));
    assert(fields.contains(fields[4]));
    match event {
        CallLifecycle::Started { route, from, to } => {
            assert(fields[3] == ("route"@, route@));
            assert(fields[4] == ("from"@, from@));
            assert(fields[5] == ("to"@, to@) && fields.contains(fields[5]));
        },
        CallLifecycle::Ended { cause, duration_ms } => {
            assert(fields[3] == ("cause"@, cause@));
            assert(fields[4] == ("duration_ms"@, decimal::decimal(duration_ms as nat)));
        },
    }
}

/// The keys of a lifecycle line differ from one another.
proof fn lemma_lifecycle_keys_distinct()
    ensures
        "call_id"@.len() == 7,
        "direction"@.len() == 9,
        "node"@.len() == 4 && "from"@.len() == 4 && "node"@[0] != "from"@[0],
        "route"@.len() == 5,
        "to"@.len() == 2,
        "cause"@.len() == 5,
        "duration_ms"@.len() == 11,
{
    reveal_strlit("call_id");
    reveal_strlit("direction");
    reveal_strlit("node");
    reveal_strlit("route");
    reveal_strlit("from");
    reveal_strlit("to");
    reveal_strlit("cause");
    reveal_strlit("duration_ms");
}

/// Each field answers to its own input: where two starting calls differ in the
/// caller alone, or in the callee alone, whatever the direction, their lines
/// differ in that one field alone.
pub proof fn law_one_value_changes_one_field(
    node_id: Seq<char>,
    call_id: Seq<char>,
    direction: Seq<char>,
    route: &str,
    from_a: &str,
    from_b: &str,
    to_a: &str,
    to_b: &str,
)
    ensures
        ({
            let fields = lifecycle_fields(
                node_id,
                call_id,
                direction,
                CallLifecycle::Started { route, from: from_a, to: to_a },
            );
            let other_from = lifecycle_fields(
                node_id,
                call_id,
                direction,
                CallLifecycle::Started { route, from: from_b, to: to_a },
            );
            let other_to = lifecycle_fields(
                node_id,
                call_id,
                direction,
                CallLifecycle::Started { route, from: from_a, to: to_b },
            );
            &&& other_from == fields.update(4, ("from"@, from_b@))
            &&& other_to == fields.update(5, ("to"@, to_b@))
        }),
{
}

/// Two lifecycle moments that say the same.
pub open spec fn same_moment(a: CallLifecycle<'_>, b: CallLifecycle<'_>) -> bool {
    match (a, b) {
        (
            CallLifecycle::Started { route: r1, from: f1, to: t1 },
            CallLifecycle::Started { route: r2, from: f2, to: t2 },
        ) => r1@ == r2@ && f1@ == f2@ && t1@ == t2@,
        (
            CallLifecycle::Ended { cause: c1, duration_ms: d1 },
            CallLifecycle::Ended { cause: c2, duration_ms: d2 },
        ) => c1@ == c2@ && d1 == d2,
        _ => false,
    }
}

/// Lifecycle lines are unambiguous: where two composed lines are the same
/// text, they tell of the same call on the same node at the same moment, with
/// the same values. What is required of each line is what
/// [`call_lifecycle_line`] ensures of every line that it composes.
pub proof fn law_lifecycle_lines_are_unambiguous(
    node_a: Seq<char>,
    call_a: Seq<char>,
    direction_a: Seq<char>,
    event_a: CallLifecycle<'_>,
    node_b: Seq<char>,
    call_b: Seq<char>,
    direction_b: Seq<char>,
    event_b: CallLifecycle<'_>,
)
    requires
        text::read_line(lifecycle_text(node_a, call_a, direction_a, event_a)) == (
            lifecycle_name(event_a),
            lifecycle_fields(node_a, call_a, direction_a, event_a),
        ),
        text::read_line(lifecycle_text(node_b, call_b, direction_b, event_b)) == (
            lifecycle_name(event_b),
            lifecycle_fields(node_b, call_b, direction_b, event_b),
        ),
        lifecycle_text(node_a, call_a, direction_a, event_a) == lifecycle_text(
            node_b,
            call_b,
            direction_b,
            event_b,
        ),
    ensures
        node_a == node_b,
        call_a == call_b,
        direction_a == direction_b,
        same_moment(event_a, event_b),
{
    reveal_strlit("call_started");
    reveal_strlit("call_ended");
    let a = lifecycle_fields(node_a, call_a, direction_a, event_a);
    let b = lifecycle_fields(node_b, call_b, direction_b, event_b);
    assert(a == b);
    assert(a[0] == ("call_id"@, call_a) && b[0] == ("call_id"@, call_b));
    assert(a[1] == ("direction"@, direction_a) && b[1] == ("direction"@, direction_b));
    assert(a[2] == ("node"@, node_a) && b[2] == ("node"@, node_b));
    match (event_a, event_b) {
        (
            CallLifecycle::Started { route: r1, from: f1, to: t1 },
            CallLifecycle::Started { route: r2, from: f2, to: t2 },
        ) => {
            assert(a[3].1 == r1@ && b[3].1 == r2@);
            assert(a[4].1 == f1@ && b[4].1 == f2@);
            assert(a[5].1 == t1@ && b[5].1 == t2@);
        },
        (
            CallLifecycle::Ended { cause: c1, duration_ms: d1 },
            CallLifecycle::Ended { cause: c2, duration_ms: d2 },
        ) => {
            assert(a[3].1 == c1@ && b[3].1 == c2@);
            assert(a[4].1 == decimal::decimal(d1 as nat));
            assert(b[4].1 == decimal::decimal(d2 as nat));
            decimal::lemma_decimal_tells_apart(d1 as nat, d2 as nat);
        },
        _ => {
            assert("call_started"@.len() != "call_ended"@.len());
        },
    }
}

} // verus!
