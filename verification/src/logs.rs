//! The log-streaming operation: the fixed parameters of the stream request,
//! the decision taken on each read from the log source, and the whole
//! session as a function of what the source and the output channel did.

use vstd::prelude::*;
use vstd::string::*;
use crate::error::{CommandError, ErrorSpec, prefixed};

verus! {

/// The parameters of a log-stream request: both standard output and
/// standard error are requested, with no tail limit, so the full history is
/// delivered.
pub struct LogsRequest {
    pub name: String,
    pub stdout: bool,
    pub stderr: bool,
    pub tail: String,
}

/// The log-stream request for the named container.
pub fn logs_request(name: String) -> (r: LogsRequest)
    ensures
        r.name == name,
        r.stdout,
        r.stderr,
        r.tail@ == "all"@,
{
    LogsRequest { name, stdout: true, stderr: true, tail: String::from_str("all") }
}

/// One read from the runtime's log source: the text of the next entry, or
/// the source's failure with its cause. The source ends by yielding nothing
/// further.
pub enum LogEvent {
    Line(String),
    StreamError(String),
}

/// What the streaming operation does with one read: deliver the entry's
/// text to the output channel, or abort the session with the given error.
pub enum LogAction {
    Deliver(String),
    Abort(CommandError),
}

/// The message reported when the log source fails with the given cause.
pub open spec fn stream_failure_message(cause: Seq<char>) -> Seq<char> {
    "Failed to fetch logs: "@ + cause
}

/// The message reported when the output channel refuses a delivery with the
/// given cause.
pub open spec fn emit_failure_message(cause: Seq<char>) -> Seq<char> {
    "Failed to emit log: "@ + cause
}

/// Decides what one read from the log source leads to: a line is delivered
/// verbatim, a source failure aborts the session with a runtime error.
pub fn on_log_event(ev: LogEvent) -> (a: LogAction)
    ensures
        ev matches LogEvent::Line(s) ==> a matches LogAction::Deliver(t) && t == s,
        ev matches LogEvent::StreamError(c) ==> a matches LogAction::Abort(e) && e@
            == ErrorSpec::Docker(stream_failure_message(c@)),
{
    match ev {
        LogEvent::Line(s) => LogAction::Deliver(s),
        LogEvent::StreamError(cause) => LogAction::Abort(
            CommandError::DockerError(prefixed("Failed to fetch logs: ", cause.as_str())),
        ),
    }
}

/// Decides what the output channel's answer to one delivery leads to: a
/// refused delivery aborts the session with a local error.
pub fn on_send_result(res: Result<(), String>) -> (out: Result<(), CommandError>)
    ensures
        res is Ok ==> out is Ok,
        res matches Err(c) ==> out matches Err(e) && e@ == ErrorSpec::Unexpected(
            emit_failure_message(c@),
        ),
{
    match res {
        Ok(()) => Ok(()),
        Err(cause) => Err(
            CommandError::UnexpectedError(prefixed("Failed to emit log: ", cause.as_str())),
        ),
    }
}

/// The lines a whole session delivers to the output channel, in arrival
/// order, given the source's reads in order and the channel's answer to
/// each successive delivery: delivery stops at the source's first failure
/// and at the channel's first refusal, whichever comes first.
pub open spec fn delivered_lines(events: Seq<LogEvent>, sends: Seq<Result<(), String>>) -> Seq<
    String,
>
    decreases events.len(),
{
    if events.len() == 0 {
        Seq::empty()
    } else {
        match events[0] {
            LogEvent::StreamError(_) => Seq::empty(),
            LogEvent::Line(s) => match sends[0] {
                Ok(_) => seq![s] + delivered_lines(events.drop_first(), sends.drop_first()),
                Err(_) => Seq::empty(),
            },
        }
    }
}

/// The result a whole session returns: success when the source ends
/// cleanly, a runtime error at the source's first failure, a local error at
/// the channel's first refusal.
pub open spec fn stream_outcome(events: Seq<LogEvent>, sends: Seq<Result<(), String>>) -> Result<
    (),
    ErrorSpec,
>
    decreases events.len(),
{
    if events.len() == 0 {
        Ok(())
    } else {
        match events[0] {
            LogEvent::StreamError(c) => Err(ErrorSpec::Docker(stream_failure_message(c@))),
            LogEvent::Line(_) => match sends[0] {
                Ok(_) => stream_outcome(events.drop_first(), sends.drop_first()),
                Err(c) => Err(ErrorSpec::Unexpected(emit_failure_message(c@))),
            },
        }
    }
}

/// The spec-level shape of a session's result.
pub open spec fn outcome_view(r: Result<(), CommandError>) -> Result<(), ErrorSpec> {
    match r {
        Ok(_) => Ok(()),
        Err(e) => Err(e@),
    }
}

/// Runs a whole streaming session over materialized data: each line is
/// delivered to the output channel in arrival order, one event per entry,
/// until the source ends, the source fails, or the channel refuses a
/// delivery. `sends[j]` is the channel's answer to the `j`-th delivery.
/// Returns the delivered lines and the session's result.
pub fn drive_log_stream(events: &Vec<LogEvent>, sends: &Vec<Result<(), String>>) -> (r: (
    Vec<String>,
    Result<(), CommandError>,
))
    requires
        sends@.len() >= events@.len(),
    ensures
        r.0@ == delivered_lines(events@, sends@),
        outcome_view(r.1) == stream_outcome(events@, sends@),
{
    let mut delivered: Vec<String> = Vec::new();
    let mut i: usize = 0;
    let mut j: usize = 0;
    proof {
        assert(events@.skip(0) =~= events@);
        assert(sends@.skip(0) =~= sends@);
        assert(delivered@ + delivered_lines(events@, sends@) =~= delivered_lines(events@, sends@));
    }
    while i < events.len()
        invariant
            0 <= j <= i <= events@.len(),
            sends@.len() >= events@.len(),
            delivered@.len() == j,
            delivered_lines(events@, sends@) == delivered@ + delivered_lines(
                events@.skip(i as int),
                sends@.skip(j as int),
            ),
            stream_outcome(events@, sends@) == stream_outcome(
                events@.skip(i as int),
                sends@.skip(j as int),
            ),
        decreases events@.len() - i,
    {
        proof {
            assert(events@.skip(i as int)[0] == events@[i as int]);
            assert(sends@.skip(j as int)[0] == sends@[j as int]);
        }
        match &events[i] {
            LogEvent::Line(s) => {
                match &sends[j] {
                    Ok(_) => {
                        proof {
                            let tail = delivered_lines(
                                events@.skip(i as int).drop_first(),
                                sends@.skip(j as int).drop_first(),
                            );
                            assert(events@.skip(i as int).drop_first() =~= events@.skip(
                                i as int + 1,
                            ));
                            assert(sends@.skip(j as int).drop_first() =~= sends@.skip(
                                j as int + 1,
                            ));
                            assert(delivered@ + (seq![*s] + tail) =~= delivered@.push(*s) + tail);
                        }
                        delivered.push(s.clone());
                        i = i + 1;
                        j = j + 1;
                    },
                    Err(c) => {
                        let e = CommandError::UnexpectedError(
                            prefixed("Failed to emit log: ", c.as_str()),
                        );
                        proof {
                            assert(delivered@ + Seq::<String>::empty() =~= delivered@);
                        }
                        return (delivered, Err(e));
                    },
                }
            },
            LogEvent::StreamError(c) => {
                let e = CommandError::DockerError(prefixed("Failed to fetch logs: ", c.as_str()));
                proof {
                    assert(delivered@ + Seq::<String>::empty() =~= delivered@);
                }
                return (delivered, Err(e));
            },
        }
    }
    proof {
        assert(events@.skip(events@.len() as int) =~= Seq::<LogEvent>::empty());
        assert(delivered@ + Seq::<String>::empty() =~= delivered@);
    }
    (delivered, Ok(()))
}

/// The text of a log line read from the source.
pub open spec fn line_text(ev: LogEvent) -> String
    recommends
        ev is Line,
{
    match ev {
        LogEvent::Line(s) => s,
        LogEvent::StreamError(c) => c,
    }
}

/// Law: when the source yields only lines and the channel accepts every
/// delivery, the session delivers every line, in arrival order, and
/// completes successfully.
pub proof fn lemma_clean_session(events: Seq<LogEvent>, sends: Seq<Result<(), String>>)
    requires
        sends.len() >= events.len(),
        forall|i: int| 0 <= i < events.len() ==> (#[trigger] events[i]) is Line,
        forall|j: int| 0 <= j < sends.len() ==> (#[trigger] sends[j]) is Ok,
    ensures
        delivered_lines(events, sends).len() == events.len(),
        forall|i: int| 0 <= i < events.len() ==> #[trigger] delivered_lines(events, sends)[i]
            == line_text(events[i]),
        stream_outcome(events, sends) is Ok,
    decreases events.len(),
{
    if events.len() > 0 {
        lemma_clean_session(events.drop_first(), sends.drop_first());
        let rest = delivered_lines(events.drop_first(), sends.drop_first());
        assert forall|i: int| 0 <= i < events.len() implies #[trigger] delivered_lines(
            events,
            sends,
        )[i] == line_text(events[i]) by {
            if i > 0 {
                assert(delivered_lines(events, sends)[i] == rest[i - 1]);
                assert(events.drop_first()[i - 1] == events[i]);
            }
        }
    }
}

/// Law: when the source yields `k` lines and then fails, and the channel
/// accepts every delivery, the session delivers exactly those `k` lines, in
/// arrival order, and then fails with the runtime's error; nothing after
/// the failure is delivered.
pub proof fn lemma_source_failure_session(
    events: Seq<LogEvent>,
    sends: Seq<Result<(), String>>,
    k: int,
    cause: String,
)
    requires
        sends.len() >= events.len(),
        0 <= k < events.len(),
        forall|i: int| 0 <= i < k ==> (#[trigger] events[i]) is Line,
        events[k] == LogEvent::StreamError(cause),
        forall|j: int| 0 <= j < sends.len() ==> (#[trigger] sends[j]) is Ok,
    ensures
        delivered_lines(events, sends).len() == k,
        forall|i: int| 0 <= i < k ==> #[trigger] delivered_lines(events, sends)[i] == line_text(
            events[i],
        ),
        stream_outcome(events, sends) == Err::<(), ErrorSpec>(
            ErrorSpec::Docker(stream_failure_message(cause@)),
        ),
    decreases k,
{
    if k > 0 {
        lemma_source_failure_session(events.drop_first(), sends.drop_first(), k - 1, cause);
        assert(events.drop_first()[k - 1] == events[k]);
        assert forall|i: int| 0 <= i < k implies #[trigger] delivered_lines(events, sends)[i]
            == line_text(events[i]) by {
            if i > 0 {
                assert(delivered_lines(events, sends)[i] == delivered_lines(
                    events.drop_first(),
                    sends.drop_first(),
                )[i - 1]);
                assert(events.drop_first()[i - 1] == events[i]);
            }
        }
    }
}

/// Law: when the source yields lines and the channel accepts the first `j`
/// deliveries but refuses the next, the session delivers exactly the first
/// `j` lines and then fails at once with a local error; nothing further is
/// delivered.
pub proof fn lemma_refused_delivery_session(
    events: Seq<LogEvent>,
    sends: Seq<Result<(), String>>,
    j: int,
    cause: String,
)
    requires
        sends.len() >= events.len(),
        0 <= j < events.len(),
        forall|i: int| 0 <= i <= j ==> (#[trigger] events[i]) is Line,
        forall|t: int| 0 <= t < j ==> (#[trigger] sends[t]) is Ok,
        sends[j] == Err::<(), String>(cause),
    ensures
        delivered_lines(events, sends).len() == j,
        forall|i: int| 0 <= i < j ==> #[trigger] delivered_lines(events, sends)[i] == line_text(
            events[i],
        ),
        stream_outcome(events, sends) == Err::<(), ErrorSpec>(
            ErrorSpec::Unexpected(emit_failure_message(cause@)),
        ),
    decreases j,
{
    if j > 0 {
        lemma_refused_delivery_session(events.drop_first(), sends.drop_first(), j - 1, cause);
        assert(sends.drop_first()[j - 1] == sends[j]);
        assert forall|i: int| 0 <= i < j implies #[trigger] delivered_lines(events, sends)[i]
            == line_text(events[i]) by {
            if i > 0 {
                assert(delivered_lines(events, sends)[i] == delivered_lines(
                    events.drop_first(),
                    sends.drop_first(),
                )[i - 1]);
                assert(events.drop_first()[i - 1] == events[i]);
            }
        }
    }
}

} // verus!
