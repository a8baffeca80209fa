//! What holds of every run of a session, whatever the engine replies.

use vstd::prelude::*;
use crate::codes::{LcDetailLevel, LcDxfVersion, LcError};
use crate::info_report::file_info_report;
use crate::raw::{LcFileInfo, LcValidationResult, file_info_of, validation_of};
use crate::report::plain;
use crate::session::{
    Command, Reply, RequestView, SessionView, Subject, begin, code_in, failure, failure_prefix,
    next, text_in,
};
use crate::validation_report::validation_report;

verus! {

/// The requests of a run that goes on from `state` with `request`
/// pending while `replies` come in: the pending request, then the
/// request that each reply leads to, up to the one that ends the run.
pub open spec fn requests_after(
    state: SessionView,
    request: RequestView,
    replies: Seq<Reply>,
) -> Seq<RequestView>
    decreases replies.len(),
{
    if request is Finish || replies.len() == 0 {
        seq![request]
    } else {
        let step = next(state, replies[0]);
        seq![request] + requests_after(step.0, step.1, replies.drop_first())
    }
}

/// The requests of the run of a command while `replies` come in.
pub open spec fn run(command: Command, replies: Seq<Reply>) -> Seq<RequestView> {
    requests_after(begin(command).0, begin(command).1, replies)
}

/// Whether a request is addressed to the engine.
pub open spec fn asks_engine(request: RequestView) -> bool {
    !(request is Print) && !(request is Finish)
}

/// Whether a reply to a request hands out a transient result of the
/// subject.
pub open spec fn hands_out(request: RequestView, reply: Reply, subject: Subject) -> bool {
    match subject {
        Subject::Info => request is GetFileInfo && reply matches Reply::Info(Some(_)),
        Subject::Validation => request is Validate && reply matches Reply::Validation(Some(_)),
    }
}

/// How often a run asks for the release of a subject.
pub open spec fn releases(requests: Seq<RequestView>, subject: Subject) -> nat
    decreases requests.len(),
{
    if requests.len() == 0 {
        0
    } else {
        releases(requests.drop_first(), subject) + (if requests[0] == (RequestView::Release {
            subject,
        }) {
            1nat
        } else {
            0nat
        })
    }
}

/// How often the engine hands out a subject in a run: the replies
/// answer the requests one by one, in order.
pub open spec fn hand_outs(
    requests: Seq<RequestView>,
    replies: Seq<Reply>,
    subject: Subject,
) -> nat
    decreases requests.len(),
{
    if requests.len() == 0 || replies.len() == 0 {
        0
    } else {
        hand_outs(requests.drop_first(), replies.drop_first(), subject) + (if hands_out(
            requests[0],
            replies[0],
            subject,
        ) {
            1nat
        } else {
            0nat
        })
    }
}

/// Whether `request` is what a session in `state` has pending.
pub open spec fn pending_in(state: SessionView, request: RequestView) -> bool {
    match state {
        SessionView::ProbingInput { .. } => request is DetectFormat,
        SessionView::ProbingOutput { .. } => request is DetectFormat,
        SessionView::Announcing { .. } => request is Print,
        SessionView::Converting => request is Convert,
        SessionView::AcquiringInfo { .. } => request is GetFileInfo,
        SessionView::AcquiringValidation { .. } => request is Validate,
        SessionView::Serializing { subject } => request == (RequestView::ToJson { subject }),
        SessionView::ReleasingSerialized { subject, .. } => request == (RequestView::Release {
            subject,
        }),
        SessionView::ReleasingString { .. } => request is ReleaseString,
        SessionView::Releasing { .. } => request is Release,
        SessionView::AskingVersion { .. } => request is EngineVersion,
        SessionView::AwaitingError { .. } => request is LastError,
        SessionView::Closing => request is Print,
        SessionView::Closed => request is Finish,
    }
}

/// The releases that a session in `state` with `request` pending still
/// has to account for: the one it is asking for right now, or the one
/// it owes for the transient result it holds.
pub open spec fn outstanding(state: SessionView, request: RequestView, subject: Subject) -> nat {
    if request == (RequestView::Release { subject }) || state == (SessionView::Serializing {
        subject,
    }) {
        1
    } else {
        0
    }
}

/// Fail fast on the version token. A conversion whose version token is
/// not a version makes one request only, the end of the run with the
/// rejection as its outcome; the engine is never asked anything.
pub proof fn bad_version_ends_run_at_once(command: Command, replies: Seq<Reply>)
    requires
        command matches Command::Convert { dxf_version, .. } && LcDxfVersion::parsed(dxf_version@)
            is None,
    ensures
        run(command, replies) == seq![failure(LcDxfVersion::rejection(command->dxf_version@))],
        forall|i: int| 0 <= i < run(command, replies).len() ==> !asks_engine(run(command, replies)[i]),
{
}

/// Fail fast on the detail token. An extraction whose detail token is
/// no detail level makes one request only, the end of the run with the
/// rejection as its outcome; the engine is never asked anything.
pub proof fn bad_detail_ends_run_at_once(command: Command, replies: Seq<Reply>)
    requires
        command matches Command::Info { detail, .. } && LcDetailLevel::parsed(detail@) is None,
    ensures
        run(command, replies) == seq![failure(LcDetailLevel::rejection(command->detail@))],
        forall|i: int| 0 <= i < run(command, replies).len() ==> !asks_engine(run(command, replies)[i]),
{
}

/// A session always has pending what its state says: so it begins, and
/// so every step leaves it.
pub proof fn state_and_request_agree(command: Command, state: SessionView, reply: Reply)
    ensures
        pending_in(begin(command).0, begin(command).1),
        pending_in(next(state, reply).0, next(state, reply).1),
{
}

/// Release follows at once. The request after a hand-out is the release
/// of what was handed out, or the request for its JSON form and then
/// the release; and nothing but a hand-out brings a release about.
pub proof fn release_follows_hand_out(
    state: SessionView,
    request: RequestView,
    reply: Reply,
    later: Reply,
    subject: Subject,
)
    requires
        pending_in(state, request),
    ensures
        hands_out(request, reply, subject) ==> {
            let step = next(state, reply);
            ||| step.1 == (RequestView::Release { subject })
            ||| (step.1 == (RequestView::ToJson { subject }) && next(step.0, later).1
                == (RequestView::Release { subject }))
        },
        next(state, reply).1 == (RequestView::Release { subject }) ==> hands_out(
            request,
            reply,
            subject,
        ) || state == (SessionView::Serializing { subject }),
        state == (SessionView::Serializing { subject }) ==> next(state, reply).1
            == (RequestView::Release { subject }),
{
}

proof fn releases_one(request: RequestView, subject: Subject)
    ensures
        releases(seq![request], subject) == (if request == (RequestView::Release { subject }) {
            1nat
        } else {
            0nat
        }),
{
    reveal_with_fuel(releases, 2);
    assert(seq![request].drop_first() =~= Seq::<RequestView>::empty());
}

proof fn step_keeps_balance(
    state: SessionView,
    request: RequestView,
    reply: Reply,
    subject: Subject,
)
    requires
        pending_in(state, request),
    ensures
        pending_in(next(state, reply).0, next(state, reply).1),
        outstanding(state, request, subject) + (if hands_out(request, reply, subject) {
            1nat
        } else {
            0nat
        }) == outstanding(next(state, reply).0, next(state, reply).1, subject) + (if request
            == (RequestView::Release { subject }) {
            1nat
        } else {
            0nat
        }),
{
}

proof fn releases_balance(
    state: SessionView,
    request: RequestView,
    replies: Seq<Reply>,
    subject: Subject,
)
    requires
        pending_in(state, request),
        requests_after(state, request, replies).last() is Finish,
    ensures
        releases(requests_after(state, request, replies), subject) == hand_outs(
            requests_after(state, request, replies),
            replies,
            subject,
        ) + outstanding(state, request, subject),
    decreases replies.len(),
{
    let trace = requests_after(state, request, replies);
    if request is Finish || replies.len() == 0 {
        assert(trace =~= seq![request]);
        assert(trace.drop_first() =~= Seq::<RequestView>::empty());
        releases_one(request, subject);
        assert(hand_outs(trace.drop_first(), replies.drop_first(), subject) == 0);
        assert(hand_outs(trace, replies, subject) == 0);
    } else {
        let reply = replies[0];
        let step = next(state, reply);
        let rest = requests_after(step.0, step.1, replies.drop_first());
        step_keeps_balance(state, request, reply, subject);
        assert(trace == seq![request] + rest);
        assert(trace.drop_first() =~= rest);
        assert(trace[0] == request);
        assert(rest.last() == trace.last());
        releases_balance(step.0, step.1, replies.drop_first(), subject);
        assert(releases(trace, subject) == releases(rest, subject) + (if request
            == (RequestView::Release { subject }) {
            1nat
        } else {
            0nat
        }));
        assert(hand_outs(trace, replies, subject) == hand_outs(
            rest,
            replies.drop_first(),
            subject,
        ) + (if hands_out(request, reply, subject) {
            1nat
        } else {
            0nat
        }));
    }
}

/// Scoped release. In every run that comes to its end, whatever the
/// command and whatever the engine replies, the release of a transient
/// result is asked for exactly as often as the engine hands one out.
pub proof fn every_hand_out_is_released_once(
    command: Command,
    replies: Seq<Reply>,
    subject: Subject,
)
    requires
        run(command, replies).last() is Finish,
    ensures
        releases(run(command, replies), subject) == hand_outs(
            run(command, replies),
            replies,
            subject,
        ),
{
    releases_balance(begin(command).0, begin(command).1, replies, subject);
}

proof fn ends_within(state: SessionView, request: RequestView, replies: Seq<Reply>, budget: nat)
    requires
        pending_in(state, request),
        steps_left(state) <= budget,
        replies.len() >= budget,
    ensures
        requests_after(state, request, replies).last() is Finish,
        requests_after(state, request, replies).len() <= budget + 1,
    decreases budget,
{
    if request is Finish || replies.len() == 0 {
    } else {
        let step = next(state, replies[0]);
        ends_within(step.0, step.1, replies.drop_first(), (budget - 1) as nat);
    }
}

/// The most replies a session in `state` can still take before its run
/// has ended.
pub open spec fn steps_left(state: SessionView) -> nat {
    match state {
        SessionView::ProbingInput { .. } => 5,
        SessionView::ProbingOutput { .. } => 4,
        SessionView::Announcing { .. } => 3,
        SessionView::Converting => 2,
        SessionView::AcquiringInfo { .. } => 5,
        SessionView::AcquiringValidation { .. } => 5,
        SessionView::Serializing { .. } => 4,
        SessionView::ReleasingSerialized { .. } => 3,
        SessionView::ReleasingString { .. } => 2,
        SessionView::Releasing { .. } => 2,
        SessionView::AskingVersion { .. } => 2,
        SessionView::AwaitingError { .. } => 1,
        SessionView::Closing => 1,
        SessionView::Closed => 0,
    }
}

/// Every run ends. Five replies bring any command to its end, so a run
/// makes six requests at most.
pub proof fn every_run_ends(command: Command, replies: Seq<Reply>)
    requires
        replies.len() >= 5,
    ensures
        run(command, replies).last() is Finish,
        run(command, replies).len() <= 6,
{
    ends_within(begin(command).0, begin(command).1, replies, 5);
}

/// The diagnostic is read at once and passed on as it is. The session
/// asks for the engine's diagnostic only as its next request after a
/// conversion that did not succeed or an extraction or validation that
/// handed out nothing, so no other call comes between the failure and
/// its diagnostic; and the run then ends in the operation's prefix
/// followed by the diagnostic, letter for letter.
pub proof fn diagnostic_is_read_at_once(
    state: SessionView,
    request: RequestView,
    reply: Reply,
    diagnostic: Reply,
)
    requires
        pending_in(state, request),
    ensures
        next(state, reply).1 is LastError <==> {
            ||| request is Convert && LcError::spec_from_code(code_in(reply)) != LcError::Success
            ||| request is GetFileInfo && !hands_out(request, reply, Subject::Info)
            ||| request is Validate && !hands_out(request, reply, Subject::Validation)
        },
        next(state, reply).0 matches SessionView::AwaitingError { operation } ==> next(
            next(state, reply).0,
            diagnostic,
        ).1 == failure(
            failure_prefix(operation) + (match text_in(diagnostic) {
                Some(t) => t,
                None => Seq::empty(),
            }),
        ),
{
}

/// Findings never fail a run. A validation that the engine carries out
/// ends well whatever it found: the run releases the result, prints the
/// report on it and ends with success, also where the verdict is
/// "invalid".
pub proof fn findings_do_not_fail_the_run(
    command: Command,
    raw: LcValidationResult,
    replies: Seq<Reply>,
)
    requires
        command matches Command::Validate { json, .. } && !json,
        replies.len() >= 3,
        replies[0] == Reply::Validation(Some(raw)),
    ensures
        run(command, replies) == seq![
            RequestView::Validate { path: command->Validate_input@ },
            RequestView::Release { subject: Subject::Validation },
            RequestView::Print {
                lines: validation_report(validation_of(raw), command->Validate_input@),
            },
            RequestView::Finish { outcome: Ok(()) },
        ],
{
    reveal_with_fuel(requests_after, 5);
}

/// What an extraction prints. An extraction that the engine carries out
/// releases the result, prints the report on it at the level asked for
/// and ends with success.
pub proof fn extraction_prints_the_report(
    command: Command,
    level: LcDetailLevel,
    raw: LcFileInfo,
    replies: Seq<Reply>,
)
    requires
        command matches Command::Info { detail, json, .. } && !json && LcDetailLevel::parsed(
            detail@,
        ) == Some(level),
        replies.len() >= 3,
        replies[0] == Reply::Info(Some(raw)),
    ensures
        run(command, replies) == seq![
            RequestView::GetFileInfo { path: command->Info_input@, detail: level },
            RequestView::Release { subject: Subject::Info },
            RequestView::Print { lines: file_info_report(file_info_of(raw), level) },
            RequestView::Finish { outcome: Ok(()) },
        ],
{
    reveal_with_fuel(requests_after, 5);
}

/// JSON passes through untouched. A run that asks for the JSON form
/// of what the engine hands out asks for it, gives back the result and
/// then the engine's string, prints exactly the text that the engine
/// made, and ends with success.
pub proof fn json_passes_through(
    command: Command,
    subject: Subject,
    json: Seq<char>,
    replies: Seq<Reply>,
)
    requires
        match subject {
            Subject::Info => command matches Command::Info { detail, json, .. } && json
                && LcDetailLevel::parsed(detail@) is Some,
            Subject::Validation => command matches Command::Validate { json, .. } && json,
        },
        replies.len() >= 5,
        hands_out(begin(command).1, replies[0], subject),
        text_in(replies[1]) == Some(json),
    ensures
        run(command, replies) == seq![
            begin(command).1,
            RequestView::ToJson { subject },
            RequestView::Release { subject },
            RequestView::ReleaseString,
            RequestView::Print { lines: seq![plain(json)] },
            RequestView::Finish { outcome: Ok(()) },
        ],
{
    reveal_with_fuel(requests_after, 7);
}

} // verus!
