//! What holds of every session, whatever is asked of it and whatever the
//! backend answers.

use vstd::prelude::*;
use crate::backend::{BackendCall, CaptureRequest};
use crate::model::{
    honoured_at, no_stop_after, stage_after, stage_after_call, start_calls, start_result, stop_calls,
    Command, SessionState, SessionView, StartError,
};

verus! {

/// A stop on an idle session changes nothing: neither the state nor the
/// history, so the backend is not touched.
pub proof fn law_stop_while_idle_is_noop(session: SessionView)
    requires
        session.state == SessionState::Idle,
    ensures
        session.after_stop() == session,
{
}

/// Two stops in a row leave the session as one stop does: the second neither
/// ends nor releases anything.
pub proof fn law_stop_is_idempotent(session: SessionView)
    ensures
        session.after_stop().after_stop() == session.after_stop(),
        session.after_stop().state == SessionState::Idle,
{
}

/// A start on a recording session is rejected and changes nothing, whatever
/// the backend would have answered: no second handle is created.
pub proof fn law_start_while_recording_is_rejected(
    session: SessionView,
    request: CaptureRequest,
    began: bool,
)
    requires
        session.state == SessionState::Recording,
    ensures
        start_result(session.state, began) == Err::<(), StartError>(StartError::AlreadyRecording),
        session.after_start(request, began) == session,
{
}

/// A start that the backend declines leaves the session idle, and the handle
/// created for the attempt is released: the attempt adds one create, the
/// declined begin and one release to the history, in that order.
pub proof fn law_failed_start_releases_its_handle(session: SessionView, request: CaptureRequest)
    requires
        session.state == SessionState::Idle,
    ensures
        start_result(session.state, false) == Err::<(), StartError>(StartError::CaptureFailed),
        session.after_start(request, false).state == SessionState::Idle,
        session.after_start(request, false).history == session.history + seq![
            BackendCall::Create,
            BackendCall::Begin { request, began: false },
            BackendCall::Release,
        ],
{
}

/// One step of a session: the prefix of `commands` that ends before the last
/// call is the whole of `commands.drop_last()`, and shorter prefixes agree.
proof fn lemma_prefixes_of_drop_last(commands: Seq<Command>, index: int)
    requires
        0 <= index < commands.len(),
    ensures
        index < commands.len() - 1 ==> commands.drop_last().take(index) == commands.take(index),
        index == commands.len() - 1 ==> commands.take(index) == commands.drop_last(),
{
    if index < commands.len() - 1 {
        assert(commands.drop_last().take(index) =~= commands.take(index));
    } else {
        assert(commands.take(index) =~= commands.drop_last());
    }
}

/// After any calls on a session that was idle, the session is recording
/// exactly when some start among them returned `Ok` and no stop came after
/// it.
pub proof fn law_recording_iff_started_and_not_stopped(pre: SessionView, commands: Seq<Command>)
    requires
        pre.state == SessionState::Idle,
    ensures
        pre.after_all(commands).state == SessionState::Recording <==> exists|index: int|
            0 <= index < commands.len() && #[trigger] honoured_at(pre, commands, index)
                && no_stop_after(commands, index),
    decreases commands.len(),
{
    if commands.len() > 0 {
        let earlier = commands.drop_last();
        let last_index = commands.len() - 1;
        let before_last = pre.after_all(earlier);
        law_recording_iff_started_and_not_stopped(pre, earlier);
        lemma_prefixes_of_drop_last(commands, last_index);
        assert forall|index: int| 0 <= index < last_index implies honoured_at(pre, commands, index)
            == honoured_at(pre, earlier, index) by {
            lemma_prefixes_of_drop_last(commands, index);
        }
        if pre.after_all(commands).state == SessionState::Recording {
            if before_last.state == SessionState::Recording {
                let index = choose|index: int|
                    0 <= index < earlier.len() && #[trigger] honoured_at(pre, earlier, index)
                        && no_stop_after(earlier, index);
                assert(!(commands[last_index] is Stop));
                assert(no_stop_after(commands, index)) by {
                    assert forall|later: int| index < later < commands.len() implies !(
                    #[trigger] commands[later] is Stop) by {
                        if later < last_index {
                            assert(earlier[later] == commands[later]);
                        }
                    }
                }
                assert(honoured_at(pre, commands, index));
            } else {
                assert(honoured_at(pre, commands, last_index));
                assert(no_stop_after(commands, last_index));
            }
        }
        if exists|index: int|
            0 <= index < commands.len() && #[trigger] honoured_at(pre, commands, index)
                && no_stop_after(commands, index) {
            let index = choose|index: int|
                0 <= index < commands.len() && #[trigger] honoured_at(pre, commands, index)
                    && no_stop_after(commands, index);
            if index < last_index {
                assert(!(commands[last_index] is Stop));
                assert(no_stop_after(earlier, index)) by {
                    assert forall|later: int| index < later < earlier.len() implies !(
                    #[trigger] earlier[later] is Stop) by {
                        assert(earlier[later] == commands[later]);
                    }
                }
                assert(honoured_at(pre, earlier, index));
                assert(before_last.state == SessionState::Recording);
            }
        }
    }
}

/// Whether every call of `commands` is a start.
pub open spec fn only_starts(commands: Seq<Command>) -> bool {
    forall|index: int| 0 <= index < commands.len() ==> #[trigger] commands[index] is Start
}

/// However many starts are made on an idle session, in whatever order they
/// get their turn, at most one of them returns `Ok`: once one has, every
/// later one is rejected as already recording, and the backend is not asked
/// again.
pub proof fn law_at_most_one_start_wins(pre: SessionView, commands: Seq<Command>, first: int, second: int)
    requires
        pre.state == SessionState::Idle,
        only_starts(commands),
        0 <= first < second < commands.len(),
        honoured_at(pre, commands, first),
    ensures
        !honoured_at(pre, commands, second),
        pre.after_all(commands.take(second)).state == SessionState::Recording,
        pre.after_all(commands.take(second + 1)) == pre.after_all(commands.take(second)),
{
    let upto = commands.take(second);
    assert(upto.take(first) =~= commands.take(first));
    assert(upto[first] == commands[first]);
    assert(honoured_at(pre, upto, first));
    assert(no_stop_after(upto, first)) by {
        assert forall|later: int| first < later < upto.len() implies !(#[trigger] upto[later] is Stop) by {
            assert(upto[later] == commands[later]);
        }
    }
    law_recording_iff_started_and_not_stopped(pre, upto);
    let through = commands.take(second + 1);
    assert(through.drop_last() =~= upto);
    assert(through.last() == commands[second]);
}

/// Where the backend grants every request, the first of any number of starts
/// on an idle session returns `Ok`, every other one is rejected as already
/// recording, and one handle is created in all: the history grows by the one
/// create and the one begin of the first start.
pub proof fn law_first_start_wins(pre: SessionView, commands: Seq<Command>)
    requires
        pre.state == SessionState::Idle,
        commands.len() > 0,
        forall|index: int|
            0 <= index < commands.len() ==> (#[trigger] commands[index] matches Command::Start {
                began,
                ..
            } && began),
    ensures
        honoured_at(pre, commands, 0),
        forall|index: int|
            0 < index < commands.len() ==> start_result(
                #[trigger] pre.after_all(commands.take(index)).state,
                true,
            ) == Err::<(), StartError>(StartError::AlreadyRecording),
        pre.after_all(commands).state == SessionState::Recording,
        pre.after_all(commands).history == pre.history + seq![
            BackendCall::Create,
            BackendCall::Begin { request: commands[0]->request, began: true },
        ],
    decreases commands.len(),
{
    assert(commands.take(0) =~= Seq::<Command>::empty());
    let earlier = commands.drop_last();
    if commands.len() == 1 {
        assert(earlier =~= Seq::<Command>::empty());
    } else {
        law_first_start_wins(pre, earlier);
        assert forall|index: int| 0 < index < commands.len() implies start_result(
            #[trigger] pre.after_all(commands.take(index)).state,
            true,
        ) == Err::<(), StartError>(StartError::AlreadyRecording) by {
            lemma_prefixes_of_drop_last(commands, index);
            if index < commands.len() - 1 {
                assert(pre.after_all(earlier.take(index)).state == SessionState::Recording);
            }
        }
    }
}

/// The stage after `history` followed by one more call.
proof fn lemma_stage_after_push(history: Seq<BackendCall>, call: BackendCall)
    ensures
        stage_after(history.push(call)) == match stage_after(history) {
            Some(stage) => stage_after_call(stage, call),
            None => None,
        },
{
    assert(history.push(call).drop_last() =~= history);
}

/// A start keeps the history in order: it asks nothing of the backend while
/// a handle is out, and what it asks on a new handle is create, then begin,
/// then release if capture was declined.
pub proof fn law_start_keeps_order(session: SessionView, request: CaptureRequest, began: bool)
    requires
        session.orderly(),
    ensures
        session.after_start(request, began).orderly(),
{
    if session.state == SessionState::Idle {
        let created = session.history.push(BackendCall::Create);
        let asked = created.push(BackendCall::Begin { request, began });
        lemma_stage_after_push(session.history, BackendCall::Create);
        lemma_stage_after_push(created, BackendCall::Begin { request, began });
        if began {
            assert(session.history + start_calls(request, began) =~= asked);
        } else {
            lemma_stage_after_push(asked, BackendCall::Release);
            assert(session.history + start_calls(request, began) =~= asked.push(BackendCall::Release));
        }
    }
}

/// A stop keeps the history in order: capture is ended once on the handle
/// that is out, which is then released, and nothing is asked while there is
/// no handle.
pub proof fn law_stop_keeps_order(session: SessionView)
    requires
        session.orderly(),
    ensures
        session.after_stop().orderly(),
{
    if session.state == SessionState::Recording {
        let ended = session.history.push(BackendCall::End);
        lemma_stage_after_push(session.history, BackendCall::End);
        lemma_stage_after_push(ended, BackendCall::Release);
        assert(session.history + stop_calls() =~= ended.push(BackendCall::Release));
    }
}

/// On a session on which nothing happened yet, the history is in order.
pub proof fn law_fresh_session_is_orderly()
    ensures
        SessionView::fresh().orderly(),
{
}

/// Whatever is asked of a session, and whatever the backend answers, the
/// primitives reach the backend in order: no handle is created while one is
/// out, none is used after its release, capture is ended at most once, every
/// handle on which capture did not begin is released at once, and the session
/// is recording exactly while one capturing handle is out.
pub proof fn law_history_stays_in_order(pre: SessionView, commands: Seq<Command>)
    requires
        pre.orderly(),
    ensures
        pre.after_all(commands).orderly(),
    decreases commands.len(),
{
    if commands.len() > 0 {
        let before_last = pre.after_all(commands.drop_last());
        law_history_stays_in_order(pre, commands.drop_last());
        match commands.last() {
            Command::Start { request, began } => law_start_keeps_order(before_last, request, began),
            Command::Stop => law_stop_keeps_order(before_last),
        }
    }
}

} // verus!
