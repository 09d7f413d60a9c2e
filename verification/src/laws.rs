//! What holds of every session, whatever it is fed.

use crate::event::GatewayEventView;
use crate::frame::{zlib_inflated, FrameView};
use crate::heartbeat::{interval_or_default, HeartbeatState, DEFAULT_HEARTBEAT_INTERVAL_MS};
use crate::message::{hello_interval, message_of, MessageKindView, MessageView};
use crate::payload::{GatewayPayloadView, OP_HELLO};
use crate::outbound::{heartbeat_frame, identify_frame};
use crate::session::{
    advance, awaiting_hello, idle_session, interpret, live, on_heartbeat_due, on_message, step,
    ActionView, ConnectionState, Input, SessionEventView, SessionView,
};
use vstd::prelude::*;

verus! {

/// `value` does not exceed `bound`, where no number at all is the lowest.
pub open spec fn at_least(bound: Option<u64>, value: Option<u64>) -> bool {
    match value {
        Some(number) => bound is Some && bound->0 >= number,
        None => true,
    }
}

/// `highest` is the maximum of `start` and the sequence numbers that
/// `messages` carry: it bounds them all and is one of them.
pub open spec fn is_highest(highest: Option<u64>, start: Option<u64>, messages: Seq<MessageView>) -> bool {
    &&& at_least(highest, start)
    &&& forall|i: int| 0 <= i < messages.len() ==> at_least(highest, #[trigger] messages[i].sequence)
    &&& (highest == start || exists|i: int|
        0 <= i < messages.len() && #[trigger] messages[i].sequence == highest)
}

/// The session after a run of envelopes, each taken in its turn.
pub open spec fn after_messages(session: SessionView, messages: Seq<MessageView>) -> SessionView
    decreases messages.len(),
{
    if messages.len() == 0 {
        session
    } else {
        on_message(after_messages(session, messages.drop_last()), messages.last()).0
    }
}

/// The session after `beats` ticks of the timer with nothing in between.
pub open spec fn after_beats(session: SessionView, beats: nat) -> SessionView
    decreases beats,
{
    if beats == 0 {
        session
    } else {
        on_heartbeat_due(after_beats(session, (beats - 1) as nat)).0
    }
}

/// What every session reached from an idle one satisfies: past the handshake
/// the hello has been recorded.
pub open spec fn consistent(session: SessionView) -> bool {
    (session.state == ConnectionState::Identified || session.state == ConnectionState::Active)
        ==> session.hello_received
}

/// A hello that names a cadence sets the scheduler to it; one that names none
/// sets the default. Either way the scheduler is started at that cadence and
/// the identify follows at once.
pub proof fn lemma_hello_sets_cadence(
    session: SessionView,
    sequence: Option<u64>,
    cadence: Option<u64>,
)
    requires
        awaiting_hello(session),
    ensures
        ({
            let hello = MessageView {
                sequence,
                kind: MessageKindView::Hello { heartbeat_interval: cadence },
            };
            let (next, actions) = step(session, Input::Decoded(Ok(hello)));
            &&& cadence is Some ==> next.heartbeat.interval_ms == cadence->0
            &&& cadence is None ==> next.heartbeat.interval_ms == DEFAULT_HEARTBEAT_INTERVAL_MS
            &&& next.heartbeat.acked
            &&& next.hello_received
            &&& actions == seq![
                ActionView::StartHeartbeat { interval_ms: interval_or_default(cadence) },
                ActionView::SendIdentify(identify_frame(session.token)),
            ]
        }),
{
}

/// The same of the hello as it stands on the wire: the cadence is the one that
/// its body names, or the default where the body names none.
pub proof fn lemma_hello_envelope_sets_cadence(session: SessionView, payload: GatewayPayloadView)
    requires
        awaiting_hello(session),
        payload.op == OP_HELLO,
    ensures
        step(session, Input::Decoded(Ok(message_of(payload)))).0.heartbeat.interval_ms
            == interval_or_default(hello_interval(payload.d)),
{
}

/// After any run of envelopes the last sequence is the maximum of the one
/// known before and those that the envelopes carried.
pub proof fn lemma_last_sequence_is_maximum(session: SessionView, messages: Seq<MessageView>)
    ensures
        is_highest(
            after_messages(session, messages).last_sequence,
            session.last_sequence,
            messages,
        ),
    decreases messages.len(),
{
    if messages.len() > 0 {
        let earlier = messages.drop_last();
        let before = after_messages(session, earlier).last_sequence;
        let after = after_messages(session, messages).last_sequence;
        lemma_last_sequence_is_maximum(session, earlier);
        assert(after == advance(before, messages.last().sequence));
        assert forall|i: int| 0 <= i < messages.len() implies at_least(
            after,
            #[trigger] messages[i].sequence,
        ) by {
            if i < earlier.len() {
                assert(earlier[i] == messages[i]);
            }
        }
        if after != session.last_sequence {
            if after == before {
                let i = choose|i: int| 0 <= i < earlier.len() && #[trigger] earlier[i].sequence == before;
                assert(messages[i].sequence == after);
            } else {
                assert(messages[messages.len() - 1].sequence == after);
            }
        }
    }
}

/// Where the sequence numbers arrive in order, the last sequence is simply
/// the one that arrived last.
pub proof fn lemma_last_sequence_is_latest(session: SessionView, message: MessageView)
    requires
        message.sequence is Some,
        at_least(message.sequence, session.last_sequence),
    ensures
        on_message(session, message).0.last_sequence == message.sequence,
{
}

/// No step lowers the last sequence, but the two that begin and end a
/// connection, which discard it.
pub proof fn lemma_last_sequence_never_falls(session: SessionView, input: Input)
    requires
        !(input is ConnectRequested),
        !(input is CleanupComplete),
    ensures
        at_least(step(session, input).0.last_sequence, session.last_sequence),
{
}

/// Heartbeats go on without acknowledgements: after any number of
/// unanswered ticks the session stands where it stood, and the next tick
/// sends the next heartbeat, after a warning from the second tick on.
pub proof fn lemma_heartbeats_go_on_unacknowledged(session: SessionView, beats: nat)
    requires
        live(session),
        session.hello_received,
    ensures
        after_beats(session, beats) == (SessionView {
            heartbeat: HeartbeatState {
                acked: beats == 0 && session.heartbeat.acked,
                ..session.heartbeat
            },
            ..session
        }),
        on_heartbeat_due(after_beats(session, beats)).1.last() == ActionView::SendHeartbeat(
            heartbeat_frame(session.last_sequence),
        ),
        beats >= 1 ==> on_heartbeat_due(after_beats(session, beats)).1 == seq![
            ActionView::WarnZombie,
            ActionView::SendHeartbeat(heartbeat_frame(session.last_sequence)),
        ],
    decreases beats,
{
    if beats > 0 {
        lemma_heartbeats_go_on_unacknowledged(session, (beats - 1) as nat);
    }
}

/// A binary frame takes the session where the text frame of what it inflates
/// to takes it, with the same actions.
pub proof fn lemma_binary_frame_steps_as_text(session: SessionView, bytes: Seq<u8>, text: Seq<char>)
    requires
        zlib_inflated(bytes) == Some(text),
    ensures
        step(session, interpret(SessionEventView::FrameReceived(FrameView::Binary(bytes)))) == step(
            session,
            interpret(SessionEventView::FrameReceived(FrameView::Text(text))),
        ),
{
}

/// A frame that does not decode costs a session past its hello nothing.
pub proof fn lemma_bad_frame_is_dropped(session: SessionView, error: crate::frame::FrameError)
    requires
        !awaiting_hello(session),
    ensures
        step(session, Input::Decoded(Err(error))) == (session, Seq::<ActionView>::empty()),
{
}

/// A session that is closing waits for the cleanup and hears nothing else;
/// the cleanup returns it to idle and reports the connection lost.
pub proof fn lemma_closing_ends_idle(session: SessionView, input: Input)
    requires
        session.state == ConnectionState::Closing,
    ensures
        !(input is CleanupComplete) ==> step(session, input) == (
            session,
            Seq::<ActionView>::empty(),
        ),
        input is CleanupComplete ==> step(session, input) == (
            idle_session(session.token),
            seq![
                ActionView::SetConnected(false),
                ActionView::Emit(GatewayEventView::Disconnected),
            ],
        ),
{
}

/// Every step keeps a consistent session consistent, and keeps its credential.
pub proof fn lemma_step_keeps_consistent(session: SessionView, input: Input)
    requires
        consistent(session),
    ensures
        consistent(step(session, input).0),
        step(session, input).0.token == session.token,
{
}

} // verus!
