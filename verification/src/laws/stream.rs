//! The message stream stays open, and nothing that was to be sent is forgotten.

use crate::envelope::EnvelopeView;
use crate::streaming::{
    backoff_base, backoff_base_secs, dispatch_incoming, worker_step, CmdView, EffectView, InputView,
    Notice, Phase, StreamCmd, StreamEvent, StreamResponse, StreamWorker, WorkerEffect, WorkerInput,
    WorkerView,
};
use vstd::prelude::*;

verus! {

/// A command that ends the worker.
pub open spec fn ends(cmd: CmdView) -> bool {
    cmd is Close || cmd is Shutdown
}

/// A report that the worker has to end on: such a command, or nobody to give one any more.
pub open spec fn told_to_end(input: InputView) -> bool {
    ||| input is CommandsClosed
    ||| (input matches WorkerInput::Cmd(cmd) && ends(cmd))
    ||| (input matches WorkerInput::Polled { cmd: Some(cmd), .. } && ends(cmd))
}

/// The worker ends only where it was told to, or where nobody can tell it anything any more; it
/// has the caller stop exactly then, after the word that the stream is gone.
pub proof fn law_the_worker_ends_only_when_told(w: WorkerView, input: InputView)
    requires
        w.phase != Phase::Stopped,
    ensures
        ({
            let (after, effects) = worker_step(w, input);
            &&& after.phase == Phase::Stopped ==> told_to_end(input)
            &&& after.phase == Phase::Stopped <==> effects.contains(EffectView::Stop)
            &&& after.phase == Phase::Stopped ==> effects == seq![
                EffectView::Tell(Notice::Disconnected),
                EffectView::Stop,
            ]
        }),
{
    let (after, effects) = worker_step(w, input);
    if after.phase == Phase::Stopped {
        assert(effects[1] == EffectView::Stop);
    }
}

/// Wherever the worker waits for a command it ends at once when told to, and while it waits for
/// the outcome of a request it does not look at commands.
pub proof fn law_the_worker_ends_when_told(w: WorkerView, input: InputView)
    requires
        told_to_end(input),
    ensures
        w.phase == Phase::Live && input !is Polled ==> worker_step(w, input).0.phase
            == Phase::Stopped,
        w.phase == Phase::Backoff && input !is Polled ==> worker_step(w, input).0.phase
            == Phase::Stopped,
        w.phase == Phase::Polling && input !is Cmd ==> worker_step(w, input).0.phase
            == Phase::Stopped,
{
}

/// A report that the stream could not be opened, could not be sent on, or has ended.
pub open spec fn failure(phase: Phase, input: InputView) -> bool {
    match phase {
        Phase::Opening => input is OpenFailed,
        Phase::Beating | Phase::Sending | Phase::Subscribing => input is SendFailed,
        Phase::Live => input is FramesClosed,
        _ => false,
    }
}

/// Every failure leads to another attempt: the worker backs off, one failure more is counted,
/// the subscriptions stay, and what was queued stays queued, with an envelope that came back
/// behind it. Where the stream was open, it is let go of and the program is told.
pub proof fn law_every_failure_leads_to_another_attempt(w: WorkerView, input: InputView)
    requires
        failure(w.phase, input),
        w.attempt < u32::MAX,
    ensures
        ({
            let (after, effects) = worker_step(w, input);
            let wait = EffectView::Backoff {
                attempt: (w.attempt + 1) as u32,
                base_secs: backoff_base(w.attempt),
            };
            &&& after.phase == Phase::Backoff
            &&& after.attempt == w.attempt + 1
            &&& after.subscribed == w.subscribed
            &&& w.phase != Phase::Sending ==> after.pending == w.pending
            &&& w.phase == Phase::Sending && w.pending.len() < 256 ==> after.pending == (
            match input->SendFailed_envelope {
                Some(e) => w.pending.push(e),
                None => w.pending,
            })
            &&& w.phase != Phase::Opening ==> effects == seq![
                EffectView::Drop,
                EffectView::Tell(Notice::Disconnected),
                wait,
            ]
            &&& w.phase == Phase::Opening && input->unauthenticated ==> effects == seq![
                EffectView::Tell(Notice::AuthRequired),
                wait,
            ]
            &&& w.phase == Phase::Opening && !input->unauthenticated ==> effects == seq![wait]
        }),
{
    let (after, effects) = worker_step(w, input);
    let wait = EffectView::Backoff {
        attempt: (w.attempt + 1) as u32,
        base_secs: backoff_base(w.attempt),
    };
    if w.phase != Phase::Opening {
        assert(effects =~= seq![
            EffectView::Drop,
            EffectView::Tell(Notice::Disconnected),
            wait,
        ]);
    } else if input->unauthenticated {
        assert(effects =~= seq![EffectView::Tell(Notice::AuthRequired), wait]);
    } else {
        assert(effects =~= seq![wait]);
    }
}

/// A full queue makes room for what came back by dropping the oldest, and only that.
pub proof fn law_only_the_oldest_makes_room(w: WorkerView, e: EnvelopeView)
    requires
        w.phase == Phase::Sending,
        w.pending.len() == 256,
    ensures
        worker_step(w, WorkerInput::SendFailed { envelope: Some(e) }).0.pending
            == w.pending.drop_first().push(e),
{
}

/// After a wait the stream is opened anew, for all subscriptions and from the watermark on:
/// nothing of the queue or the subscriptions is lost on the way.
pub proof fn law_the_stream_is_opened_again(w: WorkerView, since: Option<Seq<char>>)
    requires
        w.phase == Phase::Backoff,
    ensures
        ({
            let (polling, poll) = worker_step(w, WorkerInput::Slept);
            let (opening, open) = worker_step(polling, WorkerInput::Polled { cmd: None, since });
            &&& poll == seq![EffectView::Poll]
            &&& open == seq![EffectView::Open { ids: w.subscribed, since }]
            &&& opening == (WorkerView { phase: Phase::Opening, ..w })
        }),
{
}

/// While the stream is not open, an envelope waits behind those that wait already, and a new list
/// of subscriptions takes the place of the old one. A wait is cut short by either.
pub proof fn law_commands_are_noted_offline(
    w: WorkerView,
    e: EnvelopeView,
    ids: Seq<Seq<char>>,
    from: Option<Seq<char>>,
    since: Option<Seq<char>>,
)
    requires
        w.pending.len() < 256,
    ensures
        w.phase == Phase::Polling ==> {
            let send = WorkerInput::Polled { cmd: Some(StreamCmd::Send(e)), since };
            let subscribe = WorkerInput::Polled {
                cmd: Some(StreamCmd::Subscribe(ids, from)),
                since,
            };
            &&& worker_step(w, send) == (
                WorkerView { phase: Phase::Opening, pending: w.pending.push(e), ..w },
                seq![EffectView::Open { ids: w.subscribed, since }],
            )
            &&& worker_step(w, subscribe) == (
                WorkerView { phase: Phase::Opening, subscribed: ids, ..w },
                seq![EffectView::Open { ids, since }],
            )
        },
        w.phase == Phase::Backoff ==> {
            &&& worker_step(w, WorkerInput::Cmd(StreamCmd::Send(e))) == (
                WorkerView { phase: Phase::Polling, pending: w.pending.push(e), ..w },
                seq![EffectView::Poll],
            )
            &&& worker_step(w, WorkerInput::Cmd(StreamCmd::Subscribe(ids, from))) == (
                WorkerView { phase: Phase::Polling, subscribed: ids, ..w },
                seq![EffectView::Poll],
            )
        },
{
}

/// The worker and what it has had done after `rounds` reports that all went well.
pub open spec fn going_well(
    w: WorkerView,
    done: Seq<EffectView>,
    rounds: nat,
) -> (WorkerView, Seq<EffectView>)
    decreases rounds,
{
    if rounds == 0 {
        (w, done)
    } else {
        let (after, effects) = worker_step(w, WorkerInput::Sent);
        going_well(after, done + effects, (rounds - 1) as nat)
    }
}

proof fn lemma_queue_goes_out(w: WorkerView, done: Seq<EffectView>)
    requires
        w.phase == Phase::Flushing,
    ensures
        going_well(w, done, w.pending.len() + 1) == (
            WorkerView { phase: Phase::Beating, pending: Seq::empty(), attempt: 0, ..w },
            done + w.pending.map_values(|e: EnvelopeView| EffectView::Send(e)) + seq![
                EffectView::Tell(Notice::Connected),
                EffectView::Heartbeat,
            ],
        ),
    decreases w.pending.len(),
{
    let f = |e: EnvelopeView| EffectView::Send(e);
    let hello = seq![EffectView::Tell(Notice::Connected), EffectView::Heartbeat];
    let (after, effects) = worker_step(w, WorkerInput::Sent);
    if w.pending.len() == 0 {
        reveal_with_fuel(going_well, 2);
        assert(w.pending =~= Seq::empty());
        assert(done + w.pending.map_values(f) + hello =~= done + effects);
    } else {
        lemma_queue_goes_out(after, done + effects);
        let rest = w.pending.drop_first();
        assert(going_well(w, done, w.pending.len() + 1) == going_well(
            after,
            done + effects,
            w.pending.len(),
        ));
        assert(w.pending.map_values(f) =~= seq![EffectView::Send(w.pending[0])] + rest.map_values(
            f,
        ));
        assert(done + effects + rest.map_values(f) + hello =~= done + w.pending.map_values(f)
            + hello);
    }
}

/// When the stream is open, everything that waited goes out, oldest first, each once; then the
/// program is told, the first heartbeat goes out, and the failures are forgotten.
pub proof fn law_the_queue_goes_out_in_order(w: WorkerView)
    requires
        w.phase == Phase::Opening,
    ensures
        ({
            let (opened, first) = worker_step(w, WorkerInput::Opened);
            going_well(opened, first, w.pending.len()) == (
                WorkerView { phase: Phase::Beating, pending: Seq::empty(), attempt: 0, ..w },
                w.pending.map_values(|e: EnvelopeView| EffectView::Send(e)) + seq![
                    EffectView::Tell(Notice::Connected),
                    EffectView::Heartbeat,
                ],
            )
        }),
{
    let f = |e: EnvelopeView| EffectView::Send(e);
    let hello = seq![EffectView::Tell(Notice::Connected), EffectView::Heartbeat];
    let (opened, first) = worker_step(w, WorkerInput::Opened);
    if w.pending.len() == 0 {
        assert(w.pending =~= Seq::empty());
        assert(w.pending.map_values(f) + hello =~= first);
    } else {
        lemma_queue_goes_out(opened, first);
        let rest = w.pending.drop_first();
        assert(w.pending.map_values(f) =~= seq![EffectView::Send(w.pending[0])] + rest.map_values(
            f,
        ));
        assert(first + rest.map_values(f) + hello =~= w.pending.map_values(f) + hello);
    }
}

/// On a live stream an envelope goes out at once and as it is, a subscription replaces the one
/// before it, and a heartbeat goes out when it is time; when that is done, the worker waits again
/// and nothing else has changed.
pub proof fn law_a_live_stream_serves_commands(
    w: WorkerView,
    e: EnvelopeView,
    ids: Seq<Seq<char>>,
    since: Option<Seq<char>>,
)
    requires
        w.phase == Phase::Live,
    ensures
        ({
            let (sending, effects) = worker_step(w, WorkerInput::Cmd(StreamCmd::Send(e)));
            &&& effects == seq![EffectView::Send(e)]
            &&& worker_step(sending, WorkerInput::Sent) == (w, seq![EffectView::Await])
        }),
        ({
            let (sending, effects) = worker_step(
                w,
                WorkerInput::Cmd(StreamCmd::Subscribe(ids, since)),
            );
            &&& effects == seq![EffectView::Subscribe { ids, since }]
            &&& worker_step(sending, WorkerInput::Sent) == (
                WorkerView { subscribed: ids, ..w },
                seq![EffectView::Await],
            )
        }),
        ({
            let (beating, effects) = worker_step(w, WorkerInput::Tick);
            &&& effects == seq![EffectView::Heartbeat]
            &&& worker_step(beating, WorkerInput::Sent) == (w, seq![EffectView::Await])
        }),
{
}

/// An envelope that is sent was given with a command just now, or is the first of the queue and
/// leaves it.
pub proof fn law_only_what_was_given_is_sent(w: WorkerView, input: InputView, e: EnvelopeView)
    requires
        worker_step(w, input).1.contains(EffectView::Send(e)),
    ensures
        input == InputView::Cmd(StreamCmd::Send(e)) || (w.pending.len() > 0 && w.pending[0] == e
            && worker_step(w, input).0.pending == w.pending.drop_first()),
{
    let effects = worker_step(w, input).1;
    let i = choose|i: int| 0 <= i < effects.len() && effects[i] == EffectView::Send(e);
    assert(effects[i] == EffectView::Send(e));
}

/// The program is told that the stream is there exactly when the queue has gone out, or could not
/// be flushed any further; from then on the failures count anew.
pub proof fn law_connected_is_told_once_flushed(w: WorkerView, input: InputView)
    ensures
        worker_step(w, input).1.contains(EffectView::Tell(Notice::Connected)) <==> {
            ||| w.phase == Phase::Opening && input is Opened && w.pending.len() == 0
            ||| w.phase == Phase::Flushing && input is Sent && w.pending.len() == 0
            ||| w.phase == Phase::Flushing && input is SendFailed
        },
        worker_step(w, input).1.contains(EffectView::Tell(Notice::Connected)) ==> worker_step(
            w,
            input,
        ).0.attempt == 0,
        worker_step(w, input).1.contains(EffectView::Tell(Notice::AuthRequired)) <==> w.phase
            == Phase::Opening && input == (InputView::OpenFailed { unauthenticated: true }),
{
    let (after, effects) = worker_step(w, input);
    if after.phase == Phase::Beating && w.phase != Phase::Live && w.phase != Phase::Beating {
        assert(effects[0] == EffectView::Tell(Notice::Connected));
    }
    if w.phase == Phase::Opening && input == (InputView::OpenFailed { unauthenticated: true }) {
        assert(effects[0] == EffectView::Tell(Notice::AuthRequired));
    }
}

/// What the worker can be told in a phase.
pub open spec fn fits(phase: Phase, input: InputView) -> bool {
    match phase {
        Phase::Polling => input is Polled || input is CommandsClosed,
        Phase::Opening => input is Opened || input is OpenFailed,
        Phase::Flushing | Phase::Beating | Phase::Sending | Phase::Subscribing => input is Sent
            || input is SendFailed,
        Phase::Live => input is Tick || input is Cmd || input is CommandsClosed || input
            is FramesClosed,
        Phase::Backoff => input is Slept || input is Cmd || input is CommandsClosed,
        Phase::Stopped => false,
    }
}

/// A report that the worker does not wait for changes nothing and has nothing done; one that it
/// waits for always has something done.
pub proof fn law_only_what_is_waited_for_counts(w: WorkerView, input: InputView)
    ensures
        !fits(w.phase, input) ==> worker_step(w, input) == (w, Seq::<EffectView>::empty()),
        fits(w.phase, input) ==> worker_step(w, input).1.len() > 0,
{
}

/// The wait is a second at first, doubles with each of the next five failures, and is a minute
/// from the seventh on.
pub proof fn law_the_wait_doubles_up_to_a_minute(attempt: u32, r: u64)
    requires
        call_ensures(backoff_base_secs, (attempt,), r),
    ensures
        attempt == 0 ==> r == 1,
        attempt < 5 ==> backoff_base((attempt + 1) as u32) == 2 * r,
        attempt >= 6 ==> r == 60,
        r == backoff_base(attempt),
{
    reveal_with_fuel(crate::streaming::doubled, 7);
}

/// A worker starts with nothing queued and no failure, for the users it was given, and looks at
/// the commands first.
pub proof fn law_a_new_worker_looks_at_the_commands(
    users: Vec<String>,
    r: (StreamWorker, WorkerEffect),
    since: Option<Seq<char>>,
)
    requires
        call_ensures(StreamWorker::new, (users,), r),
    ensures
        r.1@ == EffectView::Poll,
        worker_step(r.0@, WorkerInput::Polled { cmd: None, since }).1 == seq![
            EffectView::Open { ids: users@.map_values(|s: String| s@), since },
        ],
        r.0@.pending.len() == 0,
        r.0@.attempt == 0,
{
}

/// What the server sends becomes an event with the same content and the cursor that came with
/// it; receipts, typing, presence and handing over become none.
pub proof fn law_responses_keep_their_content(
    response: Option<StreamResponse>,
    cursor: Option<String>,
    r: Option<StreamEvent>,
)
    requires
        call_ensures(dispatch_incoming, (response, cursor), r),
    ensures
        response matches Some(StreamResponse::Message(e)) ==> (r matches Some(
            StreamEvent::Message { envelope, stream_cursor },
        ) && envelope == e && stream_cursor == cursor),
        response matches Some(StreamResponse::Ack { message_id: id }) ==> (r matches Some(
            StreamEvent::Ack { message_id, stream_cursor },
        ) && message_id == id && stream_cursor == cursor),
        response matches Some(StreamResponse::HeartbeatAck { timestamp: t, server_timestamp: u })
            ==> (r matches Some(
            StreamEvent::Heartbeat { timestamp, server_timestamp, stream_cursor },
        ) && timestamp == t && server_timestamp == u && stream_cursor == cursor),
        response matches Some(
            StreamResponse::Error {
                message_id: id,
                error_code: code,
                error_message: text,
                retryable: again,
                retry_after_ms: after,
            },
        ) ==> (r matches Some(
            StreamEvent::StreamError {
                message_id,
                error_code,
                error_message,
                retryable,
                retry_after_ms,
                stream_cursor,
            },
        ) && message_id == id && error_code == code && error_message == text && retryable == again
            && retry_after_ms == after && stream_cursor == cursor),
        response is None || response->0 is Receipt || response->0 is Typing || response->0
            is Presence || response->0 is P2pHandoff ==> r is None,
{
}

} // verus!
