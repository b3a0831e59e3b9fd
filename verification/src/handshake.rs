use crate::announce::{acknowledgment, acknowledgment_bytes, announced_on_wire, announcement};
use crate::announce::{is_valid_name, rejection};
use crate::announce::{lemma_accepted_name_is_plain, lemma_announcement_on_wire};
use crate::announce::lemma_answers_on_wire;
use crate::archive::TransferRequestView;
use crate::error::TransferError;
use crate::naming::{destination_path, storage_name, Timestamp};
use crate::naming::lemma_storage_name_stays_in_directory;
use crate::receiver::{receiver_action, receiver_start, receiver_step};
use crate::receiver::{ReceiverActionView, ReceiverEventView, ReceiverPhase, ReceiverState};
use crate::sender::{sender_action, sender_start, sender_step};
use crate::sender::{SenderActionView, SenderEventView, SenderPhase, SenderState};
use vstd::prelude::*;
use vstd::utf8::{decode_utf8, encode_utf8};

verus! {

/// The receiving side after the reports `events`, taken in order.
pub open spec fn receiver_run(s: ReceiverState, events: Seq<ReceiverEventView>) -> ReceiverState
    decreases events.len(),
{
    if events.len() == 0 {
        s
    } else {
        receiver_step(receiver_run(s, events.drop_last()), events.last())
    }
}

/// The sending side after the reports `events`, taken in order.
pub open spec fn sender_run(s: SenderState, events: Seq<SenderEventView>) -> SenderState
    decreases events.len(),
{
    if events.len() == 0 {
        s
    } else {
        sender_step(sender_run(s, events.drop_last()), events.last())
    }
}

/// A receiving side moves one phase per report and never back: the number
/// of reports taken tells the phase, unless the session has closed. The
/// peer and the directory stay what they were.
pub proof fn lemma_receiver_progress(start: ReceiverState, events: Seq<ReceiverEventView>)
    requires
        start.phase == ReceiverPhase::AwaitAnnounce,
    ensures
        receiver_run(start, events).peer_ip == start.peer_ip,
        receiver_run(start, events).write_dir == start.write_dir,
        match receiver_run(start, events).phase {
            ReceiverPhase::AwaitAnnounce => events.len() == 0,
            ReceiverPhase::AckOk => events.len() == 1,
            ReceiverPhase::AckError => events.len() == 1,
            ReceiverPhase::Streaming => events.len() == 2,
            ReceiverPhase::Done { total_bytes } => events.len() >= 3,
            ReceiverPhase::Closed { error } => events.len() >= 1,
        },
    decreases events.len(),
{
    if events.len() > 0 {
        lemma_receiver_progress(start, events.drop_last());
    }
}

/// A sending side moves one phase per report and never back.
pub proof fn lemma_sender_progress(start: SenderState, events: Seq<SenderEventView>)
    requires
        start.phase == SenderPhase::Announcing,
    ensures
        sender_run(start, events).request == start.request,
        match sender_run(start, events).phase {
            SenderPhase::Announcing => events.len() == 0,
            SenderPhase::AwaitAck => events.len() == 1,
            SenderPhase::Streaming => events.len() == 2,
            SenderPhase::Done { total_bytes } => events.len() >= 3,
            SenderPhase::Failed { error } => events.len() >= 1,
        },
    decreases events.len(),
{
    if events.len() > 0 {
        lemma_sender_progress(start, events.drop_last());
    }
}

/// The receiver never reads payload before `OK` is out.
///
/// Take any reports at all and any point `k` of the run at which the
/// receiving side asks for the payload to be stored. Then exactly two
/// reports came before: the first was a message that announces a valid name,
/// upon which the session asked for the acknowledgment, and nothing else, to
/// be sent; the second was the report that this message was written and
/// flushed. The path asked for is the one derived from that name.
pub proof fn theorem_receiver_acknowledges_first(
    peer_ip: Seq<char>,
    write_dir: Seq<char>,
    events: Seq<ReceiverEventView>,
    k: int,
)
    requires
        0 <= k <= events.len(),
        receiver_action(receiver_run(receiver_start(peer_ip, write_dir), events.take(k))) is Store,
    ensures
        k == 2,
        events[0] is Message,
        announced_on_wire(events[0]->Message_bytes) is Some,
        receiver_action(receiver_run(receiver_start(peer_ip, write_dir), events.take(1)))
            == (ReceiverActionView::Send { message: acknowledgment() }),
        events[1] == ReceiverEventView::Sent,
        receiver_action(receiver_run(receiver_start(peer_ip, write_dir), events.take(2)))
            == (ReceiverActionView::Store {
            path: destination_path(
                write_dir,
                storage_name(
                    peer_ip,
                    announced_on_wire(events[0]->Message_bytes)->0,
                    events[0]->Message_received_at,
                ),
            ),
        }),
{
    let start = receiver_start(peer_ip, write_dir);
    lemma_receiver_progress(start, events.take(k));
    assert(k == 2);
    let two = events.take(2);
    let one = events.take(1);
    assert(two.drop_last() =~= one);
    assert(one.drop_last() =~= Seq::<ReceiverEventView>::empty());
    assert(two.last() == events[1]);
    assert(one.last() == events[0]);
    assert(receiver_run(start, one.drop_last()) == start);
    assert(receiver_run(start, one) == receiver_step(start, events[0]));
    assert(receiver_run(start, two) == receiver_step(receiver_run(start, one), events[1]));
}

/// Whatever is stored is stored directly in the write directory. When the
/// peer's address holds no path separator, the file that the receiving side
/// asks for is named by a storage name that holds none either and does not
/// begin with a dot: no announcement makes the receiver write elsewhere.
pub proof fn theorem_stored_file_stays_in_directory(
    peer_ip: Seq<char>,
    write_dir: Seq<char>,
    events: Seq<ReceiverEventView>,
    k: int,
)
    requires
        !peer_ip.contains('/'),
        0 <= k <= events.len(),
        receiver_action(receiver_run(receiver_start(peer_ip, write_dir), events.take(k))) is Store,
    ensures
        ({
            let path = receiver_action(
                receiver_run(receiver_start(peer_ip, write_dir), events.take(k)),
            )->Store_path;
            let name = storage_name(
                peer_ip,
                announced_on_wire(events[0]->Message_bytes)->0,
                events[0]->Message_received_at,
            );
            &&& path == destination_path(write_dir, name)
            &&& !name.contains('/')
            &&& name.len() >= 19
            &&& name[0] != '.'
        }),
{
    theorem_receiver_acknowledges_first(peer_ip, write_dir, events, k);
    let bytes = events[0]->Message_bytes;
    lemma_accepted_name_is_plain(decode_utf8(bytes));
    lemma_storage_name_stays_in_directory(
        peer_ip,
        announced_on_wire(bytes)->0,
        events[0]->Message_received_at,
    );
}

/// The sender never writes payload before it has read exactly `OK`.
///
/// Take any reports at all and any point `k` of the run at which the sending
/// side asks for the archive to be streamed. Then exactly two reports came
/// before: that the announcement was written and flushed, and then a response
/// of the two bytes `OK` and no others.
pub proof fn theorem_sender_waits_for_acknowledgment(
    request: TransferRequestView,
    events: Seq<SenderEventView>,
    k: int,
)
    requires
        0 <= k <= events.len(),
        sender_action(sender_run(sender_start(request), events.take(k))) is Stream,
    ensures
        k == 2,
        sender_action(sender_start(request)) == (SenderActionView::Send {
            message: announcement(request.announced_name),
        }),
        events[0] == SenderEventView::Sent,
        sender_action(sender_run(sender_start(request), events.take(1)))
            == SenderActionView::ReadResponse,
        events[1] == (SenderEventView::Response { bytes: acknowledgment_bytes() }),
{
    let start = sender_start(request);
    lemma_sender_progress(start, events.take(k));
    assert(k == 2);
    let two = events.take(2);
    let one = events.take(1);
    assert(two.drop_last() =~= one);
    assert(one.drop_last() =~= Seq::<SenderEventView>::empty());
    assert(two.last() == events[1]);
    assert(one.last() == events[0]);
    assert(sender_run(start, one.drop_last()) == start);
    assert(sender_run(start, one) == sender_step(start, events[0]));
    assert(sender_run(start, two) == sender_step(sender_run(start, one), events[1]));
}

/// No path is built from a message that is turned down: when the first
/// message announces no valid name, the session never has a destination and
/// never asks for anything to be stored, and it ends with a validation error.
pub proof fn theorem_rejection_builds_no_path(
    peer_ip: Seq<char>,
    write_dir: Seq<char>,
    events: Seq<ReceiverEventView>,
)
    requires
        events.len() >= 1,
        events[0] is Message,
        announced_on_wire(events[0]->Message_bytes) is None,
    ensures
        receiver_run(receiver_start(peer_ip, write_dir), events).destination == Seq::<char>::empty(),
        !(receiver_action(receiver_run(receiver_start(peer_ip, write_dir), events)) is Store),
        events.len() == 1 ==> receiver_action(
            receiver_run(receiver_start(peer_ip, write_dir), events),
        ) == (ReceiverActionView::Send { message: rejection() }),
        events.len() >= 2 ==> receiver_action(
            receiver_run(receiver_start(peer_ip, write_dir), events),
        ) == (ReceiverActionView::Shutdown { outcome: Err(TransferError::Validation) }),
    decreases events.len(),
{
    let start = receiver_start(peer_ip, write_dir);
    if events.len() == 1 {
        assert(events.drop_last() =~= Seq::<ReceiverEventView>::empty());
        assert(receiver_run(start, events.drop_last()) == start);
    } else {
        let before = events.drop_last();
        assert(before[0] == events[0]);
        theorem_rejection_builds_no_path(peer_ip, write_dir, before);
    }
}

/// Every path ends in a shutdown of the channel: after three reports,
/// whatever they are, each side has ended and asks for the shutdown, and a
/// side that ended earlier asks for it from then on.
pub proof fn theorem_every_path_ends_in_shutdown(
    peer_ip: Seq<char>,
    write_dir: Seq<char>,
    receiver_events: Seq<ReceiverEventView>,
    request: TransferRequestView,
    sender_events: Seq<SenderEventView>,
)
    ensures
        ({
            let r = receiver_run(receiver_start(peer_ip, write_dir), receiver_events);
            let s = sender_run(sender_start(request), sender_events);
            &&& receiver_events.len() >= 3 ==> receiver_action(r) is Shutdown
            &&& r.phase is Done || r.phase is Closed <==> receiver_action(r) is Shutdown
            &&& sender_events.len() >= 3 ==> sender_action(s) is Shutdown
            &&& s.phase is Done || s.phase is Failed <==> sender_action(s) is Shutdown
        }),
{
    lemma_receiver_progress(receiver_start(peer_ip, write_dir), receiver_events);
    lemma_sender_progress(sender_start(request), sender_events);
}

/// A session that has ended stays as it is, whatever is reported to it: a
/// channel is used for one handshake and one stream and never again.
pub proof fn lemma_ended_sessions_stay(
    r: ReceiverState,
    receiver_event: ReceiverEventView,
    s: SenderState,
    sender_event: SenderEventView,
)
    ensures
        r.phase is Done || r.phase is Closed ==> receiver_step(r, receiver_event) == r,
        s.phase is Done || s.phase is Failed ==> sender_step(s, sender_event) == s,
{
}

/// The two sides agree on the handshake. The receiver that reads what the
/// sender wrote for its request accepts it exactly when the announced name is
/// valid. The answer that it then sends is, on the wire, the one answer that
/// lets the sender go on to streaming; the answer that it sends otherwise
/// makes the sender give up with a handshake failure.
pub proof fn theorem_handshake_agrees(
    request: TransferRequestView,
    peer_ip: Seq<char>,
    write_dir: Seq<char>,
    received_at: Timestamp,
)
    ensures
        ({
            let sender = sender_step(sender_start(request), SenderEventView::Sent);
            let told = sender_action(sender_start(request))->Send_message;
            let receiver = receiver_step(
                receiver_start(peer_ip, write_dir),
                ReceiverEventView::Message { bytes: encode_utf8(told), received_at },
            );
            let answer = receiver_action(receiver)->Send_message;
            let after = sender_step(sender, SenderEventView::Response { bytes: encode_utf8(answer) });
            &&& sender_action(sender_start(request)) is Send
            &&& receiver_action(receiver) is Send
            &&& receiver.phase == ReceiverPhase::AckOk <==> is_valid_name(request.announced_name)
            &&& is_valid_name(request.announced_name) ==> {
                &&& after.phase == SenderPhase::Streaming
                &&& receiver.destination == destination_path(
                    write_dir,
                    storage_name(peer_ip, request.announced_name, received_at),
                )
            }
            &&& !is_valid_name(request.announced_name) ==> {
                &&& receiver.phase == ReceiverPhase::AckError
                &&& after.phase == SenderPhase::Failed { error: TransferError::Handshake }
            }
        }),
{
    lemma_announcement_on_wire(request.announced_name);
    lemma_answers_on_wire();
}

} // verus!
