//! The relay's cross-function guarantees, each proved from the contracts
//! the operations themselves carry.

use vstd::prelude::*;

use crate::db::{Db, RelayRecord, counterpart_in, link_issued, lemma_find_sender_side_none,
    lemma_find_recipient_side_at};
use crate::dialogue::{Dialogue, State, WaitNewMessage};
use crate::orchestrator::{DeliveryOutcome, DeliveryRequest, Feedback, Turn, delivery_settled,
    reply_turn, state_wait_turn};

verus! {

/// Link issuance is idempotent: issuing again for the same user returns
/// the very code issued before, and never alters who invited the user.
pub proof fn lemma_link_issue_idempotent(
    db0: Db,
    db1: Db,
    db2: Db,
    id: i64,
    inv1: Option<i64>,
    inv2: Option<i64>,
    now1: i64,
    now2: i64,
    c1: Seq<char>,
    c2: Seq<char>,
)
    requires
        db0.wf(),
        db1.wf(),
        db2.wf(),
        link_issued(db0, db1, id, inv1, now1, c1),
        link_issued(db1, db2, id, inv2, now2, c2),
    ensures
        c2 == c1,
        db2.has_user(id),
        db2.user(id).invited_by == if db0.has_user(id) {
            db0.user(id).invited_by
        } else {
            inv1
        },
{
    if db0.has_user(id) {
        let k = db0.user_index(id);
        db0.lemma_user_at(k);
        assert(db1.users_seq()[k].id == id);
        db1.lemma_user_at(k);
        assert(db1.user(id).link == db0.user(id).link);
        assert(db1.user(id).invited_by == db0.user(id).invited_by);
    } else {
        let k = db1.users_seq().len() - 1;
        db1.lemma_user_at(k);
        assert(db1.user(id).link@ == c1);
        assert(db1.user(id).invited_by == inv1);
    }
    assert(db1.has_user(id));
    let k1 = db1.user_index(id);
    db1.lemma_user_at(k1);
    assert(db2.users_seq()[k1].id == id);
    db2.lemma_user_at(k1);
    assert(db2.user(id).link == db1.user(id).link);
    assert(db2.user(id).invited_by == db1.user(id).invited_by);
}

/// A delivered relay threads back: when nothing in the ledger carries the
/// delivered pair on its sender side (delivered copies are the
/// transport's own messages, not anyone's originals), the recipient's
/// reply gesture on the delivered copy finds exactly the original sender
/// and message.
pub proof fn lemma_counterpart_round_trip(db: Db, k: int)
    requires
        db.wf(),
        0 <= k < db.records().len(),
        forall|i: int|
            0 <= i < db.records().len() ==> !((#[trigger] db.records()[i]).sender_id
                == db.records()[k].recipient_id && db.records()[i].sender_message_id
                == db.records()[k].recipient_message_id),
    ensures
        counterpart_in(
            db.records(),
            db.records()[k].recipient_id,
            db.records()[k].recipient_message_id,
        ) == Some((db.records()[k].sender_id, db.records()[k].sender_message_id)),
{
    let recs = db.records();
    let chat_id = recs[k].recipient_id;
    let message_id = recs[k].recipient_message_id;
    lemma_find_sender_side_none(recs, chat_id, message_id);
    assert forall|i: int|
        0 <= i < recs.len() && i != k implies !((#[trigger] recs[i]).recipient_id == chat_id
        && recs[i].recipient_message_id == message_id) by {
        if i < k {
            assert(!(recs[i].recipient_id == recs[k].recipient_id && recs[i].recipient_message_id
                == recs[k].recipient_message_id));
        } else {
            assert(!(recs[k].recipient_id == recs[i].recipient_id && recs[k].recipient_message_id
                == recs[i].recipient_message_id));
        }
    }
    lemma_find_recipient_side_at(recs, chat_id, message_id, k);
}

/// The awaited anonymous message, once delivered and settled, leaves
/// exactly one new ledger record — the sender's chat and message paired
/// with the recipient and the delivered copy — and the sender's chat back
/// in `Start`.
pub proof fn lemma_awaited_message_recorded(
    db0: Db,
    db1: Db,
    db2: Db,
    dlg0: Dialogue,
    dlg1: Dialogue,
    chat_id: i64,
    message_id: i32,
    wait: WaitNewMessage,
    now: i64,
    req: DeliveryRequest,
    did: i32,
    fb: Feedback,
)
    requires
        state_wait_turn(
            db0,
            db1,
            dlg0,
            dlg1,
            chat_id,
            message_id,
            None,
            wait,
            now,
            Ok(Turn::Deliver(req)),
        ),
        delivery_settled(db1, db2, req, DeliveryOutcome::Delivered(did), Ok(fb)),
    ensures
        db2.records() == db0.records().push(
            (RelayRecord {
                sender_id: chat_id,
                sender_message_id: message_id,
                recipient_id: wait.recipient_id,
                recipient_message_id: did,
            }),
        ),
        dlg1.state_of(chat_id) == State::Start,
{
    let code = choose|code: Seq<char>| link_issued(db0, db1, chat_id, None, now, code);
    assert(db1.records() == db0.records());
}

/// A failed delivery of the awaited anonymous message writes nothing: the
/// ledger stands as it was, and the sender's chat is nevertheless back in
/// `Start` — the attempt is consumed, not retried.
pub proof fn lemma_failed_wait_delivery_unrecorded(
    db0: Db,
    db1: Db,
    db2: Db,
    dlg0: Dialogue,
    dlg1: Dialogue,
    chat_id: i64,
    message_id: i32,
    wait: WaitNewMessage,
    now: i64,
    req: DeliveryRequest,
    fb: Feedback,
)
    requires
        state_wait_turn(
            db0,
            db1,
            dlg0,
            dlg1,
            chat_id,
            message_id,
            None,
            wait,
            now,
            Ok(Turn::Deliver(req)),
        ),
        delivery_settled(db1, db2, req, DeliveryOutcome::Failed, Ok(fb)),
    ensures
        db2.records() == db0.records(),
        dlg1.state_of(chat_id) == State::Start,
{
    let code = choose|code: Seq<char>| link_issued(db0, db1, chat_id, None, now, code);
    assert(db1.records() == db0.records());
}

/// A failed delivery of a threaded reply writes nothing at all: the store
/// after settling is exactly the store the reply was decided on (and the
/// chat was in `Start` to begin with, where it stays).
pub proof fn lemma_failed_reply_delivery_unrecorded(
    db: Db,
    db2: Db,
    chat_id: i64,
    message_id: i32,
    reply_to_message_id: i32,
    req: DeliveryRequest,
    fb: Feedback,
)
    requires
        reply_turn(db, chat_id, message_id, reply_to_message_id, Turn::Deliver(req)),
        delivery_settled(db, db2, req, DeliveryOutcome::Failed, Ok(fb)),
    ensures
        db2 == db,
{
}

} // verus!
