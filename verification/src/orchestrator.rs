//! The relay orchestrator: classifies each inbound update against the
//! chat's dialogue state, decides the action, and settles store and state
//! against the delivery outcome.
//!
//! Delivery itself is the transport collaborator's job. A handler either
//! finishes a step (`Turn::Done`), or asks the caller to show the compose
//! prompt (`Turn::Prompt`, completed by [`confirm_prompt`]), or asks it to
//! relay content (`Turn::Deliver`, completed by [`settle_delivery`]). No
//! ledger record is ever written before a delivery has been confirmed.

use vstd::prelude::*;

use crate::RelayError;
use crate::db::{Db, RelayRecord, User, counterpart_in, link_issued};
use crate::dialogue::{Dialogue, State, WaitNewMessage};
use crate::link::UserLink;

verus! {

/// One inbound update from a chat, reduced to what the core decides on.
pub enum Event {
    /// The start command, with its (possibly empty) deep-link payload.
    Start {
        /// What followed the command; a link code when someone's link was
        /// opened, empty when the command was bare.
        payload: String,
    },
    /// A content message of any type.
    Content {
        /// Transport-local id of the message.
        message_id: i32,
        /// The message this one replies to, if the reply gesture was used.
        reply_to_message_id: Option<i32>,
    },
    /// A UI callback action.
    Callback {
        /// Which control was pressed.
        tag: CallbackTag,
        /// The message carrying the control, whose markup is to be
        /// retracted.
        message_id: Option<i32>,
    },
}

/// The recognised UI callback actions.
#[derive(Clone, Copy, Debug, PartialEq, Eq, Structural)]
pub enum CallbackTag {
    /// Abandon the pending anonymous message.
    Cancel,
    /// The "how do I reply" control; shows the hint once and suppresses
    /// the affordance from then on.
    ReplyTip,
    /// Anything else; ignored.
    Other,
}

/// The one user-visible explanation a finished step owes the triggering
/// chat.
pub enum Feedback {
    /// Greeting with the chat's own shareable link.
    Welcome(UserLink),
    /// The opened link resolved to nobody; the chat's own link is offered
    /// instead.
    LinkInvalid(UserLink),
    /// A stray content message arrived with nothing awaited; the chat's
    /// own link is offered.
    NotAwaited(UserLink),
    /// A reply gesture arrived while a fresh anonymous message was
    /// awaited; the message was not consumed.
    ReplyWhileWaiting,
    /// A threaded reply was delivered; a short acknowledgement suffices.
    Acknowledged,
    /// The awaited anonymous message was delivered; the chat's own link is
    /// offered alongside.
    Sent(UserLink),
    /// A threaded reply could not be delivered.
    DeliveryFailed,
    /// The awaited anonymous message could not be delivered; the chat's
    /// own link is offered alongside.
    SendFailed(UserLink),
    /// The reply gesture pointed at a message the ledger knows nothing
    /// about.
    OnlyReplyToRelayed,
    /// The pending anonymous message was abandoned; the chat's own link is
    /// offered.
    Cancelled(UserLink),
    /// Cancel pressed with nothing pending; only the control is retracted.
    CancelledIdle,
    /// The how-to-reply hint was shown; the affordance is now suppressed.
    ReplyTipShown,
    /// An unrecognised callback; nothing to do.
    Ignored,
}

/// The failure class a piece of feedback reports, if it reports one: the
/// invalid-link notice is a recovered `LinkNotFound`, the two delivery
/// failure notices a recovered `DeliveryFailure`, and a refused reply —
/// without counterpart, or during a wait — a recovered
/// `InvalidUserAction`. Everything else reports success or plain
/// information.
pub open spec fn feedback_class(feedback: Feedback) -> Option<RelayError> {
    match feedback {
        Feedback::LinkInvalid(_) => Some(RelayError::LinkNotFound),
        Feedback::DeliveryFailed => Some(RelayError::DeliveryFailure),
        Feedback::SendFailed(_) => Some(RelayError::DeliveryFailure),
        Feedback::OnlyReplyToRelayed => Some(RelayError::InvalidUserAction),
        Feedback::ReplyWhileWaiting => Some(RelayError::InvalidUserAction),
        _ => None,
    }
}

impl Feedback {
    /// Which failure of the taxonomy this explanation reports, if any;
    /// these failures are recovered locally and never escape as errors.
    pub fn classification(&self) -> (r: Option<RelayError>)
        ensures
            r == feedback_class(*self),
    {
        match self {
            Feedback::LinkInvalid(_) => Some(RelayError::LinkNotFound),
            Feedback::DeliveryFailed => Some(RelayError::DeliveryFailure),
            Feedback::SendFailed(_) => Some(RelayError::DeliveryFailure),
            Feedback::OnlyReplyToRelayed => Some(RelayError::InvalidUserAction),
            Feedback::ReplyWhileWaiting => Some(RelayError::InvalidUserAction),
            _ => None,
        }
    }
}

/// A delivery the transport collaborator is asked to perform: relay the
/// source message to the recipient, optionally threaded as a reply,
/// optionally carrying the reply affordance.
pub struct DeliveryRequest {
    /// Chat the content originates from.
    pub sender_id: i64,
    /// Transport-local id of the originating message.
    pub sender_message_id: i32,
    /// Chat to deliver to.
    pub recipient_id: i64,
    /// Deliver threaded under this message of the recipient's chat, if
    /// set.
    pub reply_to_message_id: Option<i32>,
    /// Whether to attach the "how to reply" affordance.
    pub attach_reply_tip: bool,
    /// Which path asked for the delivery, and what its outcome feedback
    /// carries.
    pub origin: RequestOrigin,
    /// Prompt message whose controls are to be retracted, for the
    /// awaiting-message path.
    pub clear_markup_message_id: Option<i32>,
}

/// Which path a delivery request came out of.
pub enum RequestOrigin {
    /// A reply gesture threaded through the ledger; outcome feedback is a
    /// bare acknowledgement or failure notice.
    ThreadedReply,
    /// The one awaited anonymous message; outcome feedback offers the
    /// sender their own link.
    AwaitedMessage {
        /// The sender's own link, shown alongside the outcome.
        sender_link: UserLink,
    },
}

/// What one handled update asks of the caller.
pub enum Turn {
    /// The step is settled; give the chat this one explanation and retract
    /// the named markup, if any.
    Done {
        /// The explanation owed to the triggering chat.
        feedback: Feedback,
        /// A message whose inline controls are to be retracted.
        clear_markup_message_id: Option<i32>,
    },
    /// Show the compose prompt for this recipient, then confirm with
    /// [`confirm_prompt`] under the prompt's message id.
    Prompt {
        /// Whom the composed message will be delivered to.
        recipient_id: i64,
    },
    /// Attempt the delivery, then settle with [`settle_delivery`].
    Deliver(DeliveryRequest),
}

/// What the transport reported back for an attempted delivery.
#[derive(Clone, Copy, Debug, PartialEq, Eq, Structural)]
pub enum DeliveryOutcome {
    /// The copy was delivered, under this transport-local message id.
    Delivered(i32),
    /// The transport failed, for whatever reason; never retried here.
    Failed,
}

/// The start-command step: own link on a bare command, a compose prompt
/// when the payload resolves, the invalid-link notice otherwise; the user
/// is registered (or touched) in every case.
pub open spec fn start_turn(
    pre: Db,
    post: Db,
    chat_id: i64,
    payload: Seq<char>,
    now: i64,
    r: Result<Turn, RelayError>,
) -> bool {
    match r {
        Result::Err(e) => e == RelayError::PersistenceError && post == pre && !pre.has_user(
            chat_id,
        ) && pre.users_seq().len() > 0,
        Result::Ok(t) => match t {
            Turn::Done { feedback, clear_markup_message_id } => {
                &&& clear_markup_message_id is None
                &&& match feedback {
                    Feedback::Welcome(l) => payload.len() == 0 && link_issued(
                        pre,
                        post,
                        chat_id,
                        None,
                        now,
                        l.0@,
                    ),
                    Feedback::LinkInvalid(l) => payload.len() > 0 && !pre.has_link(payload)
                        && link_issued(pre, post, chat_id, None, now, l.0@),
                    _ => false,
                }
            },
            Turn::Prompt { recipient_id } => {
                &&& payload.len() > 0
                &&& pre.has_user(recipient_id)
                &&& pre.user(recipient_id).link@ == payload
                &&& exists|code: Seq<char>|
                    link_issued(pre, post, chat_id, Some(recipient_id), now, code)
            },
            Turn::Deliver(_) => false,
        },
    }
}

/// Handles the start command. A bare command greets with the chat's own
/// link; a payload that resolves asks for the compose prompt and remembers
/// the resolved recipient as the inviter of a newly seen chat; a payload
/// that resolves to nobody is answered with the invalid-link notice and
/// the chat's own link. The dialogue state is not touched here: the wait
/// begins only once the prompt is up, via [`confirm_prompt`].
pub fn handle_command_start(db: &mut Db, chat_id: i64, payload: &str, now: i64) -> (r: Result<
    Turn,
    RelayError,
>)
    requires
        old(db).wf(),
    ensures
        final(db).wf(),
        start_turn(*old(db), *final(db), chat_id, payload@, now, r),
        old(db).has_user(chat_id) ==> r is Ok,
{
    if payload.is_empty() {
        match db.get_user_link(chat_id, None, now) {
            Ok(link) => Ok(Turn::Done { feedback: Feedback::Welcome(link), clear_markup_message_id: None }),
            Err(e) => Err(e),
        }
    } else {
        match db.user_id_by_link(payload) {
            Some(recipient_id) => {
                match db.get_user_link(chat_id, Some(recipient_id), now) {
                    Ok(_) => Ok(Turn::Prompt { recipient_id }),
                    Err(e) => Err(e),
                }
            },
            None => {
                match db.get_user_link(chat_id, None, now) {
                    Ok(link) => Ok(Turn::Done {
                        feedback: Feedback::LinkInvalid(link),
                        clear_markup_message_id: None,
                    }),
                    Err(e) => Err(e),
                }
            },
        }
    }
}

/// Begins the wait once the compose prompt is up: the chat now owes
/// exactly one content message for the recipient, and the prompt's
/// controls are remembered for retraction. Every other chat is untouched.
pub fn confirm_prompt(dlg: &mut Dialogue, chat_id: i64, recipient_id: i64, prompt_message_id: i32)
    requires
        old(dlg).wf(),
    ensures
        final(dlg).wf(),
        final(dlg).state_of(chat_id) == State::WaitNewMessage(
            (WaitNewMessage { recipient_id, clear_markup_message_id: prompt_message_id }),
        ),
        forall|c: i64| c != chat_id ==> final(dlg).state_of(c) == old(dlg).state_of(c),
{
    dlg.set(
        chat_id,
        State::WaitNewMessage(
            WaitNewMessage { recipient_id, clear_markup_message_id: prompt_message_id },
        ),
    );
}

/// The reply step decision: a counterpart found in the ledger becomes a
/// threaded delivery request toward it; a reply to anything else is an
/// invalid user action, answered with an explanation and nothing more.
pub open spec fn reply_turn(
    db: Db,
    chat_id: i64,
    message_id: i32,
    reply_to_message_id: i32,
    r: Turn,
) -> bool {
    match counterpart_in(db.records(), chat_id, reply_to_message_id) {
        None => r matches Turn::Done {
            feedback: Feedback::OnlyReplyToRelayed,
            clear_markup_message_id: None,
        },
        Some(p) => r matches Turn::Deliver(req) && req.sender_id == chat_id
            && req.sender_message_id == message_id && req.recipient_id == p.0
            && req.reply_to_message_id == Some(p.1) && db.has_user(p.0) && req.attach_reply_tip
            == db.user(p.0).answer_tip && req.origin is ThreadedReply
            && req.clear_markup_message_id is None,
    }
}

/// Decides a reply gesture observed in the `Start` state: looks the
/// replied-to message up in the ledger on either side and, when a
/// counterpart exists, asks for a threaded delivery toward it, carrying
/// the reply affordance exactly when the counterpart still has it
/// enabled. The store is only read.
pub fn process_reply(db: &Db, chat_id: i64, message_id: i32, reply_to_message_id: i32) -> (r: Turn)
    requires
        db.wf(),
    ensures
        reply_turn(*db, chat_id, message_id, reply_to_message_id, r),
{
    match db.find_another_message(chat_id, reply_to_message_id) {
        None => Turn::Done {
            feedback: Feedback::OnlyReplyToRelayed,
            clear_markup_message_id: None,
        },
        Some((counterpart_chat, counterpart_message)) => {
            proof {
                db.lemma_counterpart_registered(chat_id, reply_to_message_id);
            }
            let attach_reply_tip = match db.answer_tip_enabled(counterpart_chat) {
                Ok(enabled) => enabled,
                Err(_) => false,  // cannot happen: the counterpart is registered
            };
            Turn::Deliver(
                DeliveryRequest {
                    sender_id: chat_id,
                    sender_message_id: message_id,
                    recipient_id: counterpart_chat,
                    reply_to_message_id: Some(counterpart_message),
                    attach_reply_tip,
                    origin: RequestOrigin::ThreadedReply,
                    clear_markup_message_id: None,
                },
            )
        },
    }
}

/// The ordinary-traffic step: the chat is touched (or registered), then a
/// reply gesture is threaded through the ledger while anything else is
/// answered with the not-awaited hint and the chat's own link.
pub open spec fn state_start_turn(
    pre: Db,
    post: Db,
    chat_id: i64,
    message_id: i32,
    reply_to_message_id: Option<i32>,
    now: i64,
    r: Result<Turn, RelayError>,
) -> bool {
    match r {
        Result::Err(e) => e == RelayError::PersistenceError && post == pre && !pre.has_user(
            chat_id,
        ) && pre.users_seq().len() > 0,
        Result::Ok(t) => {
            &&& exists|code: Seq<char>| link_issued(pre, post, chat_id, None, now, code)
            &&& match reply_to_message_id {
                None => t matches Turn::Done {
                    feedback: Feedback::NotAwaited(l),
                    clear_markup_message_id: None,
                } && link_issued(pre, post, chat_id, None, now, l.0@),
                Some(rt) => reply_turn(post, chat_id, message_id, rt, t),
            }
        },
    }
}

/// Handles a content message in the `Start` state. The chat is touched
/// first, as every observed update refreshes activity. A message that
/// replies to another is threaded through the ledger; one that does not is
/// not delivered anywhere and earns the hint with the chat's own link.
pub fn handle_state_start(
    db: &mut Db,
    chat_id: i64,
    message_id: i32,
    reply_to_message_id: Option<i32>,
    now: i64,
) -> (r: Result<Turn, RelayError>)
    requires
        old(db).wf(),
    ensures
        final(db).wf(),
        state_start_turn(*old(db), *final(db), chat_id, message_id, reply_to_message_id, now, r),
        old(db).has_user(chat_id) ==> r is Ok,
{
    let link = match db.get_user_link(chat_id, None, now) {
        Ok(l) => l,
        Err(e) => {
            return Err(e);
        },
    };
    match reply_to_message_id {
        None => Ok(Turn::Done { feedback: Feedback::NotAwaited(link), clear_markup_message_id: None }),
        Some(rt) => Ok(process_reply(db, chat_id, message_id, rt)),
    }
}

/// The awaiting-message step: a reply gesture is rejected and consumes
/// nothing; any other content message consumes the wait — the state goes
/// back to `Start` whatever follows — and becomes a delivery request
/// toward the awaited recipient, or the failure notice when that
/// recipient is gone from the store.
pub open spec fn state_wait_turn(
    pre_db: Db,
    post_db: Db,
    pre_dlg: Dialogue,
    post_dlg: Dialogue,
    chat_id: i64,
    message_id: i32,
    reply_to_message_id: Option<i32>,
    wait: WaitNewMessage,
    now: i64,
    r: Result<Turn, RelayError>,
) -> bool {
    match r {
        Result::Err(e) => e == RelayError::PersistenceError && post_db == pre_db && post_dlg
            == pre_dlg && !pre_db.has_user(chat_id) && pre_db.users_seq().len() > 0,
        Result::Ok(t) => {
            &&& exists|code: Seq<char>| link_issued(pre_db, post_db, chat_id, None, now, code)
            &&& match reply_to_message_id {
                Some(_) => t matches Turn::Done {
                    feedback: Feedback::ReplyWhileWaiting,
                    clear_markup_message_id: None,
                } && post_dlg == pre_dlg,
                None => {
                    &&& post_dlg.state_of(chat_id) == State::Start
                    &&& forall|c: i64|
                        c != chat_id ==> post_dlg.state_of(c) == pre_dlg.state_of(c)
                    &&& if post_db.has_user(wait.recipient_id) {
                        t matches Turn::Deliver(req) && req.sender_id == chat_id
                            && req.sender_message_id == message_id && req.recipient_id
                            == wait.recipient_id && req.reply_to_message_id is None
                            && req.attach_reply_tip == post_db.user(wait.recipient_id).answer_tip
                            && (req.origin matches RequestOrigin::AwaitedMessage { sender_link }
                            && link_issued(pre_db, post_db, chat_id, None, now, sender_link.0@))
                            && req.clear_markup_message_id == Some(wait.clear_markup_message_id)
                    } else {
                        t matches Turn::Done {
                            feedback: Feedback::SendFailed(l),
                            clear_markup_message_id: Some(cm),
                        } && cm == wait.clear_markup_message_id && link_issued(
                            pre_db,
                            post_db,
                            chat_id,
                            None,
                            now,
                            l.0@,
                        )
                    }
                },
            }
        },
    }
}

/// Handles a content message while a fresh anonymous message is awaited.
/// A reply gesture is rejected outright and the wait stands unchanged,
/// with the same recipient. Anything else consumes the wait: the state
/// resets to `Start` at once — a failed delivery is not retried — and the
/// message becomes a delivery request toward the awaited recipient.
pub fn handle_state_wait(
    db: &mut Db,
    dlg: &mut Dialogue,
    chat_id: i64,
    message_id: i32,
    reply_to_message_id: Option<i32>,
    wait: WaitNewMessage,
    now: i64,
) -> (r: Result<Turn, RelayError>)
    requires
        old(db).wf(),
        old(dlg).wf(),
    ensures
        final(db).wf(),
        final(dlg).wf(),
        state_wait_turn(
            *old(db),
            *final(db),
            *old(dlg),
            *final(dlg),
            chat_id,
            message_id,
            reply_to_message_id,
            wait,
            now,
            r,
        ),
        old(db).has_user(chat_id) ==> r is Ok,
{
    let link = match db.get_user_link(chat_id, None, now) {
        Ok(l) => l,
        Err(e) => {
            return Err(e);
        },
    };
    if reply_to_message_id.is_some() {
        return Ok(
            Turn::Done { feedback: Feedback::ReplyWhileWaiting, clear_markup_message_id: None },
        );
    }
    dlg.reset(chat_id);
    match db.answer_tip_enabled(wait.recipient_id) {
        Ok(attach_reply_tip) => Ok(
            Turn::Deliver(
                DeliveryRequest {
                    sender_id: chat_id,
                    sender_message_id: message_id,
                    recipient_id: wait.recipient_id,
                    reply_to_message_id: None,
                    attach_reply_tip,
                    origin: RequestOrigin::AwaitedMessage { sender_link: link },
                    clear_markup_message_id: Some(wait.clear_markup_message_id),
                },
            ),
        ),
        Err(_) => Ok(
            Turn::Done {
                feedback: Feedback::SendFailed(link),
                clear_markup_message_id: Some(wait.clear_markup_message_id),
            },
        ),
    }
}

/// The settling of an attempted delivery: a failure changes nothing in
/// the store; a confirmed delivery appends exactly one ledger record
/// carrying the delivered message id, and the feedback matches the
/// request's origin.
pub open spec fn delivery_settled(
    pre: Db,
    post: Db,
    req: DeliveryRequest,
    outcome: DeliveryOutcome,
    r: Result<Feedback, RelayError>,
) -> bool {
    match outcome {
        DeliveryOutcome::Failed => {
            &&& post == pre
            &&& match r {
                Result::Ok(fb) => match req.origin {
                    RequestOrigin::ThreadedReply => fb is DeliveryFailed,
                    RequestOrigin::AwaitedMessage { sender_link } => fb matches Feedback::SendFailed(
                        l,
                    ) && l == sender_link,
                },
                Result::Err(_) => false,
            }
        },
        DeliveryOutcome::Delivered(did) => match r {
            Result::Ok(fb) => {
                &&& post.records() == pre.records().push(
                    (RelayRecord {
                        sender_id: req.sender_id,
                        sender_message_id: req.sender_message_id,
                        recipient_id: req.recipient_id,
                        recipient_message_id: did,
                    }),
                )
                &&& post.users_seq() == pre.users_seq()
                &&& match req.origin {
                    RequestOrigin::ThreadedReply => fb is Acknowledged,
                    RequestOrigin::AwaitedMessage { sender_link } => fb matches Feedback::Sent(l)
                        && l == sender_link,
                }
            },
            Result::Err(e) => {
                &&& e == RelayError::PersistenceError
                &&& post == pre
                &&& !(pre.has_user(req.sender_id) && pre.has_user(req.recipient_id)
                    && !pre.has_recipient_pair(req.recipient_id, did))
            },
        },
    }
}

/// Settles a delivery request against what the transport reported. Only a
/// confirmed delivery writes the ledger record — a failure writes nothing
/// and is not retried — and either way the sender is owed exactly the one
/// explanation returned.
pub fn settle_delivery(db: &mut Db, req: DeliveryRequest, outcome: DeliveryOutcome) -> (r: Result<
    Feedback,
    RelayError,
>)
    requires
        old(db).wf(),
    ensures
        final(db).wf(),
        delivery_settled(*old(db), *final(db), req, outcome, r),
{
    match outcome {
        DeliveryOutcome::Failed => match req.origin {
            RequestOrigin::ThreadedReply => Ok(Feedback::DeliveryFailed),
            RequestOrigin::AwaitedMessage { sender_link } => Ok(Feedback::SendFailed(sender_link)),
        },
        DeliveryOutcome::Delivered(delivered_message_id) => {
            match db.save_message(
                req.sender_id,
                req.sender_message_id,
                req.recipient_id,
                delivered_message_id,
            ) {
                Ok(_) => match req.origin {
                    RequestOrigin::ThreadedReply => Ok(Feedback::Acknowledged),
                    RequestOrigin::AwaitedMessage { sender_link } => Ok(
                        Feedback::Sent(sender_link),
                    ),
                },
                Err(e) => Err(e),
            }
        },
    }
}

/// The callback step: cancel abandons any pending wait and retracts the
/// pressed control; the reply-tip control shows the hint once and
/// suppresses the affordance for good; anything else is ignored.
pub open spec fn callback_turn(
    pre_db: Db,
    post_db: Db,
    pre_dlg: Dialogue,
    post_dlg: Dialogue,
    chat_id: i64,
    tag: CallbackTag,
    callback_message_id: Option<i32>,
    now: i64,
    r: Result<Turn, RelayError>,
) -> bool {
    match tag {
        CallbackTag::Cancel => match r {
            Result::Err(e) => e == RelayError::PersistenceError && post_db == pre_db && post_dlg
                == pre_dlg && !pre_db.has_user(chat_id) && pre_db.users_seq().len() > 0,
            Result::Ok(t) => {
                &&& post_dlg.state_of(chat_id) == State::Start
                &&& forall|c: i64| c != chat_id ==> post_dlg.state_of(c) == pre_dlg.state_of(c)
                &&& if pre_dlg.state_of(chat_id) is WaitNewMessage {
                    t matches Turn::Done { feedback: Feedback::Cancelled(l), clear_markup_message_id: cm }
                        && cm == callback_message_id && link_issued(
                        pre_db,
                        post_db,
                        chat_id,
                        None,
                        now,
                        l.0@,
                    )
                } else {
                    t matches Turn::Done {
                        feedback: Feedback::CancelledIdle,
                        clear_markup_message_id: cm,
                    } && cm == callback_message_id && post_db == pre_db
                }
            },
        },
        CallbackTag::ReplyTip => match r {
            Result::Err(_) => false,
            Result::Ok(t) => {
                &&& t matches Turn::Done {
                    feedback: Feedback::ReplyTipShown,
                    clear_markup_message_id: None,
                }
                &&& post_dlg == pre_dlg
                &&& post_db.records() == pre_db.records()
                &&& (pre_db.has_user(chat_id) ==> post_db.users_seq() == pre_db.users_seq().update(
                    pre_db.user_index(chat_id),
                    (User { answer_tip: false, ..pre_db.user(chat_id) }),
                ))
                &&& (!pre_db.has_user(chat_id) ==> post_db == pre_db)
            },
        },
        CallbackTag::Other => r matches Ok(t) && t matches Turn::Done {
            feedback: Feedback::Ignored,
            clear_markup_message_id: None,
        } && post_db == pre_db && post_dlg == pre_dlg,
    }
}

/// Handles a UI callback action. Cancel sends the chat back to `Start`
/// whatever it was doing, with the farewell (and the chat's own link)
/// only when a wait was actually pending; the reply-tip control disables
/// the affordance one-way; unrecognised tags do nothing.
pub fn handle_callback_query(
    db: &mut Db,
    dlg: &mut Dialogue,
    chat_id: i64,
    tag: CallbackTag,
    callback_message_id: Option<i32>,
    now: i64,
) -> (r: Result<Turn, RelayError>)
    requires
        old(db).wf(),
        old(dlg).wf(),
    ensures
        final(db).wf(),
        final(dlg).wf(),
        callback_turn(
            *old(db),
            *final(db),
            *old(dlg),
            *final(dlg),
            chat_id,
            tag,
            callback_message_id,
            now,
            r,
        ),
        forall|c: i64| c != chat_id ==> final(dlg).state_of(c) == old(dlg).state_of(c),
    {
    match tag {
        CallbackTag::Cancel => {
            let pending = dlg.get_or_default(chat_id);
            match pending {
                State::WaitNewMessage(_) => {
                    let link = match db.get_user_link(chat_id, None, now) {
                        Ok(l) => l,
                        Err(e) => {
                            return Err(e);
                        },
                    };
                    dlg.reset(chat_id);
                    Ok(
                        Turn::Done {
                            feedback: Feedback::Cancelled(link),
                            clear_markup_message_id: callback_message_id,
                        },
                    )
                },
                State::Start => {
                    dlg.reset(chat_id);
                    Ok(
                        Turn::Done {
                            feedback: Feedback::CancelledIdle,
                            clear_markup_message_id: callback_message_id,
                        },
                    )
                },
            }
        },
        CallbackTag::ReplyTip => {
            match db.disable_answer_tip(chat_id) {
                Ok(_) => Ok(
                    Turn::Done { feedback: Feedback::ReplyTipShown, clear_markup_message_id: None },
                ),
                Err(e) => Err(e),
            }
        },
        CallbackTag::Other => Ok(
            Turn::Done { feedback: Feedback::Ignored, clear_markup_message_id: None },
        ),
    }
}

/// Routes one inbound update as the dispatch table prescribes: the start
/// command is handled in any state; a content message goes by the chat's
/// current dialogue state; a callback action goes by its tag. Every other
/// chat's dialogue state is untouched.
pub fn handle_update(db: &mut Db, dlg: &mut Dialogue, chat_id: i64, event: &Event, now: i64) -> (r:
    Result<Turn, RelayError>)
    requires
        old(db).wf(),
        old(dlg).wf(),
    ensures
        final(db).wf(),
        final(dlg).wf(),
        forall|c: i64| c != chat_id ==> final(dlg).state_of(c) == old(dlg).state_of(c),
        match *event {
            Event::Start { payload } => *final(dlg) == *old(dlg) && start_turn(
                *old(db),
                *final(db),
                chat_id,
                payload@,
                now,
                r,
            ),
            Event::Content { message_id, reply_to_message_id } => match old(dlg).state_of(chat_id) {
                State::Start => *final(dlg) == *old(dlg) && state_start_turn(
                    *old(db),
                    *final(db),
                    chat_id,
                    message_id,
                    reply_to_message_id,
                    now,
                    r,
                ),
                State::WaitNewMessage(w) => state_wait_turn(
                    *old(db),
                    *final(db),
                    *old(dlg),
                    *final(dlg),
                    chat_id,
                    message_id,
                    reply_to_message_id,
                    w,
                    now,
                    r,
                ),
            },
            Event::Callback { tag, message_id } => callback_turn(
                *old(db),
                *final(db),
                *old(dlg),
                *final(dlg),
                chat_id,
                tag,
                message_id,
                now,
                r,
            ),
        },
{
    match event {
        Event::Start { payload } => handle_command_start(db, chat_id, payload.as_str(), now),
        Event::Content { message_id, reply_to_message_id } => {
            match dlg.get_or_default(chat_id) {
                State::Start => handle_state_start(
                    db,
                    chat_id,
                    *message_id,
                    *reply_to_message_id,
                    now,
                ),
                State::WaitNewMessage(w) => handle_state_wait(
                    db,
                    dlg,
                    chat_id,
                    *message_id,
                    *reply_to_message_id,
                    w,
                    now,
                ),
            }
        },
        Event::Callback { tag, message_id } => handle_callback_query(
            db,
            dlg,
            chat_id,
            *tag,
            *message_id,
            now,
        ),
    }
}

} // verus!
