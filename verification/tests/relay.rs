use anon_relay::db::Db;
use anon_relay::dialogue::{Dialogue, State, WaitNewMessage};
use anon_relay::link::UserLink;
use anon_relay::orchestrator::{
    confirm_prompt, handle_callback_query, handle_command_start, handle_state_start,
    handle_state_wait, handle_update, process_reply, settle_delivery, CallbackTag,
    DeliveryOutcome, Event, Feedback, RequestOrigin, Turn,
};
use anon_relay::RelayError;

const ALPHABET: &str = "abcdefghjkmnpqrstuvwxyz23456789";

fn code_of(db: &mut Db, id: i64, invited_by: Option<i64>, now: i64) -> String {
    let link = db
        .get_user_link(id, invited_by, now)
        .expect("registration should succeed");
    link.0
}

#[test]
fn issued_codes_are_eight_chars_from_the_alphabet() {
    let mut db = Db::new();
    for id in 1..6i64 {
        let code = code_of(&mut db, id, None, 0);
        assert_eq!(code.chars().count(), 8);
        assert!(code.chars().all(|c| ALPHABET.contains(c)));
    }
}

#[test]
fn distinct_users_get_distinct_codes() {
    // Registration of a second user must not exhaust the bounded retry:
    // that would mean sampling kept returning an already-issued code.
    let mut db = Db::new();
    let a = code_of(&mut db, 1, None, 0);
    let b = code_of(&mut db, 2, None, 0);
    let c = code_of(&mut db, 3, None, 0);
    assert_ne!(a, b);
    assert_ne!(a, c);
    assert_ne!(b, c);
}

#[test]
fn ensure_link_is_idempotent() {
    let mut db = Db::new();
    let first = code_of(&mut db, 7, Some(3), 10);
    let second = code_of(&mut db, 7, None, 20);
    let third = code_of(&mut db, 7, Some(99), 30);
    assert_eq!(first, second);
    assert_eq!(first, third);
    assert_eq!(db.users.len(), 1);
    // The inviter recorded at registration is never overwritten.
    assert_eq!(db.users[0].invited_by, Some(3));
    // Activity is refreshed on every call, first sighting kept.
    assert_eq!(db.users[0].first_activity, 10);
    assert_eq!(db.users[0].last_activity, 30);
}

#[test]
fn unissued_code_resolves_to_absence_not_error() {
    let mut db = Db::new();
    assert_eq!(db.user_id_by_link("abcd2345"), None);
    let code = code_of(&mut db, 1, None, 0);
    assert_eq!(db.user_id_by_link(&code), Some(1));
    assert_eq!(db.user_id_by_link("aaaaaaaa"), None);
}

#[test]
fn tme_url_embeds_the_code_as_start_parameter() {
    let link = UserLink(String::from("abcd2345"));
    assert_eq!(
        link.tme_url("https://t.me/somebot"),
        "https://t.me/somebot?start=abcd2345"
    );
}

#[test]
fn bare_start_greets_with_own_link() {
    let mut db = Db::new();
    let turn = handle_command_start(&mut db, 1, "", 0).expect("handled");
    match turn {
        Turn::Done {
            feedback: Feedback::Welcome(link),
            clear_markup_message_id: None,
        } => {
            assert_eq!(db.user_id_by_link(&link.0), Some(1));
        }
        _ => panic!("a bare start must greet with the chat's own link"),
    }
}

#[test]
fn unresolvable_payload_is_reported_with_own_link() {
    let mut db = Db::new();
    let turn = handle_command_start(&mut db, 1, "aaaaaaaa", 0).expect("handled");
    match &turn {
        Turn::Done {
            feedback,
            clear_markup_message_id: None,
        } => {
            assert_eq!(feedback.classification(), Some(RelayError::LinkNotFound));
            match feedback {
                Feedback::LinkInvalid(link) => {
                    assert_eq!(db.user_id_by_link(&link.0), Some(1));
                }
                _ => panic!("the notice must name the invalid link"),
            }
        }
        _ => panic!("an unresolvable payload must be called out"),
    }
}

#[test]
fn resolving_payload_asks_for_the_prompt_and_records_the_inviter() {
    let mut db = Db::new();
    let code_b = code_of(&mut db, 2, None, 0);
    let turn = handle_command_start(&mut db, 1, &code_b, 5).expect("handled");
    match turn {
        Turn::Prompt { recipient_id } => assert_eq!(recipient_id, 2),
        _ => panic!("a resolving payload must ask for the compose prompt"),
    }
    // The opener was registered with the resolved user as inviter.
    let opener = db.users.iter().find(|u| u.id == 1).expect("registered");
    assert_eq!(opener.invited_by, Some(2));
}

#[test]
fn awaited_message_is_delivered_recorded_and_state_reset() {
    let mut db = Db::new();
    let mut dlg = Dialogue::new();
    let code_b = code_of(&mut db, 2, None, 0);

    let turn = handle_update(
        &mut db,
        &mut dlg,
        1,
        &Event::Start { payload: code_b },
        5,
    )
    .expect("handled");
    let recipient = match turn {
        Turn::Prompt { recipient_id } => recipient_id,
        _ => panic!("expected the compose prompt"),
    };
    confirm_prompt(&mut dlg, 1, recipient, 40);
    assert_eq!(
        dlg.get_or_default(1),
        State::WaitNewMessage(WaitNewMessage {
            recipient_id: 2,
            clear_markup_message_id: 40
        })
    );

    let turn = handle_update(
        &mut db,
        &mut dlg,
        1,
        &Event::Content {
            message_id: 100,
            reply_to_message_id: None,
        },
        6,
    )
    .expect("handled");
    let req = match turn {
        Turn::Deliver(req) => req,
        _ => panic!("the awaited message must become a delivery request"),
    };
    assert_eq!(req.sender_id, 1);
    assert_eq!(req.sender_message_id, 100);
    assert_eq!(req.recipient_id, 2);
    assert_eq!(req.reply_to_message_id, None);
    assert!(req.attach_reply_tip);
    assert_eq!(req.clear_markup_message_id, Some(40));
    // The wait is consumed the moment the request is out.
    assert_eq!(dlg.get_or_default(1), State::Start);

    let feedback = settle_delivery(&mut db, req, DeliveryOutcome::Delivered(500))
        .expect("record written");
    assert!(matches!(feedback, Feedback::Sent(_)));
    assert_eq!(db.messages.len(), 1);
    assert_eq!(db.messages[0].sender_id, 1);
    assert_eq!(db.messages[0].sender_message_id, 100);
    assert_eq!(db.messages[0].recipient_id, 2);
    assert_eq!(db.messages[0].recipient_message_id, 500);
}

#[test]
fn reply_to_delivered_copy_threads_back_and_is_recorded() {
    let mut db = Db::new();
    let mut dlg = Dialogue::new();
    code_of(&mut db, 1, None, 0);
    code_of(&mut db, 2, None, 0);
    db.save_message(1, 100, 2, 500).expect("record written");

    // The recipient swipe-replies on the delivered copy in their own chat.
    let turn = handle_update(
        &mut db,
        &mut dlg,
        2,
        &Event::Content {
            message_id: 200,
            reply_to_message_id: Some(500),
        },
        7,
    )
    .expect("handled");
    let req = match turn {
        Turn::Deliver(req) => req,
        _ => panic!("a reply with a counterpart must become a delivery request"),
    };
    assert_eq!(req.sender_id, 2);
    assert_eq!(req.sender_message_id, 200);
    assert_eq!(req.recipient_id, 1);
    assert_eq!(req.reply_to_message_id, Some(100));
    assert!(matches!(req.origin, RequestOrigin::ThreadedReply));

    let feedback =
        settle_delivery(&mut db, req, DeliveryOutcome::Delivered(600)).expect("record written");
    assert!(matches!(feedback, Feedback::Acknowledged));
    assert_eq!(db.messages.len(), 2);
    assert_eq!(db.messages[1].sender_id, 2);
    assert_eq!(db.messages[1].sender_message_id, 200);
    assert_eq!(db.messages[1].recipient_id, 1);
    assert_eq!(db.messages[1].recipient_message_id, 600);
}

#[test]
fn counterpart_lookup_works_from_either_side() {
    let mut db = Db::new();
    code_of(&mut db, 1, None, 0);
    code_of(&mut db, 2, None, 0);
    db.save_message(1, 100, 2, 500).expect("record written");
    assert_eq!(db.find_another_message(2, 500), Some((1, 100)));
    assert_eq!(db.find_another_message(1, 100), Some((2, 500)));
    assert_eq!(db.find_another_message(1, 500), None);
    assert_eq!(db.find_another_message(3, 100), None);
}

#[test]
fn sender_side_match_takes_precedence() {
    let mut db = Db::new();
    code_of(&mut db, 1, None, 0);
    code_of(&mut db, 2, None, 0);
    code_of(&mut db, 3, None, 0);
    db.save_message(1, 100, 2, 500).expect("record written");
    // A pair that is at once a delivered copy and someone's original:
    // the original's side wins the lookup.
    db.save_message(2, 500, 3, 700).expect("record written");
    assert_eq!(db.find_another_message(2, 500), Some((3, 700)));
}

#[test]
fn reply_without_record_is_invalid_and_writes_nothing() {
    let mut db = Db::new();
    let mut dlg = Dialogue::new();
    code_of(&mut db, 1, None, 0);
    let turn = handle_update(
        &mut db,
        &mut dlg,
        1,
        &Event::Content {
            message_id: 100,
            reply_to_message_id: Some(999),
        },
        3,
    )
    .expect("handled");
    // No delivery is requested: the step finishes with the explanation,
    // which reports an invalid user action.
    match &turn {
        Turn::Done {
            feedback,
            clear_markup_message_id: None,
        } => {
            assert!(matches!(feedback, Feedback::OnlyReplyToRelayed));
            assert_eq!(
                feedback.classification(),
                Some(RelayError::InvalidUserAction)
            );
        }
        _ => panic!("a reply without a record must finish without delivery"),
    }
    assert_eq!(db.messages.len(), 0);
}

#[test]
fn reply_while_awaiting_is_rejected_and_state_unchanged() {
    let mut db = Db::new();
    let mut dlg = Dialogue::new();
    code_of(&mut db, 2, None, 0);
    confirm_prompt(&mut dlg, 1, 2, 40);
    let turn = handle_update(
        &mut db,
        &mut dlg,
        1,
        &Event::Content {
            message_id: 100,
            reply_to_message_id: Some(55),
        },
        4,
    )
    .expect("handled");
    assert!(matches!(
        turn,
        Turn::Done {
            feedback: Feedback::ReplyWhileWaiting,
            clear_markup_message_id: None
        }
    ));
    // Still waiting, for the same recipient.
    assert_eq!(
        dlg.get_or_default(1),
        State::WaitNewMessage(WaitNewMessage {
            recipient_id: 2,
            clear_markup_message_id: 40
        })
    );
    assert_eq!(db.messages.len(), 0);
}

#[test]
fn failed_delivery_from_wait_writes_nothing_and_resets() {
    let mut db = Db::new();
    let mut dlg = Dialogue::new();
    code_of(&mut db, 1, None, 0);
    code_of(&mut db, 2, None, 0);
    confirm_prompt(&mut dlg, 1, 2, 40);
    let turn = handle_state_wait(
        &mut db,
        &mut dlg,
        1,
        100,
        None,
        WaitNewMessage {
            recipient_id: 2,
            clear_markup_message_id: 40,
        },
        5,
    )
    .expect("handled");
    let req = match turn {
        Turn::Deliver(req) => req,
        _ => panic!("expected a delivery request"),
    };
    let feedback = settle_delivery(&mut db, req, DeliveryOutcome::Failed).expect("settled");
    assert!(matches!(feedback, Feedback::SendFailed(_)));
    assert_eq!(
        feedback.classification(),
        Some(RelayError::DeliveryFailure)
    );
    assert_eq!(db.messages.len(), 0);
    assert_eq!(dlg.get_or_default(1), State::Start);
}

#[test]
fn failed_reply_delivery_writes_nothing_and_stays_in_start() {
    let mut db = Db::new();
    let mut dlg = Dialogue::new();
    code_of(&mut db, 1, None, 0);
    code_of(&mut db, 2, None, 0);
    db.save_message(1, 100, 2, 500).expect("record written");
    let turn = handle_update(
        &mut db,
        &mut dlg,
        2,
        &Event::Content {
            message_id: 200,
            reply_to_message_id: Some(500),
        },
        6,
    )
    .expect("handled");
    let req = match turn {
        Turn::Deliver(req) => req,
        _ => panic!("expected a delivery request"),
    };
    let feedback = settle_delivery(&mut db, req, DeliveryOutcome::Failed).expect("settled");
    assert!(matches!(feedback, Feedback::DeliveryFailed));
    assert_eq!(db.messages.len(), 1);
    assert_eq!(dlg.get_or_default(2), State::Start);
}

#[test]
fn cancel_while_awaiting_resets_and_retracts() {
    let mut db = Db::new();
    let mut dlg = Dialogue::new();
    code_of(&mut db, 1, None, 0);
    code_of(&mut db, 2, None, 0);
    confirm_prompt(&mut dlg, 1, 2, 40);
    let turn = handle_update(
        &mut db,
        &mut dlg,
        1,
        &Event::Callback {
            tag: CallbackTag::Cancel,
            message_id: Some(40),
        },
        8,
    )
    .expect("handled");
    match turn {
        Turn::Done {
            feedback: Feedback::Cancelled(link),
            clear_markup_message_id: Some(40),
        } => {
            assert_eq!(db.user_id_by_link(&link.0), Some(1));
        }
        _ => panic!("cancel during a wait must say farewell with the own link"),
    }
    assert_eq!(dlg.get_or_default(1), State::Start);
}

#[test]
fn cancel_with_nothing_pending_only_retracts() {
    let mut db = Db::new();
    let mut dlg = Dialogue::new();
    let turn = handle_update(
        &mut db,
        &mut dlg,
        1,
        &Event::Callback {
            tag: CallbackTag::Cancel,
            message_id: Some(12),
        },
        8,
    )
    .expect("handled");
    assert!(matches!(
        turn,
        Turn::Done {
            feedback: Feedback::CancelledIdle,
            clear_markup_message_id: Some(12)
        }
    ));
    assert_eq!(dlg.get_or_default(1), State::Start);
}

#[test]
fn reply_tip_control_disables_the_affordance_for_good() {
    let mut db = Db::new();
    let mut dlg = Dialogue::new();
    code_of(&mut db, 2, None, 0);
    assert_eq!(db.answer_tip_enabled(2), Ok(true));
    let turn = handle_update(
        &mut db,
        &mut dlg,
        2,
        &Event::Callback {
            tag: CallbackTag::ReplyTip,
            message_id: None,
        },
        9,
    )
    .expect("handled");
    assert!(matches!(
        turn,
        Turn::Done {
            feedback: Feedback::ReplyTipShown,
            clear_markup_message_id: None
        }
    ));
    assert_eq!(db.answer_tip_enabled(2), Ok(false));
    // Idempotent: pressing it again keeps the flag off.
    handle_callback_query(&mut db, &mut dlg, 2, CallbackTag::ReplyTip, None, 10).expect("handled");
    assert_eq!(db.answer_tip_enabled(2), Ok(false));

    // A later delivery toward this user carries no affordance.
    code_of(&mut db, 1, None, 0);
    confirm_prompt(&mut dlg, 1, 2, 40);
    let turn = handle_update(
        &mut db,
        &mut dlg,
        1,
        &Event::Content {
            message_id: 100,
            reply_to_message_id: None,
        },
        11,
    )
    .expect("handled");
    match turn {
        Turn::Deliver(req) => assert!(!req.attach_reply_tip),
        _ => panic!("expected a delivery request"),
    }
}

#[test]
fn tip_read_for_unregistered_user_is_not_found() {
    let db = Db::new();
    assert_eq!(db.answer_tip_enabled(5), Err(RelayError::UserNotFound));
}

#[test]
fn record_needs_registered_chats_and_a_fresh_pair() {
    let mut db = Db::new();
    code_of(&mut db, 1, None, 0);
    code_of(&mut db, 2, None, 0);
    assert_eq!(
        db.save_message(1, 100, 9, 500),
        Err(RelayError::PersistenceError)
    );
    assert_eq!(
        db.save_message(9, 100, 2, 500),
        Err(RelayError::PersistenceError)
    );
    assert_eq!(db.save_message(1, 100, 2, 500), Ok(()));
    // The delivered pair is unique: a second record for it is refused.
    assert_eq!(
        db.save_message(1, 101, 2, 500),
        Err(RelayError::PersistenceError)
    );
    assert_eq!(db.messages.len(), 1);
}

#[test]
fn stray_content_message_earns_the_hint() {
    let mut db = Db::new();
    let mut dlg = Dialogue::new();
    let turn = handle_state_start(&mut db, 1, 100, None, 2).expect("handled");
    match turn {
        Turn::Done {
            feedback: Feedback::NotAwaited(link),
            clear_markup_message_id: None,
        } => {
            assert_eq!(db.user_id_by_link(&link.0), Some(1));
        }
        _ => panic!("a stray message must earn the hint with the own link"),
    }
    assert_eq!(dlg.get_or_default(1), State::Start);
    assert_eq!(db.messages.len(), 0);
}

#[test]
fn chats_are_isolated_from_each_other() {
    let mut db = Db::new();
    let mut dlg = Dialogue::new();
    code_of(&mut db, 2, None, 0);
    code_of(&mut db, 3, None, 0);
    confirm_prompt(&mut dlg, 1, 2, 40);
    confirm_prompt(&mut dlg, 5, 3, 41);
    // A full step of chat 1 leaves chat 5's wait untouched.
    let turn = handle_update(
        &mut db,
        &mut dlg,
        1,
        &Event::Content {
            message_id: 100,
            reply_to_message_id: None,
        },
        3,
    )
    .expect("handled");
    assert!(matches!(turn, Turn::Deliver(_)));
    assert_eq!(dlg.get_or_default(1), State::Start);
    assert_eq!(
        dlg.get_or_default(5),
        State::WaitNewMessage(WaitNewMessage {
            recipient_id: 3,
            clear_markup_message_id: 41
        })
    );
}

#[test]
fn process_reply_reads_but_never_writes() {
    let mut db = Db::new();
    code_of(&mut db, 1, None, 0);
    code_of(&mut db, 2, None, 0);
    db.save_message(1, 100, 2, 500).expect("record written");
    let turn = process_reply(&db, 2, 200, 500);
    assert!(matches!(turn, Turn::Deliver(_)));
    assert_eq!(db.messages.len(), 1);
    assert_eq!(db.users.len(), 2);
}

#[test]
fn get_all_users_lists_everyone_registered() {
    let mut db = Db::new();
    assert_eq!(db.get_all_users(), Vec::<i64>::new());
    code_of(&mut db, 4, None, 0);
    code_of(&mut db, 9, None, 0);
    code_of(&mut db, 4, None, 1);
    assert_eq!(db.get_all_users(), vec![4, 9]);
}
