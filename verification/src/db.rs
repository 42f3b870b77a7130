//! The persistent model of the relay: user records with their link codes,
//! and the append-only ledger of delivered relays.
//!
//! The store itself is held in memory; the surrounding program owns
//! durability. Every operation the relay core needs is specified and proved
//! here: link issuance and resolution, ledger appends, and the bidirectional
//! counterpart lookup.

use vstd::prelude::*;

use crate::RelayError;
use crate::link::{UserLink, sample_code, valid_code};

verus! {

/// A registered user: chat identity, issued link code, optional inviter,
/// activity timestamps, and the reply-tip flag.
#[derive(Clone, Debug)]
pub struct User {
    /// External chat identity; primary key, never regenerated.
    pub id: i64,
    /// The issued link code; never changes after first issuance.
    pub link: String,
    /// Who invited this user, set at registration and never overwritten.
    pub invited_by: Option<i64>,
    /// When the user was first seen.
    pub first_activity: i64,
    /// When the user was last seen; refreshed on every interaction.
    pub last_activity: i64,
    /// Whether the "how to reply" affordance is still shown; defaults to
    /// true, one-way settable to false.
    pub answer_tip: bool,
}

/// One delivered relay: the originating chat/message pair and the delivered
/// copy's chat/message pair. Written only after successful delivery;
/// immutable once written.
#[derive(Clone, Copy, Debug, PartialEq, Eq, Structural)]
pub struct RelayRecord {
    /// Chat the original message was sent in.
    pub sender_id: i64,
    /// Transport-local id of the original message.
    pub sender_message_id: i32,
    /// Chat the copy was delivered to.
    pub recipient_id: i64,
    /// Transport-local id of the delivered copy.
    pub recipient_message_id: i32,
}

/// The first record whose sender pair matches the given chat/message pair,
/// mapped to its recipient pair.
pub open spec fn find_sender_side(recs: Seq<RelayRecord>, chat_id: i64, message_id: i32) -> Option<
    (i64, i32),
>
    decreases recs.len(),
{
    if recs.len() == 0 {
        None
    } else if recs[0].sender_id == chat_id && recs[0].sender_message_id == message_id {
        Some((recs[0].recipient_id, recs[0].recipient_message_id))
    } else {
        find_sender_side(recs.drop_first(), chat_id, message_id)
    }
}

/// The first record whose recipient pair matches the given chat/message
/// pair, mapped to its sender pair.
pub open spec fn find_recipient_side(recs: Seq<RelayRecord>, chat_id: i64, message_id: i32) -> Option<
    (i64, i32),
>
    decreases recs.len(),
{
    if recs.len() == 0 {
        None
    } else if recs[0].recipient_id == chat_id && recs[0].recipient_message_id == message_id {
        Some((recs[0].sender_id, recs[0].sender_message_id))
    } else {
        find_recipient_side(recs.drop_first(), chat_id, message_id)
    }
}

/// The counterpart of a chat/message pair in the ledger: the opposite pair
/// of a record matching on either side, a sender-side match taking
/// precedence.
pub open spec fn counterpart_in(recs: Seq<RelayRecord>, chat_id: i64, message_id: i32) -> Option<
    (i64, i32),
> {
    match find_sender_side(recs, chat_id, message_id) {
        Some(p) => Some(p),
        None => find_recipient_side(recs, chat_id, message_id),
    }
}

/// A sender-side hit comes from a concrete ledger record.
pub proof fn lemma_find_sender_side_witness(recs: Seq<RelayRecord>, chat_id: i64, message_id: i32)
    requires
        find_sender_side(recs, chat_id, message_id) is Some,
    ensures
        exists|i: int|
            0 <= i < recs.len() && (#[trigger] recs[i]).sender_id == chat_id
                && recs[i].sender_message_id == message_id && find_sender_side(
                recs,
                chat_id,
                message_id,
            ) == Some((recs[i].recipient_id, recs[i].recipient_message_id)),
    decreases recs.len(),
{
    if recs.len() == 0 {
    } else if recs[0].sender_id == chat_id && recs[0].sender_message_id == message_id {
        assert(recs[0].sender_id == chat_id);
    } else {
        lemma_find_sender_side_witness(recs.drop_first(), chat_id, message_id);
        let i = choose|i: int|
            0 <= i < recs.drop_first().len() && (#[trigger] recs.drop_first()[i]).sender_id
                == chat_id && recs.drop_first()[i].sender_message_id == message_id
                && find_sender_side(recs.drop_first(), chat_id, message_id) == Some(
                (recs.drop_first()[i].recipient_id, recs.drop_first()[i].recipient_message_id),
            );
        assert(recs.drop_first()[i] == recs[i + 1]);
        assert((recs[i + 1]).sender_id == chat_id);
    }
}

/// A recipient-side hit comes from a concrete ledger record.
pub proof fn lemma_find_recipient_side_witness(recs: Seq<RelayRecord>, chat_id: i64, message_id: i32)
    requires
        find_recipient_side(recs, chat_id, message_id) is Some,
    ensures
        exists|i: int|
            0 <= i < recs.len() && (#[trigger] recs[i]).recipient_id == chat_id
                && recs[i].recipient_message_id == message_id && find_recipient_side(
                recs,
                chat_id,
                message_id,
            ) == Some((recs[i].sender_id, recs[i].sender_message_id)),
    decreases recs.len(),
{
    if recs.len() == 0 {
    } else if recs[0].recipient_id == chat_id && recs[0].recipient_message_id == message_id {
        assert(recs[0].recipient_id == chat_id);
    } else {
        lemma_find_recipient_side_witness(recs.drop_first(), chat_id, message_id);
        let i = choose|i: int|
            0 <= i < recs.drop_first().len() && (#[trigger] recs.drop_first()[i]).recipient_id
                == chat_id && recs.drop_first()[i].recipient_message_id == message_id
                && find_recipient_side(recs.drop_first(), chat_id, message_id) == Some(
                (recs.drop_first()[i].sender_id, recs.drop_first()[i].sender_message_id),
            );
        assert(recs.drop_first()[i] == recs[i + 1]);
        assert((recs[i + 1]).recipient_id == chat_id);
    }
}

/// A pair that matches no record's sender side has no sender-side hit.
pub proof fn lemma_find_sender_side_none(recs: Seq<RelayRecord>, chat_id: i64, message_id: i32)
    requires
        forall|i: int|
            0 <= i < recs.len() ==> !((#[trigger] recs[i]).sender_id == chat_id
                && recs[i].sender_message_id == message_id),
    ensures
        find_sender_side(recs, chat_id, message_id) is None,
    decreases recs.len(),
{
    if recs.len() == 0 {
    } else {
        assert(recs[0] == recs[0]);
        assert(forall|i: int|
            0 <= i < recs.drop_first().len() ==> recs.drop_first()[i] == recs[i + 1]);
        lemma_find_sender_side_none(recs.drop_first(), chat_id, message_id);
    }
}

/// When exactly one record carries the pair on its recipient side, the
/// recipient-side lookup returns that record's sender pair.
pub proof fn lemma_find_recipient_side_at(
    recs: Seq<RelayRecord>,
    chat_id: i64,
    message_id: i32,
    k: int,
)
    requires
        0 <= k < recs.len(),
        recs[k].recipient_id == chat_id,
        recs[k].recipient_message_id == message_id,
        forall|i: int|
            0 <= i < recs.len() && i != k ==> !((#[trigger] recs[i]).recipient_id == chat_id
                && recs[i].recipient_message_id == message_id),
    ensures
        find_recipient_side(recs, chat_id, message_id) == Some(
            (recs[k].sender_id, recs[k].sender_message_id),
        ),
    decreases recs.len(),
{
    if k == 0 {
    } else {
        assert(forall|i: int|
            0 <= i < recs.drop_first().len() ==> recs.drop_first()[i] == recs[i + 1]);
        lemma_find_recipient_side_at(recs.drop_first(), chat_id, message_id, k - 1);
    }
}

/// How many fresh codes issuance will sample before giving up on
/// uniqueness collisions.
pub const MAX_CODE_ATTEMPTS: usize = 16;

/// The successful link-issuance transition: for a registered user only the
/// last-seen timestamp moves and the stored code is returned; for a new
/// user exactly one row is appended, carrying a fresh valid code, the given
/// inviter, and both timestamps set to now. The ledger never moves.
pub open spec fn link_issued(
    pre: Db,
    post: Db,
    id: i64,
    invited_by: Option<i64>,
    now: i64,
    code: Seq<char>,
) -> bool {
    &&& post.records() == pre.records()
    &&& if pre.has_user(id) {
        &&& code == pre.user(id).link@
        &&& post.users_seq() == pre.users_seq().update(
            pre.user_index(id),
            (User { last_activity: now, ..pre.user(id) }),
        )
    } else {
        &&& post.users_seq().len() == pre.users_seq().len() + 1
        &&& post.users_seq().drop_last() == pre.users_seq()
        &&& post.users_seq().last().id == id
        &&& post.users_seq().last().link@ == code
        &&& post.users_seq().last().invited_by == invited_by
        &&& post.users_seq().last().first_activity == now
        &&& post.users_seq().last().last_activity == now
        &&& post.users_seq().last().answer_tip == true
        &&& valid_code(code)
        &&& !pre.has_link(code)
    }
}

/// The relay store: registered users and the append-only relay ledger.
pub struct Db {
    /// Registered users, in registration order.
    pub users: Vec<User>,
    /// The append-only relay ledger.
    pub messages: Vec<RelayRecord>,
}

impl Db {
    /// The registered users, in registration order.
    pub open spec fn users_seq(self) -> Seq<User> {
        self.users@
    }

    /// The relay ledger, in append order.
    pub open spec fn records(self) -> Seq<RelayRecord> {
        self.messages@
    }

    /// Whether a user with this id is registered.
    pub open spec fn has_user(self, id: i64) -> bool {
        exists|i: int| 0 <= i < self.users@.len() && self.users@[i].id == id
    }

    /// Position of the user with this id (meaningful only under `has_user`
    /// and well-formedness, which make it unique).
    pub open spec fn user_index(self, id: i64) -> int {
        choose|i: int| 0 <= i < self.users@.len() && self.users@[i].id == id
    }

    /// The record of the user with this id.
    pub open spec fn user(self, id: i64) -> User {
        self.users@[self.user_index(id)]
    }

    /// Whether some user owns this link code.
    pub open spec fn has_link(self, code: Seq<char>) -> bool {
        exists|i: int| 0 <= i < self.users@.len() && self.users@[i].link@ == code
    }

    /// Whether some ledger record already carries this delivered pair.
    pub open spec fn has_recipient_pair(self, chat_id: i64, message_id: i32) -> bool {
        exists|i: int|
            0 <= i < self.messages@.len() && self.messages@[i].recipient_id == chat_id
                && self.messages@[i].recipient_message_id == message_id
    }

    /// Well-formedness: ids and link codes are unique, every stored code is
    /// a valid link code, and every ledger record points at registered
    /// users on both sides, with the recipient pair unique across records.
    pub open spec fn wf(self) -> bool {
        &&& (forall|i: int, j: int|
            0 <= i < j < self.users@.len() ==> self.users@[i].id != self.users@[j].id)
        &&& (forall|i: int, j: int|
            0 <= i < j < self.users@.len() ==> self.users@[i].link@ != self.users@[j].link@)
        &&& (forall|i: int| 0 <= i < self.users@.len() ==> valid_code(#[trigger] self.users@[i].link@))
        &&& (forall|i: int, j: int|
            0 <= i < j < self.messages@.len() ==> !(self.messages@[i].recipient_id
                == self.messages@[j].recipient_id && self.messages@[i].recipient_message_id
                == self.messages@[j].recipient_message_id))
        &&& (forall|i: int|
            0 <= i < self.messages@.len() ==> self.has_user(#[trigger] self.messages@[i].sender_id)
                && self.has_user(self.messages@[i].recipient_id))
    }

    /// Under well-formedness, the user found at any position is the user
    /// its id looks up to.
    pub proof fn lemma_user_at(self, j: int)
        requires
            self.wf(),
            0 <= j < self.users_seq().len(),
        ensures
            self.has_user(self.users_seq()[j].id),
            self.user_index(self.users_seq()[j].id) == j,
            self.user(self.users_seq()[j].id) == self.users_seq()[j],
    {
        let id = self.users@[j].id;
        assert(self.has_user(id));
        let k = self.user_index(id);
        if k != j {
            if k < j {
                assert(self.users@[k].id != self.users@[j].id);
            } else {
                assert(self.users@[j].id != self.users@[k].id);
            }
        }
    }

    /// An empty store: no users, no records.
    pub fn new() -> (db: Db)
        ensures
            db.wf(),
            db.users_seq().len() == 0,
            db.records().len() == 0,
    {
        Db { users: Vec::new(), messages: Vec::new() }
    }

    /// When every user keeps its id and position, registration lookups are
    /// unaffected.
    proof fn lemma_same_ids_same_users(pre: Db, post: Db)
        requires
            post.users_seq().len() == pre.users_seq().len(),
            forall|k: int|
                0 <= k < pre.users_seq().len() ==> post.users_seq()[k].id == pre.users_seq()[k].id,
        ensures
            forall|u: i64| pre.has_user(u) <==> post.has_user(u),
    {
        assert forall|u: i64| pre.has_user(u) implies post.has_user(u) by {
            let k = choose|k: int| 0 <= k < pre.users@.len() && pre.users@[k].id == u;
            assert(post.users@[k].id == u);
        }
        assert forall|u: i64| post.has_user(u) implies pre.has_user(u) by {
            let k = choose|k: int| 0 <= k < post.users@.len() && post.users@[k].id == u;
            assert(pre.users@[k].id == u);
        }
    }

    /// Appending a user preserves every existing registration.
    proof fn lemma_push_keeps_users(pre: Db, post: Db)
        requires
            post.users_seq().len() == pre.users_seq().len() + 1,
            post.users_seq().drop_last() == pre.users_seq(),
        ensures
            forall|u: i64| pre.has_user(u) ==> post.has_user(u),
            forall|u: i64|
                post.has_user(u) ==> pre.has_user(u) || u == post.users_seq().last().id,
    {
        assert forall|u: i64| pre.has_user(u) implies post.has_user(u) by {
            let k = choose|k: int| 0 <= k < pre.users@.len() && pre.users@[k].id == u;
            assert(post.users@.drop_last()[k] == pre.users@[k]);
            assert(post.users@[k].id == u);
        }
        assert forall|u: i64|
            post.has_user(u) && u != post.users_seq().last().id implies pre.has_user(u) by {
            let k = choose|k: int| 0 <= k < post.users@.len() && post.users@[k].id == u;
            assert(k < pre.users@.len());
            assert(pre.users@[k] == post.users@.drop_last()[k]);
        }
    }

    /// Position of the user with this id, if registered.
    fn index_of_user(&self, id: i64) -> (r: Option<usize>)
        requires
            self.wf(),
        ensures
            match r {
                Some(j) => j < self.users_seq().len() && self.users_seq()[j as int].id == id
                    && self.has_user(id) && self.user_index(id) == j,
                None => !self.has_user(id),
            },
    {
        let n = self.users.len();
        let mut i: usize = 0;
        while i < n
            invariant
                self.wf(),
                n == self.users@.len(),
                i <= n,
                forall|k: int| 0 <= k < i ==> self.users@[k].id != id,
            decreases n - i,
        {
            if self.users[i].id == id {
                proof {
                    self.lemma_user_at(i as int);
                }
                return Some(i);
            }
            i = i + 1;
        }
        None
    }

    /// Issues or returns the user's link code. A registered user gets the
    /// stored code back, with only `last_activity` refreshed; an unknown
    /// user is registered with a freshly sampled, unique code and the given
    /// inviter. A registered user is always served; only an unknown user
    /// can see `PersistenceError`, when every sampled code collided with an
    /// issued one, and then the store is left untouched.
    pub fn get_user_link(&mut self, id: i64, invited_by: Option<i64>, now: i64) -> (r: Result<
        UserLink,
        RelayError,
    >)
        requires
            old(self).wf(),
        ensures
            final(self).wf(),
            (r matches Ok(l) ==> link_issued(*old(self), *final(self), id, invited_by, now, l.0@)),
            (r matches Err(e) ==> e == RelayError::PersistenceError && *final(self) == *old(self)
                && !old(self).has_user(id) && old(self).users_seq().len() > 0),
            old(self).has_user(id) ==> r is Ok,
    {
        match self.index_of_user(id) {
            Some(j) => {
                let link_copy = self.users[j].link.clone();
                let ghost pre = *self;
                self.users[j].last_activity = now;
                proof {
                    assert(self.users@ == pre.users@.update(
                        j as int,
                        (User { last_activity: now, ..pre.user(id) }),
                    ));
                    assert(forall|k: int|
                        0 <= k < self.users@.len() ==> self.users@[k].id == pre.users@[k].id
                            && self.users@[k].link == pre.users@[k].link);
                    Db::lemma_same_ids_same_users(pre, *self);
                }
                Ok(UserLink(link_copy))
            },
            None => {
                let mut attempts: usize = 0;
                while attempts < MAX_CODE_ATTEMPTS
                    invariant
                        *self == *old(self),
                        old(self).wf(),
                        !old(self).has_user(id),
                        attempts > 0 ==> old(self).users_seq().len() > 0,
                    decreases MAX_CODE_ATTEMPTS - attempts,
                {
                    let ghost pre = *old(self);
                    let code = sample_code();
                    if self.user_id_by_link(code.as_str()).is_none() {
                        let code_out = code.clone();
                        let user = User {
                            id,
                            link: code,
                            invited_by,
                            first_activity: now,
                            last_activity: now,
                            answer_tip: true,
                        };
                        self.users.push(user);
                        proof {
                            assert(self.users@.drop_last() == pre.users@);
                            Db::lemma_push_keeps_users(pre, *self);
                            assert forall|i: int|
                                0 <= i < self.messages@.len() implies self.has_user(
                                #[trigger] self.messages@[i].sender_id,
                            ) && self.has_user(self.messages@[i].recipient_id) by {
                                assert(pre.has_user(pre.messages@[i].sender_id));
                                assert(pre.has_user(pre.messages@[i].recipient_id));
                            }
                        }
                        return Ok(UserLink(code_out));
                    }
                    attempts = attempts + 1;
                }
                Err(RelayError::PersistenceError)
            },
        }
    }

    /// Resolves a link code to the id of the user it was issued to.
    /// Returns `Some` exactly when some user owns the code; a code never
    /// issued yields `None`, never an error.
    pub fn user_id_by_link(&self, link: &str) -> (r: Option<i64>)
        requires
            self.wf(),
        ensures
            match r {
                Some(id) => self.has_link(link@) && self.has_user(id) && self.user(id).link@
                    == link@,
                None => !self.has_link(link@),
            },
    {
        let code: String = link.to_owned();
        let n = self.users.len();
        let mut i: usize = 0;
        while i < n
            invariant
                self.wf(),
                n == self.users@.len(),
                i <= n,
                code@ == link@,
                forall|k: int| 0 <= k < i ==> self.users@[k].link@ != link@,
            decreases n - i,
        {
            if self.users[i].link == code {
                proof {
                    self.lemma_user_at(i as int);
                }
                return Some(self.users[i].id);
            }
            i = i + 1;
        }
        None
    }
    /// Whether a ledger record already carries this delivered pair.
    fn recipient_pair_exists(&self, chat_id: i64, message_id: i32) -> (r: bool)
        ensures
            r == self.has_recipient_pair(chat_id, message_id),
    {
        let n = self.messages.len();
        let mut i: usize = 0;
        while i < n
            invariant
                n == self.messages@.len(),
                i <= n,
                forall|k: int|
                    0 <= k < i ==> !(self.messages@[k].recipient_id == chat_id
                        && self.messages@[k].recipient_message_id == message_id),
            decreases n - i,
        {
            if self.messages[i].recipient_id == chat_id && self.messages[i].recipient_message_id
                == message_id {
                return true;
            }
            i = i + 1;
        }
        false
    }

    /// Appends one delivered relay to the ledger. To be called only after
    /// delivery has been confirmed. Succeeds exactly when both chats are
    /// registered and the delivered pair is new, and then appends exactly
    /// one record with the given fields; otherwise the store is untouched
    /// and the uniqueness or reference violation surfaces as
    /// `PersistenceError`.
    pub fn save_message(
        &mut self,
        sender_id: i64,
        sender_message_id: i32,
        recipient_id: i64,
        recipient_message_id: i32,
    ) -> (r: Result<(), RelayError>)
        requires
            old(self).wf(),
        ensures
            final(self).wf(),
            final(self).users_seq() == old(self).users_seq(),
            r is Ok <==> (old(self).has_user(sender_id) && old(self).has_user(recipient_id)
                && !old(self).has_recipient_pair(recipient_id, recipient_message_id)),
            (r is Ok ==> final(self).records() == old(self).records().push(
                (RelayRecord { sender_id, sender_message_id, recipient_id, recipient_message_id }),
            )),
            (r matches Err(e) ==> e == RelayError::PersistenceError && *final(self) == *old(self)),
    {
        if self.index_of_user(sender_id).is_none() {
            return Err(RelayError::PersistenceError);
        }
        if self.index_of_user(recipient_id).is_none() {
            return Err(RelayError::PersistenceError);
        }
        if self.recipient_pair_exists(recipient_id, recipient_message_id) {
            return Err(RelayError::PersistenceError);
        }
        let rec = RelayRecord { sender_id, sender_message_id, recipient_id, recipient_message_id };
        self.messages.push(rec);
        Ok(())
    }

    /// Looks up the counterpart of a chat/message pair: the opposite pair
    /// of any ledger record matching on either its sender or its recipient
    /// side, sender-side matches taking precedence. Absence is not an
    /// error.
    pub fn find_another_message(&self, chat_id: i64, msg_id: i32) -> (r: Option<(i64, i32)>)
        ensures
            r == counterpart_in(self.records(), chat_id, msg_id),
    {
        match self.scan_sender_side(chat_id, msg_id) {
            Some(p) => Some(p),
            None => self.scan_recipient_side(chat_id, msg_id),
        }
    }

    /// The first record matching on the sender side, mapped to its
    /// recipient pair.
    fn scan_sender_side(&self, chat_id: i64, msg_id: i32) -> (r: Option<(i64, i32)>)
        ensures
            r == find_sender_side(self.records(), chat_id, msg_id),
    {
        let n = self.messages.len();
        let mut i: usize = 0;
        proof {
            assert(self.messages@.skip(0) =~= self.messages@);
        }
        while i < n
            invariant
                n == self.messages@.len(),
                i <= n,
                find_sender_side(self.messages@, chat_id, msg_id) == find_sender_side(
                    self.messages@.skip(i as int),
                    chat_id,
                    msg_id,
                ),
            decreases n - i,
        {
            let m = &self.messages[i];
            proof {
                assert(self.messages@.skip(i as int)[0] == self.messages@[i as int]);
                assert(self.messages@.skip(i as int).drop_first() =~= self.messages@.skip(
                    i as int + 1,
                ));
            }
            if m.sender_id == chat_id && m.sender_message_id == msg_id {
                return Some((m.recipient_id, m.recipient_message_id));
            }
            i = i + 1;
        }
        proof {
            assert(self.messages@.skip(n as int) =~= Seq::<RelayRecord>::empty());
        }
        None
    }

    /// The first record matching on the recipient side, mapped to its
    /// sender pair.
    fn scan_recipient_side(&self, chat_id: i64, msg_id: i32) -> (r: Option<(i64, i32)>)
        ensures
            r == find_recipient_side(self.records(), chat_id, msg_id),
    {
        let n = self.messages.len();
        let mut i: usize = 0;
        proof {
            assert(self.messages@.skip(0) =~= self.messages@);
        }
        while i < n
            invariant
                n == self.messages@.len(),
                i <= n,
                find_recipient_side(self.messages@, chat_id, msg_id) == find_recipient_side(
                    self.messages@.skip(i as int),
                    chat_id,
                    msg_id,
                ),
            decreases n - i,
        {
            let m = &self.messages[i];
            proof {
                assert(self.messages@.skip(i as int)[0] == self.messages@[i as int]);
                assert(self.messages@.skip(i as int).drop_first() =~= self.messages@.skip(
                    i as int + 1,
                ));
            }
            if m.recipient_id == chat_id && m.recipient_message_id == msg_id {
                return Some((m.sender_id, m.sender_message_id));
            }
            i = i + 1;
        }
        proof {
            assert(self.messages@.skip(n as int) =~= Seq::<RelayRecord>::empty());
        }
        None
    }

    /// A counterpart found in a well-formed ledger is itself a registered
    /// chat.
    pub proof fn lemma_counterpart_registered(self, chat_id: i64, message_id: i32)
        requires
            self.wf(),
            counterpart_in(self.records(), chat_id, message_id) is Some,
        ensures
            self.has_user((counterpart_in(self.records(), chat_id, message_id)->0).0),
    {
        let recs = self.records();
        if find_sender_side(recs, chat_id, message_id) is Some {
            lemma_find_sender_side_witness(recs, chat_id, message_id);
            let i = choose|i: int|
                0 <= i < recs.len() && (#[trigger] recs[i]).sender_id == chat_id
                    && recs[i].sender_message_id == message_id && find_sender_side(
                    recs,
                    chat_id,
                    message_id,
                ) == Some((recs[i].recipient_id, recs[i].recipient_message_id));
            assert(self.has_user(recs[i].recipient_id));
        } else {
            lemma_find_recipient_side_witness(recs, chat_id, message_id);
            let i = choose|i: int|
                0 <= i < recs.len() && (#[trigger] recs[i]).recipient_id == chat_id
                    && recs[i].recipient_message_id == message_id && find_recipient_side(
                    recs,
                    chat_id,
                    message_id,
                ) == Some((recs[i].sender_id, recs[i].sender_message_id));
            assert(self.has_user(recs[i].sender_id));
        }
    }

    /// One-way, idempotent: clears the reply-tip flag of a registered
    /// user; an unknown user is a harmless no-op, as an update with no
    /// matching row. Nothing else moves.
    pub fn disable_answer_tip(&mut self, user_id: i64) -> (r: Result<(), RelayError>)
        requires
            old(self).wf(),
        ensures
            final(self).wf(),
            r is Ok,
            final(self).records() == old(self).records(),
            old(self).has_user(user_id) ==> final(self).users_seq() == old(self).users_seq().update(
                old(self).user_index(user_id),
                (User { answer_tip: false, ..old(self).user(user_id) }),
            ),
            !old(self).has_user(user_id) ==> *final(self) == *old(self),
    {
        match self.index_of_user(user_id) {
            Some(j) => {
                let ghost pre = *self;
                self.users[j].answer_tip = false;
                proof {
                    assert(forall|k: int|
                        0 <= k < self.users@.len() ==> self.users@[k].id == pre.users@[k].id
                            && self.users@[k].link == pre.users@[k].link);
                    Db::lemma_same_ids_same_users(pre, *self);
                }
                Ok(())
            },
            None => Ok(()),
        }
    }

    /// Reads the reply-tip flag of a registered user; asking about a user
    /// never registered is the one read error, `UserNotFound`.
    pub fn answer_tip_enabled(&self, user_id: i64) -> (r: Result<bool, RelayError>)
        requires
            self.wf(),
        ensures
            self.has_user(user_id) ==> (r matches Ok(b) && b == self.user(user_id).answer_tip),
            !self.has_user(user_id) ==> (r matches Err(e) && e == RelayError::UserNotFound),
    {
        match self.index_of_user(user_id) {
            Some(j) => Ok(self.users[j].answer_tip),
            None => Err(RelayError::UserNotFound),
        }
    }

    /// The ids of every registered user, in registration order.
    pub fn get_all_users(&self) -> (r: Vec<i64>)
        ensures
            r@.len() == self.users_seq().len(),
            forall|k: int| 0 <= k < r@.len() ==> r@[k] == self.users_seq()[k].id,
    {
        let n = self.users.len();
        let mut out: Vec<i64> = Vec::new();
        let mut i: usize = 0;
        while i < n
            invariant
                n == self.users@.len(),
                i <= n,
                out@.len() == i,
                forall|k: int| 0 <= k < i ==> out@[k] == self.users@[k].id,
            decreases n - i,
        {
            out.push(self.users[i].id);
            i = i + 1;
        }
        out
    }
}

} // verus!
