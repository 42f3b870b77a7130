//! Per-chat ephemeral dialogue state: whether the next content message from
//! a chat is ordinary traffic or the one anonymous message someone's link
//! asked for.
//!
//! The tracker holds no business logic and is never persisted: every chat
//! an update has not yet been observed from is in `Start`, and a process
//! restart resets every chat to `Start` by construction.

use vstd::prelude::*;

verus! {

/// A fresh anonymous message is awaited for `recipient_id`.
#[derive(Clone, Copy, Debug, PartialEq, Eq, Structural)]
pub struct WaitNewMessage {
    /// Whom the awaited message must be delivered to.
    pub recipient_id: i64,
    /// Message id of the prompt shown, kept so its controls can be
    /// retracted when the wait ends.
    pub clear_markup_message_id: i32,
}

/// The dialogue state of one chat.
#[derive(Clone, Copy, Debug, PartialEq, Eq, Structural)]
pub enum State {
    /// Default: not currently composing a fresh anonymous message.
    Start,
    /// Exactly one content message is awaited.
    WaitNewMessage(WaitNewMessage),
}

/// The per-chat dialogue state tracker, keyed by chat id.
pub struct Dialogue {
    /// One entry per chat that has been set; chats without an entry are in
    /// `Start`.
    pub entries: Vec<(i64, State)>,
}

impl Dialogue {
    /// Whether this chat has an explicit entry.
    pub open spec fn has_chat(self, chat_id: i64) -> bool {
        exists|i: int| 0 <= i < self.entries@.len() && self.entries@[i].0 == chat_id
    }

    /// Position of this chat's entry (unique under well-formedness).
    pub open spec fn chat_index(self, chat_id: i64) -> int {
        choose|i: int| 0 <= i < self.entries@.len() && self.entries@[i].0 == chat_id
    }

    /// The state of a chat: its entry if it has one, else `Start`.
    pub open spec fn state_of(self, chat_id: i64) -> State {
        if self.has_chat(chat_id) {
            self.entries@[self.chat_index(chat_id)].1
        } else {
            State::Start
        }
    }

    /// Well-formedness: at most one entry per chat.
    pub open spec fn wf(self) -> bool {
        forall|i: int, j: int|
            0 <= i < j < self.entries@.len() ==> self.entries@[i].0 != self.entries@[j].0
    }

    /// Under well-formedness, the entry found at any position is the entry
    /// its chat id looks up to.
    pub proof fn lemma_chat_at(self, j: int)
        requires
            self.wf(),
            0 <= j < self.entries@.len(),
        ensures
            self.has_chat(self.entries@[j].0),
            self.chat_index(self.entries@[j].0) == j,
            self.state_of(self.entries@[j].0) == self.entries@[j].1,
    {
        let c = self.entries@[j].0;
        assert(self.has_chat(c));
        let k = self.chat_index(c);
        if k != j {
            if k < j {
                assert(self.entries@[k].0 != self.entries@[j].0);
            } else {
                assert(self.entries@[j].0 != self.entries@[k].0);
            }
        }
    }

    /// An empty tracker: every chat is in `Start`.
    pub fn new() -> (d: Dialogue)
        ensures
            d.wf(),
            forall|c: i64| d.state_of(c) == State::Start,
    {
        Dialogue { entries: Vec::new() }
    }

    /// Position of this chat's entry, if it has one.
    fn index_of_chat(&self, chat_id: i64) -> (r: Option<usize>)
        requires
            self.wf(),
        ensures
            match r {
                Some(j) => j < self.entries@.len() && self.entries@[j as int].0 == chat_id
                    && self.has_chat(chat_id) && self.chat_index(chat_id) == j,
                None => !self.has_chat(chat_id),
            },
    {
        let n = self.entries.len();
        let mut i: usize = 0;
        while i < n
            invariant
                self.wf(),
                n == self.entries@.len(),
                i <= n,
                forall|k: int| 0 <= k < i ==> self.entries@[k].0 != chat_id,
            decreases n - i,
        {
            if self.entries[i].0 == chat_id {
                proof {
                    self.lemma_chat_at(i as int);
                }
                return Some(i);
            }
            i = i + 1;
        }
        None
    }

    /// The chat's current state; a chat never set reads as `Start`.
    pub fn get_or_default(&self, chat_id: i64) -> (s: State)
        requires
            self.wf(),
        ensures
            s == self.state_of(chat_id),
    {
        match self.index_of_chat(chat_id) {
            Some(j) => self.entries[j].1,
            None => State::Start,
        }
    }

    /// Sets one chat's state; every other chat's state is untouched.
    pub fn set(&mut self, chat_id: i64, s: State)
        requires
            old(self).wf(),
        ensures
            final(self).wf(),
            final(self).state_of(chat_id) == s,
            forall|c: i64| c != chat_id ==> final(self).state_of(c) == old(self).state_of(c),
    {
        let ghost pre = *self;
        match self.index_of_chat(chat_id) {
            Some(j) => {
                self.entries[j].1 = s;
                proof {
                    assert(forall|k: int|
                        0 <= k < self.entries@.len() ==> self.entries@[k].0 == pre.entries@[k].0);
                    self.lemma_chat_at(j as int);
                    assert forall|c: i64| c != chat_id implies self.state_of(c) == pre.state_of(
                        c,
                    ) by {
                        Dialogue::lemma_same_keys_same_states(pre, *self, c, j as int);
                    }
                }
            },
            None => {
                self.entries.push((chat_id, s));
                proof {
                    assert(self.entries@.drop_last() == pre.entries@);
                    assert(forall|k: int|
                        0 <= k < pre.entries@.len() ==> self.entries@[k] == #[trigger] pre.entries@[k]);
                    self.lemma_chat_at(self.entries@.len() - 1);
                    assert forall|c: i64| c != chat_id implies self.state_of(c) == pre.state_of(
                        c,
                    ) by {
                        if pre.has_chat(c) {
                            let k = choose|k: int|
                                0 <= k < pre.entries@.len() && pre.entries@[k].0 == c;
                            pre.lemma_chat_at(k);
                            self.lemma_chat_at(k);
                        } else {
                            if self.has_chat(c) {
                                let k = choose|k: int|
                                    0 <= k < self.entries@.len() && self.entries@[k].0 == c;
                                assert(k < pre.entries@.len());
                                assert(pre.entries@[k].0 == c);
                            }
                        }
                    }
                }
            },
        }
    }

    /// When keys are unchanged and only position `j` changed its state,
    /// every other chat reads as before.
    proof fn lemma_same_keys_same_states(pre: Dialogue, post: Dialogue, c: i64, j: int)
        requires
            pre.wf(),
            post.wf(),
            post.entries@.len() == pre.entries@.len(),
            forall|k: int| 0 <= k < pre.entries@.len() ==> post.entries@[k].0 == pre.entries@[k].0,
            forall|k: int|
                0 <= k < pre.entries@.len() && k != j ==> post.entries@[k] == pre.entries@[k],
            0 <= j < pre.entries@.len(),
            c != pre.entries@[j].0,
        ensures
            post.state_of(c) == pre.state_of(c),
    {
        if pre.has_chat(c) {
            let k = choose|k: int| 0 <= k < pre.entries@.len() && pre.entries@[k].0 == c;
            pre.lemma_chat_at(k);
            post.lemma_chat_at(k);
        } else {
            if post.has_chat(c) {
                let k = choose|k: int| 0 <= k < post.entries@.len() && post.entries@[k].0 == c;
                assert(pre.entries@[k].0 == c);
            }
        }
    }

    /// Sends one chat back to `Start`; every other chat is untouched.
    pub fn reset(&mut self, chat_id: i64)
        requires
            old(self).wf(),
        ensures
            final(self).wf(),
            final(self).state_of(chat_id) == State::Start,
            forall|c: i64| c != chat_id ==> final(self).state_of(c) == old(self).state_of(c),
    {
        self.set(chat_id, State::Start);
    }
}

} // verus!
