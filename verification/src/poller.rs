//! The cursor over the stream of updates, and the step that takes a fetched
//! batch to the actions that answer it.

use crate::action::{Action, Skipped};
use crate::dispatch::{message_action, process_message};
use crate::message::{Update, UpdateContent};
use vstd::prelude::*;

verus! {

/// The request for the next batch of updates.
#[derive(Debug, Clone, Copy, PartialEq, Eq)]
pub struct UpdateRequest {
    /// The identifier of the first update to deliver; `None` asks for the
    /// earliest that the service still holds.
    pub offset: Option<i64>,
    /// Whether only new messages are asked for.
    pub messages_only: bool,
}

/// How a request for updates ended.
#[derive(Debug, Clone, PartialEq, Eq)]
pub enum Fetched {
    /// The service delivered these updates, in this order.
    Batch(Vec<Update>),
    /// The request failed.
    Failed,
}

/// Keeps the cursor and the name of the bot between requests.
#[derive(Debug)]
pub struct UpdatePoller {
    bot_name: String,
    cursor: Option<i64>,
}

/// The action that answers `update` for the bot called `bot`.
pub open spec fn update_action(update: Update, bot: Seq<char>) -> Action {
    match update.content {
        UpdateContent::Message(msg) => message_action(msg, bot),
        UpdateContent::Other => Action::Skip(Skipped::NotAMessage),
    }
}

/// The actions that answer a batch: one for each update, in the order of the batch.
pub open spec fn batch_actions(updates: Seq<Update>, bot: Seq<char>) -> Seq<Action> {
    Seq::new(updates.len(), |i: int| update_action(updates[i], bot))
}

/// The cursor once `update_id` has been processed.
pub open spec fn cursor_past(update_id: u32) -> i64 {
    (update_id + 1) as i64
}

/// The cursor once a batch has been processed: past its last update, or
/// where it was if the batch is empty.
pub open spec fn cursor_after(cursor: Option<i64>, updates: Seq<Update>) -> Option<i64> {
    if updates.len() == 0 {
        cursor
    } else {
        Some(cursor_past(updates.last().update_id))
    }
}

/// The identifiers of `updates` grow from each to the next.
pub open spec fn ascending(updates: Seq<Update>) -> bool {
    forall|i: int, j: int|
        0 <= i < j < updates.len() ==> updates[i].update_id < updates[j].update_id
}

/// After a batch whose identifiers grow, the cursor is one past the last
/// of them, and so past every update of the batch.
pub proof fn lemma_cursor_after_batch(cursor: Option<i64>, updates: Seq<Update>)
    requires
        updates.len() > 0,
        ascending(updates),
    ensures
        cursor_after(cursor, updates) == Some(cursor_past(updates.last().update_id)),
        cursor_past(updates.last().update_id) == updates.last().update_id + 1,
        forall|i: int|
            0 <= i < updates.len() ==> updates[i].update_id < cursor_past(
                updates.last().update_id,
            ),
{
    assert forall|i: int| 0 <= i < updates.len() implies updates[i].update_id < cursor_past(
        updates.last().update_id,
    ) by {
        if i < updates.len() - 1 {
            assert(updates[i].update_id < updates[updates.len() - 1].update_id);
        }
    }
}

/// While the service delivers updates from the cursor on, with identifiers
/// that grow, the cursor never moves back: not over a whole batch, and not
/// from one update of it to the next.
pub proof fn lemma_cursor_never_decreases(cursor: i64, updates: Seq<Update>, done: int, more: int)
    requires
        ascending(updates),
        updates.len() > 0 ==> cursor <= updates[0].update_id,
        0 <= done <= more <= updates.len(),
    ensures
        cursor_after(Some(cursor), updates.take(done)) matches Some(before) && cursor_after(
            Some(cursor),
            updates.take(more),
        ) matches Some(after) && cursor <= before <= after,
{
    if done > 0 {
        assert(updates.take(done).last() == updates[done - 1]);
        assert(updates.take(more).last() == updates[more - 1]);
        if done > 1 {
            assert(updates[0].update_id < updates[done - 1].update_id);
        }
        if done < more {
            assert(updates[done - 1].update_id < updates[more - 1].update_id);
        }
    } else if more > 0 {
        assert(updates.take(more).last() == updates[more - 1]);
        if more > 1 {
            assert(updates[0].update_id < updates[more - 1].update_id);
        }
    }
}

impl UpdatePoller {
    /// The name of the bot that commands are resolved for.
    pub closed spec fn bot(&self) -> Seq<char> {
        self.bot_name@
    }

    /// The identifier of the next update to ask for, once one is known.
    pub closed spec fn next(&self) -> Option<i64> {
        self.cursor
    }

    /// A poller that has not seen any update yet.
    pub fn new(bot_name: String) -> (poller: UpdatePoller)
        ensures
            poller.bot() == bot_name@,
            poller.next() is None,
    {
        UpdatePoller { bot_name, cursor: None }
    }

    /// The name of the bot.
    pub fn bot_name(&self) -> (name: &str)
        ensures
            name@ == self.bot(),
    {
        self.bot_name.as_str()
    }

    /// The identifier of the next update to ask for.
    pub fn cursor(&self) -> (cursor: Option<i64>)
        ensures
            cursor == self.next(),
    {
        self.cursor
    }

    /// The request to send next: for new messages only, from the cursor on.
    pub fn request(&self) -> (request: UpdateRequest)
        ensures
            request == (UpdateRequest { offset: self.next(), messages_only: true }),
    {
        UpdateRequest { offset: self.cursor, messages_only: true }
    }

    /// Moves the cursor past the update `update_id`.
    pub fn advance(&mut self, update_id: u32)
        ensures
            final(self).next() == Some(cursor_past(update_id)),
            final(self).bot() == old(self).bot(),
    {
        let id: i64 = update_id as i64;
        self.cursor = Some(id + 1);
    }

    /// Decides how to answer one update and moves the cursor past it,
    /// whatever the decision.
    pub fn process_update(&mut self, update: &Update) -> (action: Action)
        ensures
            action == update_action(*update, old(self).bot()),
            final(self).next() == Some(cursor_past(update.update_id)),
            final(self).bot() == old(self).bot(),
    {
        let action = match &update.content {
            UpdateContent::Message(msg) => process_message(msg, self.bot_name.as_str()),
            UpdateContent::Other => Action::Skip(Skipped::NotAMessage),
        };
        self.advance(update.update_id);
        action
    }

    /// Processes a batch in the order in which it was delivered.  Every
    /// update gets one action, and the cursor ends past the last update.
    pub fn process_batch(&mut self, updates: &Vec<Update>) -> (actions: Vec<Action>)
        ensures
            actions@ == batch_actions(updates@, old(self).bot()),
            final(self).next() == cursor_after(old(self).next(), updates@),
            final(self).bot() == old(self).bot(),
    {
        let mut actions: Vec<Action> = Vec::new();
        let mut i: usize = 0;
        proof {
            assert(updates@.take(0).len() == 0);
        }
        while i < updates.len()
            invariant
                i <= updates.len(),
                actions@ == batch_actions(updates@.take(i as int), old(self).bot()),
                self.next() == cursor_after(old(self).next(), updates@.take(i as int)),
                self.bot() == old(self).bot(),
            decreases updates.len() - i,
        {
            let action = self.process_update(&updates[i]);
            actions.push(action);
            i += 1;
            proof {
                let done = updates@.take(i as int);
                assert(done.last() == updates@[i - 1]);
                assert(done.take(i - 1) =~= updates@.take(i - 1));
                assert(actions@ =~= batch_actions(done, old(self).bot()));
            }
        }
        proof {
            assert(updates@.take(i as int) =~= updates@);
        }
        actions
    }

    /// Takes the outcome of a request.  A batch is processed; a failure
    /// changes nothing, so that the next request asks from the same cursor.
    pub fn step(&mut self, fetched: &Fetched) -> (actions: Vec<Action>)
        ensures
            final(self).bot() == old(self).bot(),
            match *fetched {
                Fetched::Batch(updates) => {
                    &&& actions@ == batch_actions(updates@, old(self).bot())
                    &&& final(self).next() == cursor_after(old(self).next(), updates@)
                },
                Fetched::Failed => {
                    &&& actions@.len() == 0
                    &&& final(self).next() == old(self).next()
                },
            },
    {
        match fetched {
            Fetched::Batch(updates) => self.process_batch(updates),
            Fetched::Failed => Vec::new(),
        }
    }
}

} // verus!
