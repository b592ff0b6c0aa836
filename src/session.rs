//! The reducer: the one place where actions change the candidate list.
//!
//! It never touches the disk. Deleting the selected entry yields an effect
//! naming the entry; whoever runs the loop removes the path and reports the
//! outcome back through `complete_removal`.
use crate::list::{
    end_delete, move_next, move_previous, next_index, pending_target,
    start_delete, CandidateList, ListModel, RemoveError, Status,
};
use vstd::arithmetic::div_mod::{lemma_mod_add_multiples_vanish, lemma_small_mod};
use vstd::prelude::*;

verus! {

/// An operator's intent. It names no entry: the reducer resolves it against
/// the cursor when it is processed.
#[derive(Debug, Clone, Copy, PartialEq, Eq, Structural)]
pub enum Action {
    MoveNext,
    MovePrevious,
    DeleteSelected,
    Quit,
}

/// What the loop around the reducer must do after an action.
#[derive(Debug, Clone, Copy, PartialEq, Eq, Structural)]
pub enum Effect {
    Nothing,
    /// Remove the directory of this entry, then report the outcome.
    Remove(usize),
    /// Leave the loop.
    Stop,
}

pub struct AppModel {
    pub list: ListModel,
    pub quit: bool,
}

/// One transition. Once quitting, only `Quit` is answered, and nothing changes.
pub open spec fn step(s: AppModel, a: Action) -> (AppModel, Effect) {
    match a {
        Action::Quit => (AppModel { quit: true, ..s }, Effect::Stop),
        Action::MoveNext => if s.quit {
            (s, Effect::Nothing)
        } else {
            (AppModel { list: move_next(s.list), ..s }, Effect::Nothing)
        },
        Action::MovePrevious => if s.quit {
            (s, Effect::Nothing)
        } else {
            (AppModel { list: move_previous(s.list), ..s }, Effect::Nothing)
        },
        Action::DeleteSelected => if s.quit {
            (s, Effect::Nothing)
        } else {
            (
                AppModel { list: start_delete(s.list), ..s },
                match pending_target(s.list) {
                    Some(i) => Effect::Remove(i as usize),
                    None => Effect::Nothing,
                },
            )
        },
    }
}

/// Applies the actions in order, collecting the effects.
pub open spec fn run(s: AppModel, actions: Seq<Action>) -> (AppModel, Seq<Effect>)
    decreases actions.len(),
{
    if actions.len() == 0 {
        (s, Seq::empty())
    } else {
        let (next, e) = step(s, actions[0]);
        let (last, rest) = run(next, actions.drop_first());
        (last, seq![e] + rest)
    }
}

pub struct App {
    items: CandidateList,
    should_quit: bool,
}

impl View for App {
    type V = AppModel;

    closed spec fn view(&self) -> AppModel {
        AppModel { list: self.items@, quit: self.should_quit }
    }
}

impl App {
    pub open spec fn wf(&self) -> bool {
        self@.list.wf()
    }

    /// A session over the found candidates, all pending, with no cursor.
    pub fn new(paths: Vec<String>) -> (r: App)
        ensures
            r.wf(),
            r@.list.paths == paths@,
            r@.list.statuses == Seq::new(paths@.len(), |_i: int| Status::Pending),
            r@.list.cursor is None,
            !r@.quit,
    {
        App { items: CandidateList::new(paths), should_quit: false }
    }

    pub fn items(&self) -> (r: &CandidateList)
        ensures
            r@ == self@.list,
    {
        &self.items
    }

    pub fn should_quit(&self) -> (r: bool)
        ensures
            r == self@.quit,
    {
        self.should_quit
    }

    /// Applies one action and says what the loop must do next.
    pub fn reducer(&mut self, action: Action) -> (e: Effect)
        requires
            old(self).wf(),
        ensures
            final(self).wf(),
            (final(self)@, e) == step(old(self)@, action),
    {
        match action {
            Action::Quit => {
                self.should_quit = true;
                Effect::Stop
            },
            _ => {
                if self.should_quit {
                    return Effect::Nothing;
                }
                match action {
                    Action::MoveNext => {
                        self.items.next();
                        Effect::Nothing
                    },
                    Action::MovePrevious => {
                        self.items.previous();
                        Effect::Nothing
                    },
                    _ => match self.items.begin_delete() {
                        Some(i) => Effect::Remove(i),
                        None => Effect::Nothing,
                    },
                }
            },
        }
    }

    /// Records how removing entry `index` ended.
    pub fn complete_removal(&mut self, index: usize, result: Result<(), RemoveError>)
        requires
            old(self).wf(),
        ensures
            final(self).wf(),
            final(self)@ == (AppModel {
                list: end_delete(old(self)@.list, index as int, result),
                quit: old(self)@.quit,
            }),
    {
        self.items.finish_delete(index, result);
    }
}

/// Moving to the next entry and then to the previous one puts the cursor back
/// where it was, on any non-empty list.
pub proof fn lemma_next_then_previous(s: AppModel)
    requires
        s.list.wf(),
        !s.quit,
        s.list.cursor is Some,
    ensures
        step(step(s, Action::MoveNext).0, Action::MovePrevious).0 == s,
{
    let after = step(step(s, Action::MoveNext).0, Action::MovePrevious).0;
    assert(after.list =~= s.list);
}

/// The cursor after `k` moves to the next entry.
pub open spec fn iterate_next(i: int, len: int, k: nat) -> int
    decreases k,
{
    if k == 0 {
        i
    } else {
        iterate_next(next_index(Some(i), len), len, (k - 1) as nat)
    }
}

proof fn lemma_iterate_next_mod(i: int, len: int, k: nat)
    requires
        0 <= i < len,
    ensures
        iterate_next(i, len, k) == (i + k) % len,
    decreases k,
{
    if k == 0 {
        lemma_small_mod(i as nat, len as nat);
    } else {
        let n = next_index(Some(i), len);
        lemma_iterate_next_mod(n, len, (k - 1) as nat);
        if i + 1 < len {
            assert(n + (k - 1) == i + k);
        } else {
            assert(n == 0);
            lemma_mod_add_multiples_vanish(k - 1, len);
            assert(len + (k - 1) == i + k);
        }
    }
}

/// Moving to the next entry as many times as the list is long comes back to
/// the starting entry.
pub proof fn lemma_next_cycle(i: int, len: int)
    requires
        0 <= i < len,
    ensures
        iterate_next(i, len, len as nat) == i,
{
    lemma_iterate_next_mod(i, len, len as nat);
    lemma_mod_add_multiples_vanish(i, len);
    lemma_small_mod(i as nat, len as nat);
}

/// The state after `k` moves to the next entry.
pub open spec fn repeat_next(s: AppModel, k: nat) -> AppModel
    decreases k,
{
    if k == 0 {
        s
    } else {
        repeat_next(step(s, Action::MoveNext).0, (k - 1) as nat)
    }
}

proof fn lemma_repeat_next_cursor(s: AppModel, k: nat)
    requires
        s.list.wf(),
        !s.quit,
        s.list.cursor is Some,
    ensures
        repeat_next(s, k) == (AppModel {
            list: ListModel {
                cursor: Some(iterate_next(s.list.cursor->Some_0, s.list.len(), k)),
                ..s.list
            },
            ..s
        }),
    decreases k,
{
    if k == 0 {
        assert(s.list == ListModel { cursor: Some(s.list.cursor->Some_0), ..s.list });
    } else {
        let n = step(s, Action::MoveNext).0;
        lemma_repeat_next_cursor(n, (k - 1) as nat);
    }
}

/// On a non-empty list with the cursor set, moving to the next entry as many
/// times as the list is long leaves the whole state as it was.
pub proof fn lemma_next_cycle_state(s: AppModel)
    requires
        s.list.wf(),
        !s.quit,
        s.list.cursor is Some,
    ensures
        repeat_next(s, s.list.len() as nat) == s,
{
    lemma_repeat_next_cursor(s, s.list.len() as nat);
    lemma_next_cycle(s.list.cursor->Some_0, s.list.len());
    assert(repeat_next(s, s.list.len() as nat).list =~= s.list);
}

/// Deleting an entry that is no longer pending changes nothing and removes
/// nothing.
pub proof fn lemma_delete_not_pending(s: AppModel)
    requires
        s.list.wf(),
        s.list.cursor matches Some(i) && !(s.list.statuses[i] is Pending),
    ensures
        step(s, Action::DeleteSelected) == (s, Effect::Nothing),
{
    assert(step(s, Action::DeleteSelected).0.list =~= s.list);
}

/// On a one-entry list, deleting twice in a row removes the entry once: the
/// second request is a no-op.
pub proof fn lemma_delete_twice(s: AppModel)
    requires
        s.list.wf(),
        s.list.len() == 1,
        s.list.cursor is Some,
    ensures
        ({
            let (first, e1) = step(s, Action::DeleteSelected);
            let (second, e2) = step(first, Action::DeleteSelected);
            &&& second == first
            &&& e2 == Effect::Nothing
            &&& (e1 is Remove ==> e1 == Effect::Remove(0))
            &&& (!s.quit && s.list.statuses[0] is Pending ==> e1 == Effect::Remove(0))
        }),
{
    let (first, e1) = step(s, Action::DeleteSelected);
    if !s.quit && pending_target(s.list) is Some {
        assert(first.list.statuses[0] is Deleting);
        lemma_delete_not_pending(first);
    }
}

/// Once the removal that a delete asked for is reported, the entry is
/// `Deleted` exactly when the path was removed or already gone, and otherwise
/// carries the failure.
pub proof fn lemma_removal_outcome(s: AppModel, result: Result<(), RemoveError>)
    requires
        s.list.wf(),
        step(s, Action::DeleteSelected).1 is Remove,
    ensures
        ({
            let (next, e) = step(s, Action::DeleteSelected);
            let i = e->Remove_0 as int;
            let done = end_delete(next.list, i, result);
            &&& done.paths == s.list.paths
            &&& (done.statuses[i] is Deleted <==> (result is Ok || result
                == Err::<(), RemoveError>(RemoveError::Missing)))
            &&& (result matches Err(RemoveError::Io(cause)) ==> done.statuses[i]
                == Status::Failed(cause))
        }),
{
}

/// After `Quit`, no later action removes anything or changes the list,
/// whatever was still queued.
pub proof fn lemma_quit_stops(s: AppModel, queued: Seq<Action>)
    ensures
        ({
            let (stopped, e) = step(s, Action::Quit);
            let (last, effects) = run(stopped, queued);
            &&& e == Effect::Stop
            &&& stopped.quit
            &&& stopped.list == s.list
            &&& last == stopped
            &&& forall|j: int| 0 <= j < effects.len() ==> !(#[trigger] effects[j] is Remove)
        }),
{
    let stopped = step(s, Action::Quit).0;
    lemma_run_after_quit(stopped, queued);
}

proof fn lemma_run_after_quit(s: AppModel, queued: Seq<Action>)
    requires
        s.quit,
    ensures
        run(s, queued).0 == s,
        forall|j: int|
            0 <= j < run(s, queued).1.len() ==> !(#[trigger] run(s, queued).1[j] is Remove),
    decreases queued.len(),
{
    if queued.len() > 0 {
        let (next, e) = step(s, queued[0]);
        assert(next == s);
        lemma_run_after_quit(next, queued.drop_first());
        let rest = run(next, queued.drop_first()).1;
        assert forall|j: int| 0 <= j < run(s, queued).1.len() implies !(#[trigger] run(
            s,
            queued,
        ).1[j] is Remove) by {
            if j > 0 {
                assert(run(s, queued).1[j] == rest[j - 1]);
            }
        }
    }
}

} // verus!
