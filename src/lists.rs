//! The lists of active and finished tasks and the cursor over each.
use vstd::prelude::*;

use crate::finish::{is_entry_of, FinishedTask};
use crate::listener::TaskListener;
use crate::result::TaskFinalStage;
use crate::state::TaskState;
use crate::sender::{RequestSender, Task};
use crate::task::TaskCommand;

verus! {

/// Why an operation on the active list was refused.
#[derive(Debug, Clone, Copy, PartialEq, Eq, Structural)]
pub enum ListError {
    /// The index names no task.
    IndexOutOfBounds,
}

/// What the front end asks of the selected active task.
#[derive(Debug, Clone, Copy, PartialEq, Eq, Structural)]
pub enum SelectedAction {
    Stop,
    /// Resume a stopped task.
    Continue,
    /// Abort the task for good.
    Cancel,
}

/// Whether a task whose attempt ended at `stage` leaves the active list.
/// Tasks that stopped for a reason that a resume may cure stay.
pub open spec fn retires(stage: TaskFinalStage) -> bool {
    match stage {
        TaskFinalStage::UnknownUrl | TaskFinalStage::FailToConnection
        | TaskFinalStage::FailToCreateFile | TaskFinalStage::FileCorrupted | TaskFinalStage::Abort
        | TaskFinalStage::Finished | TaskFinalStage::UnknownError => true,
        _ => false,
    }
}

/// Whether a task whose attempt ended at `stage` leaves the active list.
pub fn leaves_active_list(stage: TaskFinalStage) -> (r: bool)
    ensures
        r == retires(stage),
{
    match stage {
        TaskFinalStage::UnknownUrl | TaskFinalStage::FailToConnection
        | TaskFinalStage::FailToCreateFile | TaskFinalStage::FileCorrupted | TaskFinalStage::Abort
        | TaskFinalStage::Finished | TaskFinalStage::UnknownError => true,
        _ => false,
    }
}

/// The cursor after moving down a list of `len` items, wrapping around.
pub open spec fn next_selection(selected: Option<usize>, len: nat) -> Option<usize> {
    if len == 0 {
        None
    } else {
        match selected {
            Some(i) => Some(((i + 1) % (len as int)) as usize),
            None => Some(0),
        }
    }
}

/// The cursor after moving up a list of `len` items, wrapping around; a
/// cursor past the end goes to the last item.
pub open spec fn previous_selection(selected: Option<usize>, len: nat) -> Option<usize> {
    if len == 0 {
        None
    } else {
        match selected {
            Some(i) => if i == 0 || i >= len {
                Some((len - 1) as usize)
            } else {
                Some((i - 1) as usize)
            },
            None => Some(0),
        }
    }
}

/// The cursor after the item at `index` left a list that now has `len` items.
pub open spec fn selection_after_removal(selected: Option<usize>, index: nat, len: nat) -> Option<
    usize,
> {
    match selected {
        Some(s) => if s >= index && s > 0 {
            Some((s - 1) as usize)
        } else if len == 0 {
            None
        } else {
            Some(s)
        },
        None => None,
    }
}

/// The cursor after moving down a list of `len` items.
pub fn next_index(selected: Option<usize>, len: usize) -> (r: Option<usize>)
    ensures
        r == next_selection(selected, len as nat),
{
    if len == 0 {
        return None;
    }
    match selected {
        Some(i) => Some(((i as u128 + 1) % len as u128) as usize),
        None => Some(0),
    }
}

/// The cursor after moving up a list of `len` items.
pub fn previous_index(selected: Option<usize>, len: usize) -> (r: Option<usize>)
    ensures
        r == previous_selection(selected, len as nat),
{
    if len == 0 {
        return None;
    }
    match selected {
        Some(i) => if i == 0 || i >= len {
            Some(len - 1)
        } else {
            Some(i - 1)
        },
        None => Some(0),
    }
}

fn step_removed(selected: Option<usize>, index: usize, len: usize) -> (r: Option<usize>)
    ensures
        r == selection_after_removal(selected, index as nat, len as nat),
{
    match selected {
        Some(s) => if s >= index && s > 0 {
            Some(s - 1)
        } else if len == 0 {
            None
        } else {
            Some(s)
        },
        None => None,
    }
}

/// The finished tasks, with a cursor.
pub struct FinishList {
    pub list: Vec<FinishedTask>,
    pub selected: Option<usize>,
}

impl FinishList {
    pub fn new() -> (r: FinishList)
        ensures
            r.list@.len() == 0,
            r.selected is None,
    {
        FinishList { list: Vec::new(), selected: None }
    }

    pub fn selected(&self) -> (r: Option<usize>)
        ensures
            r == self.selected,
    {
        self.selected
    }

    pub fn set_selected(&mut self, index: Option<usize>)
        ensures
            final(self).selected == index,
            final(self).list == old(self).list,
    {
        self.selected = index;
    }

    pub fn select_next(&mut self)
        ensures
            final(self).selected == next_selection(old(self).selected, old(self).list@.len()),
            final(self).list == old(self).list,
    {
        self.selected = next_index(self.selected, self.list.len());
    }

    pub fn select_previous(&mut self)
        ensures
            final(self).selected == previous_selection(old(self).selected, old(self).list@.len()),
            final(self).list == old(self).list,
    {
        self.selected = previous_index(self.selected, self.list.len());
    }

    pub fn push_task(&mut self, task: FinishedTask)
        ensures
            final(self).list@ == old(self).list@.push(task),
            final(self).selected == old(self).selected,
    {
        self.list.push(task);
    }
}

/// The active tasks, with a cursor and the queue to submit new ones.
pub struct DownloadList {
    pub list: Vec<TaskListener>,
    pub selected: Option<usize>,
    pub sender: RequestSender,
}

impl DownloadList {
    pub fn new(sender: tokio::sync::mpsc::Sender<Task>) -> (r: DownloadList)
        ensures
            r.list@.len() == 0,
            r.selected is None,
    {
        DownloadList { list: Vec::new(), selected: None, sender: RequestSender::new(sender) }
    }

    pub fn selected(&self) -> (r: Option<usize>)
        ensures
            r == self.selected,
    {
        self.selected
    }

    pub fn set_selected(&mut self, index: Option<usize>)
        ensures
            final(self).selected == index,
            final(self).list == old(self).list,
    {
        self.selected = index;
    }

    pub fn select_next(&mut self)
        ensures
            final(self).selected == next_selection(old(self).selected, old(self).list@.len()),
            final(self).list == old(self).list,
    {
        self.selected = next_index(self.selected, self.list.len());
    }

    pub fn select_previous(&mut self)
        ensures
            final(self).selected == previous_selection(old(self).selected, old(self).list@.len()),
            final(self).list == old(self).list,
    {
        self.selected = previous_index(self.selected, self.list.len());
    }

    /// Submits a download of `url` and appends its listener; gives the task
    /// back when the queue is closed.
    pub fn append_normal_task(&mut self, url: String, now_ms: u64) -> (r: Result<(), Task>)
        ensures
            r is Ok ==> final(self).list@.len() == old(self).list@.len() + 1
                && final(self).list@.last().is_fresh() && final(self).list@.drop_last()
                == old(self).list@,
            r is Err ==> final(self).list == old(self).list,
            final(self).selected == old(self).selected,
    {
        match self.sender.send_normal_request(url, now_ms) {
            Ok(listener) => {
                self.list.push(listener);
                assert(self.list@.drop_last() =~= old(self).list@);
                Ok(())
            },
            Err(t) => Err(t),
        }
    }

    /// Asks the task at `index` to stop; a stopped task is left alone.
    pub fn stop_task(&mut self, index: usize) -> (r: Result<(), ListError>)
        ensures
            r is Err <==> index >= old(self).list@.len(),
            r is Err ==> final(self).list == old(self).list,
            r is Ok && old(self).list@[index as int].spec_stopped() ==> final(self).list
                == old(self).list,
            r is Ok && !old(self).list@[index as int].spec_stopped() ==> commanded(
                old(self).list@,
                final(self).list@,
                index as int,
            ),
            final(self).selected == old(self).selected,
    {
        if index >= self.list.len() {
            return Err(ListError::IndexOutOfBounds);
        }
        if self.list[index].is_stopped() {
            return Ok(());
        }
        self.command(index, TaskCommand::Stop);
        Ok(())
    }

    /// Sends `command` to the task at `index`.
    fn command(&mut self, index: usize, command: TaskCommand)
        requires
            index < old(self).list@.len(),
            !old(self).list@[index as int].spec_stopped(),
        ensures
            commanded(old(self).list@, final(self).list@, index as int),
            final(self).selected == old(self).selected,
    {
        let ghost cur = self.list@;
        let mut listener = self.list.remove(index);
        let _ = listener.send_command(command);
        self.list.insert(index, listener);
        assert(self.list@ =~= cur.update(index as int, listener));
    }

    /// Asks the task at `index` to abort; a stopped task is moved to the
    /// finished list at once.
    pub fn abort_task(&mut self, index: usize, finish_list: &mut FinishList) -> (r: Result<
        (),
        ListError,
    >)
        ensures
            r is Err <==> index >= old(self).list@.len(),
            r is Err ==> final(self).list == old(self).list,
            r is Ok && old(self).list@[index as int].spec_stopped() ==> {
                &&& final(self).list@ == old(self).list@.remove(index as int)
                &&& final(finish_list).list@ == old(finish_list).list@.push(
                    final(finish_list).list@.last(),
                )
                &&& is_record_of(final(finish_list).list@.last(), old(self).list@[index as int])
            },
            r is Ok && !old(self).list@[index as int].spec_stopped() ==> commanded(
                old(self).list@,
                final(self).list@,
                index as int,
            ),
            final(finish_list).list@.len() + final(self).list@.len() == old(finish_list).list@.len()
                + old(self).list@.len(),
    {
        if index >= self.list.len() {
            return Err(ListError::IndexOutOfBounds);
        }
        if self.list[index].is_stopped() {
            self.move_to_finish_list(index, finish_list);
            return Ok(());
        }
        self.command(index, TaskCommand::Abort);
        Ok(())
    }

    /// Starts another attempt at the stopped task at `index`; when the queue
    /// is closed the task is moved to the finished list instead. A running
    /// task is left alone.
    pub fn resume_task(&mut self, index: usize, finish_list: &mut FinishList) -> (r: Result<
        (),
        ListError,
    >)
        ensures
            r is Err <==> index >= old(self).list@.len(),
            r is Err ==> final(self).list == old(self).list,
            r is Ok && !old(self).list@[index as int].spec_stopped() ==> final(self).list@
                == old(self).list@,
            r is Ok && old(self).list@[index as int].spec_stopped() ==> resumed_at(
                old(self).list@,
                final(self).list@,
                index as int,
            ) || final(self).list@ == old(self).list@.remove(index as int),
            final(finish_list).list@.len() + final(self).list@.len() == old(finish_list).list@.len()
                + old(self).list@.len(),
    {
        if index >= self.list.len() {
            return Err(ListError::IndexOutOfBounds);
        }
        let ghost cur = self.list@;
        let mut listener = self.list.remove(index);
        let resumed = listener.resume_task(&self.sender);
        self.list.insert(index, listener);
        assert(self.list@ =~= cur.update(index as int, listener));
        if resumed.is_err() {
            self.move_to_finish_list(index, finish_list);
        }
        Ok(())
    }

    /// Applies `action` to the selected task. A cursor past the end of the
    /// list is cleared instead; without a cursor nothing happens.
    pub fn act_on_selected(&mut self, action: SelectedAction, finish_list: &mut FinishList)
        ensures
            old(self).selected is None ==> final(self).list@ == old(self).list@
                && final(finish_list).list@ == old(finish_list).list@,
            old(self).selected is Some && old(self).selected->0 >= old(self).list@.len()
                ==> final(self).selected is None && final(self).list@ == old(self).list@,
            old(self).selected is Some && old(self).selected->0 < old(self).list@.len()
                ==> acted_on(
                action,
                old(self).list@,
                final(self).list@,
                old(self).selected->0 as int,
                old(finish_list).list@.len(),
                final(finish_list).list@.len(),
            ),
            final(finish_list).list@.len() + final(self).list@.len() == old(finish_list).list@.len()
                + old(self).list@.len(),
    {
        let index = match self.selected {
            Some(i) => i,
            None => return,
        };
        if index >= self.list.len() {
            self.selected = None;
            return;
        }
        let _ = match action {
            SelectedAction::Stop => self.stop_task(index),
            SelectedAction::Continue => self.resume_task(index, finish_list),
            SelectedAction::Cancel => self.abort_task(index, finish_list),
        };
    }

    /// Retires the task at `index` into the finished list.
    pub fn move_to_finish_list(&mut self, index: usize, finish_list: &mut FinishList)
        requires
            index < old(self).list@.len(),
        ensures
            final(self).list@ == old(self).list@.remove(index as int),
            final(finish_list).list@.len() == old(finish_list).list@.len() + 1,
            final(finish_list).list@.drop_last() == old(finish_list).list@,
            exists|snap: TaskState|
                is_entry_of(
                    final(finish_list).list@.last(),
                    old(self).list@[index as int].cached(),
                    snap,
                ),
            final(self).selected == selection_after_removal(
                old(self).selected,
                index as nat,
                final(self).list@.len(),
            ),
            final(finish_list).selected == old(finish_list).selected,
    {
        let mut listener = self.list.remove(index);
        let ghost taken = listener;
        let entry = listener.into_finished_task();
        let ghost f0 = finish_list.list@;
        finish_list.push_task(entry);
        assert(finish_list.list@.drop_last() =~= f0);
        proof {
            let snap = choose|snap: TaskState| is_entry_of(entry, taken.cached(), snap);
            assert(is_entry_of(finish_list.list@.last(), taken.cached(), snap));
        }
        self.selected = step_removed(self.selected, index, self.list.len());
    }

    /// Polls every active task that has not been dealt with: a result marks
    /// it processed, any result but success marks it stopped, and a result
    /// that a resume cannot cure moves it to the finished list. The tasks
    /// that stay keep their order; the records of those that leave follow
    /// the old finished list in the same order. Without a cursor, the cursor
    /// goes to the first task.
    pub fn handle_async(&mut self, finish_list: &mut FinishList)
        ensures
            exists|after: Seq<TaskListener>|
                {
                    &&& polled_all(old(self).list@, after)
                    &&& final(self).list@ == survivors(old(self).list@, after)
                    &&& appended_records(
                        old(finish_list).list@,
                        final(finish_list).list@,
                        leavers(old(self).list@, after),
                    )
                },
            old(self).selected is None && old(self).list@.len() > 0 ==> final(self).selected == (
            if final(self).list@.len() > 0 {
                Some(0usize)
            } else {
                None
            }),
    {
        let ghost was_unselected = self.selected is None && self.list@.len() > 0;
        if self.selected.is_none() && self.list.len() > 0 {
            self.selected = Some(0);
        }
        let ghost before = self.list@;
        let ghost f0 = finish_list.list@;
        let ghost mut after: Seq<TaskListener> = Seq::empty();
        let mut index: usize = 0;
        proof {
            assert(before.subrange(0, 0) =~= Seq::<TaskListener>::empty());
            assert(self.list@ =~= survivors(before.subrange(0, 0), after) + before.subrange(
                0,
                before.len() as int,
            ));
            assert(finish_list.list@.subrange(f0.len() as int, finish_list.list@.len() as int)
                =~= Seq::<FinishedTask>::empty());
            assert(finish_list.list@.subrange(0, f0.len() as int) =~= f0);
        }
        while index < self.list.len()
            invariant
                after.len() <= before.len(),
                polled_all(before.subrange(0, after.len() as int), after),
                self.list@ == survivors(before.subrange(0, after.len() as int), after)
                    + before.subrange(after.len() as int, before.len() as int),
                index == survivors(before.subrange(0, after.len() as int), after).len(),
                appended_records(f0, finish_list.list@, leavers(before.subrange(0, after.len() as int), after)),
                was_unselected ==> self.selected == (if self.list@.len() > 0 {
                    Some(0usize)
                } else {
                    None
                }),
            decreases before.len() - after.len(),
        {
            let ghost cur = self.list@;
            let ghost p = after.len() as int;
            let ghost pre = before.subrange(0, p);
            let ghost pre1 = before.subrange(0, p + 1);
            let ghost fl = finish_list.list@;
            proof {
                assert(cur[index as int] == before[p]);
                assert(pre1.drop_last() =~= pre);
                assert(pre1.last() == before[p]);
            }
            let mut listener = self.list.remove(index);
            let ghost orig = listener;
            let retire = settle(&mut listener);
            self.list.insert(index, listener);
            proof {
                assert(self.list@ =~= cur.update(index as int, listener));
                let after1 = after.push(listener);
                assert(after1.drop_last() =~= after);
                assert(after1.last() == listener);
                assert(polled_all(pre1, after1)) by {
                    assert forall|k: int| 0 <= k < pre1.len() implies settled_from(
                        #[trigger] pre1[k],
                        after1[k],
                    ) by {
                        if k < p {
                            assert(pre1[k] == pre[k]);
                            assert(after1[k] == after[k]);
                        }
                    }
                }
            }
            if retire {
                self.move_to_finish_list(index, finish_list);
                proof {
                    let after1 = after.push(listener);
                    assert(survivors(pre1, after1) == survivors(pre, after));
                    assert(leavers(pre1, after1) == leavers(pre, after).push(listener));
                    assert(self.list@ =~= survivors(pre1, after1) + before.subrange(
                        p + 1,
                        before.len() as int,
                    ));
                    let rec = finish_list.list@.last();
                    assert(finish_list.list@ =~= fl.push(rec));
                    let g0 = leavers(pre, after);
                    let g1 = leavers(pre1, after1);
                    assert(appended_records(f0, finish_list.list@, g1)) by {
                        assert(finish_list.list@.subrange(0, f0.len() as int) =~= fl.subrange(
                            0,
                            f0.len() as int,
                        ));
                        let r0 = fl.subrange(f0.len() as int, fl.len() as int);
                        let r1 = finish_list.list@.subrange(
                            f0.len() as int,
                            finish_list.list@.len() as int,
                        );
                        assert(r1 =~= r0.push(rec));
                        assert forall|k: int| 0 <= k < r1.len() implies is_record_of(
                            #[trigger] r1[k],
                            g1[k],
                        ) by {
                            if k < r0.len() {
                                assert(r1[k] == r0[k]);
                                assert(g1[k] == g0[k]);
                            }
                        }
                    }
                    after = after1;
                }
            } else {
                proof {
                    let after1 = after.push(listener);
                    assert(survivors(pre1, after1) == survivors(pre, after).push(listener));
                    assert(leavers(pre1, after1) == leavers(pre, after));
                    assert(self.list@ =~= survivors(pre1, after1) + before.subrange(
                        p + 1,
                        before.len() as int,
                    ));
                    after = after1;
                }
                index = index + 1;
            }
        }
        proof {
            assert(before.subrange(0, after.len() as int) =~= before);
        }
    }
}

/// `after` is what polling each task of `before` made of it, position by
/// position.
pub open spec fn polled_all(before: Seq<TaskListener>, after: Seq<TaskListener>) -> bool {
    &&& after.len() == before.len()
    &&& forall|k: int| 0 <= k < before.len() ==> settled_from(#[trigger] before[k], after[k])
}

/// Whether polling `o` gave `l` a result, taken in now, that retires it.
pub open spec fn retiring(o: TaskListener, l: TaskListener) -> bool {
    !o.is_processed() && l.cached() is Some && retires(l.cached()->0.final_stage)
}

/// The polled tasks that stay active, in order.
pub open spec fn survivors(before: Seq<TaskListener>, after: Seq<TaskListener>) -> Seq<TaskListener>
    decreases before.len(),
{
    if before.len() == 0 || after.len() != before.len() {
        Seq::empty()
    } else if retiring(before.last(), after.last()) {
        survivors(before.drop_last(), after.drop_last())
    } else {
        survivors(before.drop_last(), after.drop_last()).push(after.last())
    }
}

/// The polled tasks that retire, in order.
pub open spec fn leavers(before: Seq<TaskListener>, after: Seq<TaskListener>) -> Seq<TaskListener>
    decreases before.len(),
{
    if before.len() == 0 || after.len() != before.len() {
        Seq::empty()
    } else if retiring(before.last(), after.last()) {
        leavers(before.drop_last(), after.drop_last()).push(after.last())
    } else {
        leavers(before.drop_last(), after.drop_last())
    }
}

/// `rec` is the finished record of task `l`, from some snapshot of its state.
pub open spec fn is_record_of(rec: FinishedTask, l: TaskListener) -> bool {
    exists|snap: TaskState| is_entry_of(rec, l.cached(), snap)
}

/// `after` is `before` followed by the records of `gone`, in order.
pub open spec fn appended_records(
    before: Seq<FinishedTask>,
    after: Seq<FinishedTask>,
    gone: Seq<TaskListener>,
) -> bool {
    let added = after.subrange(before.len() as int, after.len() as int);
    &&& after.len() == before.len() + gone.len()
    &&& after.subrange(0, before.len() as int) == before
    &&& forall|k: int| 0 <= k < gone.len() ==> is_record_of(#[trigger] added[k], gone[k])
}

/// The task at `index` had its command channel used while it was running;
/// it and every other task are otherwise as they were.
pub open spec fn commanded(before: Seq<TaskListener>, after: Seq<TaskListener>, index: int) -> bool {
    &&& after.len() == before.len()
    &&& forall|j: int| 0 <= j < after.len() && j != index ==> after[j] == before[j]
    &&& !after[index].can_command()
    &&& after[index].cached() == before[index].cached()
    &&& after[index].is_processed() == before[index].is_processed()
    &&& after[index].spec_stopped() == before[index].spec_stopped()
    &&& after[index].handle() == before[index].handle()
}

/// The effect of `action` on the task at `i`: a running task is asked to
/// stop or abort; a stopped one is left alone by Stop, retired by Cancel and
/// resumed (or retired, when the queue is closed) by Continue; Continue
/// leaves a running task alone.
pub open spec fn acted_on(
    action: SelectedAction,
    before: Seq<TaskListener>,
    after: Seq<TaskListener>,
    i: int,
    finished_before: nat,
    finished_after: nat,
) -> bool {
    let stopped = before[i].spec_stopped();
    match action {
        SelectedAction::Stop => if stopped {
            after == before
        } else {
            commanded(before, after, i)
        },
        SelectedAction::Cancel => if stopped {
            after == before.remove(i) && finished_after == finished_before + 1
        } else {
            commanded(before, after, i)
        },
        SelectedAction::Continue => if stopped {
            resumed_at(before, after, i) || after == before.remove(i)
        } else {
            after == before
        },
    }
}

/// The task at `index` was handed to a new attempt with the same shared
/// state; every other task is as it was.
pub open spec fn resumed_at(before: Seq<TaskListener>, after: Seq<TaskListener>, index: int) -> bool {
    &&& after.len() == before.len()
    &&& forall|j: int| 0 <= j < after.len() && j != index ==> after[j] == before[j]
    &&& after[index].is_fresh()
    &&& after[index].handle() == before[index].handle()
}

/// `l` is what polling the active task `o` made of it: a processed task is
/// left as it was; otherwise a result marks it processed, and stopped when
/// it is not a success, while without a result its flags stay.
pub open spec fn settled_from(o: TaskListener, l: TaskListener) -> bool {
    if o.is_processed() {
        l == o
    } else {
        &&& l.handle() == o.handle()
        &&& l.cached() is Some ==> l.is_processed() && l.spec_stopped() == (o.spec_stopped()
            || !l.cached()->0.final_stage.spec_is_success())
        &&& l.cached() is None ==> !l.is_processed() && l.spec_stopped() == o.spec_stopped()
    }
}

/// Polls one active task that has not been dealt with and records its
/// result; returns whether that result retires the task.
pub fn settle(listener: &mut TaskListener) -> (r: bool)
    ensures
        settled_from(*old(listener), *final(listener)),
        r == retiring(*old(listener), *final(listener)),
{
    if listener.processed() {
        return false;
    }
    let outcome = match listener.try_receive() {
        Some(result) => Some(result.stage()),
        None => None,
    };
    match outcome {
        Some(stage) => {
            listener.mark_processed();
            if !stage.is_success() {
                listener.mark_stopped();
            }
            leaves_active_list(stage)
        },
        None => false,
    }
}

} // verus!
