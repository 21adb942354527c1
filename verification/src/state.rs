//! The shared timer state and the four operations that mutate or read it.
//!
//! The host keeps one `TimerState` behind its lock; the scheduler task itself
//! lives in the host's runtime and is tracked here by an id, so that starting
//! and cancelling can be reasoned about without the runtime.

use vstd::prelude::*;
use crate::dates::parse_rfc3339_millis;
use crate::dates::rfc3339_millis_of;

verus! {

/// Why an operation on the timer state failed.
#[derive(Clone, Copy, PartialEq, Eq, Structural, Debug)]
pub enum TimerError {
    /// A date string did not parse as an RFC 3339 timestamp.
    InvalidDate,
    /// The remaining time was queried before an end date was set.
    NotConfigured,
}

/// The shared record: enabled flag, the configured date strings, and the id
/// of the live scheduler task, if one runs. `next_task_id` is the source of
/// fresh ids: every id ever handed out is below it.
pub struct TimerState {
    pub enabled: bool,
    pub start_date: Option<String>,
    pub end_date: Option<String>,
    pub active_task: Option<u64>,
    pub next_task_id: u64,
}

/// What `enable` asks the host to do after the state change.
#[derive(Clone, Copy, PartialEq, Eq, Structural, Debug)]
pub enum EnableAction {
    /// Notifications were already enabled: start nothing.
    AlreadyEnabled,
    /// Spawn a fresh scheduler task under this id.
    Start { task: u64 },
}

impl TimerState {
    /// A task handle is held only while notifications are enabled, and every
    /// handed-out id is below `next_task_id`.
    pub open spec fn wf(self) -> bool {
        &&& (self.active_task is Some ==> self.enabled)
        &&& (self.active_task matches Some(t) ==> t < self.next_task_id)
    }

    /// The state a process starts in: enabled, no dates, no task.
    pub fn new() -> (s: TimerState)
        ensures
            s.wf(),
            s.enabled,
            s.start_date is None,
            s.end_date is None,
            s.active_task is None,
            s.next_task_id == 0,
    {
        TimerState {
            enabled: true,
            start_date: None,
            end_date: None,
            active_task: None,
            next_task_id: 0,
        }
    }

    /// Whether the scheduler should be running.
    pub fn status(&self) -> (r: bool)
        ensures
            r == self.enabled,
    {
        self.enabled
    }

    /// Switch notifications on. Idempotent: when already enabled, nothing
    /// changes and nothing is started; otherwise a fresh task id is issued
    /// and recorded, and the host is asked to spawn the task.
    pub fn enable(&mut self) -> (a: EnableAction)
        requires
            old(self).wf(),
            !old(self).enabled ==> old(self).next_task_id < u64::MAX,
        ensures
            final(self).wf(),
            enable_post(*old(self), *final(self), a),
    {
        if self.enabled {
            EnableAction::AlreadyEnabled
        } else {
            self.enabled = true;
            let id = self.next_task_id;
            self.active_task = Some(id);
            self.next_task_id = id + 1;
            EnableAction::Start { task: id }
        }
    }

    /// Switch notifications off. Returns the id of the task the host must
    /// cancel, if one was live.
    pub fn disable(&mut self) -> (c: Option<u64>)
        requires
            old(self).wf(),
        ensures
            final(self).wf(),
            disable_post(*old(self), *final(self), c),
    {
        self.enabled = false;
        let c = self.active_task;
        self.active_task = None;
        c
    }

    /// Store a new start/end date pair. Both strings must parse as RFC 3339
    /// timestamps; on failure nothing is stored and the prior pair stays as
    /// it was. On success both are replaced together.
    pub fn set_dates(&mut self, start_date: String, end_date: String) -> (r: Result<
        (),
        TimerError,
    >)
        ensures
            final(self).enabled == old(self).enabled,
            final(self).active_task == old(self).active_task,
            final(self).next_task_id == old(self).next_task_id,
            old(self).wf() ==> final(self).wf(),
            r is Ok <==> (rfc3339_millis_of(start_date@) is Some && rfc3339_millis_of(end_date@)
                is Some),
            r is Ok ==> final(self).start_date == Some(start_date) && final(self).end_date == Some(
                end_date,
            ),
            r is Err ==> *final(self) == *old(self) && r == Err::<(), TimerError>(
                TimerError::InvalidDate,
            ),
    {
        if parse_rfc3339_millis(start_date.as_str()).is_none() {
            return Err(TimerError::InvalidDate);
        }
        if parse_rfc3339_millis(end_date.as_str()).is_none() {
            return Err(TimerError::InvalidDate);
        }
        self.start_date = Some(start_date);
        self.end_date = Some(end_date);
        Ok(())
    }
}

/// The transition `enable` makes: from `pre` to `post`, asking `a` of the
/// host.
pub open spec fn enable_post(pre: TimerState, post: TimerState, a: EnableAction) -> bool {
    &&& post.enabled
    &&& post.start_date == pre.start_date
    &&& post.end_date == pre.end_date
    &&& (pre.enabled ==> post == pre && a == EnableAction::AlreadyEnabled)
    &&& (!pre.enabled ==> {
        &&& a == (EnableAction::Start { task: pre.next_task_id })
        &&& post.active_task == Some(pre.next_task_id)
        &&& post.next_task_id == pre.next_task_id + 1
    })
}

/// The transition `disable` makes: from `pre` to `post`, handing the host the
/// task to cancel.
pub open spec fn disable_post(pre: TimerState, post: TimerState, c: Option<u64>) -> bool {
    &&& !post.enabled
    &&& post.active_task is None
    &&& c == pre.active_task
    &&& post.start_date == pre.start_date
    &&& post.end_date == pre.end_date
    &&& post.next_task_id == pre.next_task_id
}

/// Enabling twice in a row leaves exactly the task the first call may have
/// started: the second call finds the state enabled, changes nothing and
/// starts nothing. When the first call found notifications off, the one live
/// task is the one it started.
pub proof fn lemma_enable_idempotent(
    s0: TimerState,
    s1: TimerState,
    a1: EnableAction,
    s2: TimerState,
    a2: EnableAction,
)
    requires
        enable_post(s0, s1, a1),
        enable_post(s1, s2, a2),
    ensures
        s2 == s1,
        a2 == EnableAction::AlreadyEnabled,
        !s0.enabled ==> s1.active_task == Some(s0.next_task_id) && s2.active_task == Some(
            s0.next_task_id,
        ),
{
}

/// Disabling and then enabling yields a fresh task: the new id was never
/// handed out before, so the new task is not the one the disable cancelled.
pub proof fn lemma_disable_enable_fresh(
    s0: TimerState,
    s1: TimerState,
    c: Option<u64>,
    s2: TimerState,
    a: EnableAction,
)
    requires
        s0.wf(),
        disable_post(s0, s1, c),
        enable_post(s1, s2, a),
    ensures
        a == (EnableAction::Start { task: s0.next_task_id }),
        s2.active_task == Some(s0.next_task_id),
        c matches Some(t) ==> t != s0.next_task_id,
        s0.active_task matches Some(t) ==> t != s0.next_task_id,
{
}

} // verus!
