//! Results of executions.
use vstd::prelude::*;

use crate::stamp::{new_uuid, unix_now, utc_now};
use crate::text::{contains, push_str};

verus! {

/// The result of an execution.
#[derive(Debug, Clone)]
pub enum ExecutionResult {
    /// It succeeded, with its output.
    Success(String),
    /// It failed, with its error.
    Failure(String),
    /// It ran out of time.
    Timeout,
    /// It is still running.
    Pending,
}

impl ExecutionResult {
    /// Whether it succeeded.
    pub fn is_success(&self) -> (b: bool)
        ensures
            b == (self is Success),
    {
        match self {
            ExecutionResult::Success(_) => true,
            _ => false,
        }
    }

    /// Whether it failed.
    pub fn is_failure(&self) -> (b: bool)
        ensures
            b == (self is Failure),
    {
        match self {
            ExecutionResult::Failure(_) => true,
            _ => false,
        }
    }

    /// Whether it is still running.
    pub fn is_pending(&self) -> (b: bool)
        ensures
            b == (self is Pending),
    {
        match self {
            ExecutionResult::Pending => true,
            _ => false,
        }
    }

    /// The output or error, where there is one.
    pub fn message(&self) -> (r: Option<&str>)
        ensures
            match self {
                ExecutionResult::Success(m) => r is Some && r->0@ == m@,
                ExecutionResult::Failure(m) => r is Some && r->0@ == m@,
                _ => r is None,
            },
    {
        match self {
            ExecutionResult::Success(msg) => Some(msg.as_str()),
            ExecutionResult::Failure(msg) => Some(msg.as_str()),
            _ => None,
        }
    }

    /// The text that the result displays.
    pub fn display(&self) -> (s: String)
        ensures
            s@ == match self {
                ExecutionResult::Success(m) => "Success: "@ + m@,
                ExecutionResult::Failure(m) => "Failure: "@ + m@,
                ExecutionResult::Timeout => "Timeout"@,
                ExecutionResult::Pending => "Pending"@,
            },
    {
        let mut s = String::new();
        match self {
            ExecutionResult::Success(m) => {
                push_str(&mut s, "Success: ");
                push_str(&mut s, m.as_str());
            },
            ExecutionResult::Failure(m) => {
                push_str(&mut s, "Failure: ");
                push_str(&mut s, m.as_str());
            },
            ExecutionResult::Timeout => push_str(&mut s, "Timeout"),
            ExecutionResult::Pending => push_str(&mut s, "Pending"),
        }
        s
    }
}

/// The feedback of one execution of a node's task.
#[derive(Debug, Clone)]
pub struct FeedbackItem {
    /// The node.
    pub node_id: String,
    /// What came of it.
    pub result: ExecutionResult,
    /// When, in RFC 3339 (UTC).
    pub timestamp: String,
    /// How many times it was retried.
    pub retry_count: usize,
}

impl FeedbackItem {
    /// Feedback made now, not retried.
    pub fn new(node_id: String, result: ExecutionResult) -> (f: Self)
        ensures
            f.node_id == node_id,
            f.result == result,
            f.retry_count == 0,
    {
        FeedbackItem { node_id, result, timestamp: utc_now(), retry_count: 0 }
    }

    /// The feedback of a success.
    pub fn success(node_id: String, message: String) -> (f: Self)
        ensures
            f.node_id == node_id,
            f.result == ExecutionResult::Success(message),
            f.retry_count == 0,
    {
        Self::new(node_id, ExecutionResult::Success(message))
    }

    /// The feedback of a failure.
    pub fn failure(node_id: String, message: String) -> (f: Self)
        ensures
            f.node_id == node_id,
            f.result == ExecutionResult::Failure(message),
            f.retry_count == 0,
    {
        Self::new(node_id, ExecutionResult::Failure(message))
    }

    /// The feedback of a timeout.
    pub fn timeout(node_id: String) -> (f: Self)
        ensures
            f.node_id == node_id,
            f.result == ExecutionResult::Timeout,
            f.retry_count == 0,
    {
        Self::new(node_id, ExecutionResult::Timeout)
    }

    /// The feedback of an execution still running.
    pub fn pending(node_id: String) -> (f: Self)
        ensures
            f.node_id == node_id,
            f.result == ExecutionResult::Pending,
            f.retry_count == 0,
    {
        Self::new(node_id, ExecutionResult::Pending)
    }

    /// Counts one more retry.
    pub fn increment_retry(&mut self)
        requires
            old(self).retry_count < usize::MAX,
        ensures
            *final(self) == (FeedbackItem { retry_count: (old(self).retry_count + 1) as usize, ..*old(self) }),
    {
        self.retry_count = self.retry_count + 1;
    }
}

/// A task to execute for a node.
#[derive(Debug, Clone)]
pub struct ExecutionTask {
    /// Its identifier (a UUID).
    pub id: String,
    /// The node.
    pub node_id: String,
    /// The command.
    pub command: String,
    /// The result expected, if any.
    pub expected_result: Option<String>,
    /// How long it may run, in seconds.
    pub timeout_secs: u64,
    /// When it was made, in seconds since 1970 (UTC).
    pub created_at: i64,
}

impl ExecutionTask {
    /// A task made now, with thirty seconds and no expected result.
    pub fn new(node_id: String, command: String) -> (t: Self)
        ensures
            t.id@.len() == 36,
            t.node_id == node_id,
            t.command == command,
            t.expected_result is None,
            t.timeout_secs == 30,
    {
        ExecutionTask { id: new_uuid(), node_id, command, expected_result: None, timeout_secs: 30, created_at: unix_now() }
    }

    /// The task with another time limit.
    pub fn with_timeout(self, secs: u64) -> (t: Self)
        ensures
            t == (ExecutionTask { timeout_secs: secs, ..self }),
    {
        let mut t = self;
        t.timeout_secs = secs;
        t
    }

    /// The task with an expected result.
    pub fn with_expected_result(self, result: String) -> (t: Self)
        ensures
            t == (ExecutionTask { expected_result: Some(result), ..self }),
    {
        let mut t = self;
        t.expected_result = Some(result);
        t
    }
}

/// The history after one more feedback: the oldest dropped once it is
/// longer than the limit.
pub open spec fn pushed_history(h: Seq<FeedbackItem>, f: FeedbackItem, max: usize) -> Seq<FeedbackItem> {
    let g = h.push(f);
    if g.len() > max {
        g.drop_first()
    } else {
        g
    }
}

/// The place of the last feedback of a node that `p` accepts, if any.
pub open spec fn last_feedback(h: Seq<FeedbackItem>, node_id: Seq<char>, failed_only: bool) -> Option<int>
    decreases h.len(),
{
    if h.len() == 0 {
        None
    } else if h.last().node_id@ == node_id && (!failed_only || h.last().result is Failure) {
        Some(h.len() - 1)
    } else {
        last_feedback(h.drop_last(), node_id, failed_only)
    }
}

/// The tasks still fresh at a time (seconds since 1970): made less than
/// five minutes before it.
pub open spec fn fresh_tasks(ts: Seq<ExecutionTask>, now: int) -> Seq<ExecutionTask> {
    ts.filter(|t: ExecutionTask| t.created_at > now - 300)
}

/// The text of a retry without a failed task.
pub open spec fn no_failed_task(node_id: Seq<char>) -> Seq<char> {
    "No failed task found for node "@ + node_id
}

/// Runs the tasks of nodes: the pending tasks, and the feedback history,
/// which keeps the latest `max_history` items.
#[derive(Debug, Clone)]
pub struct ExecutionBridge {
    /// The pending tasks, oldest first.
    pub pending_tasks: Vec<ExecutionTask>,
    /// The feedback history, oldest first.
    pub feedback_history: Vec<FeedbackItem>,
    /// How many feedback items are kept.
    pub max_history: usize,
}

impl ExecutionBridge {
    /// The pending tasks, oldest first.
    pub open spec fn pending_spec(&self) -> Seq<ExecutionTask> {
        self.pending_tasks@
    }

    /// The feedback history, oldest first.
    pub open spec fn history_spec(&self) -> Seq<FeedbackItem> {
        self.feedback_history@
    }

    /// No task and no feedback; a hundred feedback items kept.
    pub fn new() -> (b: Self)
        ensures
            b.pending_spec().len() == 0,
            b.history_spec().len() == 0,
            b.max_history == 100,
    {
        ExecutionBridge { pending_tasks: Vec::new(), feedback_history: Vec::new(), max_history: 100 }
    }

    /// The number of pending tasks.
    pub fn pending_count(&self) -> (n: usize)
        ensures
            n == self.pending_spec().len(),
    {
        self.pending_tasks.len()
    }

    /// The number of feedback items.
    pub fn feedback_count(&self) -> (n: usize)
        ensures
            n == self.history_spec().len(),
    {
        self.feedback_history.len()
    }

    /// The latest feedback.
    pub fn latest_feedback(&self) -> (r: Option<&FeedbackItem>)
        ensures
            match r {
                Some(f) => self.history_spec().len() > 0 && *f == self.history_spec().last(),
                None => self.history_spec().len() == 0,
            },
    {
        if self.feedback_history.len() == 0 {
            None
        } else {
            Some(&self.feedback_history[self.feedback_history.len() - 1])
        }
    }

    /// The place of the last feedback of a node (of a failure only where
    /// `failed_only`).
    fn last_index(&self, node_id: &str, failed_only: bool) -> (r: Option<usize>)
        ensures
            match r {
                Some(i) => last_feedback(self.history_spec(), node_id@, failed_only) == Some(i as int) && i
                    < self.history_spec().len(),
                None => last_feedback(self.history_spec(), node_id@, failed_only) is None,
            },
    {
        let ghost h = self.feedback_history@;
        let mut i: usize = self.feedback_history.len();
        assert(h.take(h.len() as int) =~= h);
        while i > 0
            invariant
                i <= h.len(),
                h == self.feedback_history@,
                last_feedback(h, node_id@, failed_only) == last_feedback(h.take(i as int), node_id@, failed_only),
            decreases i,
        {
            let f = &self.feedback_history[i - 1];
            assert(h.take(i as int).last() == h[i - 1]);
            assert(h.take(i as int).drop_last() =~= h.take(i - 1));
            if crate::text::same_text(f.node_id.as_str(), node_id) && (!failed_only || f.result.is_failure()) {
                return Some(i - 1);
            }
            i = i - 1;
        }
        assert(h.take(0) =~= Seq::<FeedbackItem>::empty());
        None
    }

    /// The latest feedback of a node.
    pub fn get_feedback_for_node(&self, node_id: &str) -> (r: Option<&FeedbackItem>)
        ensures
            match last_feedback(self.history_spec(), node_id@, false) {
                Some(i) => r is Some && *r->0 == self.history_spec()[i],
                None => r is None,
            },
    {
        proof {
            assert(self.history_spec().take(self.history_spec().len() as int) =~= self.history_spec());
        }
        match self.last_index(node_id, false) {
            Some(i) => Some(&self.feedback_history[i]),
            None => None,
        }
    }

    /// Every feedback of a node, oldest first.
    pub fn get_all_feedback_for_node(&self, node_id: &str) -> (r: Vec<&FeedbackItem>)
        ensures
            r@.map_values(|f: &FeedbackItem| *f) == self.history_spec().filter(
                |f: FeedbackItem| f.node_id@ == node_id@,
            ),
    {
        let ghost p = |f: FeedbackItem| f.node_id@ == node_id@;
        let ghost h = self.feedback_history@;
        let mut r: Vec<&FeedbackItem> = Vec::new();
        let mut i: usize = 0;
        assert(h.take(0) =~= Seq::<FeedbackItem>::empty());
        assert(Seq::<FeedbackItem>::empty().filter(p) =~= Seq::<FeedbackItem>::empty()) by {
            reveal(Seq::filter);
        }
        while i < self.feedback_history.len()
            invariant
                i <= h.len(),
                h == self.feedback_history@,
                p == (|f: FeedbackItem| f.node_id@ == node_id@),
                r@.map_values(|f: &FeedbackItem| *f) == h.take(i as int).filter(p),
            decreases h.len() - i,
        {
            proof {
                assert(h.take(i + 1) =~= h.take(i as int).push(h[i as int]));
                h.take(i as int).lemma_filter_push(h[i as int], p);
            }
            if crate::text::same_text(self.feedback_history[i].node_id.as_str(), node_id) {
                let ghost before = r@.map_values(|f: &FeedbackItem| *f);
                r.push(&self.feedback_history[i]);
                assert(r@.map_values(|f: &FeedbackItem| *f) =~= before.push(h[i as int]));
            }
            i = i + 1;
        }
        assert(h.take(h.len() as int) =~= h);
        r
    }

    /// Adds a pending task.
    pub fn enqueue(&mut self, task: ExecutionTask)
        ensures
            final(self).pending_spec() == old(self).pending_spec().push(task),
            final(self).history_spec() == old(self).history_spec(),
            final(self).max_history == old(self).max_history,
    {
        self.pending_tasks.push(task);
    }

    /// Drops the pending tasks made five minutes or more before a time
    /// (see `fresh_tasks`).
    pub fn cleanup_stale_tasks_at(&mut self, now: i64)
        ensures
            final(self).pending_spec() == fresh_tasks(old(self).pending_spec(), now as int),
            final(self).history_spec() == old(self).history_spec(),
            final(self).max_history == old(self).max_history,
    {
        let ghost p = |t: ExecutionTask| t.created_at > now - 300;
        let ghost src = self.pending_tasks@;
        let mut kept: Vec<ExecutionTask> = Vec::new();
        let mut i: usize = 0;
        assert(src.take(0) =~= Seq::<ExecutionTask>::empty());
        assert(Seq::<ExecutionTask>::empty().filter(p) =~= Seq::<ExecutionTask>::empty()) by {
            reveal(Seq::filter);
        }
        while i < self.pending_tasks.len()
            invariant
                i <= src.len(),
                src == self.pending_tasks@,
                p == (|t: ExecutionTask| t.created_at > now - 300),
                kept@ == src.take(i as int).filter(p),
            decreases src.len() - i,
        {
            proof {
                assert(src.take(i + 1) =~= src.take(i as int).push(src[i as int]));
                src.take(i as int).lemma_filter_push(src[i as int], p);
            }
            let t = &self.pending_tasks[i];
            if (t.created_at as i128) > (now as i128) - 300 {
                kept.push(t.clone_task());
            }
            i = i + 1;
        }
        assert(src.take(src.len() as int) =~= src);
        self.pending_tasks = kept;
    }

    /// Records the result of running a node's command (after dropping the
    /// stale tasks at the given time) and gives it back.
    pub fn execute_next(&mut self, node_id: &str, result: ExecutionResult, now: i64) -> (r: ExecutionResult)
        ensures
            r == result,
            final(self).pending_spec() == fresh_tasks(old(self).pending_spec(), now as int),
            final(self).max_history == old(self).max_history,
            exists|f: FeedbackItem|
                f.node_id@ == node_id@ && f.result == result && f.retry_count == 0 && final(self).history_spec()
                    == pushed_history(old(self).history_spec(), f, old(self).max_history),
    {
        self.cleanup_stale_tasks_at(now);
        let feedback = FeedbackItem::new(String::from_str(node_id), result.clone_result());
        self.push_feedback(feedback);
        result
    }

    /// Whether the latest feedback of a node has a message that holds the
    /// expected text.
    pub fn verify(&self, node_id: &str, expected: &str) -> (b: bool)
        ensures
            b == match last_feedback(self.history_spec(), node_id@, false) {
                Some(i) => match self.history_spec()[i].result {
                    ExecutionResult::Success(m) => contains(m@, expected@),
                    ExecutionResult::Failure(m) => contains(m@, expected@),
                    _ => false,
                },
                None => false,
            },
    {
        match self.get_feedback_for_node(node_id) {
            Some(f) => match f.result.message() {
                Some(m) => {
                    let a = crate::text::chars_of(m);
                    let e = crate::text::chars_of(expected);
                    crate::text::contains_exec(a.as_slice(), e.as_slice())
                },
                None => false,
            },
            None => false,
        }
    }

    /// The command to run again for a node: `echo retry` and the node, where
    /// the node has a failed feedback.
    pub fn retry_command(&self, node_id: &str) -> (r: Option<String>)
        ensures
            match last_feedback(self.history_spec(), node_id@, true) {
                Some(_) => r is Some && r->0@ == "echo retry "@ + node_id@,
                None => r is None,
            },
    {
        proof {
            assert(self.history_spec().take(self.history_spec().len() as int) =~= self.history_spec());
        }
        match self.last_index(node_id, true) {
            Some(_) => {
                let mut c = String::from_str("echo retry ");
                push_str(&mut c, node_id);
                Some(c)
            },
            None => None,
        }
    }

    /// Records the result of a retry of a node: a copy of its latest failed
    /// feedback, one retry more, with the new result and the current time;
    /// without a failed feedback, a failure saying so and no change.
    pub fn retry(&mut self, node_id: &str, result: ExecutionResult) -> (r: ExecutionResult)
        ensures
            final(self).pending_spec() == old(self).pending_spec(),
            final(self).max_history == old(self).max_history,
            match last_feedback(old(self).history_spec(), node_id@, true) {
                Some(i) => {
                    let f = old(self).history_spec()[i];
                    &&& r == result
                    &&& exists|g: FeedbackItem|
                        g.node_id == f.node_id && g.result == result && g.retry_count == (if f.retry_count
                            < usize::MAX {
                            f.retry_count + 1
                        } else {
                            f.retry_count as int
                        }) && final(self).history_spec() == pushed_history(
                            old(self).history_spec(),
                            g,
                            old(self).max_history,
                        )
                },
                None => r matches ExecutionResult::Failure(m) && m@ == no_failed_task(node_id@)
                    && final(self).history_spec() == old(self).history_spec(),
            },
    {
        proof {
            assert(self.history_spec().take(self.history_spec().len() as int) =~= self.history_spec());
        }
        match self.last_index(node_id, true) {
            Some(i) => {
                let old_f = &self.feedback_history[i];
                let retried = FeedbackItem {
                    node_id: old_f.node_id.clone(),
                    result: result.clone_result(),
                    timestamp: utc_now(),
                    retry_count: old_f.retry_count.saturating_add(1),
                };
                self.push_feedback(retried);
                result
            },
            None => {
                let mut m = String::from_str("No failed task found for node ");
                push_str(&mut m, node_id);
                ExecutionResult::Failure(m)
            },
        }
    }

    /// Drops every pending task.
    pub fn clear_pending(&mut self)
        ensures
            final(self).pending_spec().len() == 0,
            final(self).history_spec() == old(self).history_spec(),
            final(self).max_history == old(self).max_history,
    {
        self.pending_tasks = Vec::new();
    }

    /// Adds a feedback, dropping the oldest once there are more than
    /// `max_history` (see `pushed_history`).
    pub fn push_feedback(&mut self, feedback: FeedbackItem)
        ensures
            final(self).history_spec() == pushed_history(old(self).history_spec(), feedback, old(self).max_history),
            final(self).pending_spec() == old(self).pending_spec(),
            final(self).max_history == old(self).max_history,
    {
        self.feedback_history.push(feedback);
        if self.feedback_history.len() > self.max_history {
            self.feedback_history.remove(0);
        }
    }
}

impl ExecutionResult {
    /// A copy.
    pub fn clone_result(&self) -> (r: Self)
        ensures
            r == *self,
    {
        match self {
            ExecutionResult::Success(m) => ExecutionResult::Success(m.clone()),
            ExecutionResult::Failure(m) => ExecutionResult::Failure(m.clone()),
            ExecutionResult::Timeout => ExecutionResult::Timeout,
            ExecutionResult::Pending => ExecutionResult::Pending,
        }
    }
}

impl ExecutionTask {
    /// A copy.
    pub fn clone_task(&self) -> (t: Self)
        ensures
            t == *self,
    {
        ExecutionTask {
            id: self.id.clone(),
            node_id: self.node_id.clone(),
            command: self.command.clone(),
            expected_result: match &self.expected_result {
                Some(e) => Some(e.clone()),
                None => None,
            },
            timeout_secs: self.timeout_secs,
            created_at: self.created_at,
        }
    }
}

} // verus!

