//! Records of the library-scanning tasks and the pure steps of the scan
//! pipeline: which files count as audio, the format named by a file name,
//! and quoting text for a SQL literal. Walking directories, reading tags and
//! running statements are left to the caller.
use vstd::prelude::*;
use vstd::string::StringExecFns;

verus! {

/// The stages of the scan pipeline.
#[derive(Clone, Copy, Debug, PartialEq, Eq, Structural)]
pub enum TaskType {
    DirectoryScan,
    MetadataExtraction,
    ExtensionCheck,
    SqlGeneration,
    SqlExecution,
}

impl TaskType {
    /// The stage's name as text.
    pub fn name(&self) -> (r: &'static str)
        ensures
            r@ == task_type_name(*self),
    {
        match self {
            TaskType::DirectoryScan => "DirectoryScan",
            TaskType::MetadataExtraction => "MetadataExtraction",
            TaskType::ExtensionCheck => "ExtensionCheck",
            TaskType::SqlGeneration => "SqlGeneration",
            TaskType::SqlExecution => "SqlExecution",
        }
    }
}

pub open spec fn task_type_name(t: TaskType) -> Seq<char> {
    match t {
        TaskType::DirectoryScan => "DirectoryScan"@,
        TaskType::MetadataExtraction => "MetadataExtraction"@,
        TaskType::ExtensionCheck => "ExtensionCheck"@,
        TaskType::SqlGeneration => "SqlGeneration"@,
        TaskType::SqlExecution => "SqlExecution"@,
    }
}

/// Where a task stands.
#[derive(Clone, Debug, PartialEq)]
pub enum TaskStatus {
    Pending,
    InProgress,
    Completed,
    Failed(String),
}

/// A change of a task's status, as reported to listeners; the timestamp is
/// in seconds since the Unix epoch.
#[derive(Clone, Debug)]
pub struct TaskEvent {
    pub task_id: String,
    pub task_type: TaskType,
    pub status: TaskStatus,
    pub path: Option<String>,
    pub timestamp: u64,
}

/// How many tasks there are, and how many in each status.
#[derive(Clone, Copy, Debug, PartialEq, Eq, Structural)]
pub struct TaskStats {
    pub total_tasks: usize,
    pub pending_tasks: usize,
    pub in_progress_tasks: usize,
    pub completed_tasks: usize,
    pub failed_tasks: usize,
}

/// The value of counter `k` of `stats`: pending, in progress, completed,
/// failed.
pub open spec fn counter_value(stats: TaskStats, k: int) -> usize {
    if k == 0 {
        stats.pending_tasks
    } else if k == 1 {
        stats.in_progress_tasks
    } else if k == 2 {
        stats.completed_tasks
    } else {
        stats.failed_tasks
    }
}

/// The counter a status is counted under: pending, in progress, completed,
/// failed.
pub open spec fn counter_of(status: TaskStatus) -> int {
    match status {
        TaskStatus::Pending => 0,
        TaskStatus::InProgress => 1,
        TaskStatus::Completed => 2,
        TaskStatus::Failed(_) => 3,
    }
}

impl TaskStats {
    /// No tasks at all.
    pub fn new() -> (r: TaskStats)
        ensures
            r == (TaskStats {
                total_tasks: 0,
                pending_tasks: 0,
                in_progress_tasks: 0,
                completed_tasks: 0,
                failed_tasks: 0,
            }),
    {
        TaskStats { total_tasks: 0, pending_tasks: 0, in_progress_tasks: 0, completed_tasks: 0, failed_tasks: 0 }
    }

    /// Counts a newly added task under its status.
    pub fn record_added(&mut self, status: &TaskStatus)
        requires
            old(self).total_tasks < usize::MAX,
            counter_value(*old(self), counter_of(*status)) < usize::MAX,
        ensures
            final(self).total_tasks == old(self).total_tasks + 1,
            forall|k: int|
                0 <= k < 4 ==> #[trigger] counter_value(*final(self), k) == counter_value(*old(self), k)
                    + (if counter_of(*status) == k { 1int } else { 0int }),
    {
        self.total_tasks = self.total_tasks + 1;
        match status {
            TaskStatus::Pending => self.pending_tasks = self.pending_tasks + 1,
            TaskStatus::InProgress => self.in_progress_tasks = self.in_progress_tasks + 1,
            TaskStatus::Completed => self.completed_tasks = self.completed_tasks + 1,
            TaskStatus::Failed(_) => self.failed_tasks = self.failed_tasks + 1,
        }
    }

    /// Moves one task's count from the counter of `old_status` to that of
    /// `new_status`; the total stays.
    pub fn update_stats(&mut self, old_status: &TaskStatus, new_status: &TaskStatus)
        requires
            counter_value(*old(self), counter_of(*old_status)) > 0,
            counter_of(*old_status) == counter_of(*new_status) || counter_value(
                *old(self),
                counter_of(*new_status),
            ) < usize::MAX,
        ensures
            final(self).total_tasks == old(self).total_tasks,
            forall|k: int|
                0 <= k < 4 ==> #[trigger] counter_value(*final(self), k) + (if counter_of(*old_status)
                    == k { 1int } else { 0int }) == counter_value(*old(self), k) + (if counter_of(
                    *new_status,
                ) == k { 1int } else { 0int }),
    {
        match old_status {
            TaskStatus::Pending => self.pending_tasks = self.pending_tasks - 1,
            TaskStatus::InProgress => self.in_progress_tasks = self.in_progress_tasks - 1,
            TaskStatus::Completed => self.completed_tasks = self.completed_tasks - 1,
            TaskStatus::Failed(_) => self.failed_tasks = self.failed_tasks - 1,
        }
        match new_status {
            TaskStatus::Pending => self.pending_tasks = self.pending_tasks + 1,
            TaskStatus::InProgress => self.in_progress_tasks = self.in_progress_tasks + 1,
            TaskStatus::Completed => self.completed_tasks = self.completed_tasks + 1,
            TaskStatus::Failed(_) => self.failed_tasks = self.failed_tasks + 1,
        }
    }
}

/// Relies on `uuid::Uuid::new_v4` and its `Display`, which writes the
/// hyphenated form: a fresh random identifier of 36 characters.
#[verifier::external_body]
fn new_task_id() -> (r: String)
    ensures
        r@.len() == 36,
{
    uuid::Uuid::new_v4().to_string()
}

/// What every task has: a fresh identity, its stage, the path it works on
/// and its status.
#[derive(Clone, Debug)]
pub struct BaseTask {
    id: String,
    task_type: TaskType,
    path: Option<String>,
    status: TaskStatus,
}

/// The content of a task record.
pub struct BaseTaskView {
    pub id: Seq<char>,
    pub task_type: TaskType,
    pub path: Option<Seq<char>>,
    pub status: TaskStatus,
}

impl View for BaseTask {
    type V = BaseTaskView;

    closed spec fn view(&self) -> BaseTaskView {
        BaseTaskView {
            id: self.id@,
            task_type: self.task_type,
            path: match self.path {
                Some(p) => Some(p@),
                None => None,
            },
            status: self.status,
        }
    }
}

impl BaseTask {
    /// A pending task of stage `task_type` on `path`, with a fresh identity.
    pub fn new(task_type: TaskType, path: Option<String>) -> (r: BaseTask)
        ensures
            r@.id.len() == 36,
            r@.task_type == task_type,
            r@.path == (match path {
                Some(p) => Some(p@),
                None => None::<Seq<char>>,
            }),
            r@.status == TaskStatus::Pending,
    {
        BaseTask { id: new_task_id(), task_type, path, status: TaskStatus::Pending }
    }

    pub fn id(&self) -> (r: &String)
        ensures
            r@ == self@.id,
    {
        &self.id
    }

    pub fn task_type(&self) -> (r: TaskType)
        ensures
            r == self@.task_type,
    {
        self.task_type
    }

    pub fn path(&self) -> (r: Option<&String>)
        ensures
            match r {
                Some(p) => self@.path == Some(p@),
                None => self@.path is None,
            },
    {
        self.path.as_ref()
    }

    pub fn status(&self) -> (r: TaskStatus)
        ensures
            r == self@.status,
    {
        self.status.clone_status()
    }

    pub fn set_status(&mut self, status: TaskStatus)
        ensures
            final(self)@ == (BaseTaskView { status, ..old(self)@ }),
    {
        self.status = status;
    }
}

/// Lists the files under a directory.
#[derive(Clone, Debug)]
pub struct DirectoryScanTask {
    pub base: BaseTask,
}

impl DirectoryScanTask {
    pub fn new(path: String) -> (r: DirectoryScanTask)
        ensures
            r.base@.task_type == TaskType::DirectoryScan,
            r.base@.path == Some(path@),
            r.base@.status == TaskStatus::Pending,
            r.base@.id.len() == 36,
    {
        DirectoryScanTask { base: BaseTask::new(TaskType::DirectoryScan, Some(path)) }
    }
}

/// Decides by its extension whether a file is audio.
#[derive(Clone, Debug)]
pub struct ExtensionCheckTask {
    pub base: BaseTask,
}

impl ExtensionCheckTask {
    pub fn new(path: String) -> (r: ExtensionCheckTask)
        ensures
            r.base@.task_type == TaskType::ExtensionCheck,
            r.base@.path == Some(path@),
            r.base@.status == TaskStatus::Pending,
            r.base@.id.len() == 36,
    {
        ExtensionCheckTask { base: BaseTask::new(TaskType::ExtensionCheck, Some(path)) }
    }
}

/// Reads an audio file's tags.
#[derive(Clone, Debug)]
pub struct MetadataExtractionTask {
    pub base: BaseTask,
}

impl MetadataExtractionTask {
    pub fn new(path: String) -> (r: MetadataExtractionTask)
        ensures
            r.base@.task_type == TaskType::MetadataExtraction,
            r.base@.path == Some(path@),
            r.base@.status == TaskStatus::Pending,
            r.base@.id.len() == 36,
    {
        MetadataExtractionTask { base: BaseTask::new(TaskType::MetadataExtraction, Some(path)) }
    }
}

/// Runs one SQL statement for a file.
#[derive(Clone, Debug)]
pub struct SqlExecutionTask {
    pub base: BaseTask,
    pub sql: String,
}

impl SqlExecutionTask {
    pub fn new(path: String, sql: String) -> (r: SqlExecutionTask)
        ensures
            r.base@.task_type == TaskType::SqlExecution,
            r.base@.path == Some(path@),
            r.base@.status == TaskStatus::Pending,
            r.base@.id.len() == 36,
            r.sql@ == sql@,
    {
        SqlExecutionTask { base: BaseTask::new(TaskType::SqlExecution, Some(path)), sql }
    }
}



/// How many tasks of `s` are counted under counter `k`.
pub open spec fn count_status(s: Seq<BaseTaskView>, k: int) -> nat
    decreases s.len(),
{
    if s.len() == 0 {
        0
    } else {
        count_status(s.drop_last(), k) + if counter_of(s.last().status) == k { 1nat } else { 0nat }
    }
}

pub open spec fn task_views(s: Seq<BaseTask>) -> Seq<BaseTaskView> {
    s.map_values(|t: BaseTask| t@)
}

proof fn lemma_count_push(s: Seq<BaseTaskView>, x: BaseTaskView, k: int)
    ensures
        count_status(s.push(x), k) == count_status(s, k) + if counter_of(x.status) == k { 1nat } else { 0nat },
{
    assert(s.push(x).drop_last() =~= s);
}

proof fn lemma_count_update(s: Seq<BaseTaskView>, i: int, x: BaseTaskView, k: int)
    requires
        0 <= i < s.len(),
    ensures
        count_status(s.update(i, x), k) + (if counter_of(s[i].status) == k { 1nat } else { 0nat })
            == count_status(s, k) + (if counter_of(x.status) == k { 1nat } else { 0nat }),
    decreases s.len(),
{
    if i == s.len() - 1 {
        assert(s.update(i, x).drop_last() =~= s.drop_last());
    } else {
        assert(s.update(i, x).drop_last() =~= s.drop_last().update(i, x));
        lemma_count_update(s.drop_last(), i, x, k);
    }
}

proof fn lemma_count_below_len(s: Seq<BaseTaskView>, i: int, k: int)
    requires
        0 <= i < s.len(),
        counter_of(s[i].status) != k,
    ensures
        count_status(s, k) < s.len(),
    decreases s.len(),
{
    lemma_count_at_most_len(s.drop_last(), k);
    if i < s.len() - 1 {
        lemma_count_below_len(s.drop_last(), i, k);
    }
}

proof fn lemma_count_at_most_len(s: Seq<BaseTaskView>, k: int)
    ensures
        count_status(s, k) <= s.len(),
    decreases s.len(),
{
    if s.len() > 0 {
        lemma_count_at_most_len(s.drop_last(), k);
    }
}

proof fn lemma_count_positive(s: Seq<BaseTaskView>, i: int)
    requires
        0 <= i < s.len(),
    ensures
        count_status(s, counter_of(s[i].status)) > 0,
    decreases s.len(),
{
    if i < s.len() - 1 {
        lemma_count_positive(s.drop_last(), i);
    }
}

/// Keeps the record of every task submitted and the counts per status.
pub struct TaskTracker {
    tasks: Vec<BaseTask>,
    stats: TaskStats,
}

impl TaskTracker {
    pub closed spec fn tasks_view(&self) -> Seq<BaseTaskView> {
        task_views(self.tasks@)
    }

    pub closed spec fn stats_view(&self) -> TaskStats {
        self.stats
    }

    /// The counts are those of the recorded tasks.
    pub open spec fn wf(&self) -> bool {
        let v = self.tasks_view();
        let st = self.stats_view();
        &&& st.total_tasks == v.len()
        &&& forall|k: int| 0 <= k < 4 ==> #[trigger] counter_value(st, k) == count_status(v, k)
    }

    /// No tasks yet.
    pub fn new() -> (r: TaskTracker)
        ensures
            r.wf(),
            r.tasks_view().len() == 0,
    {
        TaskTracker { tasks: Vec::new(), stats: TaskStats::new() }
    }

    /// Records `task` and counts it under its status (a newly submitted task
    /// is pending).
    pub fn add_task(&mut self, task: BaseTask)
        requires
            old(self).wf(),
            old(self).tasks_view().len() < usize::MAX,
        ensures
            final(self).wf(),
            final(self).tasks_view() == old(self).tasks_view().push(task@),
    {
        let status = task.status();
        let ghost v0 = self.tasks_view();
        let ghost s0 = self.stats;
        proof {
            let k = counter_of(status);
            assert(counter_value(self.stats, k) == count_status(v0, k));
            lemma_count_at_most_len(v0, k);
            lemma_count_push(v0, task@, 0);
            lemma_count_push(v0, task@, 1);
            lemma_count_push(v0, task@, 2);
            lemma_count_push(v0, task@, 3);
            assert(task_views(self.tasks@.push(task)) =~= v0.push(task@));
        }
        self.tasks.push(task);
        self.stats.record_added(&status);
        assert forall|k: int| 0 <= k < 4 implies #[trigger] counter_value(self.stats, k)
            == count_status(self.tasks_view(), k) by {
            assert(counter_value(s0, k) == count_status(v0, k));
        }
    }

    /// Sets the status of the first task with identity `task_id` and moves
    /// its count; returns its position, or nothing when no task has that
    /// identity.
    pub fn update_status(&mut self, task_id: &String, new_status: TaskStatus) -> (r: Option<usize>)
        requires
            old(self).wf(),
        ensures
            final(self).wf(),
            match r {
                Some(i) => {
                    &&& i < old(self).tasks_view().len()
                    &&& old(self).tasks_view()[i as int].id == task_id@
                    &&& forall|j: int| 0 <= j < i ==> old(self).tasks_view()[j].id != task_id@
                    &&& final(self).tasks_view() == old(self).tasks_view().update(
                        i as int,
                        BaseTaskView { status: new_status, ..old(self).tasks_view()[i as int] },
                    )
                },
                None => {
                    &&& forall|j: int|
                        0 <= j < old(self).tasks_view().len() ==> old(self).tasks_view()[j].id
                            != task_id@
                    &&& final(self).tasks_view() == old(self).tasks_view()
                },
            },
    {
        let mut i: usize = 0;
        while i < self.tasks.len()
            invariant
                self.wf(),
                i <= self.tasks@.len(),
                self.tasks_view() == old(self).tasks_view(),
                self.tasks@ == old(self).tasks@,
                self.stats == old(self).stats,
                forall|j: int| 0 <= j < i ==> self.tasks_view()[j].id != task_id@,
            decreases self.tasks@.len() - i,
        {
            assert(self.tasks_view()[i as int] == self.tasks@[i as int]@);
            if self.tasks[i].id().eq(task_id) {
                let ghost v = self.tasks_view();
                let ghost s0 = self.stats;
                let old_status = self.tasks[i].status();
                let ghost x = BaseTaskView { status: new_status, ..v[i as int] };
                proof {
                    lemma_count_positive(v, i as int);
                    if counter_of(old_status) != counter_of(new_status) {
                        lemma_count_below_len(v, i as int, counter_of(new_status));
                    }
                    lemma_count_update(v, i as int, x, 0);
                    lemma_count_update(v, i as int, x, 1);
                    lemma_count_update(v, i as int, x, 2);
                    lemma_count_update(v, i as int, x, 3);
                }
                let mut task = self.tasks.remove(i);
                task.set_status(new_status.clone_status());
                self.tasks.insert(i, task);
                proof {
                    assert(task_views(self.tasks@) =~= v.update(i as int, x));
                }
                proof {
                    assert(counter_value(s0, counter_of(old_status)) == count_status(v, counter_of(old_status)));
                    assert(counter_value(s0, counter_of(new_status)) == count_status(v, counter_of(new_status)));
                }
                self.stats.update_stats(&old_status, &new_status);
                assert forall|k: int| 0 <= k < 4 implies #[trigger] counter_value(self.stats, k)
                    == count_status(self.tasks_view(), k) by {
                    assert(counter_value(s0, k) == count_status(v, k));
                }
                return Some(i);
            }
            i = i + 1;
        }
        None
    }

    /// The counts per status.
    pub fn get_stats(&self) -> (r: TaskStats)
        ensures
            r == self.stats_view(),
    {
        self.stats
    }

    /// The task at `index`.
    pub fn task(&self, index: usize) -> (r: &BaseTask)
        requires
            index < self.tasks_view().len(),
        ensures
            r@ == self.tasks_view()[index as int],
    {
        &self.tasks[index]
    }
}

/// The text shown for a status: "等待中" (pending), "进行中" (in progress),
/// "已完成" (completed), or "失败: " followed by the failure's message.
pub open spec fn status_label(status: TaskStatus) -> Seq<char> {
    match status {
        TaskStatus::Pending => "等待中"@,
        TaskStatus::InProgress => "进行中"@,
        TaskStatus::Completed => "已完成"@,
        TaskStatus::Failed(m) => "失败: "@ + m@,
    }
}

impl TaskStatus {
    /// The status as text (see `status_label`).
    pub fn label(&self) -> (r: String)
        ensures
            r@ == status_label(*self),
    {
        let mut out = String::new();
        match self {
            TaskStatus::Pending => out.append("等待中"),
            TaskStatus::InProgress => out.append("进行中"),
            TaskStatus::Completed => out.append("已完成"),
            TaskStatus::Failed(m) => {
                out.append("失败: ");
                out.append(m.as_str());
            },
        }
        out
    }

    /// A copy of the status.
    pub fn clone_status(&self) -> (r: TaskStatus)
        ensures
            r == *self,
    {
        match self {
            TaskStatus::Pending => TaskStatus::Pending,
            TaskStatus::InProgress => TaskStatus::InProgress,
            TaskStatus::Completed => TaskStatus::Completed,
            TaskStatus::Failed(m) => TaskStatus::Failed(m.clone()),
        }
    }
}

} // verus!
