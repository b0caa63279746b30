//! App-private directories and foreground state.
use vstd::prelude::*;
use crate::error::BridgeError;

verus! {

/// App-private filesystem paths.
pub struct AppDirs {
    /// Equivalent of `Context.getFilesDir().getAbsolutePath()`.
    pub files_dir: String,
    /// Equivalent of `Context.getCacheDir().getAbsolutePath()`.
    pub cache_dir: String,
}

/// `ActivityManager.RunningAppProcessInfo.IMPORTANCE_FOREGROUND`.
pub const IMPORTANCE_FOREGROUND: i32 = 100;

/// What is asked of the Java side next when checking whether the process is in the foreground.
#[derive(Debug, Clone, Copy, PartialEq, Eq, Structural)]
pub enum FgQuery {
    /// `getSystemService("activity")`: answered by whether it is non-null.
    ActivityManager,
    /// `ActivityManager.getRunningAppProcesses()`: answered by whether it is non-null.
    RunningProcesses,
    /// `List.size()`: answered by the count.
    ProcessCount,
    /// The `pid` of process `index` of `count`: answered by the pid.
    Pid { index: i32, count: i32 },
    /// The `importance` of process `index`: answered by the importance.
    Importance { index: i32 },
}

/// The next step of checking whether the process is in the foreground.
#[derive(Debug, Clone, Copy, PartialEq, Eq, Structural)]
pub enum FgStep {
    Ask(FgQuery),
    Done(bool),
}

/// The first question.
pub fn foreground_start() -> (r: FgStep)
    ensures
        r == FgStep::Ask(FgQuery::ActivityManager),
{
    FgStep::Ask(FgQuery::ActivityManager)
}

/// After the activity manager (`manager == true`) or the process list (`manager == false`)
/// was asked for: without it the process is not in the foreground.
pub fn foreground_after_object(manager: bool, present: bool) -> (r: FgStep)
    ensures
        !present ==> r == FgStep::Done(false),
        present && manager ==> r == FgStep::Ask(FgQuery::RunningProcesses),
        present && !manager ==> r == FgStep::Ask(FgQuery::ProcessCount),
{
    if !present {
        FgStep::Done(false)
    } else if manager {
        FgStep::Ask(FgQuery::RunningProcesses)
    } else {
        FgStep::Ask(FgQuery::ProcessCount)
    }
}

/// After the number of running processes: the first one is looked at, if there is one.
pub fn foreground_after_count(count: i32) -> (r: FgStep)
    ensures
        count > 0 ==> r == FgStep::Ask((FgQuery::Pid { index: 0, count })),
        count <= 0 ==> r == FgStep::Done(false),
{
    if count > 0 {
        FgStep::Ask(FgQuery::Pid { index: 0, count })
    } else {
        FgStep::Done(false)
    }
}

/// After the pid of process `index` of `count`: this process's importance decides when the
/// pid is ours; otherwise the next process is looked at, and without one the answer is no.
pub fn foreground_after_pid(index: i32, count: i32, pid: i32, my_pid: i32) -> (r: FgStep)
    requires
        0 <= index < count,
    ensures
        pid == my_pid ==> r == FgStep::Ask((FgQuery::Importance { index })),
        pid != my_pid && index + 1 < count ==> r == FgStep::Ask((FgQuery::Pid { index: (index + 1) as i32, count })),
        pid != my_pid && index + 1 >= count ==> r == FgStep::Done(false),
{
    if pid == my_pid {
        FgStep::Ask(FgQuery::Importance { index })
    } else if index + 1 < count {
        FgStep::Ask(FgQuery::Pid { index: index + 1, count })
    } else {
        FgStep::Done(false)
    }
}

/// After our process's importance: in the foreground exactly at `IMPORTANCE_FOREGROUND`.
pub fn foreground_after_importance(importance: i32) -> (r: bool)
    ensures
        r == (importance == IMPORTANCE_FOREGROUND),
{
    importance == IMPORTANCE_FOREGROUND
}

/// The answer of the foreground check once its calls are made: a JNI error, or a missing
/// context, counts as "not in the foreground"; any other error (a paused app) is passed on.
pub fn foreground_result(r: Result<bool, BridgeError>) -> (out: Result<bool, BridgeError>)
    ensures
        r is Ok ==> out == r,
        r matches Err(e) ==> ((e is Jni || e is ContextNotInitialized) ==> out == Ok::<bool, BridgeError>(false)),
        r matches Err(e) ==> (!(e is Jni || e is ContextNotInitialized) ==> out == r),
{
    match r {
        Ok(b) => Ok(b),
        Err(e) => match e {
            BridgeError::Jni(_) | BridgeError::ContextNotInitialized => Ok(false),
            other => Err(other),
        },
    }
}

/// The running processes as the Java side reports them.
pub struct ProcessFacts {
    pub manager: bool,
    pub processes: bool,
    pub pids: Seq<i32>,
    pub importance: Seq<i32>,
}

/// The step after `q` under `f`.
pub open spec fn fg_next(f: ProcessFacts, my_pid: i32, q: FgQuery) -> FgStep {
    match q {
        FgQuery::ActivityManager => if f.manager { FgStep::Ask(FgQuery::RunningProcesses) } else { FgStep::Done(false) },
        FgQuery::RunningProcesses => if f.processes { FgStep::Ask(FgQuery::ProcessCount) } else { FgStep::Done(false) },
        FgQuery::ProcessCount => if f.pids.len() > 0 {
            FgStep::Ask(FgQuery::Pid { index: 0, count: f.pids.len() as i32 })
        } else {
            FgStep::Done(false)
        },
        FgQuery::Pid { index, count } => if f.pids[index as int] == my_pid {
            FgStep::Ask(FgQuery::Importance { index })
        } else if index + 1 < count {
            FgStep::Ask(FgQuery::Pid { index: (index + 1) as i32, count })
        } else {
            FgStep::Done(false)
        },
        FgQuery::Importance { index } => FgStep::Done(f.importance[index as int] == IMPORTANCE_FOREGROUND),
    }
}

/// Where `n` more steps lead from `s` under `f`.
pub open spec fn fg_run(f: ProcessFacts, my_pid: i32, s: FgStep, n: nat) -> FgStep
    decreases n,
{
    if n == 0 {
        s
    } else {
        match s {
            FgStep::Done(_) => s,
            FgStep::Ask(q) => fg_run(f, my_pid, fg_next(f, my_pid, q), (n - 1) as nat),
        }
    }
}

/// Whether, among processes `from ..`, the first whose pid is ours is in the foreground.
pub open spec fn first_match_foreground(f: ProcessFacts, my_pid: i32, from: int) -> bool
    decreases f.pids.len() - from,
{
    if from < 0 || from >= f.pids.len() {
        false
    } else if f.pids[from] == my_pid {
        f.importance[from] == IMPORTANCE_FOREGROUND
    } else {
        first_match_foreground(f, my_pid, from + 1)
    }
}

/// The result of the check under `f`.
pub open spec fn spec_in_foreground(f: ProcessFacts, my_pid: i32) -> bool {
    f.manager && f.processes && first_match_foreground(f, my_pid, 0)
}

/// From process `index` on, the scan ends where `first_match_foreground` says.
proof fn lemma_fg_scan(f: ProcessFacts, my_pid: i32, index: int)
    requires
        0 <= index < f.pids.len() <= i32::MAX,
        f.importance.len() == f.pids.len(),
    ensures
        fg_run(f, my_pid, FgStep::Ask(FgQuery::Pid { index: index as i32, count: f.pids.len() as i32 }), (f.pids.len() - index + 1) as nat)
            == FgStep::Done(first_match_foreground(f, my_pid, index)),
    decreases f.pids.len() - index,
{
    let q = FgQuery::Pid { index: index as i32, count: f.pids.len() as i32 };
    let n = (f.pids.len() - index + 1) as nat;
    assert(fg_run(f, my_pid, FgStep::Ask(q), n) == fg_run(f, my_pid, fg_next(f, my_pid, q), (n - 1) as nat));
    if f.pids[index] == my_pid {
        assert(fg_next(f, my_pid, q) == FgStep::Ask(FgQuery::Importance { index: index as i32 }));
        assert(fg_run(f, my_pid, FgStep::Ask(FgQuery::Importance { index: index as i32 }), (n - 1) as nat)
            == FgStep::Done(f.importance[index] == IMPORTANCE_FOREGROUND)) by {
            reveal_with_fuel(fg_run, 2);
        }
        assert(first_match_foreground(f, my_pid, index) == (f.importance[index] == IMPORTANCE_FOREGROUND));
    } else if index + 1 < f.pids.len() {
        assert(fg_next(f, my_pid, q) == FgStep::Ask(FgQuery::Pid { index: (index + 1) as i32, count: f.pids.len() as i32 }));
        lemma_fg_scan(f, my_pid, index + 1);
        assert(first_match_foreground(f, my_pid, index) == first_match_foreground(f, my_pid, index + 1));
        assert((n - 1) as nat == (f.pids.len() - (index + 1) + 1) as nat);
    } else {
        assert(fg_next(f, my_pid, q) == FgStep::Done(false));
        assert(fg_run(f, my_pid, FgStep::Done(false), (n - 1) as nat) == FgStep::Done(false)) by {
            reveal_with_fuel(fg_run, 1);
        }
        assert(first_match_foreground(f, my_pid, index + 1) == false);
        assert(first_match_foreground(f, my_pid, index) == false);
    }
}

/// Asking from the start, the check ends after at most `pids.len() + 4` questions, and the
/// process is in the foreground exactly when the activity manager and the process list
/// exist and the first process with our pid has foreground importance.
pub proof fn lemma_foreground_run(f: ProcessFacts, my_pid: i32)
    requires
        f.pids.len() <= i32::MAX,
        f.importance.len() == f.pids.len(),
    ensures
        fg_run(f, my_pid, FgStep::Ask(FgQuery::ActivityManager), (f.pids.len() + 4) as nat)
            == FgStep::Done(spec_in_foreground(f, my_pid)),
{
    let n = (f.pids.len() + 4) as nat;
    if !f.manager {
        reveal_with_fuel(fg_run, 2);
    } else if !f.processes {
        reveal_with_fuel(fg_run, 3);
    } else if f.pids.len() == 0 {
        reveal_with_fuel(fg_run, 4);
    } else {
        lemma_fg_scan(f, my_pid, 0);
        assert(fg_run(f, my_pid, FgStep::Ask(FgQuery::ActivityManager), n)
            == fg_run(f, my_pid, FgStep::Ask(FgQuery::Pid { index: 0, count: f.pids.len() as i32 }), (n - 3) as nat)) by {
            reveal_with_fuel(fg_run, 4);
        }
    }
}

} // verus!
