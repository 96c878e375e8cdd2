//! What the project's task runner runs.

use vstd::prelude::*;
use vstd::string::StrSliceExecFns;

verus! {

/// Default target of the host unit tests. The chip features bring section
/// attributes that only compile for an ELF target.
pub const HOST_TARGET: &'static str = "x86_64-unknown-linux-gnu";

/// Target of the firmware.
pub const EMBEDDED_TARGET: &'static str = "thumbv7em-none-eabihf";

/// Chip that the register tests run on.
pub const HIL_CHIP: &'static str = "nRF52833_xxAA";

/// Environment variable that names the runner of the register tests.
pub const RUNNER_VARIABLE: &'static str = "CARGO_TARGET_THUMBV7EM_NONE_EABIHF_RUNNER";

/// The runner of the register tests.
pub const HIL_RUNNER: &'static str = "probe-rs run --chip nRF52833_xxAA";

/// One step of the task runner.
#[derive(Debug, Clone, PartialEq, Eq)]
pub enum Task {
    /// Unit tests on a host, for this target.
    TestHost(String),
    /// Register tests on a chip.
    TestHw,
}

/// One step, in plain values.
#[verifier::ext_equal]
pub enum TaskView {
    /// Unit tests on a host, for this target.
    TestHost(Seq<char>),
    /// Register tests on a chip.
    TestHw,
}

impl View for Task {
    type V = TaskView;

    open spec fn view(&self) -> TaskView {
        match self {
            Task::TestHost(target) => TaskView::TestHost(target@),
            Task::TestHw => TaskView::TestHw,
        }
    }
}

/// Texts, in plain values.
pub open spec fn texts(v: Seq<String>) -> Seq<Seq<char>> {
    Seq::new(v.len(), |i: int| v[i]@)
}

/// Steps, in plain values.
pub open spec fn steps(v: Seq<Task>) -> Seq<TaskView> {
    Seq::new(v.len(), |i: int| v[i]@)
}

/// The steps that a command line asks for, or none where it is not understood.
pub open spec fn planned(args: Seq<Seq<char>>) -> Option<Seq<TaskView>> {
    if args.len() == 0 {
        None
    } else if args[0] == "test"@ {
        Some(seq![TaskView::TestHost(HOST_TARGET@), TaskView::TestHw])
    } else if args[0] == "test-host"@ {
        Some(
            seq![
                TaskView::TestHost(
                    if args.len() > 1 {
                        args[1]
                    } else {
                        HOST_TARGET@
                    },
                ),
            ],
        )
    } else if args[0] == "test-hw"@ {
        Some(seq![TaskView::TestHw])
    } else {
        None
    }
}

/// The arguments with which a step runs cargo.
pub open spec fn cargo_line(task: TaskView) -> Seq<Seq<char>> {
    match task {
        TaskView::TestHost(target) => seq![
            "test"@,
            "--lib"@,
            "--target"@,
            target,
            "--features"@,
            "nrf52840"@,
        ],
        TaskView::TestHw => seq![
            "test"@,
            "--test"@,
            "hw"@,
            "--target"@,
            EMBEDDED_TARGET@,
            "--features"@,
            "nrf52833,defmt,_cs-cortex"@,
        ],
    }
}

/// Whether two texts are the same.
fn same_text(a: &str, b: &str) -> (r: bool)
    ensures
        r == (a@ == b@),
{
    let n: usize = a.unicode_len();
    if n != b.unicode_len() {
        return false;
    }
    let mut i: usize = 0;
    while i < n
        invariant
            i <= n,
            n == a@.len(),
            n == b@.len(),
            forall|j: int| 0 <= j < i ==> a@[j] == b@[j],
        decreases n - i,
    {
        if a.get_char(i) != b.get_char(i) {
            assert(a@[i as int] != b@[i as int]);
            return false;
        }
        i = i + 1;
    }
    assert(a@ =~= b@);
    true
}

/// The steps that a command line asks for.
pub fn plan(args: &Vec<String>) -> (r: Option<Vec<Task>>)
    ensures
        match planned(texts(args@)) {
            Some(tasks) => r is Some && steps(r->0@) == tasks,
            None => r is None,
        },
{
    if args.len() == 0 {
        return None;
    }
    let command: &str = args[0].as_str();
    if same_text(command, "test") {
        let tasks = vec![Task::TestHost(HOST_TARGET.to_owned()), Task::TestHw];
        assert(steps(tasks@) =~= planned(texts(args@))->0);
        Some(tasks)
    } else if same_text(command, "test-host") {
        let target: String = if args.len() > 1 {
            args[1].as_str().to_owned()
        } else {
            HOST_TARGET.to_owned()
        };
        let tasks = vec![Task::TestHost(target)];
        assert(steps(tasks@) =~= planned(texts(args@))->0);
        Some(tasks)
    } else if same_text(command, "test-hw") {
        let tasks = vec![Task::TestHw];
        assert(steps(tasks@) =~= planned(texts(args@))->0);
        Some(tasks)
    } else {
        None
    }
}

/// The arguments with which a step runs cargo, and the runner that it is given.
pub fn cargo_args(task: &Task) -> (r: (Vec<String>, Option<String>))
    ensures
        texts(r.0@) == cargo_line(task@),
        task is TestHw ==> r.1 is Some && r.1->0@ == HIL_RUNNER@,
        task is TestHost ==> r.1 is None,
{
    match task {
        Task::TestHost(target) => {
            let args = vec![
                "test".to_owned(),
                "--lib".to_owned(),
                "--target".to_owned(),
                target.as_str().to_owned(),
                "--features".to_owned(),
                "nrf52840".to_owned(),
            ];
            assert(texts(args@) =~= cargo_line(task@));
            (args, None)
        },
        Task::TestHw => {
            let args = vec![
                "test".to_owned(),
                "--test".to_owned(),
                "hw".to_owned(),
                "--target".to_owned(),
                EMBEDDED_TARGET.to_owned(),
                "--features".to_owned(),
                "nrf52833,defmt,_cs-cortex".to_owned(),
            ];
            assert(texts(args@) =~= cargo_line(task@));
            (args, Some(HIL_RUNNER.to_owned()))
        },
    }
}

/// The whole test run is the host's tests on the default target and the chip's tests
/// behind them; a target can be named for the host's tests alone, and a command that
/// is not known plans nothing.
pub proof fn law_test_runs_both(args: Seq<Seq<char>>, target: Seq<char>)
    ensures
        args.len() > 0 && args[0] == "test"@ ==> planned(args) == Some(
            planned(seq!["test-host"@])->0 + planned(seq!["test-hw"@])->0,
        ),
        planned(seq!["test-host"@, target]) == Some(seq![TaskView::TestHost(target)]),
        planned(args) is Some ==> args.len() > 0 && (args[0] == "test"@ || args[0] == "test-host"@
            || args[0] == "test-hw"@),
{
    reveal_strlit("test");
    reveal_strlit("test-host");
    reveal_strlit("test-hw");
    assert("test"@.len() == 4);
    assert("test-host"@.len() == 9);
    assert("test-hw"@.len() == 7);
    let host = seq!["test-host"@];
    let hw = seq!["test-hw"@];
    let named = seq!["test-host"@, target];
    assert(host[0] == "test-host"@ && hw[0] == "test-hw"@);
    assert(named[0] == "test-host"@ && named[1] == target);
    assert(planned(host)->0 + planned(hw)->0 =~= seq![
        TaskView::TestHost(HOST_TARGET@),
        TaskView::TestHw,
    ]);
}

} // verus!
