//! The output side of the engine: a fully built process invocation, the
//! temporary script file that must exist before it, and the plan that bundles
//! the two. The caller materializes the temp script (if any), spawns the
//! process (if any), and forgets both: the engine tracks no child process.

use vstd::prelude::*;

verus! {

/// How the console window of a spawned process is set up.
#[derive(Clone, Copy, Debug, PartialEq, Eq, Structural)]
pub enum WindowMode {
    /// No request: the process inherits the platform default.
    Default,
    /// Suppress the console window entirely.
    Hidden,
    /// Force a new, visible console window.
    NewConsole,
}

impl WindowMode {
    /// The process-creation flag word that requests this mode from the OS:
    /// nothing, the no-window flag, or the new-console flag.
    pub fn creation_flags(&self) -> (f: u32)
        ensures
            *self == WindowMode::Default ==> f == 0,
            *self == WindowMode::Hidden ==> f == 0x0800_0000u32,
            *self == WindowMode::NewConsole ==> f == 0x0000_0010u32,
    {
        match self {
            WindowMode::Default => 0,
            WindowMode::Hidden => 0x0800_0000,
            WindowMode::NewConsole => 0x0000_0010,
        }
    }
}

/// One concrete process invocation: the executable, its argument vector, an
/// optional starting directory, and the console-window mode.
pub struct ProcessSpec {
    pub program: String,
    pub args: Vec<String>,
    pub working_dir: Option<String>,
    pub window: WindowMode,
}

impl ProcessSpec {
    /// The invocation runs `program` with exactly the arguments `args`, the
    /// working directory `working_dir` and the window mode `window`.
    pub open spec fn is_invocation(
        self,
        program: Seq<char>,
        args: Seq<Seq<char>>,
        working_dir: Option<Seq<char>>,
        window: WindowMode,
    ) -> bool {
        &&& self.program@ == program
        &&& self.args.deep_view() == args
        &&& self.working_dir.deep_view() == working_dir
        &&& self.window == window
    }
}

/// A temporary script file to write before the spawn: its full path and its
/// exact content. The engine never deletes it.
pub struct TempScript {
    pub path: String,
    pub content: String,
}

impl TempScript {
    /// The file lives at `path` and holds exactly `content`.
    pub open spec fn is_file(self, path: Seq<char>, content: Seq<char>) -> bool {
        &&& self.path@ == path
        &&& self.content@ == content
    }
}

/// Everything one dispatch asks of the caller: at most one temp-script
/// write, then at most one spawn, in that order. Both absent means the
/// request was a no-op.
pub struct LaunchPlan {
    pub temp_script: Option<TempScript>,
    pub process: Option<ProcessSpec>,
}

} // verus!
