use vstd::prelude::*;
use vstd::string::*;

verus! {

/// An external program invocation: the program name, its arguments, and
/// extra environment variables. The caller spawns it and reports back what
/// happened as a `CommandOutcome`.
pub struct CommandSpec {
    pub program: String,
    pub args: Vec<String>,
    pub envs: Vec<(String, String)>,
}

impl CommandSpec {
    pub fn new(program: &str) -> (r: CommandSpec)
        ensures
            r.program@ == program@,
            r.args@.len() == 0,
            r.envs@.len() == 0,
    {
        CommandSpec { program: String::from_str(program), args: Vec::new(), envs: Vec::new() }
    }
}

/// What became of one spawned external program.
pub enum CommandOutcome {
    /// The program could not be started; carries the system's error text.
    SpawnFailed(String),
    /// Waiting on the program failed; carries the system's error text.
    WaitFailed(String),
    /// The program ran; `Some` holds its exit code, `None` means it was
    /// ended by a signal.
    Exited(Option<i32>),
}

impl CommandOutcome {
    /// The program ran and exited cleanly with code zero.
    pub open spec fn spec_succeeded(&self) -> bool {
        match self {
            CommandOutcome::Exited(code) => *code == Some(0i32),
            _ => false,
        }
    }

    pub fn succeeded(&self) -> (r: bool)
        ensures
            r == self.spec_succeeded(),
    {
        match self {
            CommandOutcome::Exited(code) => match code {
                Some(c) => *c == 0,
                None => false,
            },
            _ => false,
        }
    }
}

} // verus!
