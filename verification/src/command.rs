//! The caller-owned description of the process that is to take over.

use vstd::prelude::*;

verus! {

/// A command specification: the program to run, its ordered arguments, the
/// environment overrides to apply, an optional working directory, and
/// whether the child inherits the parent's standard streams.
///
/// The caller configures it freely before invoking replacement; the
/// replacement operation only reads it.
#[derive(Debug, Clone, PartialEq, Eq)]
pub struct CommandSpec {
    pub program: String,
    pub args: Vec<String>,
    pub env: Vec<(String, String)>,
    pub cwd: Option<String>,
    pub inherit_stdio: bool,
}

impl CommandSpec {
    /// A specification for `program` with no arguments, no environment
    /// overrides, the caller's own working directory, and inherited stdio.
    pub fn new(program: String) -> (s: CommandSpec)
        ensures
            s.program == program,
            s.args@ == Seq::<String>::empty(),
            s.env@ == Seq::<(String, String)>::empty(),
            s.cwd is None,
            s.inherit_stdio,
    {
        CommandSpec {
            program,
            args: Vec::new(),
            env: Vec::new(),
            cwd: None,
            inherit_stdio: true,
        }
    }

    /// Append one argument.
    pub fn arg(&mut self, a: String)
        ensures
            final(self).args@ == old(self).args@.push(a),
            final(self).program == old(self).program,
            final(self).env == old(self).env,
            final(self).cwd == old(self).cwd,
            final(self).inherit_stdio == old(self).inherit_stdio,
    {
        self.args.push(a);
    }

    /// Append a whole list of arguments, keeping their order.
    pub fn args(&mut self, list: Vec<String>)
        ensures
            final(self).args@ == old(self).args@ + list@,
            final(self).program == old(self).program,
            final(self).env == old(self).env,
            final(self).cwd == old(self).cwd,
            final(self).inherit_stdio == old(self).inherit_stdio,
    {
        let mut rest = list;
        self.args.append(&mut rest);
    }

    /// Add one environment override for the child.
    pub fn env(&mut self, name: String, value: String)
        ensures
            final(self).env@ == old(self).env@.push((name, value)),
            final(self).program == old(self).program,
            final(self).args == old(self).args,
            final(self).cwd == old(self).cwd,
            final(self).inherit_stdio == old(self).inherit_stdio,
    {
        self.env.push((name, value));
    }

    /// Set the working directory the child starts in.
    pub fn current_dir(&mut self, dir: String)
        ensures
            final(self).cwd == Some(dir),
            final(self).program == old(self).program,
            final(self).args == old(self).args,
            final(self).env == old(self).env,
            final(self).inherit_stdio == old(self).inherit_stdio,
    {
        self.cwd = Some(dir);
    }

    /// Choose whether the child inherits the parent's standard streams.
    pub fn inherit_stdio(&mut self, inherit: bool)
        ensures
            final(self).inherit_stdio == inherit,
            final(self).program == old(self).program,
            final(self).args == old(self).args,
            final(self).env == old(self).env,
            final(self).cwd == old(self).cwd,
    {
        self.inherit_stdio = inherit;
    }
}

} // verus!
