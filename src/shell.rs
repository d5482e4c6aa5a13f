//! Values that can be written as parts of a shell command line.
use vstd::prelude::*;

verus! {

/// A value that names the program to run.
pub trait AsShellCommand {
    fn as_shell_command(&self) -> String;
}

/// A value that can be passed to a program as one argument.
pub trait AsShellArg {
    fn as_shell_arg(&self) -> String;
}

} // verus!
