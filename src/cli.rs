//! The command line: `<program> -monitorFile <path>`.

use vstd::prelude::*;

verus! {

/// The one flag the program takes.
pub const MONITOR_FILE_FLAG: &'static str = "-monitorFile";

/// A command line of the wrong shape.
#[derive(Clone, Copy, Debug, PartialEq, Eq)]
pub enum ArgumentError {
    /// Not exactly the program name, the flag and a path.
    WrongCount,
    /// The first argument is not the flag.
    MissingFlag,
}

impl ArgumentError {
    /// The diagnostic line for the error.
    pub fn message(&self) -> (r: &'static str)
        ensures
            *self == ArgumentError::WrongCount ==> r@ == "Arguments parsed, but expected 3 arguments"@,
            *self == ArgumentError::MissingFlag ==> r@ == "First argument must be -monitorFile"@,
    {
        proof {
            reveal_strlit("Arguments parsed, but expected 3 arguments");
            reveal_strlit("First argument must be -monitorFile");
        }
        match self {
            ArgumentError::WrongCount => "Arguments parsed, but expected 3 arguments",
            ArgumentError::MissingFlag => "First argument must be -monitorFile",
        }
    }
}

/// Picks the configuration path out of the full argument list (program name
/// first).
pub fn parse_arguments(args: &Vec<String>) -> (r: Result<String, ArgumentError>)
    ensures
        args@.len() != 3 ==> r == Err::<String, ArgumentError>(ArgumentError::WrongCount),
        args@.len() == 3 && args@[1]@ != MONITOR_FILE_FLAG@ ==> r == Err::<String, ArgumentError>(
            ArgumentError::MissingFlag,
        ),
        args@.len() == 3 && args@[1]@ == MONITOR_FILE_FLAG@ ==> (r matches Ok(p) && p@
            == args@[2]@),
{
    if args.len() != 3 {
        return Err(ArgumentError::WrongCount);
    }
    let flag = String::from_str(MONITOR_FILE_FLAG);
    if !args[1].eq(&flag) {
        return Err(ArgumentError::MissingFlag);
    }
    Ok(args[2].clone())
}

} // verus!
