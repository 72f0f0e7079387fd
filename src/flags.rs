//! The search configuration and the command-line arguments that set it.
use vstd::prelude::*;
use vstd::string::{StrSliceExecFns, StringExecFns};

verus! {

/// The command-line flags.
#[derive(Clone, Copy, Debug, PartialEq, Eq, Structural)]
pub enum FlagsEnum {
    All,
    Case,
    Dir,
    File,
}

/// The filters of one search, and the text searched for.
#[derive(Debug)]
pub struct Flags {
    /// Descend into every subdirectory.
    pub all: bool,
    pub case_sensitive: bool,
    /// Match directories.
    pub dir: bool,
    /// Match files.
    pub file: bool,
    pub sub_str: String,
}

/// Why the arguments do not make a search.
#[derive(Clone, Copy, Debug, PartialEq, Eq, Structural)]
pub enum ArgError {
    /// No text to search for was given.
    MissingPattern,
    /// The argument at this index looks like a flag but is none.
    UnexpectedArgument(usize),
}

/// The flag that an argument names.
pub open spec fn flag_of(s: Seq<char>) -> Option<FlagsEnum> {
    if s == "-all"@ {
        Some(FlagsEnum::All)
    } else if s == "-case"@ {
        Some(FlagsEnum::Case)
    } else if s == "-dir"@ {
        Some(FlagsEnum::Dir)
    } else if s == "-file"@ {
        Some(FlagsEnum::File)
    } else {
        None
    }
}

/// An argument that starts with `-` but names no flag.
pub open spec fn is_unexpected(s: Seq<char>) -> bool {
    flag_of(s) is None && s.len() > 0 && s[0] == '-'
}

/// Some argument after the program name names flag `f`.
pub open spec fn has_flag(args: Seq<String>, f: FlagsEnum) -> bool {
    exists|i: int| 1 <= i < args.len() && flag_of(#[trigger] args[i]@) == Some(f)
}

/// No argument after the program name is unexpected.
pub open spec fn none_unexpected(args: Seq<String>) -> bool {
    forall|j: int| 1 <= j < args.len() ==> !is_unexpected(#[trigger] args[j]@)
}

/// The flag that `arg` names, if any.
pub fn flag_of_arg(arg: &String) -> (r: Option<FlagsEnum>)
    ensures
        r == flag_of(arg@),
{
    if arg.eq(&String::from_str("-all")) {
        Some(FlagsEnum::All)
    } else if arg.eq(&String::from_str("-case")) {
        Some(FlagsEnum::Case)
    } else if arg.eq(&String::from_str("-dir")) {
        Some(FlagsEnum::Dir)
    } else if arg.eq(&String::from_str("-file")) {
        Some(FlagsEnum::File)
    } else {
        None
    }
}

/// Reads the arguments of a run, the program name first. Flags may come in
/// any order; the last argument is the text searched for. The first
/// argument that starts with `-` and names no flag is an error; so is a run
/// without a last argument that is not a flag.
pub fn parse_args(args: &Vec<String>) -> (r: Result<Flags, ArgError>)
    ensures
        args@.len() <= 1 ==> r == Err::<Flags, ArgError>(ArgError::MissingPattern),
        args@.len() > 1 ==> match r {
            Err(ArgError::UnexpectedArgument(i)) => 1 <= i < args@.len() && is_unexpected(args@[i as int]@)
                && forall|j: int| 1 <= j < i ==> !is_unexpected(#[trigger] args@[j]@),
            Err(ArgError::MissingPattern) => none_unexpected(args@) && flag_of(args@.last()@) is Some,
            Ok(f) => {
                &&& none_unexpected(args@)
                &&& flag_of(args@.last()@) is None
                &&& f.sub_str@ == args@.last()@
                &&& f.all == has_flag(args@, FlagsEnum::All)
                &&& f.case_sensitive == has_flag(args@, FlagsEnum::Case)
                &&& f.dir == has_flag(args@, FlagsEnum::Dir)
                &&& f.file == has_flag(args@, FlagsEnum::File)
            },
        },
{
    let n = args.len();
    if n <= 1 {
        return Err(ArgError::MissingPattern);
    }
    let mut all = false;
    let mut case_sensitive = false;
    let mut dir = false;
    let mut file = false;
    let mut i: usize = 1;
    while i < n
        invariant
            n == args@.len(),
            1 <= i <= n,
            forall|j: int| 1 <= j < i ==> !is_unexpected(#[trigger] args@[j]@),
            all == (exists|j: int| 1 <= j < i && flag_of(#[trigger] args@[j]@) == Some(FlagsEnum::All)),
            case_sensitive == (exists|j: int|
                1 <= j < i && flag_of(#[trigger] args@[j]@) == Some(FlagsEnum::Case)),
            dir == (exists|j: int| 1 <= j < i && flag_of(#[trigger] args@[j]@) == Some(FlagsEnum::Dir)),
            file == (exists|j: int| 1 <= j < i && flag_of(#[trigger] args@[j]@) == Some(FlagsEnum::File)),
        decreases n - i,
    {
        let arg = &args[i];
        match flag_of_arg(arg) {
            Some(FlagsEnum::All) => {
                all = true;
            },
            Some(FlagsEnum::Case) => {
                case_sensitive = true;
            },
            Some(FlagsEnum::Dir) => {
                dir = true;
            },
            Some(FlagsEnum::File) => {
                file = true;
            },
            None => {
                let s = arg.as_str();
                if s.unicode_len() > 0 && s.get_char(0) == '-' {
                    return Err(ArgError::UnexpectedArgument(i));
                }
            },
        }
        i = i + 1;
    }
    let last = &args[n - 1];
    if flag_of_arg(last).is_some() {
        return Err(ArgError::MissingPattern);
    }
    Ok(Flags { all, case_sensitive, dir, file, sub_str: last.clone() })
}

} // verus!
