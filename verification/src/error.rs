//! The errors of a launch, and the line that reports one.

use vstd::prelude::*;
use vstd::std_specs::convert::FromSpecImpl;
use vstd::string::to_string_from_display_ensures;

verus! {

/// `nix::errno::Errno`, the error number of a failed system call. Nothing is
/// claimed of its contents: a value is carried through and displayed.
#[verifier::external_type_specification]
#[verifier::external_body]
pub struct ExErrno(nix::errno::Errno);

/// `std::io::Error`, as the standard library reports a failed descriptor
/// operation. Nothing is claimed of its contents: a value is carried through
/// and displayed.
#[verifier::external_type_specification]
#[verifier::external_body]
pub struct ExIoError(std::io::Error);

/// Why a launch could not go on.
#[derive(Debug)]
#[non_exhaustive]
pub enum Error {
    /// A system call failed with this error number.
    Nix(nix::errno::Errno),
    /// The standard library could not duplicate a descriptor.
    Io(std::io::Error),
}

impl From<nix::errno::Errno> for Error {
    fn from(err: nix::errno::Errno) -> (error: Error) {
        Error::Nix(err)
    }
}

impl FromSpecImpl<nix::errno::Errno> for Error {
    open spec fn obeys_from_spec() -> bool {
        true
    }

    open spec fn from_spec(err: nix::errno::Errno) -> Error {
        Error::Nix(err)
    }
}

impl From<std::io::Error> for Error {
    fn from(err: std::io::Error) -> (error: Error) {
        Error::Io(err)
    }
}

impl FromSpecImpl<std::io::Error> for Error {
    open spec fn obeys_from_spec() -> bool {
        true
    }

    open spec fn from_spec(err: std::io::Error) -> Error {
        Error::Io(err)
    }
}

impl Error {
    /// Whether `text` is what the error inside displays as.
    pub open spec fn displays_as(&self, text: String) -> bool {
        match self {
            Error::Nix(errno) => to_string_from_display_ensures::<nix::errno::Errno>(errno, text),
            Error::Io(error) => to_string_from_display_ensures::<std::io::Error>(error, text),
        }
    }

    /// The operating system's description of the error: the text that the
    /// error inside displays as.
    pub fn message(&self) -> (text: String)
        ensures
            self.displays_as(text),
    {
        match self {
            Error::Nix(errno) => errno.to_string(),
            Error::Io(error) => error.to_string(),
        }
    }

    /// The line that reports the error in the name of `tool`.
    pub fn diagnostic(&self, tool: &str) -> (line: String)
        ensures
            exists|text: String| #[trigger]
                self.displays_as(text) && line@ == diagnostic_text(tool@, text@),
    {
        let text = self.message();
        diagnostic_line(tool, text.as_str())
    }
}

/// A tool's name, a colon and a space, and the description of what went
/// wrong.
pub open spec fn diagnostic_text(tool: Seq<char>, description: Seq<char>) -> Seq<char> {
    tool + seq![':', ' '] + description
}

/// The one line that a tool prints when it gives up: its name, `": "` and the
/// description, without a line end.
pub fn diagnostic_line(tool: &str, description: &str) -> (line: String)
    ensures
        line@ == diagnostic_text(tool@, description@),
{
    let mut line = String::from_str(tool);
    proof {
        reveal_strlit(": ");
    }
    line.append(": ");
    line.append(description);
    assert(": "@ =~= seq![':', ' ']);
    line
}

} // verus!
