//! The descriptor table of a process, as the contracts see it: which
//! descriptor leads where, and which ones an exec closes.
//!
//! No proof reaches the operating system itself. The definitions here say
//! what its calls are taken to do: a duplicate lands on a free descriptor, a
//! fork with a new pseudo-terminal puts the slave side on the child's three
//! standard descriptors and hands the master side to the parent, and an exec
//! closes what is marked for it.

use vstd::prelude::*;

verus! {

/// Standard input.
pub const STDIN: i32 = 0;

/// Standard output.
pub const STDOUT: i32 = 1;

/// Standard error.
pub const STDERR: i32 = 2;

/// Where a descriptor leads.
pub enum Endpoint {
    /// A file, pipe or terminal that was open before the launch began; the
    /// number tells such things apart.
    Outside(int),
    /// The master side of the pseudo-terminal with this number.
    PtyMaster(nat),
    /// The slave side of the pseudo-terminal with this number: a terminal to
    /// whoever holds it.
    PtySlave(nat),
}

/// One open descriptor.
pub struct Descriptor {
    /// Where it leads.
    pub endpoint: Endpoint,
    /// Whether an exec closes it.
    pub close_on_exec: bool,
}

/// A process, as far as the launch is concerned.
pub struct Process {
    /// The open descriptors, by number.
    pub descriptors: Map<int, Descriptor>,
    /// How many pseudo-terminals were made on the way to this process.
    pub ptys: nat,
}

/// Whether `fd` is one of the three standard descriptors.
pub open spec fn is_standard(fd: int) -> bool {
    fd == STDIN || fd == STDOUT || fd == STDERR
}

/// Whether `fd` is open in `process` and leads to `endpoint`.
pub open spec fn leads_to(process: Process, fd: int, endpoint: Endpoint) -> bool {
    process.descriptors.dom().contains(fd) && process.descriptors[fd].endpoint == endpoint
}

/// A process before anything of a launch has happened: the three standard
/// descriptors are open, and no descriptor leads to a pseudo-terminal of the
/// launch, none being made yet.
pub open spec fn pristine(process: Process) -> bool {
    &&& process.ptys == 0
    &&& process.descriptors.dom().contains(STDIN as int)
    &&& process.descriptors.dom().contains(STDOUT as int)
    &&& process.descriptors.dom().contains(STDERR as int)
    &&& forall|fd: int| #[trigger]
        process.descriptors.dom().contains(fd) ==> process.descriptors[fd].endpoint is Outside
}

/// Whether duplicating `fd` can give `copy`: `fd` is open and `copy` was
/// free.
pub open spec fn can_save(process: Process, fd: int, copy: int) -> bool {
    process.descriptors.dom().contains(fd) && !process.descriptors.dom().contains(copy)
}

/// The process after `fd` was duplicated as `copy`, the copy to be closed
/// by an exec.
pub open spec fn after_save(process: Process, fd: int, copy: int) -> Process {
    Process {
        descriptors: process.descriptors.insert(
            copy,
            Descriptor { endpoint: process.descriptors[fd].endpoint, close_on_exec: true },
        ),
        ..process
    }
}

/// Whether a fork with a new pseudo-terminal can hand `master` to the
/// parent: that descriptor was free.
pub open spec fn can_fork_as_parent(process: Process, master: int) -> bool {
    !process.descriptors.dom().contains(master)
}

/// The parent after a fork with a new pseudo-terminal: it holds the master
/// side as `master`.
pub open spec fn after_fork_as_parent(process: Process, master: int) -> Process {
    Process {
        descriptors: process.descriptors.insert(
            master,
            Descriptor { endpoint: Endpoint::PtyMaster(process.ptys + 1), close_on_exec: false },
        ),
        ptys: process.ptys + 1,
    }
}

/// The child after a fork with a new pseudo-terminal: the slave side is on
/// all three standard descriptors, and the rest is as it was in the parent.
pub open spec fn after_fork_as_child(process: Process) -> Process {
    let slave = Descriptor { endpoint: Endpoint::PtySlave(process.ptys + 1), close_on_exec: false };
    Process {
        descriptors: process.descriptors.insert(STDIN as int, slave).insert(
            STDOUT as int,
            slave,
        ).insert(STDERR as int, slave),
        ptys: process.ptys + 1,
    }
}

/// Whether `saved` can be put onto another descriptor: it is open.
pub open spec fn can_restore(process: Process, saved: int) -> bool {
    process.descriptors.dom().contains(saved)
}

/// The process after `saved` was put onto `onto`: `onto` leads where `saved`
/// does and stays open over an exec.
pub open spec fn after_restore(process: Process, saved: int, onto: int) -> Process {
    Process {
        descriptors: process.descriptors.insert(
            onto,
            Descriptor { endpoint: process.descriptors[saved].endpoint, close_on_exec: false },
        ),
        ..process
    }
}

/// What a program finds when `process` executes it: the descriptors that
/// are not closed by an exec.
pub open spec fn after_exec(process: Process) -> Process {
    Process {
        descriptors: process.descriptors.restrict(
            Set::new(|fd: int| !process.descriptors[fd].close_on_exec),
        ),
        ..process
    }
}

} // verus!
