//! User program spawn parameters and failure results.

use vstd::prelude::*;

verus! {

/// Parameters for spawning a user program from a filesystem path.
#[derive(Clone, Copy)]
pub struct UserProgramSpawnRequest<'a> {
    path: &'a str,
    entry_vectors: UserProgramEntryVectors<'a>,
    user_stack_pages: u64,
    kernel_probe_address: Option<usize>,
}

impl<'a> UserProgramSpawnRequest<'a> {
    /// The requested path, entry vectors, stack size and probe address.
    pub closed spec fn parts(self) -> (&'a str, UserProgramEntryVectors<'a>, u64, Option<usize>) {
        (self.path, self.entry_vectors, self.user_stack_pages, self.kernel_probe_address)
    }

    /// Create a spawn request for a user program, without a kernel probe.
    pub fn new(path: &'a str, entry_vectors: UserProgramEntryVectors<'a>, user_stack_pages: u64) -> (r: Self)
        ensures
            r.parts() == (path, entry_vectors, user_stack_pages, None::<usize>),
    {
        Self { path, entry_vectors, user_stack_pages, kernel_probe_address: None }
    }

    /// Add a kernel address used for address-space permission self-checks.
    pub fn with_kernel_probe_address(self, kernel_probe_address: usize) -> (r: Self)
        ensures
            r.parts() == (self.parts().0, self.parts().1, self.parts().2, Some(kernel_probe_address)),
    {
        let mut request = self;
        request.kernel_probe_address = Some(kernel_probe_address);
        request
    }

    /// Return the executable path.
    pub fn path(self) -> (r: &'a str)
        ensures
            r == self.parts().0,
    {
        self.path
    }

    /// Return the argument and environment vectors.
    pub fn entry_vectors(self) -> (r: UserProgramEntryVectors<'a>)
        ensures
            r == self.parts().1,
    {
        self.entry_vectors
    }

    /// Return the number of user stack pages.
    pub fn user_stack_pages(self) -> (r: u64)
        ensures
            r == self.parts().2,
    {
        self.user_stack_pages
    }

    /// Return the kernel probe address, if one was added.
    pub fn kernel_probe_address(self) -> (r: Option<usize>)
        ensures
            r == self.parts().3,
    {
        self.kernel_probe_address
    }
}

/// User program argument and environment vectors before stack construction.
#[derive(Clone, Copy)]
pub struct UserProgramEntryVectors<'a> {
    arguments: &'a [&'a str],
    environment: &'a [&'a str],
}

impl<'a> UserProgramEntryVectors<'a> {
    /// The argument and environment vectors.
    pub closed spec fn vectors(self) -> (Seq<&'a str>, Seq<&'a str>) {
        (self.arguments@, self.environment@)
    }

    /// Create user entry vectors from borrowed argument and environment slices.
    pub fn new(arguments: &'a [&'a str], environment: &'a [&'a str]) -> (r: Self)
        ensures
            r.vectors() == (arguments@, environment@),
    {
        Self { arguments, environment }
    }

    /// Return the argument vector used to build the initial user stack.
    pub fn arguments(self) -> (r: &'a [&'a str])
        ensures
            r@ == self.vectors().0,
    {
        self.arguments
    }

    /// Return the environment vector used to build the initial user stack.
    pub fn environment(self) -> (r: &'a [&'a str])
        ensures
            r@ == self.vectors().1,
    {
        self.environment
    }

    /// Return the number of user entry arguments.
    pub fn argument_count(self) -> (r: usize)
        ensures
            r == self.vectors().0.len(),
    {
        self.arguments.len()
    }

    /// Return the number of user entry environment entries.
    pub fn environment_count(self) -> (r: usize)
        ensures
            r == self.vectors().1.len(),
    {
        self.environment.len()
    }
}

/// User program spawn failure reason.
#[derive(Clone, Copy, Debug, PartialEq, Eq, Structural)]
pub enum UserProgramSpawnError {
    /// The executable path does not exist.
    NotFound,
    /// The executable path is not valid for the spawn model.
    InvalidPath,
    /// The executable path resolved to a directory.
    DirectoryTarget,
    /// The executable path resolved to an unsupported non-regular target.
    UnsupportedTarget,
    /// The executable contents could not be read after path lookup.
    ReadFailed,
    /// The executable image buffer could not be allocated.
    OutOfMemory,
    /// The executable image is not a supported user ELF.
    InvalidImage,
}

impl UserProgramSpawnError {
    /// Return the negative syscall-style errno result for this spawn failure.
    pub fn as_syscall_result(self) -> (r: isize)
        ensures
            r == match self {
                UserProgramSpawnError::NotFound => -2,
                UserProgramSpawnError::InvalidPath => -22,
                UserProgramSpawnError::ReadFailed => -22,
                UserProgramSpawnError::InvalidImage => -22,
                UserProgramSpawnError::OutOfMemory => -12,
                UserProgramSpawnError::DirectoryTarget => -21,
                UserProgramSpawnError::UnsupportedTarget => -95,
            },
    {
        match self {
            Self::NotFound => -2,
            Self::InvalidPath | Self::ReadFailed | Self::InvalidImage => -22,
            Self::OutOfMemory => -12,
            Self::DirectoryTarget => -21,
            Self::UnsupportedTarget => -95,
        }
    }
}

} // verus!
