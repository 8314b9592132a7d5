//! The image record of a user task: where it was spawned from, the path of
//! the image it runs now, how many times `execve` replaced it, and what the
//! last replacement reclaimed. Paths are kept as a bounded prefix of their
//! UTF-8 bytes that ends on a character boundary.

use vstd::prelude::*;
use vstd::string::StringSliceAdditionalSpecFns;
use vstd::utf8::{encode_utf8_valid_utf8, is_char_boundary, is_char_boundary_start_end_of_seq};

use crate::kernel::task::diagnostics::{
    UserExecveDiagnosticsSnapshot, UserExecveReplacementStateDiagnostics,
    UserImageDiagnosticsSnapshot,
};

verus! {

/// Bytes of a path kept for diagnostics.
pub const USER_IMAGE_PATH_DIAGNOSTIC_BYTES: usize = 256;

/// The largest character boundary of `bytes` at or below `limit`.
pub open spec fn boundary_at_or_below(bytes: Seq<u8>, limit: int) -> int
    decreases limit,
{
    if limit <= 0 {
        0
    } else if is_char_boundary(bytes, limit) {
        limit
    } else {
        boundary_at_or_below(bytes, limit - 1)
    }
}

/// Length of the kept prefix of a path with UTF-8 bytes `bytes`: the largest
/// character boundary within the first 256 bytes.
pub open spec fn kept_path_len(bytes: Seq<u8>) -> int {
    boundary_at_or_below(
        bytes,
        if bytes.len() < 256 {
            bytes.len() as int
        } else {
            256
        },
    )
}

/// `destination` with its first `len` bytes taken from `bytes`.
pub open spec fn with_prefix(destination: Seq<u8>, bytes: Seq<u8>, len: int) -> Seq<u8> {
    Seq::new(destination.len(), |i: int| if i < len { bytes[i] } else { destination[i] })
}

proof fn lemma_boundary_at_or_below(bytes: Seq<u8>, limit: int)
    ensures
        0 <= boundary_at_or_below(bytes, limit),
        limit >= 0 ==> boundary_at_or_below(bytes, limit) <= limit,
    decreases limit,
{
    if limit > 0 && !is_char_boundary(bytes, limit) {
        lemma_boundary_at_or_below(bytes, limit - 1);
    }
}

proof fn lemma_boundary_found(bytes: Seq<u8>, limit: int)
    requires
        is_char_boundary(bytes, 0),
    ensures
        is_char_boundary(bytes, boundary_at_or_below(bytes, limit)),
        forall|i: int|
            boundary_at_or_below(bytes, limit) < i <= limit ==> !is_char_boundary(bytes, i),
    decreases limit,
{
    if limit > 0 && !is_char_boundary(bytes, limit) {
        lemma_boundary_found(bytes, limit - 1);
    }
}

/// A kept path prefix is a whole number of characters: it ends on a
/// character boundary, it is at most 256 bytes long and no longer than the
/// path, and no longer boundary fits within the first 256 bytes.
pub proof fn law_kept_path_ends_on_a_character(path: &str)
    ensures
        is_char_boundary(path.spec_bytes(), kept_path_len(path.spec_bytes())),
        0 <= kept_path_len(path.spec_bytes()) <= 256,
        kept_path_len(path.spec_bytes()) <= path.spec_bytes().len(),
        forall|i: int|
            kept_path_len(path.spec_bytes()) < i <= 256 && i <= path.spec_bytes().len()
                ==> !is_char_boundary(path.spec_bytes(), i),
{
    let b = path.spec_bytes();
    encode_utf8_valid_utf8(path@);
    is_char_boundary_start_end_of_seq(b);
    let limit = if b.len() < 256 {
        b.len() as int
    } else {
        256
    };
    lemma_boundary_at_or_below(b, limit);
    lemma_boundary_found(b, limit);
}

/// Copy the kept prefix of `path` into the start of `destination`, leaving
/// its other bytes, and return the prefix length.
pub fn copy_path_to_diagnostic(path: &str, destination: &mut [u8; 256]) -> (r: usize)
    ensures
        r == kept_path_len(path.spec_bytes()),
        final(destination)@ == with_prefix(old(destination)@, path.spec_bytes(), r as int),
{
    let bytes = path.as_bytes();
    let ghost b = path.spec_bytes();
    proof {
        encode_utf8_valid_utf8(path@);
        is_char_boundary_start_end_of_seq(b);
        lemma_boundary_at_or_below(b, if b.len() < 256 { b.len() as int } else { 256 });
    }
    let mut path_len: usize = if bytes.len() < USER_IMAGE_PATH_DIAGNOSTIC_BYTES {
        bytes.len()
    } else {
        USER_IMAGE_PATH_DIAGNOSTIC_BYTES
    };
    while !path.is_char_boundary(path_len)
        invariant
            b == path.spec_bytes(),
            b == bytes@,
            is_char_boundary(b, 0),
            path_len <= 256,
            path_len <= b.len(),
            boundary_at_or_below(b, path_len as int) == kept_path_len(b),
        decreases path_len,
    {
        path_len = path_len - 1;
    }
    proof {
        assert(boundary_at_or_below(b, path_len as int) == path_len);
    }
    let ghost untouched = destination@;
    let mut index: usize = 0;
    while index < path_len
        invariant
            index <= path_len,
            path_len <= 256,
            path_len <= bytes@.len(),
            destination@.len() == 256,
            untouched.len() == 256,
            forall|i: int|
                0 <= i < 256 ==> #[trigger] destination@[i] == if i < index {
                    bytes@[i]
                } else {
                    untouched[i]
                },
        decreases path_len - index,
    {
        destination[index] = bytes[index];
        index = index + 1;
    }
    proof {
        assert(destination@ =~= with_prefix(untouched, b, path_len as int));
    }
    path_len
}

/// The image record of one user task.
#[derive(Clone, Copy, Debug)]
pub struct UserImageRuntime {
    generation: u64,
    origin_path_len: usize,
    origin_path_bytes: [u8; 256],
    path_len: usize,
    path_bytes: [u8; 256],
    last_execve_state: UserExecveReplacementStateDiagnostics,
    last_execve_old_user_pages: u64,
    last_execve_old_page_table_pages: u64,
}

/// What an image record holds, as plain values: the generation, the spawn
/// origin path (length and bytes), the current path, and the last
/// replacement's state and reclaimed user and page-table pages.
pub struct UserImageView {
    pub generation: u64,
    pub origin_path: (usize, Seq<u8>),
    pub path: (usize, Seq<u8>),
    pub last_execve: (UserExecveReplacementStateDiagnostics, u64, u64),
}

/// 256 zero bytes.
pub open spec fn zero_path() -> Seq<u8> {
    Seq::new(256, |i: int| 0u8)
}

/// The record of an image spawned from a path with UTF-8 bytes `bytes`:
/// generation 0, both paths the kept prefix of the origin, no replacement.
pub open spec fn initial_image_view(bytes: Seq<u8>) -> UserImageView {
    let kept = kept_path_len(bytes);
    UserImageView {
        generation: 0,
        origin_path: (kept as usize, with_prefix(zero_path(), bytes, kept)),
        path: (kept as usize, with_prefix(zero_path(), bytes, kept)),
        last_execve: (UserExecveReplacementStateDiagnostics::NoCandidate, 0u64, 0u64),
    }
}

/// The record `before` once `execve` replaced the image with the one at a
/// path with UTF-8 bytes `bytes`: the generation goes up by one
/// (saturating), the current path becomes the kept prefix of the new path,
/// the replacement is published with nothing reclaimed yet, and the origin
/// stays.
pub open spec fn replaced_image_view(before: UserImageView, bytes: Seq<u8>) -> UserImageView {
    let kept = kept_path_len(bytes);
    UserImageView {
        generation: if before.generation == u64::MAX {
            u64::MAX
        } else {
            (before.generation + 1) as u64
        },
        origin_path: before.origin_path,
        path: (kept as usize, with_prefix(zero_path(), bytes, kept)),
        last_execve: (UserExecveReplacementStateDiagnostics::Published, 0u64, 0u64),
    }
}

impl UserImageRuntime {
    /// The record as plain values.
    pub closed spec fn spec_view(&self) -> UserImageView {
        UserImageView {
            generation: self.generation,
            origin_path: (self.origin_path_len, self.origin_path_bytes@),
            path: (self.path_len, self.path_bytes@),
            last_execve: (
                self.last_execve_state,
                self.last_execve_old_user_pages,
                self.last_execve_old_page_table_pages,
            ),
        }
    }

    /// The record of an image spawned from `spawn_origin_path`.
    pub fn new(spawn_origin_path: &str) -> (r: Self)
        ensures
            r.spec_view() == initial_image_view(spawn_origin_path.spec_bytes()),
    {
        let mut path_bytes = [0u8; 256];
        proof {
            assert(path_bytes@ =~= zero_path());
        }
        let path_len = copy_path_to_diagnostic(spawn_origin_path, &mut path_bytes);
        let mut origin_path_bytes = [0u8; 256];
        proof {
            assert(origin_path_bytes@ =~= zero_path());
        }
        let origin_path_len = copy_path_to_diagnostic(spawn_origin_path, &mut origin_path_bytes);
        Self {
            generation: 0,
            origin_path_len,
            origin_path_bytes,
            path_len,
            path_bytes,
            last_execve_state: UserExecveReplacementStateDiagnostics::NoCandidate,
            last_execve_old_user_pages: 0,
            last_execve_old_page_table_pages: 0,
        }
    }

    /// Record that `execve` replaced the image with the one at `path`.
    pub fn replace_with_path(&mut self, path: &str)
        ensures
            final(self).spec_view() == replaced_image_view(old(self).spec_view(), path.spec_bytes()),
    {
        self.generation = self.generation.saturating_add(1);
        let mut path_bytes = [0u8; 256];
        proof {
            assert(path_bytes@ =~= zero_path());
        }
        self.path_len = copy_path_to_diagnostic(path, &mut path_bytes);
        self.path_bytes = path_bytes;
        self.last_execve_state = UserExecveReplacementStateDiagnostics::Published;
        self.last_execve_old_user_pages = 0;
        self.last_execve_old_page_table_pages = 0;
    }

    /// Record that a prepared `execve` candidate was dropped.
    pub fn record_candidate_drop(&mut self)
        ensures
            final(self).spec_view() == (UserImageView {
                last_execve: (
                    UserExecveReplacementStateDiagnostics::CandidateDropped,
                    old(self).spec_view().last_execve.1,
                    old(self).spec_view().last_execve.2,
                ),
                ..old(self).spec_view()
            }),
    {
        self.last_execve_state = UserExecveReplacementStateDiagnostics::CandidateDropped;
    }

    /// Record the user and page-table pages the last replacement reclaimed
    /// from the old image.
    pub fn record_last_execve_reclaim(&mut self, user_pages: u64, page_table_pages: u64)
        ensures
            final(self).spec_view() == (UserImageView {
                last_execve: (old(self).spec_view().last_execve.0, user_pages, page_table_pages),
                ..old(self).spec_view()
            }),
    {
        self.last_execve_old_user_pages = user_pages;
        self.last_execve_old_page_table_pages = page_table_pages;
    }

    /// The diagnostics snapshot of the record.
    pub closed spec fn spec_snapshot(self) -> UserImageDiagnosticsSnapshot {
        UserImageDiagnosticsSnapshot::spec_new(
            self.generation,
            self.origin_path_len,
            self.origin_path_bytes,
            self.path_len,
            self.path_bytes,
            UserExecveDiagnosticsSnapshot::spec_new(
                self.last_execve_state,
                self.last_execve_old_user_pages,
                self.last_execve_old_page_table_pages,
            ),
        )
    }

    /// The record as a diagnostics snapshot.
    pub fn snapshot(&self) -> (r: UserImageDiagnosticsSnapshot)
        ensures
            r == self.spec_snapshot(),
            r.spec_generation() == self.spec_view().generation,
            r.spec_origin_path() == self.spec_view().origin_path,
            r.spec_path() == self.spec_view().path,
            r.spec_last_execve().spec_state() == self.spec_view().last_execve.0,
            r.spec_last_execve().spec_old_user_pages() == self.spec_view().last_execve.1,
            r.spec_last_execve().spec_old_page_table_pages() == self.spec_view().last_execve.2,
    {
        UserImageDiagnosticsSnapshot::new(
            self.generation,
            self.origin_path_len,
            self.origin_path_bytes,
            self.path_len,
            self.path_bytes,
            UserExecveDiagnosticsSnapshot::new(
                self.last_execve_state,
                self.last_execve_old_user_pages,
                self.last_execve_old_page_table_pages,
            ),
        )
    }
}

} // verus!
