//! When the log file is full: the arithmetic of log rotation. The files themselves are
//! the caller's business.

use vstd::prelude::*;

verus! {

/// The log files that are kept, the one being written included.
pub const MAX_NUMBER_OF_LOG_FILES: usize = 3;

pub const MAX_LOG_FILE_SIZE_MB: usize = 4;

pub const MAX_LOG_FILE_SIZE_BYTES: usize = MAX_LOG_FILE_SIZE_MB * 1024 * 1024;

/// The file's size is not looked up after every line, but first after this many lines,
/// which assumes lines of about 100 bytes.
pub const INITIAL_CHECK_FILE_SIZE_AT: usize = MAX_LOG_FILE_SIZE_BYTES / 100;

/// How many of the oldest log files to delete before a new one is made, so that the new
/// one makes it [`MAX_NUMBER_OF_LOG_FILES`].
pub open spec fn surplus(n_files: nat) -> nat {
    if n_files >= MAX_NUMBER_OF_LOG_FILES {
        (n_files - MAX_NUMBER_OF_LOG_FILES + 1) as nat
    } else {
        0
    }
}

/// How many of the oldest log files to delete before a new one is made.
pub fn surplus_log_files(n_files: usize) -> (r: usize)
    ensures
        r == surplus(n_files as nat),
        n_files - r < MAX_NUMBER_OF_LOG_FILES,
{
    if n_files >= MAX_NUMBER_OF_LOG_FILES {
        n_files - MAX_NUMBER_OF_LOG_FILES + 1
    } else {
        0
    }
}

/// The lines written to the current log file, and the count at which its size is looked
/// up next.
#[derive(Clone, Copy, Debug, PartialEq, Eq, Structural)]
pub struct LogCount {
    pub log_count: usize,
    pub check_file_size_at: usize,
}

/// The count at which to look at the file's size again: the lines written so far, and as
/// many more as fit in what is left of the file if they stay as long as they were on
/// average. The largest count there is, if the sum is beyond it.
pub open spec fn next_check(count: LogCount, file_size: usize) -> int {
    let average = file_size as int / count.log_count as int;
    let left = (MAX_LOG_FILE_SIZE_BYTES - file_size) / average;
    if count.check_file_size_at + left <= usize::MAX {
        count.check_file_size_at + left
    } else {
        usize::MAX as int
    }
}

impl LogCount {
    /// The count for a file that was just made.
    pub fn new() -> (r: Self)
        ensures
            r == (LogCount { log_count: 0, check_file_size_at: INITIAL_CHECK_FILE_SIZE_AT }),
    {
        LogCount { log_count: 0, check_file_size_at: INITIAL_CHECK_FILE_SIZE_AT }
    }

    /// Counts one line. A count that cannot grow stays as it is.
    pub fn increment_log_count(&mut self)
        ensures
            final(self).check_file_size_at == old(self).check_file_size_at,
            final(self).log_count == (if old(self).log_count < usize::MAX {
                old(self).log_count + 1
            } else {
                old(self).log_count as int
            }),
    {
        if self.log_count < usize::MAX {
            self.log_count = self.log_count + 1;
        }
    }

    /// Whether it is time to look at the file's size.
    pub fn size_check_is_due(&self) -> (r: bool)
        ensures
            r == (self.log_count >= self.check_file_size_at),
    {
        self.log_count >= self.check_file_size_at
    }

    /// Decides, given the size of the current log file, whether a new file is due: it is
    /// once the file holds [`MAX_LOG_FILE_SIZE_BYTES`]. Until then the next look at the
    /// size is put off: see [`next_check`]. A file that is not full holds at least a
    /// byte for each line counted.
    pub fn should_rotate_log_file(&mut self, file_size: usize) -> (r: bool)
        requires
            file_size >= MAX_LOG_FILE_SIZE_BYTES || 0 < old(self).log_count <= file_size,
        ensures
            r == (file_size >= MAX_LOG_FILE_SIZE_BYTES),
            final(self).log_count == old(self).log_count,
            final(self).check_file_size_at == (if r {
                old(self).check_file_size_at as int
            } else {
                next_check(*old(self), file_size)
            }),
    {
        if file_size >= MAX_LOG_FILE_SIZE_BYTES {
            return true;
        }
        let avg_bytes_per_log = file_size / self.log_count;
        assert(avg_bytes_per_log >= 1) by (nonlinear_arith)
            requires
                0 < self.log_count <= file_size,
                avg_bytes_per_log == file_size as int / self.log_count as int,
        ;
        let remaining_bytes = MAX_LOG_FILE_SIZE_BYTES - file_size;
        let remaining_logs = remaining_bytes / avg_bytes_per_log;
        self.check_file_size_at = match self.check_file_size_at.checked_add(remaining_logs) {
            Some(sum) => sum,
            None => usize::MAX,
        };
        false
    }
}

} // verus!
