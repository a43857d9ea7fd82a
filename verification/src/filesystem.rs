//! File reading status shared by the native and web file systems.
use vstd::prelude::*;

verus! {

/// Progress of reading a file.
#[derive(Copy, Clone, Debug, Default, PartialEq, Eq, Structural)]
pub enum FileLoadingStatus {
    #[default]
    Idle,
    Loading,
    Finished,
    Error,
}

/// The status that a request to read a file starts from: a finished or failed read of
/// another file starts over.
pub open spec fn request_status(status: FileLoadingStatus, same_input: bool) -> FileLoadingStatus {
    if (status == FileLoadingStatus::Finished || status == FileLoadingStatus::Error) && !same_input {
        FileLoadingStatus::Idle
    } else {
        status
    }
}

/// The status that a request to read a file starts from: a finished or failed read of
/// another file starts over. A read is started when this is `Idle`.
pub fn status_for_request(status: FileLoadingStatus, same_input: bool) -> (start: FileLoadingStatus)
    ensures
        start == request_status(status, same_input),
{
    if (status == FileLoadingStatus::Finished || status == FileLoadingStatus::Error) && !same_input {
        FileLoadingStatus::Idle
    } else {
        status
    }
}

/// Status of a synchronous read once it is done.
pub fn status_after_read(succeeded: bool) -> (status: FileLoadingStatus)
    ensures
        status == if succeeded {
            FileLoadingStatus::Finished
        } else {
            FileLoadingStatus::Error
        },
{
    if succeeded {
        FileLoadingStatus::Finished
    } else {
        FileLoadingStatus::Error
    }
}

/// How reading a file went: it could not be opened; it was opened but reading it failed
/// after the given bytes; or its whole content was read.
pub enum ReadOutcome {
    OpenFailed,
    ReadFailed(Vec<u8>),
    Read(Vec<u8>),
}

/// The file last asked for, the status of its read, and the content of the last file read.
pub struct FileState {
    pub input: String,
    pub status: FileLoadingStatus,
    pub buffer: Vec<u8>,
}

impl FileState {
    /// No file asked for yet.
    pub fn new() -> (state: Self)
        ensures
            state.input@ == Seq::<char>::empty(),
            state.status == FileLoadingStatus::Idle,
            state.buffer@ == Seq::<u8>::empty(),
    {
        FileState { input: String::new(), status: FileLoadingStatus::Idle, buffer: Vec::new() }
    }

    /// A request to read `path`: a finished or failed read of another file starts over.
    /// Returns whether the file must be read now, which is when the status is then `Idle`;
    /// the path and the content are left as they were.
    pub fn request(&mut self, path: &String) -> (read_now: bool)
        ensures
            final(self).status == request_status(old(self).status, old(self).input@ == path@),
            read_now == (final(self).status == FileLoadingStatus::Idle),
            final(self).input == old(self).input,
            final(self).buffer == old(self).buffer,
    {
        let same = self.input == *path;
        self.status = status_for_request(self.status, same);
        self.status == FileLoadingStatus::Idle
    }

    /// Takes in how the read of `path` that `request` asked for went: a whole read keeps
    /// the content and the path and finishes; a failed one fails and keeps the path asked
    /// for before, and when the file was opened, the content is what was read before it failed.
    pub fn complete(&mut self, path: &String, outcome: ReadOutcome) -> (status: FileLoadingStatus)
        requires
            old(self).status == FileLoadingStatus::Idle,
        ensures
            status == final(self).status,
            match outcome {
                ReadOutcome::OpenFailed => {
                    &&& status == FileLoadingStatus::Error
                    &&& final(self).input == old(self).input
                    &&& final(self).buffer == old(self).buffer
                },
                ReadOutcome::ReadFailed(partial) => {
                    &&& status == FileLoadingStatus::Error
                    &&& final(self).input == old(self).input
                    &&& final(self).buffer@ == partial@
                },
                ReadOutcome::Read(content) => {
                    &&& status == FileLoadingStatus::Finished
                    &&& final(self).input@ == path@
                    &&& final(self).buffer@ == content@
                },
            },
    {
        match outcome {
            ReadOutcome::OpenFailed => {
                self.status = status_after_read(false);
            },
            ReadOutcome::ReadFailed(partial) => {
                self.buffer = partial;
                self.status = status_after_read(false);
            },
            ReadOutcome::Read(content) => {
                self.buffer = content;
                self.input = path.clone();
                self.status = status_after_read(true);
            },
        }
        self.status
    }
}

/// Asking again for the file that was read last never starts a new read once it is done.
pub proof fn lemma_same_file_not_reread(status: FileLoadingStatus)
    requires
        status == FileLoadingStatus::Finished || status == FileLoadingStatus::Error,
    ensures
        request_status(status, true) == status,
        request_status(status, false) == FileLoadingStatus::Idle,
{
}

} // verus!
