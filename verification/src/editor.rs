//! The current-file state machine.
//!
//! The editor tracks at most one path as "open". A successful open or
//! save-as commits the chosen path; a save targets the committed path
//! without re-prompting; clear forgets it. Dialog presentation and file
//! I/O happen outside this library; their outcomes arrive here as events,
//! and no failed or cancelled event ever changes the tracked path.

use crate::file_error::{classify_io, FileError, IoFailure};
use crate::path_name::{derived_name, filename_from_path};
use vstd::prelude::*;

verus! {

/// A file's display name paired with its full text content, returned once
/// to the caller of a successful open; it has no persistent identity.
pub struct OpenedFile {
    /// The display name derived from the opened path.
    pub filename: String,
    /// The file's entire text, as read from disk.
    pub content: String,
}

/// The outcome of presenting the open dialog and reading the chosen file,
/// as the shell reports it to the library.
pub enum OpenEvent {
    /// The user dismissed the dialog without choosing a file.
    Cancelled,
    /// A selection was made but could not be resolved to a filesystem path.
    Unresolvable,
    /// The chosen path could not be read; the cause, already classified.
    ReadFailed(IoFailure),
    /// The chosen path and the text that was read from it.
    ReadOk(String, String),
}

/// The outcome of presenting the save dialog and writing the content,
/// as the shell reports it to the library.
pub enum SaveAsEvent {
    /// The user dismissed the dialog without choosing a location.
    Cancelled,
    /// A location was chosen but could not be resolved to a filesystem path.
    Unresolvable,
    /// The write to the chosen path failed; the cause, already classified.
    WriteFailed(IoFailure),
    /// The path that the content was successfully written to.
    WriteOk(String),
}

/// The editor's shared state: the path, if any, that the editor currently
/// considers open. The shell guards one value of this type with a lock and
/// funnels every operation through it.
pub struct EditorState {
    current_file_path: Option<String>,
}

/// The filename that the query operation reports for a given state: the
/// tracked path's derived name, or nothing when no file is open.
pub open spec fn current_name_of(s: EditorState) -> Option<Seq<char>> {
    match s.current_path() {
        Some(p) => Some(derived_name(p)),
        None => None,
    }
}

/// The target that a save resolves to in a given state: the tracked path,
/// or the distinguished no-open-file failure when nothing is tracked.
pub open spec fn save_target_of(s: EditorState) -> Result<Seq<char>, FileError> {
    match s.current_path() {
        Some(p) => Ok(p),
        None => Err(FileError::NoOpenFile),
    }
}

impl EditorState {
    /// The tracked path as a mathematical value.
    pub closed spec fn current_path(self) -> Option<Seq<char>> {
        match self.current_file_path {
            Some(p) => Some(p@),
            None => None,
        }
    }

    /// A fresh state: no file is open.
    pub fn new() -> (s: Self)
        ensures
            s.current_path() is None,
    {
        EditorState { current_file_path: None }
    }

    /// Commits the outcome of an open attempt.
    ///
    /// Only a successful read replaces the tracked path, and then with the
    /// path that was read; the caller gets that path's derived name together
    /// with the content. A cancelled dialog is a valid empty result, not an
    /// error. Every failure leaves the state exactly as it was and is
    /// reported under its stable category.
    pub fn open_file(&mut self, event: OpenEvent) -> (r: Result<Option<OpenedFile>, FileError>)
        ensures
            match event {
                OpenEvent::Cancelled => {
                    &&& final(self).current_path() == old(self).current_path()
                    &&& r matches Ok(o) && o is None
                },
                OpenEvent::Unresolvable => {
                    &&& final(self).current_path() == old(self).current_path()
                    &&& r matches Err(e) && e == FileError::InvalidPath
                },
                OpenEvent::ReadFailed(k) => {
                    &&& final(self).current_path() == old(self).current_path()
                    &&& r matches Err(e) && e == classify_io(k)
                },
                OpenEvent::ReadOk(path, content) => {
                    &&& final(self).current_path() == Some(path@)
                    &&& r matches Ok(o) && o matches Some(f) && f.filename@ == derived_name(path@)
                        && f.content@ == content@
                },
            },
    {
        match event {
            OpenEvent::Cancelled => Ok(None),
            OpenEvent::Unresolvable => Err(FileError::InvalidPath),
            OpenEvent::ReadFailed(k) => Err(FileError::from(k)),
            OpenEvent::ReadOk(path, content) => {
                let filename = filename_from_path(path.as_str());
                self.current_file_path = Some(path);
                Ok(Some(OpenedFile { filename, content }))
            },
        }
    }

    /// Resolves the target of a save: the tracked path, or the
    /// no-open-file failure when nothing was opened or saved-as before.
    /// The state is read, never changed, and nothing is written here: the
    /// shell writes to the returned path only when one is returned.
    pub fn save_target(&self) -> (r: Result<String, FileError>)
        ensures
            match save_target_of(*self) {
                Ok(p) => r matches Ok(q) && q@ == p,
                Err(e) => r matches Err(e2) && e2 == e,
            },
    {
        match &self.current_file_path {
            Some(p) => Ok(p.clone()),
            None => Err(FileError::NoOpenFile),
        }
    }

    /// Reports the outcome of writing to the save target: success as is,
    /// and a failure under its stable category. Saving never moves the
    /// tracked path, so no state is touched.
    pub fn save_outcome(write: Result<(), IoFailure>) -> (r: Result<(), FileError>)
        ensures
            match write {
                Ok(u) => r matches Ok(u2) && u2 == u,
                Err(k) => r matches Err(e) && e == classify_io(k),
            },
    {
        match write {
            Ok(u) => Ok(u),
            Err(k) => Err(FileError::from(k)),
        }
    }

    /// Commits the outcome of a save-as attempt.
    ///
    /// Only a successful write replaces the tracked path, and then with the
    /// path that was written; the caller gets that path's derived name. A
    /// cancelled dialog is a valid empty result, not an error. Every failure
    /// leaves the state exactly as it was and is reported under its stable
    /// category.
    pub fn save_file_as(&mut self, event: SaveAsEvent) -> (r: Result<Option<String>, FileError>)
        ensures
            match event {
                SaveAsEvent::Cancelled => {
                    &&& final(self).current_path() == old(self).current_path()
                    &&& r matches Ok(o) && o is None
                },
                SaveAsEvent::Unresolvable => {
                    &&& final(self).current_path() == old(self).current_path()
                    &&& r matches Err(e) && e == FileError::InvalidPath
                },
                SaveAsEvent::WriteFailed(k) => {
                    &&& final(self).current_path() == old(self).current_path()
                    &&& r matches Err(e) && e == classify_io(k)
                },
                SaveAsEvent::WriteOk(path) => {
                    &&& final(self).current_path() == Some(path@)
                    &&& r matches Ok(o) && o matches Some(name) && name@ == derived_name(path@)
                },
            },
    {
        match event {
            SaveAsEvent::Cancelled => Ok(None),
            SaveAsEvent::Unresolvable => Err(FileError::InvalidPath),
            SaveAsEvent::WriteFailed(k) => Err(FileError::from(k)),
            SaveAsEvent::WriteOk(path) => {
                let filename = filename_from_path(path.as_str());
                self.current_file_path = Some(path);
                Ok(Some(filename))
            },
        }
    }

    /// Forgets the tracked path unconditionally: the editor returns to the
    /// no-file-open state, whatever it held before.
    pub fn clear_current_file(&mut self)
        ensures
            final(self).current_path() is None,
    {
        self.current_file_path = None;
    }

    /// The display name of the currently open file, or nothing when no
    /// file is open. Read-only.
    pub fn current_filename(&self) -> (r: Option<String>)
        ensures
            match current_name_of(*self) {
                Some(name) => r matches Some(s) && s@ == name,
                None => r is None,
            },
    {
        match &self.current_file_path {
            Some(p) => Some(filename_from_path(p.as_str())),
            None => None,
        }
    }
}

impl Default for EditorState {
    /// The state a fresh editor starts in: no file is open.
    fn default() -> (s: Self)
        ensures
            s.current_path() is None,
    {
        EditorState { current_file_path: None }
    }
}

/// The tracked path is always the most recently successfully committed
/// open or save-as, and the filename query reports exactly that path's
/// derived name: after a successful open of `p` the query yields `p`'s
/// derived name, and after a successful save-as to `q` it yields `q`'s.
pub proof fn lemma_query_reports_tracked(s: EditorState, p: Seq<char>)
    requires
        s.current_path() == Some(p),
    ensures
        current_name_of(s) == Some(derived_name(p)),
{
}

/// While a path is tracked, a save targets exactly that path — the one
/// committed by the last successful open or save-as, never a cancelled or
/// failed one — so writing the save target and re-reading the same path
/// round-trips through one and the same file.
pub proof fn lemma_save_targets_tracked(s: EditorState, p: Seq<char>)
    requires
        s.current_path() == Some(p),
    ensures
        save_target_of(s) == Ok::<Seq<char>, FileError>(p),
{
}

/// With no tracked path — at process start, or after a clear — the
/// filename query reports nothing, and a save resolves to no target at
/// all: it owes the no-open-file failure, so nothing is ever written.
pub proof fn lemma_no_open_file(s: EditorState)
    requires
        s.current_path() is None,
    ensures
        current_name_of(s) is None,
        save_target_of(s) == Err::<Seq<char>, FileError>(FileError::NoOpenFile),
{
}

} // verus!
