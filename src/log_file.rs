//! A log file on disk, validated once, and a read cursor over its lines.
use vstd::prelude::*;
use crate::log_entry::LogEntry;

verus! {

/// The extensions accepted for log files.
#[derive(Clone, Copy, Debug, PartialEq, Eq, PartialOrd, Ord)]
pub enum LogFileExtension {
    /// Plain text, ".log".
    Log,
    /// JavaScript Object Notation, ".json"; read as lines like any other.
    Json,
}

/// Why a path cannot be viewed.
#[derive(Debug, PartialEq, Eq)]
pub enum LogFileError {
    /// The path could not be expanded; the text says why.
    PathResolution(String),
    /// Nothing exists at the path.
    NotFound,
    /// The path names a directory.
    NotAFile,
    /// The file name has no extension, or one that is not accepted.
    UnsupportedExtension,
}

impl LogFileError {
    /// The process exit status for this failure.
    pub fn exit_code(&self) -> (r: i32)
        ensures
            r == 1,
    {
        1
    }

    /// A message for the user.
    pub fn message(&self) -> (r: String)
        ensures
            self matches LogFileError::PathResolution(m) ==> r@ == m@,
            self is NotFound ==> r@ == "File not found"@,
            self is NotAFile ==> r@ == "expected file, but found directory instead"@,
            self is UnsupportedExtension ==> r@ == "extension not supported"@,
    {
        match self {
            LogFileError::PathResolution(m) => m.clone(),
            LogFileError::NotFound => "File not found".to_owned(),
            LogFileError::NotAFile => "expected file, but found directory instead".to_owned(),
            LogFileError::UnsupportedExtension => "extension not supported".to_owned(),
        }
    }
}

/// The extension of a path, as the standard library's path parsing finds it.
pub uninterp spec fn extension_of(path: Seq<char>) -> Option<Seq<char>>;

/// The extension kind named by an extension text, if it is accepted.
pub open spec fn kind_of(ext: Option<Seq<char>>) -> Option<LogFileExtension> {
    match ext {
        Some(e) => if e == "json"@ {
            Some(LogFileExtension::Json)
        } else if e == "log"@ {
            Some(LogFileExtension::Log)
        } else {
            None
        },
        None => None,
    }
}

/// The text of an optional string.
pub open spec fn text_of(s: Option<String>) -> Option<Seq<char>> {
    match s {
        Some(t) => Some(t@),
        None => None,
    }
}

/// The number of lines of a file of `n` lines that lie after line `cursor`.
pub open spec fn new_line_count(n: nat, cursor: nat) -> nat {
    if n > cursor + 1 {
        (n - cursor - 1) as nat
    } else {
        0
    }
}

/// The cursor after reading a file of `n` lines from `cursor`: the last line
/// delivered, or `cursor` when nothing was.
pub open spec fn next_cursor(n: nat, cursor: nat) -> nat {
    if n > cursor + 1 {
        (n - 1) as nat
    } else {
        cursor
    }
}

/// The entries for the lines of `lines` whose index is greater than `cursor`,
/// in the order of the file.
pub open spec fn new_entries(lines: Seq<String>, cursor: nat) -> Seq<LogEntry> {
    Seq::new(
        new_line_count(lines.len(), cursor),
        |k: int| LogEntry { line: (cursor + 1 + k) as usize, content: lines[cursor + 1 + k] },
    )
}

/// Reading the same lines again, from the cursor the first read left, yields
/// no entry.
pub proof fn second_read_yields_nothing(lines: Seq<String>, cursor: nat)
    ensures
        new_entries(lines, next_cursor(lines.len(), cursor)).len() == 0,
{
}

/// Relies on `shellexpand::full`: a leading `~` becomes the home directory and
/// `$NAME` the value of the environment variable. A path with neither comes
/// back as it is, and only a variable lookup can fail.
#[verifier::external_body]
fn expand(path: &String) -> (r: Result<String, String>)
    ensures
        !path@.contains('$') ==> r.is_ok(),
        !path@.contains('$') && !(path@.len() > 0 && path@[0] == '~') ==> r.is_ok()
            && r.unwrap()@ == path@,
{
    match shellexpand::full(path) {
        Ok(expanded) => Ok(expanded.into_owned()),
        Err(e) => Err(e.to_string()),
    }
}

/// Relies on `std::path::Path::exists`: whether something exists at the path
/// now. Nothing is known of the answer.
#[verifier::external_body]
fn path_exists(path: &String) -> (r: bool) {
    std::path::Path::new(path).exists()
}

/// Relies on `std::path::Path::is_dir`: whether the path names a directory
/// now. Nothing is known of the answer.
#[verifier::external_body]
fn path_is_dir(path: &String) -> (r: bool) {
    std::path::Path::new(path).is_dir()
}

/// Relies on `std::path::Path::extension`: the text after the last dot of the
/// file name, if there is one.
#[verifier::external_body]
fn path_extension(path: &String) -> (r: Option<String>)
    ensures
        r.is_some() == extension_of(path@).is_some(),
        r.is_some() ==> r.unwrap()@ == extension_of(path@).unwrap(),
{
    match std::path::Path::new(path).extension() {
        Some(e) => Some(e.to_string_lossy().into_owned()),
        None => None,
    }
}

/// The kind of an extension text, or `UnsupportedExtension`.
pub fn classify_extension(ext: Option<String>) -> (r: Result<LogFileExtension, LogFileError>)
    ensures
        kind_of(text_of(ext)) matches Some(k) ==> r == Ok::<
            LogFileExtension,
            LogFileError,
        >(k),
        kind_of(text_of(ext)) is None ==> r == Err::<LogFileExtension, LogFileError>(
            LogFileError::UnsupportedExtension,
        ),
{
    match ext {
        Some(e) => {
            if e == "json".to_owned() {
                Ok(LogFileExtension::Json)
            } else if e == "log".to_owned() {
                Ok(LogFileExtension::Log)
            } else {
                Err(LogFileError::UnsupportedExtension)
            }
        },
        None => Err(LogFileError::UnsupportedExtension),
    }
}

/// A file of application logs and how far it has been read.
pub struct LogFile {
    /// The expanded path of the file.
    path: String,
    /// The kind of the file's extension.
    extension: LogFileExtension,
    /// The highest line index delivered so far.
    current_line: usize,
}

impl LogFile {
    /// The expanded path of the file.
    pub closed spec fn spec_path(&self) -> Seq<char> {
        self.path@
    }

    /// The kind of the file's extension.
    pub closed spec fn spec_extension(&self) -> LogFileExtension {
        self.extension
    }

    /// The highest line index delivered so far.
    pub closed spec fn cursor(&self) -> nat {
        self.current_line as nat
    }

    /// Opens the file at `path` for viewing: expands it, checks that it names
    /// an existing file that is not a directory, and reads its extension. The
    /// cursor starts at 0.
    pub fn new(path: String) -> (r: Result<Self, LogFileError>)
        ensures
            r matches Err(LogFileError::PathResolution(_)) ==> path@.contains('$'),
            r matches Ok(f) ==> f.cursor() == 0 && kind_of(extension_of(f.spec_path())) == Some(
                f.spec_extension(),
            ),
            r matches Ok(f) ==> (!path@.contains('$') && !(path@.len() > 0 && path@[0] == '~')
                ==> f.spec_path() == path@),
            !path@.contains('$') && !(path@.len() > 0 && path@[0] == '~') && kind_of(
                extension_of(path@),
            ) is None ==> r is Err,
    {
        let mut log = LogFile { path, extension: LogFileExtension::Log, current_line: 0 };
        log.expand_path()?;
        let exists = path_exists(&log.path);
        let is_dir = path_is_dir(&log.path);
        Self::validate(log.path, exists, is_dir)
    }

    /// Replaces the path by its expansion.
    fn expand_path(&mut self) -> (r: Result<(), LogFileError>)
        ensures
            r matches Err(LogFileError::PathResolution(_)) ==> old(self).path@.contains('$'),
            r is Err ==> r matches Err(LogFileError::PathResolution(_)),
            !old(self).path@.contains('$') && !(old(self).path@.len() > 0 && old(self).path@[0]
                == '~') ==> final(self).path@ == old(self).path@,
            final(self).current_line == old(self).current_line,
    {
        match expand(&self.path) {
            Ok(expanded) => {
                self.path = expanded;
                Ok(())
            },
            Err(e) => Err(LogFileError::PathResolution(e)),
        }
    }

    /// Checks an expanded `path` given what the file system said of it:
    /// whether something exists there and whether it is a directory. The
    /// checks come in that order, then the extension's.
    pub fn validate(path: String, exists: bool, is_dir: bool) -> (r: Result<Self, LogFileError>)
        ensures
            !exists ==> r == Err::<Self, LogFileError>(LogFileError::NotFound),
            exists && is_dir ==> r == Err::<Self, LogFileError>(LogFileError::NotAFile),
            exists && !is_dir && kind_of(extension_of(path@)) is None ==> r == Err::<
                Self,
                LogFileError,
            >(LogFileError::UnsupportedExtension),
            exists && !is_dir && kind_of(extension_of(path@)) is Some ==> (r matches Ok(f)
                && f.spec_path() == path@ && f.cursor() == 0 && Some(f.spec_extension())
                == kind_of(extension_of(path@))),
    {
        if !exists {
            return Err(LogFileError::NotFound);
        }
        if is_dir {
            return Err(LogFileError::NotAFile);
        }
        let mut log = LogFile { path, extension: LogFileExtension::Log, current_line: 0 };
        log.set_extension()?;
        Ok(log)
    }

    /// Sets the extension kind from the path, or fails with `UnsupportedExtension`.
    fn set_extension(&mut self) -> (r: Result<(), LogFileError>)
        ensures
            final(self).path == old(self).path,
            final(self).current_line == old(self).current_line,
            kind_of(extension_of(old(self).path@)) matches Some(k) ==> r is Ok
                && final(self).extension == k,
            kind_of(extension_of(old(self).path@)) is None ==> r == Err::<(), LogFileError>(
                LogFileError::UnsupportedExtension,
            ),
    {
        let ext = path_extension(&self.path);
        proof {
            assert(text_of(ext) == extension_of(self.path@));
        }
        self.extension = classify_extension(ext)?;
        Ok(())
    }

    /// The path of the file.
    pub fn path(&self) -> (r: &String)
        ensures
            r@ == self.spec_path(),
    {
        &self.path
    }

    /// The kind of the file's extension.
    pub fn extension(&self) -> (r: LogFileExtension)
        ensures
            r == self.spec_extension(),
    {
        self.extension
    }

    /// The highest line index delivered so far.
    pub fn current_line(&self) -> (r: usize)
        ensures
            r == self.cursor(),
    {
        self.current_line
    }

    /// Takes the current lines of the file, read afresh, and returns the
    /// entries for the lines after the cursor, in file order. The cursor
    /// moves to the last line returned and stays when none is; a file cut
    /// below the cursor yields nothing.
    pub fn get_entries(&mut self, lines: &Vec<String>) -> (r: Vec<LogEntry>)
        ensures
            r@ == new_entries(lines@, old(self).cursor()),
            final(self).cursor() == next_cursor(lines@.len(), old(self).cursor()),
            final(self).cursor() >= old(self).cursor(),
            final(self).spec_path() == old(self).spec_path(),
            final(self).spec_extension() == old(self).spec_extension(),
            forall|i: int, j: int| 0 <= i < j < r@.len() ==> r@[i].line < r@[j].line,
    {
        let ghost cursor = self.current_line as nat;
        let n = lines.len();
        let mut entries: Vec<LogEntry> = Vec::new();
        let mut i: usize = 0;
        while i < n
            invariant
                n == lines@.len(),
                i <= n,
                self.current_line == cursor,
                entries@.len() == new_line_count(i as nat, cursor),
                forall|k: int|
                    0 <= k < entries@.len() ==> entries@[k] == (LogEntry {
                        line: (cursor + 1 + k) as usize,
                        content: lines@[cursor + 1 + k],
                    }),
            decreases n - i,
        {
            if i > self.current_line {
                entries.push(LogEntry::new(i, lines[i].clone()));
            }
            i = i + 1;
        }
        if entries.len() > 0 {
            self.current_line = n - 1;
        }
        assert(entries@ =~= new_entries(lines@, cursor));
        entries
    }
}

} // verus!
