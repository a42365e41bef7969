//! Where the rig keeps its files: paths below the home directory, and
//! directories that are known to exist.

use vstd::prelude::*;
use crate::text::{chars_of, push_all, push_str, string_of};

verus! {

/// `part` below `base`, as paths are joined where `/` parts the
/// components: an absolute `part` stands alone, and the separator is
/// added where `base` does not end in it.
pub open spec fn joined(base: Seq<char>, part: Seq<char>) -> Seq<char> {
    if part.len() > 0 && part[0] == '/' {
        part
    } else if base.len() == 0 || base.last() == '/' {
        base + part
    } else {
        base + seq!['/'] + part
    }
}

/// The path of `part` below `base`.
pub fn join(base: &str, part: &str) -> (path: String)
    ensures
        path@ == joined(base@, part@),
{
    let base = chars_of(base);
    let part = chars_of(part);
    let mut out: Vec<char> = Vec::new();
    if part.len() > 0 && part[0] == '/' {
        push_all(&mut out, &part);
    } else if base.len() == 0 || base[base.len() - 1] == '/' {
        push_all(&mut out, &base);
        push_all(&mut out, &part);
    } else {
        push_all(&mut out, &base);
        out.push('/');
        push_all(&mut out, &part);
    }
    let path = string_of(&out);
    assert(path@ =~= joined(base@, part@));
    path
}

/// Why a directory could not be had.
#[derive(Debug, Clone, PartialEq, Eq)]
pub enum DirectoryError {
    /// The user has no home directory.
    NoUserDirs,
    /// The directory at the path is missing and could not be created, for
    /// the reason given.
    Creating(String, String),
}

/// The mathematical content of a [`DirectoryError`].
pub enum DirectoryFailure {
    NoUserDirs,
    Creating(Seq<char>, Seq<char>),
}

impl View for DirectoryError {
    type V = DirectoryFailure;

    open spec fn view(&self) -> DirectoryFailure {
        match self {
            DirectoryError::NoUserDirs => DirectoryFailure::NoUserDirs,
            DirectoryError::Creating(dir, why) => DirectoryFailure::Creating(dir@, why@),
        }
    }
}

impl DirectoryError {
    /// The error in words.
    pub fn message(&self) -> (text: String)
        ensures
            text@ == (match self@ {
                DirectoryFailure::NoUserDirs => "no user dirs"@,
                DirectoryFailure::Creating(dir, why) => "creating directory "@ + dir + ": "@
                    + why,
            }),
    {
        let mut out: Vec<char> = Vec::new();
        match self {
            DirectoryError::NoUserDirs => {
                push_str(&mut out, "no user dirs");
            },
            DirectoryError::Creating(dir, why) => {
                push_str(&mut out, "creating directory ");
                push_str(&mut out, dir.as_str());
                push_str(&mut out, ": ");
                push_str(&mut out, why.as_str());
            },
        }
        let text = string_of(&out);
        assert(text@ =~= (match self@ {
            DirectoryFailure::NoUserDirs => "no user dirs"@,
            DirectoryFailure::Creating(dir, why) => "creating directory "@ + dir + ": "@ + why,
        }));
        text
    }
}

/// The user's home directory, where the system names one.
pub fn home_dir(named: Option<String>) -> (home: Result<String, DirectoryError>)
    ensures
        match named {
            Some(path) => home matches Ok(h) && h@ == path@,
            None => home matches Err(e) && e@ == DirectoryFailure::NoUserDirs,
        },
{
    match named {
        Some(path) => Ok(path),
        None => Err(DirectoryError::NoUserDirs),
    }
}

/// The name of the patchbay session file.
pub open spec fn patchbay_session_name() -> Seq<char> {
    "qpwgraph-reaper-generated-session.qpwgraph"@
}

/// The path of the patchbay session file, which has to outlive the
/// session: it stands in the home directory.
pub fn temp_path(home: &str) -> (path: String)
    ensures
        path@ == joined(home@, patchbay_session_name()),
{
    join(home, "qpwgraph-reaper-generated-session.qpwgraph")
}

/// The path of `name` in the home directory.
pub fn temp_home_path(home: &str, name: &str) -> (path: String)
    ensures
        path@ == joined(home@, name@),
{
    join(home, name)
}

/// What was seen at a path.
#[derive(Debug, Clone, PartialEq, Eq)]
pub enum Existence {
    /// Nothing is there.
    Missing,
    /// Something is there; the flag says whether it is a directory.
    Present(bool),
    /// Looking failed, for the reason given.
    Unknown(String),
}

/// Whether a directory has to be created at a path, given what was seen
/// there: unless a directory is there already.
pub open spec fn has_to_be_created(seen: Existence) -> bool {
    !(seen matches Existence::Present(is_directory) && is_directory)
}

/// Whether a directory has to be created at a path.
pub fn needs_creation(seen: &Existence) -> (needed: bool)
    ensures
        needed == has_to_be_created(*seen),
{
    match seen {
        Existence::Present(is_directory) => !*is_directory,
        _ => true,
    }
}

/// How a directory came to be at a path, or why none is there.
#[derive(Debug, Clone, PartialEq, Eq)]
pub enum Provision {
    /// The directory was there.
    Found,
    /// The directory was created.
    Created,
    /// The directory could not be created, for the reason given.
    Failed(String),
}

/// A directory that was there, or was created, when its path was checked.
#[derive(Debug, Clone, PartialEq, Eq)]
pub struct ExistingDirectory(String);

impl View for ExistingDirectory {
    type V = Seq<char>;

    closed spec fn view(&self) -> Seq<char> {
        self.0@
    }
}

/// What checking the path `dir` comes to.
pub open spec fn checked(dir: Seq<char>, provision: Provision) -> Result<
    Seq<char>,
    DirectoryFailure,
> {
    match provision {
        Provision::Failed(why) => Err(DirectoryFailure::Creating(dir, why@)),
        _ => Ok(dir),
    }
}

impl ExistingDirectory {
    /// Accepts the directory at `dir`, which was found or created, and
    /// fails where it could not be created.
    pub fn check(dir: String, provision: Provision) -> (directory: Result<
        ExistingDirectory,
        DirectoryError,
    >)
        ensures
            match directory {
                Ok(d) => checked(dir@, provision) == Ok::<Seq<char>, DirectoryFailure>(d@),
                Err(e) => checked(dir@, provision) == Err::<Seq<char>, DirectoryFailure>(e@),
            },
    {
        match provision {
            Provision::Failed(why) => Err(DirectoryError::Creating(dir, why)),
            _ => Ok(ExistingDirectory(dir)),
        }
    }

    /// The directory's path.
    pub fn path(&self) -> (path: &str)
        ensures
            path@ == self@,
    {
        self.0.as_str()
    }
}

/// A path that can be checked for a directory.
pub trait ExistingDirectoryExt: Sized {
    /// The path as text.
    spec fn path_text(&self) -> Seq<char>;

    /// Accepts the directory at this path, which was found or created,
    /// and fails where it could not be created.
    fn directory_exists(self, provision: Provision) -> (directory: Result<
        ExistingDirectory,
        DirectoryError,
    >)
        ensures
            match directory {
                Ok(d) => checked(self.path_text(), provision) == Ok::<
                    Seq<char>,
                    DirectoryFailure,
                >(d@),
                Err(e) => checked(self.path_text(), provision) == Err::<
                    Seq<char>,
                    DirectoryFailure,
                >(e@),
            },
    ;
}

impl ExistingDirectoryExt for String {
    open spec fn path_text(&self) -> Seq<char> {
        self@
    }

    fn directory_exists(self, provision: Provision) -> (directory: Result<
        ExistingDirectory,
        DirectoryError,
    >) {
        ExistingDirectory::check(self, provision)
    }
}

/// The path of the directory that holds the sessions, below the home
/// directory.
pub open spec fn sessions_path(home: Seq<char>) -> Seq<char> {
    joined(joined(home, "Music"@), "reaper-sessions"@)
}

/// The path of the directory that holds the sessions.
pub fn sessions_directory_path(home: &str) -> (path: String)
    ensures
        path@ == sessions_path(home@),
{
    let music = join(home, "Music");
    join(music.as_str(), "reaper-sessions")
}

/// The directory that holds the sessions, which was found or created.
pub fn sessions_directory(home: &str, provision: Provision) -> (directory: Result<
    ExistingDirectory,
    DirectoryError,
>)
    ensures
        match directory {
            Ok(d) => checked(sessions_path(home@), provision) == Ok::<
                Seq<char>,
                DirectoryFailure,
            >(d@),
            Err(e) => checked(sessions_path(home@), provision) == Err::<
                Seq<char>,
                DirectoryFailure,
            >(e@),
        },
{
    ExistingDirectory::check(sessions_directory_path(home), provision)
}

/// The path of a project's directory among the sessions.
pub fn project_directory_path(sessions: &ExistingDirectory, project_name: &str) -> (path: String)
    ensures
        path@ == joined(sessions@, project_name@),
{
    join(sessions.path(), project_name)
}

/// A project's directory among the sessions, which was found or created.
pub fn project_directory(
    sessions: &ExistingDirectory,
    project_name: &str,
    provision: Provision,
) -> (directory: Result<ExistingDirectory, DirectoryError>)
    ensures
        match directory {
            Ok(d) => checked(joined(sessions@, project_name@), provision) == Ok::<
                Seq<char>,
                DirectoryFailure,
            >(d@),
            Err(e) => checked(joined(sessions@, project_name@), provision) == Err::<
                Seq<char>,
                DirectoryFailure,
            >(e@),
        },
{
    ExistingDirectory::check(project_directory_path(sessions, project_name), provision)
}

} // verus!
