//! The run's configuration, as handed over by the command line.
use vstd::prelude::*;

verus! {

/// What to do when the destination of a file is already taken.
#[derive(Debug, Clone, Copy, PartialEq, Eq, Structural)]
pub enum Collision {
    /// Leave the file where it is (refuse to overwrite).
    Skip,
    /// Put a copy index in front of the file name.
    Rename,
    /// Replace what is there.
    Overwrite,
}

/// Where the date of a file is read from.
#[derive(Debug, Clone, Copy, PartialEq, Eq, Structural)]
pub enum Gatherer {
    /// The file's embedded exif data.
    Exif,
    /// The `exiftool` program.
    Exiftool,
    /// The `ffprobe` program.
    Ffprobe,
    /// The file's creation time on the filesystem.
    FileCreate,
    /// The file's modification time on the filesystem.
    FileModify,
}

/// What is done with a file once its destination is known.
#[derive(Debug, Clone, Copy, PartialEq, Eq, Structural)]
pub enum Action {
    /// Move the file (rename).
    Move,
    /// Copy the file.
    Copy,
    /// Hard link the file.
    Hardlink,
}

/// The configuration of one run, shared read-only by every file of it.
#[derive(Debug, Clone)]
pub struct Args {
    pub collision: Collision,
    pub action: Action,
    pub target_dir: String,
    pub gatherer: Gatherer,
    pub dry_run: bool,
    pub files: Vec<String>,
}

/// Why a configuration is refused before any file is looked at.
#[derive(Debug, Clone, Copy, PartialEq, Eq, Structural)]
pub enum ConfigError {
    /// No file was given.
    NoFiles,
}

/// Builds the configuration of a run from the values read off the command line,
/// refusing an empty file list.
pub fn parse(
    collision: Collision,
    action: Action,
    target_dir: String,
    gatherer: Gatherer,
    dry_run: bool,
    files: Vec<String>,
) -> (r: Result<Args, ConfigError>)
    ensures
        files.len() == 0 <==> r == Err::<Args, ConfigError>(ConfigError::NoFiles),
        r matches Ok(a) ==> a.collision == collision && a.action == action && a.target_dir
            == target_dir && a.gatherer == gatherer && a.dry_run == dry_run && a.files == files,
{
    if files.len() == 0 {
        Err(ConfigError::NoFiles)
    } else {
        Ok(Args { collision, action, target_dir, gatherer, dry_run, files })
    }
}

} // verus!
