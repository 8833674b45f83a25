//! What is known of the file to send: where it is, what it is called, how
//! large it is and what kind of content it holds.

use vstd::prelude::*;
use crate::payload::opt_text;
use crate::transfer::{FileInfo, FileInfoView};

verus! {

/// Why a path cannot name a file to send.
#[derive(Clone, Copy, Debug, PartialEq, Eq, Structural)]
pub enum FileInfoError {
    /// The path has no final component to call the file by.
    InvalidFileName,
}

/// The final component of a path as `std::path::Path::file_name` gives it,
/// by the path rules of the platform the library is built for: `None`
/// where the path has none, as when it ends in `..`.
pub uninterp spec fn path_file_name(path: Seq<char>) -> Option<Seq<char>>;

/// The media type that `mime_guess` finds for a path: the first entry of
/// its table for the path's extension, `application/octet-stream` where it
/// has none, without parameters.
pub uninterp spec fn guessed_mime(path: Seq<char>) -> Seq<char>;

/// Calls `std::path::Path::file_name` on the path. The result is the final
/// component, which is text because the path is.
#[verifier::external_body]
fn file_name_of(path: &str) -> (name: Option<String>)
    ensures
        opt_text(name) == path_file_name(path@),
{
    let name = std::path::Path::new(path).file_name()?;
    Some(name.to_str()?.to_owned())
}

/// Calls `mime_guess::from_path`, takes the guess's
/// `first_or_octet_stream` and returns that media type's `essence_str`.
#[verifier::external_body]
fn guess_mime(path: &str) -> (mime: String)
    ensures
        mime@ == guessed_mime(path@),
{
    mime_guess::from_path(path).first_or_octet_stream().essence_str().to_owned()
}

/// The description of a file from its parts: an error where the path gave
/// no name.
pub open spec fn file_info_of(path: Seq<char>, name: Option<Seq<char>>, size: u64, mime: Seq<char>) -> Result<
    FileInfoView,
    FileInfoError,
> {
    match name {
        Some(name) => Ok(FileInfoView { path, name, size, mime }),
        None => Err(FileInfoError::InvalidFileName),
    }
}

/// Model of what describing a file returns.
pub open spec fn file_info_result(r: Result<FileInfo, FileInfoError>) -> Result<
    FileInfoView,
    FileInfoError,
> {
    match r {
        Ok(info) => Ok(info@),
        Err(e) => Err(e),
    }
}

impl FileInfo {
    /// Puts the description of a file together from its path, the name
    /// that the path gave, its size and its media type.
    pub fn from_parts(path: String, name: Option<String>, size: u64, mime: String) -> (r: Result<
        FileInfo,
        FileInfoError,
    >)
        ensures
            file_info_result(r) == file_info_of(path@, opt_text(name), size, mime@),
    {
        match name {
            Some(name) => Ok(FileInfo { path, name, size, mime }),
            None => Err(FileInfoError::InvalidFileName),
        }
    }
}

/// Describes the file at `path`, whose size the caller has read: its name
/// is the final component of the path, its media type the one guessed from
/// the path's extension.
pub fn load_file_info(path: &str, size: u64) -> (r: Result<FileInfo, FileInfoError>)
    ensures
        file_info_result(r) == file_info_of(path@, path_file_name(path@), size, guessed_mime(path@)),
{
    let name = file_name_of(path);
    let mime = guess_mime(path);
    FileInfo::from_parts(path.to_owned(), name, size, mime)
}

} // verus!
