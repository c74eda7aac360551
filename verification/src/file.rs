//! The descriptor of one file found in the input folder.

use vstd::prelude::*;
use crate::error::{creation_time_error, creation_time_message};
use crate::file_type::{category_of, FileType};
use crate::paths::{extension_of, file_name_of, path_extension, path_file_name};
use crate::text::lowercase;
use crate::timestamp::{format_local, LocalTime};

verus! {

/// One file of a scan: where it is, what it is called, how large it is and
/// when it was created. Whoever scans reads the last two from the file
/// system. `created` carries the moment of creation with the offset of local
/// time, by which the day of creation is told, or what the system said where
/// it could not tell the moment. A file name without an extension has the
/// empty extension.
#[derive(Debug, PartialEq, Eq)]
pub struct CustomFile {
    pub extension: String,
    pub name: String,
    pub path: String,
    pub size: u64,
    pub created: Result<LocalTime, String>,
}

/// A [`CustomFile`] with its texts as sequences of characters.
pub struct CustomFileView {
    pub extension: Seq<char>,
    pub name: Seq<char>,
    pub path: Seq<char>,
    pub size: u64,
    pub created: Result<LocalTime, Seq<char>>,
}

/// The view of a creation time or of the reason in its place.
pub open spec fn created_view(created: Result<LocalTime, String>) -> Result<LocalTime, Seq<char>> {
    match created {
        Ok(at) => Ok(at),
        Err(reason) => Err(reason@),
    }
}

impl View for CustomFile {
    type V = CustomFileView;

    open spec fn view(&self) -> CustomFileView {
        CustomFileView {
            extension: self.extension@,
            name: self.name@,
            path: self.path@,
            size: self.size,
            created: created_view(self.created),
        }
    }
}

impl Clone for CustomFile {
    fn clone(&self) -> (r: CustomFile)
        ensures
            r@ == self@,
    {
        CustomFile {
            extension: self.extension.clone(),
            name: self.name.clone(),
            path: self.path.clone(),
            size: self.size,
            created: match &self.created {
                Ok(at) => Ok(*at),
                Err(reason) => Err(reason.clone()),
            },
        }
    }
}

/// The reason given for a moment that cannot be written as a date.
pub open spec fn out_of_range() -> Seq<char> {
    "time out of range"@
}

impl CustomFileView {
    /// The text of the day the file was created, in local time, or the
    /// message that stands in its place: with what the system said where it
    /// did not tell the moment, or saying that the moment is out of range
    /// where it cannot be written as a date.
    pub open spec fn creation_date(self) -> Result<Seq<char>, Seq<char>> {
        match self.created {
            Ok(at) => match at.date_text() {
                Some(d) => Ok(d),
                None => Err(creation_time_error(self.path, out_of_range())),
            },
            Err(reason) => Err(creation_time_error(self.path, reason)),
        }
    }

    /// The text of the day the file was created, if it has one.
    pub open spec fn date(self) -> Option<Seq<char>> {
        match self.creation_date() {
            Ok(d) => Some(d),
            Err(_) => None,
        }
    }
}

/// The view of a date or of the message in its place.
pub open spec fn date_result_view(r: Result<String, String>) -> Result<Seq<char>, Seq<char>> {
    match r {
        Ok(d) => Ok(d@),
        Err(msg) => Err(msg@),
    }
}

/// The descriptor of the file at `path`, given the file name and the
/// extension that the path has. Every path with a file name describes a
/// file; where it has no extension, the extension of the file is empty.
pub open spec fn described(
    path: Seq<char>,
    name: Option<Seq<char>>,
    extension: Option<Seq<char>>,
    size: u64,
    created: Result<LocalTime, Seq<char>>,
) -> Option<CustomFileView> {
    match name {
        Some(n) => Some(
            CustomFileView {
                extension: match extension {
                    Some(e) => e,
                    None => Seq::empty(),
                },
                name: n,
                path: path,
                size: size,
                created: created,
            },
        ),
        None => None,
    }
}

/// The view of an optional text.
pub open spec fn text_view(s: Option<String>) -> Option<Seq<char>> {
    match s {
        Some(t) => Some(t@),
        None => None,
    }
}

/// The view of an optional descriptor.
pub open spec fn file_view(f: Option<CustomFile>) -> Option<CustomFileView> {
    match f {
        Some(file) => Some(file@),
        None => None,
    }
}

impl CustomFile {
    /// Builds the descriptor from a path whose file name and extension are
    /// already known. A path without a file name describes no file; a file
    /// name without an extension gets the empty one.
    pub fn from_parts(
        path: &str,
        name: Option<String>,
        extension: Option<String>,
        size: u64,
        created: Result<LocalTime, String>,
    ) -> (r: Option<CustomFile>)
        ensures
            file_view(r) == described(
                path@,
                text_view(name),
                text_view(extension),
                size,
                created_view(created),
            ),
    {
        match name {
            Some(n) => {
                let extension = match extension {
                    Some(e) => e,
                    None => String::new(),
                };
                Some(CustomFile { extension, name: n, path: path.to_string(), size, created })
            },
            None => None,
        }
    }

    /// Builds the descriptor of the file at `path` from what the file system
    /// said of it. The file name is the one that `std::path` finds in `path`,
    /// the extension is that of the file name, empty where it has none; a
    /// path without a file name describes no file.
    pub fn from_path(path: &str, size: u64, created: Result<LocalTime, String>) -> (r: Option<
        CustomFile,
    >)
        ensures
            file_view(r) == described(
                path@,
                path_file_name(path@),
                path_extension(path@),
                size,
                created_view(created),
            ),
    {
        let name = file_name_of(path);
        let extension = extension_of(path);
        CustomFile::from_parts(path, name, extension, size, created)
    }

    /// The category of this file, by its extension.
    pub fn get_type(&self) -> (r: FileType)
        ensures
            r == category_of(lowercase(self.extension@)),
    {
        FileType::from_extension(self.extension.as_str())
    }

    /// The day the file was created, in local time, as `YYYY-MM-DD`, or the
    /// message that says why the day is not to be had: with what the system
    /// said where it did not tell the moment of creation, or saying that the
    /// moment is out of range where it cannot be written as a date.
    pub fn get_creation_date(&self) -> (r: Result<String, String>)
        ensures
            date_result_view(r) == self@.creation_date(),
    {
        match &self.created {
            Ok(at) => match format_local(*at, "%Y-%m-%d") {
                Some(d) => Ok(d),
                None => Err(creation_time_message(self.path.as_str(), "time out of range")),
            },
            Err(reason) => Err(creation_time_message(self.path.as_str(), reason.as_str())),
        }
    }
}

} // verus!
