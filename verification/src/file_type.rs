//! The classifier: from a file extension to one of six categories.

use vstd::prelude::*;
use crate::text::{chars_of, lowercase, spells, to_lowercase};

verus! {

/// The coarse bucket a file is sorted into. Its name is the first-level
/// folder of the destination layout.
#[derive(Debug, Clone, Copy, PartialEq, Eq, Structural)]
pub enum FileType {
    Video,
    Music,
    Document,
    Picture,
    Program,
    Other,
}

pub open spec fn is_video_extension(ext: Seq<char>) -> bool {
    ext == "mp4"@ || ext == "mkv"@ || ext == "avi"@ || ext == "mov"@ || ext == "wmv"@
}

pub open spec fn is_music_extension(ext: Seq<char>) -> bool {
    ext == "mp3"@ || ext == "wav"@ || ext == "flac"@ || ext == "m4a"@ || ext == "ogg"@
}

pub open spec fn is_document_extension(ext: Seq<char>) -> bool {
    ext == "pdf"@ || ext == "doc"@ || ext == "docx"@ || ext == "txt"@ || ext == "rtf"@
}

pub open spec fn is_picture_extension(ext: Seq<char>) -> bool {
    ext == "jpg"@ || ext == "jpeg"@ || ext == "png"@ || ext == "gif"@ || ext == "bmp"@
}

pub open spec fn is_program_extension(ext: Seq<char>) -> bool {
    ext == "exe"@ || ext == "msi"@ || ext == "bat"@ || ext == "sh"@ || ext == "app"@
}

/// An extension that the lookup table lists.
pub open spec fn is_known_extension(ext: Seq<char>) -> bool {
    is_video_extension(ext) || is_music_extension(ext) || is_document_extension(ext)
        || is_picture_extension(ext) || is_program_extension(ext)
}

/// The lookup table, on an extension that is already lower case. The five
/// lists are tried in this order; whatever none of them holds is `Other`.
pub open spec fn category_of(ext: Seq<char>) -> FileType {
    if is_video_extension(ext) {
        FileType::Video
    } else if is_music_extension(ext) {
        FileType::Music
    } else if is_document_extension(ext) {
        FileType::Document
    } else if is_picture_extension(ext) {
        FileType::Picture
    } else if is_program_extension(ext) {
        FileType::Program
    } else {
        FileType::Other
    }
}

impl FileType {
    /// The category's name, spelled as the variant is.
    pub open spec fn name_spec(self) -> Seq<char> {
        match self {
            FileType::Video => "Video"@,
            FileType::Music => "Music"@,
            FileType::Document => "Document"@,
            FileType::Picture => "Picture"@,
            FileType::Program => "Program"@,
            FileType::Other => "Other"@,
        }
    }

    /// The folder name of this category.
    pub fn name(&self) -> (r: &'static str)
        ensures
            r@ == self.name_spec(),
    {
        match self {
            FileType::Video => "Video",
            FileType::Music => "Music",
            FileType::Document => "Document",
            FileType::Picture => "Picture",
            FileType::Program => "Program",
            FileType::Other => "Other",
        }
    }

    /// Classifies an extension that is already lower case.
    pub fn from_lowercase(extension: &str) -> (r: FileType)
        ensures
            r == category_of(extension@),
    {
        let e = chars_of(extension);
        if spells(&e, "mp4") || spells(&e, "mkv") || spells(&e, "avi") || spells(&e, "mov")
            || spells(&e, "wmv") {
            FileType::Video
        } else if spells(&e, "mp3") || spells(&e, "wav") || spells(&e, "flac") || spells(&e, "m4a")
            || spells(&e, "ogg") {
            FileType::Music
        } else if spells(&e, "pdf") || spells(&e, "doc") || spells(&e, "docx") || spells(&e, "txt")
            || spells(&e, "rtf") {
            FileType::Document
        } else if spells(&e, "jpg") || spells(&e, "jpeg") || spells(&e, "png") || spells(&e, "gif")
            || spells(&e, "bmp") {
            FileType::Picture
        } else if spells(&e, "exe") || spells(&e, "msi") || spells(&e, "bat") || spells(&e, "sh")
            || spells(&e, "app") {
            FileType::Program
        } else {
            FileType::Other
        }
    }

    /// Classifies a file by its extension, whatever its case. Total: an
    /// extension that the table does not list, the empty one included, gives
    /// `Other`.
    pub fn from_extension(extension: &str) -> (r: FileType)
        ensures
            r == category_of(lowercase(extension@)),
    {
        let lower = to_lowercase(extension);
        FileType::from_lowercase(lower.as_str())
    }
}

/// Every extension outside the table is classified as `Other`.
pub proof fn lemma_unlisted_extension_is_other(ext: Seq<char>)
    requires
        !is_known_extension(ext),
    ensures
        category_of(ext) == FileType::Other,
{
}

/// Every extension of the table has two to four characters.
pub proof fn lemma_known_extension_len(ext: Seq<char>)
    requires
        is_known_extension(ext),
    ensures
        2 <= ext.len() <= 4,
{
    reveal_strlit("mp4");
    reveal_strlit("mkv");
    reveal_strlit("avi");
    reveal_strlit("mov");
    reveal_strlit("wmv");
    reveal_strlit("mp3");
    reveal_strlit("wav");
    reveal_strlit("flac");
    reveal_strlit("m4a");
    reveal_strlit("ogg");
    reveal_strlit("pdf");
    reveal_strlit("doc");
    reveal_strlit("docx");
    reveal_strlit("txt");
    reveal_strlit("rtf");
    reveal_strlit("jpg");
    reveal_strlit("jpeg");
    reveal_strlit("png");
    reveal_strlit("gif");
    reveal_strlit("bmp");
    reveal_strlit("exe");
    reveal_strlit("msi");
    reveal_strlit("bat");
    reveal_strlit("sh");
    reveal_strlit("app");
    assert("mp4"@.len() == 3);
    assert("mkv"@.len() == 3);
    assert("avi"@.len() == 3);
    assert("mov"@.len() == 3);
    assert("wmv"@.len() == 3);
    assert("mp3"@.len() == 3);
    assert("wav"@.len() == 3);
    assert("flac"@.len() == 4);
    assert("m4a"@.len() == 3);
    assert("ogg"@.len() == 3);
    assert("pdf"@.len() == 3);
    assert("doc"@.len() == 3);
    assert("docx"@.len() == 4);
    assert("txt"@.len() == 3);
    assert("rtf"@.len() == 3);
    assert("jpg"@.len() == 3);
    assert("jpeg"@.len() == 4);
    assert("png"@.len() == 3);
    assert("gif"@.len() == 3);
    assert("bmp"@.len() == 3);
    assert("exe"@.len() == 3);
    assert("msi"@.len() == 3);
    assert("bat"@.len() == 3);
    assert("sh"@.len() == 2);
    assert("app"@.len() == 3);
}

/// A missing extension, the empty string, is classified as `Other`.
pub proof fn lemma_missing_extension_is_other()
    ensures
        category_of(Seq::<char>::empty()) == FileType::Other,
{
    if is_known_extension(Seq::<char>::empty()) {
        lemma_known_extension_len(Seq::<char>::empty());
    }
}

} // verus!
