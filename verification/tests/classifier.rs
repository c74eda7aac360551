use file_organizer::FileType;

#[test]
fn every_listed_extension_has_its_category() {
    for ext in ["mp4", "mkv", "avi", "mov", "wmv"] {
        assert_eq!(FileType::from_extension(ext), FileType::Video);
    }
    for ext in ["mp3", "wav", "flac", "m4a", "ogg"] {
        assert_eq!(FileType::from_extension(ext), FileType::Music);
    }
    for ext in ["pdf", "doc", "docx", "txt", "rtf"] {
        assert_eq!(FileType::from_extension(ext), FileType::Document);
    }
    for ext in ["jpg", "jpeg", "png", "gif", "bmp"] {
        assert_eq!(FileType::from_extension(ext), FileType::Picture);
    }
    for ext in ["exe", "msi", "bat", "sh", "app"] {
        assert_eq!(FileType::from_extension(ext), FileType::Program);
    }
}

#[test]
fn case_of_the_extension_does_not_matter() {
    assert_eq!(FileType::from_extension("JPG"), FileType::Picture);
    assert_eq!(FileType::from_extension("Mp4"), FileType::Video);
    assert_eq!(FileType::from_extension("DocX"), FileType::Document);
    assert_eq!(FileType::from_extension("SH"), FileType::Program);
}

#[test]
fn lower_casing_is_that_of_unicode() {
    // U+212A, the Kelvin sign, lower-cases to the letter k.
    assert_eq!(FileType::from_extension("M\u{212A}V"), FileType::Video);
    assert_eq!(FileType::from_lowercase("M\u{212A}V"), FileType::Other);
}

#[test]
fn unknown_and_missing_extensions_are_other() {
    assert_eq!(FileType::from_extension(""), FileType::Other);
    assert_eq!(FileType::from_extension("zip"), FileType::Other);
    assert_eq!(FileType::from_extension("jpgx"), FileType::Other);
    assert_eq!(FileType::from_extension("jp"), FileType::Other);
    assert_eq!(FileType::from_extension(".jpg"), FileType::Other);
    assert_eq!(FileType::from_extension("tar.gz"), FileType::Other);
    assert_eq!(FileType::from_extension("日本語"), FileType::Other);
}

#[test]
fn exact_table_lookup_takes_lower_case_only() {
    assert_eq!(FileType::from_lowercase("png"), FileType::Picture);
    assert_eq!(FileType::from_lowercase("PNG"), FileType::Other);
    assert_eq!(FileType::from_lowercase("flac"), FileType::Music);
}

#[test]
fn category_names_are_the_variant_names() {
    assert_eq!(FileType::Video.name(), "Video");
    assert_eq!(FileType::Music.name(), "Music");
    assert_eq!(FileType::Document.name(), "Document");
    assert_eq!(FileType::Picture.name(), "Picture");
    assert_eq!(FileType::Program.name(), "Program");
    assert_eq!(FileType::Other.name(), "Other");
    assert_eq!(format!("{:?}", FileType::Picture), FileType::Picture.name());
}
