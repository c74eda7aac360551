use file_organizer::paths::{
    chosen_output_from, chosen_output_path, default_output_path, extension_of, extension_of_name, generate_save_filename, get_save_dir,
    has_save_extension, is_save_file, join, output_path_for, output_path_from_parts,
    parent_or_same, sanitize, save_dir_in, save_file_name, saves_among,
};
use file_organizer::processor::{
    confirm_directory, creation_dates, destination_directory, organize_with_dates, plan, plan_as,
    plan_dated, plan_with_date,
};
use file_organizer::{
    organize_files, CustomFile, FileType, LocalTime, OrganizeError, Paths, PlanError, Timestamp,
};

/// What a file system says that keeps no creation times.
fn untold() -> Result<LocalTime, String> {
    Err("creation time is not available on this platform".to_string())
}

fn photo(created: Result<LocalTime, String>) -> CustomFile {
    CustomFile::from_path("/in/holiday/a.jpg", 1234, created).unwrap()
}

/// Noon of 2024-01-01 in UTC, seen at `utc_offset` seconds east of it.
fn noon(utc_offset: i32) -> LocalTime {
    LocalTime::new(Timestamp::new(1_704_110_400, 0), utc_offset)
}

#[test]
fn join_puts_one_slash_between() {
    assert_eq!(join("out", "Picture"), "out/Picture");
    assert_eq!(join("out/", "Picture"), "out/Picture");
    assert_eq!(join("", "Picture"), "Picture");
    assert_eq!(join("/", "Picture"), "/Picture");
    assert_eq!(join("out", ""), "out/");
    assert_eq!(join("söme/dir", "ñ"), "söme/dir/ñ");
}

#[test]
fn descriptor_takes_name_and_extension_from_the_path() {
    let file = CustomFile::from_path("/in/holiday/a.jpg", 1234, untold()).unwrap();
    assert_eq!(file.name, "a.jpg");
    assert_eq!(file.extension, "jpg");
    assert_eq!(file.path, "/in/holiday/a.jpg");
    assert_eq!(file.size, 1234);
    assert_eq!(file.created, untold());
    assert_eq!(file.get_type(), FileType::Picture);

    let archive = CustomFile::from_path("backup.TAR.GZ", 1, untold()).unwrap();
    assert_eq!(archive.name, "backup.TAR.GZ");
    assert_eq!(archive.extension, "GZ");
    assert_eq!(archive.get_type(), FileType::Other);
}

#[test]
fn file_without_extension_is_described_with_the_empty_one() {
    let readme = CustomFile::from_path("/in/README", 1, untold()).unwrap();
    assert_eq!(readme.name, "README");
    assert_eq!(readme.extension, "");
    assert_eq!(readme.path, "/in/README");
    assert_eq!(readme.get_type(), FileType::Other);
    let hidden = CustomFile::from_path("/in/.bashrc", 2, untold()).unwrap();
    assert_eq!(hidden.name, ".bashrc");
    assert_eq!(hidden.extension, "");
    assert_eq!(hidden.get_type(), FileType::Other);
    let dotted = CustomFile::from_path("/in/trailing.", 3, untold()).unwrap();
    assert_eq!(dotted.extension, "");
    let task = plan_with_date(&readme, "/out", "2024-01-01");
    assert_eq!(task.target_path, "/out/Other/2024-01-01/README");
}

#[test]
fn path_without_a_file_name_describes_no_file() {
    assert_eq!(CustomFile::from_path("/in/dir/..", 1, untold()), None);
    assert_eq!(CustomFile::from_path("/", 1, untold()), None);
    assert_eq!(CustomFile::from_path("", 1, untold()), None);
}

#[test]
fn extension_is_what_follows_the_last_dot() {
    assert_eq!(extension_of_name("a.jpg"), Some("jpg".to_string()));
    assert_eq!(extension_of_name("archive.tar.gz"), Some("gz".to_string()));
    assert_eq!(extension_of_name("trailing."), Some(String::new()));
    assert_eq!(extension_of_name("..a"), Some("a".to_string()));
    assert_eq!(extension_of_name("a..b"), Some("b".to_string()));
    assert_eq!(extension_of_name(".a.b"), Some("b".to_string()));
    assert_eq!(extension_of_name("ünï.çødé"), Some("çødé".to_string()));
    assert_eq!(extension_of_name("README"), None);
    assert_eq!(extension_of_name(".bashrc"), None);
    assert_eq!(extension_of_name("."), None);
    assert_eq!(extension_of_name(".."), None);
    assert_eq!(extension_of_name(""), None);
    assert_eq!(extension_of_name("..."), Some(String::new()));
}

#[test]
fn extension_agrees_with_the_standard_library() {
    let paths = [
        "a.jpg", "/in/a.jpg", "/in/a.tar.gz", "/in/.hidden", "/in/.hidden.txt", "/in/dir/",
        "/in/dir.d/", "/in/dir.d/.", "/in/x.y/..", "/", "", ".", "..", "...", "a.", "a..",
        "..a", "/in/a b.c d", "rel/./x.png", "/in//double.mp3", "/in/名前.日本", "x.y/z",
        "/in/trailing.dot.", "a.b.c.d.e", "/.a", "./.a.b", "foo/.../bar.baz",
    ];
    for p in paths {
        let expected = std::path::Path::new(p)
            .extension()
            .map(|e| e.to_string_lossy().into_owned());
        assert_eq!(extension_of(p), expected, "path {:?}", p);
    }
}

#[test]
fn descriptor_from_parts_needs_a_name() {
    let full = CustomFile::from_parts(
        "/x/y.png",
        Some("y.png".to_string()),
        Some("png".to_string()),
        7,
        Ok(LocalTime::new(Timestamp::new(5, 6), -60)),
    )
    .unwrap();
    assert_eq!(full.name, "y.png");
    assert_eq!(full.extension, "png");
    assert_eq!(full.path, "/x/y.png");
    assert_eq!(full.size, 7);
    assert_eq!(
        full.created,
        Ok(LocalTime { at: Timestamp { secs: 5, nanos: 6 }, utc_offset: -60 })
    );
    assert_eq!(full.clone(), full);
    let bare = CustomFile::from_parts("/x/y", Some("y".to_string()), None, 7, untold()).unwrap();
    assert_eq!(bare.name, "y");
    assert_eq!(bare.extension, "");
    assert_eq!(bare.created, untold());
    assert_eq!(
        CustomFile::from_parts("/x/y", None, Some("png".to_string()), 7, untold()),
        None
    );
    assert_eq!(CustomFile::from_parts("/x/y", None, None, 7, untold()), None);
}

#[test]
fn destination_is_root_category_day() {
    assert_eq!(
        destination_directory("/out", FileType::Picture, "2024-01-01"),
        "/out/Picture/2024-01-01"
    );
    assert_eq!(destination_directory("/out/", FileType::Other, "x"), "/out/Other/x");
    assert_eq!(destination_directory("", FileType::Music, "2000-02-03"), "Music/2000-02-03");
    assert_eq!(
        destination_directory("C:/sorted", FileType::Program, "1999-12-31"),
        "C:/sorted/Program/1999-12-31"
    );
}

#[test]
fn planned_target_follows_the_layout() {
    let task = plan_with_date(&photo(untold()), "/out", "2024-01-01");
    assert_eq!(task.source_path, "/in/holiday/a.jpg");
    assert_eq!(task.target_path, "/out/Picture/2024-01-01/a.jpg");
    assert_eq!(task.file_name, "a.jpg");
    assert_eq!(task.size, 1234);
    assert_eq!(task.target_dir, "/out/Picture/2024-01-01");

    let clip = CustomFile::from_path("/in/b.MP4", 9, untold()).unwrap();
    let task = plan_with_date(&clip, "/out/", "2024-01-02");
    assert_eq!(task.target_dir, "/out/Video/2024-01-02");
    assert_eq!(task.target_path, "/out/Video/2024-01-02/b.MP4");

    let odd = CustomFile::from_path("/in/notes.xyz", 0, untold()).unwrap();
    let task = plan_with_date(&odd, "rel", "1999-12-31");
    assert_eq!(task.target_dir, "rel/Other/1999-12-31");
    assert_eq!(task.target_path, "rel/Other/1999-12-31/notes.xyz");
    assert_eq!(
        std::path::Path::new(&task.target_path).parent(),
        Some(std::path::Path::new(&task.target_dir))
    );
}

#[test]
fn file_without_creation_time_is_refused() {
    assert_eq!(plan(&photo(untold()), "/out"), Err(PlanError::MissingCreationTime));
    assert_eq!(plan_dated(&photo(untold()), "/out", None), Err(PlanError::MissingCreationTime));
    assert_eq!(
        photo(untold()).get_creation_date(),
        Err("Failed to get creation time for '/in/holiday/a.jpg': \
             creation time is not available on this platform"
            .to_string())
    );
    assert_eq!(
        photo(Err(String::new())).get_creation_date(),
        Err("Failed to get creation time for '/in/holiday/a.jpg': ".to_string())
    );
}

#[test]
fn planning_by_category_and_date() {
    let file = photo(untold());
    let task = plan_as(&file, "/out", FileType::Music, "2001-02-03");
    assert_eq!(task.source_path, "/in/holiday/a.jpg");
    assert_eq!(task.target_dir, "/out/Music/2001-02-03");
    assert_eq!(task.target_path, "/out/Music/2001-02-03/a.jpg");
    assert_eq!(task.file_name, "a.jpg");
    assert_eq!(task.size, 1234);
    assert_eq!(plan_as(&file, "/out", file.get_type(), "x"), plan_with_date(&file, "/out", "x"));
}

#[test]
fn plan_dated_uses_the_date_it_is_given() {
    let task = plan_dated(&photo(untold()), "/out", Some("2020-02-29")).unwrap();
    assert_eq!(task.target_path, "/out/Picture/2020-02-29/a.jpg");
}

#[test]
fn creation_day_is_the_local_day() {
    assert_eq!(photo(Ok(noon(0))).get_creation_date(), Ok("2024-01-01".to_string()));
    assert_eq!(photo(Ok(noon(3600))).get_creation_date(), Ok("2024-01-01".to_string()));
    assert_eq!(photo(Ok(noon(12 * 3600))).get_creation_date(), Ok("2024-01-02".to_string()));
    assert_eq!(photo(Ok(noon(-12 * 3600))).get_creation_date(), Ok("2024-01-01".to_string()));
    assert_eq!(
        photo(Ok(noon(-12 * 3600 - 1))).get_creation_date(),
        Ok("2023-12-31".to_string())
    );
    let epoch = LocalTime::new(Timestamp::new(0, 0), 0);
    assert_eq!(photo(Ok(epoch)).get_creation_date(), Ok("1970-01-01".to_string()));
    let before = LocalTime::new(Timestamp::new(-1, 999_999_999), 0);
    assert_eq!(photo(Ok(before)).get_creation_date(), Ok("1969-12-31".to_string()));
    let leap = LocalTime::new(Timestamp::new(1_709_164_800, 0), 0);
    assert_eq!(photo(Ok(leap)).get_creation_date(), Ok("2024-02-29".to_string()));
}

#[test]
fn plan_dates_a_file_by_its_creation_day() {
    let file = photo(Ok(noon(0)));
    let task = plan(&file, "/out").unwrap();
    assert_eq!(task.target_path, "/out/Picture/2024-01-01/a.jpg");
    assert_eq!(task.source_path, "/in/holiday/a.jpg");
    assert_eq!(task.file_name, "a.jpg");
    assert_eq!(task.size, 1234);
    let late = plan(&photo(Ok(noon(43_200))), "/out").unwrap();
    assert_eq!(late.target_path, "/out/Picture/2024-01-02/a.jpg");
}

#[test]
fn instant_out_of_range_has_no_date() {
    let message =
        Err("Failed to get creation time for '/in/holiday/a.jpg': time out of range".to_string());
    let far = photo(Ok(LocalTime::new(Timestamp::new(i64::MAX, 0), 0)));
    assert_eq!(far.get_creation_date(), message);
    assert_eq!(plan(&far, "/out"), Err(PlanError::MissingCreationTime));
    let long_second = photo(Ok(LocalTime::new(Timestamp::new(0, 2_000_000_000), 0)));
    assert_eq!(plan(&long_second, "/out"), Err(PlanError::MissingCreationTime));
    let wide = photo(Ok(noon(86_400)));
    assert_eq!(wide.get_creation_date(), message);
    let wide = photo(Ok(noon(-86_400)));
    assert_eq!(plan(&wide, "/out"), Err(PlanError::MissingCreationTime));
    assert!(photo(Ok(noon(86_399))).get_creation_date().is_ok());
}

#[test]
fn scan_is_planned_in_order() {
    let files = vec![
        CustomFile::from_path("/in/a.jpg", 10, untold()).unwrap(),
        CustomFile::from_path("/in/sub/b.mp4", 20, untold()).unwrap(),
        CustomFile::from_path("/in/c.pdf", 30, untold()).unwrap(),
    ];
    let dates = vec![
        Ok("2024-01-01".to_string()),
        Ok("2024-01-02".to_string()),
        Ok("2024-01-01".to_string()),
    ];
    let tasks = organize_with_dates(files, "/out", dates).unwrap();
    let targets: Vec<&str> = tasks.iter().map(|t| t.target_path.as_str()).collect();
    assert_eq!(
        targets,
        vec![
            "/out/Picture/2024-01-01/a.jpg",
            "/out/Video/2024-01-02/b.mp4",
            "/out/Document/2024-01-01/c.pdf"
        ]
    );
    let sizes: Vec<u64> = tasks.iter().map(|t| t.size).collect();
    assert_eq!(sizes, vec![10, 20, 30]);
    assert_eq!(organize_with_dates(Vec::new(), "/out", Vec::new()), Ok(Vec::new()));
}

#[test]
fn first_undated_file_fails_the_whole_plan() {
    let files = vec![
        CustomFile::from_path("/in/a.jpg", 10, untold()).unwrap(),
        CustomFile::from_path("/in/b.mp4", 20, untold()).unwrap(),
        CustomFile::from_path("/in/c.pdf", 30, untold()).unwrap(),
    ];
    let dates = vec![
        Ok("2024-01-01".to_string()),
        Err("no date for b".to_string()),
        Err("no date for c".to_string()),
    ];
    assert_eq!(
        organize_with_dates(files, "/out", dates),
        Err(OrganizeError::UserInputError("no date for b".to_string()))
    );
}

#[test]
fn organize_files_plans_dated_files_and_refuses_undated_ones() {
    let files = vec![
        CustomFile::from_path("/in/a.jpg", 10, Ok(noon(0))).unwrap(),
        CustomFile::from_path("/in/b.mp4", 20, Ok(noon(43_200))).unwrap(),
    ];
    assert_eq!(
        creation_dates(&files),
        vec![Ok("2024-01-01".to_string()), Ok("2024-01-02".to_string())]
    );
    let tasks = organize_files(files, "/out").unwrap();
    assert_eq!(tasks.len(), 2);
    assert_eq!(tasks[0].target_path, "/out/Picture/2024-01-01/a.jpg");
    assert_eq!(tasks[1].target_path, "/out/Video/2024-01-02/b.mp4");

    let files = vec![
        CustomFile::from_path("/in/a.jpg", 10, Ok(noon(0))).unwrap(),
        CustomFile::from_path("/in/b.mp4", 20, Err("unsupported".to_string())).unwrap(),
        CustomFile::from_path("/in/c.mp4", 30, untold()).unwrap(),
    ];
    assert_eq!(
        creation_dates(&files)[..2],
        [
            Ok("2024-01-01".to_string()),
            Err("Failed to get creation time for '/in/b.mp4': unsupported".to_string())
        ]
    );
    assert_eq!(
        organize_files(files, "/out"),
        Err(OrganizeError::UserInputError(
            "Failed to get creation time for '/in/b.mp4': unsupported".to_string()
        ))
    );
    assert_eq!(organize_files(Vec::new(), "/out"), Ok(Vec::new()));
}

#[test]
fn directory_that_cannot_be_made_fails_the_plan() {
    let task = plan_with_date(&photo(untold()), "/out", "2024-01-01");
    assert_eq!(confirm_directory(task.clone(), Ok(())), Ok(task.clone()));
    assert_eq!(
        confirm_directory(task, Err("permission denied".to_string())),
        Err(PlanError::DirectoryCreateFailed("permission denied".to_string()))
    );
}

#[test]
fn plan_errors_turn_into_errors_of_the_run() {
    assert_eq!(
        OrganizeError::from_plan_error(PlanError::MissingCreationTime, "/in/x.jpg"),
        OrganizeError::UserInputError(
            "Failed to get creation time for '/in/x.jpg': creation time not available".to_string()
        )
    );
    assert_eq!(
        OrganizeError::from_plan_error(
            PlanError::DirectoryCreateFailed("permission denied".to_string()),
            "/in/x.jpg"
        ),
        OrganizeError::DirectoryCreationFailed("permission denied".to_string())
    );
}

#[test]
fn error_messages() {
    assert_eq!(OrganizeError::NoPathSelected.message(), "No folder selected");
    assert_eq!(OrganizeError::InvalidFolderName.message(), "Invalid folder name");
    assert_eq!(
        OrganizeError::NoParentDirectory.message(),
        "Could not determine parent directory"
    );
    assert_eq!(
        OrganizeError::DirectoryCreationFailed("x".to_string()).message(),
        "Failed to create directory: x"
    );
    assert_eq!(
        OrganizeError::FileCopyFailed("disk full".to_string()).message(),
        "Failed to copy file: disk full"
    );
    assert_eq!(
        OrganizeError::UserInputError("y".to_string()).message(),
        "User input error: y"
    );
    assert_eq!(
        OrganizeError::InvalidOutputPath(String::new()).message(),
        "Invalid output path: "
    );
}

#[test]
fn default_output_is_beside_the_input() {
    assert_eq!(default_output_path("/home/me/Downloads"), "/home/me/Organized_Files");
    assert_eq!(default_output_path("Downloads"), "Organized_Files");
    assert_eq!(default_output_path("/"), "/Organized_Files");
    assert_eq!(parent_or_same("/home/me"), "/home");
    assert_eq!(parent_or_same("/"), "/");
    assert_eq!(parent_or_same(""), "");
}

#[test]
fn output_folder_is_named_after_the_input_folder() {
    assert_eq!(
        output_path_for("/home/me/Downloads", None),
        Ok("/home/me/Downloads Organized".to_string())
    );
    assert_eq!(
        output_path_for("/home/me/Downloads", Some("/mnt/disk")),
        Ok("/mnt/disk/Downloads Organized".to_string())
    );
    assert_eq!(
        output_path_for("/home/me/Downloads/", Some("/mnt/disk/")),
        Ok("/mnt/disk/Downloads Organized".to_string())
    );
}

#[test]
fn folders_of_a_run_are_settled_together() {
    assert_eq!(
        Paths::resolve("/home/me/Downloads".to_string(), None),
        Ok(Paths {
            input_path: "/home/me/Downloads".to_string(),
            output_path: "/home/me/Downloads Organized".to_string(),
        })
    );
    assert_eq!(
        Paths::resolve("/home/me/Downloads".to_string(), Some("/mnt")),
        Ok(Paths {
            input_path: "/home/me/Downloads".to_string(),
            output_path: "/mnt/Downloads Organized".to_string(),
        })
    );
    assert_eq!(
        Paths::resolve("/mnt".to_string(), Some("/mnt")),
        Err(OrganizeError::InvalidOutputPath(
            "Output directory cannot be the same as input directory".to_string()
        ))
    );
    assert_eq!(Paths::resolve("/".to_string(), None), Err(OrganizeError::InvalidFolderName));
}

#[test]
fn chosen_output_folder_is_taken_as_it_is() {
    assert_eq!(chosen_output_path("/home/me/in", "/mnt/out"), Ok("/mnt/out".to_string()));
    assert_eq!(chosen_output_path("/home/me/in", "/home/me/in/sub"), Ok("/home/me/in/sub".to_string()));
    for chosen in ["/home/me/in", "/home/me/in/", "/home//me/./in"] {
        assert_eq!(
            chosen_output_path("/home/me/in", chosen),
            Err(OrganizeError::InvalidOutputPath(
                "Output directory cannot be the same as input directory".to_string()
            ))
        );
    }
    assert_eq!(chosen_output_from("/a", false), Ok("/a".to_string()));
    assert_eq!(
        chosen_output_from("/a", true),
        Err(OrganizeError::InvalidOutputPath(
            "Output directory cannot be the same as input directory".to_string()
        ))
    );
}

#[test]
fn output_folder_errors() {
    assert_eq!(
        output_path_for("/home/me/Downloads", Some("/home/me/Downloads")),
        Err(OrganizeError::InvalidOutputPath(
            "Output directory cannot be the same as input directory".to_string()
        ))
    );
    // The same folder, spelled differently.
    for chosen in ["/home/me/Downloads/", "/home//me/./Downloads", "/home/me/Downloads/."] {
        assert_eq!(
            output_path_for("/home/me/Downloads", Some(chosen)),
            Err(OrganizeError::InvalidOutputPath(
                "Output directory cannot be the same as input directory".to_string()
            ))
        );
    }
    assert_eq!(
        output_path_for("/home/me/Downloads", Some("/home/me/downloads")),
        Ok("/home/me/downloads/Downloads Organized".to_string())
    );
    assert_eq!(output_path_for("/", None), Err(OrganizeError::InvalidFolderName));
    assert_eq!(output_path_for("/", Some("/mnt")), Err(OrganizeError::InvalidFolderName));
    assert_eq!(output_path_for("/home/..", None), Err(OrganizeError::InvalidFolderName));
    assert_eq!(
        output_path_from_parts(None, false, Some("in"), None),
        Err(OrganizeError::NoParentDirectory)
    );
    assert_eq!(
        output_path_from_parts(Some("in"), true, None, None),
        Err(OrganizeError::InvalidOutputPath(
            "Output directory cannot be the same as input directory".to_string()
        ))
    );
    assert_eq!(
        output_path_from_parts(Some("/b"), false, None, Some("/a")),
        Err(OrganizeError::InvalidFolderName)
    );
    assert_eq!(
        output_path_from_parts(Some("/b"), false, Some("in"), None),
        Ok("/b/in Organized".to_string())
    );
    assert_eq!(
        output_path_from_parts(None, true, Some("in"), Some("/a")),
        Ok("/a/in Organized".to_string())
    );
}

#[test]
fn folder_names_are_sanitized() {
    assert_eq!(sanitize("My Photos 2024!"), "My_Photos_2024_");
    assert_eq!(sanitize("abcXYZ019"), "abcXYZ019");
    assert_eq!(sanitize("a-b_c.d"), "a_b_c_d");
    assert_eq!(sanitize("été"), "_t_");
    assert_eq!(sanitize(""), "");
}

#[test]
fn checkpoint_file_names() {
    assert_eq!(
        save_file_name("My Photos", "20240101_120000"),
        "My_Photos_20240101_120000.forg"
    );
    assert_eq!(save_file_name("", ""), "_.forg");

    assert_eq!(
        generate_save_filename("/home/me/My Photos", noon(0)),
        Some("My_Photos_20240101_120000.forg".to_string())
    );
    assert_eq!(
        generate_save_filename("/home/me/My Photos/", noon(3600 + 62)),
        Some("My_Photos_20240101_130102.forg".to_string())
    );
    assert_eq!(
        generate_save_filename("/", noon(-43_201)),
        Some("unknown_20231231_235959.forg".to_string())
    );
    assert_eq!(
        generate_save_filename("/x", LocalTime::new(Timestamp::new(i64::MIN, 0), 0)),
        None
    );
    assert_eq!(generate_save_filename("/x", noon(100_000)), None);
}

#[test]
fn checkpoints_live_in_a_fixed_subfolder() {
    assert_eq!(
        save_dir_in(Some("/home/me/.local/share")),
        "/home/me/.local/share/file-organizer/saves"
    );
    assert_eq!(save_dir_in(Some("/data/")), "/data/file-organizer/saves");
    assert_eq!(save_dir_in(None), "./file-organizer/saves");
    assert!(get_save_dir().ends_with("/file-organizer/saves"));
}

#[test]
fn checkpoint_files_are_told_by_their_extension() {
    assert!(is_save_file("/data/saves/Photos_20240101_120000.forg"));
    assert!(!is_save_file("/data/saves/Photos_20240101_120000.json"));
    assert!(!is_save_file("/data/saves/forg"));
    assert!(!is_save_file("/data/saves/.forg"));
    assert!(!is_save_file("/data/saves/a.FORG"));
    assert!(has_save_extension(Some("forg")));
    assert!(!has_save_extension(Some("for")));
    assert!(!has_save_extension(None));
    let entries = vec![
        "/s/a.forg".to_string(),
        "/s/notes.txt".to_string(),
        "/s/b.forg".to_string(),
        "/s/c".to_string(),
    ];
    assert_eq!(saves_among(entries), vec!["/s/a.forg".to_string(), "/s/b.forg".to_string()]);
}
