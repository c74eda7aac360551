//! Paths as text.
//!
//! A path is held as a `String`, so only paths that are Unicode can be
//! handed in. Finding the last component of a path and its parent, and
//! telling whether two texts are the same path, is left to `std::path`; the
//! extension is read off the last component here. Putting the destination
//! layout together is this library's own rule: it is written with `/` on
//! every platform, and what is placed under a folder stays under it.

use vstd::prelude::*;
use vstd::string::StringExecFns;
use crate::error::{OrganizeError, OrganizeErrorView};
use crate::text::{ascii_alphanumeric, chars_of, is_ascii_alphanumeric, same_text, string_of};
use crate::timestamp::{format_local, LocalTime};

verus! {

/// The folder to sort and the folder to sort into.
#[derive(Debug, Clone, PartialEq, Eq)]
pub struct Paths {
    pub input_path: String,
    pub output_path: String,
}

/// What [`std::path::Path::file_name`] returns for the path with this text,
/// on the platform the library is built for.
pub uninterp spec fn path_file_name(path: Seq<char>) -> Option<Seq<char>>;

/// What [`std::path::Path::parent`] returns for the path with this text, on
/// the platform the library is built for.
pub uninterp spec fn path_parent(path: Seq<char>) -> Option<Seq<char>>;

/// Calls [`std::path::Path::file_name`]: the final component of the path, if
/// it has one. The contract names the result, as [`path_file_name`].
#[verifier::external_body]
pub(crate) fn file_name_of(path: &str) -> (r: Option<String>)
    ensures
        match r {
            Some(name) => path_file_name(path@) == Some(name@),
            None => path_file_name(path@) is None,
        },
{
    match std::path::Path::new(path).file_name() {
        Some(name) => Some(name.to_string_lossy().into_owned()),
        None => None,
    }
}

/// Whether [`std::path::Path`] takes the two texts for the same path, which
/// it does where they have the same components, on the platform the library
/// is built for.
pub uninterp spec fn same_path(a: Seq<char>, b: Seq<char>) -> bool;

/// Compares two paths with `==` on [`std::path::Path`], which goes by their
/// components. The contract names the result, as [`same_path`].
#[verifier::external_body]
pub(crate) fn paths_equal(a: &str, b: &str) -> (r: bool)
    ensures
        r == same_path(a@, b@),
{
    std::path::Path::new(a) == std::path::Path::new(b)
}

/// The position of the last dot in a file name, or -1 where it has none.
pub open spec fn last_dot(name: Seq<char>) -> int
    decreases name.len(),
{
    if name.len() == 0 {
        -1
    } else if name.last() == '.' {
        name.len() - 1
    } else {
        last_dot(name.drop_last())
    }
}

/// The extension of a file name: what follows its last dot. A name without
/// a dot has none, nor has a name whose only dot is its first character, nor
/// has the name `..`.
pub open spec fn extension_in(name: Seq<char>) -> Option<Seq<char>> {
    if last_dot(name) <= 0 || name == seq!['.', '.'] {
        None
    } else {
        Some(name.subrange(last_dot(name) + 1, name.len() as int))
    }
}

/// The extension of the path with this text: that of its file name, if it
/// has a file name. This is what [`std::path::Path::extension`] is
/// documented to return.
pub open spec fn path_extension(path: Seq<char>) -> Option<Seq<char>> {
    match path_file_name(path) {
        Some(name) => extension_in(name),
        None => None,
    }
}

/// The extension of a file name.
pub fn extension_of_name(name: &str) -> (r: Option<String>)
    ensures
        match r {
            Some(ext) => extension_in(name@) == Some(ext@),
            None => extension_in(name@) is None,
        },
{
    let chars = chars_of(name);
    let mut i: usize = chars.len();
    assert(name@.take(i as int) =~= name@);
    while i > 0 && chars[i - 1] != '.'
        invariant
            i <= chars.len(),
            chars@ == name@,
            last_dot(name@) == last_dot(name@.take(i as int)),
        decreases i,
    {
        assert(name@.take(i as int).drop_last() =~= name@.take(i - 1));
        i -= 1;
    }
    proof {
        if i > 0 {
            assert(name@.take(i as int).last() == '.');
        }
    }
    if i <= 1 || (chars.len() == 2 && chars[0] == '.') {
        proof {
            if i > 1 {
                assert(name@ =~= seq!['.', '.']);
            } else if name@ == seq!['.', '.'] {
                assert(name@.take(2) =~= name@);
                assert(name@.take(2).last() == '.');
            }
        }
        return None;
    }
    let mut ext: Vec<char> = Vec::new();
    let mut j: usize = i;
    while j < chars.len()
        invariant
            i <= j <= chars.len(),
            chars@ == name@,
            ext@ == name@.subrange(i as int, j as int),
        decreases chars.len() - j,
    {
        ext.push(chars[j]);
        assert(ext@ =~= name@.subrange(i as int, j + 1));
        j += 1;
    }
    Some(string_of(&ext))
}

/// The extension of the path: that of its file name.
pub fn extension_of(path: &str) -> (r: Option<String>)
    ensures
        match r {
            Some(ext) => path_extension(path@) == Some(ext@),
            None => path_extension(path@) is None,
        },
{
    match file_name_of(path) {
        Some(name) => extension_of_name(name.as_str()),
        None => None,
    }
}

/// Calls [`std::path::Path::parent`]: the path without its final component,
/// if there is one. The contract names the result, as [`path_parent`].
#[verifier::external_body]
pub(crate) fn parent_of(path: &str) -> (r: Option<String>)
    ensures
        match r {
            Some(dir) => path_parent(path@) == Some(dir@),
            None => path_parent(path@) is None,
        },
{
    match std::path::Path::new(path).parent() {
        Some(dir) => Some(dir.to_string_lossy().into_owned()),
        None => None,
    }
}

/// `component` placed under `base`: the two are separated by one `/`, which
/// is left out where `base` is empty or already ends in one.
pub open spec fn joined(base: Seq<char>, component: Seq<char>) -> Seq<char> {
    if base.len() == 0 {
        component
    } else if base.last() == '/' {
        base + component
    } else {
        base + seq!['/'] + component
    }
}

/// Places `component` under `base`.
pub fn join(base: &str, component: &str) -> (r: String)
    ensures
        r@ == joined(base@, component@),
{
    let b = chars_of(base);
    let mut out = base.to_string();
    if b.len() > 0 && b[b.len() - 1] != '/' {
        proof {
            reveal_strlit("/");
        }
        out.append("/");
        assert("/"@ =~= seq!['/']);
    }
    out.append(component);
    proof {
        if base@.len() == 0 {
            assert(out@ =~= component@);
        }
    }
    out
}

/// Whatever is placed under a path has the path as its beginning.
pub proof fn lemma_joined_starts_with_base(base: Seq<char>, component: Seq<char>)
    ensures
        joined(base, component).len() >= base.len(),
        joined(base, component).subrange(0, base.len() as int) == base,
{
    assert(joined(base, component).subrange(0, base.len() as int) =~= base);
}

/// The parent of a path, or the path itself where it has none.
pub open spec fn parent_or_self(path: Seq<char>) -> Seq<char> {
    match path_parent(path) {
        Some(dir) => dir,
        None => path,
    }
}

/// The parent of `path`, or `path` itself where it has none.
pub fn parent_or_same(path: &str) -> (r: String)
    ensures
        r@ == parent_or_self(path@),
{
    match parent_of(path) {
        Some(dir) => dir,
        None => path.to_string(),
    }
}

/// The output folder that is offered by default: `Organized_Files`, beside
/// the input folder.
pub open spec fn default_output(input_path: Seq<char>) -> Seq<char> {
    joined(parent_or_self(input_path), "Organized_Files"@)
}

/// The output folder that is offered by default for `input_path`.
pub fn default_output_path(input_path: &str) -> (r: String)
    ensures
        r@ == default_output(input_path@),
{
    let parent = parent_or_same(input_path);
    join(parent.as_str(), "Organized_Files")
}

/// The output folder where the user chose one, given whether the chosen
/// folder is the input folder itself: the chosen folder as it is, which must
/// not be the input folder.
pub open spec fn chosen_output(chosen: Seq<char>, chosen_is_input: bool) -> Result<
    Seq<char>,
    OrganizeErrorView,
> {
    if chosen_is_input {
        Err(
            OrganizeErrorView::InvalidOutputPath(
                "Output directory cannot be the same as input directory"@,
            ),
        )
    } else {
        Ok(chosen)
    }
}

/// Takes the folder that the user chose as the output folder, unless it is
/// the input folder itself.
pub fn chosen_output_from(chosen: &str, chosen_is_input: bool) -> (r: Result<String, OrganizeError>)
    ensures
        path_result_view(r) == chosen_output(chosen@, chosen_is_input),
{
    if chosen_is_input {
        Err(
            OrganizeError::InvalidOutputPath(
                "Output directory cannot be the same as input directory".to_string(),
            ),
        )
    } else {
        Ok(chosen.to_string())
    }
}

/// Takes the folder that the user chose as the output folder of the run over
/// `input_path`. The two must differ, as `std::path` compares paths.
pub fn chosen_output_path(input_path: &str, chosen: &str) -> (r: Result<String, OrganizeError>)
    ensures
        path_result_view(r) == chosen_output(chosen@, same_path(chosen@, input_path@)),
{
    chosen_output_from(chosen, paths_equal(chosen, input_path))
}

/// The name of the folder that receives the files of the folder called
/// `folder_name`.
pub open spec fn organized_name(folder_name: Seq<char>) -> Seq<char> {
    folder_name + " Organized"@
}

/// The output folder for a run, given the folder that the user chose, if
/// any, whether that folder is the input folder itself, and the folder name
/// and the parent that the input path has.
///
/// A chosen folder must differ from the input folder; the output folder is
/// then made inside it. Without a choice it is made beside the input folder.
/// Either way it is called after the input folder, which therefore needs a
/// name, and beside it means in its parent, which it therefore needs too.
pub open spec fn output_path_outcome(
    chosen: Option<Seq<char>>,
    chosen_is_input: bool,
    folder_name: Option<Seq<char>>,
    parent: Option<Seq<char>>,
) -> Result<Seq<char>, OrganizeErrorView> {
    match chosen {
        Some(dir) => if chosen_is_input {
            Err(
                OrganizeErrorView::InvalidOutputPath(
                    "Output directory cannot be the same as input directory"@,
                ),
            )
        } else {
            match folder_name {
                Some(name) => Ok(joined(dir, organized_name(name))),
                None => Err(OrganizeErrorView::InvalidFolderName),
            }
        },
        None => match folder_name {
            Some(name) => match parent {
                Some(dir) => Ok(joined(dir, organized_name(name))),
                None => Err(OrganizeErrorView::NoParentDirectory),
            },
            None => Err(OrganizeErrorView::InvalidFolderName),
        },
    }
}

/// The output folder for the run over `input_path`, by what `std::path`
/// finds of the paths involved.
pub open spec fn output_path_of(input_path: Seq<char>, chosen: Option<Seq<char>>) -> Result<
    Seq<char>,
    OrganizeErrorView,
> {
    output_path_outcome(
        chosen,
        match chosen {
            Some(dir) => same_path(dir, input_path),
            None => false,
        },
        path_file_name(input_path),
        path_parent(input_path),
    )
}

/// The view of an optional text.
pub open spec fn opt_view(s: Option<&str>) -> Option<Seq<char>> {
    match s {
        Some(t) => Some(t@),
        None => None,
    }
}

/// The view of a path or the error in its place.
pub open spec fn path_result_view(r: Result<String, OrganizeError>) -> Result<
    Seq<char>,
    OrganizeErrorView,
> {
    match r {
        Ok(p) => Ok(p@),
        Err(e) => Err(e@),
    }
}

/// Decides the output folder of a run from what is already known of the
/// paths: the folder that the user chose, if any, whether it is the input
/// folder itself, and the folder name and the parent of the input path.
pub fn output_path_from_parts(
    chosen: Option<&str>,
    chosen_is_input: bool,
    folder_name: Option<&str>,
    parent: Option<&str>,
) -> (r: Result<String, OrganizeError>)
    ensures
        path_result_view(r) == output_path_outcome(
            opt_view(chosen),
            chosen_is_input,
            opt_view(folder_name),
            opt_view(parent),
        ),
{
    if chosen.is_some() && chosen_is_input {
        return Err(
            OrganizeError::InvalidOutputPath(
                "Output directory cannot be the same as input directory".to_string(),
            ),
        );
    }
    let name = match folder_name {
        Some(n) => n,
        None => {
            return Err(OrganizeError::InvalidFolderName);
        },
    };
    let mut output_name = name.to_string();
    output_name.append(" Organized");
    match chosen {
        Some(dir) => Ok(join(dir, output_name.as_str())),
        None => match parent {
            Some(dir) => Ok(join(dir, output_name.as_str())),
            None => Err(OrganizeError::NoParentDirectory),
        },
    }
}

/// Decides the output folder for `input_path`: inside the folder the user
/// chose, or beside the input folder where none was chosen. Whether the
/// chosen folder is the input folder, and the folder name and the parent of
/// the input path, are as `std::path` finds them.
pub fn output_path_for(input_path: &str, chosen: Option<&str>) -> (r: Result<String, OrganizeError>)
    ensures
        path_result_view(r) == output_path_of(input_path@, opt_view(chosen)),
{
    let chosen_is_input = match chosen {
        Some(dir) => paths_equal(dir, input_path),
        None => false,
    };
    let folder_name = file_name_of(input_path);
    let parent = parent_of(input_path);
    let name_ref = match &folder_name {
        Some(n) => Some(n.as_str()),
        None => None,
    };
    let parent_ref = match &parent {
        Some(p) => Some(p.as_str()),
        None => None,
    };
    output_path_from_parts(chosen, chosen_is_input, name_ref, parent_ref)
}

impl Paths {
    /// Settles the two folders of a run: the input folder as given, and the
    /// output folder that [`output_path_for`] decides for it.
    pub fn resolve(input_path: String, chosen: Option<&str>) -> (r: Result<Paths, OrganizeError>)
        ensures
            match r {
                Ok(paths) => paths.input_path@ == input_path@ && output_path_of(
                    input_path@,
                    opt_view(chosen),
                ) == Ok::<Seq<char>, OrganizeErrorView>(paths.output_path@),
                Err(e) => output_path_of(input_path@, opt_view(chosen)) == Err::<
                    Seq<char>,
                    OrganizeErrorView,
                >(e@),
            },
    {
        match output_path_for(input_path.as_str(), chosen) {
            Ok(output_path) => Ok(Paths { input_path, output_path }),
            Err(e) => Err(e),
        }
    }
}

/// A name made safe for a file name: every character that is not an ASCII
/// letter or digit is replaced by `_`.
pub open spec fn sanitized(name: Seq<char>) -> Seq<char> {
    name.map_values(
        |c: char|
            if is_ascii_alphanumeric(c) {
                c
            } else {
                '_'
            },
    )
}

/// Replaces every character of `name` that is not an ASCII letter or digit by
/// `_`.
pub fn sanitize(name: &str) -> (r: String)
    ensures
        r@ == sanitized(name@),
{
    let chars = chars_of(name);
    let mut out: Vec<char> = Vec::new();
    let mut i: usize = 0;
    while i < chars.len()
        invariant
            i <= chars.len(),
            chars@ == name@,
            out@ == sanitized(name@).take(i as int),
        decreases chars.len() - i,
    {
        let c = chars[i];
        let kept = if ascii_alphanumeric(c) {
            c
        } else {
            '_'
        };
        out.push(kept);
        assert(out@ =~= sanitized(name@).take(i + 1));
        i += 1;
    }
    assert(out@ =~= sanitized(name@));
    string_of(&out)
}

/// The name of the checkpoint file for a run over the folder called
/// `folder_name`, saved at the moment written as `stamp`.
pub open spec fn save_file_name_spec(folder_name: Seq<char>, stamp: Seq<char>) -> Seq<char> {
    sanitized(folder_name) + "_"@ + stamp + ".forg"@
}

/// The folder name that a checkpoint is called after: the last component of
/// the input path, or `unknown` where it has none.
pub open spec fn folder_or_unknown(folder_name: Option<Seq<char>>) -> Seq<char> {
    match folder_name {
        Some(name) => name,
        None => "unknown"@,
    }
}

/// Builds the name of a checkpoint file from the name of the input folder and
/// the text of the moment of saving.
pub fn save_file_name(folder_name: &str, stamp: &str) -> (r: String)
    ensures
        r@ == save_file_name_spec(folder_name@, stamp@),
{
    let mut out = sanitize(folder_name);
    out.append("_");
    out.append(stamp);
    out.append(".forg");
    out
}

/// The name of the checkpoint file for a run over the input folder with
/// this file name, saved at `now`; none where the moment cannot be written.
pub open spec fn generated_save_name(folder_name: Option<Seq<char>>, now: LocalTime) -> Option<
    Seq<char>,
> {
    match now.stamp_text() {
        Some(stamp) => Some(save_file_name_spec(folder_or_unknown(folder_name), stamp)),
        None => None,
    }
}

/// Names the checkpoint file for a run over `input_path` that is saved at
/// `now`: `<sanitized folder name>_<YYYYMMDD_HHMMSS>.forg`, the moment being
/// written in local time. `None` where the moment cannot be written so.
pub fn generate_save_filename(input_path: &str, now: LocalTime) -> (r: Option<String>)
    ensures
        match r {
            Some(name) => generated_save_name(path_file_name(input_path@), now) == Some(name@),
            None => generated_save_name(path_file_name(input_path@), now) is None,
        },
{
    let folder = match file_name_of(input_path) {
        Some(name) => name,
        None => "unknown".to_string(),
    };
    match format_local(now, "%Y%m%d_%H%M%S") {
        Some(stamp) => Some(save_file_name(folder.as_str(), stamp.as_str())),
        None => None,
    }
}

/// Calls `dirs::data_local_dir`: the directory in which the user's
/// applications keep their data, if the environment names one. Paths are
/// text here, so a directory whose path is not Unicode counts as not named.
/// The answer depends on the environment, so nothing is promised of it.
#[verifier::external_body]
pub(crate) fn data_local_dir() -> (r: Option<String>) {
    match dirs::data_local_dir() {
        Some(dir) => match dir.to_str() {
            Some(text) => Some(text.to_string()),
            None => None,
        },
        None => None,
    }
}

/// The directory that holds the checkpoints, given the directory for the
/// data of applications, if there is one: `file-organizer/saves` inside it,
/// or inside the current directory.
pub open spec fn save_dir_under(data_dir: Option<Seq<char>>) -> Seq<char> {
    let base = match data_dir {
        Some(dir) => dir,
        None => "."@,
    };
    joined(joined(base, "file-organizer"@), "saves"@)
}

/// The directory that holds the checkpoints, given the directory for the
/// data of applications.
pub fn save_dir_in(data_dir: Option<&str>) -> (r: String)
    ensures
        r@ == save_dir_under(opt_view(data_dir)),
{
    let base = match data_dir {
        Some(dir) => dir,
        None => ".",
    };
    let app_dir = join(base, "file-organizer");
    join(app_dir.as_str(), "saves")
}

/// The directory that holds the checkpoints of this user: what
/// [`save_dir_in`] gives for the directory that the environment names for
/// the data of applications.
pub fn get_save_dir() -> (r: String)
    ensures
        exists|data_dir: Option<Seq<char>>| r@ == #[trigger] save_dir_under(data_dir),
{
    match data_local_dir() {
        Some(dir) => {
            let r = save_dir_in(Some(dir.as_str()));
            assert(r@ == save_dir_under(Some(dir@)));
            r
        },
        None => {
            let r = save_dir_in(None);
            assert(r@ == save_dir_under(None));
            r
        },
    }
}

/// Whether an extension is the one that marks a checkpoint file.
pub open spec fn is_save_extension(extension: Option<Seq<char>>) -> bool {
    extension == Some("forg"@)
}

/// Whether `extension` marks a checkpoint file.
pub fn has_save_extension(extension: Option<&str>) -> (r: bool)
    ensures
        r == is_save_extension(opt_view(extension)),
{
    match extension {
        Some(ext) => same_text(ext, "forg"),
        None => false,
    }
}

/// Whether the file at `path` is a checkpoint file, by its extension as
/// `std::path` finds it.
pub fn is_save_file(path: &str) -> (r: bool)
    ensures
        r == is_save_extension(path_extension(path@)),
{
    match extension_of(path) {
        Some(ext) => has_save_extension(Some(ext.as_str())),
        None => has_save_extension(None),
    }
}

/// The checkpoint files among the entries of the directory of checkpoints, in
/// the order in which the entries were given.
pub fn saves_among(entries: Vec<String>) -> (r: Vec<String>)
    ensures
        r@ == entries@.filter(|p: String| is_save_extension(path_extension(p@))),
{
    let ghost keeps = |p: String| is_save_extension(path_extension(p@));
    let mut r: Vec<String> = Vec::new();
    for entry in it: entries
        invariant
            it.seq() == entries@,
            keeps == |p: String| is_save_extension(path_extension(p@)),
            r@ == it.seq().take(it.index() as int).filter(keeps),
    {
        proof {
            let upto = it.seq().take(it.index() + 1);
            assert(upto.drop_last() =~= it.seq().take(it.index() as int));
            assert(upto.last() == entry);
            reveal(Seq::filter);
        }
        if is_save_file(entry.as_str()) {
            r.push(entry);
        }
    }
    assert(entries@.take(entries@.len() as int) =~= entries@);
    r
}

} // verus!
