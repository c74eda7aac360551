//! The planner: from a descriptor to a planned transfer.
//!
//! A file goes to `<output>/<Category>/<YYYY-MM-DD>/<file name>`. The
//! category is that of the file's extension and the date is the day the file
//! was created, in local time.

use vstd::prelude::*;
use crate::error::{OrganizeError, OrganizeErrorView, PlanError, PlanErrorView};
use crate::file::{date_result_view, CustomFile, CustomFileView};
use crate::file_type::{category_of, FileType};
use crate::organized_file::{task_views, OrganizedFile, OrganizedFileView};
use crate::paths::{join, joined, lemma_joined_starts_with_base};
use crate::text::lowercase;

verus! {

/// The directory that holds the files of one category created on one day.
pub open spec fn destination_dir(root: Seq<char>, category: FileType, date: Seq<char>) -> Seq<char> {
    joined(joined(root, category.name_spec()), date)
}

/// The transfer planned for `file` under `root`, given its category and the
/// text of the day it was created.
pub open spec fn planned_as(
    file: CustomFileView,
    root: Seq<char>,
    category: FileType,
    date: Seq<char>,
) -> OrganizedFileView {
    let dir = destination_dir(root, category, date);
    OrganizedFileView {
        source_path: file.path,
        target_dir: dir,
        target_path: joined(dir, file.name),
        file_name: file.name,
        size: file.size,
    }
}

/// The transfer planned for `file` under `root`, given the text of the day
/// the file was created: the file goes by the category of its extension.
pub open spec fn planned(file: CustomFileView, root: Seq<char>, date: Seq<char>) -> OrganizedFileView {
    planned_as(file, root, category_of(lowercase(file.extension)), date)
}

/// Every planned file lies inside the output folder: the text of its target
/// directory begins with the output folder, and the text of its target path
/// begins with its target directory.
pub proof fn lemma_planned_inside_output(
    file: CustomFileView,
    root: Seq<char>,
    category: FileType,
    date: Seq<char>,
)
    ensures
        planned_as(file, root, category, date).target_dir.len() >= root.len(),
        planned_as(file, root, category, date).target_dir.subrange(0, root.len() as int) == root,
        planned_as(file, root, category, date).target_path.len() >= planned_as(
            file,
            root,
            category,
            date,
        ).target_dir.len(),
        planned_as(file, root, category, date).target_path.subrange(
            0,
            planned_as(file, root, category, date).target_dir.len() as int,
        ) == planned_as(file, root, category, date).target_dir,
{
    let type_dir = joined(root, category.name_spec());
    let dir = joined(type_dir, date);
    lemma_joined_starts_with_base(root, category.name_spec());
    lemma_joined_starts_with_base(type_dir, date);
    lemma_joined_starts_with_base(dir, file.name);
    assert(dir.subrange(0, root.len() as int) =~= type_dir.subrange(0, root.len() as int));
}

/// The outcome of planning one file, given the date text that was found for
/// it, if any.
pub open spec fn plan_outcome(
    file: CustomFileView,
    root: Seq<char>,
    date: Option<Seq<char>>,
) -> Result<OrganizedFileView, PlanErrorView> {
    match date {
        Some(d) => Ok(planned(file, root, d)),
        None => Err(PlanErrorView::MissingCreationTime),
    }
}

/// The view of the result of planning one file.
pub open spec fn plan_view(r: Result<OrganizedFile, PlanError>) -> Result<
    OrganizedFileView,
    PlanErrorView,
> {
    match r {
        Ok(task) => Ok(task@),
        Err(e) => Err(e@),
    }
}

/// The first position at which a message stands in place of a date, or the
/// length of `dates` where every file has a date.
pub open spec fn first_undated(dates: Seq<Result<Seq<char>, Seq<char>>>) -> int
    decreases dates.len(),
{
    if dates.len() == 0 {
        0
    } else if dates[0] is Err {
        0
    } else {
        1 + first_undated(dates.drop_first())
    }
}

/// The outcome of planning a whole scan, given for each file the date text
/// or the message in its place: the transfers in scan order, or the error
/// with the message of the first file that has no date.
pub open spec fn organized(
    files: Seq<CustomFileView>,
    root: Seq<char>,
    dates: Seq<Result<Seq<char>, Seq<char>>>,
) -> Result<Seq<OrganizedFileView>, OrganizeErrorView> {
    let k = first_undated(dates);
    if k < files.len() {
        Err(OrganizeErrorView::UserInputError(dates[k]->Err_0))
    } else {
        Ok(Seq::new(files.len(), |i: int| planned(files[i], root, dates[i]->Ok_0)))
    }
}

/// The views of a sequence of descriptors.
pub open spec fn file_views(files: Seq<CustomFile>) -> Seq<CustomFileView> {
    files.map_values(|f: CustomFile| f@)
}

/// The views of a sequence of dates and messages.
pub open spec fn date_views(dates: Seq<Result<String, String>>) -> Seq<
    Result<Seq<char>, Seq<char>>,
> {
    dates.map_values(|d: Result<String, String>| date_result_view(d))
}

/// For each file of a scan the text of the day it was created, or the
/// message in its place.
pub open spec fn dates_of(files: Seq<CustomFileView>) -> Seq<Result<Seq<char>, Seq<char>>> {
    files.map_values(|f: CustomFileView| f.creation_date())
}

/// The view of the result of planning a scan.
pub open spec fn organize_view(r: Result<Vec<OrganizedFile>, OrganizeError>) -> Result<
    Seq<OrganizedFileView>,
    OrganizeErrorView,
> {
    match r {
        Ok(tasks) => Ok(task_views(tasks@)),
        Err(e) => Err(e@),
    }
}

/// `first_undated` lies within the sequence, every position before it has a
/// date, and the position itself, where it is inside, has none.
pub proof fn lemma_first_undated(dates: Seq<Result<Seq<char>, Seq<char>>>)
    ensures
        0 <= first_undated(dates) <= dates.len(),
        forall|i: int| 0 <= i < first_undated(dates) ==> (#[trigger] dates[i]) is Ok,
        first_undated(dates) < dates.len() ==> dates[first_undated(dates)] is Err,
    decreases dates.len(),
{
    if dates.len() > 0 && dates[0] is Ok {
        let rest = dates.drop_first();
        lemma_first_undated(rest);
        assert forall|i: int| 0 <= i < first_undated(dates) implies (#[trigger] dates[i]) is Ok by {
            if i > 0 {
                assert(rest[i - 1] == dates[i]);
            }
        }
    }
}

/// A sequence whose first `k` positions are dated and whose position `k` is
/// not, or ends there, has `first_undated` equal to `k`.
pub proof fn lemma_first_undated_is(dates: Seq<Result<Seq<char>, Seq<char>>>, k: int)
    requires
        0 <= k <= dates.len(),
        forall|i: int| 0 <= i < k ==> (#[trigger] dates[i]) is Ok,
        k < dates.len() ==> dates[k] is Err,
    ensures
        first_undated(dates) == k,
{
    lemma_first_undated(dates);
    let f = first_undated(dates);
    if f < k {
        assert(dates[f] is Ok);
    } else if f > k {
        assert(dates[k] is Ok);
    }
}

/// The directory under `output_path` for the files of `category` created on
/// the day written as `date`.
pub fn destination_directory(output_path: &str, category: FileType, date: &str) -> (dir: String)
    ensures
        dir@ == destination_dir(output_path@, category, date@),
{
    let type_dir = join(output_path, category.name());
    join(type_dir.as_str(), date)
}

/// Plans the transfer of `file` into `output_path` as a file of `category`
/// created on the day written as `date`.
pub fn plan_as(file: &CustomFile, output_path: &str, category: FileType, date: &str) -> (task:
    OrganizedFile)
    ensures
        task@ == planned_as(file@, output_path@, category, date@),
{
    let date_dir = destination_directory(output_path, category, date);
    let target_path = join(date_dir.as_str(), file.name.as_str());
    OrganizedFile {
        source_path: file.path.clone(),
        target_dir: date_dir,
        target_path,
        file_name: file.name.clone(),
        size: file.size,
    }
}

/// Plans the transfer of `file` into `output_path`, with `date` as the text of
/// the day the file was created. The category is that of the file's
/// extension.
pub fn plan_with_date(file: &CustomFile, output_path: &str, date: &str) -> (task: OrganizedFile)
    ensures
        task@ == planned(file@, output_path@, date@),
{
    plan_as(file, output_path, file.get_type(), date)
}

/// Plans the transfer of `file` into `output_path` from the date text that
/// was found for it: without one the file cannot be planned.
pub fn plan_dated(file: &CustomFile, output_path: &str, date: Option<&str>) -> (r: Result<
    OrganizedFile,
    PlanError,
>)
    ensures
        plan_view(r) == plan_outcome(
            file@,
            output_path@,
            match date {
                Some(d) => Some(d@),
                None => None,
            },
        ),
{
    match date {
        Some(d) => Ok(plan_with_date(file, output_path, d)),
        None => Err(PlanError::MissingCreationTime),
    }
}

/// What planning comes to once the target directory of a transfer has been
/// seen to: the transfer stands where the directory is there, and fails with
/// the detail of the attempt where it could not be made.
pub open spec fn directory_outcome(task: OrganizedFileView, made: Result<(), Seq<char>>) -> Result<
    OrganizedFileView,
    PlanErrorView,
> {
    match made {
        Ok(_) => Ok(task),
        Err(detail) => Err(PlanErrorView::DirectoryCreateFailed(detail)),
    }
}

/// Settles a planned transfer after the attempt to make its target
/// directory; `made` is how the attempt went, with the reason where it
/// failed. A directory that was there already counts as made.
pub fn confirm_directory(task: OrganizedFile, made: Result<(), String>) -> (r: Result<
    OrganizedFile,
    PlanError,
>)
    ensures
        plan_view(r) == directory_outcome(
            task@,
            match made {
                Ok(_) => Ok(()),
                Err(detail) => Err(detail@),
            },
        ),
{
    match made {
        Ok(_) => Ok(task),
        Err(detail) => Err(PlanError::DirectoryCreateFailed(detail)),
    }
}

/// Plans the transfer of `file` into `output_path`. The date is the local
/// day of the file's creation time; a file without a creation time, or with
/// one that cannot be written as a date, is refused.
pub fn plan(file: &CustomFile, output_path: &str) -> (r: Result<OrganizedFile, PlanError>)
    ensures
        plan_view(r) == plan_outcome(file@, output_path@, file@.date()),
{
    match file.get_creation_date() {
        Ok(date) => plan_dated(file, output_path, Some(date.as_str())),
        Err(_) => plan_dated(file, output_path, None),
    }
}

/// For each file of a scan the text of the day it was created, or the
/// message that says why there is none.
pub fn creation_dates(files: &Vec<CustomFile>) -> (dates: Vec<Result<String, String>>)
    ensures
        date_views(dates@) == dates_of(file_views(files@)),
{
    let mut dates: Vec<Result<String, String>> = Vec::new();
    let mut i: usize = 0;
    while i < files.len()
        invariant
            i <= files.len(),
            dates.len() == i,
            forall|j: int|
                0 <= j < i ==> date_views(dates@)[j] == (#[trigger] files[j])@.creation_date(),
        decreases files.len() - i,
    {
        dates.push(files[i].get_creation_date());
        i += 1;
    }
    assert(date_views(dates@) =~= dates_of(file_views(files@)));
    dates
}

/// Plans every file of a scan from what was found of their dates: the
/// transfers in scan order, or the error with the message of the first file
/// without a date.
pub fn organize_with_dates(
    files: Vec<CustomFile>,
    output_path: &str,
    dates: Vec<Result<String, String>>,
) -> (r: Result<Vec<OrganizedFile>, OrganizeError>)
    requires
        dates.len() == files.len(),
    ensures
        organize_view(r) == organized(file_views(files@), output_path@, date_views(dates@)),
{
    let ghost fv = file_views(files@);
    let ghost dv = date_views(dates@);
    let mut tasks: Vec<OrganizedFile> = Vec::new();
    let mut i: usize = 0;
    while i < files.len()
        invariant
            i <= files.len(),
            dates.len() == files.len(),
            fv == file_views(files@),
            dv == date_views(dates@),
            tasks.len() == i,
            forall|j: int| 0 <= j < i ==> (#[trigger] dv[j]) is Ok,
            forall|j: int|
                0 <= j < i ==> (#[trigger] tasks[j])@ == planned(fv[j], output_path@, dv[j]->Ok_0),
        decreases files.len() - i,
    {
        match &dates[i] {
            Ok(date) => {
                let task = plan_with_date(&files[i], output_path, date.as_str());
                tasks.push(task);
            },
            Err(message) => {
                proof {
                    lemma_first_undated_is(dv, i as int);
                }
                return Err(OrganizeError::UserInputError(message.clone()));
            },
        }
        i += 1;
    }
    proof {
        lemma_first_undated_is(dv, i as int);
        assert(task_views(tasks@) =~= Seq::new(
            fv.len(),
            |k: int| planned(fv[k], output_path@, dv[k]->Ok_0),
        ));
    }
    Ok(tasks)
}

/// Plans every file of a scan: the planner of the pipeline. Each file is
/// dated by the local day of its creation time; the result is the transfers
/// in scan order, or the error that names the first file without a date and
/// says why it has none. Making the directories of the plan is left to the
/// caller, who finds them in the `target_dir` of each transfer.
pub fn organize_files(files: Vec<CustomFile>, output_path: &str) -> (r: Result<
    Vec<OrganizedFile>,
    OrganizeError,
>)
    ensures
        organize_view(r) == organized(
            file_views(files@),
            output_path@,
            dates_of(file_views(files@)),
        ),
{
    let dates = creation_dates(&files);
    organize_with_dates(files, output_path, dates)
}

} // verus!
