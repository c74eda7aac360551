//! What a progress display shows: its state, its lists and its numbers.
//!
//! Drawing is the caller's work. This module keeps the state that is drawn,
//! picks the entries of the lists, and writes sizes and durations as text.

use vstd::prelude::*;
use vstd::arithmetic::div_mod::lemma_div_is_ordered_by_denominator;
use crate::file::CustomFile;
use crate::progress::{ProgressUpdate, ProgressUpdateView, Throughput};
use crate::text::{decimal, push_decimal, push_text, push_two_digits, string_of, two_digits};

verus! {

/// The state of the display.
#[derive(Debug, Clone, PartialEq, Eq)]
pub struct ProgressState {
    pub total_files: u64,
    pub current_file_index: u64,
    pub current_file: String,
    pub current_file_size: u64,
    pub current_file_progress: u64,
    /// The throughput of the last snapshot.
    pub rate: Throughput,
    pub is_stopping: bool,
    /// The names of the files that are done, oldest first.
    pub recent_files: Vec<String>,
    pub total_bytes: u64,
    /// The bytes of the current file still to come, where the time left can
    /// be estimated.
    pub remaining_bytes: Option<u64>,
    /// Name and size of every file of the run, in the order of copying.
    pub file_queue: Vec<(String, u64)>,
    /// The name that the last snapshot carried.
    pub last_file: Option<String>,
}

/// A [`ProgressState`] as mathematical data.
pub struct ProgressStateView {
    pub total_files: u64,
    pub current_file_index: u64,
    pub current_file: Seq<char>,
    pub current_file_size: u64,
    pub current_file_progress: u64,
    pub rate: Throughput,
    pub is_stopping: bool,
    pub recent_files: Seq<Seq<char>>,
    pub total_bytes: u64,
    pub remaining_bytes: Option<u64>,
    pub file_queue: Seq<(Seq<char>, u64)>,
    pub last_file: Option<Seq<char>>,
}

/// The views of a sequence of names.
pub open spec fn name_views(names: Seq<String>) -> Seq<Seq<char>> {
    names.map_values(|n: String| n@)
}

/// The views of the entries of a queue.
pub open spec fn queue_views(queue: Seq<(String, u64)>) -> Seq<(Seq<char>, u64)> {
    queue.map_values(|e: (String, u64)| (e.0@, e.1))
}

impl View for ProgressState {
    type V = ProgressStateView;

    open spec fn view(&self) -> ProgressStateView {
        ProgressStateView {
            total_files: self.total_files,
            current_file_index: self.current_file_index,
            current_file: self.current_file@,
            current_file_size: self.current_file_size,
            current_file_progress: self.current_file_progress,
            rate: self.rate,
            is_stopping: self.is_stopping,
            recent_files: name_views(self.recent_files@),
            total_bytes: self.total_bytes,
            remaining_bytes: self.remaining_bytes,
            file_queue: queue_views(self.file_queue@),
            last_file: match self.last_file {
                Some(n) => Some(n@),
                None => None,
            },
        }
    }
}

impl ProgressStateView {
    /// The state before the first snapshot of a run over `total_files` files.
    pub open spec fn initial(total_files: u64) -> ProgressStateView {
        ProgressStateView {
            total_files: total_files,
            current_file_index: 0,
            current_file: Seq::empty(),
            current_file_size: 0,
            current_file_progress: 0,
            rate: Throughput { bytes: 0, nanos: 0 },
            is_stopping: false,
            recent_files: Seq::empty(),
            total_bytes: 0,
            remaining_bytes: None,
            file_queue: Seq::empty(),
            last_file: None,
        }
    }

    /// The names of the files that are done, once a snapshot names `name`: the
    /// file of the snapshot before joins them where it is another file.
    pub open spec fn recent_after(self, name: Seq<char>) -> Seq<Seq<char>> {
        match self.last_file {
            Some(last) => if last != name {
                self.recent_files.push(last)
            } else {
                self.recent_files
            },
            None => self.recent_files,
        }
    }

    /// The state after a snapshot of the file being copied.
    pub open spec fn with_file(
        self,
        name: Seq<char>,
        size: u64,
        progress: u64,
        index: u64,
        rate: Throughput,
        total_bytes: u64,
        remaining_bytes: Option<u64>,
    ) -> ProgressStateView {
        ProgressStateView {
            current_file: name,
            current_file_size: size,
            current_file_progress: progress,
            current_file_index: index,
            rate: rate,
            total_bytes: total_bytes,
            remaining_bytes: remaining_bytes,
            recent_files: self.recent_after(name),
            last_file: Some(name),
            ..self
        }
    }

    /// The state after an update.
    pub open spec fn after(self, update: ProgressUpdateView) -> ProgressStateView {
        match update {
            ProgressUpdateView::File {
                name,
                size,
                progress,
                index,
                rate,
                total_bytes,
                remaining_bytes,
            } => self.with_file(name, size, progress, index, rate, total_bytes, remaining_bytes),
            ProgressUpdateView::Stop => ProgressStateView { is_stopping: true, ..self },
            ProgressUpdateView::Complete => self,
        }
    }
}

/// The entries of the queue that come after the current file, as many as fit
/// into `capacity` rows.
pub open spec fn upcoming<T>(queue: Seq<T>, index: u64, capacity: usize) -> Seq<T> {
    let from = if index + 1 < queue.len() {
        index + 1
    } else {
        queue.len() as int
    };
    let to = if from + capacity < queue.len() {
        from + capacity
    } else {
        queue.len() as int
    };
    queue.subrange(from, to)
}

/// The last entries of a list, newest first, as many as fit into `capacity`
/// rows.
pub open spec fn latest_first<T>(list: Seq<T>, capacity: usize) -> Seq<T> {
    let shown = if capacity < list.len() {
        capacity as int
    } else {
        list.len() as int
    };
    Seq::new(shown as nat, |i: int| list[list.len() - 1 - i])
}

impl ProgressState {
    /// The state before the first snapshot of a run over `total_files` files.
    pub fn new(total_files: u64) -> (r: ProgressState)
        ensures
            r@ == ProgressStateView::initial(total_files),
    {
        let r = ProgressState {
            total_files,
            current_file_index: 0,
            current_file: String::new(),
            current_file_size: 0,
            current_file_progress: 0,
            rate: Throughput { bytes: 0, nanos: 0 },
            is_stopping: false,
            recent_files: Vec::new(),
            total_bytes: 0,
            remaining_bytes: None,
            file_queue: Vec::new(),
            last_file: None,
        };
        assert(r@.recent_files =~= Seq::empty());
        assert(r@.file_queue =~= Seq::empty());
        r
    }

    /// Sets the files of the run, in the order of copying.
    pub fn set_file_queue(&mut self, files: Vec<(String, u64)>)
        ensures
            final(self)@ == (ProgressStateView { file_queue: queue_views(files@), ..old(self)@ }),
    {
        self.file_queue = files;
    }

    /// Takes a snapshot of the file being copied. Where the snapshot before
    /// was of another file, that file is done and joins the recent files.
    pub fn update_file_progress(
        &mut self,
        file_name: String,
        size: u64,
        progress: u64,
        index: u64,
        rate: Throughput,
        total_bytes: u64,
        remaining_bytes: Option<u64>,
    )
        ensures
            final(self)@ == old(self)@.with_file(
                file_name@,
                size,
                progress,
                index,
                rate,
                total_bytes,
                remaining_bytes,
            ),
    {
        self.current_file = file_name.clone();
        self.current_file_size = size;
        self.current_file_progress = progress;
        self.current_file_index = index;
        self.rate = rate;
        self.total_bytes = total_bytes;
        self.remaining_bytes = remaining_bytes;
        let mut previous: Option<String> = Some(file_name);
        std::mem::swap(&mut previous, &mut self.last_file);
        match previous {
            Some(last) => {
                if last != self.current_file {
                    let ghost before = self.recent_files@;
                    self.recent_files.push(last);
                    assert(name_views(self.recent_files@) =~= name_views(before).push(last@));
                }
            },
            None => {},
        }
    }

    /// Takes an update in. The answer says whether the run is over, after
    /// which no update follows.
    pub fn apply(&mut self, update: ProgressUpdate) -> (done: bool)
        ensures
            final(self)@ == old(self)@.after(update@),
            done == (update@ is Complete),
    {
        match update {
            ProgressUpdate::File {
                name,
                size,
                progress,
                index,
                rate,
                total_bytes,
                remaining_bytes,
            } => {
                self.update_file_progress(
                    name,
                    size,
                    progress,
                    index,
                    rate,
                    total_bytes,
                    remaining_bytes,
                );
                false
            },
            ProgressUpdate::Stop => {
                self.is_stopping = true;
                false
            },
            ProgressUpdate::Complete => true,
        }
    }

    /// The files that come after the current one, for a list of `capacity`
    /// rows.
    pub fn upcoming_files(&self, capacity: usize) -> (r: Vec<(String, u64)>)
        ensures
            queue_views(r@) == upcoming(self@.file_queue, self.current_file_index, capacity),
    {
        let len = self.file_queue.len();
        let from: usize = if self.current_file_index < len as u64 && self.current_file_index + 1 < len as u64 {
            (self.current_file_index + 1) as usize
        } else {
            len
        };
        let to: usize = if capacity < len - from {
            from + capacity
        } else {
            len
        };
        let mut r: Vec<(String, u64)> = Vec::new();
        let mut i: usize = from;
        while i < to
            invariant
                from <= i <= to <= len,
                len == self.file_queue.len(),
                r.len() == i - from,
                forall|j: int|
                    0 <= j < i - from ==> (#[trigger] r[j]).0@ == self.file_queue[from + j].0@
                        && r[j].1 == self.file_queue[from + j].1,
            decreases to - i,
        {
            r.push((self.file_queue[i].0.clone(), self.file_queue[i].1));
            i += 1;
        }
        assert(queue_views(r@) =~= upcoming(
            self@.file_queue,
            self.current_file_index,
            capacity,
        ));
        r
    }

    /// The names of the files done last, newest first, for a list of
    /// `capacity` rows.
    pub fn recent_completed(&self, capacity: usize) -> (r: Vec<String>)
        ensures
            name_views(r@) == latest_first(self@.recent_files, capacity),
    {
        let len = self.recent_files.len();
        let shown: usize = if capacity < len {
            capacity
        } else {
            len
        };
        let mut r: Vec<String> = Vec::new();
        let mut i: usize = 0;
        while i < shown
            invariant
                i <= shown <= len,
                len == self.recent_files.len(),
                r.len() == i,
                forall|j: int| 0 <= j < i ==> (#[trigger] r[j])@ == self.recent_files[len - 1 - j]@,
            decreases shown - i,
        {
            r.push(self.recent_files[len - 1 - i].clone());
            i += 1;
        }
        assert(name_views(r@) =~= latest_first(self@.recent_files, capacity));
        r
    }
}

/// Name and size of every file of a scan, in scan order: the queue that the
/// display starts with.
pub fn file_queue(files: &Vec<CustomFile>) -> (r: Vec<(String, u64)>)
    ensures
        queue_views(r@) == files@.map_values(|f: CustomFile| (f.name@, f.size)),
{
    let mut r: Vec<(String, u64)> = Vec::new();
    let mut i: usize = 0;
    while i < files.len()
        invariant
            i <= files.len(),
            r.len() == i,
            forall|j: int|
                0 <= j < i ==> (#[trigger] r[j]).0@ == files[j].name@ && r[j].1 == files[j].size,
        decreases files.len() - i,
    {
        r.push((files[i].name.clone(), files[i].size));
        i += 1;
    }
    assert(queue_views(r@) =~= files@.map_values(|f: CustomFile| (f.name@, f.size)));
    r
}

/// A duration in whole seconds as `h:mm:ss`.
pub open spec fn clock_text(secs: u64) -> Seq<char> {
    decimal((secs / 3600) as nat) + seq![':'] + two_digits(((secs % 3600) / 60) as nat) + seq![':']
        + two_digits((secs % 60) as nat)
}

/// Writes a duration in whole seconds as `h:mm:ss`.
pub fn format_clock(secs: u64) -> (r: String)
    ensures
        r@ == clock_text(secs),
{
    let mut out: Vec<char> = Vec::new();
    push_decimal(&mut out, secs / 3600);
    out.push(':');
    push_two_digits(&mut out, (secs % 3600) / 60);
    out.push(':');
    push_two_digits(&mut out, secs % 60);
    assert(out@ =~= clock_text(secs));
    string_of(&out)
}

/// `n / d` rounded to the nearest whole number, a tie going to the even one.
pub open spec fn round_half_even(n: int, d: int) -> int {
    let q = n / d;
    let r = n % d;
    if 2 * r > d || (2 * r == d && q % 2 == 1) {
        q + 1
    } else {
        q
    }
}

/// Two to the power of 53: up to here every whole number is a double.
pub const EXACT_LIMIT: u64 = 9_007_199_254_740_992;

/// The distance between neighbouring doubles at `size`, found by doubling
/// `spacing` until `size` lies below `EXACT_LIMIT * spacing`.
pub open spec fn double_spacing(size: u64, spacing: int) -> int
    decreases 4096 - spacing,
{
    if spacing < 1 || spacing >= 2048 || size < EXACT_LIMIT * spacing {
        spacing
    } else {
        double_spacing(size, 2 * spacing)
    }
}

/// The spacings that occur among the doubles up to two to the power of 64.
pub open spec fn is_spacing(spacing: int) -> bool {
    spacing == 1 || spacing == 2 || spacing == 4 || spacing == 8 || spacing == 16 || spacing == 32
        || spacing == 64 || spacing == 128 || spacing == 256 || spacing == 512 || spacing == 1024
        || spacing == 2048
}

/// The double nearest to `size`, a tie going to the one with the even
/// mantissa: the number that a size is shown from.
pub open spec fn nearest_double(size: u64) -> int {
    let spacing = double_spacing(size, 1);
    round_half_even(size as int, spacing) * spacing
}

/// The unit a size is shown in: 0 for bytes up to 5 for petabytes, each 1024
/// of the one before.
pub open spec fn unit_index(value: int) -> int {
    if value < 1024 {
        0
    } else if value < 1_048_576 {
        1
    } else if value < 1_073_741_824 {
        2
    } else if value < 1_099_511_627_776 {
        3
    } else if value < 1_125_899_906_842_624 {
        4
    } else {
        5
    }
}

/// The number of bytes in one unit.
pub open spec fn unit_bytes(unit: int) -> int {
    if unit <= 0 {
        1
    } else if unit == 1 {
        1024
    } else if unit == 2 {
        1_048_576
    } else if unit == 3 {
        1_073_741_824
    } else if unit == 4 {
        1_099_511_627_776
    } else {
        1_125_899_906_842_624
    }
}

/// The name of a unit.
pub open spec fn unit_name(unit: int) -> Seq<char> {
    if unit <= 0 {
        "B"@
    } else if unit == 1 {
        "KB"@
    } else if unit == 2 {
        "MB"@
    } else if unit == 3 {
        "GB"@
    } else if unit == 4 {
        "TB"@
    } else {
        "PB"@
    }
}

/// A size as text. Sizes below 1024 are shown in bytes, as a whole number.
/// Larger ones are shown in the largest unit that they fill, up to
/// petabytes, with two decimals, rounded to the nearest hundredth with a tie
/// going to the even one. Sizes from `EXACT_LIMIT` on are first taken to the
/// nearest double.
pub open spec fn size_text(size: u64) -> Seq<char> {
    let value = nearest_double(size);
    let unit = unit_index(value);
    if unit == 0 {
        decimal(value as nat) + seq![' '] + unit_name(0)
    } else {
        let hundredths = round_half_even(100 * value, unit_bytes(unit));
        decimal((hundredths / 100) as nat) + seq!['.'] + two_digits((hundredths % 100) as nat)
            + seq![' '] + unit_name(unit)
    }
}

/// `n / d` rounded to the nearest whole number, a tie going to the even one.
fn rounded_div(n: u128, d: u128) -> (r: u128)
    requires
        d >= 1,
        n < 0x8000_0000_0000_0000_0000_0000_0000_0000,
        d < 0x8000_0000_0000_0000_0000_0000_0000_0000,
    ensures
        r == round_half_even(n as int, d as int),
        r <= n + 1,
{
    let q = n / d;
    let r = n % d;
    proof {
        lemma_div_is_ordered_by_denominator(n as int, 1, d as int);
    }
    if 2 * r > d || (2 * r == d && q % 2 == 1) {
        q + 1
    } else {
        q
    }
}

/// The double nearest to `size`.
fn to_nearest_double(size: u64) -> (r: u128)
    ensures
        r == nearest_double(size),
        r <= 0x1_0000_0000_0000_0000,
{
    let mut spacing: u128 = 1;
    while spacing < 2048 && size as u128 >= EXACT_LIMIT as u128 * spacing
        invariant
            is_spacing(spacing as int),
            double_spacing(size, spacing as int) == double_spacing(size, 1),
        decreases 4096 - spacing,
    {
        spacing = spacing * 2;
    }
    let q = rounded_div(size as u128, spacing);
    assert(q * spacing <= 0x1_0000_0000_0000_0000) by {
        lemma_rounding_stays_in_range(size, spacing as int);
    }
    q * spacing
}

/// Rounding a size to a multiple of the spacing of its doubles gives at most
/// two to the power of 64.
proof fn lemma_rounding_stays_in_range(size: u64, spacing: int)
    requires
        is_spacing(spacing),
    ensures
        0 <= round_half_even(size as int, spacing) * spacing <= 0x1_0000_0000_0000_0000,
{
    let q = size as int / spacing;
    let r = size as int % spacing;
    assert(size == q * spacing + r && 0 <= r < spacing) by (nonlinear_arith)
        requires
            q == size as int / spacing,
            r == size as int % spacing,
            spacing >= 1,
    ;
    assert(0x1_0000_0000_0000_0000int % spacing == 0);
    let top = 0x1_0000_0000_0000_0000int / spacing;
    assert(top * spacing == 0x1_0000_0000_0000_0000int) by (nonlinear_arith)
        requires
            top == 0x1_0000_0000_0000_0000int / spacing,
            0x1_0000_0000_0000_0000int % spacing == 0,
            spacing >= 1,
    ;
    assert(q < top) by (nonlinear_arith)
        requires
            size == q * spacing + r,
            0 <= r,
            size < 0x1_0000_0000_0000_0000int,
            top * spacing == 0x1_0000_0000_0000_0000int,
            spacing >= 1,
    ;
    assert(0 <= q) by (nonlinear_arith)
        requires
            size == q * spacing + r,
            r < spacing,
            size >= 0,
            spacing >= 1,
    ;
    assert((q + 1) * spacing <= top * spacing && q * spacing <= top * spacing && 0 <= q * spacing)
        by (nonlinear_arith)
        requires
            0 <= q < top,
            spacing >= 1,
    ;
}

/// Writes a size as text: `512 B`, `1.50 KB`, `2.00 GB`.
pub fn format_size(size: u64) -> (r: String)
    ensures
        r@ == size_text(size),
{
    let value = to_nearest_double(size);
    let mut out: Vec<char> = Vec::new();
    proof {
        reveal_strlit("B");
        reveal_strlit("KB");
        reveal_strlit("MB");
        reveal_strlit("GB");
        reveal_strlit("TB");
        reveal_strlit("PB");
    }
    if value < 1024 {
        push_decimal(&mut out, value as u64);
        out.push(' ');
        push_text(&mut out, "B");
        assert(out@ =~= size_text(size));
        return string_of(&out);
    }
    let unit: u8 = if value < 1_048_576 {
        1
    } else if value < 1_073_741_824 {
        2
    } else if value < 1_099_511_627_776 {
        3
    } else if value < 1_125_899_906_842_624 {
        4
    } else {
        5
    };
    let per_unit: u128 = if unit == 1 {
        1024
    } else if unit == 2 {
        1_048_576
    } else if unit == 3 {
        1_073_741_824
    } else if unit == 4 {
        1_099_511_627_776
    } else {
        1_125_899_906_842_624
    };
    let name: &str = if unit == 1 {
        "KB"
    } else if unit == 2 {
        "MB"
    } else if unit == 3 {
        "GB"
    } else if unit == 4 {
        "TB"
    } else {
        "PB"
    };
    let hundredths = rounded_div(100 * value, per_unit);
    assert(hundredths <= 0xffff_ffff_ffff_ffff);
    push_decimal(&mut out, (hundredths / 100) as u64);
    out.push('.');
    push_two_digits(&mut out, (hundredths % 100) as u64);
    out.push(' ');
    push_text(&mut out, name);
    assert(out@ =~= size_text(size));
    string_of(&out)
}

} // verus!
