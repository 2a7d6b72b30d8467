use crate::date::{before_current, is_before_current, period_identifier, period_label, Timestamp};
use crate::model::{Args, FileDateType, GroupBy};
use crate::path::{
    calculate_dest_path, optional_paths_view, paths_view, relative_parts, rerooted, starts_with,
    FsPath, PathView,
};
use vstd::prelude::*;

verus! {

/// The three timestamps that a file's metadata holds.
#[derive(Clone, Copy, Debug, PartialEq, Eq, Structural)]
pub struct FileTimestamps {
    pub created: Timestamp,
    pub modified: Timestamp,
    pub accessed: Timestamp,
}

impl FileTimestamps {
    pub open spec fn wf(self) -> bool {
        self.created.wf() && self.modified.wf() && self.accessed.wf()
    }

    pub open spec fn of_type(self, t: FileDateType) -> Timestamp {
        match t {
            FileDateType::Created => self.created,
            FileDateType::Modified => self.modified,
            FileDateType::Accessed => self.accessed,
        }
    }
}

/// The latest of the timestamps of the given types; on a tie the later type in the
/// list is taken, which holds the same instant.
pub open spec fn latest_date(ts: FileTimestamps, types: Seq<FileDateType>) -> Timestamp
    decreases types.len(),
{
    if types.len() <= 1 {
        ts.of_type(types[0])
    } else {
        let rest = latest_date(ts, types.drop_last());
        let last = ts.of_type(types.last());
        if last.earlier_than(rest) {
            rest
        } else {
            last
        }
    }
}

/// Why a file has no date.
#[derive(Clone, Copy, Debug, PartialEq, Eq, Structural)]
pub enum FileDateError {
    /// No timestamp type was asked for.
    NoDateTypes,
}

proof fn lemma_not_earlier_transitive(a: Timestamp, b: Timestamp, c: Timestamp)
    requires
        !a.earlier_than(b),
        !b.earlier_than(c),
    ensures
        !a.earlier_than(c),
{
}

/// The latest date of a non-empty list of types is one of the file's timestamps of
/// those types, and none of them is later.
pub proof fn lemma_latest_date_is_maximum(ts: FileTimestamps, types: Seq<FileDateType>)
    requires
        types.len() > 0,
    ensures
        exists|i: int| 0 <= i < types.len() && latest_date(ts, types) == ts.of_type(types[i]),
        forall|i: int|
            0 <= i < types.len() ==> !latest_date(ts, types).earlier_than(
                #[trigger] ts.of_type(types[i]),
            ),
    decreases types.len(),
{
    if types.len() > 1 {
        let init = types.drop_last();
        lemma_latest_date_is_maximum(ts, init);
        let rest = latest_date(ts, init);
        let last = ts.of_type(types.last());
        assert forall|i: int| 0 <= i < types.len() implies !latest_date(
            ts,
            types,
        ).earlier_than(#[trigger] ts.of_type(types[i])) by {
            if i < types.len() - 1 {
                assert(types[i] == init[i]);
                if !last.earlier_than(rest) {
                    lemma_not_earlier_transitive(last, rest, ts.of_type(types[i]));
                }
            }
        }
        let i = choose|i: int| 0 <= i < init.len() && rest == ts.of_type(init[i]);
        if last.earlier_than(rest) {
            assert(types[i] == init[i]);
            assert(0 <= i < types.len() && latest_date(ts, types) == ts.of_type(types[i]));
        } else {
            let j = types.len() - 1;
            assert(0 <= j < types.len() && latest_date(ts, types) == ts.of_type(types[j]));
        }
    } else {
        assert(0 <= 0 < types.len() && latest_date(ts, types) == ts.of_type(types[0]));
    }
}

/// The most recent of a file's timestamps of the selected types.
pub fn get_file_date(timestamps: &FileTimestamps, date_types: &Vec<FileDateType>) -> (r: Result<
    Timestamp,
    FileDateError,
>)
    ensures
        r is Err <==> date_types@.len() == 0,
        r is Err ==> r == Err::<Timestamp, FileDateError>(FileDateError::NoDateTypes),
        r matches Ok(d) ==> {
            &&& d == latest_date(*timestamps, date_types@)
            &&& exists|i: int|
                0 <= i < date_types@.len() && d == timestamps.of_type(date_types@[i])
            &&& forall|i: int|
                0 <= i < date_types@.len() ==> !d.earlier_than(
                    #[trigger] timestamps.of_type(date_types@[i]),
                )
        },
{
    if date_types.len() == 0 {
        return Err(FileDateError::NoDateTypes);
    }
    let mut latest = timestamp_of_type(timestamps, date_types[0]);
    let mut i: usize = 1;
    while i < date_types.len()
        invariant
            1 <= i <= date_types@.len(),
            latest == latest_date(*timestamps, date_types@.subrange(0, i as int)),
        decreases date_types@.len() - i,
    {
        let candidate = timestamp_of_type(timestamps, date_types[i]);
        proof {
            let s = date_types@.subrange(0, i as int + 1);
            assert(s.drop_last() =~= date_types@.subrange(0, i as int));
        }
        if !candidate.is_earlier_than(&latest) {
            latest = candidate;
        }
        i = i + 1;
    }
    proof {
        assert(date_types@.subrange(0, i as int) =~= date_types@);
        lemma_latest_date_is_maximum(*timestamps, date_types@);
    }
    Ok(latest)
}

fn timestamp_of_type(timestamps: &FileTimestamps, t: FileDateType) -> (r: Timestamp)
    ensures
        r == timestamps.of_type(t),
{
    match t {
        FileDateType::Created => timestamps.created,
        FileDateType::Modified => timestamps.modified,
        FileDateType::Accessed => timestamps.accessed,
    }
}

/// Whether a file dated `file_datetime` passes the filters: strictly before the cutoff
/// where one is set, and, where only previous periods are wanted and a grouping is set,
/// in a period before the one that contains `now`.
pub open spec fn should_move(
    file_datetime: Timestamp,
    group_by: Option<GroupBy>,
    previous_period_only: bool,
    older_than: Option<Timestamp>,
    now: Timestamp,
) -> bool {
    &&& older_than matches Some(cutoff) ==> file_datetime.earlier_than(cutoff)
    &&& (previous_period_only && group_by is Some) ==> before_current(
        file_datetime,
        now,
        group_by->Some_0,
    )
}

/// Determine if a file should be moved based on filters
pub fn should_move_file(
    file_datetime: Timestamp,
    group_by: Option<GroupBy>,
    previous_period_only: bool,
    older_than: Option<Timestamp>,
    now: Timestamp,
) -> (r: bool)
    requires
        file_datetime.wf(),
        now.wf(),
    ensures
        r == should_move(file_datetime, group_by, previous_period_only, older_than, now),
{
    match older_than {
        Some(cutoff) => {
            if !file_datetime.is_earlier_than(&cutoff) {
                return false;
            }
        },
        None => {},
    }
    if previous_period_only {
        match group_by {
            Some(group) => {
                if !is_before_current(file_datetime, now, group) {
                    return false;
                }
            },
            // Without a grouping the flag has no period to compare against and is ignored.
            None => {},
        }
    }
    true
}

} // verus!

verus! {

/// One step of the move plan: where a file is and where it goes.
#[derive(Debug)]
pub struct FileToMove {
    pub source: FsPath,
    pub destination: FsPath,
}

impl View for FileToMove {
    type V = (PathView, PathView);

    open spec fn view(&self) -> (PathView, PathView) {
        (self.source@, self.destination@)
    }
}

/// A file found under the source root, with its timestamps where they could be read.
#[derive(Debug)]
pub struct FileEntry {
    pub path: FsPath,
    pub timestamps: Option<FileTimestamps>,
}

impl FileEntry {
    pub open spec fn wf(&self) -> bool {
        self.timestamps matches Some(ts) ==> ts.wf()
    }
}

/// Why a file found under the source root stays where it is.
#[derive(Clone, Copy, Debug, PartialEq, Eq, Structural)]
pub enum SkipReason {
    /// It lies within one of the ignored paths.
    Ignored,
    /// Its timestamps could not be read.
    MetadataUnavailable,
    /// No timestamp type was asked for, so it has no date.
    NoDateTypes,
    /// Its date does not pass the age or period filters.
    Filtered,
    /// It does not lie under the source root.
    NotUnderSource,
}

/// Whether `path` lies within one of the `ignored` paths.
pub open spec fn is_ignored(path: PathView, ignored: Seq<PathView>) -> bool {
    exists|i: int| 0 <= i < ignored.len() && starts_with(path, #[trigger] ignored[i])
}

/// The folder that a file dated `date` is grouped into, where a grouping is set.
pub open spec fn group_label(group_by: Option<GroupBy>, date: Timestamp) -> Option<Seq<char>> {
    match group_by {
        Some(g) => Some(period_label(date, g)),
        None => None,
    }
}

/// Why the file at `path` is not moved, or `None` where it is.
pub open spec fn skip_reason(
    args: Args,
    path: PathView,
    timestamps: Option<FileTimestamps>,
    now: Timestamp,
) -> Option<SkipReason> {
    if is_ignored(path, args.ignored_view()) {
        Some(SkipReason::Ignored)
    } else {
        match timestamps {
            None => Some(SkipReason::MetadataUnavailable),
            Some(ts) => {
                if args.file_date_types@.len() == 0 {
                    Some(SkipReason::NoDateTypes)
                } else if !should_move(
                    latest_date(ts, args.file_date_types@),
                    args.group_by,
                    args.previous_period_only,
                    args.older_than,
                    now,
                ) {
                    Some(SkipReason::Filtered)
                } else if relative_parts(path, args.source@) is None {
                    Some(SkipReason::NotUnderSource)
                } else {
                    None
                }
            },
        }
    }
}

/// Where the file at `path` with timestamps `ts` is moved to, where it is moved.
pub open spec fn planned_destination(
    args: Args,
    path: PathView,
    ts: FileTimestamps,
    now: Timestamp,
) -> PathView {
    rerooted(
        args.destination@,
        group_label(args.group_by, latest_date(ts, args.file_date_types@)),
        relative_parts(path, args.source@)->Some_0,
    )
}

/// The move plan for a sequence of files: the files that are moved, in their order,
/// each with its destination.
pub open spec fn plan(args: Args, entries: Seq<FileEntry>, now: Timestamp) -> Seq<
    (PathView, PathView),
>
    decreases entries.len(),
{
    if entries.len() == 0 {
        Seq::empty()
    } else {
        let earlier = plan(args, entries.drop_last(), now);
        let e = entries.last();
        if skip_reason(args, e.path@, e.timestamps, now) is None {
            earlier.push((e.path@, planned_destination(args, e.path@, e.timestamps->Some_0, now)))
        } else {
            earlier
        }
    }
}

pub open spec fn plan_view(files: Seq<FileToMove>) -> Seq<(PathView, PathView)> {
    Seq::new(files.len(), |i: int| files[i]@)
}

/// Whether `path` lies within one of the ignored paths.
pub fn is_inside_ignored(path: &FsPath, ignored_paths: &Option<Vec<FsPath>>) -> (r: bool)
    ensures
        r == is_ignored(path@, optional_paths_view(*ignored_paths)),
{
    match ignored_paths {
        Some(v) => {
            let ghost ignored = paths_view(v@);
            assert(optional_paths_view(*ignored_paths) == ignored);
            let mut i: usize = 0;
            while i < v.len()
                invariant
                    i <= v@.len(),
                    ignored == paths_view(v@),
                    optional_paths_view(*ignored_paths) == ignored,
                    forall|j: int| 0 <= j < i ==> !starts_with(path@, #[trigger] ignored[j]),
                decreases v@.len() - i,
            {
                if path.starts_with(&v[i]) {
                    assert(0 <= i < ignored.len() && starts_with(path@, ignored[i as int]));
                    return true;
                }
                i = i + 1;
            }
            false
        },
        None => false,
    }
}

/// Decides what happens to one file found under the source root: where it goes, or
/// why it stays.
pub fn plan_entry(args: &Args, entry: &FileEntry, now: Timestamp) -> (r: Result<
    FileToMove,
    SkipReason,
>)
    requires
        args.wf(),
        entry.wf(),
        now.wf(),
    ensures
        r is Err <==> skip_reason(*args, entry.path@, entry.timestamps, now) is Some,
        r matches Err(reason) ==> skip_reason(*args, entry.path@, entry.timestamps, now) == Some(
            reason,
        ),
        r matches Ok(f) ==> f@ == (
            entry.path@,
            planned_destination(*args, entry.path@, entry.timestamps->Some_0, now),
        ),
{
    if is_inside_ignored(&entry.path, &args.ignored_paths) {
        return Err(SkipReason::Ignored);
    }
    let timestamps = match entry.timestamps {
        Some(ts) => ts,
        None => {
            return Err(SkipReason::MetadataUnavailable);
        },
    };
    let file_datetime = match get_file_date(&timestamps, &args.file_date_types) {
        Ok(d) => d,
        Err(_) => {
            return Err(SkipReason::NoDateTypes);
        },
    };
    proof {
        lemma_latest_date_is_maximum(timestamps, args.file_date_types@);
        let i = choose|i: int|
            0 <= i < args.file_date_types@.len() && file_datetime == timestamps.of_type(
                args.file_date_types@[i],
            );
        assert(file_datetime.wf());
    }
    if !should_move_file(
        file_datetime,
        args.group_by,
        args.previous_period_only,
        args.older_than,
        now,
    ) {
        return Err(SkipReason::Filtered);
    }
    let group_folder: Option<String> = match args.group_by {
        Some(g) => Some(period_identifier(file_datetime, g)),
        None => None,
    };
    let dest = match &group_folder {
        Some(name) => calculate_dest_path(
            &entry.path,
            &args.source,
            &args.destination,
            Some(name.as_str()),
        ),
        None => calculate_dest_path(&entry.path, &args.source, &args.destination, None),
    };
    match dest {
        Ok(destination) => Ok(FileToMove { source: entry.path.duplicate(), destination }),
        Err(_) => Err(SkipReason::NotUnderSource),
    }
}

/// Builds the move plan: the files among `entries` that are to be moved, in their
/// order, each with its destination.
pub fn get_files_to_move(args: &Args, entries: &Vec<FileEntry>, now: Timestamp) -> (r: Vec<
    FileToMove,
>)
    requires
        args.wf(),
        now.wf(),
        forall|i: int| 0 <= i < entries@.len() ==> (#[trigger] entries@[i]).wf(),
    ensures
        plan_view(r@) == plan(*args, entries@, now),
{
    let mut files_to_move: Vec<FileToMove> = Vec::new();
    let mut i: usize = 0;
    while i < entries.len()
        invariant
            i <= entries@.len(),
            args.wf(),
            now.wf(),
            forall|k: int| 0 <= k < entries@.len() ==> (#[trigger] entries@[k]).wf(),
            plan_view(files_to_move@) == plan(*args, entries@.subrange(0, i as int), now),
        decreases entries@.len() - i,
    {
        let entry = &entries[i];
        let ghost done = entries@.subrange(0, i as int + 1);
        proof {
            assert(done.drop_last() =~= entries@.subrange(0, i as int));
            assert(done.last() == entries@[i as int]);
        }
        let ghost before = files_to_move@;
        match plan_entry(args, entry, now) {
            Ok(f) => {
                files_to_move.push(f);
                proof {
                    assert(plan_view(files_to_move@) =~= plan_view(before).push(f@));
                }
            },
            Err(_) => {},
        }
        i = i + 1;
    }
    proof {
        assert(entries@.subrange(0, i as int) =~= entries@);
    }
    files_to_move
}

} // verus!

verus! {

/// A file dated exactly at the cutoff is not moved: the age filter keeps only files
/// strictly older than the cutoff.
pub proof fn lemma_cutoff_is_exclusive(
    file_datetime: Timestamp,
    group_by: Option<GroupBy>,
    previous_period_only: bool,
    now: Timestamp,
)
    ensures
        !should_move(file_datetime, group_by, previous_period_only, Some(file_datetime), now),
{
}

} // verus!
