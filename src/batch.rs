//! One file from its reading to a plan of what to do, and the tally of a run.
use crate::arguments::{Action, Args, Collision};
use crate::gatherer::{date_result, get_date, Reading, ResolveError};
use crate::placement::{candidate, month_dir, month_directory, names, new_file_path, placement, PlaceError};
use crate::timestamp::Timestamp;
use vstd::prelude::*;

verus! {

/// What is to be done with one file.
#[derive(Debug, Clone)]
pub struct Plan {
    /// Whether the action is to be performed (`false` on a dry run).
    pub perform: bool,
    pub action: Action,
    /// The directory to create before acting.
    pub dir: String,
    /// The destination of the file.
    pub dest: String,
}

/// Why one file was left where it is.
#[derive(Debug, Clone, PartialEq, Eq)]
pub enum FileError {
    /// No date was found.
    Resolve(ResolveError),
    /// The path has no final component, or it is not valid UTF-8.
    NoFileName,
    /// No destination was given.
    Place(PlaceError),
}

/// What the plan for a file with a known date is: no name is an error; else the
/// placement, performed unless the run is dry, or the placement's error.
pub open spec fn plan_result(
    args: Args,
    ts: Timestamp,
    name: Option<String>,
    taken: Seq<String>,
    r: Result<Plan, FileError>,
) -> bool {
    match name {
        None => r == Err::<Plan, FileError>(FileError::NoFileName),
        Some(n) => match placement(args.target_dir@, ts, n@, args.collision, names(taken)) {
            Ok(p) => r matches Ok(plan) && plan.dest@ == p && plan.perform == !args.dry_run
                && plan.action == args.action && plan.dir@ == month_dir(args.target_dir@, ts),
            Err(p) => r matches Err(FileError::Place(PlaceError::AlreadyExists(s))) && s@ == p,
        },
    }
}

/// Plans what to do with a file whose date is `ts`, named `name`, given the
/// names present in its month's directory.
pub fn plan_file(args: &Args, ts: &Timestamp, name: &Option<String>, taken: &Vec<String>) -> (r:
    Result<Plan, FileError>)
    requires
        ts.wf(),
        taken.len() < u64::MAX,
    ensures
        plan_result(*args, *ts, *name, taken@, r),
{
    match name {
        None => Err(FileError::NoFileName),
        Some(n) => {
            match new_file_path(n.as_str(), args.target_dir.as_str(), ts, args.collision, taken) {
                Ok(dest) => Ok(
                    Plan {
                        perform: !args.dry_run,
                        action: args.action,
                        dir: month_directory(args.target_dir.as_str(), ts),
                        dest,
                    },
                ),
                Err(e) => Err(FileError::Place(e)),
            }
        },
    }
}

/// Processes one file: reads its date from `reading`, then plans its move.
/// `taken` lists the names present in the month's directory of that date.
pub fn process_file(args: &Args, reading: &Reading, name: &Option<String>, taken: &Vec<String>) -> (r:
    Result<Plan, FileError>)
    requires
        taken.len() < u64::MAX,
    ensures
        exists|d: Result<Timestamp, ResolveError>|
            #![trigger date_result(*reading, d)]
            date_result(*reading, d) && match d {
                Ok(ts) => plan_result(*args, ts, *name, taken@, r),
                Err(e) => r == Err::<Plan, FileError>(FileError::Resolve(e)),
            },
{
    let d = get_date(reading);
    let r = match d {
        Ok(ts) => plan_file(args, &ts, name, taken),
        Err(e) => Err(FileError::Resolve(e)),
    };
    assert(date_result(*reading, d));
    r
}

/// Under `Skip`, where the file's name is taken, there is no plan, so nothing is
/// done to the file: the error names the taken path.
pub proof fn law_skip_refuses(
    args: Args,
    ts: Timestamp,
    name: String,
    taken: Seq<String>,
    r: Result<Plan, FileError>,
)
    requires
        args.collision == Collision::Skip,
        names(taken).contains(name@),
        plan_result(args, ts, Some(name), taken, r),
    ensures
        r matches Err(FileError::Place(PlaceError::AlreadyExists(s))) && s@ == candidate(
            args.target_dir@,
            ts,
            name@,
            0,
        ),
{
}

/// A dry run plans nothing to perform, and names the destination that the same
/// run without it would act on, or fails as that run would.
pub proof fn law_dry_run_same_destination(
    args: Args,
    ts: Timestamp,
    name: Option<String>,
    taken: Seq<String>,
    wet: Result<Plan, FileError>,
    dry: Result<Plan, FileError>,
)
    requires
        !args.dry_run,
        plan_result(args, ts, name, taken, wet),
        plan_result((Args { dry_run: true, ..args }), ts, name, taken, dry),
    ensures
        wet is Ok <==> dry is Ok,
        dry matches Ok(d) ==> (!d.perform && (wet matches Ok(w) && w.perform && w.dest@ == d.dest@)),
        dry matches Err(e) ==> match e {
            FileError::Place(PlaceError::AlreadyExists(s)) => wet matches Err(
                FileError::Place(PlaceError::AlreadyExists(w)),
            ) && w@ == s@,
            _ => wet == dry,
        },
{
}

/// The tally of a run: how many files there are, how many were seen, and how
/// many of those failed.
#[derive(Debug, Clone, Copy, PartialEq, Eq, Structural)]
pub struct Batch {
    pub total: usize,
    pub seen: usize,
    pub failed: usize,
}

/// Why a run failed.
#[derive(Debug, Clone, Copy, PartialEq, Eq, Structural)]
pub enum BatchError {
    /// Some file failed; it holds how many.
    Failures(usize),
}

impl Batch {
    pub open spec fn wf(&self) -> bool {
        self.failed <= self.seen <= self.total
    }

    /// A tally of `total` files, none seen yet.
    pub fn new(total: usize) -> (r: Batch)
        ensures
            r.wf(),
            r == (Batch { total, seen: 0, failed: 0 }),
    {
        Batch { total, seen: 0, failed: 0 }
    }

    /// Counts one more file, and whether it failed; every later file is still
    /// counted, whatever came before.
    pub fn record(&mut self, ok: bool)
        requires
            old(self).wf(),
            old(self).seen < old(self).total,
        ensures
            final(self).wf(),
            final(self).total == old(self).total,
            final(self).seen == old(self).seen + 1,
            final(self).failed == old(self).failed + if ok { 0int } else { 1int },
    {
        self.seen = self.seen + 1;
        if !ok {
            self.failed = self.failed + 1;
        }
    }

    /// Whether every file has been seen.
    pub fn is_finished(&self) -> (r: bool)
        ensures
            r == (self.seen == self.total),
    {
        self.seen == self.total
    }

    /// The result of the run: a failure where any file failed.
    pub fn finish(&self) -> (r: Result<(), BatchError>)
        ensures
            self.failed == 0 ==> r == Ok::<(), BatchError>(()),
            self.failed > 0 ==> r == Err::<(), BatchError>(BatchError::Failures(self.failed)),
    {
        if self.failed == 0 {
            Ok(())
        } else {
            Err(BatchError::Failures(self.failed))
        }
    }
}

} // verus!
