//! The export pipeline as a state machine.
//!
//! The machine decides; the caller acts. Each call of [`Export::step`] takes
//! the outcome of the last action and returns the next one: make the working
//! directory, cut a segment, write the manifest, join, copy, clean up, finish.
//! Every run that got past its start passes through the cleanup action before
//! it finishes, and a failed run lists for removal every output file it had
//! begun to write.
use vstd::prelude::*;
use crate::error::{ExportError, ExportResult, success_text};
use crate::segment::{Segment, sort_segments, sorted_by_start};
use crate::target::{OutputTarget, file_name_for, join_path, joined, output_name, views};
use crate::timecode::{digits, push_decimal};
use crate::tool::{concat_args, concat_command, cut_args, cut_command, manifest_of, manifest_text};

verus! {

/// Where a run stands.
#[derive(Clone, Copy, Debug, PartialEq, Eq, Structural)]
pub enum Phase {
    Begin,
    MakingDir,
    /// Cutting the segment at this position of the sorted list.
    Cutting(usize),
    WritingManifest,
    Joining,
    /// Copying the cut segment at this position to its destination.
    Copying(usize),
    CleaningUp,
    Done,
}

/// What the caller does next.
#[derive(Clone, Copy, Debug, PartialEq, Eq, Structural)]
pub enum Action {
    /// Create the working directory.
    MakeDir,
    /// Run the tool with [`Export::cut_args_for`] of this position.
    Cut(usize),
    /// Write [`Export::manifest`] to [`Export::manifest_path`].
    WriteManifest,
    /// Run the tool with [`Export::join_args`].
    Join,
    /// Copy [`Export::temp_path`] of this position to [`Export::destination`].
    Copy(usize),
    /// Remove each of [`Export::cleanup_paths`], then the working directory
    /// with all it holds; failures there are ignored.
    Clean,
    /// Stop; [`Export::finish`] gives the outcome.
    Finish,
}

/// The outcome of the last action.
pub enum Event {
    /// It succeeded.
    Completed,
    /// The tool ran and exited with a failure status; its error stream.
    ToolFailed(String),
    /// The tool could not be started.
    LaunchFailed(String),
    /// A file system operation failed.
    IoFailed(String),
}

/// The state of one export run.
pub struct Export {
    pub input: String,
    pub target: OutputTarget,
    /// The segments, in ascending order of start.
    pub segments: Vec<Segment>,
    pub work_dir: String,
    pub phase: Phase,
    /// How many segments have been cut into the working directory.
    pub cut: usize,
    /// How many destination files have begun to be written.
    pub written: usize,
    pub failure: Option<ExportError>,
}

/// The action that belongs to each phase.
pub open spec fn action_of(p: Phase) -> Action {
    match p {
        Phase::Begin => Action::Finish,
        Phase::MakingDir => Action::MakeDir,
        Phase::Cutting(i) => Action::Cut(i),
        Phase::WritingManifest => Action::WriteManifest,
        Phase::Joining => Action::Join,
        Phase::Copying(k) => Action::Copy(k),
        Phase::CleaningUp => Action::Clean,
        Phase::Done => Action::Finish,
    }
}

/// The first phase of the output stage.
pub open spec fn assembly_phase(n: nat, merge: bool) -> Phase {
    if merge && n > 1 { Phase::WritingManifest } else { Phase::Copying(0) }
}

/// The phase after `p`, where the last action succeeded or not (`ok`), for
/// `n` segments.
pub open spec fn next_phase(p: Phase, ok: bool, n: nat, merge: bool) -> Phase {
    match p {
        Phase::Begin => if n == 0 { Phase::Done } else { Phase::MakingDir },
        Phase::MakingDir => if ok { Phase::Cutting(0) } else { Phase::CleaningUp },
        Phase::Cutting(i) => if !ok {
            Phase::CleaningUp
        } else if i + 1 < n {
            Phase::Cutting((i + 1) as usize)
        } else {
            assembly_phase(n, merge)
        },
        Phase::WritingManifest => if ok { Phase::Joining } else { Phase::CleaningUp },
        Phase::Joining => Phase::CleaningUp,
        Phase::Copying(k) => if ok && !merge && k + 1 < n {
            Phase::Copying((k + 1) as usize)
        } else {
            Phase::CleaningUp
        },
        Phase::CleaningUp => Phase::Done,
        Phase::Done => Phase::Done,
    }
}

/// The phase performs an action whose failure fails the run.
pub open spec fn is_working(p: Phase) -> bool {
    match p {
        Phase::MakingDir | Phase::Cutting(_) | Phase::WritingManifest | Phase::Joining
        | Phase::Copying(_) => true,
        _ => false,
    }
}

/// The error that the outcome `e` of the action of phase `p` reports, if any.
pub open spec fn failure_for(p: Phase, e: Event) -> Option<ExportError> {
    match e {
        Event::ToolFailed(d) => Some(
            match p {
                Phase::Cutting(i) => ExportError::SegmentFailure {
                    index: (i + 1) as usize,
                    diagnostic: d,
                },
                _ => ExportError::AssemblyFailure(d),
            },
        ),
        Event::LaunchFailed(m) => Some(ExportError::ToolLaunchFailure(m)),
        Event::IoFailed(m) => Some(ExportError::Io(m)),
        Event::Completed => None,
    }
}

/// The destination files that have begun to be written once phase `p` is entered.
pub open spec fn written_in(p: Phase, before: nat) -> nat {
    match p {
        Phase::Copying(k) => (k + 1) as nat,
        Phase::Joining => 1,
        _ => before,
    }
}

/// The path of the k-th cut segment in the working directory.
pub open spec fn temp_path_of(dir: Seq<char>, k: nat) -> Seq<char> {
    joined(dir, seq!['s', 'e', 'g', 'm', 'e', 'n', 't', '_'] + digits(k) + seq!['.', 'm', 'p', '4'])
}

/// The paths of the first `n` cut segments.
pub open spec fn temp_paths(dir: Seq<char>, n: nat) -> Seq<Seq<char>> {
    Seq::new(n, |k: int| temp_path_of(dir, k as nat))
}

/// The path of the manifest in the working directory.
pub open spec fn manifest_path_of(dir: Seq<char>) -> Seq<char> {
    joined(dir, "concat_list.txt"@)
}

/// The output file of the k-th segment.
pub open spec fn destination_of(t: OutputTarget, k: nat) -> Seq<char> {
    match t {
        OutputTarget::Merge(p) => p@,
        OutputTarget::Split { dir, names } => joined(dir@, output_name(views(names@), k)),
    }
}

/// The output files of the first `n` segments.
pub open spec fn destinations(t: OutputTarget, n: nat) -> Seq<Seq<char>> {
    Seq::new(n, |k: int| destination_of(t, k as nat))
}

impl Export {
    pub open spec fn merging(&self) -> bool {
        self.target is Merge
    }

    pub open spec fn n(&self) -> nat {
        self.segments@.len()
    }

    /// The state is one that a run reaches.
    pub open spec fn wf(&self) -> bool {
        let n = self.n();
        &&& n < usize::MAX
        &&& sorted_by_start(self.segments@)
        &&& self.cut <= n
        &&& self.written <= n
        &&& (self.failure is Some ==> (self.phase is CleaningUp || self.phase is Done))
        &&& match self.phase {
            Phase::Begin => self.cut == 0 && self.written == 0,
            Phase::MakingDir => self.cut == 0 && self.written == 0 && n > 0,
            Phase::Cutting(i) => i < n && self.cut == i && self.written == 0,
            Phase::WritingManifest => self.merging() && n > 1 && self.cut == n
                && self.written == 0,
            Phase::Joining => self.merging() && n > 1 && self.cut == n && self.written == 1,
            Phase::Copying(k) => k < n && self.cut == n && self.written == k + 1
                && (self.merging() ==> n == 1),
            _ => true,
        }
    }

    /// A run over `segments`, which it takes in ascending order of start.
    pub fn new(input: String, target: OutputTarget, segments: &Vec<Segment>, work_dir: String) -> (r: Export)
        requires
            segments@.len() < usize::MAX,
        ensures
            r.wf(),
            r.input == input,
            r.target == target,
            r.work_dir == work_dir,
            r.segments@.to_multiset() == segments@.to_multiset(),
            r.phase == Phase::Begin,
            r.failure is None,
    {
        let sorted = sort_segments(segments);
        proof {
            broadcast use vstd::seq_lib::group_to_multiset_ensures;
            assert(sorted@.len() == sorted@.to_multiset().len());
        }
        Export {
            input,
            target,
            segments: sorted,
            work_dir,
            phase: Phase::Begin,
            cut: 0,
            written: 0,
            failure: None,
        }
    }

    /// Takes the outcome of the last action (ignored at the start and at the
    /// cleanup) and returns the next action.
    pub fn step(&mut self, event: Event) -> (a: Action)
        requires
            old(self).wf(),
        ensures
            final(self).wf(),
            final(self).phase == next_phase(
                old(self).phase,
                event is Completed,
                old(self).n(),
                old(self).merging(),
            ),
            a == action_of(final(self).phase),
            final(self).input == old(self).input,
            final(self).target == old(self).target,
            final(self).segments == old(self).segments,
            final(self).work_dir == old(self).work_dir,
            final(self).cut == (if old(self).phase is Cutting && event is Completed {
                old(self).cut + 1
            } else {
                old(self).cut as int
            }),
            final(self).written == written_in(final(self).phase, old(self).written as nat),
            final(self).failure == (if old(self).phase is Begin && old(self).n() == 0 {
                Some(ExportError::NoSegments)
            } else if is_working(old(self).phase) && !(event is Completed) {
                failure_for(old(self).phase, event)
            } else {
                old(self).failure
            }),
    {
        let n = self.segments.len();
        let merge = match &self.target {
            OutputTarget::Merge(_) => true,
            OutputTarget::Split { .. } => false,
        };
        let next = match self.phase {
            Phase::Begin => {
                if n == 0 {
                    self.failure = Some(ExportError::NoSegments);
                    Phase::Done
                } else {
                    Phase::MakingDir
                }
            },
            Phase::CleaningUp => Phase::Done,
            Phase::Done => Phase::Done,
            phase => {
                match event {
                    Event::Completed => match phase {
                        Phase::MakingDir => Phase::Cutting(0),
                        Phase::Cutting(i) => {
                            self.cut = i + 1;
                            if i + 1 < n {
                                Phase::Cutting(i + 1)
                            } else if merge && n > 1 {
                                Phase::WritingManifest
                            } else {
                                self.written = 1;
                                Phase::Copying(0)
                            }
                        },
                        Phase::WritingManifest => {
                            self.written = 1;
                            Phase::Joining
                        },
                        Phase::Copying(k) => {
                            if !merge && k + 1 < n {
                                self.written = k + 2;
                                Phase::Copying(k + 1)
                            } else {
                                Phase::CleaningUp
                            }
                        },
                        _ => Phase::CleaningUp,
                    },
                    Event::ToolFailed(d) => {
                        self.failure = Some(
                            match phase {
                                Phase::Cutting(i) => ExportError::SegmentFailure {
                                    index: i + 1,
                                    diagnostic: d,
                                },
                                _ => ExportError::AssemblyFailure(d),
                            },
                        );
                        Phase::CleaningUp
                    },
                    Event::LaunchFailed(m) => {
                        self.failure = Some(ExportError::ToolLaunchFailure(m));
                        Phase::CleaningUp
                    },
                    Event::IoFailed(m) => {
                        self.failure = Some(ExportError::Io(m));
                        Phase::CleaningUp
                    },
                }
            },
        };
        self.phase = next;
        match next {
            Phase::Begin => Action::Finish,
            Phase::MakingDir => Action::MakeDir,
            Phase::Cutting(i) => Action::Cut(i),
            Phase::WritingManifest => Action::WriteManifest,
            Phase::Joining => Action::Join,
            Phase::Copying(k) => Action::Copy(k),
            Phase::CleaningUp => Action::Clean,
            Phase::Done => Action::Finish,
        }
    }

    /// The path of the k-th cut segment.
    pub fn temp_path(&self, k: usize) -> (r: String)
        ensures
            r@ == temp_path_of(self.work_dir@, k as nat),
    {
        proof {
            reveal_strlit("segment_");
            reveal_strlit(".mp4");
        }
        let mut name = String::from_str("segment_");
        push_decimal(&mut name, k as u64);
        name.append(".mp4");
        assert(name@ =~= seq!['s', 'e', 'g', 'm', 'e', 'n', 't', '_'] + digits(k as nat) + seq![
            '.',
            'm',
            'p',
            '4',
        ]);
        join_path(self.work_dir.as_str(), name.as_str())
    }

    /// The tool's arguments for cutting the k-th segment of the sorted list.
    pub fn cut_args_for(&self, k: usize) -> (r: Vec<String>)
        requires
            k < self.segments@.len(),
        ensures
            views(r@) == cut_command(
                self.segments@[k as int].start as nat,
                (if self.segments@[k as int].end > self.segments@[k as int].start {
                    self.segments@[k as int].end - self.segments@[k as int].start
                } else {
                    0
                }) as nat,
                self.input@,
                temp_path_of(self.work_dir@, k as nat),
            ),
    {
        let seg = self.segments[k];
        let out = self.temp_path(k);
        cut_args(seg.start, seg.duration(), self.input.as_str(), out.as_str())
    }

    /// The path of the manifest.
    pub fn manifest_path(&self) -> (r: String)
        ensures
            r@ == manifest_path_of(self.work_dir@),
    {
        join_path(self.work_dir.as_str(), "concat_list.txt")
    }

    /// The paths of the segments cut so far, in order.
    pub fn temp_paths(&self) -> (r: Vec<String>)
        ensures
            views(r@) == temp_paths(self.work_dir@, self.cut as nat),
    {
        let mut v: Vec<String> = Vec::new();
        let mut k: usize = 0;
        while k < self.cut
            invariant
                k <= self.cut,
                views(v@) == temp_paths(self.work_dir@, k as nat),
            decreases self.cut - k,
        {
            let p = self.temp_path(k);
            let ghost before = views(v@);
            let ghost pv = p@;
            v.push(p);
            assert(views(v@) =~= before.push(pv));
            k = k + 1;
            assert(views(v@) =~= temp_paths(self.work_dir@, k as nat));
        }
        v
    }

    /// The manifest that lists the cut segments in order.
    pub fn manifest(&self) -> (r: String)
        ensures
            r@ == manifest_of(temp_paths(self.work_dir@, self.cut as nat)),
    {
        manifest_text(&self.temp_paths())
    }

    /// The output file of the k-th segment: the merged file, or the directory
    /// joined with the segment's file name.
    pub fn destination(&self, k: usize) -> (r: String)
        requires
            k < usize::MAX,
        ensures
            r@ == destination_of(self.target, k as nat),
    {
        match &self.target {
            OutputTarget::Merge(p) => p.clone(),
            OutputTarget::Split { dir, names } => {
                let name = file_name_for(names, k);
                join_path(dir.as_str(), name.as_str())
            },
        }
    }

    /// The tool's arguments for joining the cut segments into the merged file.
    pub fn join_args(&self) -> (r: Vec<String>)
        ensures
            views(r@) == concat_command(
                manifest_path_of(self.work_dir@),
                destination_of(self.target, 0),
            ),
    {
        let m = self.manifest_path();
        let out = self.destination(0);
        concat_args(m.as_str(), out.as_str())
    }

    /// The files to remove at the cleanup: every cut segment and, where the
    /// run failed, every output file it had begun to write.
    pub fn cleanup_paths(&self) -> (r: Vec<String>)
        requires
            self.wf(),
        ensures
            views(r@) == temp_paths(self.work_dir@, self.cut as nat) + (if self.failure is Some {
                destinations(self.target, self.written as nat)
            } else {
                Seq::empty()
            }),
    {
        let mut v = self.temp_paths();
        let ghost temps = views(v@);
        if self.failure.is_some() {
            let mut k: usize = 0;
            while k < self.written
                invariant
                    k <= self.written <= self.segments@.len() < usize::MAX,
                    views(v@) == temps + destinations(self.target, k as nat),
                decreases self.written - k,
            {
                let d = self.destination(k);
                let ghost before = views(v@);
                let ghost dv = d@;
                v.push(d);
                assert(views(v@) =~= before.push(dv));
                k = k + 1;
                assert(views(v@) =~= temps + destinations(self.target, k as nat));
            }
        } else {
            assert(views(v@) =~= temps + Seq::<Seq<char>>::empty());
        }
        v
    }

    /// The outcome of the run: its failure, or the result of a run that wrote
    /// all of its output.
    pub fn finish(self) -> (r: Result<ExportResult, ExportError>)
        ensures
            self.failure is Some ==> r == Err::<ExportResult, ExportError>(self.failure->Some_0),
            self.failure is None ==> (r is Ok && r->Ok_0.success
                && r->Ok_0.message@ == success_text()),
    {
        match self.failure {
            Some(e) => Err(e),
            None => Ok(ExportResult::exported()),
        }
    }
}

/// A run that got past its start finishes only from the cleanup phase, and a
/// failure at any working phase leads straight to the cleanup.
pub proof fn lemma_cleanup_before_finish(p: Phase, ok: bool, n: nat, merge: bool)
    ensures
        p != Phase::Begin && p != Phase::Done && next_phase(p, ok, n, merge) == Phase::Done
            ==> p == Phase::CleaningUp,
        is_working(p) ==> next_phase(p, false, n, merge) == Phase::CleaningUp,
        next_phase(Phase::CleaningUp, ok, n, merge) == Phase::Done,
{
}

/// The join runs at most once per run: it is entered only from writing the
/// manifest, which follows the last cut in merge mode with two segments or
/// more, and whatever its outcome the cleanup follows it.
pub proof fn lemma_single_join(p: Phase, ok: bool, n: nat, merge: bool)
    ensures
        next_phase(p, ok, n, merge) == Phase::Joining ==> p == Phase::WritingManifest && ok,
        next_phase(p, ok, n, merge) == Phase::WritingManifest ==> (p is Cutting && ok && merge
            && n > 1 && p->Cutting_0 + 1 >= n),
        next_phase(Phase::Joining, ok, n, merge) == Phase::CleaningUp,
{
}

/// A failed cut stops the cutting: no later segment is cut, the error names
/// the failed segment's 1-based position, and the cleanup comes next.
pub proof fn lemma_failed_cut_stops(i: usize, e: Event, n: nat, merge: bool)
    requires
        !(e is Completed),
    ensures
        next_phase(Phase::Cutting(i), false, n, merge) == Phase::CleaningUp,
        e is ToolFailed ==> failure_for(Phase::Cutting(i), e) == Some(
            ExportError::SegmentFailure { index: (i + 1) as usize, diagnostic: e->ToolFailed_0 },
        ),
{
}

/// Segments are cut in ascending order of start: the k-th cut, which
/// [`Export::cut_args_for`] describes and which the manifest lists k-th, is of
/// the k-th smallest start.
pub proof fn lemma_cut_order(e: Export, i: int, j: int)
    requires
        e.wf(),
        0 <= i < j < e.n(),
    ensures
        e.segments@[i].start <= e.segments@[j].start,
        temp_paths(e.work_dir@, e.n())[i] == temp_path_of(e.work_dir@, i as nat),
        temp_paths(e.work_dir@, e.n())[j] == temp_path_of(e.work_dir@, j as nat),
{
}

} // verus!
