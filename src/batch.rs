//! A batch run over a source tree: the decisions the driver takes as the
//! walk reports entries and the conversions report back, and the model of
//! what a run leaves in the output root.
use vstd::prelude::*;
use vstd::string::*;
use crate::converter::{ConvertError, WebPConverter};
use crate::filter::{is_supported, is_supported_path};
use crate::paths::output_location;

verus! {

/// Whether a walk entry is converted: it is a regular file and its
/// extension is accepted.
pub open spec fn selects(p: Seq<char>, is_file: bool) -> bool {
    is_file && is_supported(p)
}

/// The files converted for a walk that reported `entries` (path, whether a
/// regular file), in walk order.
pub open spec fn selected(entries: Seq<(Seq<char>, bool)>) -> Seq<Seq<char>>
    decreases entries.len(),
{
    if entries.len() == 0 {
        Seq::empty()
    } else {
        let prev = selected(entries.drop_last());
        let (p, is_file) = entries.last();
        if selects(p, is_file) {
            prev.push(p)
        } else {
            prev
        }
    }
}

/// What the output root holds after `sources` were converted in order:
/// each output file, and the source whose data it holds. A later source
/// overwrites an earlier one with the same output file.
pub open spec fn written(out_dir: Seq<char>, sources: Seq<Seq<char>>) -> Map<Seq<char>, Seq<char>>
    decreases sources.len(),
{
    if sources.len() == 0 {
        Map::empty()
    } else {
        written(out_dir, sources.drop_last()).insert(
            output_location(out_dir, sources.last()),
            sources.last(),
        )
    }
}

/// Where a run stands.
pub enum RunState {
    /// The walk is going on.
    Running,
    /// The walk has ended; the output root is being made sure to exist.
    Finishing,
    Completed,
    Failed(ConvertError),
}

/// Whether a run in this state has not ended.
pub open spec fn is_open_state(s: RunState) -> bool {
    s is Running || s is Finishing
}

/// A batch run: it starts running, finishes when the walk ends, completes
/// once the output root exists, and fails at the first error of any stage,
/// after which it takes no more events.
pub struct BatchRun {
    state: RunState,
    output_dir: String,
    entries: Ghost<Seq<(Seq<char>, bool)>>,
}

impl BatchRun {
    pub closed spec fn status(&self) -> RunState {
        self.state
    }

    /// The output root of the job the run is for.
    pub closed spec fn root(&self) -> Seq<char> {
        self.output_dir@
    }

    /// The entries the walk has reported while the run was going.
    pub closed spec fn seen(&self) -> Seq<(Seq<char>, bool)> {
        self.entries@
    }

    /// The files the run has asked to convert, in order.
    pub open spec fn to_convert(&self) -> Seq<Seq<char>> {
        selected(self.seen())
    }

    pub fn start(job: &WebPConverter) -> (r: BatchRun)
        ensures
            r.status() is Running,
            r.root() == job.output(),
            r.seen() == Seq::<(Seq<char>, bool)>::empty(),
    {
        BatchRun {
            state: RunState::Running,
            output_dir: String::from_str(job.output_dir()),
            entries: Ghost(Seq::empty()),
        }
    }

    pub fn is_running(&self) -> (r: bool)
        ensures
            r == (self.status() is Running),
    {
        match self.state {
            RunState::Running => true,
            _ => false,
        }
    }

    /// The walk reports an entry. Returns whether the file at `path` is to be
    /// converted now; a run that is over converts nothing.
    pub fn on_entry(&mut self, path: &str, is_file: bool) -> (r: bool)
        ensures
            old(self).status() is Running ==> r == selects(path@, is_file) && final(self).seen()
                == old(self).seen().push((path@, is_file)),
            !(old(self).status() is Running) ==> !r && final(self).seen() == old(self).seen(),
            final(self).status() == old(self).status(),
            final(self).root() == old(self).root(),
    {
        if !self.is_running() {
            return false;
        }
        self.entries = Ghost(self.entries@.push((path@, is_file)));
        is_file && is_supported_path(path)
    }

    /// Whether the run has not ended yet.
    pub fn is_open(&self) -> (r: bool)
        ensures
            r == is_open_state(self.status()),
    {
        match self.state {
            RunState::Running => true,
            RunState::Finishing => true,
            _ => false,
        }
    }

    /// A stage failed: the walk, a conversion, a directory creation or a
    /// write. The first failure ends the run.
    pub fn on_failure(&mut self, err: ConvertError)
        ensures
            is_open_state(old(self).status()) ==> final(self).status() == RunState::Failed(err),
            !is_open_state(old(self).status()) ==> final(self).status() == old(self).status(),
            final(self).seen() == old(self).seen(),
            final(self).root() == old(self).root(),
    {
        if self.is_open() {
            self.state = RunState::Failed(err);
        }
    }

    /// The walk has reported every entry. Returns the output root, which
    /// must exist before the run completes, even when nothing was converted.
    pub fn on_walk_end(&mut self) -> (r: Option<String>)
        ensures
            old(self).status() is Running ==> final(self).status() is Finishing,
            old(self).status() is Running ==> (r matches Some(d) && d@ == old(self).root()),
            !(old(self).status() is Running) ==> final(self).status() == old(self).status()
                && r is None,
            final(self).seen() == old(self).seen(),
            final(self).root() == old(self).root(),
    {
        if self.is_running() {
            self.state = RunState::Finishing;
            Some(String::from_str(self.output_dir.as_str()))
        } else {
            None
        }
    }

    /// The output root exists: a finishing run completes.
    pub fn on_root_ready(&mut self)
        ensures
            old(self).status() is Finishing ==> final(self).status() is Completed,
            !(old(self).status() is Finishing) ==> final(self).status() == old(self).status(),
            final(self).seen() == old(self).seen(),
            final(self).root() == old(self).root(),
    {
        if let RunState::Finishing = self.state {
            self.state = RunState::Completed;
        }
    }

    /// How the run ended: `None` while it is still going, `Ok` once
    /// completed, the first error once failed.
    pub fn outcome(self) -> (r: Option<Result<(), ConvertError>>)
        ensures
            is_open_state(self.status()) ==> r is None,
            self.status() is Completed ==> r == Some(Ok::<(), ConvertError>(())),
            forall|e: ConvertError|
                self.status() == RunState::Failed(e) ==> r == Some(Err::<(), ConvertError>(e)),
    {
        match self.state {
            RunState::Running => None,
            RunState::Finishing => None,
            RunState::Completed => Some(Ok(())),
            RunState::Failed(e) => Some(Err(e)),
        }
    }
}

} // verus!
