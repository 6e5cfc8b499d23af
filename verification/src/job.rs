//! The job runner: starting a conversion job, resetting the shared
//! progress fraction before the engine produces anything, and forwarding
//! the engine's terminal result — handing rendered rows to the output
//! writer when the job type calls for explicit persistence.
//!
//! The conversion engine itself is an external collaborator: the caller
//! runs it and hands its progress reports and terminal outcome back to the
//! runner, which takes every decision here under its contracts.

use vstd::prelude::*;
use crate::output::{exists_message, prepare_write, render_rows_spec};
use crate::progress::{ProgressFraction, ProgressState, PROGRESS_SCALE};

verus! {

/// Destination path plus overwrite policy for persisted output.
pub struct OutputTarget {
    pub path: String,
    pub overwrite: bool,
}

/// Parameters of a single-image job.
pub struct ImageConfig {
    pub source_path: String,
    pub target: OutputTarget,
}

/// Parameters of a video job.
pub struct VideoConfig {
    pub source_path: String,
    pub target: OutputTarget,
}

/// The parameter bundle of one conversion job. The two variants are not
/// substitutable, but they share the output-writing contract.
pub enum JobConfig {
    Image(ImageConfig),
    Video(VideoConfig),
}

impl JobConfig {
    /// Where this job's output goes.
    pub open spec fn spec_target(self) -> OutputTarget {
        match self {
            JobConfig::Image(c) => c.target,
            JobConfig::Video(c) => c.target,
        }
    }

    /// The media source this job reads.
    pub open spec fn spec_source(self) -> Seq<char> {
        match self {
            JobConfig::Image(c) => c.source_path@,
            JobConfig::Video(c) => c.source_path@,
        }
    }

    /// Where this job's output goes.
    pub fn target(&self) -> (t: &OutputTarget)
        ensures
            *t == self.spec_target(),
    {
        match self {
            JobConfig::Image(c) => &c.target,
            JobConfig::Video(c) => &c.target,
        }
    }

    /// The media source this job reads.
    pub fn source(&self) -> (s: &String)
        ensures
            s@ == self.spec_source(),
    {
        match self {
            JobConfig::Image(c) => &c.source_path,
            JobConfig::Video(c) => &c.source_path,
        }
    }
}

/// Where the runner stands in one job's lifetime.
#[derive(Clone, Copy, PartialEq, Eq, Structural, Debug)]
pub enum JobPhase {
    Idle,
    Running,
    Completed,
    Failed,
}

/// What the conversion engine hands back when it returns.
pub enum EngineOutcome {
    /// The job finished and these rows still need explicit persistence:
    /// the runner hands them to the output writer.
    Rendered(Vec<Vec<String>>),
    /// The job finished and the engine already persisted the output per
    /// its internal stage, as a video job's engine does.
    Persisted,
    /// The engine failed — unreadable source, decode failure, unsupported
    /// format — with a description to surface as is.
    Failed(String),
}

/// Orchestrates one conversion job at a time: sole writer of the shared
/// progress state, holder of the running job's configuration.
pub struct JobRunner {
    pub progress: ProgressState,
    pub phase: JobPhase,
    pub config: Option<JobConfig>,
}

impl JobRunner {
    /// The progress fraction lies in [0, 1], and a running job always has
    /// its configuration at hand.
    pub open spec fn wf(self) -> bool {
        &&& self.progress.wf()
        &&& (self.phase is Running ==> self.config is Some)
    }

    /// The configuration of the running job.
    pub open spec fn spec_config(self) -> JobConfig {
        self.config->0
    }

    /// A runner with no job yet: idle, no progress reported.
    pub fn new() -> (r: JobRunner)
        ensures
            r.wf(),
            r.phase is Idle,
            r.progress.current.units == 0,
    {
        JobRunner { progress: ProgressState::new(), phase: JobPhase::Idle, config: None }
    }

    /// Begin a job. Before the engine is invoked — so before the first row
    /// can be produced — the shared progress fraction is brought back to
    /// 0.0, so that an observer cannot read a stale value from a previous
    /// job and believe this one already finished. Only one job runs at a
    /// time: a runner whose job is still running cannot start another.
    pub fn start_job(&mut self, config: JobConfig)
        requires
            old(self).wf(),
            !(old(self).phase is Running),
        ensures
            final(self).wf(),
            final(self).phase is Running,
            final(self).progress.current.units == 0,
            final(self).config == Some(config),
    {
        self.progress.reset();
        self.config = Some(config);
        self.phase = JobPhase::Running;
    }

    /// Record that the engine has finished `done` of `total` pieces of
    /// work. The shared fraction only ever moves forward, and never past
    /// 1.0.
    pub fn report_progress(&mut self, done: u64, total: u64)
        requires
            old(self).wf(),
            old(self).phase is Running,
            0 < total,
            done <= total,
        ensures
            final(self).wf(),
            final(self).phase == old(self).phase,
            final(self).config == old(self).config,
            final(self).progress.current.units == if done as int * PROGRESS_SCALE as int
                / total as int >= old(self).progress.current.units {
                done as int * PROGRESS_SCALE as int / total as int
            } else {
                old(self).progress.current.units as int
            },
            old(self).progress.current.units <= final(self).progress.current.units,
    {
        let f = ProgressFraction::from_ratio(done, total);
        self.progress.advance(f);
    }

    /// Take the engine's terminal result and forward it to the caller.
    /// A failure is surfaced as is. On success the shared fraction is left
    /// at 1.0, so every observer terminates; rows that still need explicit
    /// persistence go through the output writer's overwrite guard, and
    /// `Ok(Some(text))` hands the caller the file's full new contents.
    pub fn finish_job(&mut self, outcome: EngineOutcome) -> (r: Result<Option<String>, String>)
        requires
            old(self).wf(),
            old(self).phase is Running,
        ensures
            final(self).wf(),
            final(self).config == old(self).config,
            r is Ok <==> final(self).phase is Completed,
            r is Err <==> final(self).phase is Failed,
            r is Ok ==> final(self).progress.current.units == PROGRESS_SCALE,
            outcome matches EngineOutcome::Failed(msg) ==> r matches Err(e) && e == msg,
            outcome is Persisted ==> r is Ok && r->Ok_0 is None,
            outcome matches EngineOutcome::Rendered(rows) ==> {
                &&& old(self).spec_config().spec_target().overwrite ==> r is Ok
                &&& r matches Ok(p) ==> p matches Some(text) && text@ == render_rows_spec(
                    rows.deep_view(),
                )
                &&& r matches Err(e) ==> e@ == exists_message(
                    old(self).spec_config().spec_target().path@,
                )
            },
    {
        match outcome {
            EngineOutcome::Failed(msg) => {
                self.phase = JobPhase::Failed;
                Err(msg)
            },
            EngineOutcome::Persisted => {
                self.progress.finish();
                self.phase = JobPhase::Completed;
                Ok(None)
            },
            EngineOutcome::Rendered(rows) => {
                let target = self.config.as_ref().unwrap().target();
                let path = target.path.clone();
                let overwrite = target.overwrite;
                match prepare_write(path.as_str(), overwrite, &rows) {
                    Ok(text) => {
                        self.progress.finish();
                        self.phase = JobPhase::Completed;
                        Ok(Some(text))
                    },
                    Err(e) => {
                        self.phase = JobPhase::Failed;
                        Err(e)
                    },
                }
            },
        }
    }
}

} // verus!
