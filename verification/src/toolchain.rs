//! The single-shot compile pipeline: a `Toolchain` drives exactly one
//! build of one sketch, and a paired `BuildLogReader` hands out the build
//! log incrementally while the build is in flight.
//!
//! The external work — probing the resource directory, extracting
//! resources, invoking the build system — is performed by the embedding
//! I/O layer, which reports its findings as plain values: an
//! [`EnvironmentProbe`] at construction, a [`BuildOutcome`] at the end of
//! the build, and log bytes streamed into the reader in between. What the
//! pipeline decides from those values is verified here.

use vstd::prelude::*;

use crate::sketch::Sketch;

verus! {

/// Everything that can go wrong constructing a toolchain or compiling a
/// sketch with it.
#[derive(Debug, Clone, Copy, PartialEq, Eq, Structural)]
#[non_exhaustive]
pub enum ToolchainError {
    ResDirExtract,
    ResdirAbsent,
    ResdirEmpty,
    CmakeNotFound,
    CmakeUnknownOutput,
    CmakeFailing,
    SketchInvalid,
    ConfigureFailed,
    BuildFailed,
    Generic,
}

/// What probing the toolchain environment found: whether the resource
/// directory exists, whether it is empty, and whether the build system
/// is on the path. Filled in by the embedding I/O layer.
#[derive(Debug, Clone, Copy, PartialEq, Eq, Structural)]
pub struct EnvironmentProbe {
    pub resource_dir_exists: bool,
    pub resource_dir_empty: bool,
    pub cmake_found: bool,
}

/// The result code one build run reported.
#[derive(Debug, Clone, Copy, PartialEq, Eq, Structural)]
pub enum BuildOutcome {
    Success,
    ResdirAbsent,
    ResdirFile,
    ResdirEmpty,
    CmakeNotFound,
    CmakeUnknownOutput,
    CmakeFailing,
    SketchInvalid,
    ConfigureFailed,
    BuildFailed,
    Generic,
}

/// How a build result code maps to the caller-visible compile result;
/// unrecognized failure codes collapse to the generic error.
pub open spec fn outcome_result(o: BuildOutcome) -> Result<(), ToolchainError> {
    match o {
        BuildOutcome::Success => Result::Ok(()),
        BuildOutcome::ResdirAbsent => Result::Err(ToolchainError::ResdirAbsent),
        BuildOutcome::ResdirEmpty => Result::Err(ToolchainError::ResdirEmpty),
        BuildOutcome::CmakeNotFound => Result::Err(ToolchainError::CmakeNotFound),
        BuildOutcome::CmakeUnknownOutput => Result::Err(ToolchainError::CmakeUnknownOutput),
        BuildOutcome::CmakeFailing => Result::Err(ToolchainError::CmakeFailing),
        BuildOutcome::SketchInvalid => Result::Err(ToolchainError::SketchInvalid),
        BuildOutcome::ConfigureFailed => Result::Err(ToolchainError::ConfigureFailed),
        BuildOutcome::BuildFailed => Result::Err(ToolchainError::BuildFailed),
        _ => Result::Err(ToolchainError::Generic),
    }
}

impl BuildOutcome {
    /// The caller-visible compile result for this build result code.
    pub fn to_result(self) -> (r: Result<(), ToolchainError>)
        ensures
            r == outcome_result(self),
    {
        match self {
            BuildOutcome::Success => Ok(()),
            BuildOutcome::ResdirAbsent => Err(ToolchainError::ResdirAbsent),
            BuildOutcome::ResdirEmpty => Err(ToolchainError::ResdirEmpty),
            BuildOutcome::CmakeNotFound => Err(ToolchainError::CmakeNotFound),
            BuildOutcome::CmakeUnknownOutput => Err(ToolchainError::CmakeUnknownOutput),
            BuildOutcome::CmakeFailing => Err(ToolchainError::CmakeFailing),
            BuildOutcome::SketchInvalid => Err(ToolchainError::SketchInvalid),
            BuildOutcome::ConfigureFailed => Err(ToolchainError::ConfigureFailed),
            BuildOutcome::BuildFailed => Err(ToolchainError::BuildFailed),
            _ => Err(ToolchainError::Generic),
        }
    }
}

/// A handle to the build log of one compile run: an append-only byte
/// buffer, a read cursor, and a finished flag that only flips once the
/// paired compile has returned.
#[derive(Debug)]
pub struct BuildLogReader {
    data: Vec<u8>,
    cursor: usize,
    finished: bool,
}

impl BuildLogReader {
    /// Every byte logged so far.
    pub closed spec fn spec_data(&self) -> Seq<u8> {
        self.data@
    }

    /// How many logged bytes have already been handed out.
    pub closed spec fn spec_cursor(&self) -> int {
        self.cursor as int
    }

    /// Whether the paired compile has returned.
    pub closed spec fn spec_finished(&self) -> bool {
        self.finished
    }

    /// The read cursor never runs past the log.
    pub open spec fn wf(&self) -> bool {
        0 <= self.spec_cursor() <= self.spec_data().len()
    }

    /// A fresh, empty, connected log.
    pub(crate) fn new() -> (r: BuildLogReader)
        ensures
            r.wf(),
            r.spec_data().len() == 0,
            r.spec_cursor() == 0,
            !r.spec_finished(),
    {
        BuildLogReader { data: Vec::new(), cursor: 0, finished: false }
    }

    /// Stream bytes the build has produced into the log. Fails once the
    /// log is finished; the embedding layer calls this while the build
    /// is in flight.
    pub fn append(&mut self, bytes: &[u8]) -> (r: bool)
        requires
            old(self).wf(),
        ensures
            final(self).wf(),
            r == !old(self).spec_finished(),
            !r ==> *final(self) == *old(self),
            r ==> final(self).spec_data() == old(self).spec_data() + bytes@,
            r ==> final(self).spec_cursor() == old(self).spec_cursor(),
            r ==> final(self).spec_finished() == old(self).spec_finished(),
    {
        if self.finished {
            return false;
        }
        let mut j: usize = 0;
        while j < bytes.len()
            invariant
                j <= bytes@.len(),
                self.data@ == old(self).data@ + bytes@.take(j as int),
                self.cursor == old(self).cursor,
                self.finished == old(self).finished,
                self.cursor <= old(self).data@.len(),
            decreases bytes@.len() - j,
        {
            let b = bytes[j];
            self.data.push(b);
            proof {
                assert(bytes@.take(j + 1) =~= bytes@.take(j as int).push(bytes@[j as int]));
            }
            j = j + 1;
        }
        proof {
            assert(bytes@.take(bytes@.len() as int) =~= bytes@);
        }
        true
    }

    /// Drain up to `max` log bytes that have not been read yet.
    /// Non-blocking: an empty result only means nothing new is buffered
    /// right now, not that the log is over.
    pub fn read(&mut self, max: usize) -> (r: Vec<u8>)
        requires
            old(self).wf(),
        ensures
            final(self).wf(),
            r@.len() == vstd::math::min(
                max as int,
                old(self).spec_data().len() - old(self).spec_cursor(),
            ),
            r@ == old(self).spec_data().subrange(
                old(self).spec_cursor(),
                old(self).spec_cursor() + r@.len(),
            ),
            final(self).spec_data() == old(self).spec_data(),
            final(self).spec_cursor() == old(self).spec_cursor() + r@.len(),
            final(self).spec_finished() == old(self).spec_finished(),
    {
        let avail = self.data.len() - self.cursor;
        let take = if max < avail {
            max
        } else {
            avail
        };
        let mut out: Vec<u8> = Vec::new();
        let mut j: usize = 0;
        while j < take
            invariant
                j <= take,
                self.cursor + take <= self.data@.len() <= usize::MAX,
                out@.len() == j,
                out@ == self.data@.subrange(self.cursor as int, self.cursor + j),
                *self == *old(self),
            decreases take - j,
        {
            out.push(self.data[self.cursor + j]);
            j = j + 1;
        }
        self.cursor = self.cursor + take;
        out
    }

    /// Whether the paired compile has returned. A consumer that wants the
    /// whole log keeps draining until this is true *and* one further read
    /// comes back empty.
    pub fn disconnected(&self) -> (r: bool)
        ensures
            r == self.spec_finished(),
    {
        self.finished
    }

    /// Mark the log finished: the paired compile has returned.
    pub(crate) fn finish(&mut self)
        requires
            old(self).wf(),
        ensures
            final(self).wf(),
            final(self).spec_finished(),
            final(self).spec_data() == old(self).spec_data(),
            final(self).spec_cursor() == old(self).spec_cursor(),
    {
        self.finished = true;
    }
}

/// The drain protocol loses nothing: once a reader is disconnected, a
/// read asking for at least one byte that comes back empty proves every
/// logged byte has been handed out — and, the log being finished, no
/// more can arrive. Checking in the other order (a final read before
/// observing the flag) can drop a trailing chunk.
pub proof fn lemma_drained_after_disconnect(log: BuildLogReader, asked: int, got: int)
    requires
        log.wf(),
        log.spec_finished(),
        asked >= 1,
        got == vstd::math::min(asked, log.spec_data().len() - log.spec_cursor()),
        got == 0,
    ensures
        log.spec_cursor() == log.spec_data().len(),
{
}

/// A toolchain ready to drive exactly one build. Obtaining a second
/// build takes constructing a second toolchain: `compile` consumes the
/// value.
#[derive(Debug)]
pub struct Toolchain {
    home_dir: String,
}

impl Toolchain {
    /// The resource directory this toolchain builds against.
    pub closed spec fn spec_home_dir(&self) -> Seq<char> {
        self.home_dir@
    }

    /// The resource directory this toolchain builds against.
    pub fn home_dir(&self) -> (r: &String)
        ensures
            r@ == self.spec_home_dir(),
    {
        &self.home_dir
    }

    /// Construct a toolchain over a resource directory, judging the
    /// probe of the environment the embedding layer supplies: the
    /// resource directory must exist and not be empty, and the build
    /// system must be on the path. Failures surface here, before any
    /// compile attempt.
    pub fn new(home_dir: String, env: EnvironmentProbe) -> (r: Result<
        (Toolchain, BuildLogReader),
        ToolchainError,
    >)
        ensures
            !env.resource_dir_exists ==> r == Result::<(Toolchain, BuildLogReader),
                ToolchainError,
            >::Err(ToolchainError::ResdirAbsent),
            env.resource_dir_exists && env.resource_dir_empty ==> r == Result::<
                (Toolchain, BuildLogReader),
                ToolchainError,
            >::Err(ToolchainError::ResdirEmpty),
            env.resource_dir_exists && !env.resource_dir_empty && !env.cmake_found ==> r
                == Result::<(Toolchain, BuildLogReader), ToolchainError>::Err(
                ToolchainError::CmakeNotFound,
            ),
            (r is Ok) <==> (env.resource_dir_exists && !env.resource_dir_empty
                && env.cmake_found),
            r is Ok ==> (r->Ok_0).0.spec_home_dir() == home_dir@,
            r is Ok ==> (r->Ok_0).1.wf() && (r->Ok_0).1.spec_data().len() == 0 && (
            r->Ok_0).1.spec_cursor() == 0 && !(r->Ok_0).1.spec_finished(),
    {
        if !env.resource_dir_exists {
            return Err(ToolchainError::ResdirAbsent);
        }
        if env.resource_dir_empty {
            return Err(ToolchainError::ResdirEmpty);
        }
        if !env.cmake_found {
            return Err(ToolchainError::CmakeNotFound);
        }
        Ok((Toolchain { home_dir }, BuildLogReader::new()))
    }

    /// Conclude one build of `sketch`, consuming the toolchain, from the
    /// result code the build run reported. Exactly on success the sketch
    /// becomes compiled; on failure it is left untouched. Either way the
    /// paired log is marked finished, so its consumer can stop draining.
    pub fn compile(
        self,
        sketch: &mut Sketch,
        outcome: BuildOutcome,
        log: &mut BuildLogReader,
    ) -> (r: Result<(), ToolchainError>)
        requires
            old(log).wf(),
        ensures
            r == outcome_result(outcome),
            (r is Ok) <==> outcome == BuildOutcome::Success,
            outcome == BuildOutcome::Success ==> final(sketch).spec_compiled(),
            outcome == BuildOutcome::Success ==> final(sketch).spec_source() == old(
                sketch,
            ).spec_source(),
            outcome == BuildOutcome::Success ==> final(sketch).spec_config() == old(
                sketch,
            ).spec_config(),
            outcome == BuildOutcome::Success ==> final(sketch).spec_uuid() == old(
                sketch,
            ).spec_uuid(),
            outcome != BuildOutcome::Success ==> *final(sketch) == *old(sketch),
            final(log).wf(),
            final(log).spec_finished(),
            final(log).spec_data() == old(log).spec_data(),
            final(log).spec_cursor() == old(log).spec_cursor(),
    {
        let r = outcome.to_result();
        if r.is_ok() {
            sketch.mark_compiled();
        }
        log.finish();
        r
    }
}

} // verus!
