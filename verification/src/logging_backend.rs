//! A verified in-memory backend that records execution order.
//!
//! It implements the full backend contract: every executed command is
//! appended to a log in submission order, so a harness can compare the
//! log against the order in which commands were enqueued. It can be told
//! to refuse allocations or to fail a submission at a chosen command, to
//! exercise the error paths of the context.

use vstd::prelude::*;

use crate::backend::{Context3D, ResourceRequest};
use crate::commands::Context3DCommand;
use crate::error::{PresentError, ResourceAllocationError};
use crate::handles::SurfaceHandle;

verus! {

/// An in-memory recording backend.
pub struct LoggingBackend {
    log: Vec<Context3DCommand>,
    ready: bool,
    surface: SurfaceHandle,
    refuse_allocations: bool,
    fail_submissions_at: Option<usize>,
}

impl LoggingBackend {
    /// A fresh backend with the given surface: nothing executed, no frame
    /// ready, every allocation accepted, every submission executed whole.
    pub fn new(surface: SurfaceHandle) -> (r: LoggingBackend)
        ensures
            r.executed() == Seq::<Context3DCommand>::empty(),
            !r.frame_ready(),
            r.surface() == surface,
            forall|h: u64, req: ResourceRequest| r.accepts(h, req),
            forall|cs: Seq<Context3DCommand>| r.first_failure(cs) is None,
    {
        LoggingBackend {
            log: Vec::new(),
            ready: false,
            surface,
            refuse_allocations: false,
            fail_submissions_at: None,
        }
    }

    /// Makes every further allocation fail, as an exhausted backend would.
    pub fn refuse_allocations(&mut self)
        ensures
            final(self).executed() == old(self).executed(),
            final(self).frame_ready() == old(self).frame_ready(),
            final(self).surface() == old(self).surface(),
            forall|h: u64, req: ResourceRequest| !final(self).accepts(h, req),
            forall|cs: Seq<Context3DCommand>|
                final(self).first_failure(cs) == old(self).first_failure(cs),
    {
        self.refuse_allocations = true;
    }

    /// Makes every further submission fail at command `index` (when the
    /// submission is long enough to reach it), executing only the
    /// commands before it.
    pub fn fail_submissions_at(&mut self, index: usize)
        ensures
            final(self).executed() == old(self).executed(),
            final(self).frame_ready() == old(self).frame_ready(),
            final(self).surface() == old(self).surface(),
            forall|h: u64, req: ResourceRequest|
                final(self).accepts(h, req) == old(self).accepts(h, req),
            forall|cs: Seq<Context3DCommand>|
                final(self).first_failure(cs) == (if index < cs.len() {
                    Some(index)
                } else {
                    None::<usize>
                }),
    {
        self.fail_submissions_at = Some(index);
    }

    /// The commands executed so far, in execution order.
    pub fn log(&self) -> (r: &Vec<Context3DCommand>)
        ensures
            r@ == self.executed(),
    {
        &self.log
    }
}

impl Context3D for LoggingBackend {
    closed spec fn executed(&self) -> Seq<Context3DCommand> {
        self.log@
    }

    closed spec fn frame_ready(&self) -> bool {
        self.ready
    }

    closed spec fn surface(&self) -> SurfaceHandle {
        self.surface
    }

    closed spec fn accepts(&self, handle: u64, request: ResourceRequest) -> bool {
        !self.refuse_allocations
    }

    closed spec fn first_failure(&self, commands: Seq<Context3DCommand>) -> Option<usize> {
        match self.fail_submissions_at {
            Some(i) => if i < commands.len() {
                Some(i)
            } else {
                None
            },
            None => None,
        }
    }

    fn allocate(&mut self, handle: u64, request: ResourceRequest) -> (r: Result<
        (),
        ResourceAllocationError,
    >) {
        if self.refuse_allocations {
            Err(ResourceAllocationError)
        } else {
            Ok(())
        }
    }

    fn present_commands(&mut self, commands: Vec<Context3DCommand>) -> (r: Result<
        (),
        PresentError,
    >) {
        let mut commands = commands;
        let fail_at = self.fail_submissions_at;
        match fail_at {
            Some(i) if i < commands.len() => {
                commands.truncate(i);
                self.log.append(&mut commands);
                Err(PresentError { failed_index: i })
            },
            _ => {
                if commands.len() > 0 {
                    self.ready = true;
                }
                self.log.append(&mut commands);
                Ok(())
            },
        }
    }

    fn should_render(&self) -> (r: bool) {
        self.ready
    }

    fn current_surface_handle(&self) -> (r: SurfaceHandle) {
        self.surface
    }
}

} // verus!
