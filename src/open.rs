//! The sequence that opens a raw CAN socket: create, bind and, for an
//! FD-capable socket, enable FD frames. Every failure after the descriptor
//! exists closes it, so a failed open leaves nothing open.

use vstd::prelude::*;

use crate::error::OsError;

verus! {

/// Where an open sequence stands.
#[derive(Clone, Copy, Debug, PartialEq, Eq, Structural)]
pub enum OpenStage {
    /// The descriptor is still to be created.
    Create,
    /// The descriptor exists and is still to be bound.
    Bind,
    /// The descriptor is bound and FD frames are still to be enabled.
    EnableFd,
    /// The socket is open and ready.
    Ready,
    /// The open failed.
    Failed,
}

/// The flags a raw CAN socket is created with.
#[derive(Clone, Copy, Debug, PartialEq, Eq, Structural)]
pub struct CreateFlags {
    pub cloexec: bool,
    pub nonblock: bool,
}

/// What the caller does next.
#[derive(Clone, Copy, Debug, PartialEq, Eq, Structural)]
pub enum OpenAction {
    /// Create a raw CAN socket with these flags.
    Create(CreateFlags),
    /// Bind the descriptor to the address.
    Bind,
    /// Set the option that enables FD frames.
    EnableFd,
    /// The socket is ready: hand it over.
    Done,
    /// Close the descriptor, then report the failure.
    CloseAndFail(OsError),
    /// Report the failure; no descriptor exists.
    Fail(OsError),
}

/// An open sequence: the kind of socket, the blocking mode, the stage, and
/// whether a descriptor is held.
#[derive(Clone, Copy, Debug, PartialEq, Eq, Structural)]
pub struct OpenSequence {
    pub fd_capable: bool,
    pub nonblocking: bool,
    pub stage: OpenStage,
    pub holds_fd: bool,
}

/// The flags for creating the socket: close-on-exec always, non-blocking
/// only when asked for.
pub open spec fn create_flags(nonblocking: bool) -> CreateFlags {
    CreateFlags { cloexec: true, nonblock: nonblocking }
}

impl OpenSequence {
    /// A descriptor is held exactly between creation and a failure, and FD
    /// frames are only enabled on an FD-capable socket.
    pub open spec fn wf(self) -> bool {
        &&& self.holds_fd == (self.stage != OpenStage::Create && self.stage != OpenStage::Failed)
        &&& self.stage == OpenStage::EnableFd ==> self.fd_capable
    }

    /// Whether the sequence has ended.
    pub open spec fn finished(self) -> bool {
        self.stage == OpenStage::Ready || self.stage == OpenStage::Failed
    }

    /// The stage after a step's outcome.
    pub open spec fn next(self, outcome: Result<(), OsError>) -> OpenSequence {
        match outcome {
            Ok(()) => match self.stage {
                OpenStage::Create => OpenSequence { stage: OpenStage::Bind, holds_fd: true, ..self },
                OpenStage::Bind => if self.fd_capable {
                    OpenSequence { stage: OpenStage::EnableFd, ..self }
                } else {
                    OpenSequence { stage: OpenStage::Ready, ..self }
                },
                OpenStage::EnableFd => OpenSequence { stage: OpenStage::Ready, ..self },
                _ => self,
            },
            Err(_) => OpenSequence { stage: OpenStage::Failed, holds_fd: false, ..self },
        }
    }

    /// The action after a step's outcome.
    pub open spec fn action(self, outcome: Result<(), OsError>) -> OpenAction {
        match outcome {
            Ok(()) => match self.next(outcome).stage {
                OpenStage::Bind => OpenAction::Bind,
                OpenStage::EnableFd => OpenAction::EnableFd,
                _ => OpenAction::Done,
            },
            Err(e) => if self.holds_fd {
                OpenAction::CloseAndFail(e)
            } else {
                OpenAction::Fail(e)
            },
        }
    }

    /// A new open sequence and its first action: create the socket.
    pub fn start(fd_capable: bool, nonblocking: bool) -> (r: (OpenSequence, OpenAction))
        ensures
            r.0.wf(),
            r.0 == (OpenSequence {
                fd_capable,
                nonblocking,
                stage: OpenStage::Create,
                holds_fd: false,
            }),
            r.1 == OpenAction::Create(create_flags(nonblocking)),
    {
        let flags = CreateFlags { cloexec: true, nonblock: nonblocking };
        (
            OpenSequence { fd_capable, nonblocking, stage: OpenStage::Create, holds_fd: false },
            OpenAction::Create(flags),
        )
    }

    /// Takes the outcome of the last action and gives the next one.
    pub fn step(&mut self, outcome: Result<(), OsError>) -> (r: OpenAction)
        requires
            old(self).wf(),
            !old(self).finished(),
        ensures
            final(self).wf(),
            *final(self) == old(self).next(outcome),
            r == old(self).action(outcome),
    {
        match outcome {
            Ok(()) => {
                match self.stage {
                    OpenStage::Create => {
                        self.stage = OpenStage::Bind;
                        self.holds_fd = true;
                        OpenAction::Bind
                    },
                    OpenStage::Bind => {
                        if self.fd_capable {
                            self.stage = OpenStage::EnableFd;
                            OpenAction::EnableFd
                        } else {
                            self.stage = OpenStage::Ready;
                            OpenAction::Done
                        }
                    },
                    _ => {
                        self.stage = OpenStage::Ready;
                        OpenAction::Done
                    },
                }
            },
            Err(e) => {
                let held = self.holds_fd;
                self.stage = OpenStage::Failed;
                self.holds_fd = false;
                if held {
                    OpenAction::CloseAndFail(e)
                } else {
                    OpenAction::Fail(e)
                }
            },
        }
    }
}

/// The state an open sequence reaches over a series of step outcomes; it
/// stops at the first that ends it.
pub open spec fn open_run(s: OpenSequence, outcomes: Seq<Result<(), OsError>>) -> OpenSequence
    decreases outcomes.len(),
{
    if outcomes.len() == 0 || s.finished() {
        s
    } else {
        open_run(s.next(outcomes[0]), outcomes.drop_first())
    }
}

/// Whatever the outcomes of its steps, an open sequence that fails holds no
/// descriptor afterwards; in particular an FD-capable open whose FD-mode
/// step fails ends failed, after closing the descriptor it held.
pub proof fn lemma_failed_open_leaks_nothing(
    s: OpenSequence,
    outcomes: Seq<Result<(), OsError>>,
)
    requires
        s.wf(),
    ensures
        open_run(s, outcomes).wf(),
        open_run(s, outcomes).stage == OpenStage::Failed ==> !open_run(s, outcomes).holds_fd,
        s.stage == OpenStage::EnableFd && outcomes.len() > 0 && outcomes[0] is Err ==> {
            &&& s.action(outcomes[0]) == OpenAction::CloseAndFail(outcomes[0]->Err_0)
            &&& open_run(s, outcomes).stage == OpenStage::Failed
            &&& !open_run(s, outcomes).holds_fd
        },
    decreases outcomes.len(),
{
    if outcomes.len() > 0 && !s.finished() {
        lemma_failed_open_leaks_nothing(s.next(outcomes[0]), outcomes.drop_first());
        if outcomes[0] is Err {
            let f = s.next(outcomes[0]);
            assert(f.finished());
            assert(open_run(f, outcomes.drop_first()) == f);
        }
    }
}

} // verus!
