//! Which backend an executor of asynchronous tasks runs on, and the default
//! that can be chosen once.
//!
//! The backends themselves belong to the host and are reached through
//! [`Reactor`]; tasks are reached through [`Task`].

use vstd::prelude::*;

verus! {

/// The kind of backend of an executor.
#[derive(Clone, Copy, Debug, PartialEq, Eq, Structural)]
pub enum ExecutorKind {
    /// io_uring.
    Uring,
    /// epoll on descriptors.
    Fd,
}

/// Why an executor could not do what it was asked, in words.
#[derive(Debug)]
pub struct AsyncError {
    pub reason: String,
}

/// Why io_uring cannot be used, in words.
#[derive(Debug)]
pub struct UringError {
    pub reason: String,
}

/// Why the default kind of executor was not set.
#[derive(Debug)]
pub enum SetDefaultExecutorKindError {
    /// The default was set or used before; it is the kind given here.
    SetMoreThanOnce(ExecutorKind),
    /// io_uring cannot be used on this host.
    UringUnavailable(UringError),
}

/// The default kind of executor of a process. It is empty until it is set
/// or asked for the first time, and never changes after that.
#[derive(Debug)]
pub struct DefaultExecutorKind {
    kind: Option<ExecutorKind>,
}

impl DefaultExecutorKind {
    /// The default, if it is fixed already.
    pub closed spec fn spec_get(&self) -> Option<ExecutorKind> {
        self.kind
    }

    /// A default that is not fixed yet.
    pub fn new() -> (cell: Self)
        ensures
            cell.spec_get() is None,
    {
        DefaultExecutorKind { kind: None }
    }

    /// The default, if it is fixed already.
    pub fn get(&self) -> (kind: Option<ExecutorKind>)
        ensures
            kind == self.spec_get(),
    {
        self.kind
    }

    /// The default. Where none is fixed yet, `Fd` becomes the default.
    pub fn get_or_init(&mut self) -> (kind: ExecutorKind)
        ensures
            kind == match old(self).spec_get() {
                Some(k) => k,
                None => ExecutorKind::Fd,
            },
            final(self).spec_get() == Some(kind),
    {
        match self.kind {
            Some(kind) => kind,
            None => {
                self.kind = Some(ExecutorKind::Fd);
                ExecutorKind::Fd
            },
        }
    }

    /// Fixes the default to `kind`, unless it is fixed already: then
    /// nothing changes and the fixed kind is returned as the error.
    pub fn set(&mut self, kind: ExecutorKind) -> (r: Result<(), ExecutorKind>)
        ensures
            match old(self).spec_get() {
                Some(k) => r == Err::<(), ExecutorKind>(k) && final(self).spec_get() == Some(k),
                None => r == Ok::<(), ExecutorKind>(()) && final(self).spec_get() == Some(kind),
            },
    {
        match self.kind {
            Some(existing) => Err(existing),
            None => {
                self.kind = Some(kind);
                Ok(())
            },
        }
    }
}

/// A backend of an executor, as the host offers it.
pub trait Reactor: Sized {
    /// Creates the backend.
    fn new() -> Result<Self, AsyncError>;
}

/// A running task, as a backend hands it out.
pub trait Task {
    /// Lets the task run on without anybody waiting for it.
    fn detach(self);
}

/// An executor: a handle to one of the two backends.
#[derive(Debug)]
pub enum Executor<U, F> {
    Uring(U),
    Fd(F),
}

/// A task of an executor, on the backend of that executor.
#[derive(Debug)]
pub enum TaskHandle<U, F> {
    Uring(U),
    Fd(F),
}

impl<U: Task, F: Task> TaskHandle<U, F> {
    /// Lets the task run on without anybody waiting for it.
    pub fn detach(self) {
        match self {
            TaskHandle::Uring(x) => x.detach(),
            TaskHandle::Fd(x) => x.detach(),
        }
    }
}

impl<U: Reactor, F: Reactor> Executor<U, F> {
    /// The kind of backend that the executor runs on.
    pub open spec fn spec_kind(&self) -> ExecutorKind {
        match self {
            Executor::Uring(_) => ExecutorKind::Uring,
            Executor::Fd(_) => ExecutorKind::Fd,
        }
    }

    /// The kind of backend that the executor runs on.
    pub fn kind(&self) -> (kind: ExecutorKind)
        ensures
            kind == self.spec_kind(),
    {
        match self {
            Executor::Uring(_) => ExecutorKind::Uring,
            Executor::Fd(_) => ExecutorKind::Fd,
        }
    }

    /// An executor of the default kind. Asking for the default fixes it.
    pub fn new(default: &mut DefaultExecutorKind) -> (r: Result<Self, AsyncError>)
        ensures
            final(default).spec_get() == Some(
                match old(default).spec_get() {
                    Some(k) => k,
                    None => ExecutorKind::Fd,
                },
            ),
            r matches Ok(executor) ==> Some(executor.spec_kind()) == final(default).spec_get(),
    {
        Executor::with_executor_kind(default.get_or_init())
    }

    /// An executor of the kind `kind`.
    pub fn with_executor_kind(kind: ExecutorKind) -> (r: Result<Self, AsyncError>)
        ensures
            r matches Ok(executor) ==> executor.spec_kind() == kind,
    {
        match kind {
            ExecutorKind::Uring => match U::new() {
                Ok(reactor) => Ok(Executor::Uring(reactor)),
                Err(e) => Err(e),
            },
            ExecutorKind::Fd => match F::new() {
                Ok(reactor) => Ok(Executor::Fd(reactor)),
                Err(e) => Err(e),
            },
        }
    }
}

/// What setting the default to `kind` gives: `uring` is what the probe for
/// io_uring said, and counts only where `kind` is `Uring`; `fixed` is the
/// default that is fixed already, if one is.
pub open spec fn spec_set_default_executor_kind(
    fixed: Option<ExecutorKind>,
    kind: ExecutorKind,
    uring_available: bool,
) -> Result<(), Option<ExecutorKind>> {
    if kind == ExecutorKind::Uring && !uring_available {
        Err(None)
    } else {
        match fixed {
            Some(k) => Err(Some(k)),
            None => Ok(()),
        }
    }
}

impl<U, F> Executor<U, F> {
    /// Sets the default kind of executor. Only the first call has an
    /// effect: every later one fails and names the default that is fixed. To
    /// set `Uring` the host must offer io_uring: `uring` is what the probe
    /// for it said.
    pub fn set_default_executor_kind(
        default: &mut DefaultExecutorKind,
        executor_kind: ExecutorKind,
        uring: Result<(), UringError>,
    ) -> (r: Result<(), SetDefaultExecutorKindError>)
        ensures
            match spec_set_default_executor_kind(
                old(default).spec_get(),
                executor_kind,
                uring is Ok,
            ) {
                Ok(()) => r is Ok && final(default).spec_get() == Some(executor_kind),
                Err(None) => r matches Err(SetDefaultExecutorKindError::UringUnavailable(e))
                    && uring == Err::<(), UringError>(e) && final(default).spec_get() == old(default).spec_get(),
                Err(Some(k)) => r matches Err(SetDefaultExecutorKindError::SetMoreThanOnce(fixed))
                    && fixed == k && final(default).spec_get() == old(default).spec_get(),
            },
    {
        if executor_kind == ExecutorKind::Uring {
            match uring {
                Ok(()) => {},
                Err(e) => {
                    return Err(SetDefaultExecutorKindError::UringUnavailable(e));
                },
            }
        }
        match default.set(executor_kind) {
            Ok(()) => Ok(()),
            Err(existing) => Err(SetDefaultExecutorKindError::SetMoreThanOnce(existing)),
        }
    }
}

/// The default kind of executor is fixed once: whatever is set after the
/// default was fixed, the default stays.
pub proof fn lemma_default_is_fixed_once(
    fixed: ExecutorKind,
    kind: ExecutorKind,
    uring_available: bool,
)
    ensures
        spec_set_default_executor_kind(Some(fixed), kind, uring_available) is Err,
{
}

} // verus!
