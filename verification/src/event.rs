//! An event of the host that one party signals and another waits for, as
//! Windows offers it.
//!
//! The event object itself belongs to the host and is reached through
//! [`EventHandle`]; what is decided here is how long to wait, what the
//! host's answer to a wait means, and that an event that was seen is reset.

use vstd::prelude::*;
use core::time::Duration;
use crate::errno::Error;

verus! {

/// A wait without limit.
pub const INFINITE: u32 = 0xFFFF_FFFF;

/// The answer of the host to a wait: the object is signaled.
pub const WAIT_OBJECT_0: u32 = 0;

/// The answer of the host to a wait: the time ran out.
pub const WAIT_TIMEOUT: u32 = 258;

/// The answer of the host to a wait: the wait failed.
pub const WAIT_FAILED: u32 = 0xFFFF_FFFF;

/// How a wait for an event ended.
#[derive(Clone, Copy, Debug, PartialEq, Eq, Structural)]
pub enum EventWaitResult {
    /// The event was signaled.
    Signaled,
    /// The time ran out first.
    TimedOut,
}

/// `Duration::as_millis` of std: the whole milliseconds of the span.
/// Nothing is stated of the number here.
pub assume_specification[ Duration::as_millis ](duration: &Duration) -> (millis: u128);

/// An event object of the host. Nothing is promised of what the host does.
pub trait EventHandle: Sized {
    /// Creates an event that nobody has signaled. One with `manual_reset`
    /// stays signaled until it is reset; any other is reset by the wait that
    /// sees it.
    fn create(manual_reset: bool) -> Result<Self, Error>;

    /// Creates an event with the name `name`, one that the wait resets
    /// that sees it.
    fn create_named(name: &str) -> Result<Self, Error>;

    /// Opens the event with the name `name`, to signal it.
    fn open_named(name: &str) -> Result<Self, Error>;

    /// Signals the event.
    fn set(&self) -> Result<(), Error>;

    /// Takes the signal back.
    fn reset(&self) -> Result<(), Error>;

    /// Waits at most `milliseconds` for the signal and returns the answer
    /// of the host.
    fn wait(&self, milliseconds: u32) -> u32;

    /// The error that the last failed call on this thread left behind.
    fn last_error(&self) -> Error;

    /// A second handle to the same event.
    fn duplicate(&self) -> Result<Self, Error>;
}

/// The milliseconds that the host is asked to wait: without limit where no
/// timeout is given, else the whole milliseconds of the timeout, cut to 32
/// bits.
pub open spec fn spec_wait_millis(timeout: Option<u128>) -> u32 {
    match timeout {
        Some(millis) => millis as u32,
        None => INFINITE,
    }
}

/// What the answer `code` of the host to a wait means: a signal, the end
/// of the time, a failure whose error the host keeps (`None`), or an error
/// with the answer as its number.
pub open spec fn spec_wait_outcome(code: u32) -> Result<EventWaitResult, Option<Error>> {
    if code == WAIT_OBJECT_0 {
        Ok(EventWaitResult::Signaled)
    } else if code == WAIT_TIMEOUT {
        Ok(EventWaitResult::TimedOut)
    } else if code == WAIT_FAILED {
        Err(None)
    } else {
        Err(Some(Error::new_spec(code as i32)))
    }
}

/// Whether `r` is what a wait returns to which the host answered `code`:
/// the meaning of the answer, where it is the end of the time or an error
/// with a number of its own; the signal, unless the event could then not be
/// reset; and an error where the wait failed.
pub open spec fn spec_wait_result(code: u32, r: Result<EventWaitResult, Error>) -> bool {
    match spec_wait_outcome(code) {
        Ok(EventWaitResult::TimedOut) => r == Ok::<EventWaitResult, Error>(EventWaitResult::TimedOut),
        Ok(EventWaitResult::Signaled) => r is Err || r == Ok::<EventWaitResult, Error>(
            EventWaitResult::Signaled,
        ),
        Err(Some(e)) => r == Err::<EventWaitResult, Error>(e),
        Err(None) => r is Err,
    }
}

/// Whether `r` is what a wait without limit returns to which the host
/// answered `code`: as for a wait with a limit, but that the end of the time
/// is an error with the number of that answer.
pub open spec fn spec_wait_forever_result(code: u32, r: Result<(), Error>) -> bool {
    match spec_wait_outcome(code) {
        Ok(EventWaitResult::TimedOut) => r == Err::<(), Error>(
            Error::new_spec(WAIT_TIMEOUT as i32),
        ),
        Ok(EventWaitResult::Signaled) => r is Err || r == Ok::<(), Error>(()),
        Err(Some(e)) => r == Err::<(), Error>(e),
        Err(None) => r is Err,
    }
}

/// The milliseconds that the host is asked to wait.
pub fn wait_millis(timeout: Option<u128>) -> (milliseconds: u32)
    ensures
        milliseconds == spec_wait_millis(timeout),
{
    match timeout {
        Some(millis) => millis as u32,
        None => INFINITE,
    }
}

/// What the answer `code` of the host to a wait means.
pub fn wait_outcome(code: u32) -> (outcome: Result<EventWaitResult, Option<Error>>)
    ensures
        outcome == spec_wait_outcome(code),
{
    if code == WAIT_OBJECT_0 {
        Ok(EventWaitResult::Signaled)
    } else if code == WAIT_TIMEOUT {
        Ok(EventWaitResult::TimedOut)
    } else if code == WAIT_FAILED {
        Err(None)
    } else {
        Err(Some(Error::new(code as i32)))
    }
}

/// An event that stays signaled until a wait has seen it, like an eventfd
/// of Linux that does not count.
#[derive(Debug)]
pub struct PlatformEvent<H> {
    event_handle: H,
}

impl<H: EventHandle> PlatformEvent<H> {
    /// An event that is reset by hand if `manual_reset`, and by the wait
    /// that sees it if not.
    pub fn new_with_manual_reset(manual_reset: bool) -> (r: Result<Self, Error>) {
        match H::create(manual_reset) {
            Ok(event_handle) => Ok(PlatformEvent { event_handle }),
            Err(e) => Err(e),
        }
    }

    /// A new event, which nobody has signaled. It is one that is reset by
    /// hand: a wait on it resets it when it has seen the signal.
    pub fn new() -> (r: Result<Self, Error>) {
        PlatformEvent::new_with_manual_reset(true)
    }

    /// A new event with the name `name`, one that the wait resets that
    /// sees it. A name of the host holds no character with the number 0.
    pub fn create_event_with_name(name: &str) -> (r: Result<Self, Error>)
        requires
            forall|i: int| 0 <= i < name@.len() ==> name@[i] as u32 != 0,
    {
        match H::create_named(name) {
            Ok(event_handle) => Ok(PlatformEvent { event_handle }),
            Err(e) => Err(e),
        }
    }

    /// The event with the name `name`, opened to signal it.
    pub fn open(name: &str) -> (r: Result<Self, Error>)
        requires
            forall|i: int| 0 <= i < name@.len() ==> name@[i] as u32 != 0,
    {
        match H::open_named(name) {
            Ok(event_handle) => Ok(PlatformEvent { event_handle }),
            Err(e) => Err(e),
        }
    }

    /// The handle of the event.
    pub closed spec fn spec_handle(&self) -> H {
        self.event_handle
    }

    /// The event behind `event_handle`.
    pub fn from_handle(event_handle: H) -> (event: Self)
        ensures
            event.spec_handle() == event_handle,
    {
        PlatformEvent { event_handle }
    }

    /// Signals the event.
    pub fn signal(&self) -> (r: Result<(), Error>) {
        self.event_handle.set()
    }

    /// Takes the signal back.
    pub fn reset(&self) -> (r: Result<(), Error>) {
        self.event_handle.reset()
    }

    /// Waits for the event, for at most `timeout` where one is given, and
    /// resets the event if it was signaled.
    fn wait_and_reset(&self, timeout: Option<Duration>) -> (r: Result<EventWaitResult, Error>)
        ensures
            exists|code: u32| #[trigger] spec_wait_result(code, r),
    {
        let milliseconds = match timeout {
            Some(timeout) => wait_millis(Some(timeout.as_millis())),
            None => wait_millis(None),
        };
        let code = self.event_handle.wait(milliseconds);
        let ghost seen = code;
        let wait_result = match wait_outcome(code) {
            Ok(result) => result,
            Err(None) => {
                let e = self.event_handle.last_error();
                assert(spec_wait_result(seen, Err(e)));
                return Err(e);
            },
            Err(Some(e)) => {
                assert(spec_wait_result(seen, Err(e)));
                return Err(e);
            },
        };
        if wait_result == EventWaitResult::Signaled {
            match self.reset() {
                Ok(()) => {},
                Err(e) => {
                    assert(spec_wait_result(seen, Err(e)));
                    return Err(e);
                },
            }
        }
        assert(spec_wait_result(seen, Ok(wait_result)));
        Ok(wait_result)
    }

    /// Waits for the event without limit, and resets it. Where the host
    /// says that the time of a wait without limit ran out, that answer is
    /// returned as the error.
    pub fn wait(&self) -> (r: Result<(), Error>)
        ensures
            exists|code: u32| #[trigger] spec_wait_forever_result(code, r),
    {
        let waited = self.wait_and_reset(None);
        let ghost code = choose|code: u32| #[trigger] spec_wait_result(code, waited);
        let r = match waited {
            Ok(EventWaitResult::Signaled) => Ok(()),
            Ok(EventWaitResult::TimedOut) => Err(Error::new(WAIT_TIMEOUT as i32)),
            Err(e) => Err(e),
        };
        assert(spec_wait_forever_result(code, r));
        r
    }

    /// Waits for the event for at most `timeout`, and resets it if it was
    /// signaled.
    pub fn wait_timeout(&self, timeout: Duration) -> (r: Result<EventWaitResult, Error>)
        ensures
            exists|code: u32| #[trigger] spec_wait_result(code, r),
    {
        self.wait_and_reset(Some(timeout))
    }

    /// A second handle to the same event.
    pub fn try_clone(&self) -> (r: Result<Self, Error>) {
        match self.event_handle.duplicate() {
            Ok(event_handle) => Ok(PlatformEvent { event_handle }),
            Err(e) => Err(e),
        }
    }
}

/// Whether `name` can be the name of an event: it holds no character with
/// the number 0.
pub fn is_event_name(name: &str) -> (b: bool)
    ensures
        b == forall|i: int| 0 <= i < name@.len() ==> name@[i] as u32 != 0,
{
    let chars = crate::text::chars_of(name);
    let mut i: usize = 0;
    while i < chars.len()
        invariant
            i <= chars@.len(),
            chars@ == name@,
            forall|k: int| 0 <= k < i ==> name@[k] as u32 != 0,
        decreases chars@.len() - i,
    {
        if chars[i] as u32 == 0 {
            return false;
        }
        i += 1;
    }
    true
}

/// More ways to an event of Windows.
pub trait EventExt: Sized {
    /// A new event that the wait resets that sees it.
    fn new_auto_reset() -> Result<Self, Error>;

    /// The event with the name `name`, opened to signal it.
    fn open(name: &str) -> Result<Self, Error>
        requires
            forall|i: int| 0 <= i < name@.len() ==> name@[i] as u32 != 0,
    ;

    /// A new event with the name `name`.
    fn create_event_with_name(name: &str) -> Result<Self, Error>
        requires
            forall|i: int| 0 <= i < name@.len() ==> name@[i] as u32 != 0,
    ;
}

impl<H: EventHandle> EventExt for PlatformEvent<H> {
    fn new_auto_reset() -> Result<Self, Error> {
        PlatformEvent::new_with_manual_reset(false)
    }

    fn open(name: &str) -> Result<Self, Error> {
        PlatformEvent::open(name)
    }

    fn create_event_with_name(name: &str) -> Result<Self, Error> {
        PlatformEvent::create_event_with_name(name)
    }
}

} // verus!
