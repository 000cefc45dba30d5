use std::cell::Cell;
use std::rc::Rc;
use std::time::Duration;

use vmm_devices::errno::Error;
use vmm_devices::event::wait_millis;
use vmm_devices::event::wait_outcome;
use vmm_devices::event::is_event_name;
use vmm_devices::event::EventExt;
use vmm_devices::event::EventHandle;
use vmm_devices::event::EventWaitResult;
use vmm_devices::event::INFINITE;
use vmm_devices::event::WAIT_FAILED;
use vmm_devices::event::WAIT_OBJECT_0;
use vmm_devices::event::WAIT_TIMEOUT;

/// An event object that lives in this process: a flag that handles share.
#[derive(Debug)]
struct Flag {
    manual_reset: bool,
    signaled: Rc<Cell<bool>>,
}

impl EventHandle for Flag {
    fn create(manual_reset: bool) -> Result<Self, Error> {
        Ok(Flag {
            manual_reset,
            signaled: Rc::new(Cell::new(false)),
        })
    }

    fn create_named(_name: &str) -> Result<Self, Error> {
        Flag::create(false)
    }

    fn open_named(_name: &str) -> Result<Self, Error> {
        Err(Error::new(2))
    }

    fn set(&self) -> Result<(), Error> {
        self.signaled.set(true);
        Ok(())
    }

    fn reset(&self) -> Result<(), Error> {
        self.signaled.set(false);
        Ok(())
    }

    fn wait(&self, milliseconds: u32) -> u32 {
        if self.signaled.get() {
            if !self.manual_reset {
                self.signaled.set(false);
            }
            WAIT_OBJECT_0
        } else if milliseconds == INFINITE {
            panic!("waiting forever for an event that nobody else can signal");
        } else {
            WAIT_TIMEOUT
        }
    }

    fn last_error(&self) -> Error {
        Error::new(6)
    }

    fn duplicate(&self) -> Result<Self, Error> {
        Ok(Flag {
            manual_reset: self.manual_reset,
            signaled: self.signaled.clone(),
        })
    }
}

type PlatformEvent = vmm_devices::event::PlatformEvent<Flag>;

#[test]
fn new() {
    PlatformEvent::new().unwrap();
}

#[test]
fn read_write() {
    let evt = PlatformEvent::new().unwrap();
    evt.signal().unwrap();
    assert_eq!(evt.wait(), Ok(()));
}

#[test]
fn clone() {
    let evt = PlatformEvent::new().unwrap();
    let evt_clone = evt.try_clone().unwrap();
    evt.signal().unwrap();
    assert_eq!(evt_clone.wait(), Ok(()));
}

#[test]
fn timeout() {
    let evt = PlatformEvent::new().expect("failed to create event");
    assert_eq!(
        evt.wait_timeout(Duration::from_millis(1))
            .expect("failed to read from event with timeout"),
        EventWaitResult::TimedOut
    );
}

#[test]
fn wait_resets_event() {
    let evt = PlatformEvent::new().unwrap();
    evt.signal().unwrap();
    assert_eq!(
        evt.wait_timeout(Duration::from_millis(1)),
        Ok(EventWaitResult::Signaled)
    );
    // The wait has seen the signal and taken it back.
    assert_eq!(
        evt.wait_timeout(Duration::from_millis(1)),
        Ok(EventWaitResult::TimedOut)
    );
    evt.signal().unwrap();
    evt.reset().unwrap();
    assert_eq!(
        evt.wait_timeout(Duration::from_millis(1)),
        Ok(EventWaitResult::TimedOut)
    );
}

#[test]
fn wait_millis_cuts_to_32_bits() {
    assert_eq!(wait_millis(None), INFINITE);
    assert_eq!(wait_millis(Some(0)), 0);
    assert_eq!(wait_millis(Some(1500)), 1500);
    assert_eq!(wait_millis(Some((1u128 << 32) + 5)), 5);
    assert_eq!(
        wait_millis(Some(Duration::from_secs(3).as_millis())),
        3000
    );
}

#[test]
fn wait_outcomes() {
    assert_eq!(wait_outcome(WAIT_OBJECT_0), Ok(EventWaitResult::Signaled));
    assert_eq!(wait_outcome(WAIT_TIMEOUT), Ok(EventWaitResult::TimedOut));
    assert_eq!(wait_outcome(WAIT_FAILED), Err(None));
    assert_eq!(wait_outcome(0x80), Err(Some(Error::new(0x80))));
}

#[test]
fn failed_wait_gives_error_of_host() {
    #[derive(Debug)]
    struct Broken;
    impl EventHandle for Broken {
        fn create(_manual_reset: bool) -> Result<Self, Error> {
            Ok(Broken)
        }
        fn create_named(_name: &str) -> Result<Self, Error> {
            Ok(Broken)
        }
        fn open_named(_name: &str) -> Result<Self, Error> {
            Ok(Broken)
        }
        fn set(&self) -> Result<(), Error> {
            Err(Error::new(5))
        }
        fn reset(&self) -> Result<(), Error> {
            Err(Error::new(5))
        }
        fn wait(&self, _milliseconds: u32) -> u32 {
            WAIT_FAILED
        }
        fn last_error(&self) -> Error {
            Error::new(6)
        }
        fn duplicate(&self) -> Result<Self, Error> {
            Err(Error::new(7))
        }
    }
    let evt = vmm_devices::event::PlatformEvent::<Broken>::new().unwrap();
    assert_eq!(evt.wait(), Err(Error::new(6)));
    assert_eq!(evt.signal(), Err(Error::new(5)));
    assert!(evt.try_clone().is_err());
}

/// An event and a second handle to it, for waits that go to the host itself.
fn event_and_raw_handle(manual_reset: bool) -> (PlatformEvent, Flag) {
    let raw = Flag::create(manual_reset).unwrap();
    let evt = PlatformEvent::from_handle(raw.duplicate().unwrap());
    (evt, raw)
}

#[test]
fn read_write_auto_reset() {
    let (evt, raw) = event_and_raw_handle(false);
    evt.signal().unwrap();

    // Wait for the notification.
    let result = raw.wait(INFINITE);
    assert_eq!(result, WAIT_OBJECT_0);

    // The notification should have reset since we already received it.
    let result = raw.wait(0);
    assert_eq!(result, WAIT_TIMEOUT);
}

#[test]
fn read_write_notifies_until_read() {
    let (evt, raw) = event_and_raw_handle(true);
    evt.signal().unwrap();

    // Wait for the notification.
    let result = raw.wait(INFINITE);
    assert_eq!(result, WAIT_OBJECT_0);

    // The notification should still be active because read wasn't called.
    let result = raw.wait(0);
    assert_eq!(result, WAIT_OBJECT_0);

    // Read and ensure the notification has cleared.
    evt.wait().expect("Failed to read event.");
    let result = raw.wait(0);
    assert_eq!(result, WAIT_TIMEOUT);
}

#[test]
fn named_events() {
    assert!(is_event_name("Global\\ready"));
    assert!(is_event_name(""));
    assert!(!is_event_name("a\0b"));
    let evt = PlatformEvent::create_event_with_name("ready").unwrap();
    evt.signal().unwrap();
    assert_eq!(evt.wait(), Ok(()));
    assert_eq!(PlatformEvent::open("ready").err(), Some(Error::new(2)));
    let evt = <PlatformEvent as EventExt>::new_auto_reset().unwrap();
    assert_eq!(
        evt.wait_timeout(Duration::from_millis(1)),
        Ok(EventWaitResult::TimedOut)
    );
    assert!(<PlatformEvent as EventExt>::create_event_with_name("x").is_ok());
    assert!(<PlatformEvent as EventExt>::open("x").is_err());
}

#[test]
fn host_is_asked_to_wait_for_the_milliseconds_of_the_timeout() {
    #[derive(Debug)]
    struct Recording(Rc<Cell<u32>>);
    impl EventHandle for Recording {
        fn create(_manual_reset: bool) -> Result<Self, Error> {
            Ok(Recording(Rc::new(Cell::new(0))))
        }
        fn create_named(_name: &str) -> Result<Self, Error> {
            Recording::create(false)
        }
        fn open_named(_name: &str) -> Result<Self, Error> {
            Recording::create(false)
        }
        fn set(&self) -> Result<(), Error> {
            Ok(())
        }
        fn reset(&self) -> Result<(), Error> {
            Ok(())
        }
        fn wait(&self, milliseconds: u32) -> u32 {
            self.0.set(milliseconds);
            WAIT_TIMEOUT
        }
        fn last_error(&self) -> Error {
            Error::new(0)
        }
        fn duplicate(&self) -> Result<Self, Error> {
            Ok(Recording(self.0.clone()))
        }
    }
    let raw = Recording::create(true).unwrap();
    let evt = vmm_devices::event::PlatformEvent::from_handle(raw.duplicate().unwrap());
    assert_eq!(
        evt.wait_timeout(Duration::from_millis(1500)),
        Ok(EventWaitResult::TimedOut)
    );
    assert_eq!(raw.0.get(), 1500);
    assert_eq!(
        evt.wait_timeout(Duration::from_micros(2999)),
        Ok(EventWaitResult::TimedOut)
    );
    assert_eq!(raw.0.get(), 2);
    // A wait without limit that the host ends for lack of time is an error.
    assert_eq!(evt.wait(), Err(Error::new(WAIT_TIMEOUT as i32)));
    assert_eq!(raw.0.get(), INFINITE);
}
