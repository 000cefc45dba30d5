use std::cell::Cell;
use std::marker::PhantomData;

use vmm_devices::arch::PlatformBusResources;
use vmm_devices::block::get_seg_max;
use vmm_devices::block::open_flags;
use vmm_devices::display::adjust_virtual_display_size;
use vmm_devices::display::ProvideDisplayData;
use vmm_devices::display::WinDisplayMode;
use vmm_devices::display::DISPLAY_HEIGHT_SOFT_MAX;
use vmm_devices::display::DISPLAY_WIDTH_SOFT_MAX;
use vmm_devices::executor::AsyncError;
use vmm_devices::executor::DefaultExecutorKind;
use vmm_devices::executor::Executor;
use vmm_devices::executor::ExecutorKind;
use vmm_devices::executor::Reactor;
use vmm_devices::executor::SetDefaultExecutorKindError;
use vmm_devices::executor::Task;
use vmm_devices::executor::TaskHandle;
use vmm_devices::executor::UringError;
use vmm_devices::suspendable::not_implemented;
use vmm_devices::text::push_hex;
use vmm_devices::vhost_user::NetBackend;
use vmm_devices::vhost_user::VhostUserDevice;
use vmm_devices::suspendable::DeviceState;
use vmm_devices::suspendable::Suspendable;

#[test]
fn borderless_full_screen_virtual_window_width_should_be_multiple_of_8() {
    struct MockDisplayDataProvider;

    impl ProvideDisplayData for MockDisplayDataProvider {
        fn get_host_display_size() -> (u32, u32) {
            (1366, 768)
        }
    }

    let mode = WinDisplayMode::<MockDisplayDataProvider>::BorderlessFullScreen(PhantomData);
    let (width, _) = mode.get_virtual_display_size_4k_uhd(/* is_4k_uhd_enabled */ false);
    assert_eq!(width % 8, 0);
}

#[test]
fn borderless_full_screen_virtual_window_size_should_be_smaller_than_soft_max() {
    struct MockDisplayDataProvider;

    impl ProvideDisplayData for MockDisplayDataProvider {
        fn get_host_display_size() -> (u32, u32) {
            (DISPLAY_WIDTH_SOFT_MAX + 1, DISPLAY_HEIGHT_SOFT_MAX + 1)
        }
    }

    let mode = WinDisplayMode::<MockDisplayDataProvider>::BorderlessFullScreen(PhantomData);
    let (width, height) =
        mode.get_virtual_display_size_4k_uhd(/* is_4k_uhd_enabled */ false);
    assert!(width <= DISPLAY_WIDTH_SOFT_MAX);
    assert!(height <= DISPLAY_HEIGHT_SOFT_MAX);
}

#[test]
fn display_size_is_cut_to_limits() {
    assert_eq!(adjust_virtual_display_size(1366, 768, false), (1360, 768));
    assert_eq!(adjust_virtual_display_size(1921, 1081, false), (1920, 1080));
    assert_eq!(adjust_virtual_display_size(1921, 1081, true), (1920, 1081));
    assert_eq!(adjust_virtual_display_size(5000, 5000, true), (3840, 2160));
    assert_eq!(adjust_virtual_display_size(7, 0, false), (0, 0));
    struct Unused;
    impl ProvideDisplayData for Unused {
        fn get_host_display_size() -> (u32, u32) {
            panic!("a window has its own size")
        }
    }
    let mode = WinDisplayMode::<Unused>::Windowed(1001, 600);
    assert_eq!(mode.get_window_size(), (1001, 600));
    assert_eq!(mode.get_virtual_display_size_4k_uhd(false), (1000, 600));
}

#[test]
fn platform_bus_resources_start_empty() {
    let r = PlatformBusResources::new("uart0".to_owned());
    assert_eq!(r.dt_symbol, "uart0");
    assert!(r.regions.is_empty() && r.irqs.is_empty() && r.iommus.is_empty());
    assert_eq!(PlatformBusResources::IRQ_TRIGGER_EDGE, 1);
    assert_eq!(PlatformBusResources::IRQ_TRIGGER_LEVEL, 4);
}

#[test]
fn interrupts_that_mask_themselves_fire_on_a_level() {
    assert_eq!(PlatformBusResources::irq_trigger(true), 4);
    assert_eq!(PlatformBusResources::irq_trigger(false), 1);
    let mut r = PlatformBusResources::new("uart0".to_owned());
    r.add_irq(33, true);
    r.add_irq(34, false);
    assert_eq!(r.irqs, vec![(33, 4), (34, 1)]);
    assert!(r.regions.is_empty());
}

#[test]
fn one_segment_per_request() {
    assert_eq!(get_seg_max(0), 1);
    assert_eq!(get_seg_max(256), 1);
}

#[test]
fn disk_files_are_opened_with_flags() {
    assert_eq!(open_flags(false, false), 0);
    assert_eq!(open_flags(true, false), 0x2000_0000);
    assert_eq!(open_flags(false, true), 0x4000_0000);
    assert_eq!(open_flags(true, true), 0x6000_0000);
}

#[derive(Debug)]
struct Uring;
#[derive(Debug)]
struct Epoll;

impl Reactor for Uring {
    fn new() -> Result<Self, AsyncError> {
        Err(AsyncError {
            reason: "no io_uring".to_owned(),
        })
    }
}

impl Reactor for Epoll {
    fn new() -> Result<Self, AsyncError> {
        Ok(Epoll)
    }
}

type TestExecutor = Executor<Uring, Epoll>;

#[test]
fn default_executor_kind_is_fixed_once() {
    let mut default = DefaultExecutorKind::new();
    assert_eq!(default.get(), None);
    assert!(TestExecutor::set_default_executor_kind(&mut default, ExecutorKind::Uring, Ok(())).is_ok());
    assert_eq!(default.get(), Some(ExecutorKind::Uring));
    assert!(matches!(
        TestExecutor::set_default_executor_kind(&mut default, ExecutorKind::Fd, Ok(())),
        Err(SetDefaultExecutorKindError::SetMoreThanOnce(ExecutorKind::Uring))
    ));
    assert_eq!(default.get_or_init(), ExecutorKind::Uring);
}

#[test]
fn default_executor_kind_is_epoll_and_using_it_fixes_it() {
    let mut default = DefaultExecutorKind::new();
    let executor = TestExecutor::new(&mut default).unwrap();
    assert_eq!(executor.kind(), ExecutorKind::Fd);
    assert!(matches!(
        TestExecutor::set_default_executor_kind(&mut default, ExecutorKind::Uring, Ok(())),
        Err(SetDefaultExecutorKindError::SetMoreThanOnce(ExecutorKind::Fd))
    ));
}

#[test]
fn uring_must_be_available_to_become_default() {
    let mut default = DefaultExecutorKind::new();
    let unavailable = Err(UringError {
        reason: "old kernel".to_owned(),
    });
    assert!(matches!(
        TestExecutor::set_default_executor_kind(&mut default, ExecutorKind::Uring, unavailable),
        Err(SetDefaultExecutorKindError::UringUnavailable(e)) if e.reason == "old kernel"
    ));
    assert_eq!(default.get(), None);
    // The probe does not count for epoll.
    let unavailable = Err(UringError {
        reason: "old kernel".to_owned(),
    });
    assert!(TestExecutor::set_default_executor_kind(&mut default, ExecutorKind::Fd, unavailable).is_ok());
    assert_eq!(default.set(ExecutorKind::Uring), Err(ExecutorKind::Fd));
}

#[test]
fn executor_runs_on_the_kind_asked_for() {
    assert_eq!(
        TestExecutor::with_executor_kind(ExecutorKind::Fd).unwrap().kind(),
        ExecutorKind::Fd
    );
    assert_eq!(
        TestExecutor::with_executor_kind(ExecutorKind::Uring).unwrap_err().reason,
        "no io_uring"
    );
}

struct Flagged<'a>(&'a Cell<u32>, u32);

impl<'a> Task for Flagged<'a> {
    fn detach(self) {
        self.0.set(self.1);
    }
}

#[test]
fn detach_reaches_the_task() {
    let flag = Cell::new(0);
    TaskHandle::<Flagged, Flagged>::Uring(Flagged(&flag, 1)).detach();
    assert_eq!(flag.get(), 1);
    TaskHandle::<Flagged, Flagged>::Fd(Flagged(&flag, 2)).detach();
    assert_eq!(flag.get(), 2);
}

struct Plain;

impl Suspendable for Plain {}

#[test]
fn device_that_offers_nothing_says_so() {
    let mut device = Plain;
    assert_eq!(
        device.snapshot(),
        Err("Suspendable::snapshot not implemented".to_owned())
    );
    assert_eq!(
        device.restore(serde_json::Value::Null),
        Err("Suspendable::restore not implemented".to_owned())
    );
    assert_eq!(device.sleep(), Err("Suspendable::sleep not implemented".to_owned()));
    assert_eq!(device.wake(), Err("Suspendable::wake not implemented".to_owned()));
    assert_eq!(not_implemented("x"), "Suspendable::x not implemented");
    assert_ne!(DeviceState::Awake, DeviceState::Sleep);
}

#[test]
fn network_features_must_be_offered() {
    let mut net = NetBackend {
        avail_features: 0b1011,
        acked_features: 0,
        mtu: 1500,
    };
    assert_eq!(net.ack_features(0b0011), Ok(()));
    assert_eq!(net.ack_features(0b1000), Ok(()));
    assert_eq!(net.acked_features, 0b1011);
    assert_eq!(
        net.ack_features(0xab0c_0001),
        Err("invalid features are given: 0xab0c0000".to_owned())
    );
    assert_eq!(net.acked_features, 0b1011);
    let snap = net.snapshot();
    let mut other = NetBackend {
        avail_features: 0b1011,
        acked_features: 0,
        mtu: 9000,
    };
    other.restore(snap);
    assert_eq!(other.acked_features, 0b1011);
    assert_eq!(other.mtu, 9000);
    assert_eq!(NetBackend::max_vq_pairs(), 1);
}

#[test]
fn hexadecimal_agrees_with_std() {
    for n in [0u64, 1, 9, 10, 15, 16, 255, 256, 0xdead_beef, u64::MAX] {
        let mut s = String::new();
        push_hex(&mut s, n);
        assert_eq!(s, format!("{:x}", n));
    }
}

struct Console;

impl VhostUserDevice for Console {
    type Executor = ();
    type Handler = u8;

    fn max_queue_num(&self) -> usize {
        2
    }

    fn into_req_handler(self, _ex: &()) -> Result<u8, String> {
        Ok(7)
    }
}

#[test]
fn vhost_user_device_prefers_no_executor_unless_it_says_so() {
    assert_eq!(Console.executor_kind(), None);
    assert_eq!(Console.max_queue_num(), 2);
    assert_eq!(Console.into_req_handler(&()), Ok(7));
}
