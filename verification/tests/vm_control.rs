use std::cell::RefCell;

use vmm_devices::errno::Error;
use vmm_devices::vm_control::execute::bat_precheck;
use vmm_devices::vm_control::execute::disk_precheck;
use vmm_devices::vm_control::execute::DiskTube;
use vmm_devices::vm_control::execute::may_resume_vcpus;
use vmm_devices::vm_control::execute::pm_response;
use vmm_devices::vm_control::execute::suspend_vcpus;
use vmm_devices::vm_control::execute::Machine;
use vmm_devices::vm_control::execute::VcpuControl;
use vmm_devices::vm_control::irq::IrqAllocator;
use vmm_devices::vm_control::irq::IrqChipSetup;
use vmm_devices::vm_control::irq::IrqSetup;
use vmm_devices::vm_control::request::handle_disk_command;
use vmm_devices::vm_control::request::VmRequest;
use vmm_devices::vm_control::request::VmResponse;
use vmm_devices::vm_control::suspend::check_cpu_count;
use vmm_devices::vm_control::suspend::get_vcpu_state;
use vmm_devices::vm_control::suspend::irq_flush_may_be_stalled;
use vmm_devices::vm_control::suspend::irq_flush_step;
use vmm_devices::vm_control::suspend::FlushStep;
use vmm_devices::vm_control::suspend::DeviceSleepError;
use vmm_devices::vm_control::suspend::DeviceSleepGuard;
use vmm_devices::vm_control::suspend::SuspendStep;
use vmm_devices::vm_control::suspend::VcpuStateError;
use vmm_devices::vm_control::suspend::VcpuSuspendError;
use vmm_devices::vm_control::suspend::VcpuSuspendGuard;
use vmm_devices::vm_control::BalloonWS;
use vmm_devices::vm_control::BatControlCommand;
use vmm_devices::vm_control::BatControlResult;
use vmm_devices::vm_control::BatHealth;
use vmm_devices::vm_control::BatProperty;
use vmm_devices::vm_control::BatStatus;
use vmm_devices::vm_control::BatteryType;
use vmm_devices::vm_control::DeviceControlCommand;
use vmm_devices::vm_control::DevicesState;
use vmm_devices::vm_control::DiskControlCommand;
use vmm_devices::vm_control::DiskControlResult;
use vmm_devices::vm_control::GpeNotify;
use vmm_devices::vm_control::PmResource;
use vmm_devices::vm_control::PmeNotify;
use vmm_devices::vm_control::IrqHandlerResponse;
use vmm_devices::vm_control::NetControlCommand;
use vmm_devices::vm_control::RestoreCommand;
use vmm_devices::vm_control::SnapshotCommand;
use vmm_devices::vm_control::SwapCommand;
use vmm_devices::vm_control::UsbControlCommand;
use vmm_devices::vm_control::PciControlResult;
use vmm_devices::vm_control::RegisteredEvent;
use vmm_devices::vm_control::RegisteredEventWithData;
use vmm_devices::vm_control::UsbControlAttachedDevice;
use vmm_devices::vm_control::UsbControlResult;
use vmm_devices::vm_control::VirtioIOMMUVfioResult;
use vmm_devices::vm_control::VmIrqRequest;
use vmm_devices::vm_control::VmIrqResponse;
use vmm_devices::vm_control::VmMemoryRegionId;
use vmm_devices::vm_control::VmMemorySource;
use vmm_devices::vm_control::VmRunMode;
use vmm_devices::vm_control::WSBucket;

#[test]
fn run_modes_have_names() {
    assert_eq!(VmRunMode::default(), VmRunMode::Running);
    assert_eq!(VmRunMode::Running.to_string(), "running");
    assert_eq!(VmRunMode::Suspending.to_string(), "suspending");
    assert_eq!(VmRunMode::Exiting.to_string(), "exiting");
    assert_eq!(VmRunMode::Breakpoint.to_string(), "breakpoint");
}

#[test]
fn results_have_words() {
    assert_eq!(
        DiskControlCommand::Resize { new_size: 1 << 30 }.to_string(),
        "disk_resize 1073741824"
    );
    assert_eq!(PciControlResult::AddOk { bus: 3 }.to_string(), "add_ok 3");
    assert_eq!(
        PciControlResult::ErrString("no slot".to_owned()).to_string(),
        "error: no slot"
    );
    assert_eq!(PciControlResult::RemoveOk.to_string(), "remove_ok");
    assert_eq!(UsbControlResult::Done { port: 2 }.to_string(), "ok 2");
    assert_eq!(UsbControlResult::NoSuchPort.to_string(), "no_such_port");
    let mut devices = [UsbControlAttachedDevice::default(); 16];
    devices[1] = UsbControlAttachedDevice {
        port: 2,
        vendor_id: 0x1d6b,
        product_id: 0x3,
    };
    devices[5] = UsbControlAttachedDevice {
        port: 11,
        vendor_id: 0xffff,
        product_id: 0xabcd,
    };
    assert_eq!(
        UsbControlResult::Devices(devices).to_string(),
        "devices 2 1d6b 0003 11 ffff abcd"
    );
    assert_eq!(
        UsbControlResult::Devices([UsbControlAttachedDevice::default(); 16]).to_string(),
        "devices"
    );
    assert_eq!(
        BatControlResult::Done.to_string(),
        "Setting battery property successfully"
    );
    assert_eq!(
        BatControlResult::NoSuchBatType.to_string(),
        "Invalid Battery type setting. Only support: goldfish"
    );
    assert_eq!(BatControlResult::StringParseIntErr.to_string(), "Battery property target ParseInt error");
    assert_eq!(VirtioIOMMUVfioResult::Done.to_string(), "successfully");
    assert_eq!(VirtioIOMMUVfioResult::InvalidParam.to_string(), "invalid parameters");
}

#[test]
fn attached_device_is_valid_with_port() {
    assert!(!UsbControlAttachedDevice::default().valid());
    assert!(UsbControlAttachedDevice {
        port: 1,
        vendor_id: 0,
        product_id: 0
    }
    .valid());
}

#[test]
fn battery_words_are_parsed() {
    assert_eq!(BatteryType::parse("goldfish"), Ok(BatteryType::Goldfish));
    assert_eq!(BatteryType::parse("Goldfish"), Err(BatControlResult::NoSuchBatType));
    assert_eq!(BatteryType::default(), BatteryType::Goldfish);
    assert_eq!(BatProperty::parse("aconline"), Ok(BatProperty::ACOnline));
    assert_eq!(BatProperty::parse("voltage"), Err(BatControlResult::NoSuchProperty));
    assert_eq!(BatStatus::new("unknown".to_owned()), Ok(BatStatus::Unknown));
    assert_eq!(BatStatus::new("charging".to_owned()), Ok(BatStatus::Charging));
    assert_eq!(BatStatus::new("discharging".to_owned()), Ok(BatStatus::DisCharging));
    assert_eq!(BatStatus::new("notcharging".to_owned()), Ok(BatStatus::NotCharging));
    assert_eq!(BatStatus::new("full".to_owned()), Ok(BatStatus::Full));
    assert_eq!(BatStatus::new("empty".to_owned()), Err(BatControlResult::NoSuchStatus));
    assert_eq!(BatStatus::parse("full"), Ok(BatStatus::Full));
    assert_eq!(BatStatus::Full.value(), 4);
    assert_eq!(BatHealth::parse("overcurrent"), Ok(BatHealth::OverCurrent));
    assert_eq!(BatHealth::parse("fine"), Err(BatControlResult::NoSuchHealth));
    assert_eq!(BatHealth::OverCurrent.value(), 9);
    assert_eq!(BatHealth::Unknown.value(), 0);
}

fn command(property: &str, target: &str) -> Result<BatControlCommand, BatControlResult> {
    BatControlCommand::new(property.to_owned(), target.to_owned())
}

#[test]
fn battery_commands_are_built() {
    assert_eq!(
        command("status", "charging"),
        Ok(BatControlCommand::SetStatus(BatStatus::Charging))
    );
    assert_eq!(command("status", "7"), Err(BatControlResult::NoSuchStatus));
    assert_eq!(
        command("health", "cold"),
        Ok(BatControlCommand::SetHealth(BatHealth::Cold))
    );
    assert_eq!(command("health", "charging"), Err(BatControlResult::NoSuchHealth));
    assert_eq!(command("present", "1"), Ok(BatControlCommand::SetPresent(1)));
    assert_eq!(command("capacity", "+75"), Ok(BatControlCommand::SetCapacity(75)));
    assert_eq!(command("capacity", "-1"), Err(BatControlResult::StringParseIntErr));
    assert_eq!(
        command("aconline", "4294967296"),
        Err(BatControlResult::StringParseIntErr)
    );
    assert_eq!(command("aconline", "0"), Ok(BatControlCommand::SetACOnline(0)));
    assert_eq!(command("temperature", "1"), Err(BatControlResult::NoSuchProperty));
}

#[test]
fn events_with_data() {
    let ws = BalloonWS {
        ws: vec![
            WSBucket {
                age: 1,
                bytes: [2, 3],
            },
            WSBucket {
                age: 4,
                bytes: [5, 6],
            },
        ],
    };
    let event = RegisteredEventWithData::from_ws(&ws, 4096);
    assert_eq!(event.into_event(), RegisteredEvent::VirtioBalloonWsReport);
    match event {
        RegisteredEventWithData::VirtioBalloonWsReport {
            ws_buckets,
            balloon_actual,
        } => {
            assert_eq!(ws_buckets, ws.ws);
            assert_eq!(balloon_actual, 4096);
        }
        other => panic!("unexpected event {:?}", other),
    }
    assert_eq!(
        RegisteredEventWithData::VirtioBalloonResize.into_event(),
        RegisteredEvent::VirtioBalloonResize
    );
    assert_eq!(
        RegisteredEventWithData::VirtioBalloonOOMDeflation.into_event(),
        RegisteredEvent::VirtioBalloonOOMDeflation
    );
}

#[test]
fn memory_regions_are_named_by_page() {
    assert_eq!(VmMemoryRegionId::from_guest_address(0x5000), VmMemoryRegionId(5));
    assert_eq!(VmMemoryRegionId::from_guest_address(0x5fff), VmMemoryRegionId(5));
    assert_eq!(
        VmMemorySource::Descriptor {
            descriptor: 3,
            offset: 16,
            size: 4096
        }
        .size(),
        4096
    );
    assert_eq!(VmMemorySource::ExternalMapping { ptr: 1, size: 7 }.size(), 7);
}

#[test]
fn vcpu_state_is_the_state_of_all() {
    let (running, suspending, breakpoint) =
        (VmRunMode::Running, VmRunMode::Suspending, VmRunMode::Breakpoint);
    assert_eq!(get_vcpu_state(&vec![], 0), Err(VcpuStateError::NoVcpus));
    assert_eq!(get_vcpu_state(&vec![running], 0), Err(VcpuStateError::NoVcpus));
    assert_eq!(get_vcpu_state(&vec![running], 2), Err(VcpuStateError::NoReport));
    assert_eq!(get_vcpu_state(&vec![running, running], 2), Ok(running));
    assert_eq!(get_vcpu_state(&vec![suspending], 1), Ok(suspending));
    assert_eq!(
        get_vcpu_state(&vec![running, suspending, running], 3),
        Err(VcpuStateError::DifferentStates)
    );
    assert_eq!(get_vcpu_state(&vec![breakpoint, breakpoint], 2), Ok(breakpoint));
    assert_eq!(
        VcpuStateError::DifferentStates.to_string(),
        "Unknown VM state: vCPUs hold different states."
    );
    assert_eq!(VcpuStateError::NoVcpus.to_string(), "vcpu_num is zero");
}

#[test]
fn vcpu_guard_goes_back_to_what_it_found() {
    assert_eq!(VcpuSuspendGuard::begin(VmRunMode::Running), Ok(SuspendStep::Suspend));
    assert_eq!(VcpuSuspendGuard::begin(VmRunMode::Suspending), Ok(SuspendStep::Keep));
    assert_eq!(
        VcpuSuspendGuard::begin(VmRunMode::Exiting),
        Err(VcpuSuspendError::NotRunning(VmRunMode::Exiting))
    );
    let guard = VcpuSuspendGuard::new(VmRunMode::Running, VmRunMode::Suspending).unwrap();
    assert_eq!(guard.release(), Some(VmRunMode::Running));
    let guard = VcpuSuspendGuard::new(VmRunMode::Suspending, VmRunMode::Suspending).unwrap();
    assert_eq!(guard.release(), None);
    assert_eq!(
        VcpuSuspendGuard::new(VmRunMode::Running, VmRunMode::Running).err(),
        Some(VcpuSuspendError::FailedToSuspend(VmRunMode::Running))
    );
}

#[test]
fn device_guard_wakes_what_it_put_to_sleep() {
    assert!(matches!(
        DeviceSleepGuard::first_command(),
        DeviceControlCommand::GetDevicesState
    ));
    assert!(DeviceSleepGuard::needs_sleep(&VmResponse::DevicesState(DevicesState::Wake)));
    assert!(!DeviceSleepGuard::needs_sleep(&VmResponse::DevicesState(DevicesState::Sleep)));
    assert!(!DeviceSleepGuard::needs_sleep(&VmResponse::Done));
    let guard =
        DeviceSleepGuard::new(VmResponse::DevicesState(DevicesState::Wake), Some(VmResponse::Done))
            .unwrap();
    assert!(matches!(guard.release(), Some(DeviceControlCommand::WakeDevices)));
    let guard = DeviceSleepGuard::new(VmResponse::DevicesState(DevicesState::Sleep), None).unwrap();
    assert!(guard.release().is_none());
    assert_eq!(
        DeviceSleepGuard::new(VmResponse::Done, None).err(),
        Some(DeviceSleepError::NoDevicesState)
    );
    assert_eq!(
        DeviceSleepGuard::new(
            VmResponse::DevicesState(DevicesState::Wake),
            Some(VmResponse::Failed(Error::new(5)))
        )
        .err(),
        Some(DeviceSleepError::SleepFailed)
    );
    assert_eq!(
        DeviceSleepGuard::new(VmResponse::DevicesState(DevicesState::Wake), None).err(),
        Some(DeviceSleepError::SleepFailed)
    );
}

#[test]
fn disk_commands_are_answered() {
    assert!(matches!(
        handle_disk_command(true, Some(DiskControlResult::Done)),
        VmResponse::Done
    ));
    assert!(matches!(
        handle_disk_command(true, Some(DiskControlResult::Failed(Error::new(28)))),
        VmResponse::Failed(e) if e == Error::new(28)
    ));
    assert!(matches!(
        handle_disk_command(true, None),
        VmResponse::Failed(e) if e == Error::new(libc::EINVAL)
    ));
    assert!(matches!(
        handle_disk_command(false, Some(DiskControlResult::Done)),
        VmResponse::Failed(e) if e == Error::new(libc::EINVAL)
    ));
}

struct Chip {
    fail: bool,
    seen: Vec<String>,
}

impl IrqChipSetup for Chip {
    fn set_up_irq(&mut self, setup: IrqSetup) -> Result<(), Error> {
        self.seen.push(format!("{:?}", setup));
        if self.fail {
            Err(Error::new(16))
        } else {
            Ok(())
        }
    }
}

struct Numbers {
    free: Vec<u32>,
    released: Vec<u32>,
}

impl IrqAllocator for Numbers {
    fn allocate_irq(&mut self) -> Option<u32> {
        self.free.pop()
    }

    fn release_irq(&mut self, irq: u32) {
        self.released.push(irq);
    }
}

fn chip(fail: bool) -> Chip {
    Chip {
        fail,
        seen: Vec::new(),
    }
}

fn numbers(free: &[u32]) -> Numbers {
    Numbers {
        free: free.to_vec(),
        released: Vec::new(),
    }
}

#[test]
fn interrupt_requests_are_carried_out() {
    let allocate = VmIrqRequest::AllocateOneMsi {
        irqfd: 7,
        device_id: 1,
        queue_id: 2,
        device_name: "net".to_owned(),
    };
    let mut c = chip(false);
    let mut n = numbers(&[33]);
    assert_eq!(
        allocate.execute(&mut c, &mut n),
        VmIrqResponse::AllocateOneMsi { gsi: 33 }
    );
    assert_eq!(
        c.seen,
        vec!["Event { gsi: 33, irqfd: 7, device_id: 1, queue_id: 2, device_name: \"net\" }"]
    );
    // No number is free: the chip is not asked.
    let mut c = chip(false);
    assert_eq!(
        allocate.execute(&mut c, &mut n),
        VmIrqResponse::Failed(Error::new(libc::EINVAL))
    );
    assert!(c.seen.is_empty());
    // The chip fails.
    let mut n = numbers(&[34]);
    assert_eq!(
        allocate.execute(&mut chip(true), &mut n),
        VmIrqResponse::Failed(Error::new(16))
    );
    let at = VmIrqRequest::AllocateOneMsiAtGsi {
        irqfd: 7,
        gsi: 40,
        device_id: 1,
        queue_id: 2,
        device_name: "net".to_owned(),
    };
    let mut n = numbers(&[1]);
    assert_eq!(at.execute(&mut chip(false), &mut n), VmIrqResponse::Done);
    assert_eq!(n.free, vec![1]);
    let route = VmIrqRequest::AddMsiRoute {
        gsi: 40,
        msi_address: 0xfee0_0000,
        msi_data: 5,
    };
    let mut c = chip(false);
    assert_eq!(route.execute(&mut c, &mut n), VmIrqResponse::Done);
    assert_eq!(c.seen, vec!["Route { gsi: 40, msi_address: 4276092928, msi_data: 5 }"]);
    assert_eq!(
        route.execute(&mut chip(true), &mut n),
        VmIrqResponse::Failed(Error::new(16))
    );
    // Giving a number back succeeds whatever the chip says.
    let release = VmIrqRequest::ReleaseOneIrq { gsi: 40, irqfd: 7 };
    let mut c = chip(true);
    assert_eq!(release.execute(&mut c, &mut n), VmIrqResponse::Done);
    assert_eq!(c.seen, vec!["UnRegister { gsi: 40, irqfd: 7 }"]);
    assert_eq!(n.released, vec![40]);
}

/// A machine that does what it is scripted to do and writes down what it was asked.
struct Scripted {
    pm: bool,
    vcpus: Vec<Vec<VmRunMode>>,
    device_answers: Vec<Option<VmResponse>>,
    device_send_ok: bool,
    disks: usize,
    disk_answer: Option<DiskControlResult>,
    usb: bool,
    usb_answer: Option<UsbControlResult>,
    battery: Option<BatteryType>,
    bat_answer: Option<BatControlResult>,
    swap: bool,
    swap_ok: bool,
    files_ok: bool,
    log: Vec<String>,
}

fn machine() -> Scripted {
    Scripted {
        pm: true,
        vcpus: vec![],
        device_answers: vec![],
        device_send_ok: true,
        disks: 1,
        disk_answer: Some(DiskControlResult::Done),
        usb: true,
        usb_answer: Some(UsbControlResult::NoSuchPort),
        battery: Some(BatteryType::Goldfish),
        bat_answer: Some(BatControlResult::Done),
        swap: true,
        swap_ok: true,
        files_ok: true,
        log: vec![],
    }
}

impl Machine for Scripted {
    fn has_pm(&self) -> bool {
        self.pm
    }
    fn pwrbtn_evt(&mut self) {
        self.log.push("pwrbtn".to_owned());
    }
    fn slpbtn_evt(&mut self) {
        self.log.push("slpbtn".to_owned());
    }
    fn rtc_evt(&mut self) {
        self.log.push("rtc".to_owned());
    }
    fn gpe_evt(&mut self, gpe: u32) {
        self.log.push(format!("gpe {}", gpe));
    }
    fn pme_evt(&mut self, requester_id: u16) {
        self.log.push(format!("pme {}", requester_id));
    }
    fn kick_vcpus(&mut self, control: VcpuControl) {
        self.log.push(format!("kick {:?}", control));
    }
    fn vcpu_states(&mut self) -> Vec<VmRunMode> {
        self.log.push("states".to_owned());
        self.vcpus.remove(0)
    }
    fn send_device_control(&mut self, command: DeviceControlCommand) -> bool {
        self.log.push(format!("devices {:?}", command));
        self.device_send_ok
    }
    fn recv_device_control(&mut self) -> Option<VmResponse> {
        self.device_answers.remove(0)
    }
    fn has_usb(&self) -> bool {
        self.usb
    }
    fn send_usb(&mut self, command: &UsbControlCommand) -> bool {
        self.log.push(format!("usb {:?}", command));
        true
    }
    fn recv_usb(&mut self) -> Option<UsbControlResult> {
        self.usb_answer.take()
    }
    fn battery_type(&self) -> Option<BatteryType> {
        self.battery
    }
    fn send_bat(&mut self, command: &BatControlCommand) -> bool {
        self.log.push(format!("bat {:?}", command));
        true
    }
    fn recv_bat(&mut self) -> Option<BatControlResult> {
        self.bat_answer
    }
    fn has_swap(&self) -> bool {
        self.swap
    }
    fn swap_suspend_devices(&mut self) -> bool {
        self.log.push("swap suspend".to_owned());
        true
    }
    fn swap_resume_devices(&mut self) {
        self.log.push("swap resume".to_owned());
    }
    fn swap(&mut self, command: SwapCommand) -> Result<Option<String>, ()> {
        self.log.push(format!("swap {:?}", command));
        if !self.swap_ok {
            Err(())
        } else if command == SwapCommand::Status {
            Ok(Some("{}".to_owned()))
        } else {
            Ok(None)
        }
    }
    fn snapshot(&mut self, snapshot_path: &str) -> bool {
        self.log.push(format!("snapshot {}", snapshot_path));
        self.files_ok
    }
    fn restore(&mut self, restore_path: &str) -> bool {
        self.log.push(format!("restore {}", restore_path));
        self.files_ok
    }
}

/// The way to a disk that answers what it is scripted to answer.
struct Disk {
    index: usize,
    answer: Option<DiskControlResult>,
    log: RefCell<Vec<String>>,
}

impl DiskTube for Disk {
    fn send(&self, command: &DiskControlCommand) -> bool {
        self.log.borrow_mut().push(format!("disk {} {}", self.index, command.to_string()));
        true
    }

    fn recv(&self) -> Option<DiskControlResult> {
        self.answer
    }
}

fn no_disks() -> Vec<Disk> {
    Vec::new()
}

fn run(request: VmRequest, m: &mut Scripted) -> (VmResponse, Option<VmRunMode>) {
    let mut run_mode = None;
    let disks: Vec<Disk> = (0..m.disks)
        .map(|index| Disk { index, answer: m.disk_answer, log: RefCell::new(Vec::new()) })
        .collect();
    let response = request.execute(&mut run_mode, &disks, m, false, 2);
    for disk in disks {
        m.log.extend(disk.log.into_inner());
    }
    (response, run_mode)
}

#[test]
fn a_machine_without_disks_has_no_such_device() {
    let mut m = machine();
    let mut run_mode = None;
    let request = VmRequest::DiskCommand {
        disk_index: 0,
        command: DiskControlCommand::Resize { new_size: 0 },
    };
    let response = request.execute(&mut run_mode, &no_disks(), &mut m, false, 2);
    assert!(failed_with(&response, libc::ENODEV));
    assert_eq!(run_mode, None);
    assert!(m.log.is_empty());
    assert!(failed_with(&disk_precheck(0, 0).unwrap(), libc::ENODEV));
    assert!(failed_with(&disk_precheck(3, 3).unwrap(), libc::ENODEV));
    assert!(disk_precheck(2, 3).is_none());
}

fn failed_with(response: &VmResponse, errno: i32) -> bool {
    matches!(response, VmResponse::Failed(e) if *e == Error::new(errno))
}

#[test]
fn requests_that_set_the_run_mode() {
    let mut m = machine();
    assert!(matches!(
        run(VmRequest::Exit, &mut m),
        (VmResponse::Done, Some(VmRunMode::Exiting))
    ));
    assert!(matches!(
        run(VmRequest::SuspendVcpus, &mut m),
        (VmResponse::Done, Some(VmRunMode::Suspending))
    ));
    assert!(m.log.is_empty());
    m.device_answers = vec![Some(VmResponse::DevicesState(DevicesState::Wake))];
    assert!(matches!(
        run(VmRequest::ResumeVcpus, &mut m),
        (VmResponse::Done, Some(VmRunMode::Running))
    ));
    // Devices that sleep keep the processors stopped.
    m.device_answers = vec![Some(VmResponse::DevicesState(DevicesState::Sleep))];
    let (response, mode) = run(VmRequest::ResumeVcpus, &mut m);
    assert!(failed_with(&response, libc::EINVAL));
    assert_eq!(mode, None);
    m.device_answers = vec![None];
    assert!(failed_with(&run(VmRequest::ResumeVcpus, &mut m).0, libc::EINVAL));
    m.device_send_ok = false;
    assert!(failed_with(&run(VmRequest::ResumeVcpus, &mut m).0, libc::EIO));
}

#[test]
fn resume_presses_power_button_when_forced() {
    let mut m = machine();
    m.device_answers = vec![Some(VmResponse::DevicesState(DevicesState::Wake))];
    let mut run_mode = None;
    let response = VmRequest::ResumeVcpus.execute(&mut run_mode, &no_disks(), &mut m, true, 2);
    assert!(matches!(response, VmResponse::Done));
    assert_eq!(m.log, vec!["devices GetDevicesState", "pwrbtn"]);
    let mut m = machine();
    m.pm = false;
    m.device_answers = vec![Some(VmResponse::DevicesState(DevicesState::Wake))];
    let response = VmRequest::ResumeVcpus.execute(&mut run_mode, &no_disks(), &mut m, true, 2);
    assert!(failed_with(&response, libc::ENOTSUP));
    assert_eq!(run_mode, Some(VmRunMode::Running));
}

#[test]
fn power_management_is_needed_for_buttons() {
    let mut m = machine();
    assert!(matches!(run(VmRequest::Powerbtn, &mut m).0, VmResponse::Done));
    assert!(matches!(run(VmRequest::Sleepbtn, &mut m).0, VmResponse::Done));
    assert!(matches!(run(VmRequest::Rtc, &mut m).0, VmResponse::Done));
    assert!(matches!(run(VmRequest::Gpe(3), &mut m).0, VmResponse::Done));
    assert!(matches!(run(VmRequest::PciPme(4), &mut m).0, VmResponse::Done));
    assert_eq!(m.log, vec!["pwrbtn", "slpbtn", "rtc", "gpe 3", "pme 4"]);
    let mut m = machine();
    m.pm = false;
    assert!(failed_with(&run(VmRequest::Powerbtn, &mut m).0, libc::ENOTSUP));
    assert!(failed_with(&run(VmRequest::Gpe(3), &mut m).0, libc::ENOTSUP));
    assert!(m.log.is_empty());
    assert!(matches!(pm_response(true), VmResponse::Done));
}

#[test]
fn machine_is_suspended_and_resumed() {
    let mut m = machine();
    m.vcpus = vec![vec![VmRunMode::Suspending, VmRunMode::Suspending]];
    m.device_answers = vec![Some(VmResponse::Done)];
    assert!(matches!(run(VmRequest::SuspendVm, &mut m).0, VmResponse::Done));
    assert_eq!(
        m.log,
        vec!["kick RunState(Suspending)", "states", "devices SleepDevices"]
    );
    let mut m = machine();
    m.vcpus = vec![vec![VmRunMode::Suspending, VmRunMode::Running]];
    assert!(failed_with(&run(VmRequest::SuspendVm, &mut m).0, libc::EIO));
    let mut m = machine();
    m.vcpus = vec![vec![VmRunMode::Running, VmRunMode::Running]];
    assert!(failed_with(&run(VmRequest::SuspendVm, &mut m).0, libc::EIO));
    let mut m = machine();
    m.device_answers = vec![Some(VmResponse::Done)];
    assert!(matches!(run(VmRequest::ResumeVm, &mut m).0, VmResponse::Done));
    assert_eq!(m.log, vec!["devices WakeDevices", "kick RunState(Running)"]);
    let mut m = machine();
    m.device_answers = vec![Some(VmResponse::Failed(Error::new(1)))];
    assert!(failed_with(&run(VmRequest::ResumeVm, &mut m).0, libc::EIO));
    assert_eq!(m.log, vec!["devices WakeDevices"]);
    let mut m = machine();
    assert!(matches!(run(VmRequest::MakeRT, &mut m).0, VmResponse::Done));
    assert_eq!(m.log, vec!["kick MakeRT"]);
}

#[test]
fn commands_go_to_their_devices() {
    let disk = |disk_index| VmRequest::DiskCommand {
        disk_index,
        command: DiskControlCommand::Resize { new_size: 9 },
    };
    let mut m = machine();
    assert!(matches!(run(disk(0), &mut m).0, VmResponse::Done));
    assert_eq!(m.log, vec!["disk 0 disk_resize 9"]);
    assert!(failed_with(&run(disk(1), &mut m).0, libc::ENODEV));
    m.disk_answer = Some(DiskControlResult::Failed(Error::new(28)));
    assert!(failed_with(&run(disk(0), &mut m).0, 28));
    m.disk_answer = None;
    assert!(failed_with(&run(disk(0), &mut m).0, libc::EINVAL));

    let usb = || VmRequest::UsbCommand(UsbControlCommand::DetachDevice { port: 1 });
    assert!(matches!(
        run(usb(), &mut m).0,
        VmResponse::UsbResponse(UsbControlResult::NoSuchPort)
    ));
    assert!(failed_with(&run(usb(), &mut m).0, libc::EIO));
    m.usb = false;
    assert!(failed_with(&run(usb(), &mut m).0, libc::ENODEV));

    let bat = || VmRequest::BatCommand(BatteryType::Goldfish, BatControlCommand::SetPresent(1));
    assert!(matches!(
        run(bat(), &mut m).0,
        VmResponse::BatResponse(BatControlResult::Done)
    ));
    m.bat_answer = None;
    assert!(failed_with(&run(bat(), &mut m).0, libc::EIO));
    m.battery = None;
    assert!(matches!(
        run(bat(), &mut m).0,
        VmResponse::BatResponse(BatControlResult::NoBatDevice)
    ));
    assert!(bat_precheck(Some(BatteryType::Goldfish), BatteryType::Goldfish).is_none());
    assert_eq!(may_resume_vcpus(false, &None), Err(Error::new(libc::EIO)));
}

#[test]
fn swap_holds_the_machine_still_while_it_is_enabled() {
    let mut m = machine();
    m.vcpus = vec![
        vec![VmRunMode::Running, VmRunMode::Running],
        vec![VmRunMode::Suspending, VmRunMode::Suspending],
    ];
    assert!(matches!(
        run(VmRequest::Swap(SwapCommand::Enable), &mut m).0,
        VmResponse::Done
    ));
    assert_eq!(
        m.log,
        vec![
            "states",
            "kick RunState(Suspending)",
            "states",
            "swap suspend",
            "swap Enable",
            "swap resume",
            "kick RunState(Running)"
        ]
    );
    // Processors that do not stop are sent back, and nothing is swapped.
    let mut m = machine();
    m.vcpus = vec![
        vec![VmRunMode::Running, VmRunMode::Running],
        vec![VmRunMode::Running, VmRunMode::Suspending],
    ];
    assert!(failed_with(
        &run(VmRequest::Swap(SwapCommand::Enable), &mut m).0,
        libc::EINVAL
    ));
    assert_eq!(m.log, vec!["states", "kick RunState(Suspending)", "states"]);
    let mut m = machine();
    m.vcpus = vec![
        vec![VmRunMode::Running, VmRunMode::Running],
        vec![VmRunMode::Running, VmRunMode::Running],
    ];
    assert_eq!(
        suspend_vcpus(&mut m, 2).err(),
        Some(VcpuSuspendError::FailedToSuspend(VmRunMode::Running))
    );
    assert_eq!(m.log.last().unwrap(), "kick RunState(Running)");
    let mut m = machine();
    m.vcpus = vec![vec![VmRunMode::Exiting, VmRunMode::Exiting]];
    assert_eq!(
        suspend_vcpus(&mut m, 2).err(),
        Some(VcpuSuspendError::State(VcpuStateError::Exiting))
    );
    let mut m = machine();
    assert!(matches!(
        run(VmRequest::Swap(SwapCommand::Status), &mut m).0,
        VmResponse::SwapStatus(s) if s == "{}"
    ));
    assert!(matches!(
        run(VmRequest::Swap(SwapCommand::Trim), &mut m).0,
        VmResponse::Done
    ));
    m.swap_ok = false;
    assert!(failed_with(
        &run(VmRequest::Swap(SwapCommand::SwapOut), &mut m).0,
        libc::EINVAL
    ));
    m.swap = false;
    assert!(failed_with(
        &run(
            VmRequest::Swap(SwapCommand::Disable {
                slow_file_cleanup: true
            }),
            &mut m
        )
        .0,
        libc::ENOTSUP
    ));
}

#[test]
fn snapshots_and_listeners() {
    let mut m = machine();
    let take = || {
        VmRequest::Snapshot(SnapshotCommand::Take {
            snapshot_path: "/tmp/s".to_owned(),
        })
    };
    let apply = || {
        VmRequest::Restore(RestoreCommand::Apply {
            restore_path: "/tmp/s".to_owned(),
        })
    };
    assert!(matches!(run(take(), &mut m).0, VmResponse::Done));
    assert!(matches!(run(apply(), &mut m).0, VmResponse::Done));
    assert_eq!(m.log, vec!["snapshot /tmp/s", "restore /tmp/s"]);
    m.files_ok = false;
    assert!(failed_with(&run(take(), &mut m).0, libc::EIO));
    assert!(failed_with(&run(apply(), &mut m).0, libc::EIO));
    assert!(matches!(
        run(
            VmRequest::Unregister {
                socket_addr: "a".to_owned()
            },
            &mut m
        )
        .0,
        VmResponse::Done
    ));
    assert!(matches!(
        run(VmRequest::HotPlugNetCommand(NetControlCommand::RemoveTap(1)), &mut m).0,
        VmResponse::ErrString(e) if e == "hot plug not supported"
    ));
}

#[test]
fn interrupts_are_flushed_until_a_round_serves_nothing() {
    assert_eq!(
        irq_flush_step(IrqHandlerResponse::HandlerIterationComplete(0)),
        FlushStep::Flushed
    );
    assert_eq!(
        irq_flush_step(IrqHandlerResponse::HandlerIterationComplete(3)),
        FlushStep::Again
    );
    assert_eq!(
        irq_flush_step(IrqHandlerResponse::IrqEventTokenRefreshComplete),
        FlushStep::Unexpected
    );
    assert!(!irq_flush_may_be_stalled(100));
    assert!(irq_flush_may_be_stalled(101));
    assert_eq!(check_cpu_count(4, 4), Ok(()));
    assert_eq!(
        check_cpu_count(4, 2),
        Err("bad cpu count in snapshot: expected=4 got=2".to_owned())
    );
}

struct Quiet;

impl PmResource for Quiet {}

struct Bell {
    rung: u32,
}

impl GpeNotify for Bell {
    fn notify(&mut self) {
        self.rung += 1;
    }
}

impl PmeNotify for Bell {
    fn notify(&mut self, requester_id: u16) {
        self.rung += requester_id as u32;
    }
}

struct Buttons {
    pressed: Vec<&'static str>,
}

impl PmResource for Buttons {
    fn pwrbtn_evt(&mut self) {
        self.pressed.push("power");
    }

    fn gpe_evt(&mut self, _gpe: u32) {
        self.pressed.push("gpe");
    }
}

#[test]
fn power_management_offers_nothing_by_default() {
    let mut quiet = Quiet;
    quiet.pwrbtn_evt();
    quiet.slpbtn_evt();
    quiet.rtc_evt();
    quiet.gpe_evt(3);
    quiet.pme_evt(0x100);
    quiet.register_gpe_notify_dev(3, Bell { rung: 0 });
    quiet.register_pme_notify_dev(1, Bell { rung: 0 });

    let mut buttons = Buttons { pressed: Vec::new() };
    buttons.pwrbtn_evt();
    buttons.slpbtn_evt();
    buttons.gpe_evt(1);
    assert_eq!(buttons.pressed, vec!["power", "gpe"]);

    let mut bell = Bell { rung: 0 };
    GpeNotify::notify(&mut bell);
    PmeNotify::notify(&mut bell, 4);
    assert_eq!(bell.rung, 5);
}
