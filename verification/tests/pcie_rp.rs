use std::cell::RefCell;
use std::rc::Rc;

use vmm_devices::bus::PciAddress;
use vmm_devices::pcie_rp::before;
use vmm_devices::pcie_rp::pme_requester_id;
use vmm_devices::pcie_rp::DownstreamDevices;
use vmm_devices::pcie_rp::HotPlugKey;
use vmm_devices::pcie_rp::PcieDevicePortType;
use vmm_devices::pcie_rp::PciePort;
use vmm_devices::pcie_rp::PcieRootPort;
use vmm_devices::pcie_rp::PCIE_RP_DID;
use vmm_devices::pcie_rp::PCIE_SLTSTA_ABP;
use vmm_devices::pcie_rp::PCIE_SLTSTA_PDS;
use vmm_devices::vm_control::GpeNotify;
use vmm_devices::vm_control::PmeNotify;


#[derive(Default)]
struct Calls {
    log: Vec<String>,
}

struct Port {
    hotplug: bool,
    host: bool,
    removed_valid: bool,
    trigger_pme: bool,
    address: Option<PciAddress>,
    calls: Rc<RefCell<Calls>>,
}

impl PciePort for Port {
    type Host = (bool, Rc<RefCell<Calls>>);

    fn new(
        device_id: u16,
        debug_label: String,
        primary_bus_num: u8,
        secondary_bus_num: u8,
        slot_implemented: bool,
        port_type: PcieDevicePortType,
    ) -> Self {
        assert_eq!(device_id, PCIE_RP_DID);
        assert_eq!(debug_label, "PcieRootPort");
        assert_eq!(primary_bus_num, 0);
        assert_eq!(port_type, PcieDevicePortType::RootPort);
        Port {
            hotplug: slot_implemented,
            host: false,
            removed_valid: true,
            trigger_pme: secondary_bus_num == 9,
            address: Some(PciAddress {
                bus: 1,
                dev: 2,
                func: 3,
            }),
            calls: Rc::new(RefCell::new(Calls::default())),
        }
    }

    fn new_from_host(
        pcie_host: Self::Host,
        slot_implemented: bool,
        port_type: PcieDevicePortType,
    ) -> Result<Self, String> {
        assert_eq!(port_type, PcieDevicePortType::RootPort);
        if !pcie_host.0 {
            return Err("no such port".to_owned());
        }
        Ok(Port {
            hotplug: slot_implemented,
            host: true,
            removed_valid: true,
            trigger_pme: false,
            address: None,
            calls: pcie_host.1,
        })
    }

    fn removed_downstream_valid(&self) -> bool {
        self.removed_valid
    }

    fn hotplug_implemented(&self) -> bool {
        self.hotplug
    }

    fn set_slot_status(&mut self, flag: u16) {
        self.calls.borrow_mut().log.push(format!("status {:#x}", flag));
    }

    fn trigger_hp_or_pme_interrupt(&mut self) {
        self.calls.borrow_mut().log.push("interrupt".to_owned());
    }

    fn is_host(&self) -> bool {
        self.host
    }

    fn hot_unplug(&mut self) {
        self.calls.borrow_mut().log.push("unplug".to_owned());
    }

    fn get_address(&self) -> Option<PciAddress> {
        self.address
    }

    fn get_secondary_bus_number(&self) -> Option<u8> {
        Some(7)
    }

    fn is_match(&self, host_addr: PciAddress) -> Option<u8> {
        if host_addr.bus == 7 {
            Some(7)
        } else {
            None
        }
    }

    fn prepare_hotplug(&mut self) {
        self.calls.borrow_mut().log.push("prepare".to_owned());
    }

    fn should_trigger_pme(&mut self) -> bool {
        self.trigger_pme
    }

    fn inject_pme(&mut self, requester_id: u16) {
        self.calls.borrow_mut().log.push(format!("pme {:#x}", requester_id));
    }
}

fn addr(bus: u8, dev: u8, func: u8) -> PciAddress {
    PciAddress { bus, dev, func }
}

fn vfio(bus: u8) -> HotPlugKey {
    HotPlugKey::HostVfio {
        host_addr: addr(bus, 0, 0),
    }
}

fn host_port() -> (PcieRootPort<Port>, Rc<RefCell<Calls>>) {
    let calls = Rc::new(RefCell::new(Calls::default()));
    let port = PcieRootPort::<Port>::new_from_host((true, calls.clone()), true).unwrap();
    (port, calls)
}

#[test]
fn addresses_are_ordered_by_bus_device_function() {
    assert!(before(addr(0, 31, 7), addr(1, 0, 0)));
    assert!(before(addr(1, 0, 7), addr(1, 1, 0)));
    assert!(before(addr(1, 1, 0), addr(1, 1, 1)));
    assert!(!before(addr(1, 1, 1), addr(1, 1, 1)));
    assert!(!before(addr(2, 0, 0), addr(1, 9, 9)));
    assert_eq!(pme_requester_id(addr(1, 2, 3)), 0x0113);
}

#[test]
fn downstream_devices_are_kept_in_order() {
    let mut devices = DownstreamDevices::new();
    assert!(devices.is_empty());
    devices.insert(addr(2, 0, 0), vfio(2));
    devices.insert(addr(1, 5, 0), vfio(1));
    devices.insert(addr(1, 0, 1), vfio(3));
    devices.insert(addr(2, 0, 0), vfio(4));
    assert_eq!(
        devices.addresses(),
        vec![addr(1, 0, 1), addr(1, 5, 0), addr(2, 0, 0)]
    );
    assert!(devices.contains(addr(1, 5, 0)));
    assert!(!devices.contains(addr(1, 5, 1)));
    assert_eq!(devices.find_key(vfio(4)), Some(addr(2, 0, 0)));
    assert_eq!(devices.find_key(vfio(2)), None);
    assert_eq!(devices.remove(addr(1, 5, 0)), Some(vfio(1)));
    assert_eq!(devices.remove(addr(1, 5, 0)), None);
    assert_eq!(devices.addresses(), vec![addr(1, 0, 1), addr(2, 0, 0)]);
    devices.clear();
    assert!(devices.is_empty());
}

#[test]
fn new_from_host_names_what_failed() {
    let calls = Rc::new(RefCell::new(Calls::default()));
    let r = PcieRootPort::<Port>::new_from_host((false, calls), true);
    assert_eq!(
        r.err(),
        Some("PciePort::new_from_host failed: no such port".to_owned())
    );
}

#[test]
fn plugging_in_tells_the_guest() {
    let (mut port, calls) = host_port();
    assert!(port.is_empty());
    assert!(port.hotplug_implemented_impl());
    assert!(!port.hotplugged_impl());
    assert_eq!(port.get_hotplug_key(), None);
    // Nothing is known at that place.
    port.hot_plug(addr(7, 0, 0));
    assert!(calls.borrow().log.is_empty());
    port.add_hotplug_device(vfio(1), addr(7, 0, 0));
    assert!(!port.is_empty());
    assert_eq!(port.get_hotplug_device(vfio(1)), Some(addr(7, 0, 0)));
    assert_eq!(port.get_hotplug_device(vfio(2)), None);
    port.hot_plug(addr(7, 0, 0));
    assert_eq!(
        calls.borrow().log,
        vec![
            format!("status {:#x}", PCIE_SLTSTA_PDS | PCIE_SLTSTA_ABP),
            "interrupt".to_owned()
        ]
    );
    assert_eq!(port.get_secondary_bus_number(), Some(7));
    assert_eq!(port.is_match(addr(7, 1, 0)), Some(7));
    assert_eq!(port.get_address(), None);
}

#[test]
fn first_removal_of_a_round_takes_all_devices() {
    let (mut port, calls) = host_port();
    port.add_hotplug_device(vfio(1), addr(7, 2, 0));
    port.add_hotplug_device(vfio(2), addr(7, 0, 0));
    port.add_hotplug_device(vfio(3), addr(7, 1, 0));
    port.hot_unplug(addr(7, 1, 0));
    assert_eq!(
        port.get_removed_devices_impl(),
        vec![addr(7, 1, 0), addr(7, 0, 0), addr(7, 2, 0)]
    );
    assert_eq!(
        calls.borrow().log,
        vec![
            format!("status {:#x}", PCIE_SLTSTA_ABP),
            "interrupt".to_owned(),
            "unplug".to_owned()
        ]
    );
    // The round is under way: a second removal tells nobody.
    port.hot_unplug(addr(7, 0, 0));
    assert_eq!(calls.borrow().log.len(), 3);
    assert_eq!(
        port.get_removed_devices_impl(),
        vec![addr(7, 1, 0), addr(7, 0, 0), addr(7, 2, 0)]
    );
    assert_eq!(port.get_hotplug_device(vfio(1)), Some(addr(7, 2, 0)));
    // An unknown device changes nothing.
    port.hot_unplug(addr(9, 9, 9));
    // Plugging in ends the round and forgets what was left of it.
    port.add_hotplug_device(vfio(4), addr(7, 3, 0));
    assert!(port.get_removed_devices_impl().is_empty());
    assert_eq!(port.get_hotplug_device(vfio(1)), None);
    assert_eq!(port.get_hotplug_device(vfio(4)), Some(addr(7, 3, 0)));
}

#[test]
fn port_without_slot_takes_no_devices() {
    let mut port = PcieRootPort::<Port>::new(3, false);
    port.add_hotplug_device(vfio(1), addr(3, 0, 0));
    assert!(port.is_empty());
}

#[test]
fn notifications_wake_the_guest() {
    let (mut port, calls) = host_port();
    GpeNotify::notify(&mut port);
    assert_eq!(calls.borrow().log, vec!["prepare".to_owned()]);
    PmeNotify::notify(&mut port, 0x42);
    assert_eq!(
        calls.borrow().log,
        vec!["prepare".to_owned(), "pme 0x42".to_owned()]
    );
}

#[test]
fn removed_devices_are_handed_out_once_asked_for() {
    let mut port = PcieRootPort::<Port>::new(5, true);
    port.add_hotplug_device(vfio(1), addr(5, 0, 0));
    port.add_hotplug_device(vfio(2), addr(5, 1, 0));
    port.hot_unplug(addr(5, 1, 0));
    assert_eq!(port.removed_devices(true), vec![addr(5, 1, 0), addr(5, 0, 0)]);
    assert_eq!(port.removed_devices(false), vec![]);
    assert_eq!(port.get_removed_devices_impl(), vec![addr(5, 1, 0), addr(5, 0, 0)]);
}

#[test]
fn an_expected_device_stands_at_its_place() {
    // Also on a port that says that nothing can be plugged in.
    let mut port = PcieRootPort::<Port>::new(5, false);
    port.add_hotplug_device(vfio(1), addr(5, 0, 0));
    assert!(port.is_empty());
    port.expect_hotplug_device(vfio(1), addr(5, 0, 0));
    port.expect_hotplug_device(vfio(2), addr(5, 0, 0));
    assert_eq!(port.get_hotplug_device(vfio(2)), Some(addr(5, 0, 0)));
    assert_eq!(port.get_hotplug_device(vfio(1)), None);
    port.hot_unplug(addr(5, 0, 0));
    port.expect_hotplug_device(vfio(3), addr(5, 2, 0));
    assert_eq!(port.removed_devices(true), vec![]);
    assert_eq!(port.get_hotplug_device(vfio(3)), Some(addr(5, 2, 0)));
}
