use std::collections::HashMap;
use std::collections::HashSet;

use vmm_devices::tracing::EventData;
use vmm_devices::tracing::sort_by_value;
use vmm_devices::tracing::syscall_name;
use vmm_devices::tracing::EventInformation;
use vmm_devices::tracing::LayerData;
use vmm_devices::tracing::LatencyInformation;

// example data
fn setup() -> EventData {
    let stats = vec![
        EventInformation{
            pid: 100,
            cpu: 1,
            name: "print".to_string(),
            time_stamp: 100,
            details: " ip=tracing_mark_write buf=32256 VirtioFs Enter: lookup - (self.tag: \"mtdroot\")(parent: 5358)(name: \"LC_MESSAGES\")\n".to_string()
        },
        EventInformation {
            pid: 100,
            cpu: 1,
            name: "sys_enter_write".to_string(),
            time_stamp: 200,
            details: " __syscall_nr=1 fd=0x00000021 buf=0x7f21e4e0a02f count=0x00000001"
                .to_string(),
        },
        EventInformation {
            pid: 100,
            cpu: 1,
            name: "sys_enter_read".to_string(),
            time_stamp: 300,
            details: " __syscall_nr=0 fd=0x00000011 buf=0x7f21ef3fc688 count=0x00000001"
                .to_string(),
        },
        EventInformation {
            pid: 100,
            cpu: 1,
            name: "sys_exit_read".to_string(),
            time_stamp: 400,
            details: " __syscall_nr=0 ret=0x1".to_string(),
        },
        EventInformation {
            pid: 100,
            cpu: 1,
            name: "sys_exit_write".to_string(),
            time_stamp: 500,
            details: " __syscall_nr=1 ret=0x1".to_string(),
        },
        EventInformation {
            pid: 100,
            cpu: 1,
            name: "print".to_string(),
            time_stamp: 600,
            details: " ip=tracing_mark_write buf=32256 VirtioFs Exit: lookup\n".to_string(),
        },
    ];
    let event_names = Vec::new();
    EventData { event_names, stats }
}

fn as_set(names: &[String]) -> HashSet<String> {
    let set: HashSet<String> = names.iter().cloned().collect();
    // Each name stands once.
    assert_eq!(set.len(), names.len());
    set
}

fn as_map(histogram: &[(String, Vec<u64>)]) -> HashMap<String, Vec<u64>> {
    let map: HashMap<String, Vec<u64>> = histogram.iter().cloned().collect();
    assert_eq!(map.len(), histogram.len());
    map
}

#[test]
fn populate_event_names_test() {
    let mut data = setup();
    data.populate_event_names();
    assert_eq!(
        as_set(&data.event_names),
        HashSet::from(["lookup".to_string()])
    );
}

#[test]
fn calculate_latency_data_test() {
    let data = setup();
    let latency_data = data.calculate_latency_data();
    let expected_vec = vec![500];
    let expected_hashmap: HashMap<String, Vec<u64>> =
        HashMap::from([("lookup".to_string(), expected_vec)]);
    let expected_stats = [LatencyInformation {
        event_name: "lookup".to_string(),
        enter_index: 0,
        exit_index: 5,
        latency: 500,
    }]
    .to_vec_by_hand();
    assert_eq!(latency_data.stats, expected_stats);
    assert_eq!(as_map(&latency_data.histogram), expected_hashmap);
}

trait ToVecByHand {
    fn to_vec_by_hand(self) -> Vec<LatencyInformation>;
}

impl ToVecByHand for [LatencyInformation; 1] {
    fn to_vec_by_hand(self) -> Vec<LatencyInformation> {
        self.into_iter().collect()
    }
}

fn event(time_stamp: u64, details: &str) -> EventInformation {
    EventInformation {
        pid: 1,
        cpu: 0,
        name: "print".to_string(),
        time_stamp,
        details: details.to_string(),
    }
}

#[test]
fn calls_of_one_name_are_gathered() {
    let mut data = EventData {
        event_names: Vec::new(),
        stats: vec![
            event(10, "ip 1 VirtioFs Enter: lookup"),
            event(20, "ip 2 VirtioFs Enter: read"),
            event(25, "ip 2 VirtioFs Exit: read"),
            event(40, "ip 1 VirtioFs Exit: lookup"),
            event(50, "ip 3 VirtioFs Enter: lookup"),
            event(53, "ip\t3 VirtioFs   Exit: lookup\n"),
            event(60, "ip 4 VirtioFs Enter: write"),
        ],
    };
    data.populate_event_names();
    assert_eq!(
        data.event_names,
        vec!["lookup".to_string(), "read".to_string(), "write".to_string()]
    );
    let latency_data = data.calculate_latency_data();
    let calls: Vec<(String, usize, usize, u64)> = latency_data
        .stats
        .iter()
        .map(|s| (s.event_name.clone(), s.enter_index, s.exit_index, s.latency))
        .collect();
    assert_eq!(
        calls,
        vec![
            ("lookup".to_string(), 0, 3, 30),
            ("read".to_string(), 1, 2, 5),
            ("lookup".to_string(), 4, 5, 3),
        ]
    );
    assert_eq!(
        latency_data.histogram,
        vec![
            ("lookup".to_string(), vec![30, 3]),
            ("read".to_string(), vec![5]),
        ]
    );
}

#[test]
fn mean_time_of_calls_by_name() {
    let mut data = EventData {
        event_names: Vec::new(),
        stats: vec![
            event(10, "ip 1 VirtioFs Enter: lookup"),
            event(20, "ip 2 VirtioFs Enter: read"),
            event(25, "ip 2 VirtioFs Exit: read"),
            event(40, "ip 1 VirtioFs Exit: lookup"),
            event(50, "ip 3 VirtioFs Enter: lookup"),
            event(55, "ip 3 VirtioFs Exit: lookup"),
        ],
    };
    assert!(data.is_well_formed());
    assert!(data.is_in_order_of_time());
    data.populate_event_names();
    assert_eq!(
        data.calculate_function_time(),
        vec![
            ("lookup".to_string(), (17, 2)),
            ("read".to_string(), (5, 1)),
        ]
    );
}

#[test]
fn traces_are_checked() {
    let data = EventData {
        event_names: Vec::new(),
        stats: vec![event(10, "ip 1 Enter: x"), event(20, "Exit")],
    };
    assert!(!data.is_well_formed());
    let data = EventData {
        event_names: Vec::new(),
        stats: vec![event(10, "ip 1 VirtioFs Enter: x"), event(20, "Exit")],
    };
    assert!(!data.is_well_formed());
    let data = EventData {
        event_names: Vec::new(),
        stats: vec![event(10, "ip 1 VirtioFs Enter: x"), event(9, "ip 1 Exit")],
    };
    assert!(data.is_well_formed());
    assert!(!data.is_in_order_of_time());
    assert!(setup().is_well_formed() && setup().is_in_order_of_time());
    let empty = EventData {
        event_names: Vec::new(),
        stats: vec![],
    };
    assert!(empty.is_well_formed() && empty.is_in_order_of_time());
}

#[test]
fn create_layer_test() {
    let data = setup();
    let mut test_layer_data: Vec<LayerData> = Vec::new();
    let mut test_index_counter = HashSet::new();
    data.create_layer(
        0,
        5,
        100,
        &mut test_layer_data,
        &mut test_index_counter,
    );
    let expected_data = vec![LayerData {
        name: "sys_write".to_string(),
        value: 300,
        children: vec![LayerData {
            name: "sys_read".to_string(),
            value: 100,
            children: vec![],
        }],
    }];
    assert_eq!(test_layer_data, expected_data);
}

fn named(name: &str, pid: i32, time_stamp: u64) -> EventInformation {
    EventInformation {
        pid,
        cpu: 0,
        name: name.to_string(),
        time_stamp,
        details: String::new(),
    }
}

fn layer(name: &str, value: u64, children: Vec<LayerData>) -> LayerData {
    LayerData {
        name: name.to_string(),
        value,
        children,
    }
}

#[test]
fn layers_follow_the_nesting_of_system_calls() {
    let data = EventData {
        event_names: Vec::new(),
        stats: vec![
            named("print", 1, 0),
            named("sys_enter_openat", 1, 10),
            named("sched_switch", 1, 12),
            named("sys_enter_read", 2, 13),
            named("sys_enter_mmap", 1, 15),
            named("sys_exit_mmap", 1, 18),
            named("sys_exit_read", 2, 19),
            named("sys_exit_openat", 1, 30),
            named("sys_enter_futex", 1, 40),
            named("irq", 1, 45),
            named("print", 1, 50),
            named("print", 1, 60),
        ],
    };
    assert!(data.is_layerable(10));
    assert!(!data.is_layerable(12));
    let mut layers = Vec::new();
    let mut used = HashSet::new();
    data.create_layer(0, 10, 1, &mut layers, &mut used);
    assert_eq!(
        layers,
        vec![
            layer(
                "sys_openat",
                20,
                vec![
                    // An event that enters no system call lasts until the next event.
                    layer("sched_switch", 1, vec![]),
                    layer("sys_mmap", 3, vec![]),
                ]
            ),
            // A system call that is not left before the end makes no layer.
            layer("irq", 5, vec![]),
        ]
    );
    let mut used: Vec<usize> = used.into_iter().collect();
    used.sort_unstable();
    assert_eq!(used, vec![1, 2, 4, 5, 7, 8, 9]);
    // Nothing lies between an event and itself.
    let mut layers = Vec::new();
    data.create_layer(5, 5, 1, &mut layers, &mut HashSet::new());
    data.create_layer(7, 3, 1, &mut layers, &mut HashSet::new());
    assert!(layers.is_empty());
}

#[test]
fn system_call_names() {
    assert_eq!(syscall_name("sys_enter_write"), Some(Some("write".to_string())));
    assert_eq!(syscall_name("sys_exit_write"), Some(None));
    assert_eq!(syscall_name("enter_x"), Some(Some("x".to_string())));
    assert_eq!(syscall_name("sys_enter_"), Some(Some(String::new())));
    assert_eq!(syscall_name("re-enter enter_a"), Some(Some("enter_a".to_string())));
    // Nothing follows, or a character of more than one byte.
    assert_eq!(syscall_name("sys_enter"), None);
    assert_eq!(syscall_name("sys_enterä"), None);
    assert_eq!(syscall_name("sys_enterä_write"), None);
    assert_eq!(syscall_name("ä_enter_write"), Some(Some("write".to_string())));
}

#[test]
fn root_layers_are_filtered_sorted_and_cut() {
    let data = EventData {
        event_names: Vec::new(),
        stats: vec![
            EventInformation { pid: 1, cpu: 0, name: "print".to_string(), time_stamp: 0, details: "ip 1 VirtioFs Enter: lookup".to_string() },
            named("sys_enter_read", 1, 1),
            named("sys_exit_read", 1, 4),
            EventInformation { pid: 1, cpu: 0, name: "print".to_string(), time_stamp: 10, details: "ip 1 VirtioFs Exit: lookup".to_string() },
            EventInformation { pid: 1, cpu: 0, name: "print".to_string(), time_stamp: 20, details: "ip 2 VirtioFs Enter: open".to_string() },
            EventInformation { pid: 1, cpu: 0, name: "print".to_string(), time_stamp: 50, details: "ip 2 VirtioFs Exit: open".to_string() },
            EventInformation { pid: 1, cpu: 0, name: "print".to_string(), time_stamp: 60, details: "ip 3 VirtioFs Enter: lookup2".to_string() },
            EventInformation { pid: 1, cpu: 0, name: "print".to_string(), time_stamp: 70, details: "ip 3 VirtioFs Exit: lookup2".to_string() },
            named("print", 1, 80),
        ],
    };
    let latency = data.calculate_latency_data();
    assert!(latency.is_layerable_over(&data));
    let all = latency.calculate_root_layer_events(&data, None, None);
    assert_eq!(
        all,
        vec![
            layer("lookup", 10, vec![layer("sys_read", 3, vec![])]),
            layer("open", 30, vec![]),
            layer("lookup2", 10, vec![]),
        ]
    );
    let lookups = latency.calculate_root_layer_events(&data, Some("lookup".to_string()), None);
    assert_eq!(
        lookups.iter().map(|l| l.name.as_str()).collect::<Vec<_>>(),
        vec!["lookup", "lookup2"]
    );
    // Sorted, the longest first; calls that took the same time keep their order.
    let sorted = latency.calculate_root_layer_events(&data, None, Some(3));
    assert_eq!(
        sorted.iter().map(|l| l.name.as_str()).collect::<Vec<_>>(),
        vec!["open", "lookup", "lookup2"]
    );
    let top = latency.calculate_root_layer_events(&data, None, Some(1));
    assert_eq!(top, vec![layer("open", 30, vec![])]);
    // More are asked for than there are: all are kept.
    let more = latency.calculate_root_layer_events(&data, None, Some(4));
    assert_eq!(more.len(), 3);
    let none = latency.calculate_root_layer_events(&data, None, Some(0));
    assert!(none.is_empty());
}

#[test]
fn sorting_agrees_with_a_stable_sort() {
    let values = [5u64, 1, 5, 9, 0, 9, 3, 5];
    let layers: Vec<LayerData> = values
        .iter()
        .enumerate()
        .map(|(i, v)| layer(&i.to_string(), *v, vec![]))
        .collect();
    let mut expected: Vec<(String, u64)> = layers.iter().map(|l| (l.name.clone(), l.value)).collect();
    expected.sort_by(|a, b| b.1.cmp(&a.1));
    let sorted: Vec<(String, u64)> = sort_by_value(layers)
        .into_iter()
        .map(|l| (l.name, l.value))
        .collect();
    assert_eq!(sorted, expected);
}
