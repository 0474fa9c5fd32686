use ifdyndnsd::addr::Addr;
use ifdyndnsd::config::{ConfigError, Interface};
use ifdyndnsd::{
    apply_event, finish_primary_at, next_interval, timeout_step, AddressFamily, RecordEntry,
    RecordState, RETRY_INTERVAL_MS,
};

fn v4(a: u32) -> Addr {
    Addr::V4(a)
}

fn v4_task(name: &str, iface: &str, scope: Option<&str>) -> Interface {
    Interface {
        key: "k".to_string(),
        name: Some(name.to_string()),
        interface: iface.to_string(),
        scope: scope.map(|s| s.to_string()),
        zone: None,
        ttl: None,
        neighbors: None,
    }
}

fn v6_task(name: &str, iface: &str, neighbors: Vec<(String, u128)>) -> Interface {
    Interface {
        key: "k".to_string(),
        name: Some(name.to_string()),
        interface: iface.to_string(),
        scope: None,
        zone: None,
        ttl: None,
        neighbors: Some(neighbors),
    }
}

#[test]
fn scope_gate_rejects_out_of_scope_address() {
    // The task watches a /24; an address outside of it must change nothing.
    let mut st = RecordState::try_new(
        v4_task("host.example.", "eth0", Some("203.0.113.0/24")),
        AddressFamily::IPv4,
    )
    .unwrap();
    assert!(!st.set_address(v4(0xC0000201))); // 192.0.2.1
    assert_eq!(st.addr, None);
    assert!(!st.dirty);
    assert!(!st.can_update(0));
}

#[test]
fn set_address_in_scope_marks_dirty() {
    let mut st = RecordState::try_new(
        v4_task("host.example.", "eth0", Some("203.0.113.0/24")),
        AddressFamily::IPv4,
    )
    .unwrap();
    assert!(st.set_address(v4(0xCB007105))); // 203.0.113.5
    assert_eq!(st.addr, Some(v4(0xCB007105)));
    assert!(st.dirty);
    assert!(st.can_update(0));
}

#[test]
fn set_address_twice_is_idempotent() {
    let mut st =
        RecordState::try_new(v4_task("host.example.", "eth0", None), AddressFamily::IPv4).unwrap();
    assert!(st.set_address(v4(5)));
    let dirty_after_first = st.dirty;
    assert!(!st.set_address(v4(5)));
    assert_eq!(st.dirty, dirty_after_first);
}

#[test]
fn retry_after_failure_waits_the_interval() {
    let mut st =
        RecordState::try_new(v4_task("host.example.", "eth0", None), AddressFamily::IPv4).unwrap();
    assert!(st.set_address(v4(7)));
    let t = 10_000;
    let primary = st.begin_update(t);
    assert_eq!(primary, Some(("host.example.".to_string(), v4(7))));
    // The server failed: the record is dirty again, but must wait.
    let neighbors = st.finish_primary(false);
    assert!(neighbors.is_empty());
    assert!(st.dirty);
    assert!(!st.can_update(t));
    assert!(!st.can_update(t + RETRY_INTERVAL_MS - 1));
    assert!(st.can_update(t + RETRY_INTERVAL_MS));
    // The second attempt succeeds: clean again.
    let _ = st.begin_update(t + RETRY_INTERVAL_MS);
    let _ = st.finish_primary(true);
    assert!(!st.dirty);
    assert!(!st.can_update(t + 2 * RETRY_INTERVAL_MS));
}

#[test]
fn successful_update_clears_dirty() {
    let mut st =
        RecordState::try_new(v4_task("host.example.", "eth0", None), AddressFamily::IPv4).unwrap();
    assert!(st.set_address(v4(9)));
    let _ = st.begin_update(5);
    let _ = st.finish_primary(true);
    assert!(!st.dirty);
    assert_eq!(st.next_timeout(6), None);
}

#[test]
fn v4_with_neighbors_is_a_configuration_error() {
    let task = Interface {
        key: "k".to_string(),
        name: Some("host.example.".to_string()),
        interface: "eth0".to_string(),
        scope: None,
        zone: None,
        ttl: None,
        neighbors: Some(vec![("peer.example.".to_string(), 0x42u128)]),
    };
    let r = RecordState::try_new(task, AddressFamily::IPv4);
    assert_eq!(r.err(), Some(ConfigError::NeighborsOnV4));
}

#[test]
fn v4_with_empty_neighbor_map_is_accepted() {
    let task = Interface {
        key: "k".to_string(),
        name: Some("host.example.".to_string()),
        interface: "eth0".to_string(),
        scope: None,
        zone: None,
        ttl: None,
        neighbors: Some(vec![]),
    };
    assert!(RecordState::try_new(task, AddressFamily::IPv4).is_ok());
}

#[test]
fn bad_scope_string_is_rejected() {
    let r = RecordState::try_new(
        v4_task("host.example.", "eth0", Some("not-a-cidr")),
        AddressFamily::IPv4,
    );
    assert_eq!(r.err(), Some(ConfigError::BadScope));
}

#[test]
fn scope_of_wrong_family_is_rejected() {
    let r = RecordState::try_new(
        v4_task("host.example.", "eth0", Some("2000::/3")),
        AddressFamily::IPv4,
    );
    assert_eq!(r.err(), Some(ConfigError::ScopeFamily));
}

#[test]
fn default_v6_scope_is_global_unicast() {
    let mut st =
        RecordState::try_new(v6_task("self.example.", "wlan0", vec![]), AddressFamily::IPv6)
            .unwrap();
    // A link-local address lies outside 2000::/3 and is ignored.
    assert!(!st.set_address(Addr::V6(0xfe80_0000_0000_0000_0000_0000_0000_0001)));
    // A global-unicast one is taken.
    assert!(st.set_address(Addr::V6(0x2001_0db8_0000_0000_0000_0000_0000_0010)));
}

#[test]
fn neighbors_follow_a_successful_v6_update() {
    // The learned /64 prefix is 2001:db8:abcd:1::; the template keeps its
    // low 64 bits, so the neighbor gets ...:1::42.
    let template: u128 = 0x0000_0000_0000_0001_0000_0000_0000_0042;
    let learned: u128 = 0x2001_0db8_abcd_0001_0000_0000_0000_0010;
    let derived: u128 = 0x2001_0db8_abcd_0001_0000_0000_0000_0042;
    let mut st = RecordState::try_new(
        v6_task("self.example.", "wlan0", vec![("printer.example.".to_string(), template)]),
        AddressFamily::IPv6,
    )
    .unwrap();
    assert!(st.set_address(Addr::V6(learned)));
    let primary = st.begin_update(0);
    assert_eq!(primary, Some(("self.example.".to_string(), Addr::V6(learned))));
    let neighbors = st.finish_primary(true);
    assert_eq!(neighbors, vec![("printer.example.".to_string(), Addr::V6(derived))]);
    // A failed neighbor update does not re-dirty the record.
    assert!(!st.dirty);
}

#[test]
fn no_neighbors_after_failed_primary() {
    let mut st = RecordState::try_new(
        v6_task("self.example.", "wlan0", vec![("printer.example.".to_string(), 0x42)]),
        AddressFamily::IPv6,
    )
    .unwrap();
    assert!(st.set_address(Addr::V6(0x2001_0db8_0000_0000_0000_0000_0000_0010)));
    let _ = st.begin_update(0);
    let neighbors = st.finish_primary(false);
    assert!(neighbors.is_empty());
    assert!(st.dirty);
}

#[test]
fn neighbor_address_splices_prefix_and_suffix() {
    let derived = ifdyndnsd::addr::neighbor_address(
        0x2001_0db8_abcd_0001_aaaa_bbbb_cccc_dddd,
        0x1111_2222_3333_4444_0000_0000_0000_0042,
    );
    assert_eq!(derived, 0x2001_0db8_abcd_0001_0000_0000_0000_0042);
}

fn entry(iface: &str, task: Interface, af: AddressFamily) -> RecordEntry {
    RecordEntry {
        interface: iface.to_string(),
        state: RecordState::try_new(task, af).unwrap(),
    }
}

#[test]
fn events_reach_only_matching_interfaces() {
    let mut records = vec![
        entry("eth0", v4_task("a.example.", "eth0", None), AddressFamily::IPv4),
        entry("wlan0", v4_task("b.example.", "wlan0", None), AddressFamily::IPv4),
    ];
    let changed = apply_event(&mut records, &"eth0".to_string(), v4(5));
    assert!(changed);
    assert!(records[0].state.dirty);
    assert!(!records[1].state.dirty);
    // The same event again changes nothing.
    assert!(!apply_event(&mut records, &"eth0".to_string(), v4(5)));
}

#[test]
fn timeout_step_updates_at_most_one_record() {
    let mut records = vec![
        entry("eth0", v4_task("a.example.", "eth0", None), AddressFamily::IPv4),
        entry("eth0", v4_task("b.example.", "eth0", None), AddressFamily::IPv4),
    ];
    assert!(apply_event(&mut records, &"eth0".to_string(), v4(5)));
    // Both records are due; only the first may start its update.
    let r = timeout_step(&mut records, 100);
    assert!(matches!(r, Some((0, _))));
    assert!(!records[0].state.dirty);
    assert!(records[1].state.dirty);
    // The next wake-up serves the second.
    let r2 = timeout_step(&mut records, 200);
    assert!(matches!(r2, Some((1, _))));
    assert!(!records[1].state.dirty);
    // Nothing is due any more.
    assert!(timeout_step(&mut records, 300).is_none());
}

#[test]
fn debounce_burst_publishes_the_last_address() {
    let mut records =
        vec![entry("eth0", v4_task("host.example.", "eth0", None), AddressFamily::IPv4)];
    let iface = "eth0".to_string();
    assert!(apply_event(&mut records, &iface, v4(0xCB007105))); // 203.0.113.5
    assert!(apply_event(&mut records, &iface, v4(0xCB007106))); // 203.0.113.6
    assert!(apply_event(&mut records, &iface, v4(0xCB007107))); // 203.0.113.7
    let r = timeout_step(&mut records, 1_000).unwrap();
    assert_eq!(r.0, 0);
    assert_eq!(r.1, Some(("host.example.".to_string(), v4(0xCB007107))));
    let _ = finish_primary_at(&mut records, 0, true);
    assert!(timeout_step(&mut records, 1_001).is_none());
}

#[test]
fn next_interval_tracks_the_earliest_retry() {
    let mut records = vec![
        entry("eth0", v4_task("a.example.", "eth0", None), AddressFamily::IPv4),
        entry("eth0", v4_task("b.example.", "eth0", None), AddressFamily::IPv4),
    ];
    // Nothing dirty: no deadline.
    assert_eq!(next_interval(&records, 0), None);
    assert!(apply_event(&mut records, &"eth0".to_string(), v4(5)));
    // Dirty and never tried: due immediately.
    assert_eq!(next_interval(&records, 50), Some(0));
    // The first record's update fails: it waits; the second is still due.
    let r = timeout_step(&mut records, 100).unwrap();
    assert_eq!(r.0, 0);
    let _ = finish_primary_at(&mut records, 0, false);
    assert_eq!(next_interval(&records, 100), Some(0));
    // After the second is begun too, only the failed one's retry remains.
    let r2 = timeout_step(&mut records, 150).unwrap();
    assert_eq!(r2.0, 1);
    let _ = finish_primary_at(&mut records, 1, true);
    assert_eq!(next_interval(&records, 10_100), Some(RETRY_INTERVAL_MS - 10_000));
    // Past the deadline the wait clips to zero.
    assert_eq!(next_interval(&records, 100 + RETRY_INTERVAL_MS + 5), Some(0));
}

#[test]
fn cold_start_publishes_the_snapshot_address() {
    // A fresh daemon learns the interface's address from the initial
    // snapshot and, after the quiet window, plans exactly one update
    // carrying it; a server that knows nothing yet forces the transactions.
    let mut records =
        vec![entry("eth0", v4_task("host.example.", "eth0", None), AddressFamily::IPv4)];
    assert!(apply_event(&mut records, &"eth0".to_string(), v4(0xCB007105)));
    let (i, primary) = timeout_step(&mut records, 1_000).unwrap();
    assert_eq!(i, 0);
    let (name, addr) = primary.unwrap();
    assert_eq!(name, "host.example.");
    assert_eq!(addr, v4(0xCB007105));
    assert!(ifdyndnsd::dns::should_send_update(&Ok(vec![]), &addr));
    let _ = finish_primary_at(&mut records, 0, true);
    assert!(timeout_step(&mut records, 1_001).is_none());
}

#[test]
fn neighbor_only_task_skips_the_primary_update() {
    // A task without a record name publishes only its neighbors.
    let task = Interface {
        key: "k".to_string(),
        name: None,
        interface: "wlan0".to_string(),
        scope: None,
        zone: None,
        ttl: None,
        neighbors: Some(vec![(
            "printer.example.".to_string(),
            0x0000_0000_0000_0000_0000_0000_0000_0042u128,
        )]),
    };
    let mut records = vec![RecordEntry {
        interface: "wlan0".to_string(),
        state: RecordState::try_new(task, AddressFamily::IPv6).unwrap(),
    }];
    let learned: u128 = 0x2001_0db8_abcd_0001_0000_0000_0000_0010;
    assert!(apply_event(&mut records, &"wlan0".to_string(), Addr::V6(learned)));
    let (i, primary) = timeout_step(&mut records, 1_000).unwrap();
    assert_eq!(i, 0);
    assert_eq!(primary, None);
    let neighbors = finish_primary_at(&mut records, 0, true);
    assert_eq!(
        neighbors,
        vec![(
            "printer.example.".to_string(),
            Addr::V6(0x2001_0db8_abcd_0001_0000_0000_0000_0042)
        )]
    );
}
