use clash_controller::model::{DelayHistory, Mode, Proxy};
use clash_controller::reconcile::{contains_name, reconcile, DIRECT, DIRECT_TYPE, GLOBAL};
use clash_controller::snapshot::ProxySnapshot;

fn node(name: &str, kind: &str) -> Proxy {
    Proxy {
        name: name.to_string(),
        proxy_type: kind.to_string(),
        all: Vec::new(),
        now: None,
        history: Vec::new(),
    }
}

fn group(name: &str, members: &[&str], now: Option<&str>) -> Proxy {
    Proxy {
        name: name.to_string(),
        proxy_type: "Selector".to_string(),
        all: members.iter().map(|m| m.to_string()).collect(),
        now: now.map(|n| n.to_string()),
        history: Vec::new(),
    }
}

fn names(proxies: &[Proxy]) -> Vec<String> {
    proxies.iter().map(|p| p.name.clone()).collect()
}

fn sample() -> ProxySnapshot {
    ProxySnapshot::from_entries(vec![
        node("d", "Direct"),
        node("c", "Shadowsocks"),
        group("GLOBAL", &["a", "b", "c"], Some("a")),
        node("a", "Vmess"),
        node("b", "Trojan"),
    ])
}

#[test]
fn rule_mode_follows_the_member_list_then_orphans() {
    let shown = reconcile(&sample(), Mode::Rule);
    assert_eq!(names(&shown), vec!["a", "b", "c", "d"]);
    assert_eq!(shown[0], node("a", "Vmess"));
    assert_eq!(shown[3], node("d", "Direct"));
}

#[test]
fn global_mode_puts_the_group_first() {
    let shown = reconcile(&sample(), Mode::Global);
    assert_eq!(names(&shown), vec!["GLOBAL", "a", "b", "c", "d"]);
    assert_eq!(shown[0], group("GLOBAL", &["a", "b", "c"], Some("a")));
}

#[test]
fn global_mode_is_rule_mode_behind_the_group() {
    let rule = reconcile(&sample(), Mode::Rule);
    let global = reconcile(&sample(), Mode::Global);
    assert_eq!(global.len(), rule.len() + 1);
    assert_eq!(&global[1..], &rule[..]);
}

#[test]
fn direct_mode_shows_the_stand_in_only() {
    let expected = Proxy {
        name: "DIRECT".to_string(),
        proxy_type: "Direct".to_string(),
        all: Vec::new(),
        now: None,
        history: Vec::new(),
    };
    assert_eq!(reconcile(&sample(), Mode::Direct), vec![expected.clone()]);
    assert_eq!(reconcile(&ProxySnapshot::new(), Mode::Direct), vec![expected]);
}

#[test]
fn reserved_names_are_as_the_daemon_writes_them() {
    assert_eq!(GLOBAL, "GLOBAL");
    assert_eq!(DIRECT, "DIRECT");
    assert_eq!(DIRECT_TYPE, "Direct");
}

#[test]
fn missing_members_are_passed_over() {
    let raw = ProxySnapshot::from_entries(vec![
        group("GLOBAL", &["a", "ghost", "b", "phantom"], None),
        node("b", "Trojan"),
        node("x", "Direct"),
        node("a", "Vmess"),
        node("y", "Reject"),
    ]);
    let shown = reconcile(&raw, Mode::Rule);
    assert_eq!(names(&shown), vec!["a", "b", "x", "y"]);
    // four members, two of them missing, two orphans
    assert_eq!(shown.len(), 4 - 2 + 2);
    let with_group = reconcile(&raw, Mode::Global);
    assert_eq!(with_group.len(), 1 + 4 - 2 + 2);
}

#[test]
fn reconciling_twice_gives_the_same_order() {
    let raw = sample();
    for mode in [Mode::Rule, Mode::Global, Mode::Direct] {
        let first = reconcile(&raw, mode);
        let second = reconcile(&raw, mode);
        assert_eq!(first, second);
    }
    assert_eq!(raw.len(), 5);
}

#[test]
fn without_the_group_every_proxy_is_shown_as_it_stands() {
    let raw = ProxySnapshot::from_entries(vec![
        node("z", "Direct"),
        node("a", "Vmess"),
        group("Auto", &["a"], Some("a")),
    ]);
    assert_eq!(names(&reconcile(&raw, Mode::Rule)), vec!["z", "a", "Auto"]);
    assert_eq!(names(&reconcile(&raw, Mode::Global)), vec!["z", "a", "Auto"]);
    assert_eq!(names(&reconcile(&raw, Mode::Direct)), vec!["DIRECT"]);
}

#[test]
fn an_empty_snapshot_shows_nothing() {
    assert!(reconcile(&ProxySnapshot::new(), Mode::Rule).is_empty());
    assert!(reconcile(&ProxySnapshot::new(), Mode::Global).is_empty());
}

#[test]
fn a_group_without_members_leaves_only_orphans() {
    let raw = ProxySnapshot::from_entries(vec![
        node("a", "Vmess"),
        group("GLOBAL", &[], None),
        node("b", "Trojan"),
    ]);
    assert_eq!(names(&reconcile(&raw, Mode::Rule)), vec!["a", "b"]);
    assert_eq!(names(&reconcile(&raw, Mode::Global)), vec!["GLOBAL", "a", "b"]);
}

#[test]
fn the_group_is_not_shown_as_its_own_member() {
    let raw = ProxySnapshot::from_entries(vec![
        group("GLOBAL", &["GLOBAL", "a"], None),
        node("a", "Vmess"),
    ]);
    assert_eq!(names(&reconcile(&raw, Mode::Rule)), vec!["a"]);
    assert_eq!(names(&reconcile(&raw, Mode::Global)), vec!["GLOBAL", "a"]);
}

#[test]
fn a_member_named_twice_is_shown_twice() {
    let raw = ProxySnapshot::from_entries(vec![
        group("GLOBAL", &["a", "b", "a"], None),
        node("a", "Vmess"),
        node("b", "Trojan"),
    ]);
    assert_eq!(names(&reconcile(&raw, Mode::Rule)), vec!["a", "b", "a"]);
}

#[test]
fn shown_proxies_keep_their_fields() {
    let mut measured = group("Auto", &["a", "b"], Some("b"));
    measured.proxy_type = "URLTest".to_string();
    measured.history = vec![
        DelayHistory { time: "2024-01-01T00:00:00Z".to_string(), delay: 120 },
        DelayHistory { time: "2024-01-01T00:01:00Z".to_string(), delay: 0 },
    ];
    let raw = ProxySnapshot::from_entries(vec![
        group("GLOBAL", &["Auto"], Some("Auto")),
        measured.clone(),
    ]);
    let shown = reconcile(&raw, Mode::Rule);
    assert_eq!(shown, vec![measured]);
}

#[test]
fn a_snapshot_holds_one_proxy_for_each_name() {
    let mut raw = ProxySnapshot::new();
    assert_eq!(raw.len(), 0);
    raw.insert(node("a", "Vmess"));
    raw.insert(node("b", "Trojan"));
    raw.insert(node("a", "Direct"));
    assert_eq!(raw.len(), 2);
    assert_eq!(raw.get("a"), Some(&node("a", "Direct")));
    assert_eq!(raw.get("b"), Some(&node("b", "Trojan")));
    assert_eq!(raw.get("c"), None);
    assert_eq!(raw.position(&"b".to_string()), Some(1));
    assert_eq!(raw.position(&"c".to_string()), None);
    assert_eq!(raw.entry_at(0), &node("a", "Direct"));
    // the replaced proxy keeps the place of the first
    assert_eq!(names(&reconcile(&raw, Mode::Rule)), vec!["a", "b"]);
}

#[test]
fn from_entries_keeps_the_last_proxy_of_a_name() {
    let raw = ProxySnapshot::from_entries(vec![
        node("a", "Vmess"),
        node("b", "Trojan"),
        node("a", "Reject"),
    ]);
    assert_eq!(raw.len(), 2);
    assert_eq!(raw.get("a").map(|p| p.proxy_type.as_str()), Some("Reject"));
}

#[test]
fn contains_name_looks_for_the_exact_name() {
    let list = vec!["a".to_string(), "GLOBAL".to_string()];
    assert!(contains_name(&list, &"a".to_string()));
    assert!(contains_name(&list, &"GLOBAL".to_string()));
    assert!(!contains_name(&list, &"A".to_string()));
    assert!(!contains_name(&Vec::new(), &"a".to_string()));
}

#[test]
fn a_cloned_proxy_equals_the_first() {
    let mut first = group("Auto", &["a", "b"], Some("a"));
    first.history.push(DelayHistory { time: "t".to_string(), delay: -1 });
    let second = first.clone();
    assert_eq!(first, second);
    assert_eq!(first.history[0].clone(), DelayHistory { time: "t".to_string(), delay: -1 });
}
