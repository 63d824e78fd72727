use do_ssh::allow::AllowedPorts;
use do_ssh::allow::DEFAULT_PORT;

#[test]
fn listed_port_is_authorized() {
    let allowed = AllowedPorts::new(&[22]);
    assert!(allowed.authorize(22));
}

#[test]
fn unlisted_port_is_denied() {
    let allowed = AllowedPorts::new(&[22]);
    assert!(!allowed.authorize(80));
    assert!(!allowed.authorize(0));
    assert!(!allowed.authorize(21));
    assert!(!allowed.authorize(23));
    assert!(!allowed.authorize(65535));
}

#[test]
fn empty_list_denies_everything() {
    let allowed = AllowedPorts::new(&[]);
    for port in 0..=u16::MAX {
        assert!(!allowed.authorize(port));
    }
}

#[test]
fn membership_is_exact_over_all_ports() {
    let list = [0u16, 22, 80, 8080, 65535];
    let allowed = AllowedPorts::new(&list);
    for port in 0..=u16::MAX {
        assert_eq!(allowed.authorize(port), list.contains(&port));
    }
}

#[test]
fn repeated_ports_count_once() {
    let allowed = AllowedPorts::new(&[443, 443, 22, 443]);
    assert!(allowed.authorize(443));
    assert!(allowed.authorize(22));
    assert!(!allowed.authorize(444));
}

#[test]
fn order_of_the_list_does_not_matter() {
    let one = AllowedPorts::new(&[1, 2, 3]);
    let other = AllowedPorts::new(&[3, 1, 2]);
    for port in 0..=u16::MAX {
        assert_eq!(one.authorize(port), other.authorize(port));
    }
}

#[test]
fn default_is_port_22_alone() {
    assert_eq!(DEFAULT_PORT, 22);
    let allowed = AllowedPorts::default();
    for port in 0..=u16::MAX {
        assert_eq!(allowed.authorize(port), port == 22);
    }
}

#[test]
fn configuration_without_a_list_takes_the_default() {
    let allowed = AllowedPorts::configured(None);
    assert!(allowed.authorize(22));
    assert!(!allowed.authorize(80));
}

#[test]
fn configuration_with_a_list_takes_the_list() {
    let allowed = AllowedPorts::configured(Some(vec![8080, 9090]));
    assert!(allowed.authorize(8080));
    assert!(allowed.authorize(9090));
    assert!(!allowed.authorize(22));
}

#[test]
fn configuration_with_an_empty_list_denies_the_default_too() {
    let allowed = AllowedPorts::configured(Some(Vec::new()));
    assert!(!allowed.authorize(22));
}

#[test]
fn authorize_answers_the_same_every_time() {
    let allowed = AllowedPorts::new(&[22]);
    for _ in 0..3 {
        assert!(allowed.authorize(22));
        assert!(!allowed.authorize(80));
    }
}
