use relay_control::bulk::RelayWrite;
use relay_control::controller::{Controller, Request};
use relay_control::project::Project;

fn ports() -> Vec<String> {
    vec!["COM1".to_string(), "COM2".to_string()]
}

#[test]
fn new_controller_takes_relays_and_port_from_project() {
    let mut p = Project::default();
    p.relays = "1000000000000001".to_string();
    p.interface = "COM2".to_string();
    p.slave = 4;
    let c = Controller::new(p, ports());
    assert_eq!(c.ports, ports());
    assert_eq!(c.selected_port, Some(1));
    assert_eq!(c.slave, Some(4));
    let mut want = vec![false; 16];
    want[0] = true;
    want[15] = true;
    assert_eq!(c.get_buttons(), want);
}

#[test]
fn missing_project_port_is_added() {
    let mut p = Project::default();
    p.interface = "/dev/ttyS9".to_string();
    let c = Controller::new(p, ports());
    assert_eq!(c.ports.len(), 3);
    assert_eq!(c.ports[2], "/dev/ttyS9");
    assert_eq!(c.selected_port, Some(2));
}

#[test]
fn malformed_project_relays_start_all_off() {
    let mut p = Project::default();
    p.relays = "11".to_string();
    let c = Controller::new(p, ports());
    assert_eq!(c.get_buttons(), vec![false; 16]);
    assert_eq!(c.selected_port, None);
}

#[test]
fn set_without_port_is_an_error() {
    let mut c = Controller::new(Project::default(), ports());
    assert!(matches!(c.set_all(), Request::Nothing));
    assert!(c.set_error);
    assert!(matches!(c.get_all(), Request::Nothing));
    assert!(c.get_error);
}

#[test]
fn set_with_bad_slave_is_an_error() {
    let mut c = Controller::new(Project::default(), ports());
    c.select_port(Some(0));
    c.set_slave_text("300");
    assert_eq!(c.slave, None);
    assert!(matches!(c.set_all(), Request::Nothing));
    assert!(c.set_error);
    c.set_slave_text("12");
    assert_eq!(c.project.slave, 12);
    match c.set_all() {
        Request::SetAll(t, v) => {
            assert_eq!(t.port, "COM1");
            assert_eq!(t.slave, 12);
            assert_eq!(v, vec![false; 16]);
        }
        other => panic!("unexpected request {:?}", other),
    }
}

#[test]
fn get_replaces_relays_on_success() {
    let mut c = Controller::new(Project::default(), ports());
    c.select_port(Some(1));
    match c.get_all() {
        Request::GetAll(t) => assert_eq!(t.port, "COM2"),
        other => panic!("unexpected request {:?}", other),
    }
    let mut regs = vec![0u16; 16];
    regs[2] = 1;
    regs[3] = 0x0100;
    c.get_finished(Some(regs));
    assert!(!c.get_error);
    let mut want = vec![false; 16];
    want[2] = true;
    assert_eq!(c.get_buttons(), want);
    c.get_finished(None);
    assert!(c.get_error);
    assert_eq!(c.get_buttons(), want);
    c.get_finished(Some(vec![1, 1, 1]));
    assert!(c.get_error);
    assert_eq!(c.get_buttons(), want);
}

#[test]
fn toggle_in_realtime_writes_one_relay() {
    let mut c = Controller::new(Project::default(), ports());
    c.select_port(Some(0));
    assert!(matches!(c.toggle_relay(2, true), Request::Nothing));
    c.project.realtime = true;
    match c.toggle_relay(4, true) {
        Request::WriteOne(t, w) => {
            assert_eq!(t.port, "COM1");
            assert_eq!(w, RelayWrite { address: 5, value: 0x0100 });
        }
        other => panic!("unexpected request {:?}", other),
    }
    match c.toggle_relay(2, false) {
        Request::WriteOne(_, w) => assert_eq!(w, RelayWrite { address: 3, value: 0x0200 }),
        other => panic!("unexpected request {:?}", other),
    }
    let mut want = vec![false; 16];
    want[4] = true;
    assert_eq!(c.get_buttons(), want);
}

#[test]
fn toggle_in_realtime_without_port_marks_error_and_keeps_bit() {
    let mut c = Controller::new(Project::default(), ports());
    c.project.realtime = true;
    assert!(matches!(c.toggle_relay(1, true), Request::Nothing));
    assert!(c.set_error);
    assert!(c.get_buttons()[1]);
}

#[test]
fn all_on_and_all_off() {
    let mut c = Controller::new(Project::default(), ports());
    c.select_port(Some(0));
    assert!(matches!(c.all_relays(true), Request::Nothing));
    assert_eq!(c.get_buttons(), vec![true; 16]);
    c.project.realtime = true;
    match c.all_relays(false) {
        Request::SetAll(_, v) => assert_eq!(v, vec![false; 16]),
        other => panic!("unexpected request {:?}", other),
    }
}

#[test]
fn turning_realtime_on_sets_the_board() {
    let mut c = Controller::new(Project::default(), ports());
    c.select_port(Some(0));
    c.toggle_relay(0, true);
    match c.toggle_realtime() {
        Request::SetAll(_, v) => assert!(v[0]),
        other => panic!("unexpected request {:?}", other),
    }
    assert!(c.project.realtime);
    assert!(matches!(c.toggle_realtime(), Request::Nothing));
    assert!(!c.project.realtime);
}

#[test]
fn set_outcome_is_shown() {
    let mut c = Controller::new(Project::default(), ports());
    c.set_finished(false);
    assert!(c.set_error);
    c.set_finished(true);
    assert!(!c.set_error);
}

#[test]
fn refresh_keeps_the_chosen_port() {
    let mut c = Controller::new(Project::default(), ports());
    c.select_port(Some(1));
    c.refresh_ports(vec!["COM0".to_string(), "COM2".to_string(), "COM3".to_string()]);
    assert_eq!(c.selected_port, Some(1));
    assert_eq!(c.ports[1], "COM2");
    c.refresh_ports(vec!["COM5".to_string()]);
    assert_eq!(c.selected_port, None);
}

#[test]
fn set_buttons_stops_at_the_shorter() {
    let mut c = Controller::new(Project::default(), ports());
    c.set_buttons(&[true, true]);
    let mut want = vec![false; 16];
    want[0] = true;
    want[1] = true;
    assert_eq!(c.get_buttons(), want);
    c.set_buttons(&vec![true; 20]);
    assert_eq!(c.get_buttons(), vec![true; 16]);
}

#[test]
fn stored_relays_follow_memory() {
    let mut c = Controller::new(Project::default(), ports());
    c.toggle_relay(15, true);
    c.store_relays();
    assert_eq!(c.project.relays, "0000000000000001");
}
