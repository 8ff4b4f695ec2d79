use relay_control::bulk::{set_plan, RelayWrite, SetRun};
use relay_control::protocol::{
    register_address, relay_command, states_from_registers, N_RELAYS, RELAY_CMD_OFF,
    RELAY_CMD_ON,
};

/// A board that keeps what it is written: ON stores 1, OFF stores 0.
struct Board {
    regs: Vec<u16>,
    writes: Vec<RelayWrite>,
    fail_at: Option<usize>,
}

impl Board {
    fn new(n: usize) -> Board {
        Board { regs: vec![0; n + 1], writes: Vec::new(), fail_at: None }
    }

    fn write(&mut self, w: RelayWrite) -> bool {
        if self.fail_at == Some(self.writes.len()) {
            return false;
        }
        self.writes.push(w);
        let a = w.address as usize;
        if w.value == RELAY_CMD_ON {
            self.regs[a] = 1;
        } else if w.value == RELAY_CMD_OFF {
            self.regs[a] = 0;
        }
        true
    }

    fn read(&self, n: usize) -> Vec<bool> {
        states_from_registers(&self.regs[1..n + 1])
    }
}

fn run_set(board: &mut Board, state: &[bool]) -> (SetRun, bool) {
    let mut run = SetRun::new(state);
    while let Some(w) = run.next_write() {
        let ok = board.write(w);
        run.record(ok);
    }
    let ok = run.succeeded();
    (run, ok)
}

fn w(address: u16, value: u16) -> RelayWrite {
    RelayWrite { address, value }
}

#[test]
fn set_then_get_reads_back_every_state() {
    let patterns: Vec<Vec<bool>> = vec![
        vec![false; N_RELAYS],
        vec![true; N_RELAYS],
        (0..N_RELAYS).map(|i| i % 2 == 0).collect(),
        (0..N_RELAYS).map(|i| i % 3 == 1).collect(),
        (0..N_RELAYS).map(|i| i >= 8).collect(),
    ];
    for p in patterns {
        let mut board = Board::new(N_RELAYS);
        board.regs = vec![1; N_RELAYS + 1];
        let (_, ok) = run_set(&mut board, &p);
        assert!(ok);
        assert_eq!(board.read(N_RELAYS), p);
    }
}

#[test]
fn set_issues_off_writes_before_on_writes() {
    let plan = set_plan(&[true, false, true]);
    assert_eq!(plan, vec![w(2, RELAY_CMD_OFF), w(1, RELAY_CMD_ON), w(3, RELAY_CMD_ON)]);
    let mut board = Board::new(3);
    let (_, ok) = run_set(&mut board, &[true, false, true]);
    assert!(ok);
    assert_eq!(board.writes, plan);
}

#[test]
fn set_plan_of_nothing_is_empty() {
    assert!(set_plan(&[]).is_empty());
}

#[test]
fn set_plan_covers_every_relay_once() {
    let state: Vec<bool> = (0..N_RELAYS).map(|i| i % 4 == 0).collect();
    let plan = set_plan(&state);
    assert_eq!(plan.len(), N_RELAYS);
    let offs = plan.iter().take_while(|x| x.value == RELAY_CMD_OFF).count();
    assert_eq!(offs, 12);
    assert!(plan[offs..].iter().all(|x| x.value == RELAY_CMD_ON));
    assert_eq!(plan[offs].address, 1);
    assert_eq!(plan[0].address, 2);
}

#[test]
fn set_stops_at_first_failed_write() {
    let state = [true, false, true, false];
    let mut board = Board::new(4);
    board.regs = vec![7; 5];
    board.fail_at = Some(1);
    let (run, ok) = run_set(&mut board, &state);
    assert!(!ok);
    assert!(run.is_finished());
    assert_eq!(run.next_write(), None);
    // Only the first OFF write reached the board, and it stays applied.
    assert_eq!(board.writes, vec![w(2, RELAY_CMD_OFF)]);
    assert_eq!(board.regs, vec![7, 7, 0, 7, 7]);
}

#[test]
fn set_failing_on_first_write_issues_nothing() {
    let mut board = Board::new(N_RELAYS);
    board.fail_at = Some(0);
    let (_, ok) = run_set(&mut board, &[true; N_RELAYS]);
    assert!(!ok);
    assert!(board.writes.is_empty());
}

#[test]
fn empty_set_succeeds_at_once() {
    let run = SetRun::new(&[]);
    assert!(run.is_finished());
    assert!(run.succeeded());
}

#[test]
fn register_and_command_codes() {
    assert_eq!(register_address(0), 1);
    assert_eq!(register_address(15), 16);
    assert_eq!(relay_command(true), 0x0100);
    assert_eq!(relay_command(false), 0x0200);
}

#[test]
fn only_one_reads_as_on() {
    assert_eq!(
        states_from_registers(&[1, 0, 0x0100, 0x0200, 2, 1]),
        vec![true, false, false, false, false, true]
    );
    assert!(states_from_registers(&[]).is_empty());
}
