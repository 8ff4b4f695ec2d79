//! The application controller: it keeps the relay vector, the port and slave
//! fields and the project, and turns each user intent into at most one device
//! operation. The caller performs that operation and reports its outcome.
use vstd::prelude::*;
use crate::bulk::RelayWrite;
use crate::project::{add_preset_spec, index_of_name, PresetError, Project};
use crate::protocol::{
    command_spec,
    reads_on,
    register_address,
    relay_command,
    states_from_registers,
    N_RELAYS,
};
use crate::slave::{parse_slave, slave_of_text};
use crate::state::{bools_of, state_bool_to_str, state_str_to_bool, str_of, valid_state_str};

verus! {

/// Where a device operation goes: a serial port and a slave id.
#[derive(Debug)]
pub struct DeviceTarget {
    pub port: String,
    pub slave: u8,
}

/// The device operation that an event asks for.
#[derive(Debug)]
pub enum Request {
    /// Nothing to do on the device.
    Nothing,
    /// A bulk SET of the given relay state.
    SetAll(DeviceTarget, Vec<bool>),
    /// A bulk GET of every relay.
    GetAll(DeviceTarget),
    /// One register write, for a relay toggled in realtime mode.
    WriteOne(DeviceTarget, RelayWrite),
}

/// The controller's state.
pub struct Controller {
    pub project: Project,
    /// The in-memory relay state, one entry per relay.
    pub relays: Vec<bool>,
    /// The serial ports to choose from.
    pub ports: Vec<String>,
    pub selected_port: Option<usize>,
    /// The slave id field, when it holds a valid id.
    pub slave: Option<u8>,
    pub set_error: bool,
    pub get_error: bool,
    pub apply_error: bool,
}

/// Whether `name` stands first at index `i` of `ports`.
pub open spec fn first_port_at(ports: Seq<String>, name: Seq<char>, i: int) -> bool {
    &&& 0 <= i < ports.len()
    &&& ports[i]@ == name
    &&& forall|j: int| 0 <= j < i ==> (#[trigger] ports[j])@ != name
}

/// The index of the first port called `name`.
fn find_port(ports: &Vec<String>, name: &String) -> (r: Option<usize>)
    ensures
        match r {
            Some(i) => first_port_at(ports@, name@, i as int),
            None => forall|j: int| 0 <= j < ports@.len() ==> (#[trigger] ports@[j])@ != name@,
        },
{
    let mut i: usize = 0;
    while i < ports.len()
        invariant
            i <= ports@.len(),
            forall|j: int| 0 <= j < i ==> (#[trigger] ports@[j])@ != name@,
        decreases ports@.len() - i,
    {
        if ports[i] == *name {
            return Some(i);
        }
        i += 1;
    }
    None
}

impl Controller {
    pub open spec fn wf(&self) -> bool {
        self.relays@.len() == N_RELAYS
    }

    /// The name of the chosen port, empty when none is chosen.
    pub open spec fn port_spec(&self) -> Seq<char> {
        match self.selected_port {
            Some(i) => if i < self.ports@.len() {
                self.ports@[i as int]@
            } else {
                Seq::empty()
            },
            None => Seq::empty(),
        }
    }

    /// Whether the port and slave fields allow a device operation.
    pub open spec fn target_ok(&self) -> bool {
        self.port_spec().len() > 0 && self.slave is Some
    }

    /// The request sent to `t` is the one the fields name.
    pub open spec fn targets(&self, t: DeviceTarget) -> bool {
        t.port@ == self.port_spec() && Some(t.slave) == self.slave
    }

    /// What a SET of the in-memory relays asks for: the SET when the fields
    /// are valid, nothing otherwise.
    pub open spec fn set_request(&self, r: Request) -> bool {
        if self.target_ok() {
            match r {
                Request::SetAll(t, v) => self.targets(t) && v@ == self.relays@,
                _ => false,
            }
        } else {
            r is Nothing
        }
    }

    /// Starts a controller on a project and the ports found now. The relays
    /// come from the project's relay string (all off when it is malformed);
    /// the project's port is selected, and added to the list when missing.
    pub fn new(project: Project, ports: Vec<String>) -> (r: Controller)
        ensures
            r.wf(),
            valid_state_str(project.relays@) ==> r.relays@ == bools_of(project.relays@),
            !valid_state_str(project.relays@) ==> r.relays@ == Seq::new(
                N_RELAYS as nat,
                |i: int| false,
            ),
            project.interface@.len() == 0 ==> r.ports == ports && r.selected_port is None,
            project.interface@.len() > 0 ==> r.port_spec() == project.interface@,
            project.interface@.len() > 0 && (exists|j: int|
                0 <= j < ports@.len() && (#[trigger] ports@[j])@ == project.interface@) ==> r.ports
                == ports,
            project.interface@.len() > 0 && (forall|j: int|
                0 <= j < ports@.len() ==> (#[trigger] ports@[j])@ != project.interface@)
                ==> r.ports@ == ports@.push(project.interface),
            r.slave == Some(project.slave),
            r.project == project,
            !r.set_error && !r.get_error && !r.apply_error,
    {
        let relays = match state_str_to_bool(project.relays.as_str()) {
            Ok(v) => v,
            Err(_) => vec![false; N_RELAYS],
        };
        let mut ports = ports;
        let selected_port = if project.interface.as_str().is_empty() {
            None
        } else {
            match find_port(&ports, &project.interface) {
                Some(i) => Some(i),
                None => {
                    ports.push(project.interface.clone());
                    Some(ports.len() - 1)
                },
            }
        };
        let slave = Some(project.slave);
        Controller {
            project,
            relays,
            ports,
            selected_port,
            slave,
            set_error: false,
            get_error: false,
            apply_error: false,
        }
    }

    /// The target named by the port and slave fields, when both are valid.
    pub fn target(&self) -> (r: Option<DeviceTarget>)
        ensures
            match r {
                Some(t) => self.target_ok() && self.targets(t),
                None => !self.target_ok(),
            },
    {
        let slave = match self.slave {
            Some(s) => s,
            None => {
                return None;
            },
        };
        match self.selected_port {
            Some(i) => {
                if i < self.ports.len() && !self.ports[i].as_str().is_empty() {
                    Some(DeviceTarget { port: self.ports[i].clone(), slave })
                } else {
                    None
                }
            },
            None => None,
        }
    }

    /// Sets the relays from `state`, as far as both reach.
    pub fn set_buttons(&mut self, state: &[bool])
        requires
            old(self).wf(),
        ensures
            final(self).wf(),
            forall|i: int|
                0 <= i < N_RELAYS ==> #[trigger] final(self).relays@[i] == if i < state@.len() {
                    state@[i]
                } else {
                    old(self).relays@[i]
                },
            final(self).project == old(self).project,
            final(self).ports == old(self).ports,
            final(self).selected_port == old(self).selected_port,
            final(self).slave == old(self).slave,
            final(self).set_error == old(self).set_error,
            final(self).get_error == old(self).get_error,
            final(self).apply_error == old(self).apply_error,
    {
        let mut i: usize = 0;
        while i < self.relays.len() && i < state.len()
            invariant
                self.relays@.len() == N_RELAYS,
                i <= N_RELAYS,
                i <= state@.len(),
                forall|j: int|
                    0 <= j < N_RELAYS ==> #[trigger] self.relays@[j] == if j < i {
                        state@[j]
                    } else {
                        old(self).relays@[j]
                    },
                self.project == old(self).project,
                self.ports == old(self).ports,
                self.selected_port == old(self).selected_port,
                self.slave == old(self).slave,
                self.set_error == old(self).set_error,
                self.get_error == old(self).get_error,
                self.apply_error == old(self).apply_error,
            decreases N_RELAYS - i,
        {
            self.relays.set(i, state[i]);
            i += 1;
        }
    }

    /// A copy of the in-memory relay state.
    pub fn get_buttons(&self) -> (r: Vec<bool>)
        ensures
            r@ == self.relays@,
    {
        self.relays.clone()
    }

    /// SET of the in-memory relays. With invalid fields the SET indicator
    /// shows an error and nothing is sent.
    pub fn set_all(&mut self) -> (r: Request)
        requires
            old(self).wf(),
        ensures
            old(self).set_request(r),
            final(self).set_error == (old(self).set_error || !old(self).target_ok()),
            final(self).relays == old(self).relays,
            final(self).project == old(self).project,
            final(self).ports == old(self).ports,
            final(self).selected_port == old(self).selected_port,
            final(self).slave == old(self).slave,
            final(self).get_error == old(self).get_error,
            final(self).apply_error == old(self).apply_error,
    {
        match self.target() {
            Some(t) => Request::SetAll(t, self.relays.clone()),
            None => {
                self.set_error = true;
                Request::Nothing
            },
        }
    }

    /// GET of every relay. With invalid fields the GET indicator shows an
    /// error and nothing is sent.
    pub fn get_all(&mut self) -> (r: Request)
        requires
            old(self).wf(),
        ensures
            old(self).target_ok() ==> match r {
                Request::GetAll(t) => old(self).targets(t),
                _ => false,
            },
            !old(self).target_ok() ==> r is Nothing,
            final(self).get_error == (old(self).get_error || !old(self).target_ok()),
            final(self).relays == old(self).relays,
            final(self).project == old(self).project,
            final(self).ports == old(self).ports,
            final(self).selected_port == old(self).selected_port,
            final(self).slave == old(self).slave,
            final(self).set_error == old(self).set_error,
            final(self).apply_error == old(self).apply_error,
    {
        match self.target() {
            Some(t) => Request::GetAll(t),
            None => {
                self.get_error = true;
                Request::Nothing
            },
        }
    }

    /// In realtime mode, a SET of the in-memory relays; otherwise nothing.
    pub fn realtime_check_and_set(&mut self) -> (r: Request)
        requires
            old(self).wf(),
        ensures
            old(self).project.realtime ==> old(self).set_request(r) && final(self).set_error == (
            old(self).set_error || !old(self).target_ok()),
            !old(self).project.realtime ==> r is Nothing && final(self).set_error == old(
                self,
            ).set_error,
            final(self).relays == old(self).relays,
            final(self).project == old(self).project,
            final(self).ports == old(self).ports,
            final(self).selected_port == old(self).selected_port,
            final(self).slave == old(self).slave,
            final(self).get_error == old(self).get_error,
            final(self).apply_error == old(self).apply_error,
    {
        if self.project.realtime {
            self.set_all()
        } else {
            Request::Nothing
        }
    }

    /// Sets relay `relay` to `desired`. In realtime mode the one write is sent
    /// at once; with invalid fields the SET indicator shows an error instead.
    pub fn toggle_relay(&mut self, relay: usize, desired: bool) -> (r: Request)
        requires
            old(self).wf(),
            relay < N_RELAYS,
        ensures
            final(self).wf(),
            final(self).relays@ == old(self).relays@.update(relay as int, desired),
            old(self).project.realtime && old(self).target_ok() ==> match r {
                Request::WriteOne(t, w) => old(self).targets(t) && w == (RelayWrite {
                    address: (relay + 1) as u16,
                    value: command_spec(desired),
                }),
                _ => false,
            },
            !(old(self).project.realtime && old(self).target_ok()) ==> r is Nothing,
            final(self).set_error == (old(self).set_error || (old(self).project.realtime
                && !old(self).target_ok())),
            final(self).project == old(self).project,
            final(self).ports == old(self).ports,
            final(self).selected_port == old(self).selected_port,
            final(self).slave == old(self).slave,
            final(self).get_error == old(self).get_error,
            final(self).apply_error == old(self).apply_error,
    {
        self.relays.set(relay, desired);
        if !self.project.realtime {
            return Request::Nothing;
        }
        match self.target() {
            Some(t) => Request::WriteOne(
                t,
                RelayWrite { address: register_address(relay), value: relay_command(desired) },
            ),
            None => {
                self.set_error = true;
                Request::Nothing
            },
        }
    }

    /// Sets every relay to `on`; in realtime mode the new state is then SET.
    pub fn all_relays(&mut self, on: bool) -> (r: Request)
        requires
            old(self).wf(),
        ensures
            final(self).wf(),
            final(self).relays@ == Seq::new(N_RELAYS as nat, |i: int| on),
            old(self).project.realtime ==> match r {
                Request::SetAll(t, v) => old(self).target_ok() && old(self).targets(t) && v@
                    == final(self).relays@,
                Request::Nothing => !old(self).target_ok(),
                _ => false,
            },
            !old(self).project.realtime ==> r is Nothing,
            final(self).set_error == (old(self).set_error || (old(self).project.realtime
                && !old(self).target_ok())),
            final(self).project == old(self).project,
            final(self).get_error == old(self).get_error,
            final(self).apply_error == old(self).apply_error,
    {
        let all: Vec<bool> = vec![on; N_RELAYS];
        self.set_buttons(all.as_slice());
        assert(self.relays@ =~= Seq::new(N_RELAYS as nat, |i: int| on));
        self.realtime_check_and_set()
    }

    /// Adds the in-memory relay state as a preset called `name` and selects
    /// it; a name already present is only selected. An empty name changes
    /// nothing. Returns whether a preset was added.
    pub fn add_preset(&mut self, name: &str) -> (r: bool)
        requires
            old(self).wf(),
        ensures
            final(self).wf(),
            name@.len() == 0 ==> !r && final(self).project == old(self).project,
            name@.len() > 0 ==> ({
                let (list, sel) = add_preset_spec(
                    old(self).project.preset_list(),
                    name@,
                    str_of(old(self).relays@),
                );
                &&& final(self).project.preset_list() == list
                &&& final(self).project.current_preset == Some(sel as usize)
                &&& r == (index_of_name(old(self).project.preset_list(), name@) is None)
                &&& final(self).project.relays == old(self).project.relays
                &&& final(self).project.realtime == old(self).project.realtime
            }),
            final(self).relays == old(self).relays,
            final(self).ports == old(self).ports,
            final(self).selected_port == old(self).selected_port,
            final(self).slave == old(self).slave,
            final(self).set_error == old(self).set_error,
            final(self).get_error == old(self).get_error,
            final(self).apply_error == old(self).apply_error,
    {
        if name.is_empty() {
            return false;
        }
        self.project.add_preset(name, self.relays.as_slice())
    }

    /// Selects a preset, or clears the selection.
    pub fn select_preset(&mut self, index: Option<usize>)
        requires
            old(self).wf(),
        ensures
            final(self).wf(),
            final(self).project.current_preset == index,
            final(self).project.presets == old(self).project.presets,
            final(self).project.realtime == old(self).project.realtime,
            final(self).relays == old(self).relays,
            final(self).ports == old(self).ports,
            final(self).selected_port == old(self).selected_port,
            final(self).slave == old(self).slave,
            final(self).set_error == old(self).set_error,
            final(self).get_error == old(self).get_error,
            final(self).apply_error == old(self).apply_error,
    {
        self.project.select_preset(index);
    }

    /// Removes the selected preset when the selection lies within the list;
    /// the selection is not adjusted.
    pub fn remove_preset(&mut self) -> (r: Result<(), PresetError>)
        requires
            old(self).wf(),
        ensures
            final(self).wf(),
            final(self).project.current_preset == old(self).project.current_preset,
            match old(self).project.current_preset {
                Some(i) => if i < old(self).project.presets@.len() {
                    r is Ok && final(self).project.presets@ == old(
                        self,
                    ).project.presets@.remove(i as int)
                } else {
                    r == Err::<(), PresetError>(PresetError::OutOfRange)
                        && final(self).project.presets == old(self).project.presets
                },
                None => r == Err::<(), PresetError>(PresetError::NoSelection)
                    && final(self).project.presets == old(self).project.presets,
            },
            final(self).relays == old(self).relays,
            final(self).project.relays == old(self).project.relays,
            final(self).project.realtime == old(self).project.realtime,
            final(self).ports == old(self).ports,
            final(self).selected_port == old(self).selected_port,
            final(self).slave == old(self).slave,
            final(self).set_error == old(self).set_error,
            final(self).get_error == old(self).get_error,
            final(self).apply_error == old(self).apply_error,
    {
        self.project.remove_preset()
    }

    /// Loads the selected preset into the relays; in realtime mode it is then
    /// SET. With no selection, a selection beyond the list or a malformed
    /// preset, the relays stay as they are and the APPLY indicator shows an
    /// error.
    pub fn apply_preset(&mut self) -> (r: Request)
        requires
            old(self).wf(),
        ensures
            final(self).wf(),
            ({
                let p = old(self).project;
                let ok = match p.current_preset {
                    Some(i) => i < p.presets@.len() && valid_state_str(
                        p.presets@[i as int].value@,
                    ),
                    None => false,
                };
                &&& ok ==> final(self).relays@ == bools_of(
                    p.presets@[p.current_preset->0 as int].value@,
                ) && !final(self).apply_error
                &&& ok && p.realtime ==> match r {
                    Request::SetAll(t, v) => old(self).target_ok() && old(self).targets(t) && v@
                        == final(self).relays@,
                    Request::Nothing => !old(self).target_ok(),
                    _ => false,
                }
                &&& ok ==> final(self).set_error == (old(self).set_error || (p.realtime
                    && !old(self).target_ok()))
                &&& !(ok && p.realtime) ==> r is Nothing
                &&& !ok ==> final(self).relays == old(self).relays && final(self).apply_error
                    && final(self).set_error == old(self).set_error
            }),
            final(self).project == old(self).project,
            final(self).get_error == old(self).get_error,
    {
        match self.project.selected_state() {
            Ok(v) => {
                self.set_buttons(v.as_slice());
                assert(self.relays@ =~= v@);
                self.apply_error = false;
                self.realtime_check_and_set()
            },
            Err(_) => {
                self.apply_error = true;
                Request::Nothing
            },
        }
    }

    /// Flips realtime mode; when it is turned on, the in-memory relays are SET
    /// to bring the board in line.
    pub fn toggle_realtime(&mut self) -> (r: Request)
        requires
            old(self).wf(),
        ensures
            final(self).wf(),
            final(self).project.realtime == !old(self).project.realtime,
            final(self).project.presets == old(self).project.presets,
            final(self).project.current_preset == old(self).project.current_preset,
            final(self).relays == old(self).relays,
            final(self).ports == old(self).ports,
            final(self).selected_port == old(self).selected_port,
            final(self).slave == old(self).slave,
            final(self).get_error == old(self).get_error,
            final(self).apply_error == old(self).apply_error,
            !old(self).project.realtime ==> old(self).set_request(r) && final(self).set_error == (
            old(self).set_error || !old(self).target_ok()),
            old(self).project.realtime ==> r is Nothing && final(self).set_error == old(
                self,
            ).set_error,
    {
        self.project.realtime = !self.project.realtime;
        self.realtime_check_and_set()
    }

    /// Chooses a port from the list, or none.
    pub fn select_port(&mut self, index: Option<usize>)
        requires
            old(self).wf(),
        ensures
            final(self).wf(),
            final(self).selected_port == index,
            final(self).ports == old(self).ports,
            final(self).relays == old(self).relays,
            final(self).slave == old(self).slave,
            final(self).project.presets == old(self).project.presets,
            final(self).project.current_preset == old(self).project.current_preset,
            final(self).project.slave == old(self).project.slave,
            final(self).project.realtime == old(self).project.realtime,
            (index is None || index->0 >= old(self).ports@.len()) ==> final(self).project == old(self).project,
            final(self).set_error == old(self).set_error,
            final(self).get_error == old(self).get_error,
            final(self).apply_error == old(self).apply_error,
            match index {
                Some(i) => i < old(self).ports@.len() ==> final(self).project.interface
                    == old(self).ports@[i as int],
                None => true,
            },
    {
        self.selected_port = index;
        match index {
            Some(i) => {
                if i < self.ports.len() {
                    self.project.interface = self.ports[i].clone();
                }
            },
            None => {},
        }
    }

    /// Takes the slave id field's new text; an id that does not read as 1 to
    /// 255 makes the field invalid.
    pub fn set_slave_text(&mut self, text: &str)
        requires
            old(self).wf(),
        ensures
            final(self).wf(),
            final(self).slave == slave_of_text(text@),
            final(self).slave is Some ==> final(self).project.slave == final(self).slave->0,
            final(self).slave is None ==> final(self).project.slave == old(self).project.slave,
            final(self).ports == old(self).ports,
            final(self).selected_port == old(self).selected_port,
            final(self).relays == old(self).relays,
            final(self).project.presets == old(self).project.presets,
            final(self).project.current_preset == old(self).project.current_preset,
            final(self).project.interface == old(self).project.interface,
            final(self).project.realtime == old(self).project.realtime,
            final(self).set_error == old(self).set_error,
            final(self).get_error == old(self).get_error,
            final(self).apply_error == old(self).apply_error,
    {
        self.slave = parse_slave(text);
        match self.slave {
            Some(s) => {
                self.project.slave = s;
            },
            None => {},
        }
    }

    /// Replaces the port list with a fresh enumeration, keeping the chosen
    /// port selected when it is still there.
    pub fn refresh_ports(&mut self, ports: Vec<String>)
        requires
            old(self).wf(),
        ensures
            final(self).wf(),
            final(self).ports == ports,
            old(self).port_spec().len() == 0 ==> final(self).selected_port is None,
            old(self).port_spec().len() > 0 ==> match final(self).selected_port {
                Some(i) => first_port_at(ports@, old(self).port_spec(), i as int),
                None => forall|j: int|
                    0 <= j < ports@.len() ==> (#[trigger] ports@[j])@ != old(self).port_spec(),
            },
            final(self).relays == old(self).relays,
            final(self).project == old(self).project,
            final(self).slave == old(self).slave,
            final(self).set_error == old(self).set_error,
            final(self).get_error == old(self).get_error,
            final(self).apply_error == old(self).apply_error,
    {
        let chosen = match self.selected_port {
            Some(i) => if i < self.ports.len() && !self.ports[i].as_str().is_empty() {
                find_port(&ports, &self.ports[i])
            } else {
                None
            },
            None => None,
        };
        self.ports = ports;
        self.selected_port = chosen;
    }

    /// Takes the outcome of a SET.
    pub fn set_finished(&mut self, ok: bool)
        requires
            old(self).wf(),
        ensures
            final(self).wf(),
            final(self).set_error == !ok,
            final(self).relays == old(self).relays,
            final(self).project == old(self).project,
            final(self).get_error == old(self).get_error,
            final(self).apply_error == old(self).apply_error,
    {
        self.set_error = !ok;
    }

    /// Takes the outcome of a GET: the registers read, or `None` when it
    /// failed. A read of one register per relay replaces the relays (1 is on,
    /// anything else off); anything else leaves them and shows an error.
    pub fn get_finished(&mut self, regs: Option<Vec<u16>>)
        requires
            old(self).wf(),
        ensures
            final(self).wf(),
            match regs {
                Some(v) => if v@.len() == N_RELAYS {
                    &&& final(self).relays@ == v@.map_values(|x: u16| reads_on(x))
                    &&& !final(self).get_error
                } else {
                    final(self).relays == old(self).relays && final(self).get_error
                },
                None => final(self).relays == old(self).relays && final(self).get_error,
            },
            final(self).project == old(self).project,
            final(self).set_error == old(self).set_error,
            final(self).apply_error == old(self).apply_error,
    {
        match regs {
            Some(v) => {
                if v.len() == N_RELAYS {
                    self.relays = states_from_registers(v.as_slice());
                    self.get_error = false;
                } else {
                    self.get_error = true;
                }
            },
            None => {
                self.get_error = true;
            },
        }
    }

    /// Writes the in-memory relays into the project, ready to be saved.
    pub fn store_relays(&mut self)
        requires
            old(self).wf(),
        ensures
            final(self).wf(),
            final(self).project.relays@ == str_of(old(self).relays@),
            final(self).project.presets == old(self).project.presets,
            final(self).project.current_preset == old(self).project.current_preset,
            final(self).project.interface == old(self).project.interface,
            final(self).project.slave == old(self).project.slave,
            final(self).project.realtime == old(self).project.realtime,
            final(self).relays == old(self).relays,
    {
        self.project.relays = state_bool_to_str(self.relays.as_slice());
    }
}

} // verus!
