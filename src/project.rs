//! The project: connection settings, the last relay state, named presets and
//! the preset selection.
use vstd::prelude::*;
use crate::protocol::N_RELAYS;
use crate::state::{bools_of, state_bool_to_str, state_str_to_bool, str_of, valid_state_str};

verus! {

/// A named snapshot of every relay, its state kept as a '0'/'1' string.
#[derive(Clone, Debug)]
pub struct Preset {
    pub name: String,
    pub value: String,
}

/// What a preset holds, as characters.
pub struct PresetView {
    pub name: Seq<char>,
    pub value: Seq<char>,
}

impl View for Preset {
    type V = PresetView;

    open spec fn view(&self) -> PresetView {
        PresetView { name: self.name@, value: self.value@ }
    }
}

/// The index of the first preset called `name`, if any.
pub open spec fn index_of_name(list: Seq<PresetView>, name: Seq<char>) -> Option<int>
    decreases list.len(),
{
    if list.len() == 0 {
        None
    } else if list[0].name == name {
        Some(0)
    } else {
        match index_of_name(list.drop_first(), name) {
            Some(i) => Some(i + 1),
            None => None,
        }
    }
}

/// Why a preset could not be applied or removed.
#[derive(Clone, Copy, Debug, PartialEq, Eq, Structural)]
pub enum PresetError {
    /// No preset is selected.
    NoSelection,
    /// The selection lies beyond the preset list.
    OutOfRange,
    /// The preset's relay state string is malformed.
    Malformed,
}

/// Why a stored project was refused.
#[derive(Clone, Copy, Debug, PartialEq, Eq, Structural)]
pub enum ProjectError {
    /// A preset index below -1.
    BadSelection,
    /// A relay state string that is not one '0' or '1' per relay.
    MalformedRelays,
    /// A preset whose state string is malformed.
    MalformedPreset,
    /// A slave id of 0.
    BadSlave,
}

/// The whole configuration that is saved and loaded together.
#[derive(Clone, Debug)]
pub struct Project {
    pub name: String,
    /// Relay state as a '0'/'1' string, one character per relay.
    pub relays: String,
    /// Serial port name; empty when none is chosen.
    pub interface: String,
    /// Modbus slave id.
    pub slave: u8,
    pub presets: Vec<Preset>,
    /// The selected preset; `None` when nothing is selected.
    pub current_preset: Option<usize>,
    /// Whether each change is sent to the board at once.
    pub realtime: bool,
}

/// The relay state string of a project whose relays are all off.
pub open spec fn all_off_str() -> Seq<char> {
    Seq::new(N_RELAYS as nat, |i: int| '0')
}

/// The preset list and selection after adding `name` with `value`: a name
/// already present is only selected; a new one is appended and selected.
pub open spec fn add_preset_spec(list: Seq<PresetView>, name: Seq<char>, value: Seq<char>) -> (
    Seq<PresetView>,
    int,
) {
    match index_of_name(list, name) {
        Some(i) => (list, i),
        None => (list.push(PresetView { name, value }), list.len() as int),
    }
}

proof fn lemma_index_of_name(list: Seq<PresetView>, name: Seq<char>, i: int)
    requires
        0 <= i <= list.len(),
        forall|j: int| 0 <= j < i ==> (#[trigger] list[j]).name != name,
    ensures
        i < list.len() && list[i].name == name ==> index_of_name(list, name) == Some(i),
        i == list.len() ==> index_of_name(list, name) is None,
    decreases i,
{
    if i > 0 {
        let rest = list.drop_first();
        assert forall|j: int| 0 <= j < i - 1 implies (#[trigger] rest[j]).name != name by {
            assert(rest[j] == list[j + 1]);
        }
        lemma_index_of_name(rest, name, i - 1);
        assert(list[0].name != name);
    }
}

/// The index of a name found by `index_of_name` holds that name, and no
/// earlier preset does.
pub proof fn lemma_index_of_name_found(list: Seq<PresetView>, name: Seq<char>)
    ensures
        match index_of_name(list, name) {
            Some(i) => 0 <= i < list.len() && list[i].name == name && forall|j: int|
                0 <= j < i ==> (#[trigger] list[j]).name != name,
            None => forall|j: int| 0 <= j < list.len() ==> (#[trigger] list[j]).name != name,
        },
    decreases list.len(),
{
    if list.len() > 0 {
        let rest = list.drop_first();
        lemma_index_of_name_found(rest, name);
        if list[0].name != name {
            match index_of_name(rest, name) {
                Some(i) => {
                    assert forall|j: int| 0 <= j < i + 1 implies (#[trigger] list[j]).name
                        != name by {
                        if j > 0 {
                            assert(list[j] == rest[j - 1]);
                        }
                    }
                    assert(list[i + 1] == rest[i]);
                },
                None => {
                    assert forall|j: int| 0 <= j < list.len() implies (#[trigger] list[j]).name
                        != name by {
                        if j > 0 {
                            assert(list[j] == rest[j - 1]);
                        }
                    }
                },
            }
        }
    }
}

/// Preset dedup: adding the same name twice keeps the first value, changes
/// nothing the second time, and leaves exactly one preset of that name,
/// which is selected.
pub proof fn lemma_add_preset_twice(
    list: Seq<PresetView>,
    name: Seq<char>,
    first: Seq<char>,
    second: Seq<char>,
)
    requires
        index_of_name(list, name) is None,
    ensures
        ({
            let (once, sel) = add_preset_spec(list, name, first);
            let (twice, sel2) = add_preset_spec(once, name, second);
            &&& twice == once
            &&& once == list.push(PresetView { name, value: first })
            &&& sel2 == list.len()
            &&& sel2 == sel
            &&& forall|j: int| 0 <= j < twice.len() && (#[trigger] twice[j]).name == name ==> j
                == list.len()
        }),
{
    lemma_index_of_name_found(list, name);
    let once = list.push(PresetView { name, value: first });
    assert forall|j: int| 0 <= j < list.len() implies (#[trigger] once[j]).name != name by {
        assert(once[j] == list[j]);
    }
    lemma_index_of_name(once, name, list.len() as int);
}

impl Project {
    /// The presets, as characters.
    pub open spec fn preset_list(&self) -> Seq<PresetView> {
        self.presets@.map_values(|p: Preset| p@)
    }

    /// A project read from storage is accepted only when its relay string and
    /// every preset's string are well formed and its slave id is not 0.
    pub open spec fn valid(&self) -> bool {
        &&& valid_state_str(self.relays@)
        &&& self.slave >= 1
        &&& forall|i: int|
            0 <= i < self.presets@.len() ==> valid_state_str(#[trigger] self.presets@[i].value@)
    }

    /// The index of the first preset called `name`.
    pub fn find_preset(&self, name: &str) -> (r: Option<usize>)
        ensures
            match index_of_name(self.preset_list(), name@) {
                Some(i) => r == Some(i as usize),
                None => r is None,
            },
    {
        let target = name.to_owned();
        let mut i: usize = 0;
        while i < self.presets.len()
            invariant
                i <= self.presets@.len(),
                target@ == name@,
                forall|j: int| 0 <= j < i ==> (#[trigger] self.preset_list()[j]).name != name@,
            decreases self.presets@.len() - i,
        {
            if self.presets[i].name == target {
                proof {
                    lemma_index_of_name(self.preset_list(), name@, i as int);
                }
                return Some(i);
            }
            i += 1;
        }
        proof {
            lemma_index_of_name(self.preset_list(), name@, i as int);
        }
        None
    }

    /// Adds a preset called `name` holding `value` and selects it; when a
    /// preset of that name exists, it is selected instead and nothing is
    /// added. Returns whether a preset was added.
    pub fn add_preset(&mut self, name: &str, value: &[bool]) -> (r: bool)
        ensures
            ({
                let (list, sel) = add_preset_spec(old(self).preset_list(), name@, str_of(value@));
                &&& final(self).preset_list() == list
                &&& final(self).current_preset == Some(sel as usize)
            }),
            r == (index_of_name(old(self).preset_list(), name@) is None),
            final(self).name == old(self).name,
            final(self).relays == old(self).relays,
            final(self).interface == old(self).interface,
            final(self).slave == old(self).slave,
            final(self).realtime == old(self).realtime,
    {
        match self.find_preset(name) {
            Some(i) => {
                self.current_preset = Some(i);
                false
            },
            None => {
                let n = self.presets.len();
                self.presets.push(Preset { name: name.to_owned(), value: state_bool_to_str(value) });
                assert(self.preset_list() =~= old(self).preset_list().push(
                    PresetView { name: name@, value: str_of(value@) },
                ));
                self.current_preset = Some(n);
                true
            },
        }
    }

    /// Selects a preset, or clears the selection.
    pub fn select_preset(&mut self, index: Option<usize>)
        ensures
            final(self).current_preset == index,
            final(self).presets == old(self).presets,
            final(self).relays == old(self).relays,
            final(self).realtime == old(self).realtime,
            final(self).name == old(self).name,
            final(self).interface == old(self).interface,
            final(self).slave == old(self).slave,
    {
        self.current_preset = index;
    }

    /// Removes the selected preset when the selection lies within the list.
    /// The selection itself is left as it is.
    pub fn remove_preset(&mut self) -> (r: Result<(), PresetError>)
        ensures
            final(self).current_preset == old(self).current_preset,
            final(self).relays == old(self).relays,
            final(self).realtime == old(self).realtime,
            final(self).name == old(self).name,
            final(self).interface == old(self).interface,
            final(self).slave == old(self).slave,
            match old(self).current_preset {
                None => r == Err::<(), PresetError>(PresetError::NoSelection) && final(self).presets
                    == old(self).presets,
                Some(i) => if i < old(self).presets@.len() {
                    r is Ok && final(self).presets@ == old(self).presets@.remove(i as int)
                } else {
                    r == Err::<(), PresetError>(PresetError::OutOfRange) && final(self).presets
                        == old(self).presets
                },
            },
    {
        match self.current_preset {
            None => Err(PresetError::NoSelection),
            Some(i) => {
                if i < self.presets.len() {
                    self.presets.remove(i);
                    Ok(())
                } else {
                    Err(PresetError::OutOfRange)
                }
            },
        }
    }

    /// The relay state held by the selected preset.
    pub fn selected_state(&self) -> (r: Result<Vec<bool>, PresetError>)
        ensures
            match self.current_preset {
                None => r == Err::<Vec<bool>, PresetError>(PresetError::NoSelection),
                Some(i) => if i >= self.presets@.len() {
                    r == Err::<Vec<bool>, PresetError>(PresetError::OutOfRange)
                } else if !valid_state_str(self.presets@[i as int].value@) {
                    r == Err::<Vec<bool>, PresetError>(PresetError::Malformed)
                } else {
                    r is Ok && r->Ok_0@ == bools_of(self.presets@[i as int].value@)
                },
            },
    {
        match self.current_preset {
            None => Err(PresetError::NoSelection),
            Some(i) => {
                if i >= self.presets.len() {
                    Err(PresetError::OutOfRange)
                } else {
                    match state_str_to_bool(self.presets[i].value.as_str()) {
                        Ok(v) => Ok(v),
                        Err(_) => Err(PresetError::Malformed),
                    }
                }
            },
        }
    }

    /// Lets values given on the command line replace the project's: a
    /// well-formed relay string, a non-empty port name, a slave id. Anything
    /// else keeps the project's own value.
    pub fn apply_overrides(&mut self, relays: &str, interface: &str, slave: Option<u8>)
        ensures
            valid_state_str(relays@) ==> final(self).relays@ == relays@,
            !valid_state_str(relays@) ==> final(self).relays == old(self).relays,
            interface@.len() > 0 ==> final(self).interface@ == interface@,
            interface@.len() == 0 ==> final(self).interface == old(self).interface,
            final(self).slave == match slave {
                Some(s) => s,
                None => old(self).slave,
            },
            final(self).name == old(self).name,
            final(self).presets == old(self).presets,
            final(self).current_preset == old(self).current_preset,
            final(self).realtime == old(self).realtime,
    {
        if crate::state::check_state_str(relays) {
            self.relays = relays.to_owned();
        }
        if !interface.is_empty() {
            self.interface = interface.to_owned();
        }
        match slave {
            Some(s) => {
                self.slave = s;
            },
            None => {},
        }
    }

    /// Checks a project read from storage; anything malformed refuses the
    /// whole project.
    pub fn check(&self) -> (r: Result<(), ProjectError>)
        ensures
            r is Ok <==> self.valid(),
            r == Err::<(), ProjectError>(ProjectError::MalformedRelays) <==> !valid_state_str(
                self.relays@,
            ),
            r == Err::<(), ProjectError>(ProjectError::BadSlave) <==> valid_state_str(self.relays@)
                && self.slave == 0,
    {
        if !crate::state::check_state_str(self.relays.as_str()) {
            return Err(ProjectError::MalformedRelays);
        }
        if self.slave == 0 {
            return Err(ProjectError::BadSlave);
        }
        let mut i: usize = 0;
        while i < self.presets.len()
            invariant
                i <= self.presets@.len(),
                valid_state_str(self.relays@),
                self.slave >= 1,
                forall|j: int| 0 <= j < i ==> valid_state_str(#[trigger] self.presets@[j].value@),
            decreases self.presets@.len() - i,
        {
            if !crate::state::check_state_str(self.presets[i].value.as_str()) {
                return Err(ProjectError::MalformedPreset);
            }
            i += 1;
        }
        Ok(())
    }
}

impl Default for Project {
    /// A fresh project: every relay off, no port, slave 1, no presets, nothing
    /// selected, realtime off.
    fn default() -> (r: Project)
        ensures
            r.name@.len() == 0,
            r.relays@ == all_off_str(),
            r.interface@.len() == 0,
            r.slave == 1,
            r.presets@.len() == 0,
            r.current_preset is None,
            !r.realtime,
    {
        let off: Vec<bool> = vec![false; N_RELAYS];
        let relays = state_bool_to_str(off.as_slice());
        assert(relays@ =~= all_off_str());
        Project {
            name: String::new(),
            relays,
            interface: String::new(),
            slave: 1,
            presets: Vec::new(),
            current_preset: None,
            realtime: false,
        }
    }
}

/// The stored form of a selection: -1 for none, the index otherwise.
pub fn decode_selection(stored: i32) -> (r: Result<Option<usize>, ProjectError>)
    ensures
        stored == -1 ==> r == Ok::<Option<usize>, ProjectError>(None),
        stored >= 0 ==> r == Ok::<Option<usize>, ProjectError>(Some(stored as usize)),
        stored < -1 ==> r == Err::<Option<usize>, ProjectError>(ProjectError::BadSelection),
{
    if stored == -1 {
        Ok(None)
    } else if stored >= 0 {
        Ok(Some(stored as usize))
    } else {
        Err(ProjectError::BadSelection)
    }
}

/// The stored form of a selection: -1 for none, the index otherwise. An index
/// too large for the stored form is stored as none.
pub fn encode_selection(selected: Option<usize>) -> (r: i32)
    ensures
        match selected {
            Some(i) => if i <= i32::MAX {
                r == i
            } else {
                r == -1
            },
            None => r == -1,
        },
{
    match selected {
        Some(i) => if i <= i32::MAX as usize {
            i as i32
        } else {
            -1
        },
        None => -1,
    }
}

} // verus!
