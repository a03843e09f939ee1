use crate::model::{copy_path, AppListLine, PortType};
use vstd::prelude::*;

verus! {

/// Which way audio flows through a port.
#[derive(Clone, Copy, Debug, PartialEq, Eq, Structural)]
pub enum PortDirection {
    In,
    Out,
}

/// A port as the port registry lists it.
#[derive(Clone, Debug)]
pub struct ListPort {
    pub path: String,
    pub direction: PortDirection,
}

/// The type tag of a mixer input as the assignment registry reports it.
#[derive(Clone, Copy, Debug, PartialEq, Eq, Structural)]
pub enum PmxInputType {
    MonoInput,
    StereoInput,
    Unrouted,
    /// A tag this program does not know.
    Unrecognized,
}

/// A mixer input as the assignment registry lists it.
#[derive(Clone, Debug)]
pub struct PmxInput {
    pub id: u32,
    pub name: String,
    pub input_type: PmxInputType,
    pub left_port_path: Option<String>,
    pub right_port_path: Option<String>,
}

/// What the controller reacts to.
#[derive(Clone, Debug)]
pub enum AppMessage {
    /// Both registries answered: the inputs and the ports.
    LoadInputsCompleted(Vec<PmxInput>, Vec<ListPort>),
    PortTypeSelected(u32, PortType),
    LeftPortSelected(u32, String),
    RightPortSelected(u32, String),
    /// The save of the input with this id, dispatched at this edit number, completed.
    PortDataSaved(u32, u64),
}

/// An "update assignment" call for the assignment registry.
#[derive(Clone, Debug)]
pub struct SaveRequest {
    pub id: u32,
    /// The edit number of the record when the request was made; the
    /// completion message carries it back.
    pub edit_seq: u64,
    pub input_type: PortType,
    pub left_port_path: Option<String>,
    pub right_port_path: Option<String>,
}

/// The endpoints of the two registries.
#[derive(Clone, Debug, Default)]
pub struct AppFlags {
    pub port_registry_url: String,
    pub pmx_registry_url: String,
}

pub open spec fn port_type_of(t: PmxInputType) -> Option<PortType> {
    match t {
        PmxInputType::MonoInput => Option::Some(PortType::Mono),
        PmxInputType::StereoInput => Option::Some(PortType::Stereo),
        PmxInputType::Unrouted => Option::Some(PortType::Unrouted),
        PmxInputType::Unrecognized => Option::None,
    }
}

/// The record that a freshly loaded input becomes.
pub open spec fn line_from_input(i: PmxInput) -> AppListLine {
    AppListLine {
        pmx_input_id: i.id,
        name: i.name,
        selected_port_type: port_type_of(i.input_type),
        selected_left_out_port_path: i.left_port_path,
        selected_right_out_port_path: i.right_port_path,
        saved: true,
        edit_seq: 0,
    }
}

/// The paths of the ports with direction `d`, in the order listed.
pub open spec fn paths_with_direction(ports: Seq<ListPort>, d: PortDirection) -> Seq<String>
    decreases ports.len(),
{
    if ports.len() == 0 {
        Seq::empty()
    } else {
        let rest = paths_with_direction(ports.drop_last(), d);
        if ports.last().direction == d {
            rest.push(ports.last().path)
        } else {
            rest
        }
    }
}

/// The save that a record calls for: none while it is incomplete; else its
/// type with the paths that type uses.
pub open spec fn save_request(l: AppListLine) -> Option<SaveRequest> {
    if !l.valid() {
        Option::None
    } else {
        let t = l.selected_port_type.unwrap();
        Option::Some(
            SaveRequest {
                id: l.pmx_input_id,
                edit_seq: l.edit_seq,
                input_type: t,
                left_port_path: if t == PortType::Unrouted {
                    Option::None
                } else {
                    l.selected_left_out_port_path
                },
                right_port_path: if t == PortType::Stereo {
                    l.selected_right_out_port_path
                } else {
                    Option::None
                },
            },
        )
    }
}

pub open spec fn ids_unique(lines: Seq<AppListLine>) -> bool {
    forall|i: int, j: int|
        0 <= i < lines.len() && 0 <= j < lines.len() && #[trigger] lines[i].pmx_input_id
            == #[trigger] lines[j].pmx_input_id ==> i == j
}

pub open spec fn input_ids_unique(inputs: Seq<PmxInput>) -> bool {
    forall|i: int, j: int|
        0 <= i < inputs.len() && 0 <= j < inputs.len() && #[trigger] inputs[i].id
            == #[trigger] inputs[j].id ==> i == j
}

/// The input id that a message other than a load is about.
pub open spec fn target(m: AppMessage) -> u32 {
    match m {
        AppMessage::LoadInputsCompleted(..) => 0,
        AppMessage::PortTypeSelected(id, _) => id,
        AppMessage::LeftPortSelected(id, _) => id,
        AppMessage::RightPortSelected(id, _) => id,
        AppMessage::PortDataSaved(id, _) => id,
    }
}

pub open spec fn is_edit(m: AppMessage) -> bool {
    ||| m is PortTypeSelected
    ||| m is LeftPortSelected
    ||| m is RightPortSelected
}

/// What a message other than a load does to the record it is about.
pub open spec fn apply_to_line(l: AppListLine, m: AppMessage) -> AppListLine {
    match m {
        AppMessage::PortTypeSelected(_, t) => AppListLine {
            selected_port_type: Option::Some(t),
            ..l.touched()
        },
        AppMessage::LeftPortSelected(_, p) => AppListLine {
            selected_left_out_port_path: Option::Some(p),
            ..l.touched()
        },
        AppMessage::RightPortSelected(_, p) => AppListLine {
            selected_right_out_port_path: Option::Some(p),
            ..l.touched()
        },
        AppMessage::PortDataSaved(_, seq) => if l.edit_seq == seq {
            AppListLine { saved: true, ..l }
        } else {
            l
        },
        AppMessage::LoadInputsCompleted(..) => l,
    }
}

/// The controller's state as values.
pub struct AppView {
    pub inputs: Seq<AppListLine>,
    pub out_port_paths: Seq<String>,
    pub in_port_paths: Seq<String>,
    pub pmx_registry_url: Seq<char>,
}

impl AppView {
    pub open spec fn wf(self) -> bool {
        ids_unique(self.inputs)
    }

    pub open spec fn has_input(self, id: u32) -> bool {
        exists|i: int| 0 <= i < self.inputs.len() && self.inputs[i].pmx_input_id == id
    }

    /// The record with this id.
    pub open spec fn line_of(self, id: u32) -> AppListLine
        recommends
            self.has_input(id),
    {
        self.inputs[choose|i: int| 0 <= i < self.inputs.len() && self.inputs[i].pmx_input_id == id]
    }

    /// The messages the controller can take in this state: a load whose
    /// ids are unique, and otherwise messages about a record that exists,
    /// whose edit number can still grow if the message is an edit.
    pub open spec fn accepts(self, m: AppMessage) -> bool {
        match m {
            AppMessage::LoadInputsCompleted(inputs, _) => input_ids_unique(inputs@),
            _ => {
                &&& self.has_input(target(m))
                &&& is_edit(m) ==> forall|i: int|
                    0 <= i < self.inputs.len() && #[trigger] self.inputs[i].pmx_input_id
                        == target(m) ==> self.inputs[i].edit_seq < u64::MAX
            },
        }
    }

    /// The state after a message.
    pub open spec fn next(self, m: AppMessage) -> AppView {
        match m {
            AppMessage::LoadInputsCompleted(inputs, ports) => AppView {
                inputs: inputs@.map_values(|i: PmxInput| line_from_input(i)),
                out_port_paths: paths_with_direction(ports@, PortDirection::Out),
                in_port_paths: paths_with_direction(ports@, PortDirection::In),
                ..self
            },
            _ => AppView {
                inputs: self.inputs.map_values(
                    |l: AppListLine|
                        if l.pmx_input_id == target(m) {
                            apply_to_line(l, m)
                        } else {
                            l
                        },
                ),
                ..self
            },
        }
    }

    /// The save a message dispatches: after an edit, the one the edited
    /// record calls for; after anything else, none.
    pub open spec fn dispatched(self, m: AppMessage) -> Option<SaveRequest> {
        if is_edit(m) {
            save_request(self.next(m).line_of(target(m)))
        } else {
            Option::None
        }
    }
}

impl AppListLine {
    /// The save this record calls for, if it is complete.
    pub fn save_request(&self) -> (r: Option<SaveRequest>)
        ensures
            r == save_request(*self),
    {
        if !self.is_valid() {
            return Option::None;
        }
        match self.selected_port_type {
            Option::Some(PortType::Mono) => Option::Some(
                SaveRequest {
                    id: self.pmx_input_id,
                    edit_seq: self.edit_seq,
                    input_type: PortType::Mono,
                    left_port_path: copy_path(&self.selected_left_out_port_path),
                    right_port_path: Option::None,
                },
            ),
            Option::Some(PortType::Stereo) => Option::Some(
                SaveRequest {
                    id: self.pmx_input_id,
                    edit_seq: self.edit_seq,
                    input_type: PortType::Stereo,
                    left_port_path: copy_path(&self.selected_left_out_port_path),
                    right_port_path: copy_path(&self.selected_right_out_port_path),
                },
            ),
            Option::Some(PortType::Unrouted) => Option::Some(
                SaveRequest {
                    id: self.pmx_input_id,
                    edit_seq: self.edit_seq,
                    input_type: PortType::Unrouted,
                    left_port_path: Option::None,
                    right_port_path: Option::None,
                },
            ),
            Option::None => Option::None,
        }
    }
}

/// The reconciliation controller: the records of all mixer inputs, the
/// known port paths by direction, and the endpoint saves go to.
pub struct App {
    inputs: Vec<AppListLine>,
    pipewire_out_port_paths: Vec<String>,
    pipewire_in_port_paths: Vec<String>,
    pmx_registry_url: String,
}

impl View for App {
    type V = AppView;

    closed spec fn view(&self) -> AppView {
        AppView {
            inputs: self.inputs@,
            out_port_paths: self.pipewire_out_port_paths@,
            in_port_paths: self.pipewire_in_port_paths@,
            pmx_registry_url: self.pmx_registry_url@,
        }
    }
}

/// The record a freshly loaded input becomes.
fn line_from(i: &PmxInput) -> (r: AppListLine)
    ensures
        r == line_from_input(*i),
{
    AppListLine {
        pmx_input_id: i.id,
        name: i.name.clone(),
        selected_port_type: match i.input_type {
            PmxInputType::MonoInput => Option::Some(PortType::Mono),
            PmxInputType::StereoInput => Option::Some(PortType::Stereo),
            PmxInputType::Unrouted => Option::Some(PortType::Unrouted),
            PmxInputType::Unrecognized => Option::None,
        },
        selected_left_out_port_path: copy_path(&i.left_port_path),
        selected_right_out_port_path: copy_path(&i.right_port_path),
        saved: true,
        edit_seq: 0,
    }
}

/// The paths of the ports with direction `d`, in the order listed.
pub fn port_paths(ports: &Vec<ListPort>, d: PortDirection) -> (r: Vec<String>)
    ensures
        r@ == paths_with_direction(ports@, d),
{
    let mut out: Vec<String> = Vec::new();
    let mut j: usize = 0;
    while j < ports.len()
        invariant
            j <= ports.len(),
            out@ == paths_with_direction(ports@.subrange(0, j as int), d),
        decreases ports.len() - j,
    {
        let ghost before = ports@.subrange(0, j as int);
        assert(ports@.subrange(0, j + 1).drop_last() =~= before);
        if ports[j].direction == d {
            out.push(ports[j].path.clone());
        }
        j = j + 1;
    }
    assert(ports@.subrange(0, ports.len() as int) =~= ports@);
    out
}

/// Whether no two inputs share an id.
pub fn has_unique_ids(inputs: &Vec<PmxInput>) -> (r: bool)
    ensures
        r == input_ids_unique(inputs@),
{
    let n = inputs.len();
    let mut i: usize = 0;
    while i < n
        invariant
            n == inputs.len(),
            i <= n,
            forall|a: int, b: int|
                0 <= a < i && 0 <= b < n && #[trigger] inputs@[a].id == #[trigger] inputs@[b].id
                    ==> a == b,
        decreases n - i,
    {
        let mut j: usize = 0;
        while j < n
            invariant
                n == inputs.len(),
                i < n,
                j <= n,
                forall|a: int, b: int|
                    0 <= a < i && 0 <= b < n && #[trigger] inputs@[a].id
                        == #[trigger] inputs@[b].id ==> a == b,
                forall|b: int| 0 <= b < j && inputs@[i as int].id == #[trigger] inputs@[b].id ==> b == i,
            decreases n - j,
        {
            if j != i && inputs[i].id == inputs[j].id {
                return false;
            }
            j = j + 1;
        }
        i = i + 1;
    }
    true
}

impl App {
    /// No two records share an id.
    #[verifier::type_invariant]
    spec fn inv(self) -> bool {
        ids_unique(self.inputs@)
    }

    /// A controller with nothing loaded yet.
    pub fn new(flags: AppFlags) -> (r: App)
        ensures
            r@.inputs.len() == 0,
            r@.out_port_paths.len() == 0,
            r@.in_port_paths.len() == 0,
            r@.pmx_registry_url == flags.pmx_registry_url@,
            r@.wf(),
    {
        App {
            inputs: Vec::new(),
            pipewire_out_port_paths: Vec::new(),
            pipewire_in_port_paths: Vec::new(),
            pmx_registry_url: flags.pmx_registry_url,
        }
    }

    /// The position of the record with this id.
    fn index_of(&self, id: u32) -> (r: usize)
        requires
            self@.has_input(id),
        ensures
            r < self@.inputs.len(),
            self@.inputs[r as int].pmx_input_id == id,
    {
        let mut i: usize = 0;
        while i < self.inputs.len()
            invariant
                i <= self.inputs.len(),
                forall|k: int| 0 <= k < i ==> #[trigger] self.inputs@[k].pmx_input_id != id,
                self@.has_input(id),
            decreases self.inputs.len() - i,
        {
            if self.inputs[i].pmx_input_id == id {
                return i;
            }
            i = i + 1;
        }
        i
    }

    /// Whether `update` can take this message now.
    pub fn accepts(&self, message: &AppMessage) -> (r: bool)
        ensures
            r == self@.accepts(*message),
    {
        proof {
            use_type_invariant(self);
        }
        let id = match message {
            AppMessage::LoadInputsCompleted(inputs, _) => return has_unique_ids(inputs),
            AppMessage::PortTypeSelected(id, _) => *id,
            AppMessage::LeftPortSelected(id, _) => *id,
            AppMessage::RightPortSelected(id, _) => *id,
            AppMessage::PortDataSaved(id, _) => *id,
        };
        let mut i: usize = 0;
        while i < self.inputs.len()
            invariant
                i <= self.inputs.len(),
                forall|k: int| 0 <= k < i ==> #[trigger] self.inputs@[k].pmx_input_id != id,
                ids_unique(self.inputs@),
                id == target(*message),
                !(message is LoadInputsCompleted),
            decreases self.inputs.len() - i,
        {
            if self.inputs[i].pmx_input_id == id {
                assert(self@.inputs[i as int].pmx_input_id == id);
                return match message {
                    AppMessage::PortDataSaved(..) => true,
                    _ => self.inputs[i].edit_seq < u64::MAX,
                };
            }
            i = i + 1;
        }
        false
    }

    /// Puts the edited record back in place of the one at `i`.
    fn set_line(&mut self, i: usize, line: AppListLine, Ghost(m): Ghost<AppMessage>)
        requires
            i < old(self)@.inputs.len(),
            !(m is LoadInputsCompleted),
            old(self)@.inputs[i as int].pmx_input_id == target(m),
            line == apply_to_line(old(self)@.inputs[i as int], m),
        ensures
            final(self)@ == old(self)@.next(m),
            final(self)@.inputs[i as int] == line,
    {
        proof {
            use_type_invariant(&*self);
        }
        let ghost pre = self@;
        assert(line.pmx_input_id == target(m));
        let mut lines: Vec<AppListLine> = Vec::new();
        std::mem::swap(&mut self.inputs, &mut lines);
        lines.set(i, line);
        assert(lines@ =~= pre.next(m).inputs);
        assert(ids_unique(lines@)) by {
            assert forall|a: int, b: int|
                0 <= a < lines@.len() && 0 <= b < lines@.len() && #[trigger] lines@[a].pmx_input_id
                    == #[trigger] lines@[b].pmx_input_id implies a == b by {
                assert(pre.inputs[a].pmx_input_id == lines@[a].pmx_input_id);
                assert(pre.inputs[b].pmx_input_id == lines@[b].pmx_input_id);
            }
        }
        std::mem::swap(&mut self.inputs, &mut lines);
    }

    /// Handles one message: applies it to the records, and returns the save
    /// to dispatch when the message was an edit that left its record complete.
    pub fn update(&mut self, message: AppMessage) -> (r: Option<SaveRequest>)
        requires
            old(self)@.accepts(message),
        ensures
            final(self)@ == old(self)@.next(message),
            final(self)@.wf(),
            r == old(self)@.dispatched(message),
    {
        proof {
            use_type_invariant(&*self);
        }
        let ghost m = message;
        let ghost pre = self@;
        let id = match message {
            AppMessage::LoadInputsCompleted(inputs, ports) => {
                let mut lines: Vec<AppListLine> = Vec::new();
                let mut j: usize = 0;
                while j < inputs.len()
                    invariant
                        j <= inputs.len(),
                        lines.len() == j,
                        forall|k: int| 0 <= k < j ==> lines@[k] == line_from_input(#[trigger] inputs@[k]),
                    decreases inputs.len() - j,
                {
                    lines.push(line_from(&inputs[j]));
                    j = j + 1;
                }
                assert(lines@ =~= inputs@.map_values(|i: PmxInput| line_from_input(i)));
                assert(ids_unique(lines@)) by {
                    assert forall|a: int, b: int|
                        0 <= a < lines@.len() && 0 <= b < lines@.len()
                            && #[trigger] lines@[a].pmx_input_id == #[trigger] lines@[b].pmx_input_id implies a == b by {
                        assert(inputs@[a].id == inputs@[b].id);
                    }
                }
                self.inputs = lines;
                self.pipewire_out_port_paths = port_paths(&ports, PortDirection::Out);
                self.pipewire_in_port_paths = port_paths(&ports, PortDirection::In);
                return Option::None;
            },
            AppMessage::PortTypeSelected(id, t) => {
                let i = self.index_of(id);
                let mut line = self.inputs[i].duplicate();
                line.selected_port_type = Option::Some(t);
                line.saved = false;
                line.edit_seq = line.edit_seq + 1;
                self.set_line(i, line, Ghost(m));
                id
            },
            AppMessage::LeftPortSelected(id, path) => {
                let i = self.index_of(id);
                let mut line = self.inputs[i].duplicate();
                line.selected_left_out_port_path = Option::Some(path);
                line.saved = false;
                line.edit_seq = line.edit_seq + 1;
                self.set_line(i, line, Ghost(m));
                id
            },
            AppMessage::RightPortSelected(id, path) => {
                let i = self.index_of(id);
                let mut line = self.inputs[i].duplicate();
                line.selected_right_out_port_path = Option::Some(path);
                line.saved = false;
                line.edit_seq = line.edit_seq + 1;
                self.set_line(i, line, Ghost(m));
                id
            },
            AppMessage::PortDataSaved(id, seq) => {
                let i = self.index_of(id);
                if self.inputs[i].edit_seq == seq {
                    let mut line = self.inputs[i].duplicate();
                    line.saved = true;
                    self.set_line(i, line, Ghost(m));
                } else {
                    proof {
                        assert(self@.inputs =~= pre.next(m).inputs);
                    }
                }
                return Option::None;
            },
        };
        let i = self.index_of(id);
        proof {
            use_type_invariant(&*self);
            assert(self@.inputs[i as int].pmx_input_id == id);
            assert(self@.line_of(id) == self@.inputs[i as int]);
        }
        self.inputs[i].save_request()
    }

    /// The records, in the order the registry listed them.
    pub fn inputs(&self) -> (r: &Vec<AppListLine>)
        ensures
            r@ == self@.inputs,
    {
        &self.inputs
    }

    /// The record with this id, if there is one.
    pub fn find_input(&self, id: u32) -> (r: Option<&AppListLine>)
        ensures
            r is Some <==> self@.has_input(id),
            r is Some ==> *r.unwrap() == self@.line_of(id),
    {
        proof {
            use_type_invariant(self);
        }
        let mut i: usize = 0;
        while i < self.inputs.len()
            invariant
                i <= self.inputs.len(),
                forall|k: int| 0 <= k < i ==> #[trigger] self.inputs@[k].pmx_input_id != id,
                ids_unique(self.inputs@),
            decreases self.inputs.len() - i,
        {
            if self.inputs[i].pmx_input_id == id {
                assert(self@.inputs[i as int].pmx_input_id == id);
                return Option::Some(&self.inputs[i]);
            }
            i = i + 1;
        }
        Option::None
    }

    /// The paths of the ports that records can be routed to.
    pub fn out_port_paths(&self) -> (r: &Vec<String>)
        ensures
            r@ == self@.out_port_paths,
    {
        &self.pipewire_out_port_paths
    }

    /// The paths of the ports that take audio in.
    pub fn in_port_paths(&self) -> (r: &Vec<String>)
        ensures
            r@ == self@.in_port_paths,
    {
        &self.pipewire_in_port_paths
    }

    /// Where saves are sent.
    pub fn pmx_registry_url(&self) -> (r: &String)
        ensures
            r@ == self@.pmx_registry_url,
    {
        &self.pmx_registry_url
    }

    pub fn title(&self) -> (r: &'static str)
        ensures
            r@ == "Input Setup"@,
    {
        "Input Setup"
    }
}

} // verus!
