use vstd::prelude::*;

verus! {

/// How many output ports an input is routed to.
#[derive(Clone, Copy, Debug, PartialEq, Eq, Structural)]
pub enum PortType {
    /// One port, the left one.
    Mono,
    /// Two ports, left and right.
    Stereo,
    /// No routing at all.
    Unrouted,
}

impl PortType {
    pub open spec fn label_spec(self) -> Seq<char> {
        match self {
            PortType::Mono => "Mono"@,
            PortType::Stereo => "Stereo"@,
            PortType::Unrouted => "None"@,
        }
    }

    /// The name shown to the operator.
    pub fn label(&self) -> (r: &'static str)
        ensures
            r@ == self.label_spec(),
    {
        match self {
            PortType::Mono => "Mono",
            PortType::Stereo => "Stereo",
            PortType::Unrouted => "None",
        }
    }

    /// The types the operator can choose from, in the order offered.
    pub fn all() -> (r: Vec<PortType>)
        ensures
            r@ == seq![PortType::Mono, PortType::Stereo, PortType::Unrouted],
    {
        let r = vec![PortType::Mono, PortType::Stereo, PortType::Unrouted];
        assert(r@ =~= seq![PortType::Mono, PortType::Stereo, PortType::Unrouted]);
        r
    }
}

/// What an input's indicator shows.
#[derive(Clone, Copy, Debug, PartialEq, Eq, Structural)]
pub enum InputStatus {
    Invalid,
    ValidUnsaved,
    ValidSaved,
}

/// The editable state of one mixer input.
#[derive(Clone, Debug)]
pub struct AppListLine {
    pub pmx_input_id: u32,
    pub name: String,
    /// `None` only when the registry reported a type this program does not know.
    pub selected_port_type: Option<PortType>,
    pub selected_left_out_port_path: Option<String>,
    pub selected_right_out_port_path: Option<String>,
    /// The last completed save reflects the current selection.
    pub saved: bool,
    /// Bumped by every edit; a save carries the value it was dispatched with.
    pub edit_seq: u64,
}

impl AppListLine {
    /// The selection is complete for its port type.
    pub open spec fn valid(&self) -> bool {
        match self.selected_port_type {
            Option::None => false,
            Option::Some(PortType::Mono) => self.selected_left_out_port_path is Some,
            Option::Some(PortType::Stereo) => {
                &&& self.selected_left_out_port_path is Some
                &&& self.selected_right_out_port_path is Some
            },
            Option::Some(PortType::Unrouted) => true,
        }
    }

    pub open spec fn status_spec(&self) -> InputStatus {
        if !self.valid() {
            InputStatus::Invalid
        } else if self.saved {
            InputStatus::ValidSaved
        } else {
            InputStatus::ValidUnsaved
        }
    }

    /// The record after any edit: no longer saved, with the next edit number.
    pub open spec fn touched(self) -> AppListLine {
        AppListLine { saved: false, edit_seq: (self.edit_seq + 1) as u64, ..self }
    }

    /// A field-by-field copy.
    pub fn duplicate(&self) -> (r: AppListLine)
        ensures
            r == *self,
    {
        AppListLine {
            pmx_input_id: self.pmx_input_id,
            name: self.name.clone(),
            selected_port_type: self.selected_port_type,
            selected_left_out_port_path: copy_path(&self.selected_left_out_port_path),
            selected_right_out_port_path: copy_path(&self.selected_right_out_port_path),
            saved: self.saved,
            edit_seq: self.edit_seq,
        }
    }

    pub fn is_valid(&self) -> (r: bool)
        ensures
            r == self.valid(),
    {
        match self.selected_port_type {
            Option::Some(PortType::Mono) => self.selected_left_out_port_path.is_some(),
            Option::Some(PortType::Stereo) => {
                self.selected_left_out_port_path.is_some()
                    && self.selected_right_out_port_path.is_some()
            },
            Option::Some(PortType::Unrouted) => true,
            Option::None => false,
        }
    }

    /// Which port selectors the record's type calls for: (left, right).
    pub fn port_selectors(&self) -> (r: (bool, bool))
        ensures
            r.0 == (self.selected_port_type == Option::Some(PortType::Mono)
                || self.selected_port_type == Option::Some(PortType::Stereo)),
            r.1 == (self.selected_port_type == Option::Some(PortType::Stereo)),
    {
        match self.selected_port_type {
            Option::Some(PortType::Mono) => (true, false),
            Option::Some(PortType::Stereo) => (true, true),
            _ => (false, false),
        }
    }

    pub fn status(&self) -> (r: InputStatus)
        ensures
            r == self.status_spec(),
            r == InputStatus::Invalid <==> !self.valid(),
            r == InputStatus::ValidSaved <==> self.valid() && self.saved,
            r == InputStatus::ValidUnsaved <==> self.valid() && !self.saved,
    {
        if !self.is_valid() {
            InputStatus::Invalid
        } else if self.saved {
            InputStatus::ValidSaved
        } else {
            InputStatus::ValidUnsaved
        }
    }
}

/// Copies an optional port path.
pub fn copy_path(p: &Option<String>) -> (r: Option<String>)
    ensures
        r == *p,
{
    match p {
        Option::Some(s) => Option::Some(s.clone()),
        Option::None => Option::None,
    }
}

} // verus!
