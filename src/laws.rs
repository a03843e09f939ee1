//! Properties of the validity rules and of the controller's state machine.
use crate::controller::{apply_to_line, is_edit, target, AppMessage, AppView};
use crate::model::{AppListLine, InputStatus, PortType};
use vstd::prelude::*;

verus! {

/// Every record has exactly one status: invalid when incomplete, otherwise
/// saved or unsaved according to its flag.
pub proof fn lemma_status_total(l: AppListLine)
    ensures
        l.status_spec() == InputStatus::Invalid <==> !l.valid(),
        l.status_spec() == InputStatus::ValidUnsaved <==> l.valid() && !l.saved,
        l.status_spec() == InputStatus::ValidSaved <==> l.valid() && l.saved,
{
}

/// A stereo record without a left port is invalid, whatever its right port.
pub proof fn lemma_stereo_needs_left(l: AppListLine)
    requires
        l.selected_port_type == Option::Some(PortType::Stereo),
        l.selected_left_out_port_path is None,
    ensures
        !l.valid(),
{
}

/// A record routed nowhere is valid, whatever its port paths.
pub proof fn lemma_unrouted_is_valid(l: AppListLine)
    requires
        l.selected_port_type == Option::Some(PortType::Unrouted),
    ensures
        l.valid(),
{
}

/// In a state with unique ids, `line_of` finds the record at each position.
pub proof fn lemma_line_of(s: AppView, i: int)
    requires
        s.wf(),
        0 <= i < s.inputs.len(),
    ensures
        s.has_input(s.inputs[i].pmx_input_id),
        s.line_of(s.inputs[i].pmx_input_id) == s.inputs[i],
{
    let id = s.inputs[i].pmx_input_id;
    assert(s.has_input(id));
}

/// A message other than a load changes only the record it is about, keeps
/// every id in place, and so keeps ids unique.
pub proof fn lemma_next_in_place(s: AppView, m: AppMessage, i: int)
    requires
        s.wf(),
        !(m is LoadInputsCompleted),
        0 <= i < s.inputs.len(),
        s.inputs[i].pmx_input_id == target(m),
    ensures
        s.next(m).wf(),
        s.next(m).inputs.len() == s.inputs.len(),
        s.next(m).inputs[i] == apply_to_line(s.inputs[i], m),
        s.next(m).line_of(target(m)) == apply_to_line(s.line_of(target(m)), m),
        forall|j: int|
            0 <= j < s.inputs.len() && j != i ==> #[trigger] s.next(m).inputs[j] == s.inputs[j],
{
    let t = s.next(m);
    assert forall|a: int, b: int|
        0 <= a < t.inputs.len() && 0 <= b < t.inputs.len() && #[trigger] t.inputs[a].pmx_input_id
            == #[trigger] t.inputs[b].pmx_input_id implies a == b by {
        assert(s.inputs[a].pmx_input_id == t.inputs[a].pmx_input_id);
        assert(s.inputs[b].pmx_input_id == t.inputs[b].pmx_input_id);
    }
    lemma_line_of(s, i);
    assert(t.inputs[i].pmx_input_id == target(m));
    lemma_line_of(t, i);
}

/// Any edit leaves its record unsaved with a larger edit number, even when
/// the new value equals the old one.
pub proof fn lemma_edit_clears_saved(s: AppView, m: AppMessage)
    requires
        s.wf(),
        s.accepts(m),
        is_edit(m),
    ensures
        !s.next(m).line_of(target(m)).saved,
        s.next(m).line_of(target(m)).edit_seq == s.line_of(target(m)).edit_seq + 1,
        s.next(m).line_of(target(m)).status_spec() != InputStatus::ValidSaved,
{
    let i = choose|i: int| 0 <= i < s.inputs.len() && s.inputs[i].pmx_input_id == target(m);
    lemma_line_of(s, i);
    lemma_next_in_place(s, m, i);
}

/// Delivering the same completion twice has the effect of delivering it once.
pub proof fn lemma_completion_idempotent(s: AppView, id: u32, seq: u64)
    ensures
        s.next(AppMessage::PortDataSaved(id, seq)).next(AppMessage::PortDataSaved(id, seq))
            == s.next(AppMessage::PortDataSaved(id, seq)),
{
    let m = AppMessage::PortDataSaved(id, seq);
    assert(s.next(m).next(m).inputs =~= s.next(m).inputs);
}

/// After an edit, the completion of a save dispatched before it changes
/// nothing, and the record stays unsaved; the completion of the save that the
/// edit dispatched marks the record saved.
pub proof fn lemma_stale_completion_ignored(s: AppView, m: AppMessage, seq: u64)
    requires
        s.wf(),
        s.accepts(m),
        is_edit(m),
        seq <= s.line_of(target(m)).edit_seq,
    ensures
        s.next(m).next(AppMessage::PortDataSaved(target(m), seq)) == s.next(m),
        !s.next(m).next(AppMessage::PortDataSaved(target(m), seq)).line_of(target(m)).saved,
        s.dispatched(m) is Some ==> ({
            let req = s.dispatched(m).unwrap();
            let u = s.next(m).next(AppMessage::PortDataSaved(req.id, req.edit_seq));
            &&& req.id == target(m)
            &&& req.edit_seq == s.line_of(target(m)).edit_seq + 1
            &&& u.line_of(target(m)).status_spec() == InputStatus::ValidSaved
        }),
{
    let id = target(m);
    let i = choose|i: int| 0 <= i < s.inputs.len() && s.inputs[i].pmx_input_id == id;
    lemma_line_of(s, i);
    lemma_next_in_place(s, m, i);
    let t = s.next(m);
    let stale = AppMessage::PortDataSaved(id, seq);
    assert(t.next(stale).inputs =~= t.inputs);
    lemma_line_of(t, i);
    if s.dispatched(m) is Some {
        let req = s.dispatched(m).unwrap();
        let done = AppMessage::PortDataSaved(req.id, req.edit_seq);
        lemma_next_in_place(t, done, i);
    }
}

} // verus!
