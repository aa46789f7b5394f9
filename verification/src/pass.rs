//! One inspector pass over a rigid body: which widgets reported an edit, what
//! is written back, and what the pass reports to its caller.

use vstd::prelude::*;

verus! {

/// Folds the edit flags that the pane's widgets report, one after another,
/// into a single "anything changed" answer for the pass.
pub struct ChangeTracker {
    changed: bool,
}

impl ChangeTracker {
    /// Whether any edit has been recorded so far.
    pub closed spec fn any_spec(self) -> bool {
        self.changed
    }

    pub fn new() -> (r: Self)
        ensures
            !r.any_spec(),
    {
        ChangeTracker { changed: false }
    }

    /// Record one widget's answer; an edit, once seen, is never forgotten.
    pub fn record(&mut self, edited: bool)
        ensures
            final(self).any_spec() == (old(self).any_spec() || edited),
    {
        self.changed = self.changed || edited;
    }

    pub fn any(&self) -> (r: bool)
        ensures
            r == self.any_spec(),
    {
        self.changed
    }
}

/// Which of a rigid body's editable fields reported an edit during one pass,
/// in the order the pane shows them.
#[derive(Clone, Copy, Debug, PartialEq, Eq, Structural)]
pub struct FieldEdits {
    pub body_status: bool,
    pub mass_properties: bool,
    pub translation: bool,
    pub rotation: bool,
    pub linear_velocity: bool,
    pub angular_velocity: bool,
}

impl FieldEdits {
    /// The fields that feed the body's pose: everything shown before the
    /// velocities.
    pub open spec fn pose_inputs_edited(self) -> bool {
        self.body_status || self.mass_properties || self.translation || self.rotation
    }

    /// Whether any field at all was edited.
    pub open spec fn any_edited(self) -> bool {
        self.pose_inputs_edited() || self.linear_velocity || self.angular_velocity
    }

    /// The pane rebuilds the pose from the translation and rotation widgets
    /// and writes it back exactly when some field shown up to that point was
    /// edited; an untouched body keeps the pose the engine holds for it.
    pub fn pose_write_needed(&self) -> (r: bool)
        ensures
            r == self.pose_inputs_edited(),
    {
        self.body_status || self.mass_properties || self.translation || self.rotation
    }

    /// What the pass reports to its caller: whether anything was edited.
    pub fn any_edit(&self) -> (r: bool)
        ensures
            r == self.any_edited(),
    {
        self.pose_write_needed() || self.linear_velocity || self.angular_velocity
    }
}

/// What the pane does for a body handle once the body set has been asked for
/// the live body behind it.
#[derive(Clone, Copy, Debug, PartialEq, Eq, Structural)]
pub enum HandleAction {
    /// The handle resolves to no body: show an error label in place of the
    /// pane.
    ReportMissing,
    /// The body is there: edit it in place.
    EditBody,
}

/// Decide what to do with a handle from whether its body was found.
pub fn resolve_handle(body_found: bool) -> (r: HandleAction)
    ensures
        r == (if body_found {
            HandleAction::EditBody
        } else {
            HandleAction::ReportMissing
        }),
{
    if body_found {
        HandleAction::EditBody
    } else {
        HandleAction::ReportMissing
    }
}

/// What editing through a handle reports: a missing body is no change,
/// whatever the body editor would have answered; otherwise the body editor's
/// own answer stands.
pub fn handle_edit_result(body_found: bool, body_edited: bool) -> (r: bool)
    ensures
        r == (body_found && body_edited),
{
    body_found && body_edited
}

} // verus!
