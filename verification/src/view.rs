//! The indicator's visible surface, as data: which icon is shown, what the
//! toggle menu item says, and whether the two service-launch items are
//! visible. The view shown for a settled run state is a pure function of
//! that state.

use vstd::prelude::*;

verus! {

/// The three symbolic icon identifiers the indicator can show.
#[derive(Clone, Copy, PartialEq, Eq, Structural, Debug)]
pub enum IconId {
    /// Neutral / transitional icon, shown while a start or stop is in flight.
    Status,
    /// The cluster is up.
    Running,
    /// The cluster is down.
    Stopped,
}

/// The label on the toggle menu item.
#[derive(Clone, Copy, PartialEq, Eq, Structural, Debug)]
pub enum ToggleLabel {
    Start,
    Stop,
}

/// Everything on the tray surface that depends on cluster state.
#[derive(Clone, Copy, PartialEq, Eq, Structural, Debug)]
pub struct ViewModel {
    pub icon: IconId,
    pub toggle_label: ToggleLabel,
    /// Whether the tracker and notebook menu items are shown.
    pub services_visible: bool,
}

/// The view that a settled run state must show.
pub open spec fn spec_view_for(running: bool) -> ViewModel {
    ViewModel {
        icon: if running {
            IconId::Running
        } else {
            IconId::Stopped
        },
        toggle_label: if running {
            ToggleLabel::Stop
        } else {
            ToggleLabel::Start
        },
        services_visible: running,
    }
}

/// Render the view for a settled run state.
pub fn view_for(running: bool) -> (v: ViewModel)
    ensures
        v == spec_view_for(running),
{
    ViewModel {
        icon: if running {
            IconId::Running
        } else {
            IconId::Stopped
        },
        toggle_label: if running {
            ToggleLabel::Stop
        } else {
            ToggleLabel::Start
        },
        services_visible: running,
    }
}

/// View-state coherence: for every run state, the icon is `Running` iff the
/// cluster runs and `Stopped` iff it does not, the toggle label is `Stop`
/// iff it runs, and the service items are visible iff it runs.
pub proof fn lemma_view_state_coherence(running: bool)
    ensures
        (spec_view_for(running).icon == IconId::Running) <==> running,
        (spec_view_for(running).icon == IconId::Stopped) <==> !running,
        (spec_view_for(running).toggle_label == ToggleLabel::Stop) <==> running,
        (spec_view_for(running).toggle_label == ToggleLabel::Start) <==> !running,
        spec_view_for(running).services_visible <==> running,
{
}

/// The icon-theme name for an icon identifier.
pub fn icon_name(icon: IconId) -> (r: &'static str)
    ensures
        icon == IconId::Status ==> r@ == "dss-status"@,
        icon == IconId::Running ==> r@ == "dss-running"@,
        icon == IconId::Stopped ==> r@ == "dss-stopped"@,
{
    match icon {
        IconId::Status => "dss-status",
        IconId::Running => "dss-running",
        IconId::Stopped => "dss-stopped",
    }
}

/// The menu text of the tracker launch item.
pub fn tracker_menu_label() -> (r: &'static str)
    ensures
        r@ == "MLFlow"@,
{
    "MLFlow"
}

/// The menu text of the notebook launch item.
pub fn notebook_menu_label() -> (r: &'static str)
    ensures
        r@ == "Notebook"@,
{
    "Notebook"
}

/// The menu text for a toggle label.
pub fn toggle_label_text(label: ToggleLabel) -> (r: &'static str)
    ensures
        label == ToggleLabel::Start ==> r@ == "Start"@,
        label == ToggleLabel::Stop ==> r@ == "Stop"@,
{
    match label {
        ToggleLabel::Start => "Start",
        ToggleLabel::Stop => "Stop",
    }
}

} // verus!
