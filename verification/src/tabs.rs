//! Identities of the Develop panel tabs and adjustment controls.
use vstd::prelude::*;

verus! {

/// Stable identifier of a Develop panel tab.
#[derive(Clone, Copy, Debug, PartialEq, Eq)]
pub struct TabId(pub &'static str);

/// Stable identifier of a registered adjustment control (e.g. `exposure`),
/// independent of its display label.
#[derive(Clone, Copy, Debug, PartialEq, Eq)]
pub struct AdjustmentId(pub &'static str);

/// The Light tab (basic sliders, tone curve).
pub struct LightTab;

/// The Color tab (color sliders, HSL, grading).
pub struct ColorTab;

/// The Effects tab (sharpening, noise reduction, dehaze, optics).
pub struct EffectsTab;

/// The read-only Info tab listing the image facts.
pub struct InfoTab;

impl LightTab {
    pub fn id(&self) -> (id: TabId)
        ensures
            id.0@ == "light"@,
    {
        TabId("light")
    }

    pub fn label(&self) -> (label: &'static str)
        ensures
            label@ == "Light"@,
    {
        "Light"
    }
}

impl ColorTab {
    pub fn id(&self) -> (id: TabId)
        ensures
            id.0@ == "color"@,
    {
        TabId("color")
    }

    pub fn label(&self) -> (label: &'static str)
        ensures
            label@ == "Color"@,
    {
        "Color"
    }
}

impl EffectsTab {
    pub fn id(&self) -> (id: TabId)
        ensures
            id.0@ == "effects"@,
    {
        TabId("effects")
    }

    pub fn label(&self) -> (label: &'static str)
        ensures
            label@ == "Effects"@,
    {
        "Effects"
    }
}

impl InfoTab {
    pub fn id(&self) -> (id: TabId)
        ensures
            id.0@ == "info"@,
    {
        TabId("info")
    }

    pub fn label(&self) -> (label: &'static str)
        ensures
            label@ == "Info"@,
    {
        "Info"
    }
}

/// One of the always-present global adjustment tabs.
#[derive(Clone, Copy, Debug, PartialEq, Eq, Structural)]
pub enum BaseTab {
    Light,
    Color,
    Effects,
}

/// The id a base tab is registered under.
pub open spec fn base_tab_id(t: BaseTab) -> Seq<char> {
    match t {
        BaseTab::Light => "light"@,
        BaseTab::Color => "color"@,
        BaseTab::Effects => "effects"@,
    }
}

/// The label a base tab is shown with.
pub open spec fn base_tab_label(t: BaseTab) -> Seq<char> {
    match t {
        BaseTab::Light => "Light"@,
        BaseTab::Color => "Color"@,
        BaseTab::Effects => "Effects"@,
    }
}

impl BaseTab {
    pub fn id(&self) -> (id: TabId)
        ensures
            id.0@ == base_tab_id(*self),
    {
        match self {
            BaseTab::Light => LightTab.id(),
            BaseTab::Color => ColorTab.id(),
            BaseTab::Effects => EffectsTab.id(),
        }
    }

    pub fn label(&self) -> (label: &'static str)
        ensures
            label@ == base_tab_label(*self),
    {
        match self {
            BaseTab::Light => LightTab.label(),
            BaseTab::Color => ColorTab.label(),
            BaseTab::Effects => EffectsTab.label(),
        }
    }
}

/// The base tabs in registry order: Light, Color, Effects.
pub fn base_tabs() -> (tabs: Vec<BaseTab>)
    ensures
        tabs@ == seq![BaseTab::Light, BaseTab::Color, BaseTab::Effects],
{
    let mut tabs = Vec::new();
    tabs.push(BaseTab::Light);
    tabs.push(BaseTab::Color);
    tabs.push(BaseTab::Effects);
    tabs
}

} // verus!
