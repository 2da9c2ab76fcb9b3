use vstd::prelude::*;

verus! {

/// The tabs of the settings window, in the order in which they are listed.
#[derive(Debug, PartialEq, Eq, Structural, Clone, Copy)]
pub enum SettingsTab {
    Interface,
    Video,
    Sound,
    Gameplay,
    Controls,
    Lang,
}

/// Localisation key of a tab's label.
pub open spec fn name_key_of(t: SettingsTab) -> Seq<char> {
    match t {
        SettingsTab::Interface => "common.interface"@,
        SettingsTab::Gameplay => "common.gameplay"@,
        SettingsTab::Controls => "common.controls"@,
        SettingsTab::Video => "common.video"@,
        SettingsTab::Sound => "common.sound"@,
        SettingsTab::Lang => "common.languages"@,
    }
}

/// Localisation key of a tab's title.
pub open spec fn title_key_of(t: SettingsTab) -> Seq<char> {
    match t {
        SettingsTab::Interface => "common.interface_settings"@,
        SettingsTab::Gameplay => "common.gameplay_settings"@,
        SettingsTab::Controls => "common.controls_settings"@,
        SettingsTab::Video => "common.video_settings"@,
        SettingsTab::Sound => "common.sound_settings"@,
        SettingsTab::Lang => "common.language_settings"@,
    }
}

/// The tabs in listing order.
pub open spec fn all_tabs() -> Seq<SettingsTab> {
    seq![
        SettingsTab::Interface,
        SettingsTab::Video,
        SettingsTab::Sound,
        SettingsTab::Gameplay,
        SettingsTab::Controls,
        SettingsTab::Lang,
    ]
}

impl SettingsTab {
    pub fn name_key(&self) -> (r: &'static str)
        ensures
            r@ == name_key_of(*self),
    {
        match self {
            SettingsTab::Interface => "common.interface",
            SettingsTab::Gameplay => "common.gameplay",
            SettingsTab::Controls => "common.controls",
            SettingsTab::Video => "common.video",
            SettingsTab::Sound => "common.sound",
            SettingsTab::Lang => "common.languages",
        }
    }

    pub fn title_key(&self) -> (r: &'static str)
        ensures
            r@ == title_key_of(*self),
    {
        match self {
            SettingsTab::Interface => "common.interface_settings",
            SettingsTab::Gameplay => "common.gameplay_settings",
            SettingsTab::Controls => "common.controls_settings",
            SettingsTab::Video => "common.video_settings",
            SettingsTab::Sound => "common.sound_settings",
            SettingsTab::Lang => "common.language_settings",
        }
    }

    /// Every tab once, in listing order.
    pub fn all() -> (r: Vec<SettingsTab>)
        ensures
            r@ == all_tabs(),
    {
        let r = vec![
            SettingsTab::Interface,
            SettingsTab::Video,
            SettingsTab::Sound,
            SettingsTab::Gameplay,
            SettingsTab::Controls,
            SettingsTab::Lang,
        ];
        assert(r@ =~= all_tabs());
        r
    }
}

} // verus!
