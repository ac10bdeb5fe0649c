//! The tabs of the main window.

use vstd::prelude::*;

use crate::text::{has_prefix, same_text, starts_with};

verus! {

/// What is shown beside the minimap.
#[derive(Clone, Copy, PartialEq, Eq, Debug, Structural)]
pub enum Screen {
    Actions,
    Characters,
    Settings,
    Localization,
    Debug,
}

impl Screen {
    pub open spec fn label(self) -> Seq<char> {
        match self {
            Screen::Actions => "Actions"@,
            Screen::Characters => "Characters"@,
            Screen::Settings => "Settings"@,
            Screen::Localization => "Localization"@,
            Screen::Debug => "Debug"@,
        }
    }

    /// The name of the tab that shows it.
    pub fn tab(&self) -> (res: &'static str)
        ensures
            res@ == self.label(),
    {
        match self {
            Screen::Actions => "Actions",
            Screen::Characters => "Characters",
            Screen::Settings => "Settings",
            Screen::Localization => "Localization",
            Screen::Debug => "Debug",
        }
    }
}

/// The screens there are tabs for, in order. The one for debugging comes last, if at all.
pub open spec fn screens(debugging: bool) -> Seq<Screen> {
    let screens = seq![
        Screen::Actions,
        Screen::Characters,
        Screen::Settings,
        Screen::Localization,
    ];
    if debugging {
        screens.push(Screen::Debug)
    } else {
        screens
    }
}

/// The names of the tabs, in order.
pub fn tabs(debugging: bool) -> (res: Vec<String>)
    ensures
        res@.len() == screens(debugging).len(),
        forall|i: int|
            0 <= i < res@.len() ==> (#[trigger] res@[i])@ == screens(debugging)[i].label(),
{
    let mut tabs: Vec<String> = Vec::new();
    tabs.push(Screen::Actions.tab().to_owned());
    tabs.push(Screen::Characters.tab().to_owned());
    tabs.push(Screen::Settings.tab().to_owned());
    tabs.push(Screen::Localization.tab().to_owned());
    if debugging {
        tabs.push(Screen::Debug.tab().to_owned());
    }
    tabs
}

proof fn lemma_labels_differ(a: Screen, b: Screen)
    requires
        a.label() == b.label(),
    ensures
        a == b,
{
    reveal_strlit("Actions");
    reveal_strlit("Characters");
    reveal_strlit("Settings");
    reveal_strlit("Localization");
    reveal_strlit("Debug");
    assert("Actions"@.len() == 7 && "Characters"@.len() == 10 && "Settings"@.len() == 8);
    assert("Localization"@.len() == 12 && "Debug"@.len() == 5);
}

/// The screen of a tab. This is `None` where there is no such tab.
pub fn screen_of(tab: &str, debugging: bool) -> (res: Option<Screen>)
    ensures
        match res {
            Some(screen) => screens(debugging).contains(screen) && screen.label() == tab@,
            None => forall|screen: Screen| #[trigger]
                screens(debugging).contains(screen) ==> screen.label() != tab@,
        },
{
    proof {
        let all = screens(debugging);
        assert(all[0] == Screen::Actions && all[1] == Screen::Characters);
        assert(all[2] == Screen::Settings && all[3] == Screen::Localization);
        assert(debugging ==> all[4] == Screen::Debug);
    }
    if same_text(tab, Screen::Actions.tab()) {
        Some(Screen::Actions)
    } else if same_text(tab, Screen::Characters.tab()) {
        Some(Screen::Characters)
    } else if same_text(tab, Screen::Settings.tab()) {
        Some(Screen::Settings)
    } else if same_text(tab, Screen::Localization.tab()) {
        Some(Screen::Localization)
    } else if debugging && same_text(tab, Screen::Debug.tab()) {
        Some(Screen::Debug)
    } else {
        None
    }
}

/// Every tab shows a screen of its own.
pub proof fn law_tabs_show_different_screens(debugging: bool, i: int, j: int)
    requires
        0 <= i < j < screens(debugging).len(),
    ensures
        screens(debugging)[i].label() != screens(debugging)[j].label(),
{
    if screens(debugging)[i].label() == screens(debugging)[j].label() {
        lemma_labels_differ(screens(debugging)[i], screens(debugging)[j]);
    }
}

/// Whether messages of a part of the program are written to the log.
pub fn is_logged(target: &str) -> (res: bool)
    ensures
        res == (has_prefix(target@, "backend"@) || has_prefix(target@, "ui"@) || has_prefix(
            target@,
            "platforms"@,
        )),
{
    starts_with(target, "backend") || starts_with(target, "ui") || starts_with(target, "platforms")
}

/// There are tabs for actions, characters, settings and localization, in this order, and for debugging
/// a last one where that is wanted.
pub proof fn law_debugging_comes_last(debugging: bool)
    ensures
        screens(debugging).len() == if debugging {
            5int
        } else {
            4
        },
        screens(debugging)[0] is Actions,
        screens(debugging)[1] is Characters,
        screens(debugging)[2] is Settings,
        screens(debugging)[3] is Localization,
        debugging ==> screens(debugging)[4] is Debug,
{
}

/// Each screen is called by its own name.
pub proof fn law_tabs_are_named(screen: Screen)
    ensures
        screen.label() == match screen {
            Screen::Actions => "Actions"@,
            Screen::Characters => "Characters"@,
            Screen::Settings => "Settings"@,
            Screen::Localization => "Localization"@,
            Screen::Debug => "Debug"@,
        },
{
}

} // verus!
