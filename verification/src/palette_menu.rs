//! The color-palette settings: the palette dropdown's context-menu actions
//! (`;<widget id>;<palette name>`), the palette buttons of the palette view
//! and the decisions of that view (selecting a palette, the restart dialog).

use vstd::prelude::*;
use crate::color::WguiColorName;
use crate::text::{
    chars_of, decimal, decimal_string, digit_char, is_first_at, lemma_first_index, split_once,
    split_once_chars, string_of,
};

verus! {

/// The context-menu action that selects palette `name` from the dropdown
/// whose widget id is `id`.
pub open spec fn palette_action(id: Seq<char>, name: Seq<char>) -> Seq<char> {
    seq![';'] + id + seq![';'] + name
}

/// The widget id and palette name an action carries: the second and the
/// rest of the `;`-separated fields (`splitn(3, ';')`), when there are three.
pub open spec fn palette_action_parts(action: Seq<char>) -> Option<(Seq<char>, Seq<char>)> {
    match split_once(action, ';') {
        Some((_, rest)) => split_once(rest, ';'),
        None => None,
    }
}

/// The id of the label that shows the palette chosen in dropdown `id`.
pub open spec fn value_label_id(id: Seq<char>) -> Seq<char> {
    id + "_value"@
}

/// Builds the action that selects `name` in dropdown `id`.
pub fn make_palette_action(id: &str, name: &str) -> (r: String)
    ensures
        r@ == palette_action(id@, name@),
{
    let mut r = String::from_str(";");
    r.append(id);
    r.append(";");
    r.append(name);
    proof {
        reveal_strlit(";");
        assert(r@ =~= palette_action(id@, name@));
    }
    r
}

/// A palette chosen from the dropdown: the label to update and the name of
/// the palette, which becomes the configured palette.
pub struct PaletteSelection {
    pub label_id: String,
    pub palette_name: String,
}

/// What choosing context-menu `action` does: nothing unless it carries a
/// widget id and a palette name.
pub fn context_menu_selection(action: &str) -> (r: Option<PaletteSelection>)
    ensures
        match r {
            Some(sel) => palette_action_parts(action@) matches Some((id, name)) && sel.label_id@
                == value_label_id(id) && sel.palette_name@ == name,
            None => palette_action_parts(action@) is None,
        },
{
    let chars = chars_of(action);
    match split_once_chars(chars.as_slice(), ';') {
        Some((_, rest)) => match split_once_chars(rest.as_slice(), ';') {
            Some((id, name)) => {
                let mut label_id = string_of(id.as_slice());
                label_id.append("_value");
                Some(PaletteSelection { label_id, palette_name: string_of(name.as_slice()) })
            },
            None => None,
        },
        None => None,
    }
}

/// The "look and feel" settings tab.
pub struct State {}

impl State {
    /// What a context-menu action of this tab does: when it selects a
    /// palette, the label to update and the palette to configure.
    pub fn context_menu_custom(&self, action: &str) -> (r: Option<PaletteSelection>)
        ensures
            match r {
                Some(sel) => palette_action_parts(action@) matches Some((id, name))
                    && sel.label_id@ == value_label_id(id) && sel.palette_name@ == name,
                None => palette_action_parts(action@) is None,
            },
    {
        context_menu_selection(action)
    }
}

/// The widget id of the next dropdown, which is its number; the counter
/// moves on.
pub fn next_widget_id(idx: &mut u64) -> (id: String)
    requires
        *old(idx) < u64::MAX,
    ensures
        id@ == decimal(*old(idx) as nat),
        *final(idx) == *old(idx) + 1,
{
    let id = decimal_string(*idx);
    *idx = *idx + 1;
    id
}

/// The context-menu entries of dropdown `id`, one per palette name, in
/// order: the action that selects the palette, and the palette's name as
/// the entry's title.
pub fn dropdown_cells(id: &str, names: &Vec<String>) -> (cells: Vec<(String, String)>)
    ensures
        cells@.len() == names@.len(),
        forall|i: int|
            0 <= i < names@.len() ==> (#[trigger] cells@[i]).0@ == palette_action(id@, names@[i]@)
                && cells@[i].1@ == names@[i]@,
{
    let mut cells: Vec<(String, String)> = Vec::new();
    let mut i: usize = 0;
    while i < names.len()
        invariant
            i <= names@.len(),
            cells@.len() == i,
            forall|k: int|
                0 <= k < i ==> (#[trigger] cells@[k]).0@ == palette_action(id@, names@[k]@)
                    && cells@[k].1@ == names@[k]@,
        decreases names.len() - i,
    {
        let action = make_palette_action(id, names[i].as_str());
        cells.push((action, names[i].clone()));
        i = i + 1;
    }
    cells
}

/// The digits of a decimal representation hold no `;`.
pub proof fn lemma_decimal_has_no_separator(n: nat)
    ensures
        forall|i: int| 0 <= i < decimal(n).len() ==> decimal(n)[i] != ';',
    decreases n,
{
    assert(digit_char(n % 10) != ';');
    if n >= 10 {
        lemma_decimal_has_no_separator(n / 10);
        let d = decimal(n / 10);
        assert forall|i: int| 0 <= i < decimal(n).len() implies decimal(n)[i] != ';' by {
            if i < d.len() {
                assert(decimal(n)[i] == d[i]);
            }
        }
    } else {
        assert(digit_char(n) != ';');
    }
}

/// Reading an action back gives the dropdown id and palette name it was
/// built from, whenever the id holds no `;` (the palette name may hold
/// anything).
pub proof fn lemma_palette_action_roundtrip(id: Seq<char>, name: Seq<char>)
    requires
        forall|i: int| 0 <= i < id.len() ==> id[i] != ';',
    ensures
        palette_action_parts(palette_action(id, name)) == Some((id, name)),
{
    let a = palette_action(id, name);
    assert(is_first_at(a, ';', 0));
    lemma_first_index(a, ';', 0);
    let rest = a.skip(1);
    assert(rest =~= id + seq![';'] + name);
    assert(is_first_at(rest, ';', id.len() as int)) by {
        assert forall|j: int| 0 <= j < id.len() implies rest[j] != ';' by {
            assert(rest[j] == id[j]);
        }
    }
    lemma_first_index(rest, ';', id.len() as int);
    assert(rest.take(id.len() as int) =~= id);
    assert(rest.skip(id.len() as int + 1) =~= name);
}

/// The dropdowns' own actions, whose ids are numbers, always read back.
pub proof fn lemma_dropdown_action_roundtrip(idx: nat, name: Seq<char>)
    ensures
        palette_action_parts(palette_action(decimal(idx), name)) == Some((decimal(idx), name)),
{
    lemma_decimal_has_no_separator(idx);
    lemma_palette_action_roundtrip(decimal(idx), name);
}

/// The id of the palette view's button for palette number `idx`.
pub open spec fn profile_button_id(idx: nat) -> Seq<char> {
    "profile_btn_"@ + decimal(idx)
}

/// Builds the id of the button for palette number `idx`.
pub fn make_profile_button_id(idx: u64) -> (r: String)
    ensures
        r@ == profile_button_id(idx as nat),
{
    let mut r = String::from_str("profile_btn_");
    let n = decimal_string(idx);
    r.append(n.as_str());
    r
}

/// The template keys of a palette button and the theme color each shows.
pub open spec fn palette_button_color(i: int) -> (Seq<char>, WguiColorName) {
    if i == 0 {
        ("primary"@, WguiColorName::Primary)
    } else if i == 1 {
        ("on_primary"@, WguiColorName::OnPrimary)
    } else if i == 2 {
        ("secondary"@, WguiColorName::Secondary)
    } else if i == 3 {
        ("on_secondary"@, WguiColorName::OnSecondary)
    } else if i == 4 {
        ("tertiary"@, WguiColorName::Tertiary)
    } else if i == 5 {
        ("on_tertiary"@, WguiColorName::OnTertiary)
    } else if i == 6 {
        ("danger"@, WguiColorName::Danger)
    } else if i == 7 {
        ("on_danger"@, WguiColorName::OnDanger)
    } else if i == 8 {
        ("background"@, WguiColorName::Background)
    } else if i == 9 {
        ("on_background"@, WguiColorName::OnBackground)
    } else if i == 10 {
        ("background_variant"@, WguiColorName::BackgroundVariant)
    } else if i == 11 {
        ("outline"@, WguiColorName::Outline)
    } else {
        ("highlight"@, WguiColorName::Highlight)
    }
}

/// How many colors a palette button shows.
pub const PALETTE_BUTTON_COLOR_COUNT: usize = 13;

/// Each template key of a palette button is given the theme color whose key
/// it is, and no theme color is shown twice.
pub proof fn lemma_palette_button_keys()
    ensures
        forall|i: int|
            0 <= i < PALETTE_BUTTON_COLOR_COUNT ==> (#[trigger] palette_button_color(i)).1.key()
                == palette_button_color(i).0,
        forall|i: int, j: int|
            0 <= i < j < PALETTE_BUTTON_COLOR_COUNT ==> (#[trigger] palette_button_color(i)).1
                != (#[trigger] palette_button_color(j)).1,
{
}

/// The template keys of a palette button, each with the theme color whose
/// value (in the button's palette) it is given.
pub fn palette_button_colors() -> (v: Vec<(&'static str, WguiColorName)>)
    ensures
        v@.len() == PALETTE_BUTTON_COLOR_COUNT,
        forall|i: int|
            0 <= i < PALETTE_BUTTON_COLOR_COUNT ==> (#[trigger] v@[i]).0@ == palette_button_color(i).0
                && v@[i].1 == palette_button_color(i).1,
        forall|i: int| 0 <= i < PALETTE_BUTTON_COLOR_COUNT ==> (#[trigger] v@[i]).1.key() == v@[i].0@,
        forall|i: int, j: int|
            0 <= i < j < PALETTE_BUTTON_COLOR_COUNT ==> (#[trigger] v@[i]).1 != (#[trigger] v@[j]).1,
{
    proof {
        lemma_palette_button_keys();
    }
    let mut v: Vec<(&'static str, WguiColorName)> = Vec::new();
    v.push(("primary", WguiColorName::Primary));
    v.push(("on_primary", WguiColorName::OnPrimary));
    v.push(("secondary", WguiColorName::Secondary));
    v.push(("on_secondary", WguiColorName::OnSecondary));
    v.push(("tertiary", WguiColorName::Tertiary));
    v.push(("on_tertiary", WguiColorName::OnTertiary));
    v.push(("danger", WguiColorName::Danger));
    v.push(("on_danger", WguiColorName::OnDanger));
    v.push(("background", WguiColorName::Background));
    v.push(("on_background", WguiColorName::OnBackground));
    v.push(("background_variant", WguiColorName::BackgroundVariant));
    v.push(("outline", WguiColorName::Outline));
    v.push(("highlight", WguiColorName::Highlight));
    v
}

/// A palette button's template parameters that do not depend on colors:
/// its id and the palette's name as its text.
pub fn palette_button_params(idx: u64, name: &str) -> (v: Vec<(&'static str, String)>)
    ensures
        v@.len() == 2,
        v@[0].0@ == "id"@ && v@[0].1@ == profile_button_id(idx as nat),
        v@[1].0@ == "text"@ && v@[1].1@ == name@,
{
    let mut v: Vec<(&'static str, String)> = Vec::new();
    v.push(("id", make_profile_button_id(idx)));
    v.push(("text", string_of(chars_of(name).as_slice())));
    v
}

/// What the palette view is asked to do.
pub enum Task {
    SelectPalette(String),
    Restart,
    Cancel,
}

/// What the view does for a task.
pub enum ViewEffect {
    /// Make `name` the configured palette, flag a theme change and ask for a
    /// restart.
    ApplyPalette(String),
    /// Close the restart dialog.
    CloseDialog,
    /// Ask the settings to restart the software.
    RestartSoftware,
}

/// The effect of one task.
pub fn task_effect(task: Task) -> (e: ViewEffect)
    ensures
        match task {
            Task::SelectPalette(p) => e matches ViewEffect::ApplyPalette(q) && q == p,
            Task::Restart => e is RestartSoftware,
            Task::Cancel => e is CloseDialog,
        },
{
    match task {
        Task::SelectPalette(profile) => ViewEffect::ApplyPalette(profile),
        Task::Cancel => ViewEffect::CloseDialog,
        Task::Restart => ViewEffect::RestartSoftware,
    }
}

/// The action of the restart dialog's restart button.
pub open spec fn action_restart() -> Seq<char> {
    "restart"@
}

/// The action of the restart dialog's cancel button.
pub open spec fn action_cancel() -> Seq<char> {
    "cancel"@
}

/// The task for a button of the restart dialog; the dialog has no other
/// buttons.
pub fn dialog_task(action: &str) -> (t: Task)
    requires
        action@ == action_restart() || action@ == action_cancel(),
    ensures
        action@ == action_restart() ==> t is Restart,
        action@ != action_restart() ==> t is Cancel,
{
    let a = chars_of(action);
    if crate::text::chars_eq_str(a.as_slice(), "restart") {
        Task::Restart
    } else {
        Task::Cancel
    }
}

} // verus!
