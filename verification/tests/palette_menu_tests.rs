use wayvr::color::WguiColorName;
use wayvr::palette_menu::{
    context_menu_selection, dialog_task, make_palette_action, make_profile_button_id,
    next_widget_id, palette_button_colors, palette_button_params, task_effect, State, Task,
    ViewEffect,
};

#[test]
fn dropdown_action_reads_back() {
    let mut idx: u64 = 3;
    let id = next_widget_id(&mut idx);
    assert_eq!(id, "3");
    assert_eq!(idx, 4);
    let action = make_palette_action(&id, "Catppuccin; Mocha");
    assert_eq!(action, ";3;Catppuccin; Mocha");
    let sel = context_menu_selection(&action).unwrap();
    assert_eq!(sel.label_id, "3_value");
    assert_eq!(sel.palette_name, "Catppuccin; Mocha");
}

#[test]
fn actions_without_three_fields_do_nothing() {
    assert!(context_menu_selection("nothing").is_none());
    assert!(context_menu_selection(";7").is_none());
    let st = State {};
    let sel = st.context_menu_custom("x;7;").unwrap();
    assert_eq!(sel.label_id, "7_value");
    assert_eq!(sel.palette_name, "");
}

#[test]
fn palette_buttons() {
    assert_eq!(make_profile_button_id(12), "profile_btn_12");
    let params = palette_button_params(0, "Default");
    assert_eq!(params[0], ("id", "profile_btn_0".to_string()));
    assert_eq!(params[1], ("text", "Default".to_string()));
    let colors = palette_button_colors();
    assert_eq!(colors.len(), 13);
    assert_eq!(colors[0], ("primary", WguiColorName::Primary));
    assert_eq!(colors[10], ("background_variant", WguiColorName::BackgroundVariant));
    assert_eq!(colors[12], ("highlight", WguiColorName::Highlight));
}

#[test]
fn view_tasks() {
    assert!(matches!(task_effect(Task::SelectPalette("Nord".into())), ViewEffect::ApplyPalette(p) if p == "Nord"));
    assert!(matches!(task_effect(Task::Cancel), ViewEffect::CloseDialog));
    assert!(matches!(task_effect(Task::Restart), ViewEffect::RestartSoftware));
    assert!(matches!(dialog_task("restart"), Task::Restart));
    assert!(matches!(dialog_task("cancel"), Task::Cancel));
}

#[test]
fn dropdown_cells_carry_select_actions() {
    let names = vec!["Default".to_string(), "Nord".to_string()];
    let cells = wayvr::palette_menu::dropdown_cells("5", &names);
    assert_eq!(cells, vec![(";5;Default".to_string(), "Default".to_string()), (";5;Nord".to_string(), "Nord".to_string())]);
    let sel = context_menu_selection(&cells[1].0).unwrap();
    assert_eq!(sel.palette_name, "Nord");
}
