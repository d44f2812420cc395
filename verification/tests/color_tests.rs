use wayvr::color::{ModifierKind, Rgba8, WguiColorName, WguiColorPalette, WGUI_COLOR_NAME_COUNT};

#[test]
fn names_resolve_by_key() {
    let p = WguiColorPalette::new();
    assert_eq!(p.resolve_name("primary"), Some(WguiColorName::Primary));
    assert_eq!(p.resolve_name("on_background_contrast"), Some(WguiColorName::OnBackgroundContrast));
    assert_eq!(p.resolve_name("highlight"), Some(WguiColorName::Highlight));
    assert_eq!(p.resolve_name("Primary"), None);
    assert_eq!(p.resolve_name(""), None);
}

#[test]
fn every_name_resolves_back_from_its_key() {
    let p = WguiColorPalette::default();
    for i in 0..WGUI_COLOR_NAME_COUNT as u8 {
        let n = WguiColorName::from_index(i).unwrap();
        assert_eq!(n.index(), i as usize);
        assert_eq!(p.resolve_name(n.key_str()), Some(n));
    }
    assert_eq!(WguiColorName::from_index(17), None);
}

#[test]
fn default_theme_colors() {
    let p = WguiColorPalette::new();
    assert_eq!(p.color(WguiColorName::Primary), Rgba8 { r: 0x21, g: 0xad, b: 0xff, a: 255 });
    assert_eq!(p.color(WguiColorName::Shadow), Rgba8 { r: 0, g: 0, b: 0, a: 255 });
    assert_eq!(p.color(WguiColorName::Background), Rgba8::opaque(0x00, 0x2e, 0x43));
}

#[test]
fn find_plain_name() {
    let p = WguiColorPalette::new();
    let spec = p.find("danger").unwrap();
    assert_eq!(spec.name, WguiColorName::Danger);
    assert!(spec.modifiers.is_empty());
    assert!(p.find("nothing").is_none());
    assert!(p.find(" danger").is_none());
}

#[test]
fn find_with_modifiers() {
    let p = WguiColorPalette::new();
    let spec = p.find(" on_primary ( opacity-0.5, rgb-mult-1.2,rgb-add-0.1 , transparent,opaque)").unwrap();
    assert_eq!(spec.name, WguiColorName::OnPrimary);
    let mods: Vec<(ModifierKind, String)> =
        spec.modifiers.iter().map(|m| (m.kind, m.value.clone())).collect();
    assert_eq!(
        mods,
        vec![
            (ModifierKind::Opacity, "0.5".to_string()),
            (ModifierKind::RgbMult, "1.2".to_string()),
            (ModifierKind::RgbAdd, "0.1".to_string()),
            (ModifierKind::Transparent, String::new()),
            (ModifierKind::Opaque, String::new()),
        ]
    );
}

#[test]
fn find_rejects_unknown_modifier_or_name() {
    let p = WguiColorPalette::new();
    assert!(p.find("primary(bogus)").is_none());
    assert!(p.find("primary(glow-1)").is_none());
    assert!(p.find("primary()").is_none());
    assert!(p.find("nothing(opacity-1)").is_none());
    // the value is what follows the last '-', so a negative value leaves
    // "rgb-add-" as the prefix, which is no modifier
    assert!(p.find("primary(rgb-add--0.1)").is_none());
}

#[test]
fn find_trims_all_closing_brackets() {
    let p = WguiColorPalette::new();
    let spec = p.find("shadow(opacity-0.25))").unwrap();
    assert_eq!(spec.modifiers.len(), 1);
    assert_eq!(spec.modifiers[0].value, "0.25");
}
