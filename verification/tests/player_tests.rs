use thesilentreach::persistence::DiscoveredWorld;
use thesilentreach::player::interaction::{
    jump_command, jump_toast, named_by_text, saved_toast, ConsoleCommand, ConsoleFocus, ConsoleState, TargetKind, MAX_NAME_BYTES,
    MAX_NOTE_BYTES,
};
use thesilentreach::player::label_update::label_update;
use thesilentreach::player::setup::{SetupState, MAX_PLAYER_NAME_BYTES};
use thesilentreach::player::starmap::{plot_discoveries, MAP_RANGE};
use thesilentreach::universe::{GridCell, StarType};

fn entry(x: i64, y: i64, z: i64, name: &str, note: &str) -> DiscoveredWorld {
    DiscoveredWorld {
        cell_x: x,
        cell_y: y,
        cell_z: z,
        name: name.to_string(),
        finder: "Ada".to_string(),
        note: note.to_string(),
        date: "2026".to_string(),
        object_type: "Star System".to_string(),
    }
}

fn type_str(c: &mut ConsoleState, s: &str) {
    for ch in s.chars() {
        if ch == ' ' {
            c.type_space();
        } else {
            c.type_char(ch);
        }
    }
}

#[test]
fn console_starts_closed() {
    let c = ConsoleState::new();
    assert!(c.console_is_inactive());
    assert!(!c.console_is_active());
    assert_eq!(c.focus, ConsoleFocus::Name);
    assert!(c.current_name.is_empty());
}

#[test]
fn open_for_target_fills_fields_from_registry() {
    let mut c = ConsoleState::new();
    c.open_for_target(GridCell::new(1, 2, 3), Some(9), Some(entry(1, 2, 3, "Vega", "bright")));
    assert!(c.console_is_active());
    assert_eq!(c.current_name, "Vega");
    assert_eq!(c.current_note, "bright");
    assert_eq!(c.target_entity, Some(9));
    let mut d = ConsoleState::new();
    d.open_for_target(GridCell::new(1, 2, 3), None, None);
    assert_eq!(d.current_name, "");
    assert_eq!(d.current_note, "");
}

#[test]
fn typing_filters_name_characters() {
    let mut c = ConsoleState::new();
    type_str(&mut c, "Al-1 #x_y/z+=!?.");
    assert_eq!(c.current_name, "Al-1 #x_y/z+=");
    c.type_char('\n');
    c.type_char('é');
    assert_eq!(c.current_name, "Al-1 #x_y/z+=é");
}

#[test]
fn note_takes_any_printable_character() {
    let mut c = ConsoleState::new();
    c.press_tab();
    assert_eq!(c.focus, ConsoleFocus::Note);
    type_str(&mut c, "Hi! ok?");
    c.type_char('\u{7}');
    assert_eq!(c.current_note, "Hi! ok?");
    assert_eq!(c.current_name, "");
}

#[test]
fn tab_twice_returns_focus() {
    let mut c = ConsoleState::new();
    c.press_tab();
    c.press_tab();
    assert_eq!(c.focus, ConsoleFocus::Name);
}

#[test]
fn backspace_undoes_typing() {
    let mut c = ConsoleState::new();
    type_str(&mut c, "ab");
    c.type_char('ß');
    c.press_backspace();
    assert_eq!(c.current_name, "ab");
    c.press_backspace();
    c.press_backspace();
    c.press_backspace();
    assert_eq!(c.current_name, "");
}

#[test]
fn name_and_note_limits() {
    let mut c = ConsoleState::new();
    for _ in 0..150 {
        c.type_char('a');
    }
    assert_eq!(c.current_name.len(), MAX_NAME_BYTES);
    c.type_space();
    assert_eq!(c.current_name.len(), MAX_NAME_BYTES);
    c.press_tab();
    for _ in 0..600 {
        c.type_char('n');
    }
    assert_eq!(c.current_note.len(), MAX_NOTE_BYTES);
    // A multi-byte character is accepted while under the limit.
    let mut d = ConsoleState::new();
    for _ in 0..99 {
        d.type_char('a');
    }
    d.type_char('中');
    assert_eq!(d.current_name.len(), 102);
    d.type_char('a');
    assert_eq!(d.current_name.len(), 102);
}

#[test]
fn escape_closes_and_forgets_entity() {
    let mut c = ConsoleState::new();
    c.open_for_target(GridCell::new(1, 0, 0), Some(4), None);
    type_str(&mut c, "x");
    c.press_escape();
    assert!(c.console_is_inactive());
    assert!(c.target_entity.is_none());
    assert_eq!(c.current_name, "x");
    assert_eq!(c.target_cell, Some(GridCell::new(1, 0, 0)));
}

#[test]
fn enter_saves_trimmed_entry() {
    let mut c = ConsoleState::new();
    c.open_for_target(GridCell::new(5, -6, 7), Some(1), None);
    type_str(&mut c, "  New Home ");
    c.press_tab();
    type_str(&mut c, " calm ");
    match c.press_enter("Ada") {
        ConsoleCommand::Save(d) => {
            assert_eq!((d.cell_x, d.cell_y, d.cell_z), (5, -6, 7));
            assert_eq!(d.name, "New Home");
            assert_eq!(d.note, "calm");
            assert_eq!(d.finder, "Ada");
            assert_eq!(d.date, "2026");
            assert_eq!(d.object_type, "Star System");
        }
        other => panic!("expected a save, got {:?}", other),
    }
    assert!(c.console_is_inactive());
    assert!(c.current_name.is_empty());
    assert!(c.target_entity.is_none());
}

#[test]
fn enter_with_blank_name_or_no_target_closes() {
    let mut c = ConsoleState::new();
    c.open_for_target(GridCell::new(5, 6, 7), None, None);
    type_str(&mut c, "   ");
    assert!(matches!(c.press_enter("Ada"), ConsoleCommand::Close));
    let mut d = ConsoleState::new();
    d.open_spawn_menu();
    type_str(&mut d, "hello");
    assert!(matches!(d.press_enter("Ada"), ConsoleCommand::Close));
    assert!(d.console_is_inactive());
}

#[test]
fn spawn_command_jumps() {
    let mut c = ConsoleState::new();
    c.open_spawn_menu();
    assert_eq!(c.current_name, "/spawn ");
    type_str(&mut c, "BlueGiant");
    assert!(matches!(c.press_enter("Ada"), ConsoleCommand::Jump(StarType::BlueGiant)));
    assert!(c.console_is_inactive());
    assert!(c.current_name.is_empty());
}

#[test]
fn jump_command_ignores_case_and_extra_words() {
    let mut c = ConsoleState::new();
    c.open_for_target(GridCell::new(0, 0, 0), Some(3), None);
    type_str(&mut c, " /JUMP reddwarf now");
    assert!(matches!(c.press_enter("Ada"), ConsoleCommand::Jump(StarType::RedDwarf)));
    assert_eq!(c.target_entity, Some(3));
}

#[test]
fn unknown_jump_target_is_saved_as_a_name() {
    let mut c = ConsoleState::new();
    c.open_for_target(GridCell::new(2, 2, 2), None, None);
    type_str(&mut c, "/jump nowhere");
    match c.press_enter("Ada") {
        ConsoleCommand::Save(d) => assert_eq!(d.name, "/jump nowhere"),
        other => panic!("expected a save, got {:?}", other),
    }
}

#[test]
fn jump_button_clears_and_jumps() {
    let mut c = ConsoleState::new();
    c.open_spawn_menu();
    assert!(matches!(c.press_jump_button(StarType::YellowDwarf), ConsoleCommand::Jump(StarType::YellowDwarf)));
    assert!(c.console_is_inactive());
    assert!(c.current_name.is_empty());
}

#[test]
fn name_display_placeholders() {
    let mut c = ConsoleState::new();
    assert_eq!(c.name_display(), ("[can be named]_".to_string(), false));
    type_str(&mut c, "S 1,2,3");
    // Commas are not typed into names, but registry names may hold them.
    assert_eq!(c.current_name, "S 123");
    c.current_name = "S 1,2,3".to_string();
    assert_eq!(c.name_display(), ("S 1,2,3_".to_string(), true));
    c.press_tab();
    assert_eq!(c.name_display(), ("[can be named]".to_string(), false));
    assert_eq!(c.note_display(), "_");
    c.press_tab();
    assert_eq!(c.note_display(), "[No Note]");
    let mut d = ConsoleState::new();
    type_str(&mut d, "Vega");
    d.press_tab();
    assert_eq!(d.name_display(), ("Vega".to_string(), true));
}

#[test]
fn target_and_coordinate_lines() {
    let mut c = ConsoleState::new();
    assert_eq!(c.target_label(TargetKind::Star), "Target: System (General)");
    assert_eq!(c.coordinates_text(), None);
    c.open_for_target(GridCell::new(-1, 20, 300), Some(7), None);
    assert_eq!(c.target_label(TargetKind::Star), "Target: Star");
    assert_eq!(c.target_label(TargetKind::Planet), "Target: Planet");
    assert_eq!(c.target_label(TargetKind::Other), "Target: Unidentified Body");
    assert_eq!(c.coordinates_text(), Some("Coordinates: [-1, 20, 300]".to_string()));
}

#[test]
fn toasts_and_named_by() {
    assert_eq!(jump_toast(StarType::BlueGiant), "JUMPING TO BlueGiant");
    assert_eq!(saved_toast("Vega"), "SYSTEM DATA SAVED: Vega");
    assert_eq!(named_by_text(true, "Ada"), "Named by: Ada");
    assert_eq!(named_by_text(false, "Ada"), "");
}

#[test]
fn setup_prompt_and_limits() {
    let mut s = SetupState::new();
    assert_eq!(s.prompt_text(), "_");
    assert_eq!(s.confirmed_name(), None);
    s.type_space();
    s.type_char('A');
    s.type_char('\t');
    s.type_char('!');
    s.type_space();
    assert_eq!(s.prompt_text(), " A! _");
    assert_eq!(s.confirmed_name(), Some("A!".to_string()));
    s.press_backspace();
    assert_eq!(s.input_name, " A!");
    for _ in 0..40 {
        s.type_char('z');
    }
    assert_eq!(s.input_name.len(), MAX_PLAYER_NAME_BYTES);
    let mut e = SetupState::new();
    e.press_backspace();
    assert_eq!(e.input_name, "");
}

#[test]
fn star_map_plots_nearby_entries() {
    let me = GridCell::new(100, 0, -100);
    let list = vec![
        entry(150, 9, -50, "Edge", ""),
        entry(151, 0, -100, "TooFarX", ""),
        entry(100, 0, -151, "TooFarZ", ""),
        entry(60, -999, -130, "Near", ""),
    ];
    let marks = plot_discoveries(&list, me);
    assert_eq!(marks.len(), 2);
    assert_eq!((marks[0].dx, marks[0].dz, marks[0].name.as_str()), (MAP_RANGE, MAP_RANGE, "Edge"));
    assert_eq!((marks[1].dx, marks[1].dz, marks[1].name.as_str()), (-40, -30, "Near"));
}

#[test]
fn labels_follow_registry_names() {
    let cell = GridCell::new(1, 2, 3);
    assert_eq!(label_update("S 1,2,3", cell, false, "S 1,2,3"), None);
    assert_eq!(label_update("S 1,2,3", cell, true, "S 1,2,3"), Some("P 1,2,3".to_string()));
    assert_eq!(label_update("S 1,2,3", cell, false, "Old"), Some("S 1,2,3".to_string()));
    assert_eq!(label_update("Vega", cell, false, "S 1,2,3"), Some("Vega".to_string()));
    assert_eq!(label_update("Vega", cell, true, "P 1,2,3"), Some("Vega (Planet)".to_string()));
    assert_eq!(label_update("Vega", cell, true, "Vega (Planet)"), None);
    assert_eq!(label_update("Vega", cell, true, "Vega"), None);
}

#[test]
fn label_update_settles_after_one_step() {
    let cell = GridCell::new(-4, 0, 9);
    for (stored, planet, current) in [("Vega", true, "S -4,0,9"), ("Vega", false, "x"), ("S -4,0,9", true, "Vega (Planet)")] {
        let next = label_update(stored, cell, planet, current).unwrap();
        assert_eq!(label_update(stored, cell, planet, &next), None);
    }
}

#[test]
fn plotted_marks_stay_within_range() {
    let me = GridCell::new(0, 0, 0);
    let list: Vec<DiscoveredWorld> = (-60..60).map(|i| entry(i, 0, -i / 2, "x", "")).collect();
    let marks = plot_discoveries(&list, me);
    assert_eq!(marks.len(), 101);
    for m in &marks {
        assert!(m.dx.abs() <= MAP_RANGE && m.dz.abs() <= MAP_RANGE);
    }
}

#[test]
fn jump_commands_on_lowercased_lines() {
    assert_eq!(jump_command("/jump reddwarf"), Some(StarType::RedDwarf));
    assert_eq!(jump_command("/spawn  bluegiant later"), Some(StarType::BlueGiant));
    assert_eq!(jump_command("/jumpx yellowdwarf"), Some(StarType::YellowDwarf));
    assert_eq!(jump_command("/jump"), None);
    assert_eq!(jump_command("/jump nowhere"), None);
    assert_eq!(jump_command("go reddwarf"), None);
    assert_eq!(jump_command(" /jump reddwarf"), None);
}

#[test]
fn typed_jump_line_in_capitals_jumps() {
    let mut c = ConsoleState::new();
    c.open_for_target(GridCell::new(1, 2, 3), None, None);
    type_str(&mut c, "/JUMP REDDWARF");
    assert!(matches!(c.press_enter("Ada"), ConsoleCommand::Jump(StarType::RedDwarf)));
}

#[test]
fn control_characters_match_std() {
    for u in 0u32..=0x10FFFF {
        if let Some(ch) = char::from_u32(u) {
            let mut s = SetupState::new();
            s.type_char(ch);
            assert_eq!(s.input_name.is_empty(), ch.is_control(), "U+{:04X}", u);
        }
    }
}
