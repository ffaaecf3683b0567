use std::sync::Arc;

use omoridev::script::{build_test_script, Script, ScriptInstruction, SelfSwitch};
use omoridev::util::{bool_switch, is_dark, Rgb};
use omoridev::widget::{
    bg_color, script_highlight_color, script_highlight_color_dark, script_highlight_color_light,
    NotImplemented, ScriptEditor, Theme,
};

fn dark_theme() -> Theme {
    Theme {
        background_primary: Rgb::rgb8(58, 58, 58),
        background_alternate: Rgb::rgb8(49, 49, 47),
        selection_outline: Rgb::rgb8(167, 92, 237),
    }
}

fn light_theme() -> Theme {
    Theme {
        background_primary: Rgb::rgb8(255, 255, 255),
        background_alternate: Rgb::rgb8(240, 240, 240),
        selection_outline: Rgb::rgb8(0, 0, 0),
    }
}

fn plugin(args: &str) -> ScriptInstruction {
    ScriptInstruction::PluginCommand(args.to_string())
}

fn scenario_script() -> Script {
    Script::new_with(vec![
        ScriptInstruction::Wait(10),
        plugin("ShowMessage fa_map_flavor.message_366"),
        ScriptInstruction::ControlSelfSwitch(SelfSwitch::A, true),
    ])
}

/// Measures every row that asks for it with the same text height; returns
/// how many rows were measured.
fn measure_all(editor: &mut ScriptEditor, text_height: u32) -> usize {
    let mut count = 0;
    for i in 0..editor.len() {
        if editor.needs_measure(i) {
            editor.set_text_height(i, text_height);
            count += 1;
        }
    }
    count
}

/// An editor over `script` whose rows are all `20 + 2 * 5 = 30` high.
fn laid_out(script: &Script) -> ScriptEditor {
    let mut editor = ScriptEditor::new();
    editor.attach(script, &dark_theme()).unwrap();
    measure_all(&mut editor, 20);
    editor
}

#[test]
fn wait_one_frame_text() {
    assert_eq!(ScriptInstruction::Wait(1).to_string(), "Wait: 1 frame");
}

#[test]
fn wait_two_frames_text() {
    assert_eq!(ScriptInstruction::Wait(2).to_string(), "Wait: 2 frames");
}

#[test]
fn wait_zero_and_large_text() {
    assert_eq!(ScriptInstruction::Wait(0).to_string(), "Wait: 0 frames");
    assert_eq!(ScriptInstruction::Wait(10).to_string(), "Wait: 10 frames");
    assert_eq!(
        ScriptInstruction::Wait(4294967295).to_string(),
        "Wait: 4294967295 frames"
    );
    assert_eq!(
        ScriptInstruction::Wait(1234567890).to_string(),
        "Wait: 1234567890 frames"
    );
}

#[test]
fn control_self_switch_text() {
    assert_eq!(
        ScriptInstruction::ControlSelfSwitch(SelfSwitch::B, false).to_string(),
        "Control Self Switch: B = OFF"
    );
    assert_eq!(
        ScriptInstruction::ControlSelfSwitch(SelfSwitch::A, true).to_string(),
        "Control Self Switch: A = ON"
    );
    assert_eq!(
        ScriptInstruction::ControlSelfSwitch(SelfSwitch::D, true).to_string(),
        "Control Self Switch: D = ON"
    );
    assert_eq!(SelfSwitch::C.to_string(), "C");
}

#[test]
fn no_op_text() {
    assert_eq!(ScriptInstruction::NoOp.to_string(), "No Operation");
}

#[test]
fn plugin_and_script_text() {
    assert_eq!(plugin("ShowMessage x").to_string(), "Plugin Command: ShowMessage x");
    assert_eq!(
        ScriptInstruction::Script("a();\nb();".to_string()).to_string(),
        "Script: a();\nb();"
    );
}

#[test]
fn bool_switch_text() {
    assert_eq!(bool_switch(&true).to_string(), "ON");
    assert_eq!(bool_switch(&false).to_string(), "OFF");
    assert!(bool_switch(&true).0);
}

#[test]
fn instruction_equality_is_structural() {
    assert!(plugin("a") == plugin("a"));
    assert!(plugin("a") != plugin("b"));
    assert!(plugin("a") != ScriptInstruction::Script("a".to_string()));
    assert!(ScriptInstruction::Wait(3) == ScriptInstruction::Wait(3));
    assert!(ScriptInstruction::Wait(3) != ScriptInstruction::Wait(4));
    assert!(
        ScriptInstruction::ControlSelfSwitch(SelfSwitch::A, true)
            != ScriptInstruction::ControlSelfSwitch(SelfSwitch::A, false)
    );
    assert!(ScriptInstruction::NoOp == ScriptInstruction::NoOp);
}

#[test]
fn script_construction() {
    assert_eq!(Script::new().contents().len(), 0);
    let s = build_test_script();
    assert_eq!(s.contents().len(), 5);
    assert!(s.contents()[0] == ScriptInstruction::Wait(10));
    assert!(s.contents()[1] == plugin("ShowMessage fa_map_flavor.message_366"));
    assert!(
        s.contents()[3]
            == ScriptInstruction::Script(
                "$game.doThings(true);\n$game.doMoreThings(\"lol\");".to_string()
            )
    );
    assert!(s.contents()[4] == ScriptInstruction::ControlSelfSwitch(SelfSwitch::B, true));
    let shared = Script { contents: Arc::new(vec![ScriptInstruction::NoOp]) };
    assert_eq!(shared.contents().len(), 1);
}

#[test]
fn darkness() {
    assert!(is_dark(&Rgb::rgb8(0, 0, 0)));
    assert!(!is_dark(&Rgb::rgb8(255, 255, 255)));
    assert!(is_dark(&Rgb::rgb8(58, 58, 58)));
    // 2126 * 127 + 7152 * 127 + 722 * 127 = 1271270, below one half
    assert!(is_dark(&Rgb::rgb8(127, 127, 127)));
    // 2126 * 128 + 7152 * 128 + 722 * 128 = 1280000, above one half
    assert!(!is_dark(&Rgb::rgb8(128, 128, 128)));
    assert!(!is_dark(&Rgb::rgb8(0, 255, 0)));
    assert!(is_dark(&Rgb::rgb8(255, 0, 0)));
}

#[test]
fn dark_palette() {
    let bg = Rgb::rgb8(0, 0, 0);
    assert_eq!(script_highlight_color_dark(&ScriptInstruction::NoOp), Rgb::rgb8(255, 255, 255));
    assert_eq!(script_highlight_color_dark(&ScriptInstruction::Wait(3)), Rgb::rgb8(247, 32, 32));
    assert_eq!(
        script_highlight_color(&ScriptInstruction::ControlSelfSwitch(SelfSwitch::C, false), &bg),
        Ok(Rgb::rgb8(247, 32, 32))
    );
    assert_eq!(script_highlight_color(&plugin("x"), &bg), Ok(Rgb::rgb8(167, 92, 237)));
    assert_eq!(
        script_highlight_color(&ScriptInstruction::Script("x".to_string()), &bg),
        Ok(Rgb::rgb8(119, 52, 235))
    );
}

#[test]
fn light_palette_is_not_implemented() {
    assert_eq!(script_highlight_color_light(&ScriptInstruction::NoOp), Err(NotImplemented));
    assert_eq!(
        script_highlight_color(&ScriptInstruction::NoOp, &Rgb::rgb8(255, 255, 255)),
        Err(NotImplemented)
    );
}

#[test]
fn backgrounds_alternate() {
    let theme = dark_theme();
    assert_eq!(bg_color(0, &theme), theme.background_primary);
    assert_eq!(bg_color(1, &theme), theme.background_alternate);
    assert_eq!(bg_color(4, &theme), theme.background_primary);
}

#[test]
fn attach_on_light_theme_fails_and_keeps_state() {
    let mut editor = laid_out(&scenario_script());
    let other = Script::new_with(vec![ScriptInstruction::NoOp]);
    assert_eq!(editor.attach(&other, &light_theme()), Err(NotImplemented));
    assert_eq!(editor.len(), 3);
    assert_eq!(editor.total_height(), 90);
    // an empty script needs no colors at all
    assert_eq!(editor.attach(&Script::new(), &light_theme()), Ok(()));
    assert_eq!(editor.len(), 0);
}

#[test]
fn scenario_fixed_rows() {
    let editor = laid_out(&scenario_script());
    assert_eq!(editor.total_height(), 90);
    assert_eq!(editor.hit_test(45), 1);
    let rows = editor.rows(&dark_theme());
    assert_eq!(rows.len(), 3);
    assert_eq!(rows[0].color, Rgb::rgb8(247, 32, 32));
    assert_eq!(rows[1].color, Rgb::rgb8(167, 92, 237));
    assert_eq!(rows[2].color, Rgb::rgb8(247, 32, 32));
    assert_eq!(rows[1].text, "Plugin Command: ShowMessage fa_map_flavor.message_366");
    assert_eq!(rows[2].background, dark_theme().background_primary);
    assert_eq!(rows[1].background, dark_theme().background_alternate);
}

#[test]
fn rows_match_sequence_and_offsets_grow() {
    let mut editor = ScriptEditor::new();
    editor.attach(&build_test_script(), &dark_theme()).unwrap();
    let heights = [12u32, 0, 40, 7, 19];
    for (i, h) in heights.iter().enumerate() {
        editor.set_text_height(i, *h);
    }
    let rows = editor.rows(&dark_theme());
    assert_eq!(rows.len(), 5);
    assert_eq!(rows[0].top, 0);
    for i in 0..rows.len() {
        assert_eq!(rows[i].index, i);
        assert_eq!(rows[i].height, heights[i] as u128 + 10);
        assert_eq!(editor.vertical_bounds(i), rows[i].top);
        if i > 0 {
            assert!(rows[i].top >= rows[i - 1].top);
            assert_eq!(rows[i].top, rows[i - 1].top + rows[i - 1].height);
        }
    }
    let sum: u128 = rows.iter().map(|r| r.height).sum();
    assert_eq!(editor.total_height(), sum);
    assert_eq!(sum, 128);
    assert_eq!(editor.vertical_bounds(5), 128);
}

#[test]
fn empty_sequence_layout() {
    let mut editor = ScriptEditor::new();
    editor.attach(&Script::new(), &dark_theme()).unwrap();
    assert_eq!(editor.total_height(), 0);
    assert_eq!(editor.rows(&dark_theme()).len(), 0);
    assert_eq!(editor.hit_test(0), 0);
    assert_eq!(editor.hit_test(1), 0);
    editor.select_at(5);
    assert_eq!(editor.selected_index(), None);
}

#[test]
fn refresh_with_equal_script_keeps_cache() {
    let script = scenario_script();
    let mut editor = laid_out(&script);
    let before: Vec<u128> = editor.rows(&dark_theme()).iter().map(|r| r.top).collect();
    let copy = Script::new_with(script.contents().clone());
    assert_eq!(editor.refresh(&script, &copy, &dark_theme()), Ok(false));
    assert_eq!(editor.refresh(&script, &script, &dark_theme()), Ok(false));
    let after: Vec<u128> = editor.rows(&dark_theme()).iter().map(|r| r.top).collect();
    assert_eq!(before, after);
    assert_eq!(measure_all(&mut editor, 20), 0);
    assert_eq!(editor.total_height(), 90);
}

#[test]
fn refresh_with_changed_script_rebuilds() {
    let script = scenario_script();
    let mut editor = laid_out(&script);
    let changed = Script::new_with(vec![
        ScriptInstruction::Wait(10),
        plugin("ShowMessage other"),
        ScriptInstruction::ControlSelfSwitch(SelfSwitch::A, true),
        ScriptInstruction::NoOp,
    ]);
    assert_eq!(editor.refresh(&script, &changed, &dark_theme()), Ok(true));
    assert_eq!(editor.len(), 4);
    assert_eq!(editor.total_height(), 40);
    assert_eq!(measure_all(&mut editor, 20), 4);
    assert_eq!(editor.total_height(), 120);
    assert_eq!(editor.entry_text(3), "No Operation");
    assert_eq!(editor.refresh(&changed, &script, &light_theme()), Err(NotImplemented));
    assert_eq!(editor.len(), 4);
}

#[test]
fn hit_test_boundary() {
    let editor = laid_out(&scenario_script());
    let h: u128 = 30;
    for e in 1..h {
        assert_eq!(editor.hit_test(h - e), 0);
        assert_eq!(editor.hit_test(h + e), 1);
    }
    assert_eq!(editor.hit_test(0), 0);
    assert_eq!(editor.hit_test(h), 1);
    assert_eq!(editor.hit_test(89), 2);
    assert_eq!(editor.hit_test(90), 3);
}

#[test]
fn hit_test_sentinel_deselects() {
    let mut editor = laid_out(&scenario_script());
    let past = editor.total_height() + 1;
    assert_eq!(editor.hit_test(past), editor.len());
    editor.select_at(45);
    assert_eq!(editor.selected_index(), Some(1));
    assert!(editor.is_selected(1));
    editor.select_at(past);
    assert_eq!(editor.selected_index(), None);
    for i in 0..editor.len() {
        assert!(!editor.is_selected(i));
    }
    assert!(!editor.is_selected(3));
    assert!(editor.rows(&dark_theme()).iter().all(|r| !r.selected));
}

#[test]
fn new_editor_defaults_and_builders() {
    let editor = ScriptEditor::new();
    assert_eq!(editor.text_padding(), 5);
    assert_eq!(editor.text_size(), 17);
    assert_eq!(editor.border_width(), 1);
    assert_eq!(editor.len(), 0);
    let mut editor = ScriptEditor::new()
        .with_text_size(20)
        .with_border_width(2)
        .with_text_padding(0);
    assert_eq!(editor.text_size(), 20);
    assert_eq!(editor.border_width(), 2);
    editor.attach(&scenario_script(), &dark_theme()).unwrap();
    assert_eq!(editor.total_height(), 0);
    measure_all(&mut editor, 20);
    assert_eq!(editor.total_height(), 60);
    let editor = editor.with_text_padding(5);
    assert_eq!(editor.total_height(), 90);
    assert_eq!(editor.entry_size(2), 30);
}

#[test]
fn selection_is_kept_when_script_shrinks() {
    let script = scenario_script();
    let mut editor = laid_out(&script);
    editor.select_at(75);
    assert_eq!(editor.selected_index(), Some(2));
    let short = Script::new_with(vec![ScriptInstruction::NoOp]);
    assert_eq!(editor.refresh(&script, &short, &dark_theme()), Ok(true));
    assert_eq!(editor.selected_index(), None);
    assert_eq!(editor.refresh(&short, &script, &dark_theme()), Ok(true));
    assert_eq!(editor.selected_index(), Some(2));
}

#[test]
fn measuring_moves_rows_below() {
    let mut editor = laid_out(&scenario_script());
    assert!(!editor.needs_measure(0));
    editor.set_text_height(0, 50);
    assert_eq!(editor.vertical_bounds(1), 60);
    assert_eq!(editor.vertical_bounds(2), 90);
    assert_eq!(editor.total_height(), 120);
    assert_eq!(editor.hit_test(59), 0);
    assert_eq!(editor.hit_test(60), 1);
}
