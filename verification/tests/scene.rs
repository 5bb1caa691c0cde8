use panflute::draw::DrawCmd;
use panflute::tube::AudioCmd;
use panflute::universe::Universe;

fn selected_count(u: &Universe) -> usize {
    u.tubes.iter().filter(|t| t.selected).count()
}

#[test]
fn seeding_eight_tubes_on_the_scale() {
    let mut u = Universe::new();
    assert_eq!(u.width, 60);
    assert_eq!(u.height, 60);
    assert_eq!(u.tubes.len(), 8);
    let freqs: Vec<u64> = u.tubes.iter().map(|t| t.source.frequency).collect();
    assert_eq!(
        freqs,
        vec![261_626, 293_665, 329_628, 349_228, 391_995, 440_000, 493_883, 523_251]
    );
    for (i, t) in u.tubes.iter().enumerate() {
        assert_eq!(t.from.x, 50_000 * (i as i64 + 1));
        assert_eq!(t.from.y, 750_000);
        assert!(!t.selected);
        assert!(!t.open);
        assert_eq!(t.source.id, i);
    }
    let cmds = u.take_audio_commands();
    assert_eq!(cmds.len(), 8);
    assert_eq!(
        cmds[5],
        AudioCmd::Create { id: 5, frequency: 440_000 }
    );
    assert!(u.take_audio_commands().is_empty());
}

#[test]
fn toggling_open_doubles_the_sixth_tube() {
    // Selecting the 440 Hz tube and opening the pipe must double its
    // frequency exactly, the length being unchanged.
    let mut u = Universe::new();
    u.take_audio_commands();
    assert!(u.clicked(35, 15, 300, 700));
    assert!(u.tubes[5].selected);
    let len_before = u.tubes[5].length;
    let cmds = u.take_audio_commands();
    assert_eq!(cmds, vec![AudioCmd::Start { id: 5 }]);
    assert!(u.keypress("o", false));
    assert!(u.tubes[5].open);
    assert_eq!(u.tubes[5].length, len_before);
    assert_eq!(u.tubes[5].source.frequency, 880_000);
    let cmds = u.take_audio_commands();
    assert_eq!(cmds, vec![AudioCmd::SetFrequency { id: 5, frequency: 880_000 }]);
    // And toggling back restores the closed fundamental exactly.
    assert!(u.keypress("o", false));
    assert_eq!(u.tubes[5].source.frequency, 440_000);
}

#[test]
fn same_cell_twice_creates_no_tube() {
    let mut u = Universe::new();
    assert!(u.clicked(5, 5, 110, 110));
    assert!(u.pending.is_some());
    assert_eq!(u.tubes.len(), 8);
    assert!(u.clicked(5, 5, 110, 110));
    assert!(u.pending.is_none());
    assert_eq!(u.tubes.len(), 8);
}

#[test]
fn two_click_placement_builds_a_tube_anchored_low() {
    let mut u = Universe::new();
    assert!(u.clicked(5, 5, 100, 100));
    assert!(u.clicked(2, 5, 100, 50));
    assert_eq!(u.tubes.len(), 9);
    let t = &u.tubes[8];
    assert_eq!(t.length, 50_000); // 50 px
    assert_eq!(t.from.x, 100_000); // anchored at (100, 100): the larger y
    assert_eq!(t.from.y, 100_000);
    assert!(!t.selected);
    assert!(!t.open);
    assert_eq!(t.source.id, 8);
}

#[test]
fn arrow_down_clamps_length_at_ten_pixels() {
    let mut u = Universe::new();
    assert!(u.clicked(35, 2, 50, 700));
    assert!(u.tubes[0].selected);
    for _ in 0..25 {
        assert!(u.keypress("ArrowDown", true));
    }
    assert_eq!(u.tubes[0].length, 10_000);
    assert!(u.keypress("ArrowDown", true));
    assert_eq!(u.tubes[0].length, 10_000);
    assert!(u.keypress("ArrowDown", false));
    assert_eq!(u.tubes[0].length, 10_000);
    assert_eq!(u.tubes[0].source.frequency, 11_147_500);
}

#[test]
fn arrow_up_lengthens_by_step() {
    let mut u = Universe::new();
    assert!(u.clicked(35, 2, 50, 700));
    let len = u.tubes[0].length;
    assert!(u.keypress("ArrowUp", false));
    assert_eq!(u.tubes[0].length, len + 1_000);
    assert!(u.keypress("ArrowUp", true));
    assert_eq!(u.tubes[0].length, len + 21_000);
}

#[test]
fn selection_cycles_with_wrapping() {
    let mut u = Universe::new();
    assert!(u.clicked(35, 2, 50, 700));
    assert!(u.tubes[0].selected);
    assert!(u.keypress("ArrowRight", false));
    assert!(!u.tubes[0].selected);
    assert!(u.tubes[1].selected);
    assert!(u.keypress("ArrowLeft", false));
    assert!(u.tubes[0].selected);
    assert!(u.keypress("ArrowLeft", false));
    assert!(u.tubes[7].selected);
    assert!(u.keypress("ArrowRight", false));
    assert!(u.tubes[0].selected);
}

#[test]
fn at_most_one_tube_selected_after_any_sequence() {
    let mut u = Universe::new();
    assert!(selected_count(&u) <= 1);
    let _ = u.clicked(35, 15, 300, 700);
    assert!(selected_count(&u) <= 1);
    let _ = u.clicked(35, 2, 50, 700);
    assert!(selected_count(&u) <= 1);
    let _ = u.keypress("ArrowRight", false);
    let _ = u.keypress("ArrowLeft", true);
    let _ = u.keypress("o", false);
    let _ = u.keypress("p", false);
    assert!(selected_count(&u) <= 1);
    let _ = u.clicked(5, 5, 110, 110);
    let _ = u.clicked(2, 5, 100, 50);
    assert!(selected_count(&u) <= 1);
    let _ = u.keypress("d", false);
    assert!(selected_count(&u) <= 1);
}

#[test]
fn delete_removes_and_stops_the_selected_tube() {
    let mut u = Universe::new();
    assert!(u.clicked(35, 15, 300, 700));
    u.take_audio_commands();
    assert!(u.keypress("d", false));
    assert_eq!(u.tubes.len(), 7);
    assert!(u.tubes.iter().all(|t| t.source.id != 5));
    let cmds = u.take_audio_commands();
    assert_eq!(cmds, vec![AudioCmd::Stop { id: 5 }]);
}

#[test]
fn play_pause_toggles_voice() {
    let mut u = Universe::new();
    u.stop_selected(false); // decouple selection from playback
    assert!(u.clicked(35, 15, 300, 700));
    u.take_audio_commands();
    assert!(u.keypress("p", false));
    assert_eq!(u.take_audio_commands(), vec![AudioCmd::Start { id: 5 }]);
    assert!(u.keypress("p", false));
    assert_eq!(u.take_audio_commands(), vec![AudioCmd::FadeOut { id: 5 }]);
    assert!(u.keypress("p", false));
    assert_eq!(u.take_audio_commands(), vec![AudioCmd::Resume { id: 5 }]);
}

#[test]
fn unknown_keys_and_empty_selection_are_unhandled() {
    let mut u = Universe::new();
    assert!(!u.keypress("d", false)); // nothing selected
    assert!(u.clicked(35, 15, 300, 700));
    assert!(!u.keypress("q", false));
    assert!(!u.keypress("", false));
    assert_eq!(u.tubes.len(), 8);
}

#[test]
fn draw_grid_emits_the_lines_and_the_pending_box() {
    let mut u = Universe::new();
    let cmds = u.draw_grid();
    // 3 setup commands, 61 vertical and 61 horizontal lines of 2 commands
    // each, one stroke.
    assert_eq!(cmds.len(), 3 + 61 * 2 + 61 * 2 + 1);
    assert_eq!(cmds[0], DrawCmd::BeginPath);
    assert!(u.clicked(5, 5, 110, 110));
    let cmds = u.draw_grid();
    assert_eq!(cmds.len(), 248 + 2 + 7);
    assert_eq!(
        cmds[250],
        DrawCmd::BeginPath // the pending-cell box starts here
    );
}

#[test]
fn draw_points_reports_the_selected_tube() {
    let mut u = Universe::new();
    let (cmds, status) = u.draw_points();
    assert_eq!(cmds.len(), 1 + 8 * 21);
    assert!(status.is_none());
    assert!(u.clicked(35, 15, 300, 700));
    let (_, status) = u.draw_points();
    let s = status.expect("a tube is selected");
    assert!(!s.open);
    assert_eq!(s.length, 253_352);
    assert_eq!(s.frequency, 440_000);
    assert_eq!(s.note, Some("A-4"));
}

#[test]
fn decoupled_selection_emits_no_audio() {
    let mut u = Universe::new();
    u.stop_selected(false);
    u.take_audio_commands();
    assert!(u.clicked(35, 15, 300, 700));
    assert!(u.tubes[5].selected);
    assert!(u.take_audio_commands().is_empty());
}
