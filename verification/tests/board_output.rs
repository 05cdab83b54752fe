//! What becomes of a rendered image.
use tensaku::board::canvas::Dims;
use tensaku::board::messages::Action;
use tensaku::board::output::{
    after_save_as, below_home, handle_render_result, may_hold_dir, needs_pixels, save_target,
    AfterSaveAs, DirCandidate, Job, SaveTarget,
};
use tensaku::board::{BoardConfig, SketchBoard};
use tensaku::state::PersistedState;
use tensaku::style::{Color, Size, Style};
use tensaku::tools::Tools;
use tensaku::units::MICRO;

fn config() -> BoardConfig {
    BoardConfig {
        auto_copy: false,
        close_on_copy: false,
        close_on_save: false,
        close_on_esc: false,
        early_exit_save_as: false,
        sticky_session_defaults: false,
        select_any_annotation: false,
        save_after_copy: false,
        brush_post_smooth_iterations: 2,
        annotation_size_factor: MICRO,
        palette_len: 8,
    }
}

fn board() -> SketchBoard {
    let mut out = Vec::new();
    SketchBoard::init(
        Dims { w: 800, h: 600 },
        Tools::Pointer,
        Style {
            color: Color::red(),
            size: Size::Medium,
            fill: false,
            annotation_size_factor: MICRO,
            spotlight_darkness: 600_000,
            highlighter_opacity: 400_000,
        },
        None,
        &PersistedState::default(),
        &mut out,
    )
}

fn dir(path: &str, is_dir: bool) -> Option<DirCandidate> {
    Some(DirCandidate {
        path: path.to_string(),
        is_dir,
    })
}

#[test]
fn save_as_initial_dir_uses_remembered_existing_directory() {
    let initial_dir = SketchBoard::save_as_initial_dir(dir("remembered", true), dir("fallback", true));

    assert_eq!(initial_dir, Some("remembered".to_string()));
}

#[test]
fn save_as_initial_dir_falls_back_when_remembered_directory_is_invalid() {
    let initial_dir = SketchBoard::save_as_initial_dir(dir("missing", false), dir("fallback", true));

    assert_eq!(initial_dir, Some("fallback".to_string()));
}

#[test]
fn save_as_initial_dir_handles_missing_state_and_output_path() {
    let initial_dir = SketchBoard::save_as_initial_dir(None, None);

    assert_eq!(initial_dir, None);
}

#[test]
fn a_missing_fallback_is_not_offered() {
    assert_eq!(SketchBoard::save_as_initial_dir(None, dir("gone", false)), None);
}

#[test]
fn large_files_hold_no_directory() {
    assert!(may_hold_dir(true, 10_000));
    assert!(!may_hold_dir(true, 10_001));
    assert!(!may_hold_dir(false, 1));
}

#[test]
fn actions_run_in_order() {
    let (jobs, later) = handle_render_result(
        &vec![Action::SaveToClipboard, Action::SaveToFile, Action::CopyFilepathToClipboard],
        true,
        &config(),
    );
    assert_eq!(jobs, vec![Job::Copy, Job::Save, Job::CopyPath]);
    assert!(later.is_empty());
}

#[test]
fn leaving_ends_the_list() {
    let mut c = config();
    c.close_on_save = true;
    let actions = vec![Action::SaveToFile, Action::SaveToClipboard];
    let (jobs, _) = handle_render_result(&actions, true, &c);
    assert_eq!(jobs, vec![Job::Save, Job::Quit]);
    let (jobs, _) = handle_render_result(&vec![Action::Exit, Action::SaveToFile], true, &c);
    assert_eq!(jobs, vec![Job::Quit]);
    c.close_on_copy = true;
    let (jobs, _) = handle_render_result(&vec![Action::SaveToClipboard], true, &c);
    assert_eq!(jobs, vec![Job::Copy, Job::Quit]);
    c.auto_copy = true;
    let (jobs, _) = handle_render_result(&vec![Action::SaveToClipboard], true, &c);
    assert_eq!(jobs, vec![Job::Copy]);
}

#[test]
fn actions_wait_for_the_save_dialog() {
    let actions = vec![Action::SaveToClipboard, Action::SaveToFileAs, Action::SaveToFile, Action::Exit];
    let (jobs, later) = handle_render_result(&actions, true, &config());
    assert_eq!(jobs, vec![Job::Copy, Job::SaveAs { modal: true }]);
    assert_eq!(later, vec![Action::SaveToFile, Action::Exit]);
    let (jobs, later) = handle_render_result(&vec![Action::SaveToFileAs], true, &config());
    assert_eq!(jobs, vec![Job::SaveAs { modal: false }]);
    assert!(later.is_empty());
    let (jobs, later) = handle_render_result(&actions, false, &config());
    assert!(jobs.is_empty() && later.is_empty());
}

#[test]
fn some_actions_need_pixels() {
    assert!(needs_pixels(&vec![Action::Exit, Action::SaveToFileAs]));
    assert!(!needs_pixels(&vec![Action::Exit, Action::CopyFilepathToClipboard]));
}

#[test]
fn only_one_format_is_written() {
    assert_eq!(save_target("-"), SaveTarget::Stdout);
    assert_eq!(save_target("/tmp/a.png"), SaveTarget::File);
    assert_eq!(save_target(".png"), SaveTarget::File);
    assert_eq!(save_target("a.PNG"), SaveTarget::Refused);
    assert_eq!(save_target("png"), SaveTarget::Refused);
    assert_eq!(save_target(""), SaveTarget::Refused);
}

#[test]
fn the_home_directory_is_recognised() {
    assert_eq!(below_home("~/a/b.png"), Some("a/b.png"));
    assert_eq!(below_home("~a/b.png"), None);
    assert_eq!(below_home("/~/b.png"), None);
}

#[test]
fn the_dialog_goes_on_or_ends() {
    let mut c = config();
    assert_eq!(after_save_as(true, &c, 0), AfterSaveAs::Followup);
    assert_eq!(after_save_as(false, &c, 2), AfterSaveAs::Followup);
    assert_eq!(after_save_as(false, &c, 0), AfterSaveAs::Nothing);
    c.early_exit_save_as = true;
    assert_eq!(after_save_as(true, &c, 3), AfterSaveAs::Exit);
    assert_eq!(after_save_as(false, &c, 0), AfterSaveAs::Nothing);
}

#[test]
fn the_last_file_is_remembered() {
    let mut b = board();
    b.file_saved("one.png".to_string());
    b.followup(None);
    assert_eq!(b.last_saved_filepath, Some("one.png".to_string()));
    b.followup(Some("two.png".to_string()));
    assert_eq!(b.last_saved_filepath, Some("two.png".to_string()));
}
