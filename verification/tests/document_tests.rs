use tiger::command::DocumentCommand;
use tiger::document::Document;
use tiger::error::StateError;
use tiger::sheet::{ExportFormat, Sheet, SheetError};
use tiger::transient::ResizeAxis;
use tiger::view::{ContentTab, Selection, WorkbenchItem};

fn run(document: &mut Document, command: DocumentCommand) -> Result<(), StateError> {
    document.process_command(&command)
}

fn document_with_frames(paths: &[&str]) -> Document {
    let mut d = Document::new("/project/sheet.tiger");
    for p in paths {
        run(&mut d, DocumentCommand::EndImport("/project/sheet.tiger".to_owned(), p.to_string())).unwrap();
    }
    d
}

#[test]
fn fresh_documents_are_saved() {
    let d = Document::new("a.tiger");
    assert!(d.is_saved());
    assert_eq!(d.get_version(), 0);
    assert!(d.get_undo_command().is_none());
    assert!(d.get_redo_command().is_none());
}

#[test]
fn changes_make_documents_unsaved_and_undo_restores() {
    let mut d = document_with_frames(&["a.png"]);
    assert_eq!(d.get_version(), 1);
    assert!(!d.is_saved());
    run(&mut d, DocumentCommand::MarkAsSaved("/project/sheet.tiger".to_owned(), 1)).unwrap();
    assert!(d.is_saved());
    run(&mut d, DocumentCommand::CreateAnimation).unwrap();
    assert!(d.sheet.has_animation("New Animation"));
    // The new animation is being renamed: nothing is recorded, and undo is
    // refused meanwhile.
    assert_eq!(d.get_version(), 1);
    assert!(matches!(d.undo(), Err(StateError::UndoOperationNowAllowed)));
    run(&mut d, DocumentCommand::EndRenameSelection).unwrap();
    assert!(!d.is_saved());
    assert_eq!(d.get_version(), 2);
    assert_eq!(d.get_undo_command().unwrap().label(), "Rename");
    d.undo().unwrap();
    assert!(!d.sheet.has_animation("New Animation"));
    assert!(d.is_saved());
    d.redo().unwrap();
    assert!(d.sheet.has_animation("New Animation"));
    assert!(!d.is_saved());
}

#[test]
fn failed_commands_change_nothing() {
    let mut d = document_with_frames(&["a.png"]);
    let version = d.get_version();
    assert!(matches!(
        run(&mut d, DocumentCommand::SelectFrame("missing.png".to_owned())),
        Err(StateError::FrameNotInDocument)
    ));
    assert!(matches!(run(&mut d, DocumentCommand::TogglePlayback), Err(StateError::NotEditingAnyAnimation)));
    assert!(matches!(run(&mut d, DocumentCommand::EndExportAs), Err(StateError::NotExporting)));
    assert!(matches!(run(&mut d, DocumentCommand::EndRenameSelection), Err(StateError::NotRenaming)));
    assert!(matches!(run(&mut d, DocumentCommand::CreateHitbox((1, 1))), Err(StateError::NotEditingAnyFrame)));
    assert_eq!(d.get_version(), version);
    assert!(d.view.selection.is_none());
}

#[test]
fn selecting_and_stepping_through_frames() {
    let mut d = document_with_frames(&["a-b.png", "a/b.png", "c.png"]);
    run(&mut d, DocumentCommand::SelectFrame("a/b.png".to_owned())).unwrap();
    run(&mut d, DocumentCommand::SelectNext).unwrap();
    // Paths sort component by component: "a/b.png" comes before "a-b.png".
    assert!(matches!(&d.view.selection, Some(Selection::Frame(p)) if p == "a-b.png"));
    run(&mut d, DocumentCommand::SelectNext).unwrap();
    assert!(matches!(&d.view.selection, Some(Selection::Frame(p)) if p == "c.png"));
    run(&mut d, DocumentCommand::SelectNext).unwrap();
    assert!(matches!(&d.view.selection, Some(Selection::Frame(p)) if p == "c.png"));
    run(&mut d, DocumentCommand::SelectPrevious).unwrap();
    run(&mut d, DocumentCommand::SelectPrevious).unwrap();
    run(&mut d, DocumentCommand::SelectPrevious).unwrap();
    assert!(matches!(&d.view.selection, Some(Selection::Frame(p)) if p == "a/b.png"));
}

#[test]
fn stepping_through_animations_by_name() {
    let mut d = document_with_frames(&[]);
    for _ in 0..3 {
        run(&mut d, DocumentCommand::CreateAnimation).unwrap();
        run(&mut d, DocumentCommand::EndRenameSelection).unwrap();
    }
    run(&mut d, DocumentCommand::SelectAnimation("New Animation 3".to_owned())).unwrap();
    run(&mut d, DocumentCommand::SelectPrevious).unwrap();
    assert!(matches!(&d.view.selection, Some(Selection::Animation(n)) if n == "New Animation 2"));
}

#[test]
fn editing_an_animation_timeline() {
    let mut d = document_with_frames(&["a.png", "b.png"]);
    run(&mut d, DocumentCommand::CreateAnimation).unwrap();
    run(&mut d, DocumentCommand::UpdateRenameSelection("walk".to_owned())).unwrap();
    run(&mut d, DocumentCommand::EndRenameSelection).unwrap();
    assert!(matches!(&d.view.workbench_item, Some(WorkbenchItem::Animation(n)) if n == "walk"));
    run(&mut d, DocumentCommand::InsertAnimationFrameBefore("a.png".to_owned(), 0)).unwrap();
    run(&mut d, DocumentCommand::InsertAnimationFrameBefore("b.png".to_owned(), 1)).unwrap();
    assert!(matches!(
        run(&mut d, DocumentCommand::InsertAnimationFrameBefore("b.png".to_owned(), 5)),
        Err(StateError::Sheet(SheetError::InvalidFrameIndex))
    ));
    run(&mut d, DocumentCommand::SelectAnimationFrame(1)).unwrap();
    // The playhead moves to the start of the selected frame.
    assert_eq!(d.view.timeline_clock, 100_000_000);
    run(&mut d, DocumentCommand::ReorderAnimationFrame(1, 0)).unwrap();
    assert!(matches!(&d.view.selection, Some(Selection::AnimationFrame(n, 0)) if n == "walk"));
    let walk = d.sheet.get_animation("walk").unwrap();
    assert_eq!(walk.get_frame(0).unwrap().get_frame(), "b.png");

    run(&mut d, DocumentCommand::BeginAnimationFrameDurationDrag(0)).unwrap();
    run(&mut d, DocumentCommand::UpdateAnimationFrameDurationDrag(250)).unwrap();
    run(&mut d, DocumentCommand::EndAnimationFrameDurationDrag).unwrap();
    assert_eq!(d.sheet.get_animation("walk").unwrap().get_duration(), Some(350));

    run(&mut d, DocumentCommand::UpdateScrub(300_000_000)).unwrap();
    assert!(matches!(&d.view.selection, Some(Selection::AnimationFrame(_, 1))));
    run(&mut d, DocumentCommand::SnapToPreviousFrame).unwrap();
    assert_eq!(d.view.timeline_clock, 250_000_000);
    run(&mut d, DocumentCommand::SnapToPreviousFrame).unwrap();
    assert_eq!(d.view.timeline_clock, 0);
    run(&mut d, DocumentCommand::SnapToNextFrame).unwrap();
    assert_eq!(d.view.timeline_clock, 250_000_000);

    run(&mut d, DocumentCommand::BeginAnimationFrameOffsetDrag(1)).unwrap();
    run(&mut d, DocumentCommand::UpdateAnimationFrameOffsetDrag((5, -7))).unwrap();
    run(&mut d, DocumentCommand::EndAnimationFrameOffsetDrag).unwrap();
    assert_eq!(d.sheet.get_animation("walk").unwrap().get_frame(1).unwrap().get_offset(), (5, -7));
    run(&mut d, DocumentCommand::NudgeSelection((1, 0), true)).unwrap();
    assert_eq!(d.sheet.get_animation("walk").unwrap().get_frame(1).unwrap().get_offset(), (15, -7));
}

#[test]
fn playback_loops_and_stops() {
    let mut d = document_with_frames(&["a.png"]);
    run(&mut d, DocumentCommand::CreateAnimation).unwrap();
    run(&mut d, DocumentCommand::EndRenameSelection).unwrap();
    run(&mut d, DocumentCommand::InsertAnimationFrameBefore("a.png".to_owned(), 0)).unwrap();
    run(&mut d, DocumentCommand::TogglePlayback).unwrap();
    d.tick(150_000_000);
    assert_eq!(d.view.timeline_clock, 50_000_000);
    run(&mut d, DocumentCommand::ToggleLooping).unwrap();
    d.tick(80_000_000);
    assert_eq!(d.view.timeline_clock, 100_000_000);
    assert!(!d.persistent.timeline_is_playing);
    // Playing again from the end starts over.
    run(&mut d, DocumentCommand::TogglePlayback).unwrap();
    assert_eq!(d.view.timeline_clock, 0);
}

#[test]
fn creating_moving_and_resizing_hitboxes() {
    let mut d = document_with_frames(&["a.png"]);
    run(&mut d, DocumentCommand::EditFrame("a.png".to_owned())).unwrap();
    run(&mut d, DocumentCommand::CreateHitbox((10, 10))).unwrap();
    run(&mut d, DocumentCommand::UpdateHitboxScale((20, 5))).unwrap();
    run(&mut d, DocumentCommand::EndHitboxScale).unwrap();
    let hitbox = d.sheet.get_frame("a.png").unwrap().get_hitbox("New Hitbox").unwrap();
    assert_eq!(hitbox.get_position(), (10, 10));
    assert_eq!(hitbox.get_size(), (20, 5));
    assert!(matches!(&d.view.selection, Some(Selection::Hitbox(p, n)) if p == "a.png" && n == "New Hitbox"));

    // Dragging the top-left corner past the bottom-right one flips the box.
    run(&mut d, DocumentCommand::BeginHitboxScale("New Hitbox".to_owned(), ResizeAxis::NW)).unwrap();
    run(&mut d, DocumentCommand::UpdateHitboxScale((30, 10))).unwrap();
    run(&mut d, DocumentCommand::EndHitboxScale).unwrap();
    let hitbox = d.sheet.get_frame("a.png").unwrap().get_hitbox("New Hitbox").unwrap();
    assert_eq!(hitbox.get_position(), (30, 15));
    assert_eq!(hitbox.get_size(), (10, 5));

    run(&mut d, DocumentCommand::BeginHitboxDrag("New Hitbox".to_owned())).unwrap();
    run(&mut d, DocumentCommand::UpdateHitboxDrag((-30, -15))).unwrap();
    run(&mut d, DocumentCommand::EndHitboxDrag).unwrap();
    let hitbox = d.sheet.get_frame("a.png").unwrap().get_hitbox("New Hitbox").unwrap();
    assert_eq!(hitbox.get_position(), (0, 0));
    assert_eq!(hitbox.get_size(), (10, 5));

    run(&mut d, DocumentCommand::NudgeSelection((0, -1), false)).unwrap();
    assert_eq!(d.sheet.get_frame("a.png").unwrap().get_hitbox("New Hitbox").unwrap().get_position(), (0, -1));

    run(&mut d, DocumentCommand::BeginRenameSelection).unwrap();
    run(&mut d, DocumentCommand::UpdateRenameSelection("body".to_owned())).unwrap();
    run(&mut d, DocumentCommand::EndRenameSelection).unwrap();
    assert!(matches!(&d.view.selection, Some(Selection::Hitbox(_, n)) if n == "body"));

    run(&mut d, DocumentCommand::DeleteSelection).unwrap();
    assert!(!d.sheet.get_frame("a.png").unwrap().has_hitbox("body"));
    assert!(d.view.selection.is_none());
}

#[test]
fn renaming_to_a_taken_name_is_refused() {
    let mut d = document_with_frames(&[]);
    run(&mut d, DocumentCommand::CreateAnimation).unwrap();
    run(&mut d, DocumentCommand::EndRenameSelection).unwrap();
    run(&mut d, DocumentCommand::CreateAnimation).unwrap();
    run(&mut d, DocumentCommand::UpdateRenameSelection("New Animation".to_owned())).unwrap();
    assert!(matches!(run(&mut d, DocumentCommand::EndRenameSelection), Err(StateError::AnimationAlreadyExists)));
    run(&mut d, DocumentCommand::UpdateRenameSelection("x".repeat(40))).unwrap();
    assert!(matches!(
        run(&mut d, DocumentCommand::EndRenameSelection),
        Err(StateError::Sheet(SheetError::AnimationNameTooLong))
    ));
}

#[test]
fn export_settings_dialog() {
    let mut d = document_with_frames(&[]);
    let path = "/project/sheet.tiger".to_owned();
    assert!(matches!(
        run(&mut d, DocumentCommand::EndSetExportTextureDestination(path.clone(), "t.png".to_owned())),
        Err(StateError::NotExporting)
    ));
    run(&mut d, DocumentCommand::BeginExportAs).unwrap();
    run(&mut d, DocumentCommand::EndSetExportTextureDestination(path.clone(), "t.png".to_owned())).unwrap();
    run(&mut d, DocumentCommand::EndSetExportMetadataDestination(path.clone(), "m.json".to_owned())).unwrap();
    run(&mut d, DocumentCommand::EndSetExportMetadataPathsRoot(path.clone(), "root".to_owned())).unwrap();
    run(&mut d, DocumentCommand::EndSetExportFormat(path.clone(), ExportFormat::Template("f.liquid".to_owned()))).unwrap();
    assert!(d.sheet.get_export_settings().is_none());
    run(&mut d, DocumentCommand::EndExportAs).unwrap();
    let settings = d.sheet.get_export_settings().as_ref().unwrap();
    assert_eq!(settings.texture_destination, "t.png");
    assert_eq!(settings.metadata_destination, "m.json");
    assert_eq!(settings.metadata_paths_root, "root");
    assert!(d.persistent.export_settings_edit.is_none());
    run(&mut d, DocumentCommand::BeginExportAs).unwrap();
    run(&mut d, DocumentCommand::CancelExportAs).unwrap();
    assert!(d.persistent.export_settings_edit.is_none());
}

#[test]
fn view_commands() {
    let mut d = document_with_frames(&[]);
    for _ in 0..6 {
        run(&mut d, DocumentCommand::WorkbenchZoomIn).unwrap();
    }
    assert_eq!(d.view.workbench_zoom_level, 16);
    run(&mut d, DocumentCommand::WorkbenchResetZoom).unwrap();
    run(&mut d, DocumentCommand::WorkbenchZoomOut).unwrap();
    assert_eq!(d.view.workbench_zoom_level, -2);
    for _ in 0..5 {
        run(&mut d, DocumentCommand::WorkbenchZoomOut).unwrap();
    }
    assert_eq!(d.view.workbench_zoom_level, -8);
    run(&mut d, DocumentCommand::WorkbenchZoomIn).unwrap();
    assert_eq!(d.view.workbench_zoom_level, -4);
    run(&mut d, DocumentCommand::TimelineZoomOut).unwrap();
    assert_eq!(d.view.timeline_zoom_level, -2);
    run(&mut d, DocumentCommand::Pan((i32::MAX, 5))).unwrap();
    run(&mut d, DocumentCommand::Pan((1, 5))).unwrap();
    assert_eq!(d.view.workbench_offset, (i32::MAX, 10));
    run(&mut d, DocumentCommand::WorkbenchCenter).unwrap();
    assert_eq!(d.view.workbench_offset, (0, 0));
    run(&mut d, DocumentCommand::SwitchToContentTab(ContentTab::Animations)).unwrap();
    assert_eq!(d.view.content_tab, ContentTab::Animations);
}

#[test]
fn opening_and_saving_resolve_paths() {
    let mut sheet = Sheet::new();
    sheet.add_frame("images/a.png");
    let d = Document::open("/project/sheet.tiger", sheet);
    assert!(d.is_saved());
    assert!(d.sheet.has_frame("/project/images/a.png"));
    let saved = Document::save(&d.sheet, "/project/sheet.tiger").unwrap();
    assert!(saved.has_frame("images/a.png"));
}

#[test]
fn resizing_by_nothing_changes_nothing() {
    let mut d = document_with_frames(&["a.png"]);
    run(&mut d, DocumentCommand::EditFrame("a.png".to_owned())).unwrap();
    run(&mut d, DocumentCommand::CreateHitbox((4, 5))).unwrap();
    run(&mut d, DocumentCommand::UpdateHitboxScale((6, 7))).unwrap();
    run(&mut d, DocumentCommand::EndHitboxScale).unwrap();
    for axis in [ResizeAxis::N, ResizeAxis::S, ResizeAxis::W, ResizeAxis::E, ResizeAxis::NW, ResizeAxis::NE, ResizeAxis::SW, ResizeAxis::SE] {
        run(&mut d, DocumentCommand::BeginHitboxScale("New Hitbox".to_owned(), axis)).unwrap();
        run(&mut d, DocumentCommand::UpdateHitboxScale((0, 0))).unwrap();
        run(&mut d, DocumentCommand::EndHitboxScale).unwrap();
        let hitbox = d.sheet.get_frame("a.png").unwrap().get_hitbox("New Hitbox").unwrap();
        assert_eq!(hitbox.get_position(), (4, 5));
        assert_eq!(hitbox.get_size(), (6, 7));
    }
}

#[test]
fn saving_then_opening_gives_back_the_sheet() {
    let mut sheet = Sheet::new();
    sheet.add_frame("/project/images/a.png");
    sheet.add_frame("/project/b.png");
    let name = sheet.add_animation().get_name().to_owned();
    sheet.add_animation_frame(&name, "/project/b.png").unwrap();
    let saved = Document::save(&sheet, "/project/sheet.tiger").unwrap();
    assert!(saved.has_frame("images/a.png"));
    assert!(saved.has_frame("b.png"));
    let reopened = Document::open("/project/sheet.tiger", saved);
    assert!(reopened.is_saved());
    let sources: Vec<&str> = reopened.sheet.frames_iter().iter().map(|f| f.get_source()).collect();
    assert_eq!(sources, vec!["/project/images/a.png", "/project/b.png"]);
    let animation = reopened.sheet.get_animation(&name).unwrap();
    assert_eq!(animation.get_frame(0).unwrap().get_frame(), "/project/b.png");
}

#[test]
fn undo_history_keeps_the_last_hundred_entries() {
    let mut d = Document::new("s.tiger");
    for i in 0..150 {
        run(&mut d, DocumentCommand::EndImport("s.tiger".to_owned(), format!("f{}.png", i))).unwrap();
        assert_eq!(d.sheet.frames_iter().len(), i + 1);
    }
    let mut changes = 0;
    for _ in 0..150 {
        let before = d.sheet.frames_iter().len();
        d.undo().unwrap();
        if d.sheet.frames_iter().len() != before {
            changes += 1;
        }
    }
    assert_eq!(changes, 99);
    assert_eq!(d.sheet.frames_iter().len(), 51);
    assert!(d.sheet.has_frame("f50.png"));
    assert!(!d.sheet.has_frame("f51.png"));
    for _ in 0..150 {
        d.redo().unwrap();
    }
    assert_eq!(d.sheet.frames_iter().len(), 150);
}
