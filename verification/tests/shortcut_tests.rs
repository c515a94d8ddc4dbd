use tiger::app_state::AppState;
use tiger::command::{AppCommand, AsyncCommand, Command, DocumentCommand, SyncCommand};
use tiger::command_buffer::CommandBuffer;
use tiger::export::{sheet_export_data, ExportError, PackedFrame};
use tiger::shortcuts::{issue_shortcut, process_shortcuts, KeyboardState, Shortcut};
use tiger::sheet::{ExportSettings, Sheet};
use tiger::transient::Transient;

fn no_keys() -> KeyboardState {
    KeyboardState {
        want_capture_keyboard: false,
        ctrl: false,
        shift: false,
        alt: false,
        delete: false,
        f2: false,
        space: false,
        left: false,
        right: false,
        up: false,
        down: false,
        z: false,
        n: false,
        o: false,
        s: false,
        e: false,
        w: false,
        plus: false,
        minus: false,
        zero: false,
    }
}

#[test]
fn plain_keys() {
    let keys = KeyboardState { delete: true, space: true, left: true, ..no_keys() };
    assert_eq!(
        process_shortcuts(&keys),
        vec![Shortcut::DeleteSelection, Shortcut::TogglePlayback, Shortcut::SnapToPreviousFrame]
    );
}

#[test]
fn control_keys() {
    let keys = KeyboardState { ctrl: true, shift: true, left: true, z: true, s: true, space: true, ..no_keys() };
    assert_eq!(
        process_shortcuts(&keys),
        vec![Shortcut::NudgeLeft(true), Shortcut::Redo, Shortcut::SaveAs, Shortcut::WorkbenchCenter]
    );
    let keys = KeyboardState { ctrl: true, alt: true, s: true, plus: true, zero: true, ..no_keys() };
    assert_eq!(
        process_shortcuts(&keys),
        vec![Shortcut::SaveAll, Shortcut::TimelineZoomIn, Shortcut::TimelineResetZoom]
    );
}

#[test]
fn text_fields_take_the_keyboard() {
    let keys = KeyboardState { want_capture_keyboard: true, delete: true, ctrl: true, z: true, ..no_keys() };
    assert!(process_shortcuts(&keys).is_empty());
}

#[test]
fn issuing_shortcuts() {
    let mut state = AppState::new();
    state.process_sync_command(SyncCommand::App(AppCommand::EndNewDocument("a.tiger".to_owned()))).unwrap();
    state.process_sync_command(SyncCommand::App(AppCommand::EndNewDocument("b.tiger".to_owned()))).unwrap();
    let mut buffer = CommandBuffer::new();
    issue_shortcut(Shortcut::NudgeUp(false), &state, &mut buffer);
    issue_shortcut(Shortcut::Save, &state, &mut buffer);
    issue_shortcut(Shortcut::SaveAll, &state, &mut buffer);
    let commands = buffer.flush();
    assert_eq!(commands.len(), 4);
    assert!(matches!(commands[0], Command::Sync(SyncCommand::Document(DocumentCommand::NudgeSelection((0, -1), false)))));
    assert!(matches!(&commands[1], Command::Async(AsyncCommand::Save(p, _, 0)) if p == "b.tiger"));
    assert!(matches!(&commands[2], Command::Async(AsyncCommand::Save(p, _, 0)) if p == "a.tiger"));
    assert!(matches!(&commands[3], Command::Async(AsyncCommand::Save(p, _, 0)) if p == "b.tiger"));

    let empty = AppState::new();
    issue_shortcut(Shortcut::Export, &empty, &mut buffer);
    assert!(buffer.flush().is_empty());
}

#[test]
fn transient_commands() {
    assert!(Transient::is_transient_command(&DocumentCommand::BeginScrub));
    assert!(Transient::is_transient_command(&DocumentCommand::UpdateHitboxDrag((1, 1))));
    assert!(!Transient::is_transient_command(&DocumentCommand::EndScrub));
    assert!(!Transient::is_transient_command(&DocumentCommand::DeleteSelection));
}

#[test]
fn export_data() {
    let mut sheet = Sheet::new();
    sheet.add_frame("/p/a.png");
    {
        let hitbox = sheet.get_frame_mut("/p/a.png").unwrap().add_hitbox();
        hitbox.set_position((-3, -4));
        hitbox.set_size((6, 8));
    }
    sheet.add_animation();
    sheet.add_animation_frame("New Animation", "/p/a.png").unwrap();
    sheet.get_animation_mut("New Animation").unwrap().get_frame_mut(0).unwrap().set_offset((1, 2));
    let mut settings = ExportSettings::new();
    settings.texture_destination = "/p/out/sheet.png".to_owned();
    settings.metadata_paths_root = "/p/out".to_owned();
    let layout = vec![(
        "/p/a.png".to_owned(),
        PackedFrame { position_in_sheet: (10, 20), size_in_sheet: (11, 21) },
    )];
    let data = sheet_export_data(&sheet, &settings, &layout).unwrap();
    assert_eq!(data.sheet_image, "sheet.png");
    let frame = &data.frames[0];
    assert_eq!((frame.index, frame.x, frame.y, frame.width, frame.height), (0, 10, 20, 11, 21));
    let hitbox = &frame.hitboxes[0];
    assert_eq!(hitbox.name, "New Hitbox");
    assert_eq!((hitbox.left_from_frame_center, hitbox.top_from_frame_center), (-3, -4));
    assert_eq!((hitbox.left_from_frame_left, hitbox.top_from_frame_top), (2, 6));
    assert_eq!((hitbox.width, hitbox.height), (6, 8));
    let keyframe = &data.animations[0].keyframes[0];
    assert_eq!(keyframe.duration, 100);
    assert_eq!((keyframe.center_offset_x, keyframe.center_offset_y), (1, 2));
    assert_eq!((keyframe.top_left_offset_x, keyframe.top_left_offset_y), (-4, -8));
    assert_eq!(keyframe.frame.source, "/p/a.png");

    assert!(matches!(sheet_export_data(&sheet, &settings, &vec![]), Err(ExportError::FrameWasNotPacked)));
    settings.texture_destination = "relative/sheet.png".to_owned();
    assert!(matches!(sheet_export_data(&sheet, &settings, &layout), Err(ExportError::AbsoluteToRelativePath)));
}
