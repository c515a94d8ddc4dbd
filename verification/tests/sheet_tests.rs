use tiger::geometry::{get_bounding_box, BoundingBox, BoundingBoxError, IntRect};
use tiger::texture_cache::{plan_loads, TextureCache, TextureCacheResult};
use tiger::sheet::{Animation, AnimationFrame, ExportFormat, ExportSettings, Frame, Sheet, SheetError};

fn rect(x: i32, y: i32, w: i32, h: i32) -> IntRect {
    IntRect { origin: (x, y), size: (w, h) }
}

fn assert_rect(r: IntRect, expected: IntRect) {
    assert_eq!(r.origin, expected.origin);
    assert_eq!(r.size, expected.size);
}

#[test]
fn test_center_on_origin() {
    {
        let mut b = BoundingBox { rect: rect(-50, -300, 1000, 800) };
        b.center_on_origin();
        assert_rect(b.rect, rect(-950, -500, 1900, 1000));
    }
    {
        let mut b = BoundingBox { rect: rect(100, 100, 50, 50) };
        b.center_on_origin();
        assert_rect(b.rect, rect(-150, -150, 300, 300));
    }
}

#[test]
fn bounding_box_holds_every_frame() {
    let mut animation = Animation::new("walk");
    animation.insert_frame("a.png", 0).unwrap();
    animation.insert_frame("b.png", 1).unwrap();
    animation.timeline[1].set_offset((10, -5));
    let mut cache = TextureCache::new();
    cache.insert_entry("a.png", 1, (4, 4));
    cache.insert_entry("b.png", 2, (2, 20));
    let b = get_bounding_box(&animation, &cache).unwrap();
    assert_rect(b.rect, rect(0, -5, 12, 20));
}

#[test]
fn bounding_box_errors() {
    let mut cache = TextureCache::new();
    let empty = Animation::new("idle");
    assert!(matches!(get_bounding_box(&empty, &cache), Err(BoundingBoxError::EmptyAnimation)));
    let mut animation = Animation::new("walk");
    animation.insert_frame("a.png", 0).unwrap();
    cache.insert_entry("b.png", 1, (1, 1));
    cache.insert_pending("a.png");
    assert!(matches!(get_bounding_box(&animation, &cache), Err(BoundingBoxError::FrameDataNotLoaded)));
}

#[test]
fn add_frame_is_idempotent() {
    let mut sheet = Sheet::new();
    sheet.add_frame("a.png");
    sheet.add_frame("a.png");
    assert_eq!(sheet.frames_iter().len(), 1);
    assert!(sheet.has_frame("a.png"));
    assert!(!sheet.has_frame("b.png"));
}

#[test]
fn new_animations_get_fresh_names() {
    let mut sheet = Sheet::new();
    assert_eq!(sheet.add_animation().get_name(), "New Animation");
    assert_eq!(sheet.add_animation().get_name(), "New Animation 2");
    assert_eq!(sheet.add_animation().get_name(), "New Animation 3");
    sheet.delete_animation("New Animation 2");
    assert_eq!(sheet.add_animation().get_name(), "New Animation 2");
    assert!(sheet.get_animation("New Animation").unwrap().is_looping());
}

#[test]
fn new_hitboxes_get_fresh_names() {
    let mut frame = Frame::new("a.png");
    assert_eq!(frame.add_hitbox().get_name(), "New Hitbox");
    assert_eq!(frame.add_hitbox().get_name(), "New Hitbox 2");
    assert!(frame.has_hitbox("New Hitbox 2"));
    assert_eq!(frame.get_hitbox("New Hitbox").unwrap().get_size(), (0, 0));
}

#[test]
fn deleting_a_frame_removes_it_from_animations() {
    let mut sheet = Sheet::new();
    sheet.add_frame("a.png");
    sheet.add_frame("b.png");
    sheet.add_animation();
    sheet.add_animation_frame("New Animation", "a.png").unwrap();
    sheet.add_animation_frame("New Animation", "b.png").unwrap();
    sheet.add_animation_frame("New Animation", "a.png").unwrap();
    sheet.delete_frame("a.png");
    assert!(!sheet.has_frame("a.png"));
    let animation = sheet.get_animation("New Animation").unwrap();
    assert_eq!(animation.get_num_frames(), 1);
    assert_eq!(animation.get_frame(0).unwrap().get_frame(), "b.png");
}

#[test]
fn add_animation_frame_errors() {
    let mut sheet = Sheet::new();
    assert!(matches!(sheet.add_animation_frame("x", "a.png"), Err(SheetError::FrameNotFound)));
    sheet.add_frame("a.png");
    assert!(matches!(sheet.add_animation_frame("x", "a.png"), Err(SheetError::AnimationNotFound)));
}

#[test]
fn rename_animation_refuses_long_names() {
    let mut sheet = Sheet::new();
    sheet.add_animation();
    let long = "a".repeat(33);
    assert!(matches!(
        sheet.rename_animation("New Animation", &long),
        Err(SheetError::AnimationNameTooLong)
    ));
    assert!(matches!(sheet.rename_animation("Nope", "walk"), Err(SheetError::AnimationNotFound)));
    sheet.rename_animation("New Animation", "walk").unwrap();
    assert!(sheet.has_animation("walk"));
    assert!(!sheet.has_animation("New Animation"));
}

#[test]
fn rename_hitbox_errors() {
    let mut frame = Frame::new("a.png");
    frame.add_hitbox();
    assert!(matches!(frame.rename_hitbox("New Hitbox", &"b".repeat(40)), Err(SheetError::HitboxNameTooLong)));
    assert!(matches!(frame.rename_hitbox("x", "y"), Err(SheetError::HitboxNotFound)));
    frame.rename_hitbox("New Hitbox", "body").unwrap();
    assert!(frame.has_hitbox("body"));
}

fn timed_animation(durations: &[u32], looping: bool) -> Animation {
    let mut animation = Animation::new("a");
    for (i, d) in durations.iter().enumerate() {
        animation.insert_frame(&format!("{}.png", i), i).unwrap();
        animation.get_frame_mut(i).unwrap().set_duration(*d);
    }
    animation.set_is_looping(looping);
    animation
}

#[test]
fn durations_and_frame_times() {
    let animation = timed_animation(&[100, 50, 200], true);
    assert_eq!(animation.get_duration(), Some(350));
    assert_eq!(animation.get_frame_times(), vec![0, 100, 150]);
    assert_eq!(Animation::new("empty").get_duration(), None);
}

#[test]
fn frame_at_a_time() {
    let looping = timed_animation(&[100, 50, 200], true);
    assert_eq!(looping.get_frame_at(0).unwrap().0, 0);
    assert_eq!(looping.get_frame_at(99).unwrap().0, 0);
    assert_eq!(looping.get_frame_at(100).unwrap().0, 1);
    assert_eq!(looping.get_frame_at(349).unwrap().0, 2);
    assert_eq!(looping.get_frame_at(350).unwrap().0, 0);
    assert_eq!(looping.get_frame_at(460).unwrap().0, 1);
    let once = timed_animation(&[100, 50, 200], false);
    assert_eq!(once.get_frame_at(10_000).unwrap().0, 2);
    assert!(timed_animation(&[], true).get_frame_at(5).is_none());
    assert!(timed_animation(&[0], true).get_frame_at(5).is_none());
}

#[test]
fn reordering_frames() {
    let mut animation = timed_animation(&[1, 2, 3, 4], true);
    animation.reorder_frame(0, 3).unwrap();
    let durations: Vec<u32> = animation.frames_iter().iter().map(|f| f.get_duration()).collect();
    assert_eq!(durations, vec![2, 3, 1, 4]);
    animation.reorder_frame(3, 0).unwrap();
    let durations: Vec<u32> = animation.frames_iter().iter().map(|f| f.get_duration()).collect();
    assert_eq!(durations, vec![4, 2, 3, 1]);
    animation.reorder_frame(0, 4).unwrap();
    let durations: Vec<u32> = animation.frames_iter().iter().map(|f| f.get_duration()).collect();
    assert_eq!(durations, vec![2, 3, 1, 4]);
    assert!(matches!(animation.reorder_frame(4, 0), Err(SheetError::InvalidFrameIndex)));
    assert!(matches!(animation.reorder_frame(0, 5), Err(SheetError::InvalidFrameIndex)));
    assert!(matches!(animation.insert_frame("x.png", 6), Err(SheetError::InvalidFrameIndex)));
}

#[test]
fn animation_frame_defaults() {
    let f = AnimationFrame::new("a.png");
    assert_eq!(f.get_duration(), 100);
    assert_eq!(f.get_offset(), (0, 0));
    assert_eq!(f.get_frame(), "a.png");
}

#[test]
fn absolute_and_relative_paths() {
    let mut sheet = Sheet::new();
    sheet.add_frame("images/a.png");
    sheet.add_animation();
    sheet.add_animation_frame("New Animation", "images/a.png").unwrap();
    let mut settings = ExportSettings::new();
    settings.texture_destination = "out/sheet.png".to_owned();
    settings.format = ExportFormat::Template("templates/t.liquid".to_owned());
    sheet.set_export_settings(settings);

    let absolute = sheet.with_absolute_paths("/home/user/project");
    assert_eq!(absolute.frames_iter()[0].get_source(), "/home/user/project/images/a.png");
    assert_eq!(
        absolute.get_animation("New Animation").unwrap().get_frame(0).unwrap().get_frame(),
        "/home/user/project/images/a.png"
    );
    let settings = absolute.get_export_settings().as_ref().unwrap();
    assert_eq!(settings.texture_destination, "/home/user/project/out/sheet.png");

    let relative = absolute.with_relative_paths("/home/user/project").unwrap();
    assert_eq!(relative.frames_iter()[0].get_source(), "images/a.png");
    let settings = relative.get_export_settings().as_ref().unwrap();
    match &settings.format {
        ExportFormat::Template(p) => assert_eq!(p, "templates/t.liquid"),
    }
}

#[test]
fn relative_paths_need_a_common_root() {
    let mut sheet = Sheet::new();
    sheet.add_frame("relative/a.png");
    assert!(matches!(
        sheet.with_relative_paths("/absolute/dir"),
        Err(SheetError::AbsoluteToRelativePath)
    ));
}

#[test]
fn hitbox_geometry() {
    let mut frame = Frame::new("a.png");
    let hitbox = frame.add_hitbox();
    hitbox.set_position((3, -4));
    hitbox.set_size((10, 20));
    let hitbox = frame.get_hitbox("New Hitbox").unwrap();
    assert_eq!(hitbox.get_position(), (3, -4));
    assert_eq!(hitbox.get_size(), (10, 20));
    assert_eq!(hitbox.get_rectangle().top_left, (3, -4));
    frame.get_hitbox_mut("New Hitbox").unwrap().set_position((0, 0));
    assert_eq!(frame.get_hitbox("New Hitbox").unwrap().get_position(), (0, 0));
}

#[test]
fn deleting_hitboxes_and_animation_frames() {
    let mut sheet = Sheet::new();
    sheet.add_frame("a.png");
    sheet.get_frame_mut("a.png").unwrap().add_hitbox();
    sheet.delete_hitbox("a.png", "New Hitbox");
    assert!(!sheet.get_frame("a.png").unwrap().has_hitbox("New Hitbox"));
    sheet.add_animation();
    sheet.add_animation_frame("New Animation", "a.png").unwrap();
    sheet.delete_animation_frame("New Animation", 5);
    assert_eq!(sheet.get_animation("New Animation").unwrap().get_num_frames(), 1);
    sheet.delete_animation_frame("New Animation", 0);
    assert_eq!(sheet.get_animation("New Animation").unwrap().get_num_frames(), 0);
}

#[test]
fn texture_cache_entries() {
    let mut cache = TextureCache::new();
    assert!(cache.get("a.png").is_none());
    cache.insert_pending("a.png");
    assert!(matches!(cache.get("a.png"), Some(TextureCacheResult::Loading)));
    cache.insert_entry("a.png", 7, (3, 4));
    // A pending load does not replace a loaded image.
    cache.insert_pending("a.png");
    match cache.get("a.png") {
        Some(TextureCacheResult::Loaded(t)) => {
            assert_eq!(t.id, 7);
            assert_eq!(t.size, (3, 4));
        }
        _ => panic!("the image is loaded"),
    }
    cache.insert_error("b.png");
    assert!(matches!(cache.get("b.png"), Some(TextureCacheResult::Missing)));
    assert_eq!(cache.remove_if_loaded("b.png"), None);
    assert!(cache.get("b.png").is_some());
    assert_eq!(cache.remove_if_loaded("a.png"), Some(7));
    assert!(cache.get("a.png").is_none());
    cache.remove("b.png");
    assert!(cache.cache.is_empty());
}

#[test]
fn planning_texture_loads() {
    let mut cache = TextureCache::new();
    cache.insert_entry("loaded.png", 1, (1, 1));
    cache.insert_entry("changed.png", 2, (1, 1));
    cache.invalidate("changed.png");
    cache.insert_error("missing.png");
    cache.insert_pending("pending.png");
    cache.insert_entry("unused.png", 3, (1, 1));
    let desired: Vec<String> =
        ["loaded.png", "changed.png", "missing.png", "pending.png", "new.png"].iter().map(|s| s.to_string()).collect();
    let plan = plan_loads(&desired, &cache);
    assert_eq!(plan.to_load, vec!["changed.png".to_owned(), "pending.png".to_owned(), "new.png".to_owned()]);
    assert_eq!(plan.obsolete, vec!["unused.png".to_owned()]);
}

#[test]
fn centering_twice_changes_nothing_more() {
    let mut b = BoundingBox { rect: rect(3, -7, 10, 2) };
    b.center_on_origin();
    let once = b.rect;
    b.center_on_origin();
    assert_rect(b.rect, once);
    assert_rect(once, rect(-13, -7, 26, 14));
}

#[test]
fn frames_are_found_by_path_component_by_component() {
    let mut sheet = Sheet::new();
    sheet.add_frame("a/b");
    assert!(sheet.has_frame("a/b/"));
    assert!(sheet.has_frame("a//b"));
    assert!(!sheet.has_frame("a/c"));
    sheet.add_frame("a/b/");
    assert_eq!(sheet.frames_iter().len(), 1);
    assert_eq!(sheet.get_frame("a/./b").unwrap().get_source(), "a/b");
    sheet.delete_frame("a//b");
    assert_eq!(sheet.frames_iter().len(), 0);
}

#[test]
fn fresh_names_count_past_nine() {
    let mut names = vec!["Hitbox".to_string()];
    for k in 2..10 {
        names.push(format!("Hitbox {}", k));
    }
    assert_eq!(tiger::names::first_free_name(&names, "Hitbox"), "Hitbox 10");
    names.push("Hitbox 10".to_string());
    assert_eq!(tiger::names::first_free_name(&names, "Hitbox"), "Hitbox 11");
}

#[test]
fn texture_cache_finds_images_by_path() {
    let mut cache = TextureCache::new();
    cache.insert_pending("img/a.png");
    cache.insert_entry("img//a.png", 3, (8, 9));
    assert_eq!(cache.cache.len(), 1);
    assert_eq!(cache.cache[0].0, "img/a.png");
    assert!(matches!(cache.get("img/./a.png"), Some(TextureCacheResult::Loaded(t)) if t.id == 3));
    let plan = plan_loads(&vec!["img//a.png".to_string()], &cache);
    assert!(plan.to_load.is_empty());
    assert!(plan.obsolete.is_empty());
    assert_eq!(cache.remove_if_loaded("img/a.png/"), Some(3));
    assert!(cache.get("img/a.png").is_none());
}
