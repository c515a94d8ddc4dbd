use tiger::multi_selection::{FramePath, MultiSelection, Selection};

fn names(items: &[&str]) -> Vec<String> {
    items.iter().map(|s| s.to_string()).collect()
}

fn paths(items: &[&str]) -> Vec<FramePath> {
    items.iter().map(|s| FramePath(s.to_string())).collect()
}

fn path_strings(items: &[FramePath]) -> Vec<String> {
    items.iter().map(|p| p.0.clone()).collect()
}

#[test]
fn new_selection_holds_each_item_once_and_touches_the_last() {
    let selection = MultiSelection::new(vec![1usize, 2, 2, 3]);
    assert_eq!(selection.items, vec![1, 2, 3]);
    assert_eq!(selection.last_touched, 3);
    assert_eq!(selection.last_touched_in_range, 3);
}

#[test]
fn adding_items_selects_them_and_touches_the_last() {
    let mut selection = MultiSelection::new(vec![1usize, 2]);
    selection.add(&vec![2, 5, 4]);
    assert_eq!(selection.items, vec![1, 2, 5, 4]);
    assert_eq!(selection.last_touched, 4);
    assert_eq!(selection.last_touched_in_range, 4);
}

#[test]
fn adding_nothing_changes_nothing() {
    let mut selection = MultiSelection::new(vec![1usize, 2]);
    selection.add(&vec![]);
    assert_eq!(selection.items, vec![1, 2]);
    assert_eq!(selection.last_touched, 2);
}

#[test]
fn toggling_selects_new_items_and_deselects_selected_ones() {
    let mut selection = MultiSelection::new(vec![1usize, 2, 3]);
    selection.toggle(&vec![2, 4]);
    assert_eq!(selection.items, vec![1, 3, 4]);
    assert_eq!(selection.last_touched, 4);
    assert_eq!(selection.last_touched_in_range, 4);
}

#[test]
fn toggling_off_falls_back_to_the_greatest_selected_number() {
    let mut selection = MultiSelection::new(vec![5usize, 2, 3]);
    selection.toggle(&vec![3]);
    assert_eq!(selection.items, vec![5, 2]);
    assert_eq!(selection.last_touched, 3);
    assert_eq!(selection.last_touched_in_range, 5);
}

#[test]
fn toggling_everything_off_keeps_the_range_start() {
    let mut selection = MultiSelection::new(vec![7usize]);
    selection.toggle(&vec![7]);
    assert!(selection.items.is_empty());
    assert_eq!(selection.last_touched, 7);
    assert_eq!(selection.last_touched_in_range, 7);
}

#[test]
fn toggling_twice_restores_the_selection() {
    let mut selection = MultiSelection::new(vec![1usize, 2, 3]);
    selection.toggle(&vec![3, 4]);
    selection.toggle(&vec![3, 4]);
    let mut items = selection.items.clone();
    items.sort();
    assert_eq!(items, vec![1, 2, 3]);
}

#[test]
fn toggling_names_falls_back_to_the_greatest_name() {
    let mut selection = MultiSelection::new(names(&["walk", "attack", "zoom"]));
    selection.toggle(&names(&["zoom"]));
    assert_eq!(selection.items, names(&["walk", "attack"]));
    assert_eq!(selection.last_touched_in_range, "walk".to_string());
}

#[test]
fn toggling_paths_falls_back_to_the_greatest_path_component_by_component() {
    let mut selection = MultiSelection::new(paths(&["a/b", "a-b", "c"]));
    selection.toggle(&paths(&["c"]));
    assert_eq!(path_strings(&selection.items), names(&["a/b", "a-b"]));
    // "a" sorts before "a-b" as a path component, so "a-b" is the greatest.
    assert_eq!(selection.last_touched_in_range.0, "a-b");
}

#[test]
fn plain_click_selects_the_clicked_item_alone() {
    let existing = MultiSelection::new(vec![1usize, 2, 3]);
    let items = vec![0usize, 1, 2, 3, 4];
    let selection = MultiSelection::process(4, false, false, &items, Some(&existing));
    assert_eq!(selection.items, vec![4]);
    assert_eq!(selection.last_touched, 4);
    assert_eq!(selection.last_touched_in_range, 4);
}

#[test]
fn control_click_toggles_the_clicked_item() {
    let existing = MultiSelection::new(vec![1usize, 2, 3]);
    let items = vec![0usize, 1, 2, 3, 4];
    let selection = MultiSelection::process(2, false, true, &items, Some(&existing));
    assert_eq!(selection.items, vec![1, 3]);
    assert_eq!(selection.last_touched, 2);
    let selection = MultiSelection::process(4, false, true, &items, Some(&selection));
    assert_eq!(selection.items, vec![1, 3, 4]);
}

#[test]
fn control_click_on_nothing_selects_the_clicked_item() {
    let items = vec![0usize, 1, 2];
    let selection = MultiSelection::process(1, false, true, &items, None);
    assert_eq!(selection.items, vec![1]);
    assert_eq!(selection.last_touched, 1);
}

#[test]
fn shift_click_on_nothing_selects_from_the_first_item() {
    let items = vec![0usize, 1, 2, 3, 4, 5];
    let selection = MultiSelection::process(3, true, false, &items, None);
    assert_eq!(selection.items, vec![3, 0, 1, 2]);
    assert_eq!(selection.last_touched, 3);
    assert_eq!(selection.last_touched_in_range, 3);
}

#[test]
fn shift_click_extends_forward_from_the_last_touched_item() {
    let items = vec![0usize, 1, 2, 3, 4, 5];
    let existing = MultiSelection::new(vec![1usize]);
    let selection = MultiSelection::process(4, true, false, &items, Some(&existing));
    assert_eq!(selection.items, vec![1, 2, 3, 4]);
    assert_eq!(selection.last_touched, 4);
}

#[test]
fn shift_click_extends_backward_from_the_last_touched_item() {
    let items = vec![0usize, 1, 2, 3, 4, 5];
    let existing = MultiSelection::new(vec![4usize]);
    let selection = MultiSelection::process(1, true, false, &items, Some(&existing));
    assert_eq!(selection.items, vec![4, 3, 2, 1]);
    assert_eq!(selection.last_touched, 1);
}

#[test]
fn shift_control_click_on_nothing_toggles_the_range_and_keeps_the_clicked_item() {
    let items = vec![0usize, 1, 2];
    let selection = MultiSelection::process(2, true, true, &items, None);
    assert_eq!(selection.items, vec![0, 1, 2]);
    assert_eq!(selection.last_touched, 2);
    assert_eq!(selection.last_touched_in_range, 2);
}

#[test]
fn shift_control_click_toggles_the_range() {
    let items = vec![0usize, 1, 2, 3, 4];
    let existing = MultiSelection::new(vec![3usize, 1]);
    let selection = MultiSelection::process(4, true, true, &items, Some(&existing));
    assert_eq!(selection.items, vec![1, 2, 4]);
    assert_eq!(selection.last_touched, 4);
    assert_eq!(selection.last_touched_in_range, 4);
}

#[test]
fn clicks_on_names_use_their_positions_in_the_list() {
    let items = names(&["idle", "walk", "run", "jump"]);
    let existing = MultiSelection::new(names(&["walk"]));
    let selection =
        MultiSelection::process("jump".to_string(), true, false, &items, Some(&existing));
    assert_eq!(selection.items, names(&["walk", "run", "jump"]));
}

#[test]
fn selection_queries_look_at_the_right_kind_of_item() {
    let frames = Selection::Frame(MultiSelection::new(paths(&["a.png", "b.png"])));
    assert!(frames.is_frame_selected("a.png"));
    assert!(!frames.is_frame_selected("c.png"));
    assert!(!frames.is_animation_selected("a.png"));

    let animations = Selection::Animation(MultiSelection::new(names(&["walk"])));
    assert!(animations.is_animation_selected("walk"));
    assert!(!animations.is_hitbox_selected("walk"));

    let hitboxes = Selection::Hitbox(MultiSelection::new(names(&["body"])));
    assert!(hitboxes.is_hitbox_selected("body"));
    assert!(!hitboxes.is_hitbox_selected("head"));

    let keyframes = Selection::AnimationFrame(MultiSelection::new(vec![0usize, 3]));
    assert!(keyframes.is_animation_frame_selected(3));
    assert!(!keyframes.is_animation_frame_selected(1));
    assert!(!keyframes.is_frame_selected("a.png"));
}

#[test]
fn copying_a_selection_keeps_everything() {
    let mut selection = MultiSelection::new(vec![1usize, 2, 3]);
    selection.toggle(&vec![3]);
    let copy = selection.copy_selection();
    assert_eq!(copy.items, selection.items);
    assert_eq!(copy.last_touched, selection.last_touched);
    assert_eq!(copy.last_touched_in_range, selection.last_touched_in_range);
}
