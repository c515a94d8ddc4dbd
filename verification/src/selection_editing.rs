//! Commands on the selected item: nudging, deleting and renaming it.

use vstd::prelude::*;
use crate::document::{Document, EditState, with_state};
use crate::editing::{
    after_begin_animation_rename, after_begin_hitbox_rename, applied, fits_i32, offset_by,
    offset_fits, with_animation, with_selection, with_sheet,
};
use crate::error::StateError;
use crate::hitbox_editing::{hitbox_lookup, with_hitbox_rectangle};
use crate::names::{names_sorted, sorted_names, spec_sorted_names};
use crate::paths::{same_path, sorted_paths, spec_sorted_paths};
use crate::sheet::{
    AnimationFrameModel, AnimationModel, Frame, Sheet, MAX_ANIMATION_NAME_LENGTH,
    MAX_HITBOX_NAME_LENGTH, Rectangle, SheetError, SheetModel, byte_len, frame_with_hitbox_renamed,
    sheet_with_animation_renamed, sheet_without_animation, sheet_without_animation_frame,
    sheet_without_frame, sheet_without_hitbox, animation_names, first_index, frame_sources,
    hitbox_names, lemma_first_index, same_path_flags,
};
use crate::transient::{RenameItem, RenameItemModel, TransientModel};
use crate::view::{DocumentViewModel, Selection, SelectionModel, WorkbenchItem, WorkbenchItemModel};

verus! {

// ---------------------------------------------------------------------------
// Nudging
// ---------------------------------------------------------------------------

/// How far a nudge moves: one pixel per step, ten for a large nudge.
pub open spec fn nudge_amount(direction: (i32, i32), large: bool) -> (int, int) {
    let amplitude: int = if large {
        10
    } else {
        1
    };
    (direction.0 * amplitude, direction.1 * amplitude)
}

pub open spec fn nudge_offset(direction: (i32, i32), large: bool) -> (i32, i32) {
    (nudge_amount(direction, large).0 as i32, nudge_amount(direction, large).1 as i32)
}

/// Whether a nudge stays within the coordinates that an item can have.
pub open spec fn nudge_fits(s: EditState, direction: (i32, i32), large: bool) -> bool {
    let offset = nudge_offset(direction, large);
    &&& fits_i32(nudge_amount(direction, large).0)
    &&& fits_i32(nudge_amount(direction, large).1)
    &&& match s.view.selection {
        Some(SelectionModel::Hitbox(f, h)) => match hitbox_lookup(s.sheet, f, h) {
            Ok(hb) => offset_fits(hb.rectangle().top_left, offset),
            Err(_) => true,
        },
        Some(SelectionModel::AnimationFrame(a, i)) => s.sheet.has_animation(a) && i
            < s.sheet.animations[s.sheet.animation_index(a)].timeline.len() ==> offset_fits(
            s.sheet.animations[s.sheet.animation_index(a)].timeline[i as int].offset,
            offset,
        ),
        _ => true,
    }
}

/// Moving the selected hitbox or animation frame by one step (or ten) in
/// `direction`; other selections stay where they are.
pub open spec fn after_nudge_selection(s: EditState, direction: (i32, i32), large: bool) -> Result<
    EditState,
    StateError,
> {
    let offset = nudge_offset(direction, large);
    match s.view.selection {
        Some(SelectionModel::Hitbox(f, h)) => match hitbox_lookup(s.sheet, f, h) {
            Err(e) => Err(e),
            Ok(hb) => Ok(
                with_sheet(
                    s,
                    with_hitbox_rectangle(
                        s.sheet,
                        f,
                        h,
                        Rectangle { top_left: offset_by(hb.rectangle().top_left, offset), ..hb.rectangle() },
                    ),
                ),
            ),
        },
        Some(SelectionModel::AnimationFrame(a, i)) => if !s.sheet.has_animation(a) {
            Err(StateError::AnimationNotInDocument)
        } else {
            let ai = s.sheet.animation_index(a);
            let animation = s.sheet.animations[ai];
            if i >= animation.timeline.len() {
                Err(StateError::InvalidAnimationFrameIndex)
            } else {
                let frame = animation.timeline[i as int];
                Ok(
                    with_sheet(
                        s,
                        with_animation(
                            s.sheet,
                            ai,
                            AnimationModel {
                                timeline: animation.timeline.update(
                                    i as int,
                                    AnimationFrameModel { offset: offset_by(frame.offset, offset), ..frame },
                                ),
                                ..animation
                            },
                        ),
                    ),
                )
            }
        },
        _ => Ok(s),
    }
}

// ---------------------------------------------------------------------------
// Deleting
// ---------------------------------------------------------------------------

/// Deleting the selection: the selected item leaves the sheet, interactions
/// on it stop, and nothing is selected any more.
pub open spec fn after_delete_selection(s: EditState) -> EditState {
    let t = s.transient;
    let deleted = match s.view.selection {
        Some(SelectionModel::Animation(a)) => EditState {
            sheet: sheet_without_animation(s.sheet, a),
            transient: if t.item_being_renamed == Some(RenameItemModel::Animation(a)) {
                TransientModel { item_being_renamed: None, rename_buffer: None, ..t }
            } else {
                t
            },
            ..s
        },
        Some(SelectionModel::Frame(f)) => EditState {
            sheet: sheet_without_frame(s.sheet, f),
            transient: if t.content_frame_being_dragged == Some(f) {
                TransientModel { content_frame_being_dragged: None, ..t }
            } else {
                t
            },
            ..s
        },
        Some(SelectionModel::Hitbox(f, h)) => {
            let in_workbench = s.view.workbench_item == Some(WorkbenchItemModel::Frame(f));
            EditState {
                sheet: sheet_without_hitbox(s.sheet, f, h),
                transient: TransientModel {
                    workbench_hitbox_being_dragged: if in_workbench
                        && t.workbench_hitbox_being_dragged == Some(h) {
                        None
                    } else {
                        t.workbench_hitbox_being_dragged
                    },
                    workbench_hitbox_being_scaled: if in_workbench && t.workbench_hitbox_being_scaled
                        == Some(h) {
                        None
                    } else {
                        t.workbench_hitbox_being_scaled
                    },
                    ..t
                },
                ..s
            }
        },
        Some(SelectionModel::AnimationFrame(a, i)) => EditState {
            sheet: sheet_without_animation_frame(s.sheet, a, i as int),
            transient: if s.view.workbench_item == Some(WorkbenchItemModel::Animation(a))
                && t.workbench_animation_frame_being_dragged == Some(i) {
                TransientModel { workbench_animation_frame_being_dragged: None, ..t }
            } else {
                t
            },
            ..s
        },
        None => s,
    };
    with_selection(deleted, None)
}

// ---------------------------------------------------------------------------
// Renaming
// ---------------------------------------------------------------------------

/// Beginning to rename the selected animation or hitbox; other selections
/// cannot be renamed, and nothing happens.
pub open spec fn after_begin_rename_selection(s: EditState) -> Result<EditState, StateError> {
    match s.view.selection {
        Some(SelectionModel::Animation(a)) => after_begin_animation_rename(s, a),
        Some(SelectionModel::Hitbox(f, h)) => after_begin_hitbox_rename(s, f, h),
        _ => Ok(s),
    }
}

/// The state once no rename is under way.
pub open spec fn rename_cleared(s: EditState) -> EditState {
    EditState {
        transient: TransientModel { item_being_renamed: None, rename_buffer: None, ..s.transient },
        ..s
    }
}

/// `item` with every reference to the animation `old_name` made to `new_name`.
pub open spec fn renamed_animation_view(v: DocumentViewModel, old_name: Seq<char>, new_name: Seq<char>) -> DocumentViewModel {
    DocumentViewModel {
        selection: if v.selection == Some(SelectionModel::Animation(old_name)) {
            Some(SelectionModel::Animation(new_name))
        } else {
            v.selection
        },
        workbench_item: if v.workbench_item == Some(WorkbenchItemModel::Animation(old_name)) {
            Some(WorkbenchItemModel::Animation(new_name))
        } else {
            v.workbench_item
        },
        ..v
    }
}

/// Ending a rename: the item takes the name in the rename buffer, unless
/// another item already has it or it is too long; the selection and the
/// workbench follow the renamed item.
pub open spec fn after_end_rename_selection(s: EditState) -> Result<EditState, StateError> {
    match s.transient.rename_buffer {
        None => Err(StateError::NotRenaming),
        Some(new_name) => match s.transient.item_being_renamed {
            Some(RenameItemModel::Animation(old_name)) => if old_name == new_name {
                Ok(rename_cleared(s))
            } else if s.sheet.has_animation(new_name) {
                Err(StateError::AnimationAlreadyExists)
            } else if byte_len(new_name) > MAX_ANIMATION_NAME_LENGTH {
                Err(StateError::Sheet(SheetError::AnimationNameTooLong))
            } else if !s.sheet.has_animation(old_name) {
                Err(StateError::Sheet(SheetError::AnimationNotFound))
            } else {
                Ok(
                    rename_cleared(
                        EditState {
                            sheet: sheet_with_animation_renamed(s.sheet, old_name, new_name),
                            view: renamed_animation_view(s.view, old_name, new_name),
                            ..s
                        },
                    ),
                )
            },
            Some(RenameItemModel::Hitbox(path, old_name)) => if old_name == new_name {
                Ok(rename_cleared(s))
            } else if !s.sheet.has_frame(path) {
                Err(StateError::FrameNotInDocument)
            } else {
                let fi = s.sheet.frame_index(path);
                let f = s.sheet.frames[fi];
                if f.has_hitbox(new_name) {
                    Err(StateError::HitboxAlreadyExists)
                } else if byte_len(new_name) > MAX_HITBOX_NAME_LENGTH {
                    Err(StateError::Sheet(SheetError::HitboxNameTooLong))
                } else if !f.has_hitbox(old_name) {
                    Err(StateError::Sheet(SheetError::HitboxNotFound))
                } else {
                    Ok(
                        rename_cleared(
                            EditState {
                                sheet: SheetModel {
                                    frames: s.sheet.frames.update(
                                        fi,
                                        frame_with_hitbox_renamed(f, old_name, new_name),
                                    ),
                                    ..s.sheet
                                },
                                view: DocumentViewModel {
                                    selection: if s.view.selection == Some(
                                        SelectionModel::Hitbox(path, old_name),
                                    ) {
                                        Some(SelectionModel::Hitbox(path, new_name))
                                    } else {
                                        s.view.selection
                                    },
                                    ..s.view
                                },
                                ..s
                            },
                        ),
                    )
                }
            },
            None => Ok(rename_cleared(s)),
        },
    }
}

fn nudge_step(value: i32, large: bool) -> (r: i32)
    requires
        fits_i32(value * if large {
            10int
        } else {
            1int
        }),
    ensures
        r == value * if large {
            10int
        } else {
            1int
        },
{
    if large {
        value * 10
    } else {
        value
    }
}

impl Document {
    pub fn nudge_selection(&mut self, direction: (i32, i32), large: bool) -> (r: Result<
        (),
        StateError,
    >)
        requires
            nudge_fits(old(self)@.state, direction, large),
        ensures
            applied(
                old(self)@,
                final(self)@,
                r,
                after_nudge_selection(old(self)@.state, direction, large),
            ),
    {
        let offset = (nudge_step(direction.0, large), nudge_step(direction.1, large));
        assert(offset == nudge_offset(direction, large));
        match &self.view.selection {
            Some(Selection::Hitbox(f, h)) => {
                let f = f.clone();
                let h = h.clone();
                let rect = match self.sheet.get_frame(f.as_str()) {
                    Some(frame) => match frame.get_hitbox(h.as_str()) {
                        Some(hitbox) => *hitbox.get_rectangle(),
                        None => return Err(StateError::InvalidHitboxIndex),
                    },
                    None => return Err(StateError::FrameNotInDocument),
                };
                let top_left = crate::editing::add_offsets(rect.top_left, offset);
                self.sheet.set_hitbox_rectangle(
                    f.as_str(),
                    h.as_str(),
                    Rectangle { top_left, size: rect.size },
                )
            },
            Some(Selection::AnimationFrame(a, index)) => {
                let index = *index;
                let i = match self.sheet.animation_position(a.as_str()) {
                    Some(i) => i,
                    None => return Err(StateError::AnimationNotInDocument),
                };
                if index >= self.sheet.animations[i].timeline.len() {
                    return Err(StateError::InvalidAnimationFrameIndex);
                }
                let animation = &mut self.sheet.animations[i];
                let frame = &mut animation.timeline[index];
                frame.offset = crate::editing::add_offsets(frame.offset, offset);
                assert(animation@.timeline =~= old(self)@.state.sheet.animations[i as int].timeline.update(
                    index as int,
                    AnimationFrameModel {
                        offset: offset_by(old(self)@.state.sheet.animations[i as int].timeline[index as int].offset, offset),
                        ..old(self)@.state.sheet.animations[i as int].timeline[index as int]
                    },
                ));
                assert(self@.state.sheet.animations =~= old(self)@.state.sheet.animations.update(
                    i as int,
                    self@.state.sheet.animations[i as int],
                ));
                Ok(())
            },
            _ => Ok(()),
        }
    }

    pub fn delete_selection(&mut self)
        ensures
            final(self)@ == with_state(old(self)@, after_delete_selection(old(self)@.state)),
    {
        match &self.view.selection {
            Some(Selection::Animation(a)) => {
                let a = a.clone();
                self.sheet.delete_animation(a.as_str());
                let renaming = match &self.transient.item_being_renamed {
                    Some(RenameItem::Animation(n)) => *n == a,
                    _ => false,
                };
                if renaming {
                    self.transient.item_being_renamed = None;
                    self.transient.rename_buffer = None;
                }
            },
            Some(Selection::Frame(f)) => {
                let f = f.clone();
                self.sheet.delete_frame(f.as_str());
                let dragged = match &self.transient.content_frame_being_dragged {
                    Some(d) => *d == f,
                    None => false,
                };
                if dragged {
                    self.transient.content_frame_being_dragged = None;
                }
            },
            Some(Selection::Hitbox(f, h)) => {
                let f = f.clone();
                let h = h.clone();
                self.sheet.delete_hitbox(f.as_str(), h.as_str());
                let in_workbench = match &self.view.workbench_item {
                    Some(WorkbenchItem::Frame(p)) => *p == f,
                    _ => false,
                };
                if in_workbench {
                    let dragged = match &self.transient.workbench_hitbox_being_dragged {
                        Some(d) => *d == h,
                        None => false,
                    };
                    if dragged {
                        self.transient.workbench_hitbox_being_dragged = None;
                    }
                    let scaled = match &self.transient.workbench_hitbox_being_scaled {
                        Some(d) => *d == h,
                        None => false,
                    };
                    if scaled {
                        self.transient.workbench_hitbox_being_scaled = None;
                    }
                }
            },
            Some(Selection::AnimationFrame(a, index)) => {
                let a = a.clone();
                let index = *index;
                self.sheet.delete_animation_frame(a.as_str(), index);
                let in_workbench = match &self.view.workbench_item {
                    Some(WorkbenchItem::Animation(n)) => *n == a,
                    _ => false,
                };
                if in_workbench && self.transient.workbench_animation_frame_being_dragged == Some(
                    index,
                ) {
                    self.transient.workbench_animation_frame_being_dragged = None;
                }
            },
            None => {},
        }
        self.view.selection = None;
    }

    pub fn begin_rename_selection(&mut self) -> (r: Result<(), StateError>)
        ensures
            applied(old(self)@, final(self)@, r, after_begin_rename_selection(old(self)@.state)),
    {
        match &self.view.selection {
            Some(Selection::Animation(a)) => {
                let a = a.clone();
                self.begin_animation_rename(a.as_str())
            },
            Some(Selection::Hitbox(f, h)) => {
                let f = f.clone();
                let h = h.clone();
                self.begin_hitbox_rename(f.as_str(), h.as_str())
            },
            _ => Ok(()),
        }
    }

    #[verifier::rlimit(50)]
    pub fn end_rename_selection(&mut self) -> (r: Result<(), StateError>)
        ensures
            applied(old(self)@, final(self)@, r, after_end_rename_selection(old(self)@.state)),
    {
        let new_name = match &self.transient.rename_buffer {
            Some(n) => n.clone(),
            None => return Err(StateError::NotRenaming),
        };
        let item = match &self.transient.item_being_renamed {
            Some(item) => Some(item.clone()),
            None => None,
        };
        match item {
            Some(RenameItem::Animation(old_name)) => {
                if old_name != new_name {
                    if self.sheet.has_animation(new_name.as_str()) {
                        return Err(StateError::AnimationAlreadyExists);
                    }
                    match self.sheet.rename_animation(old_name.as_str(), new_name.as_str()) {
                        Ok(()) => {},
                        Err(e) => return Err(StateError::Sheet(e)),
                    }
                    let selected = match &self.view.selection {
                        Some(Selection::Animation(n)) => *n == old_name,
                        _ => false,
                    };
                    if selected {
                        self.view.selection = Some(Selection::Animation(new_name.clone()));
                    }
                    let in_workbench = match &self.view.workbench_item {
                        Some(WorkbenchItem::Animation(n)) => *n == old_name,
                        _ => false,
                    };
                    if in_workbench {
                        self.view.workbench_item = Some(WorkbenchItem::Animation(new_name.clone()));
                    }
                }
            },
            Some(RenameItem::Hitbox(path, old_name)) => {
                if old_name != new_name {
                    let i = match self.sheet.frame_position(path.as_str()) {
                        Some(i) => i,
                        None => return Err(StateError::FrameNotInDocument),
                    };
                    if self.sheet.frames[i].has_hitbox(new_name.as_str()) {
                        return Err(StateError::HitboxAlreadyExists);
                    }
                    let frame = &mut self.sheet.frames[i];
                    match frame.rename_hitbox(old_name.as_str(), new_name.as_str()) {
                        Ok(()) => {},
                        Err(e) => {
                            assert(self@.state.sheet.frames =~= old(self)@.state.sheet.frames);
                            return Err(StateError::Sheet(e));
                        },
                    }
                    assert(self@.state.sheet.frames =~= old(self)@.state.sheet.frames.update(
                        i as int,
                        frame_with_hitbox_renamed(old(self)@.state.sheet.frames[i as int], old_name@, new_name@),
                    ));
                    let selected = match &self.view.selection {
                        Some(Selection::Hitbox(p, n)) => *p == path && *n == old_name,
                        _ => false,
                    };
                    if selected {
                        self.view.selection = Some(Selection::Hitbox(path, new_name.clone()));
                    }
                }
            },
            None => {},
        }
        self.transient.item_being_renamed = None;
        self.transient.rename_buffer = None;
        Ok(())
    }
}

// ---------------------------------------------------------------------------
// Stepping through the selection
// ---------------------------------------------------------------------------

/// Where a step through `sorted` from `current` lands: the item after it, or
/// the one before it, where there is one; the selection stays where there is
/// not. `None` where `current` is not among the items.
pub open spec fn step_from(sorted: Seq<Seq<char>>, current: Seq<char>, forward: bool) -> Option<
    Seq<char>,
> {
    if !sorted.contains(current) {
        None
    } else {
        let i = first_index(sorted, current);
        let j = if forward {
            i + 1
        } else if i > 0 {
            i - 1
        } else {
            i
        };
        Some(
            if j < sorted.len() {
                sorted[j]
            } else {
                current
            },
        )
    }
}

/// The path after (or, `forward` false, before) the one among `sorted` that
/// is the same path as `current`, as `step_from` steps; `None` where no path
/// of `sorted` is the same path as `current`.
pub open spec fn step_from_path(sorted: Seq<Seq<char>>, current: Seq<char>, forward: bool) -> Option<
    Seq<char>,
> {
    let flags = same_path_flags(sorted, current);
    if !flags.contains(true) {
        None
    } else {
        let i = first_index(flags, true);
        let j = if forward {
            i + 1
        } else if i > 0 {
            i - 1
        } else {
            i
        };
        Some(
            if j < sorted.len() {
                sorted[j]
            } else {
                current
            },
        )
    }
}

/// Where an animation or a hitbox is selected, the names that selecting the
/// previous or next item steps through are in the order of `String`s.
pub open spec fn stepped_in_name_order(s: EditState) -> bool {
    match s.view.selection {
        Some(SelectionModel::Animation(_)) => names_sorted(
            spec_sorted_names(animation_names(s.sheet.animations)),
        ),
        Some(SelectionModel::Hitbox(p, _)) => s.sheet.has_frame(p) ==> names_sorted(
            spec_sorted_names(hitbox_names(s.sheet.frames[s.sheet.frame_index(p)].hitboxes)),
        ),
        _ => true,
    }
}

/// Selecting the item that comes before (or, `forward`, after) the selected
/// one, in sorted order: frames by path, animations and hitboxes by name.
pub open spec fn after_advance_selection(s: EditState, forward: bool) -> Result<EditState, StateError> {
    match s.view.selection {
        Some(SelectionModel::Frame(p)) => if !s.sheet.has_frame(p) {
            Err(StateError::FrameNotInDocument)
        } else {
            let sorted = spec_sorted_paths(frame_sources(s.sheet.frames));
            Ok(with_selection(s, Some(SelectionModel::Frame(step_from_path(sorted, p, forward).unwrap()))))
        },
        Some(SelectionModel::Animation(n)) => if !s.sheet.has_animation(n) {
            Err(StateError::AnimationNotInDocument)
        } else {
            let sorted = spec_sorted_names(animation_names(s.sheet.animations));
            Ok(
                with_selection(
                    s,
                    Some(SelectionModel::Animation(step_from(sorted, n, forward).unwrap())),
                ),
            )
        },
        Some(SelectionModel::Hitbox(p, n)) => if !s.sheet.has_frame(p) {
            Err(StateError::FrameNotInDocument)
        } else {
            let f = s.sheet.frames[s.sheet.frame_index(p)];
            if !f.has_hitbox(n) {
                Err(StateError::InvalidHitboxIndex)
            } else {
                let sorted = spec_sorted_names(hitbox_names(f.hitboxes));
                Ok(
                    with_selection(
                        s,
                        Some(SelectionModel::Hitbox(p, step_from(sorted, n, forward).unwrap())),
                    ),
                )
            }
        },
        _ => Ok(s),
    }
}

fn step_in_sorted(sorted: &Vec<String>, current: &str, forward: bool) -> (r: Option<String>)
    ensures
        match step_from(sorted@.map_values(|s: String| s@), current@, forward) {
            Some(q) => r matches Some(x) && x@ == q,
            None => r is None,
        },
{
    let ghost keys = sorted@.map_values(|s: String| s@);
    let key = current.to_owned();
    let mut i: usize = 0;
    while i < sorted.len()
        invariant
            i <= sorted.len(),
            key@ == current@,
            keys == sorted@.map_values(|s: String| s@),
            forall|j: int| 0 <= j < i ==> keys[j] != current@,
        decreases sorted.len() - i,
    {
        if sorted[i] == key {
            proof {
                lemma_first_index(keys, current@, i as int);
            }
            let j: usize = if forward {
                i + 1
            } else if i > 0 {
                i - 1
            } else {
                i
            };
            if j < sorted.len() {
                return Some(sorted[j].clone());
            } else {
                return Some(key);
            }
        }
        i += 1;
    }
    None
}

/// The path after (or before) the one among `sorted` that is the same path
/// as `current`.
fn step_in_sorted_paths(sorted: &Vec<String>, current: &str, forward: bool) -> (r: Option<String>)
    ensures
        match step_from_path(sorted@.map_values(|s: String| s@), current@, forward) {
            Some(q) => r matches Some(x) && x@ == q,
            None => r is None,
        },
{
    let ghost keys = sorted@.map_values(|s: String| s@);
    let ghost flags = same_path_flags(keys, current@);
    let mut i: usize = 0;
    while i < sorted.len()
        invariant
            i <= sorted.len(),
            keys == sorted@.map_values(|s: String| s@),
            flags == same_path_flags(keys, current@),
            forall|j: int| 0 <= j < i ==> flags[j] != true,
        decreases sorted.len() - i,
    {
        if same_path(sorted[i].as_str(), current) {
            proof {
                assert(flags[i as int] == true);
                lemma_first_index(flags, true, i as int);
            }
            let j: usize = if forward {
                i + 1
            } else if i > 0 {
                i - 1
            } else {
                i
            };
            if j < sorted.len() {
                return Some(sorted[j].clone());
            } else {
                return Some(current.to_owned());
            }
        }
        assert(flags[i as int] != true);
        i += 1;
    }
    proof {
        assert(!flags.contains(true));
    }
    None
}

/// Some path of `sorted` is the same path as `key` exactly when some path of
/// `items` is, the two holding the same paths.
proof fn lemma_same_paths(sorted: Seq<Seq<char>>, items: Seq<Seq<char>>, key: Seq<char>)
    requires
        sorted.to_multiset() == items.to_multiset(),
    ensures
        same_path_flags(sorted, key).contains(true) <==> same_path_flags(items, key).contains(true),
{
    broadcast use vstd::seq_lib::group_to_multiset_ensures;

    if same_path_flags(sorted, key).contains(true) {
        let k = choose|k: int| 0 <= k < sorted.len() && same_path_flags(sorted, key)[k] == true;
        let x = sorted[k];
        assert(sorted.contains(x));
        assert(sorted.to_multiset().count(x) > 0);
        assert(items.contains(x));
        let i = choose|i: int| 0 <= i < items.len() && items[i] == x;
        assert(same_path_flags(items, key)[i] == true);
    }
    if same_path_flags(items, key).contains(true) {
        let k = choose|k: int| 0 <= k < items.len() && same_path_flags(items, key)[k] == true;
        let x = items[k];
        assert(items.contains(x));
        assert(items.to_multiset().count(x) > 0);
        assert(sorted.contains(x));
        let i = choose|i: int| 0 <= i < sorted.len() && sorted[i] == x;
        assert(same_path_flags(sorted, key)[i] == true);
    }
}

/// Whether `key` is among `sorted` exactly when it is among `items`, the two
/// holding the same items.
proof fn lemma_same_items(sorted: Seq<Seq<char>>, items: Seq<Seq<char>>, key: Seq<char>)
    requires
        sorted.to_multiset() == items.to_multiset(),
    ensures
        sorted.contains(key) <==> items.contains(key),
{
    broadcast use vstd::seq_lib::group_to_multiset_ensures;

    assert(sorted.contains(key) <==> sorted.to_multiset().count(key) > 0);
    assert(items.contains(key) <==> items.to_multiset().count(key) > 0);
}

fn stepped_frame(sheet: &Sheet, p: &str, forward: bool) -> (r: Result<String, StateError>)
    ensures
        match r {
            Ok(q) => sheet@.has_frame(p@) && q@ == step_from_path(
                spec_sorted_paths(frame_sources(sheet@.frames)),
                p@,
                forward,
            ).unwrap(),
            Err(e) => !sheet@.has_frame(p@) && e == StateError::FrameNotInDocument,
        },
{
    let sorted = sorted_paths(sheet.frame_sources_vec());
    proof {
        lemma_same_paths(sorted@.map_values(|s: String| s@), frame_sources(sheet@.frames), p@);
    }
    match step_in_sorted_paths(&sorted, p, forward) {
        Some(q) => Ok(q),
        None => Err(StateError::FrameNotInDocument),
    }
}

fn stepped_animation(sheet: &Sheet, n: &str, forward: bool) -> (r: Result<String, StateError>)
    ensures
        match r {
            Ok(q) => sheet@.has_animation(n@) && q@ == step_from(
                spec_sorted_names(animation_names(sheet@.animations)),
                n@,
                forward,
            ).unwrap(),
            Err(e) => !sheet@.has_animation(n@) && e == StateError::AnimationNotInDocument,
        },
        names_sorted(spec_sorted_names(animation_names(sheet@.animations))),
{
    let sorted = sorted_names(sheet.animation_names_vec());
    proof {
        lemma_same_items(sorted@.map_values(|s: String| s@), animation_names(sheet@.animations), n@);
    }
    match step_in_sorted(&sorted, n, forward) {
        Some(q) => Ok(q),
        None => Err(StateError::AnimationNotInDocument),
    }
}

fn stepped_hitbox(frame: &Frame, n: &str, forward: bool) -> (r: Result<String, StateError>)
    ensures
        match r {
            Ok(q) => frame@.has_hitbox(n@) && q@ == step_from(
                spec_sorted_names(hitbox_names(frame@.hitboxes)),
                n@,
                forward,
            ).unwrap(),
            Err(e) => !frame@.has_hitbox(n@) && e == StateError::InvalidHitboxIndex,
        },
        names_sorted(spec_sorted_names(hitbox_names(frame@.hitboxes))),
{
    let sorted = sorted_names(frame.hitbox_names_vec());
    proof {
        lemma_same_items(sorted@.map_values(|s: String| s@), hitbox_names(frame@.hitboxes), n@);
    }
    match step_in_sorted(&sorted, n, forward) {
        Some(q) => Ok(q),
        None => Err(StateError::InvalidHitboxIndex),
    }
}

impl Document {
    fn advance_selection(&mut self, forward: bool) -> (r: Result<(), StateError>)
        ensures
            applied(old(self)@, final(self)@, r, after_advance_selection(old(self)@.state, forward)),
            stepped_in_name_order(old(self)@.state),
    {
        let selection = match &self.view.selection {
            Some(Selection::Frame(p)) => Selection::Frame(stepped_frame(&self.sheet, p.as_str(), forward)?),
            Some(Selection::Animation(n)) => Selection::Animation(
                stepped_animation(&self.sheet, n.as_str(), forward)?,
            ),
            Some(Selection::Hitbox(p, n)) => {
                let frame = match self.sheet.get_frame(p.as_str()) {
                    Some(f) => f,
                    None => return Err(StateError::FrameNotInDocument),
                };
                Selection::Hitbox(p.clone(), stepped_hitbox(frame, n.as_str(), forward)?)
            },
            _ => return Ok(()),
        };
        self.view.selection = Some(selection);
        Ok(())
    }

    /// Selects the item before the selected one, in sorted order.
    pub fn select_previous(&mut self) -> (r: Result<(), StateError>)
        ensures
            applied(old(self)@, final(self)@, r, after_advance_selection(old(self)@.state, false)),
            stepped_in_name_order(old(self)@.state),
    {
        self.advance_selection(false)
    }

    /// Selects the item after the selected one, in sorted order.
    pub fn select_next(&mut self) -> (r: Result<(), StateError>)
        ensures
            applied(old(self)@, final(self)@, r, after_advance_selection(old(self)@.state, true)),
            stepped_in_name_order(old(self)@.state),
    {
        self.advance_selection(true)
    }
}

} // verus!
