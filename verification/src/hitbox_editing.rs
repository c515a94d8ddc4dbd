//! Creating, moving and resizing the hitboxes of the frame in the workbench.
//! Positions and distances are in whole sheet pixels.

use vstd::prelude::*;
use crate::document::{Document, EditState, with_state};
use crate::editing::{applied, fits_i32, offset_by, offset_fits, with_selection, with_sheet, with_transient, workbench_frame};
use crate::error::StateError;
use crate::names::{fresh_name, lemma_fresh_name};
use crate::sheet::{
    FrameModel, HitboxModel, Rectangle, Shape, Sheet, SheetModel, hitbox_names, new_hitbox_model,
};
use crate::transient::{ResizeAxis, TransientModel};
use crate::view::{Selection, SelectionModel};

verus! {

/// The hitbox named `name` of the frame showing `path`, or why there is none.
pub open spec fn hitbox_lookup(sheet: SheetModel, path: Seq<char>, name: Seq<char>) -> Result<
    HitboxModel,
    StateError,
> {
    if !sheet.has_frame(path) {
        Err(StateError::FrameNotInDocument)
    } else {
        let f = sheet.frames[sheet.frame_index(path)];
        if !f.has_hitbox(name) {
            Err(StateError::InvalidHitboxIndex)
        } else {
            Ok(f.hitboxes[f.hitbox_index(name)])
        }
    }
}

/// The sheet with the hitbox `name` of the frame `path` given the
/// rectangle `rect`.
pub open spec fn with_hitbox_rectangle(
    sheet: SheetModel,
    path: Seq<char>,
    name: Seq<char>,
    rect: Rectangle,
) -> SheetModel {
    let fi = sheet.frame_index(path);
    let f = sheet.frames[fi];
    let hi = f.hitbox_index(name);
    SheetModel {
        frames: sheet.frames.update(
            fi,
            FrameModel {
                hitboxes: f.hitboxes.update(
                    hi,
                    HitboxModel { geometry: Shape::Rectangle(rect), ..f.hitboxes[hi] },
                ),
                ..f
            },
        ),
        ..sheet
    }
}

impl Sheet {
    /// Gives the hitbox `name` of the frame `path` the rectangle `rect`.
    pub fn set_hitbox_rectangle(&mut self, path: &str, name: &str, rect: Rectangle) -> (r: Result<
        (),
        StateError,
    >)
        ensures
            match hitbox_lookup(old(self)@, path@, name@) {
                Err(e) => r == Err::<(), StateError>(e) && final(self)@ == old(self)@,
                Ok(_) => r is Ok && final(self)@ == with_hitbox_rectangle(
                    old(self)@,
                    path@,
                    name@,
                    rect,
                ),
            },
    {
        let i = match self.frame_position(path) {
            Some(i) => i,
            None => return Err(StateError::FrameNotInDocument),
        };
        let j = match self.frames[i].hitbox_position(name) {
            Some(j) => j,
            None => return Err(StateError::InvalidHitboxIndex),
        };
        let frame = &mut self.frames[i];
        let hitbox = &mut frame.hitboxes[j];
        hitbox.geometry = Shape::Rectangle(rect);
        let ghost f = old(self)@.frames[i as int];
        assert(frame@.hitboxes =~= f.hitboxes.update(
            j as int,
            HitboxModel { geometry: Shape::Rectangle(rect), ..f.hitboxes[j as int] },
        ));
        assert(self@.frames =~= old(self)@.frames.update(i as int, frame@));
        Ok(())
    }
}

// ---------------------------------------------------------------------------
// Resizing
// ---------------------------------------------------------------------------

/// The two corners of a hitbox being resized by the handle `axis`: the one
/// that stays put, and the one that the handle moved by `d`. The hitbox
/// started at `origin` with `size`.
pub open spec fn scale_points(axis: ResizeAxis, origin: (i32, i32), size: (u32, u32), d: (i32, i32)) -> (
    (int, int),
    (int, int),
) {
    let x0 = origin.0 as int;
    let y0 = origin.1 as int;
    let x1 = x0 + size.0;
    let y1 = y0 + size.1;
    match axis {
        ResizeAxis::NW => ((x1, y1), (x0 + d.0, y0 + d.1)),
        ResizeAxis::NE => ((x0, y1), (x1 + d.0, y0 + d.1)),
        ResizeAxis::SW => ((x1, y0), (x0 + d.0, y1 + d.1)),
        ResizeAxis::SE => ((x0, y0), (x1 + d.0, y1 + d.1)),
        ResizeAxis::N => ((x0, y1), (x1, y0 + d.1)),
        ResizeAxis::W => ((x1, y0), (x0 + d.0, y1)),
        ResizeAxis::S => ((x0, y0), (x1, y1 + d.1)),
        ResizeAxis::E => ((x0, y0), (x1 + d.0, y1)),
    }
}

pub open spec fn min_int(a: int, b: int) -> int {
    if a <= b {
        a
    } else {
        b
    }
}

pub open spec fn max_int(a: int, b: int) -> int {
    if a <= b {
        b
    } else {
        a
    }
}

/// The smallest rectangle that holds both points.
pub open spec fn rect_from_points(p: (int, int), q: (int, int)) -> Rectangle {
    Rectangle {
        top_left: (min_int(p.0, q.0) as i32, min_int(p.1, q.1) as i32),
        size: ((max_int(p.0, q.0) - min_int(p.0, q.0)) as u32, (max_int(p.1, q.1) - min_int(
            p.1,
            q.1,
        )) as u32),
    }
}

/// Whether every coordinate and extent met while resizing fits in an `i32`.
pub open spec fn scale_fits(axis: ResizeAxis, origin: (i32, i32), size: (u32, u32), d: (i32, i32)) -> bool {
    let (p, q) = scale_points(axis, origin, size, d);
    &&& size.0 <= i32::MAX && size.1 <= i32::MAX
    &&& fits_i32(origin.0 + size.0) && fits_i32(origin.1 + size.1)
    &&& fits_i32(p.0) && fits_i32(p.1) && fits_i32(q.0) && fits_i32(q.1)
    &&& fits_i32(max_int(p.0, q.0) - min_int(p.0, q.0))
    &&& fits_i32(max_int(p.1, q.1) - min_int(p.1, q.1))
}

/// The rectangle of a hitbox resized by the handle `axis` dragged by `d`.
pub open spec fn scaled_rectangle(axis: ResizeAxis, origin: (i32, i32), size: (u32, u32), d: (i32, i32)) -> Rectangle {
    let (p, q) = scale_points(axis, origin, size, d);
    rect_from_points(p, q)
}

fn min_max(a: i64, b: i64) -> (r: (i64, i64))
    ensures
        r.0 == min_int(a as int, b as int),
        r.1 == max_int(a as int, b as int),
{
    if a <= b {
        (a, b)
    } else {
        (b, a)
    }
}

/// Computes `scaled_rectangle`.
pub fn scale_rectangle(axis: ResizeAxis, origin: (i32, i32), size: (u32, u32), d: (i32, i32)) -> (r:
    Rectangle)
    requires
        scale_fits(axis, origin, size, d),
    ensures
        r == scaled_rectangle(axis, origin, size, d),
{
    let x0 = origin.0 as i64;
    let y0 = origin.1 as i64;
    let x1 = x0 + size.0 as i64;
    let y1 = y0 + size.1 as i64;
    let dx = d.0 as i64;
    let dy = d.1 as i64;
    let (p, q): ((i64, i64), (i64, i64)) = match axis {
        ResizeAxis::NW => ((x1, y1), (x0 + dx, y0 + dy)),
        ResizeAxis::NE => ((x0, y1), (x1 + dx, y0 + dy)),
        ResizeAxis::SW => ((x1, y0), (x0 + dx, y1 + dy)),
        ResizeAxis::SE => ((x0, y0), (x1 + dx, y1 + dy)),
        ResizeAxis::N => ((x0, y1), (x1, y0 + dy)),
        ResizeAxis::W => ((x1, y0), (x0 + dx, y1)),
        ResizeAxis::S => ((x0, y0), (x1, y1 + dy)),
        ResizeAxis::E => ((x0, y0), (x1 + dx, y1)),
    };
    let (min_x, max_x) = min_max(p.0, q.0);
    let (min_y, max_y) = min_max(p.1, q.1);
    Rectangle {
        top_left: (min_x as i32, min_y as i32),
        size: ((max_x - min_x) as u32, (max_y - min_y) as u32),
    }
}

/// Beginning to resize the hitbox `name` of the frame in the workbench by
/// the handle `axis`.
pub open spec fn after_begin_hitbox_scale(s: EditState, name: Seq<char>, axis: ResizeAxis) -> Result<
    EditState,
    StateError,
> {
    match workbench_frame(s) {
        None => Err(StateError::NotEditingAnyFrame),
        Some(p) => match hitbox_lookup(s.sheet, p, name) {
            Err(e) => Err(e),
            Ok(h) => Ok(
                with_transient(
                    s,
                    TransientModel {
                        workbench_hitbox_being_scaled: Some(name),
                        workbench_hitbox_scale_axis: axis,
                        workbench_hitbox_scale_initial_position: h.rectangle().top_left,
                        workbench_hitbox_scale_initial_size: h.rectangle().size,
                        ..s.transient
                    },
                ),
            ),
        },
    }
}

/// Whether resizing by `d` stays within the coordinates that a hitbox can
/// have.
pub open spec fn hitbox_scale_fits(s: EditState, d: (i32, i32)) -> bool {
    workbench_frame(s) is Some ==> scale_fits(
        s.transient.workbench_hitbox_scale_axis,
        s.transient.workbench_hitbox_scale_initial_position,
        s.transient.workbench_hitbox_scale_initial_size,
        d,
    )
}

/// Resizing the hitbox being resized: its handle has been dragged by `d`
/// from where the resize began.
pub open spec fn after_update_hitbox_scale(s: EditState, d: (i32, i32)) -> Result<EditState, StateError> {
    match workbench_frame(s) {
        None => Err(StateError::NotEditingAnyFrame),
        Some(p) => match s.transient.workbench_hitbox_being_scaled {
            None => Err(StateError::NotDraggingAHitbox),
            Some(name) => match hitbox_lookup(s.sheet, p, name) {
                Err(e) => Err(e),
                Ok(_) => Ok(
                    with_sheet(
                        s,
                        with_hitbox_rectangle(
                            s.sheet,
                            p,
                            name,
                            scaled_rectangle(
                                s.transient.workbench_hitbox_scale_axis,
                                s.transient.workbench_hitbox_scale_initial_position,
                                s.transient.workbench_hitbox_scale_initial_size,
                                d,
                            ),
                        ),
                    ),
                ),
            },
        },
    }
}

/// The interaction state once no hitbox is being resized.
pub open spec fn scale_reset(t: TransientModel) -> TransientModel {
    TransientModel {
        workbench_hitbox_scale_axis: ResizeAxis::N,
        workbench_hitbox_scale_initial_position: (0, 0),
        workbench_hitbox_scale_initial_size: (0, 0),
        workbench_hitbox_being_scaled: None,
        ..t
    }
}

/// Ending a resize: the resized hitbox becomes the selection.
pub open spec fn after_end_hitbox_scale(s: EditState) -> Result<EditState, StateError> {
    match s.transient.workbench_hitbox_being_scaled {
        None => Ok(with_transient(s, scale_reset(s.transient))),
        Some(name) => match crate::editing::after_select_hitbox(s, name) {
            Err(e) => Err(e),
            Ok(s2) => Ok(with_transient(s2, scale_reset(s2.transient))),
        },
    }
}

/// Creating a hitbox in the frame in the workbench, with its corner at
/// `position`: it gets a fresh name, is selected, and is being resized from
/// its bottom-right corner.
pub open spec fn after_create_hitbox(s: EditState, position: (i32, i32)) -> Result<
    EditState,
    StateError,
> {
    match workbench_frame(s) {
        None => Err(StateError::NotEditingAnyFrame),
        Some(p) => if !s.sheet.has_frame(p) {
            Err(StateError::FrameNotInDocument)
        } else {
            let fi = s.sheet.frame_index(p);
            let f = s.sheet.frames[fi];
            let name = fresh_name(hitbox_names(f.hitboxes), "New Hitbox"@);
            let hitbox = HitboxModel {
                name,
                geometry: Shape::Rectangle(Rectangle { top_left: position, size: (0, 0) }),
            };
            let sheet = SheetModel {
                frames: s.sheet.frames.update(fi, FrameModel { hitboxes: f.hitboxes.push(hitbox), ..f }),
                ..s.sheet
            };
            Ok(
                EditState {
                    sheet,
                    view: crate::view::DocumentViewModel {
                        selection: Some(SelectionModel::Hitbox(p, name)),
                        ..s.view
                    },
                    transient: TransientModel {
                        workbench_hitbox_being_scaled: Some(name),
                        workbench_hitbox_scale_axis: ResizeAxis::SE,
                        workbench_hitbox_scale_initial_position: position,
                        workbench_hitbox_scale_initial_size: (0, 0),
                        ..s.transient
                    },
                    ..s
                },
            )
        },
    }
}

// ---------------------------------------------------------------------------
// Moving
// ---------------------------------------------------------------------------

/// Beginning to move the hitbox `name` of the frame in the workbench: it
/// becomes the selection.
pub open spec fn after_begin_hitbox_drag(s: EditState, name: Seq<char>) -> Result<
    EditState,
    StateError,
> {
    match workbench_frame(s) {
        None => Err(StateError::NotEditingAnyFrame),
        Some(p) => match hitbox_lookup(s.sheet, p, name) {
            Err(e) => Err(e),
            Ok(h) => Ok(
                with_selection(
                    with_transient(
                        s,
                        TransientModel {
                            workbench_hitbox_being_dragged: Some(name),
                            workbench_hitbox_drag_initial_offset: h.rectangle().top_left,
                            ..s.transient
                        },
                    ),
                    Some(SelectionModel::Hitbox(p, name)),
                ),
            ),
        },
    }
}

/// Moving the hitbox being dragged by `d` from where the drag began.
pub open spec fn after_update_hitbox_drag(s: EditState, d: (i32, i32)) -> Result<EditState, StateError> {
    match workbench_frame(s) {
        None => Err(StateError::NotEditingAnyFrame),
        Some(p) => match s.transient.workbench_hitbox_being_dragged {
            None => Err(StateError::NotDraggingAHitbox),
            Some(name) => match hitbox_lookup(s.sheet, p, name) {
                Err(e) => Err(e),
                Ok(h) => Ok(
                    with_sheet(
                        s,
                        with_hitbox_rectangle(
                            s.sheet,
                            p,
                            name,
                            Rectangle {
                                top_left: offset_by(s.transient.workbench_hitbox_drag_initial_offset, d),
                                ..h.rectangle()
                            },
                        ),
                    ),
                ),
            },
        },
    }
}

pub open spec fn after_end_hitbox_drag(s: EditState) -> EditState {
    with_transient(
        s,
        TransientModel {
            workbench_hitbox_drag_initial_offset: (0, 0),
            workbench_hitbox_being_dragged: None,
            ..s.transient
        },
    )
}

impl Document {
    pub fn begin_hitbox_scale(&mut self, hitbox_name: &str, axis: ResizeAxis) -> (r: Result<
        (),
        StateError,
    >)
        ensures
            applied(
                old(self)@,
                final(self)@,
                r,
                after_begin_hitbox_scale(old(self)@.state, hitbox_name@, axis),
            ),
    {
        let path = match self.workbench_frame_path() {
            Some(p) => p,
            None => return Err(StateError::NotEditingAnyFrame),
        };
        let frame = match self.sheet.get_frame(path.as_str()) {
            Some(f) => f,
            None => return Err(StateError::FrameNotInDocument),
        };
        let hitbox = match frame.get_hitbox(hitbox_name) {
            Some(h) => h,
            None => return Err(StateError::InvalidHitboxIndex),
        };
        let position = hitbox.get_position();
        let size = hitbox.get_size();
        self.transient.workbench_hitbox_being_scaled = Some(hitbox_name.to_owned());
        self.transient.workbench_hitbox_scale_axis = axis;
        self.transient.workbench_hitbox_scale_initial_position = position;
        self.transient.workbench_hitbox_scale_initial_size = size;
        Ok(())
    }

    pub fn update_hitbox_scale(&mut self, delta: (i32, i32)) -> (r: Result<(), StateError>)
        requires
            hitbox_scale_fits(old(self)@.state, delta),
        ensures
            applied(old(self)@, final(self)@, r, after_update_hitbox_scale(old(self)@.state, delta)),
    {
        let path = match self.workbench_frame_path() {
            Some(p) => p,
            None => return Err(StateError::NotEditingAnyFrame),
        };
        let rect = scale_rectangle(
            self.transient.workbench_hitbox_scale_axis,
            self.transient.workbench_hitbox_scale_initial_position,
            self.transient.workbench_hitbox_scale_initial_size,
            delta,
        );
        let name = match &self.transient.workbench_hitbox_being_scaled {
            Some(n) => n.clone(),
            None => return Err(StateError::NotDraggingAHitbox),
        };
        self.sheet.set_hitbox_rectangle(path.as_str(), name.as_str(), rect)
    }

    pub fn end_hitbox_scale(&mut self) -> (r: Result<(), StateError>)
        ensures
            applied(old(self)@, final(self)@, r, after_end_hitbox_scale(old(self)@.state)),
    {
        if let Some(name) = &self.transient.workbench_hitbox_being_scaled {
            let name = name.clone();
            self.select_hitbox(name.as_str())?;
        }
        self.transient.workbench_hitbox_scale_axis = ResizeAxis::N;
        self.transient.workbench_hitbox_scale_initial_position = (0, 0);
        self.transient.workbench_hitbox_scale_initial_size = (0, 0);
        self.transient.workbench_hitbox_being_scaled = None;
        Ok(())
    }

    pub fn create_hitbox(&mut self, position: (i32, i32)) -> (r: Result<(), StateError>)
        requires
            forall|i: int|
                0 <= i < old(self).sheet.frames.len() ==> #[trigger] old(self).sheet.frames@[i].hitboxes.len()
                    < usize::MAX,
        ensures
            applied(old(self)@, final(self)@, r, after_create_hitbox(old(self)@.state, position)),
    {
        let path = match self.workbench_frame_path() {
            Some(p) => p,
            None => return Err(StateError::NotEditingAnyFrame),
        };
        let i = match self.sheet.frame_position(path.as_str()) {
            Some(i) => i,
            None => return Err(StateError::FrameNotInDocument),
        };
        let ghost f = self@.state.sheet.frames[i as int];
        let ghost names = hitbox_names(f.hitboxes);
        assert(self.sheet.frames@[i as int].hitboxes.len() < usize::MAX);
        let frame = &mut self.sheet.frames[i];
        let hitbox = frame.add_hitbox();
        hitbox.set_position(position);
        let name = hitbox.name.clone();
        proof {
            let k = choose|k: int|
                crate::names::is_first_free_name(names, "New Hitbox"@, k) && new_hitbox_model(
                    crate::names::numbered_name("New Hitbox"@, k),
                ).name == name@;
            lemma_fresh_name(names, "New Hitbox"@, k);
        }
        let ghost hitbox_model = HitboxModel {
            name: name@,
            geometry: Shape::Rectangle(Rectangle { top_left: position, size: (0, 0) }),
        };
        assert(frame@.hitboxes =~= f.hitboxes.push(hitbox_model));
        assert(self@.state.sheet.frames =~= old(self)@.state.sheet.frames.update(
            i as int,
            FrameModel { hitboxes: f.hitboxes.push(hitbox_model), ..f },
        ));
        self.transient.workbench_hitbox_being_scaled = Some(name.clone());
        self.transient.workbench_hitbox_scale_axis = ResizeAxis::SE;
        self.transient.workbench_hitbox_scale_initial_position = position;
        self.transient.workbench_hitbox_scale_initial_size = (0, 0);
        self.view.selection = Some(Selection::Hitbox(path, name));
        Ok(())
    }

    pub fn begin_hitbox_drag(&mut self, hitbox_name: &str) -> (r: Result<(), StateError>)
        ensures
            applied(
                old(self)@,
                final(self)@,
                r,
                after_begin_hitbox_drag(old(self)@.state, hitbox_name@),
            ),
    {
        let path = match self.workbench_frame_path() {
            Some(p) => p,
            None => return Err(StateError::NotEditingAnyFrame),
        };
        let frame = match self.sheet.get_frame(path.as_str()) {
            Some(f) => f,
            None => return Err(StateError::FrameNotInDocument),
        };
        let hitbox = match frame.get_hitbox(hitbox_name) {
            Some(h) => h,
            None => return Err(StateError::InvalidHitboxIndex),
        };
        let position = hitbox.get_position();
        self.transient.workbench_hitbox_being_dragged = Some(hitbox_name.to_owned());
        self.transient.workbench_hitbox_drag_initial_offset = position;
        self.view.selection = Some(Selection::Hitbox(path, hitbox_name.to_owned()));
        Ok(())
    }

    pub fn update_hitbox_drag(&mut self, delta: (i32, i32)) -> (r: Result<(), StateError>)
        requires
            offset_fits(old(self).transient.workbench_hitbox_drag_initial_offset, delta),
        ensures
            applied(old(self)@, final(self)@, r, after_update_hitbox_drag(old(self)@.state, delta)),
    {
        let path = match self.workbench_frame_path() {
            Some(p) => p,
            None => return Err(StateError::NotEditingAnyFrame),
        };
        let name = match &self.transient.workbench_hitbox_being_dragged {
            Some(n) => n.clone(),
            None => return Err(StateError::NotDraggingAHitbox),
        };
        let new_position = crate::editing::add_offsets(
            self.transient.workbench_hitbox_drag_initial_offset,
            delta,
        );
        let size = match self.sheet.get_frame(path.as_str()) {
            Some(f) => match f.get_hitbox(name.as_str()) {
                Some(h) => h.get_size(),
                None => return Err(StateError::InvalidHitboxIndex),
            },
            None => return Err(StateError::FrameNotInDocument),
        };
        self.sheet.set_hitbox_rectangle(
            path.as_str(),
            name.as_str(),
            Rectangle { top_left: new_position, size },
        )
    }

    pub fn end_hitbox_drag(&mut self)
        ensures
            final(self)@ == with_state(old(self)@, after_end_hitbox_drag(old(self)@.state)),
    {
        self.transient.workbench_hitbox_drag_initial_offset = (0, 0);
        self.transient.workbench_hitbox_being_dragged = None;
    }
}

} // verus!
