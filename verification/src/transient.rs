//! Interactions in progress (drags, renames, scrubbing). While one is under
//! way, the undo history does not record changes.

use vstd::prelude::*;
use crate::command::DocumentCommand;

verus! {

/// The handle by which a hitbox is being resized.
#[derive(Clone, Copy, Debug, PartialEq, Eq, Structural)]
pub enum ResizeAxis {
    N,
    S,
    W,
    E,
    NW,
    NE,
    SE,
    SW,
}

impl ResizeAxis {
    /// The axis that a fresh interaction starts from.
    pub fn default() -> (r: ResizeAxis)
        ensures
            r == ResizeAxis::N,
    {
        ResizeAxis::N
    }

    /// Whether the handle is a corner.
    pub fn is_diagonal(self) -> (r: bool)
        ensures
            r == (self == ResizeAxis::NW || self == ResizeAxis::NE || self == ResizeAxis::SW || self
                == ResizeAxis::SE),
    {
        self == ResizeAxis::NW || self == ResizeAxis::NE || self == ResizeAxis::SW || self
            == ResizeAxis::SE
    }
}

/// The item whose name is being edited.
#[derive(Debug)]
pub enum RenameItem {
    Animation(String),
    /// A hitbox: the path of its frame, and its name.
    Hitbox(String, String),
}

pub enum RenameItemModel {
    Animation(Seq<char>),
    Hitbox(Seq<char>, Seq<char>),
}

impl View for RenameItem {
    type V = RenameItemModel;

    open spec fn view(&self) -> RenameItemModel {
        match self {
            RenameItem::Animation(n) => RenameItemModel::Animation(n@),
            RenameItem::Hitbox(p, n) => RenameItemModel::Hitbox(p@, n@),
        }
    }
}

impl Clone for RenameItem {
    fn clone(&self) -> (r: Self)
        ensures
            r@ == self@,
    {
        match self {
            RenameItem::Animation(n) => RenameItem::Animation(n.clone()),
            RenameItem::Hitbox(p, n) => RenameItem::Hitbox(p.clone(), n.clone()),
        }
    }
}

/// The interactions under way in a document.
#[derive(Debug)]
pub struct Transient {
    pub content_frame_being_dragged: Option<String>,
    pub item_being_renamed: Option<RenameItem>,
    pub rename_buffer: Option<String>,
    pub timeline_frame_being_scaled: Option<usize>,
    pub timeline_frame_scale_initial_duration: u32,
    /// The timeline's clock when the resize began, in nanoseconds.
    pub timeline_frame_scale_initial_clock: u128,
    pub timeline_frame_being_dragged: Option<usize>,
    pub timeline_scrubbing: bool,
    pub workbench_animation_frame_being_dragged: Option<usize>,
    pub workbench_animation_frame_drag_initial_offset: (i32, i32),
    pub workbench_hitbox_being_dragged: Option<String>,
    pub workbench_hitbox_drag_initial_offset: (i32, i32),
    pub workbench_hitbox_being_scaled: Option<String>,
    pub workbench_hitbox_scale_axis: ResizeAxis,
    pub workbench_hitbox_scale_initial_position: (i32, i32),
    pub workbench_hitbox_scale_initial_size: (u32, u32),
}

pub struct TransientModel {
    pub content_frame_being_dragged: Option<Seq<char>>,
    pub item_being_renamed: Option<RenameItemModel>,
    pub rename_buffer: Option<Seq<char>>,
    pub timeline_frame_being_scaled: Option<usize>,
    pub timeline_frame_scale_initial_duration: u32,
    pub timeline_frame_scale_initial_clock: u128,
    pub timeline_frame_being_dragged: Option<usize>,
    pub timeline_scrubbing: bool,
    pub workbench_animation_frame_being_dragged: Option<usize>,
    pub workbench_animation_frame_drag_initial_offset: (i32, i32),
    pub workbench_hitbox_being_dragged: Option<Seq<char>>,
    pub workbench_hitbox_drag_initial_offset: (i32, i32),
    pub workbench_hitbox_being_scaled: Option<Seq<char>>,
    pub workbench_hitbox_scale_axis: ResizeAxis,
    pub workbench_hitbox_scale_initial_position: (i32, i32),
    pub workbench_hitbox_scale_initial_size: (u32, u32),
}

pub open spec fn string_option_model(s: Option<String>) -> Option<Seq<char>> {
    match s {
        Some(s) => Some(s@),
        None => None,
    }
}

pub open spec fn rename_item_model(r: Option<RenameItem>) -> Option<RenameItemModel> {
    match r {
        Some(r) => Some(r@),
        None => None,
    }
}

impl View for Transient {
    type V = TransientModel;

    open spec fn view(&self) -> TransientModel {
        TransientModel {
            content_frame_being_dragged: string_option_model(self.content_frame_being_dragged),
            item_being_renamed: rename_item_model(self.item_being_renamed),
            rename_buffer: string_option_model(self.rename_buffer),
            timeline_frame_being_scaled: self.timeline_frame_being_scaled,
            timeline_frame_scale_initial_duration: self.timeline_frame_scale_initial_duration,
            timeline_frame_scale_initial_clock: self.timeline_frame_scale_initial_clock,
            timeline_frame_being_dragged: self.timeline_frame_being_dragged,
            timeline_scrubbing: self.timeline_scrubbing,
            workbench_animation_frame_being_dragged: self.workbench_animation_frame_being_dragged,
            workbench_animation_frame_drag_initial_offset: self.workbench_animation_frame_drag_initial_offset,
            workbench_hitbox_being_dragged: string_option_model(self.workbench_hitbox_being_dragged),
            workbench_hitbox_drag_initial_offset: self.workbench_hitbox_drag_initial_offset,
            workbench_hitbox_being_scaled: string_option_model(self.workbench_hitbox_being_scaled),
            workbench_hitbox_scale_axis: self.workbench_hitbox_scale_axis,
            workbench_hitbox_scale_initial_position: self.workbench_hitbox_scale_initial_position,
            workbench_hitbox_scale_initial_size: self.workbench_hitbox_scale_initial_size,
        }
    }
}

/// No interaction under way.
pub open spec fn idle_transient() -> TransientModel {
    TransientModel {
        content_frame_being_dragged: None,
        item_being_renamed: None,
        rename_buffer: None,
        timeline_frame_being_scaled: None,
        timeline_frame_scale_initial_duration: 0,
        timeline_frame_scale_initial_clock: 0,
        timeline_frame_being_dragged: None,
        timeline_scrubbing: false,
        workbench_animation_frame_being_dragged: None,
        workbench_animation_frame_drag_initial_offset: (0, 0),
        workbench_hitbox_being_dragged: None,
        workbench_hitbox_drag_initial_offset: (0, 0),
        workbench_hitbox_being_scaled: None,
        workbench_hitbox_scale_axis: ResizeAxis::N,
        workbench_hitbox_scale_initial_position: (0, 0),
        workbench_hitbox_scale_initial_size: (0, 0),
    }
}

fn clone_string_option(s: &Option<String>) -> (r: Option<String>)
    ensures
        string_option_model(r) == string_option_model(*s),
{
    match s {
        Some(s) => Some(s.clone()),
        None => None,
    }
}

impl Clone for Transient {
    fn clone(&self) -> (r: Self)
        ensures
            r@ == self@,
    {
        Transient {
            content_frame_being_dragged: clone_string_option(&self.content_frame_being_dragged),
            item_being_renamed: match &self.item_being_renamed {
                Some(i) => Some(i.clone()),
                None => None,
            },
            rename_buffer: clone_string_option(&self.rename_buffer),
            timeline_frame_being_scaled: self.timeline_frame_being_scaled,
            timeline_frame_scale_initial_duration: self.timeline_frame_scale_initial_duration,
            timeline_frame_scale_initial_clock: self.timeline_frame_scale_initial_clock,
            timeline_frame_being_dragged: self.timeline_frame_being_dragged,
            timeline_scrubbing: self.timeline_scrubbing,
            workbench_animation_frame_being_dragged: self.workbench_animation_frame_being_dragged,
            workbench_animation_frame_drag_initial_offset: self.workbench_animation_frame_drag_initial_offset,
            workbench_hitbox_being_dragged: clone_string_option(&self.workbench_hitbox_being_dragged),
            workbench_hitbox_drag_initial_offset: self.workbench_hitbox_drag_initial_offset,
            workbench_hitbox_being_scaled: clone_string_option(&self.workbench_hitbox_being_scaled),
            workbench_hitbox_scale_axis: self.workbench_hitbox_scale_axis,
            workbench_hitbox_scale_initial_position: self.workbench_hitbox_scale_initial_position,
            workbench_hitbox_scale_initial_size: self.workbench_hitbox_scale_initial_size,
        }
    }
}

impl Transient {
    /// No interaction under way.
    pub fn new() -> (r: Transient)
        ensures
            r@ == idle_transient(),
    {
        Transient {
            content_frame_being_dragged: None,
            item_being_renamed: None,
            rename_buffer: None,
            timeline_frame_being_scaled: None,
            timeline_frame_scale_initial_duration: 0,
            timeline_frame_scale_initial_clock: 0,
            timeline_frame_being_dragged: None,
            timeline_scrubbing: false,
            workbench_animation_frame_being_dragged: None,
            workbench_animation_frame_drag_initial_offset: (0, 0),
            workbench_hitbox_being_dragged: None,
            workbench_hitbox_drag_initial_offset: (0, 0),
            workbench_hitbox_being_scaled: None,
            workbench_hitbox_scale_axis: ResizeAxis::N,
            workbench_hitbox_scale_initial_position: (0, 0),
            workbench_hitbox_scale_initial_size: (0, 0),
        }
    }

    /// Whether no interaction is under way.
    pub fn is_idle(&self) -> (r: bool)
        ensures
            r == (self@ == idle_transient()),
    {
        self.content_frame_being_dragged.is_none() && self.item_being_renamed.is_none()
            && self.rename_buffer.is_none() && self.timeline_frame_being_scaled.is_none()
            && self.timeline_frame_scale_initial_duration == 0
            && self.timeline_frame_scale_initial_clock == 0
            && self.timeline_frame_being_dragged.is_none() && !self.timeline_scrubbing
            && self.workbench_animation_frame_being_dragged.is_none()
            && self.workbench_animation_frame_drag_initial_offset.0 == 0
            && self.workbench_animation_frame_drag_initial_offset.1 == 0
            && self.workbench_hitbox_being_dragged.is_none()
            && self.workbench_hitbox_drag_initial_offset.0 == 0
            && self.workbench_hitbox_drag_initial_offset.1 == 0
            && self.workbench_hitbox_being_scaled.is_none() && self.workbench_hitbox_scale_axis
            == ResizeAxis::N && self.workbench_hitbox_scale_initial_position.0 == 0
            && self.workbench_hitbox_scale_initial_position.1 == 0
            && self.workbench_hitbox_scale_initial_size.0 == 0
            && self.workbench_hitbox_scale_initial_size.1 == 0
    }
}

/// Whether a command belongs to an interaction under way (a drag, a
/// scrub, a rename) rather than standing on its own.
pub open spec fn is_transient(command: DocumentCommand) -> bool {
    match command {
        DocumentCommand::BeginFrameDrag(_) | DocumentCommand::BeginAnimationFrameDurationDrag(_)
        | DocumentCommand::UpdateAnimationFrameDurationDrag(_)
        | DocumentCommand::BeginAnimationFrameDrag(_)
        | DocumentCommand::BeginAnimationFrameOffsetDrag(_)
        | DocumentCommand::UpdateAnimationFrameOffsetDrag(_) | DocumentCommand::BeginHitboxScale(_, _)
        | DocumentCommand::UpdateHitboxScale(_) | DocumentCommand::BeginHitboxDrag(_)
        | DocumentCommand::UpdateHitboxDrag(_) | DocumentCommand::BeginScrub
        | DocumentCommand::UpdateScrub(_) | DocumentCommand::BeginRenameSelection
        | DocumentCommand::UpdateRenameSelection(_) => true,
        _ => false,
    }
}

impl Transient {
    /// Whether a command belongs to an interaction under way.
    pub fn is_transient_command(command: &DocumentCommand) -> (r: bool)
        ensures
            r == is_transient(*command),
    {
        match command {
            DocumentCommand::BeginFrameDrag(_) | DocumentCommand::BeginAnimationFrameDurationDrag(_)
            | DocumentCommand::UpdateAnimationFrameDurationDrag(_)
            | DocumentCommand::BeginAnimationFrameDrag(_)
            | DocumentCommand::BeginAnimationFrameOffsetDrag(_)
            | DocumentCommand::UpdateAnimationFrameOffsetDrag(_)
            | DocumentCommand::BeginHitboxScale(_, _) | DocumentCommand::UpdateHitboxScale(_)
            | DocumentCommand::BeginHitboxDrag(_) | DocumentCommand::UpdateHitboxDrag(_)
            | DocumentCommand::BeginScrub | DocumentCommand::UpdateScrub(_)
            | DocumentCommand::BeginRenameSelection | DocumentCommand::UpdateRenameSelection(_) => true,
            _ => false,
        }
    }
}

} // verus!
