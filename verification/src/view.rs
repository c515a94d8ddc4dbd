//! What the editor shows of a document: the content tab, the selection, the
//! item in the workbench, zoom levels and the timeline's clock.

use vstd::prelude::*;

verus! {

/// The tab of the content panel.
#[derive(Clone, Copy, Debug, PartialEq, Eq, Structural)]
pub enum ContentTab {
    Frames,
    Animations,
}

/// The selected item.
#[derive(Debug)]
pub enum Selection {
    /// A frame, by path.
    Frame(String),
    /// An animation, by name.
    Animation(String),
    /// A hitbox: the path of its frame, and its name.
    Hitbox(String, String),
    /// An animation frame: the animation's name and the frame's position.
    AnimationFrame(String, usize),
}

/// The item being edited in the workbench.
#[derive(Debug)]
pub enum WorkbenchItem {
    Frame(String),
    Animation(String),
}

/// What the editor shows of a document.
#[derive(Debug)]
pub struct DocumentView {
    pub content_tab: ContentTab,
    pub selection: Option<Selection>,
    pub workbench_item: Option<WorkbenchItem>,
    /// How far the workbench is panned, in whole screen pixels.
    pub workbench_offset: (i32, i32),
    /// The playhead's position in the timeline, in nanoseconds.
    pub timeline_clock: u128,
    pub workbench_zoom_level: i32,
    pub timeline_zoom_level: i32,
}

pub enum SelectionModel {
    Frame(Seq<char>),
    Animation(Seq<char>),
    Hitbox(Seq<char>, Seq<char>),
    AnimationFrame(Seq<char>, usize),
}

pub enum WorkbenchItemModel {
    Frame(Seq<char>),
    Animation(Seq<char>),
}

pub struct DocumentViewModel {
    pub content_tab: ContentTab,
    pub selection: Option<SelectionModel>,
    pub workbench_item: Option<WorkbenchItemModel>,
    pub workbench_offset: (i32, i32),
    pub timeline_clock: u128,
    pub workbench_zoom_level: i32,
    pub timeline_zoom_level: i32,
}

impl View for Selection {
    type V = SelectionModel;

    open spec fn view(&self) -> SelectionModel {
        match self {
            Selection::Frame(p) => SelectionModel::Frame(p@),
            Selection::Animation(n) => SelectionModel::Animation(n@),
            Selection::Hitbox(p, n) => SelectionModel::Hitbox(p@, n@),
            Selection::AnimationFrame(n, i) => SelectionModel::AnimationFrame(n@, *i),
        }
    }
}

impl View for WorkbenchItem {
    type V = WorkbenchItemModel;

    open spec fn view(&self) -> WorkbenchItemModel {
        match self {
            WorkbenchItem::Frame(p) => WorkbenchItemModel::Frame(p@),
            WorkbenchItem::Animation(n) => WorkbenchItemModel::Animation(n@),
        }
    }
}

pub open spec fn selection_model(s: Option<Selection>) -> Option<SelectionModel> {
    match s {
        Some(s) => Some(s@),
        None => None,
    }
}

pub open spec fn workbench_item_model(w: Option<WorkbenchItem>) -> Option<WorkbenchItemModel> {
    match w {
        Some(w) => Some(w@),
        None => None,
    }
}

impl View for DocumentView {
    type V = DocumentViewModel;

    open spec fn view(&self) -> DocumentViewModel {
        DocumentViewModel {
            content_tab: self.content_tab,
            selection: selection_model(self.selection),
            workbench_item: workbench_item_model(self.workbench_item),
            workbench_offset: self.workbench_offset,
            timeline_clock: self.timeline_clock,
            workbench_zoom_level: self.workbench_zoom_level,
            timeline_zoom_level: self.timeline_zoom_level,
        }
    }
}

impl Clone for Selection {
    fn clone(&self) -> (r: Self)
        ensures
            r@ == self@,
    {
        match self {
            Selection::Frame(p) => Selection::Frame(p.clone()),
            Selection::Animation(n) => Selection::Animation(n.clone()),
            Selection::Hitbox(p, n) => Selection::Hitbox(p.clone(), n.clone()),
            Selection::AnimationFrame(n, i) => Selection::AnimationFrame(n.clone(), *i),
        }
    }
}

impl Clone for WorkbenchItem {
    fn clone(&self) -> (r: Self)
        ensures
            r@ == self@,
    {
        match self {
            WorkbenchItem::Frame(p) => WorkbenchItem::Frame(p.clone()),
            WorkbenchItem::Animation(n) => WorkbenchItem::Animation(n.clone()),
        }
    }
}

impl Clone for DocumentView {
    fn clone(&self) -> (r: Self)
        ensures
            r@ == self@,
    {
        DocumentView {
            content_tab: self.content_tab,
            selection: match &self.selection {
                Some(s) => Some(s.clone()),
                None => None,
            },
            workbench_item: match &self.workbench_item {
                Some(w) => Some(w.clone()),
                None => None,
            },
            workbench_offset: self.workbench_offset,
            timeline_clock: self.timeline_clock,
            workbench_zoom_level: self.workbench_zoom_level,
            timeline_zoom_level: self.timeline_zoom_level,
        }
    }
}

impl Selection {
    /// Whether `self` and `other` select the same item.
    pub fn same_as(&self, other: &Selection) -> (r: bool)
        ensures
            r == (self@ == other@),
    {
        match (self, other) {
            (Selection::Frame(a), Selection::Frame(b)) => *a == *b,
            (Selection::Animation(a), Selection::Animation(b)) => *a == *b,
            (Selection::Hitbox(a, b), Selection::Hitbox(c, d)) => *a == *c && *b == *d,
            (Selection::AnimationFrame(a, i), Selection::AnimationFrame(b, j)) => *a == *b && *i
                == *j,
            _ => false,
        }
    }
}

impl WorkbenchItem {
    /// Whether `self` and `other` are the same item.
    pub fn same_as(&self, other: &WorkbenchItem) -> (r: bool)
        ensures
            r == (self@ == other@),
    {
        match (self, other) {
            (WorkbenchItem::Frame(a), WorkbenchItem::Frame(b)) => *a == *b,
            (WorkbenchItem::Animation(a), WorkbenchItem::Animation(b)) => *a == *b,
            _ => false,
        }
    }
}

/// Half of `x`, rounded toward zero (as integer division does in Rust).
pub open spec fn half_toward_zero(x: int) -> int {
    if x >= 0 {
        x / 2
    } else {
        -((-x) / 2)
    }
}

/// The zoom level after zooming in: doubled from 1 up, back to 1 from -2,
/// halved below; never above `max`.
pub open spec fn zoomed_in(level: i32, max: i32) -> i32 {
    let l = if level >= 1 {
        level * 2
    } else if level == -2 {
        1
    } else {
        half_toward_zero(level as int)
    };
    if l < max { l as i32 } else { max }
}

/// The zoom level after zooming out: halved above 1, -2 from 1, doubled
/// below; never below `min`.
pub open spec fn zoomed_out(level: i32, min: i32) -> i32 {
    let l = if level > 1 {
        half_toward_zero(level as int)
    } else if level == 1 {
        -2
    } else {
        level * 2
    };
    if l > min { l as i32 } else { min }
}

/// Zoom levels that can be doubled without leaving the `i32` range.
pub open spec fn zoom_level_in_range(level: i32) -> bool {
    i32::MIN / 2 <= level <= i32::MAX / 2
}

pub const MAX_WORKBENCH_ZOOM_LEVEL: i32 = 16;
pub const MIN_WORKBENCH_ZOOM_LEVEL: i32 = -8;
pub const MAX_TIMELINE_ZOOM_LEVEL: i32 = 4;
pub const MIN_TIMELINE_ZOOM_LEVEL: i32 = -4;

fn zoom_in(level: i32, max: i32) -> (r: i32)
    requires
        zoom_level_in_range(level),
    ensures
        r == zoomed_in(level, max),
{
    let l = if level >= 1 {
        level * 2
    } else if level == -2 {
        1
    } else {
        level / 2
    };
    if l < max { l } else { max }
}

fn zoom_out(level: i32, min: i32) -> (r: i32)
    requires
        zoom_level_in_range(level),
    ensures
        r == zoomed_out(level, min),
{
    let l = if level > 1 {
        level / 2
    } else if level == 1 {
        -2
    } else {
        level * 2
    };
    if l > min { l } else { min }
}

impl DocumentView {
    /// The view of a fresh document: frames tab, nothing selected or edited,
    /// not panned, clock at zero, zoom levels at 1.
    pub fn new() -> (r: DocumentView)
        ensures
            r@ == default_view_model(),
    {
        DocumentView {
            content_tab: ContentTab::Frames,
            selection: None,
            workbench_item: None,
            workbench_offset: (0, 0),
            timeline_clock: 0,
            workbench_zoom_level: 1,
            timeline_zoom_level: 1,
        }
    }

    /// Whether `self` and `other` show the same thing.
    pub fn same_as(&self, other: &DocumentView) -> (r: bool)
        ensures
            r == (self@ == other@),
    {
        let selections_match = match (&self.selection, &other.selection) {
            (Some(a), Some(b)) => a.same_as(b),
            (None, None) => true,
            _ => false,
        };
        let items_match = match (&self.workbench_item, &other.workbench_item) {
            (Some(a), Some(b)) => a.same_as(b),
            (None, None) => true,
            _ => false,
        };
        self.content_tab == other.content_tab && selections_match && items_match
            && self.workbench_offset.0 == other.workbench_offset.0 && self.workbench_offset.1
            == other.workbench_offset.1 && self.timeline_clock == other.timeline_clock
            && self.workbench_zoom_level == other.workbench_zoom_level && self.timeline_zoom_level
            == other.timeline_zoom_level
    }

    pub fn workbench_zoom_in(&mut self)
        requires
            zoom_level_in_range(old(self).workbench_zoom_level),
        ensures
            final(self)@ == (DocumentViewModel {
                workbench_zoom_level: zoomed_in(
                    old(self).workbench_zoom_level,
                    MAX_WORKBENCH_ZOOM_LEVEL,
                ),
                ..old(self)@
            }),
    {
        self.workbench_zoom_level = zoom_in(self.workbench_zoom_level, MAX_WORKBENCH_ZOOM_LEVEL);
    }

    pub fn workbench_zoom_out(&mut self)
        requires
            zoom_level_in_range(old(self).workbench_zoom_level),
        ensures
            final(self)@ == (DocumentViewModel {
                workbench_zoom_level: zoomed_out(
                    old(self).workbench_zoom_level,
                    MIN_WORKBENCH_ZOOM_LEVEL,
                ),
                ..old(self)@
            }),
    {
        self.workbench_zoom_level = zoom_out(self.workbench_zoom_level, MIN_WORKBENCH_ZOOM_LEVEL);
    }

    pub fn workbench_reset_zoom(&mut self)
        ensures
            final(self)@ == (DocumentViewModel { workbench_zoom_level: 1, ..old(self)@ }),
    {
        self.workbench_zoom_level = 1;
    }

    pub fn workbench_center(&mut self)
        ensures
            final(self)@ == (DocumentViewModel { workbench_offset: (0, 0), ..old(self)@ }),
    {
        self.workbench_offset = (0, 0);
    }

    pub fn timeline_zoom_in(&mut self)
        requires
            zoom_level_in_range(old(self).timeline_zoom_level),
        ensures
            final(self)@ == (DocumentViewModel {
                timeline_zoom_level: zoomed_in(old(self).timeline_zoom_level, MAX_TIMELINE_ZOOM_LEVEL),
                ..old(self)@
            }),
    {
        self.timeline_zoom_level = zoom_in(self.timeline_zoom_level, MAX_TIMELINE_ZOOM_LEVEL);
    }

    pub fn timeline_zoom_out(&mut self)
        requires
            zoom_level_in_range(old(self).timeline_zoom_level),
        ensures
            final(self)@ == (DocumentViewModel {
                timeline_zoom_level: zoomed_out(
                    old(self).timeline_zoom_level,
                    MIN_TIMELINE_ZOOM_LEVEL,
                ),
                ..old(self)@
            }),
    {
        self.timeline_zoom_level = zoom_out(self.timeline_zoom_level, MIN_TIMELINE_ZOOM_LEVEL);
    }

    pub fn timeline_reset_zoom(&mut self)
        ensures
            final(self)@ == (DocumentViewModel { timeline_zoom_level: 1, ..old(self)@ }),
    {
        self.timeline_zoom_level = 1;
    }

    /// Pans the workbench by `delta` screen pixels (saturating at the ends of
    /// the `i32` range).
    pub fn pan(&mut self, delta: (i32, i32))
        ensures
            final(self)@ == (DocumentViewModel {
                workbench_offset: (
                    saturating_add_i32(old(self).workbench_offset.0, delta.0),
                    saturating_add_i32(old(self).workbench_offset.1, delta.1),
                ),
                ..old(self)@
            }),
    {
        self.workbench_offset = (
            add_saturating(self.workbench_offset.0, delta.0),
            add_saturating(self.workbench_offset.1, delta.1),
        );
    }
}

/// `a + b`, held to the `i32` range.
pub open spec fn saturating_add_i32(a: i32, b: i32) -> i32 {
    if a + b > i32::MAX {
        i32::MAX
    } else if a + b < i32::MIN {
        i32::MIN
    } else {
        (a + b) as i32
    }
}

fn add_saturating(a: i32, b: i32) -> (r: i32)
    ensures
        r == saturating_add_i32(a, b),
{
    let s = a as i64 + b as i64;
    if s > i32::MAX as i64 {
        i32::MAX
    } else if s < i32::MIN as i64 {
        i32::MIN
    } else {
        s as i32
    }
}

pub open spec fn default_view_model() -> DocumentViewModel {
    DocumentViewModel {
        content_tab: ContentTab::Frames,
        selection: None,
        workbench_item: None,
        workbench_offset: (0, 0),
        timeline_clock: 0,
        workbench_zoom_level: 1,
        timeline_zoom_level: 1,
    }
}

} // verus!
