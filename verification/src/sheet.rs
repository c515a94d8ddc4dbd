//! The sheet: the frames (images) it is made of, the animations that play
//! those frames in sequence, the hitboxes placed on each frame, and where
//! the sheet is exported.

use vstd::prelude::*;
use crate::paths::{diff_paths, path_join, same_path, spec_diff_paths, spec_path_join, spec_same_path};
use crate::names::{first_free_name, is_first_free_name, numbered_name};

verus! {

/// The longest animation name accepted by `Sheet::rename_animation`, in bytes.
pub const MAX_ANIMATION_NAME_LENGTH: usize = 32;
/// The longest hitbox name accepted by `Frame::rename_hitbox`, in bytes.
pub const MAX_HITBOX_NAME_LENGTH: usize = 32;

/// What an operation on a sheet can fail with.
#[derive(Clone, Copy, Debug, PartialEq, Eq, Structural)]
pub enum SheetError {
    FrameNotFound,
    AnimationNotFound,
    HitboxNotFound,
    AnimationNameTooLong,
    HitboxNameTooLong,
    AbsoluteToRelativePath,
    InvalidFrameIndex,
}

/// An axis-aligned rectangle in pixels: its top-left corner and its size.
#[derive(Clone, Copy, Debug)]
pub struct Rectangle {
    pub top_left: (i32, i32),
    pub size: (u32, u32),
}

/// The geometry of a hitbox.
#[derive(Clone, Copy, Debug)]
pub enum Shape {
    Rectangle(Rectangle),
}

/// A named area of a frame.
#[derive(Debug)]
pub struct Hitbox {
    pub name: String,
    pub geometry: Shape,
}

/// An image of the sheet, known by its path, with its hitboxes.
#[derive(Debug)]
pub struct Frame {
    pub source: String,
    pub hitboxes: Vec<Hitbox>,
}

/// One step of an animation: a frame, shown for `duration` milliseconds,
/// drawn at `offset` from the animation's origin.
#[derive(Debug)]
pub struct AnimationFrame {
    pub frame: String,
    pub duration: u32,
    pub offset: (i32, i32),
}

/// A named sequence of animation frames.
#[derive(Debug)]
pub struct Animation {
    pub name: String,
    pub timeline: Vec<AnimationFrame>,
    pub is_looping: bool,
}

/// How the sheet's metadata is written: through a template file.
#[derive(Debug)]
pub enum ExportFormat {
    Template(String),
}

/// Where and how a sheet is exported.
#[derive(Debug)]
pub struct ExportSettings {
    pub format: ExportFormat,
    pub texture_destination: String,
    pub metadata_destination: String,
    pub metadata_paths_root: String,
}

/// A sprite sheet.
#[derive(Debug)]
pub struct Sheet {
    pub frames: Vec<Frame>,
    pub animations: Vec<Animation>,
    pub export_settings: Option<ExportSettings>,
}

/// The versions of the file format that sheets are saved in.
#[derive(Clone, Copy, Debug, PartialEq, Eq, Structural)]
pub enum Version {
    Tiger1,
    Tiger2,
}

/// The version that sheets are written in.
pub const CURRENT_VERSION: Version = Version::Tiger2;

/// A sheet as it is stored in a file, beside its format version.
#[derive(Debug)]
pub struct VersionedSheet {
    pub sheet: Sheet,
}

// ---------------------------------------------------------------------------
// Mathematical models
// ---------------------------------------------------------------------------

pub struct HitboxModel {
    pub name: Seq<char>,
    pub geometry: Shape,
}

pub struct FrameModel {
    pub source: Seq<char>,
    pub hitboxes: Seq<HitboxModel>,
}

pub struct AnimationFrameModel {
    pub frame: Seq<char>,
    pub duration: u32,
    pub offset: (i32, i32),
}

pub struct AnimationModel {
    pub name: Seq<char>,
    pub timeline: Seq<AnimationFrameModel>,
    pub is_looping: bool,
}

pub enum ExportFormatModel {
    Template(Seq<char>),
}

pub struct ExportSettingsModel {
    pub format: ExportFormatModel,
    pub texture_destination: Seq<char>,
    pub metadata_destination: Seq<char>,
    pub metadata_paths_root: Seq<char>,
}

pub struct SheetModel {
    pub frames: Seq<FrameModel>,
    pub animations: Seq<AnimationModel>,
    pub export_settings: Option<ExportSettingsModel>,
}

impl View for Hitbox {
    type V = HitboxModel;

    open spec fn view(&self) -> HitboxModel {
        HitboxModel { name: self.name@, geometry: self.geometry }
    }
}

impl View for Frame {
    type V = FrameModel;

    open spec fn view(&self) -> FrameModel {
        FrameModel { source: self.source@, hitboxes: self.hitboxes@.map_values(|h: Hitbox| h@) }
    }
}

impl View for AnimationFrame {
    type V = AnimationFrameModel;

    open spec fn view(&self) -> AnimationFrameModel {
        AnimationFrameModel { frame: self.frame@, duration: self.duration, offset: self.offset }
    }
}

impl View for Animation {
    type V = AnimationModel;

    open spec fn view(&self) -> AnimationModel {
        AnimationModel {
            name: self.name@,
            timeline: self.timeline@.map_values(|f: AnimationFrame| f@),
            is_looping: self.is_looping,
        }
    }
}

impl View for ExportFormat {
    type V = ExportFormatModel;

    open spec fn view(&self) -> ExportFormatModel {
        match self {
            ExportFormat::Template(p) => ExportFormatModel::Template(p@),
        }
    }
}

impl View for ExportSettings {
    type V = ExportSettingsModel;

    open spec fn view(&self) -> ExportSettingsModel {
        ExportSettingsModel {
            format: self.format@,
            texture_destination: self.texture_destination@,
            metadata_destination: self.metadata_destination@,
            metadata_paths_root: self.metadata_paths_root@,
        }
    }
}

pub open spec fn export_settings_model(e: Option<ExportSettings>) -> Option<ExportSettingsModel> {
    match e {
        Some(s) => Some(s@),
        None => None,
    }
}

impl View for Sheet {
    type V = SheetModel;

    open spec fn view(&self) -> SheetModel {
        SheetModel {
            frames: self.frames@.map_values(|f: Frame| f@),
            animations: self.animations@.map_values(|a: Animation| a@),
            export_settings: export_settings_model(self.export_settings),
        }
    }
}

// ---------------------------------------------------------------------------
// Copies
// ---------------------------------------------------------------------------

impl Clone for Hitbox {
    fn clone(&self) -> (r: Self)
        ensures
            r@ == self@,
    {
        Hitbox { name: self.name.clone(), geometry: self.geometry }
    }
}

impl Clone for Frame {
    fn clone(&self) -> (r: Self)
        ensures
            r@ == self@,
    {
        let hitboxes = self.hitboxes.clone();
        assert(hitboxes@.map_values(|h: Hitbox| h@) =~= self.hitboxes@.map_values(|h: Hitbox| h@));
        Frame { source: self.source.clone(), hitboxes }
    }
}

impl Clone for AnimationFrame {
    fn clone(&self) -> (r: Self)
        ensures
            r@ == self@,
    {
        AnimationFrame { frame: self.frame.clone(), duration: self.duration, offset: self.offset }
    }
}

impl Clone for Animation {
    fn clone(&self) -> (r: Self)
        ensures
            r@ == self@,
    {
        let timeline = self.timeline.clone();
        assert(timeline@.map_values(|f: AnimationFrame| f@) =~= self.timeline@.map_values(
            |f: AnimationFrame| f@,
        ));
        Animation { name: self.name.clone(), timeline, is_looping: self.is_looping }
    }
}

impl Clone for ExportFormat {
    fn clone(&self) -> (r: Self)
        ensures
            r@ == self@,
    {
        match self {
            ExportFormat::Template(p) => ExportFormat::Template(p.clone()),
        }
    }
}

impl Clone for ExportSettings {
    fn clone(&self) -> (r: Self)
        ensures
            r@ == self@,
    {
        ExportSettings {
            format: self.format.clone(),
            texture_destination: self.texture_destination.clone(),
            metadata_destination: self.metadata_destination.clone(),
            metadata_paths_root: self.metadata_paths_root.clone(),
        }
    }
}

impl Clone for Sheet {
    fn clone(&self) -> (r: Self)
        ensures
            r@ == self@,
    {
        let frames = self.frames.clone();
        assert(frames@.map_values(|f: Frame| f@) =~= self.frames@.map_values(|f: Frame| f@));
        let animations = self.animations.clone();
        assert(animations@.map_values(|a: Animation| a@) =~= self.animations@.map_values(
            |a: Animation| a@,
        ));
        let export_settings = match &self.export_settings {
            Some(e) => Some(e.clone()),
            None => None,
        };
        Sheet { frames, animations, export_settings }
    }
}


// ---------------------------------------------------------------------------
// Lookups by name
// ---------------------------------------------------------------------------

/// Position of the first element of `keys` that equals `key`, or -1 where
/// there is none.
pub open spec fn first_index<K>(keys: Seq<K>, key: K) -> int {
    if keys.contains(key) {
        choose|i: int|
            0 <= i < keys.len() && keys[i] == key && forall|j: int| 0 <= j < i ==> keys[j] != key
    } else {
        -1
    }
}

/// Establishes what `first_index` is from a witness that is the first match.
pub proof fn lemma_first_index<K>(keys: Seq<K>, key: K, i: int)
    requires
        0 <= i < keys.len(),
        keys[i] == key,
        forall|j: int| 0 <= j < i ==> keys[j] != key,
    ensures
        first_index(keys, key) == i,
{
    assert(keys.contains(key));
    let c = first_index(keys, key);
    assert(0 <= c < keys.len() && keys[c] == key && forall|j: int| 0 <= j < c ==> keys[j] != key);
    if c < i {
        assert(keys[c] != key);
    }
    if i < c {
        assert(keys[i] != key);
    }
}

/// `first_index` is -1 where no key matches.
pub proof fn lemma_first_index_none<K>(keys: Seq<K>, key: K)
    requires
        forall|j: int| 0 <= j < keys.len() ==> keys[j] != key,
    ensures
        first_index(keys, key) == -1,
{
}

/// `first_index` names a matching position whenever some key matches.
pub proof fn lemma_first_index_found<K>(keys: Seq<K>, key: K)
    requires
        keys.contains(key),
    ensures
        0 <= first_index(keys, key) < keys.len(),
        keys[first_index(keys, key)] == key,
        forall|j: int| 0 <= j < first_index(keys, key) ==> keys[j] != key,
{
    let w = choose|i: int| 0 <= i < keys.len() && keys[i] == key;
    lemma_least_match(keys, key, w);
}

proof fn lemma_least_match<K>(keys: Seq<K>, key: K, w: int)
    requires
        0 <= w < keys.len(),
        keys[w] == key,
    ensures
        exists|i: int|
            0 <= i < keys.len() && keys[i] == key && forall|j: int| 0 <= j < i ==> keys[j] != key,
    decreases w,
{
    if exists|j: int| 0 <= j < w && keys[j] == key {
        let j = choose|j: int| 0 <= j < w && keys[j] == key;
        lemma_least_match(keys, key, j);
    } else {
        assert(forall|j: int| 0 <= j < w ==> keys[j] != key);
    }
}

pub open spec fn frame_sources(frames: Seq<FrameModel>) -> Seq<Seq<char>> {
    frames.map_values(|f: FrameModel| f.source)
}

pub open spec fn animation_names(animations: Seq<AnimationModel>) -> Seq<Seq<char>> {
    animations.map_values(|a: AnimationModel| a.name)
}

pub open spec fn hitbox_names(hitboxes: Seq<HitboxModel>) -> Seq<Seq<char>> {
    hitboxes.map_values(|h: HitboxModel| h.name)
}

/// For each of `sources`, whether it is the same path as `path`.
pub open spec fn same_path_flags(sources: Seq<Seq<char>>, path: Seq<char>) -> Seq<bool> {
    sources.map_values(|s: Seq<char>| spec_same_path(s, path))
}

impl SheetModel {
    /// Whether some frame's source is the same path as `path`.
    pub open spec fn has_frame(self, path: Seq<char>) -> bool {
        same_path_flags(frame_sources(self.frames), path).contains(true)
    }

    /// The position of the first frame whose source is the same path as
    /// `path`, or -1.
    pub open spec fn frame_index(self, path: Seq<char>) -> int {
        first_index(same_path_flags(frame_sources(self.frames), path), true)
    }

    pub open spec fn has_animation(self, name: Seq<char>) -> bool {
        animation_names(self.animations).contains(name)
    }

    pub open spec fn animation_index(self, name: Seq<char>) -> int {
        first_index(animation_names(self.animations), name)
    }
}

impl FrameModel {
    pub open spec fn has_hitbox(self, name: Seq<char>) -> bool {
        hitbox_names(self.hitboxes).contains(name)
    }

    pub open spec fn hitbox_index(self, name: Seq<char>) -> int {
        first_index(hitbox_names(self.hitboxes), name)
    }
}


// ---------------------------------------------------------------------------
// Sheet
// ---------------------------------------------------------------------------

/// What is left of `frames` once every frame with source `path` is gone.
pub open spec fn frames_without(frames: Seq<FrameModel>, path: Seq<char>) -> Seq<FrameModel> {
    frames.filter(|f: FrameModel| !spec_same_path(f.source, path))
}

/// What is left of `timeline` once every animation frame showing `path` is gone.
pub open spec fn timeline_without(timeline: Seq<AnimationFrameModel>, path: Seq<char>) -> Seq<
    AnimationFrameModel,
> {
    timeline.filter(|f: AnimationFrameModel| !spec_same_path(f.frame, path))
}

pub open spec fn animations_without(animations: Seq<AnimationModel>, name: Seq<char>) -> Seq<
    AnimationModel,
> {
    animations.filter(|a: AnimationModel| a.name != name)
}

pub open spec fn hitboxes_without(hitboxes: Seq<HitboxModel>, name: Seq<char>) -> Seq<HitboxModel> {
    hitboxes.filter(|h: HitboxModel| h.name != name)
}

/// `animation` with none of its frames showing `path`.
pub open spec fn animation_without_frame(animation: AnimationModel, path: Seq<char>) -> AnimationModel {
    AnimationModel { timeline: timeline_without(animation.timeline, path), ..animation }
}

/// The sheet with a frame for `path` added, unless it has one already.
pub open spec fn sheet_with_frame(s: SheetModel, path: Seq<char>) -> SheetModel {
    if s.has_frame(path) {
        s
    } else {
        SheetModel { frames: s.frames.push(new_frame_model(path)), ..s }
    }
}

/// The sheet without frames whose source is `path`, and without animation
/// frames that show it.
pub open spec fn sheet_without_frame(s: SheetModel, path: Seq<char>) -> SheetModel {
    SheetModel {
        frames: frames_without(s.frames, path),
        animations: s.animations.map_values(|a: AnimationModel| animation_without_frame(a, path)),
        ..s
    }
}

/// The sheet without the hitboxes named `name` of the first frame whose
/// source is `path`.
pub open spec fn sheet_without_hitbox(s: SheetModel, path: Seq<char>, name: Seq<char>) -> SheetModel {
    if s.has_frame(path) {
        SheetModel {
            frames: s.frames.update(
                s.frame_index(path),
                FrameModel {
                    hitboxes: hitboxes_without(s.frames[s.frame_index(path)].hitboxes, name),
                    ..s.frames[s.frame_index(path)]
                },
            ),
            ..s
        }
    } else {
        s
    }
}

/// The sheet without animations named `name`.
pub open spec fn sheet_without_animation(s: SheetModel, name: Seq<char>) -> SheetModel {
    SheetModel { animations: animations_without(s.animations, name), ..s }
}

/// The sheet without the frame at `index` of the first animation named
/// `name`, where there is such a frame.
pub open spec fn sheet_without_animation_frame(s: SheetModel, name: Seq<char>, index: int) -> SheetModel {
    let i = s.animation_index(name);
    if s.has_animation(name) && 0 <= index < s.animations[i].timeline.len() {
        SheetModel {
            animations: s.animations.update(
                i,
                AnimationModel { timeline: s.animations[i].timeline.remove(index), ..s.animations[i] },
            ),
            ..s
        }
    } else {
        s
    }
}

/// The sheet with its first animation named `old_name` renamed.
pub open spec fn sheet_with_animation_renamed(s: SheetModel, old_name: Seq<char>, new_name: Seq<char>) -> SheetModel {
    SheetModel {
        animations: s.animations.update(
            s.animation_index(old_name),
            AnimationModel { name: new_name, ..s.animations[s.animation_index(old_name)] },
        ),
        ..s
    }
}

/// The frame with its first hitbox named `old_name` renamed.
pub open spec fn frame_with_hitbox_renamed(f: FrameModel, old_name: Seq<char>, new_name: Seq<char>) -> FrameModel {
    FrameModel {
        hitboxes: f.hitboxes.update(
            f.hitbox_index(old_name),
            HitboxModel { name: new_name, ..f.hitboxes[f.hitbox_index(old_name)] },
        ),
        ..f
    }
}

/// A fresh animation frame showing `path`: 100 milliseconds long, not offset.
pub open spec fn new_animation_frame_model(path: Seq<char>) -> AnimationFrameModel {
    AnimationFrameModel { frame: path, duration: 100, offset: (0, 0) }
}

/// A fresh frame for `path`, without hitboxes.
pub open spec fn new_frame_model(path: Seq<char>) -> FrameModel {
    FrameModel { source: path, hitboxes: Seq::empty() }
}

/// A fresh, empty, looping animation.
pub open spec fn new_animation_model(name: Seq<char>) -> AnimationModel {
    AnimationModel { name, timeline: Seq::empty(), is_looping: true }
}

/// The number of bytes of the UTF-8 encoding of `s`.
pub open spec fn byte_len(s: Seq<char>) -> nat {
    vstd::utf8::encode_utf8(s).len()
}

pub(crate) proof fn lemma_filter_step<A>(s: Seq<A>, pred: spec_fn(A) -> bool, i: int)
    requires
        0 <= i < s.len(),
    ensures
        s.take(i + 1).filter(pred) == if pred(s[i]) {
            s.take(i).filter(pred).push(s[i])
        } else {
            s.take(i).filter(pred)
        },
{
    reveal(Seq::filter);
    assert(s.take(i + 1).drop_last() =~= s.take(i));
    assert(s.take(i + 1).last() == s[i]);
}

impl Sheet {
    /// An empty sheet, without export settings.
    pub fn new() -> (r: Sheet)
        ensures
            r@.frames == Seq::<FrameModel>::empty(),
            r@.animations == Seq::<AnimationModel>::empty(),
            r@.export_settings is None,
    {
        let r = Sheet { frames: Vec::new(), animations: Vec::new(), export_settings: None };
        assert(r@.frames =~= Seq::<FrameModel>::empty());
        assert(r@.animations =~= Seq::<AnimationModel>::empty());
        r
    }

    /// The position of the first frame whose source is `path`.
    pub fn frame_position(&self, path: &str) -> (r: Option<usize>)
        ensures
            match r {
                Some(i) => self@.has_frame(path@) && i == self@.frame_index(path@) && i < self.frames.len()
                    && spec_same_path(self@.frames[i as int].source, path@),
                None => !self@.has_frame(path@) && self@.frame_index(path@) == -1,
            },
    {
        let ghost flags = same_path_flags(frame_sources(self@.frames), path@);
        let mut i: usize = 0;
        while i < self.frames.len()
            invariant
                i <= self.frames.len(),
                flags == same_path_flags(frame_sources(self@.frames), path@),
                flags.len() == self.frames.len(),
                forall|j: int| 0 <= j < i ==> flags[j] != true,
            decreases self.frames.len() - i,
        {
            if same_path(self.frames[i].source.as_str(), path) {
                proof {
                    assert(flags[i as int] == true);
                    lemma_first_index(flags, true, i as int);
                }
                return Some(i);
            }
            assert(flags[i as int] != true);
            i += 1;
        }
        proof {
            lemma_first_index_none(flags, true);
        }
        None
    }

    /// The position of the first animation named `name`.
    pub fn animation_position(&self, name: &str) -> (r: Option<usize>)
        ensures
            match r {
                Some(i) => self@.has_animation(name@) && i == self@.animation_index(name@)
                    && i < self.animations.len() && self@.animations[i as int].name == name@,
                None => !self@.has_animation(name@) && self@.animation_index(name@) == -1,
            },
    {
        let key = name.to_owned();
        let mut i: usize = 0;
        while i < self.animations.len()
            invariant
                i <= self.animations.len(),
                key@ == name@,
                forall|j: int| 0 <= j < i ==> animation_names(self@.animations)[j] != name@,
            decreases self.animations.len() - i,
        {
            if self.animations[i].name == key {
                proof {
                    lemma_first_index(animation_names(self@.animations), name@, i as int);
                }
                return Some(i);
            }
            i += 1;
        }
        proof {
            lemma_first_index_none(animation_names(self@.animations), name@);
        }
        None
    }

    /// Whether some frame of the sheet has source `path`.
    pub fn has_frame(&self, path: &str) -> (r: bool)
        ensures
            r == self@.has_frame(path@),
    {
        self.frame_position(path).is_some()
    }

    /// Whether some animation of the sheet is named `name`.
    pub fn has_animation(&self, name: &str) -> (r: bool)
        ensures
            r == self@.has_animation(name@),
    {
        self.animation_position(name).is_some()
    }

    /// The first frame whose source is `path`.
    pub fn get_frame(&self, path: &str) -> (r: Option<&Frame>)
        ensures
            match r {
                Some(f) => self@.has_frame(path@) && f@ == self@.frames[self@.frame_index(path@)],
                None => !self@.has_frame(path@),
            },
    {
        match self.frame_position(path) {
            Some(i) => Some(&self.frames[i]),
            None => None,
        }
    }

    /// The first frame whose source is `path`, to be changed in place.
    pub fn get_frame_mut(&mut self, path: &str) -> (r: Option<&mut Frame>)
        ensures
            old(self)@.has_frame(path@) ==> (r matches Some(f) && {
                let i = old(self)@.frame_index(path@);
                &&& (*f)@ == old(self)@.frames[i]
                &&& final(self).frames@ == old(self).frames@.update(i, *final(f))
                &&& final(self).animations == old(self).animations
                &&& final(self).export_settings == old(self).export_settings
            }),
            !old(self)@.has_frame(path@) ==> r is None && *final(self) == *old(self),
    {
        match self.frame_position(path) {
            Some(i) => Some(&mut self.frames[i]),
            None => None,
        }
    }

    /// The first animation named `name`.
    pub fn get_animation(&self, name: &str) -> (r: Option<&Animation>)
        ensures
            match r {
                Some(a) => self@.has_animation(name@) && a@ == self@.animations[self@.animation_index(
                    name@,
                )],
                None => !self@.has_animation(name@),
            },
    {
        match self.animation_position(name) {
            Some(i) => Some(&self.animations[i]),
            None => None,
        }
    }

    /// The first animation named `name`, to be changed in place.
    pub fn get_animation_mut(&mut self, name: &str) -> (r: Option<&mut Animation>)
        ensures
            old(self)@.has_animation(name@) ==> (r matches Some(a) && {
                let i = old(self)@.animation_index(name@);
                &&& (*a)@ == old(self)@.animations[i]
                &&& final(self).animations@ == old(self).animations@.update(i, *final(a))
                &&& final(self).frames == old(self).frames
                &&& final(self).export_settings == old(self).export_settings
            }),
            !old(self)@.has_animation(name@) ==> r is None && *final(self) == *old(self),
    {
        match self.animation_position(name) {
            Some(i) => Some(&mut self.animations[i]),
            None => None,
        }
    }

    /// The frames of the sheet, in order.
    pub fn frames_iter(&self) -> (r: &[Frame])
        ensures
            r@ == self.frames@,
    {
        self.frames.as_slice()
    }

    /// The frames of the sheet, in order, to be changed in place.
    pub fn frames_iter_mut(&mut self) -> (r: &mut [Frame])
        ensures
            r@ == old(self).frames@,
            final(self).frames@ == final(r)@,
            final(self).animations == old(self).animations,
            final(self).export_settings == old(self).export_settings,
    {
        self.frames.as_mut_slice()
    }

    /// The animations of the sheet, in order.
    pub fn animations_iter(&self) -> (r: &[Animation])
        ensures
            r@ == self.animations@,
    {
        self.animations.as_slice()
    }

    /// The sheet's export settings.
    pub fn get_export_settings(&self) -> (r: &Option<ExportSettings>)
        ensures
            *r == self.export_settings,
    {
        &self.export_settings
    }

    /// Replaces the sheet's export settings.
    pub fn set_export_settings(&mut self, export_settings: ExportSettings)
        ensures
            final(self)@ == (SheetModel { export_settings: Some(export_settings@), ..old(self)@ }),
    {
        self.export_settings = Some(export_settings);
    }

    /// Adds a frame for `path`, unless the sheet already has one.
    pub fn add_frame(&mut self, path: &str)
        ensures
            final(self)@ == sheet_with_frame(old(self)@, path@),
    {
        if self.has_frame(path) {
            return ;
        }
        let frame = Frame::new(path);
        self.frames.push(frame);
        proof {
            assert(self@.frames =~= old(self)@.frames.push(new_frame_model(path@)));
        }
    }
}

impl Frame {
    /// A frame for `path`, without hitboxes.
    pub fn new(path: &str) -> (r: Frame)
        ensures
            r@ == new_frame_model(path@),
    {
        let r = Frame { source: path.to_owned(), hitboxes: Vec::new() };
        assert(r@.hitboxes =~= Seq::<HitboxModel>::empty());
        r
    }
}


fn frames_filtered(frames: &Vec<Frame>, path: &String) -> (r: Vec<Frame>)
    ensures
        r@.map_values(|f: Frame| f@) == frames_without(frames@.map_values(|f: Frame| f@), path@),
{
    let ghost model = frames@.map_values(|f: Frame| f@);
    let ghost pred = |f: FrameModel| !spec_same_path(f.source, path@);
    let mut r: Vec<Frame> = Vec::new();
    let mut i: usize = 0;
    while i < frames.len()
        invariant
            i <= frames.len(),
            model == frames@.map_values(|f: Frame| f@),
            pred == (|f: FrameModel| !spec_same_path(f.source, path@)),
            r@.map_values(|f: Frame| f@) == model.take(i as int).filter(pred),
        decreases frames.len() - i,
    {
        proof {
            lemma_filter_step(model, pred, i as int);
        }
        if !same_path(frames[i].source.as_str(), path.as_str()) {
            let f = frames[i].clone();
            let ghost before = r@;
            r.push(f);
            assert(r@.map_values(|f: Frame| f@) =~= before.map_values(|f: Frame| f@).push(model[i as int]));
        }
        i += 1;
    }
    assert(model.take(frames.len() as int) =~= model);
    r
}

fn timeline_filtered(timeline: &Vec<AnimationFrame>, path: &String) -> (r: Vec<AnimationFrame>)
    ensures
        r@.map_values(|f: AnimationFrame| f@) == timeline_without(
            timeline@.map_values(|f: AnimationFrame| f@),
            path@,
        ),
{
    let ghost model = timeline@.map_values(|f: AnimationFrame| f@);
    let ghost pred = |f: AnimationFrameModel| !spec_same_path(f.frame, path@);
    let mut r: Vec<AnimationFrame> = Vec::new();
    let mut i: usize = 0;
    while i < timeline.len()
        invariant
            i <= timeline.len(),
            model == timeline@.map_values(|f: AnimationFrame| f@),
            pred == (|f: AnimationFrameModel| !spec_same_path(f.frame, path@)),
            r@.map_values(|f: AnimationFrame| f@) == model.take(i as int).filter(pred),
        decreases timeline.len() - i,
    {
        proof {
            lemma_filter_step(model, pred, i as int);
        }
        if !same_path(timeline[i].frame.as_str(), path.as_str()) {
            let f = timeline[i].clone();
            let ghost before = r@;
            r.push(f);
            assert(r@.map_values(|f: AnimationFrame| f@) =~= before.map_values(
                |f: AnimationFrame| f@,
            ).push(model[i as int]));
        }
        i += 1;
    }
    assert(model.take(timeline.len() as int) =~= model);
    r
}

fn animations_filtered(animations: &Vec<Animation>, name: &String) -> (r: Vec<Animation>)
    ensures
        r@.map_values(|a: Animation| a@) == animations_without(
            animations@.map_values(|a: Animation| a@),
            name@,
        ),
{
    let ghost model = animations@.map_values(|a: Animation| a@);
    let ghost pred = |a: AnimationModel| a.name != name@;
    let mut r: Vec<Animation> = Vec::new();
    let mut i: usize = 0;
    while i < animations.len()
        invariant
            i <= animations.len(),
            model == animations@.map_values(|a: Animation| a@),
            pred == (|a: AnimationModel| a.name != name@),
            r@.map_values(|a: Animation| a@) == model.take(i as int).filter(pred),
        decreases animations.len() - i,
    {
        proof {
            lemma_filter_step(model, pred, i as int);
        }
        if animations[i].name != *name {
            let a = animations[i].clone();
            let ghost before = r@;
            r.push(a);
            assert(r@.map_values(|a: Animation| a@) =~= before.map_values(|a: Animation| a@).push(
                model[i as int],
            ));
        }
        i += 1;
    }
    assert(model.take(animations.len() as int) =~= model);
    r
}

fn hitboxes_filtered(hitboxes: &Vec<Hitbox>, name: &String) -> (r: Vec<Hitbox>)
    ensures
        r@.map_values(|h: Hitbox| h@) == hitboxes_without(hitboxes@.map_values(|h: Hitbox| h@), name@),
{
    let ghost model = hitboxes@.map_values(|h: Hitbox| h@);
    let ghost pred = |h: HitboxModel| h.name != name@;
    let mut r: Vec<Hitbox> = Vec::new();
    let mut i: usize = 0;
    while i < hitboxes.len()
        invariant
            i <= hitboxes.len(),
            model == hitboxes@.map_values(|h: Hitbox| h@),
            pred == (|h: HitboxModel| h.name != name@),
            r@.map_values(|h: Hitbox| h@) == model.take(i as int).filter(pred),
        decreases hitboxes.len() - i,
    {
        proof {
            lemma_filter_step(model, pred, i as int);
        }
        if hitboxes[i].name != *name {
            let h = hitboxes[i].clone();
            let ghost before = r@;
            r.push(h);
            assert(r@.map_values(|h: Hitbox| h@) =~= before.map_values(|h: Hitbox| h@).push(
                model[i as int],
            ));
        }
        i += 1;
    }
    assert(model.take(hitboxes.len() as int) =~= model);
    r
}

impl Sheet {
    /// Removes every frame whose source is `path`, and every animation frame
    /// that shows it.
    pub fn delete_frame(&mut self, path: &str)
        ensures
            final(self)@ == sheet_without_frame(old(self)@, path@),
    {
        let key = path.to_owned();
        let frames = frames_filtered(&self.frames, &key);
        let ghost old_animations = self@.animations;
        let mut animations: Vec<Animation> = Vec::new();
        let mut i: usize = 0;
        while i < self.animations.len()
            invariant
                i <= self.animations.len(),
                key@ == path@,
                old_animations == self@.animations,
                animations@.len() == i,
                forall|j: int|
                    0 <= j < i ==> (#[trigger] animations@[j])@ == animation_without_frame(
                        old_animations[j],
                        path@,
                    ),
            decreases self.animations.len() - i,
        {
            let a = &self.animations[i];
            let timeline = timeline_filtered(&a.timeline, &key);
            animations.push(Animation { name: a.name.clone(), timeline, is_looping: a.is_looping });
            i += 1;
        }
        self.frames = frames;
        self.animations = animations;
        assert(self@.animations =~= old_animations.map_values(
            |a: AnimationModel| animation_without_frame(a, path@),
        ));
    }

    /// Removes the hitboxes named `name` from the first frame whose source is
    /// `path`; does nothing where there is no such frame.
    pub fn delete_hitbox(&mut self, path: &str, name: &str)
        ensures
            final(self)@ == sheet_without_hitbox(old(self)@, path@, name@),
    {
        if let Some(i) = self.frame_position(path) {
            let key = name.to_owned();
            let hitboxes = hitboxes_filtered(&self.frames[i].hitboxes, &key);
            let frame = Frame { source: self.frames[i].source.clone(), hitboxes };
            self.frames.set(i, frame);
            assert(self@.frames =~= old(self)@.frames.update(
                i as int,
                FrameModel {
                    hitboxes: hitboxes_without(old(self)@.frames[i as int].hitboxes, name@),
                    ..old(self)@.frames[i as int]
                },
            ));
        }
    }

    /// Removes every animation named `name`.
    pub fn delete_animation(&mut self, name: &str)
        ensures
            final(self)@ == sheet_without_animation(old(self)@, name@),
    {
        let key = name.to_owned();
        self.animations = animations_filtered(&self.animations, &key);
    }

    /// Removes the animation frame at `frame_index` from the first animation
    /// named `animation_name`; does nothing where there is no such animation or
    /// no such index.
    pub fn delete_animation_frame(&mut self, animation_name: &str, frame_index: usize)
        ensures
            final(self)@ == sheet_without_animation_frame(old(self)@, animation_name@, frame_index as int),
    {
        if let Some(i) = self.animation_position(animation_name) {
            if frame_index < self.animations[i].timeline.len() {
                let animation = &mut self.animations[i];
                animation.timeline.remove(frame_index);
                assert(self.animations@[i as int].timeline@.map_values(|f: AnimationFrame| f@)
                    =~= old(self)@.animations[i as int].timeline.remove(frame_index as int));
                assert(self@.animations =~= old(self)@.animations.update(
                    i as int,
                    AnimationModel {
                        timeline: old(self)@.animations[i as int].timeline.remove(frame_index as int),
                        ..old(self)@.animations[i as int]
                    },
                ));
            }
        }
    }
}


// ---------------------------------------------------------------------------
// Animation timing
// ---------------------------------------------------------------------------

/// The summed duration of the frames of `timeline`, in milliseconds.
pub open spec fn total_duration(timeline: Seq<AnimationFrameModel>) -> int
    decreases timeline.len(),
{
    if timeline.len() == 0 {
        0
    } else {
        total_duration(timeline.drop_last()) + timeline.last().duration
    }
}

/// When the frame at `index` starts playing: the summed duration of the
/// frames before it.
pub open spec fn start_time(timeline: Seq<AnimationFrameModel>, index: int) -> int {
    total_duration(timeline.take(index))
}

/// Whether the frame at `index` is still playing at time `t`, that is
/// whether `t` comes before its end.
pub open spec fn ends_after(timeline: Seq<AnimationFrameModel>, index: int, t: int) -> bool {
    t < start_time(timeline, index + 1)
}

/// The frame shown at time `t` of a single playthrough: the first one that
/// has not ended by `t`; the last one where all have.
pub open spec fn frame_at(timeline: Seq<AnimationFrameModel>, t: int) -> int {
    if exists|i: int| 0 <= i < timeline.len() && ends_after(timeline, i, t) {
        choose|i: int|
            0 <= i < timeline.len() && ends_after(timeline, i, t) && forall|j: int|
                0 <= j < i ==> !ends_after(timeline, j, t)
    } else {
        timeline.len() - 1
    }
}

/// The time of a single playthrough that time `t` falls on: looping
/// animations start over once their duration has elapsed.
pub open spec fn playback_time(animation: AnimationModel, t: int) -> int {
    if animation.is_looping {
        t % total_duration(animation.timeline)
    } else {
        t
    }
}

pub proof fn lemma_start_time_step(timeline: Seq<AnimationFrameModel>, i: int)
    requires
        0 <= i < timeline.len(),
    ensures
        start_time(timeline, i + 1) == start_time(timeline, i) + timeline[i].duration,
{
    assert(timeline.take(i + 1).drop_last() =~= timeline.take(i));
}

pub proof fn lemma_start_time_bounds(timeline: Seq<AnimationFrameModel>, i: int, j: int)
    requires
        0 <= i <= j <= timeline.len(),
    ensures
        0 <= start_time(timeline, i) <= start_time(timeline, j) <= total_duration(timeline),
    decreases j - i,
{
    lemma_total_nonnegative(timeline.take(i));
    lemma_start_time_le_total(timeline, j);
    if i < j {
        lemma_start_time_step(timeline, j - 1);
        lemma_start_time_bounds(timeline, i, j - 1);
    }
}

proof fn lemma_start_time_le_total(timeline: Seq<AnimationFrameModel>, k: int)
    requires
        0 <= k <= timeline.len(),
    ensures
        start_time(timeline, k) <= total_duration(timeline),
    decreases timeline.len() - k,
{
    if k == timeline.len() {
        assert(timeline.take(k) =~= timeline);
    } else {
        lemma_start_time_step(timeline, k);
        lemma_start_time_le_total(timeline, k + 1);
    }
}

pub proof fn lemma_total_nonnegative(timeline: Seq<AnimationFrameModel>)
    ensures
        total_duration(timeline) >= 0,
    decreases timeline.len(),
{
    if timeline.len() > 0 {
        lemma_total_nonnegative(timeline.drop_last());
    }
}

pub(crate) proof fn lemma_frame_at(timeline: Seq<AnimationFrameModel>, t: int, i: int)
    requires
        0 <= i < timeline.len(),
        ends_after(timeline, i, t),
        forall|j: int| 0 <= j < i ==> !ends_after(timeline, j, t),
    ensures
        frame_at(timeline, t) == i,
{
    let c = frame_at(timeline, t);
    assert(0 <= c < timeline.len() && ends_after(timeline, c, t) && forall|j: int|
        0 <= j < c ==> !ends_after(timeline, j, t));
    if c < i {
        assert(!ends_after(timeline, c, t));
    }
    if i < c {
        assert(!ends_after(timeline, i, t));
    }
}

impl AnimationModel {
    /// Whether the summed duration of the frames fits in a `u32`.
    pub open spec fn duration_fits(self) -> bool {
        total_duration(self.timeline) <= u32::MAX
    }
}

impl SheetModel {
    /// Whether every animation's summed duration fits in a `u32`.
    pub open spec fn durations_fit(self) -> bool {
        forall|i: int| 0 <= i < self.animations.len() ==> #[trigger] self.animations[i].duration_fits()
    }
}

impl Animation {
    /// An empty, looping animation named `name`.
    pub fn new(name: &str) -> (r: Animation)
        ensures
            r@ == new_animation_model(name@),
    {
        let r = Animation { name: name.to_owned(), timeline: Vec::new(), is_looping: true };
        assert(r@.timeline =~= Seq::<AnimationFrameModel>::empty());
        r
    }

    pub fn get_name(&self) -> (r: &str)
        ensures
            r@ == self.name@,
    {
        self.name.as_str()
    }

    pub fn get_num_frames(&self) -> (r: usize)
        ensures
            r == self@.timeline.len(),
    {
        self.timeline.len()
    }

    pub fn is_looping(&self) -> (r: bool)
        ensures
            r == self.is_looping,
    {
        self.is_looping
    }

    pub fn set_is_looping(&mut self, new_is_looping: bool)
        ensures
            final(self)@ == (AnimationModel { is_looping: new_is_looping, ..old(self)@ }),
    {
        self.is_looping = new_is_looping;
    }

    /// The summed duration of the frames, in milliseconds; `None` for an
    /// animation without frames.
    pub fn get_duration(&self) -> (r: Option<u32>)
        requires
            self@.duration_fits(),
        ensures
            self@.timeline.len() == 0 ==> r is None,
            self@.timeline.len() > 0 ==> r == Some(total_duration(self@.timeline) as u32),
    {
        if self.timeline.len() == 0 {
            return None;
        }
        let ghost tl = self@.timeline;
        let mut sum: u32 = 0;
        let mut i: usize = 0;
        while i < self.timeline.len()
            invariant
                i <= self.timeline.len(),
                tl == self@.timeline,
                total_duration(tl) <= u32::MAX,
                sum == start_time(tl, i as int),
            decreases self.timeline.len() - i,
        {
            proof {
                lemma_start_time_step(tl, i as int);
                lemma_start_time_bounds(tl, i as int + 1, tl.len() as int);
            }
            sum = sum + self.timeline[i].duration;
            i += 1;
        }
        assert(tl.take(tl.len() as int) =~= tl);
        Some(sum)
    }

    /// When each frame starts playing, in milliseconds from the start.
    pub fn get_frame_times(&self) -> (r: Vec<u64>)
        requires
            self@.duration_fits(),
        ensures
            r@.len() == self@.timeline.len(),
            forall|i: int| 0 <= i < r@.len() ==> r@[i] == start_time(self@.timeline, i),
    {
        let ghost tl = self@.timeline;
        let mut r: Vec<u64> = Vec::new();
        let mut cursor: u64 = 0;
        let mut i: usize = 0;
        while i < self.timeline.len()
            invariant
                i <= self.timeline.len(),
                tl == self@.timeline,
                total_duration(tl) <= u32::MAX,
                cursor == start_time(tl, i as int),
                r@.len() == i,
                forall|j: int| 0 <= j < i ==> r@[j] == start_time(tl, j),
            decreases self.timeline.len() - i,
        {
            proof {
                lemma_start_time_step(tl, i as int);
                lemma_start_time_bounds(tl, i as int + 1, tl.len() as int);
            }
            r.push(cursor);
            cursor = cursor + self.timeline[i].duration as u64;
            i += 1;
        }
        r
    }

    /// The frame at `index`.
    pub fn get_frame(&self, index: usize) -> (r: Option<&AnimationFrame>)
        ensures
            index < self@.timeline.len() ==> (r matches Some(f) && f@ == self@.timeline[index as int]),
            index >= self@.timeline.len() ==> r is None,
    {
        if index >= self.timeline.len() {
            return None;
        }
        Some(&self.timeline[index])
    }

    /// The frame at `index`, to be changed in place.
    pub fn get_frame_mut(&mut self, index: usize) -> (r: Option<&mut AnimationFrame>)
        ensures
            index < old(self).timeline.len() ==> (r matches Some(f) && *f == old(
                self,
            ).timeline[index as int] && final(self).timeline@ == old(self).timeline@.update(
                index as int,
                *final(f),
            ) && final(self).name == old(self).name && final(self).is_looping == old(
                self,
            ).is_looping),
            index >= old(self).timeline.len() ==> r is None && *final(self) == *old(self),
    {
        if index >= self.timeline.len() {
            return None;
        }
        Some(&mut self.timeline[index])
    }

    /// The frames of the animation, in order.
    pub fn frames_iter(&self) -> (r: &[AnimationFrame])
        ensures
            r@ == self.timeline@,
    {
        self.timeline.as_slice()
    }

    /// The frames of the animation, in order, to be changed in place.
    pub fn frames_iter_mut(&mut self) -> (r: &mut [AnimationFrame])
        ensures
            r@ == old(self).timeline@,
            final(self).timeline@ == final(r)@,
            final(self).name == old(self).name,
            final(self).is_looping == old(self).is_looping,
    {
        self.timeline.as_mut_slice()
    }

    /// The frame shown at time `time_ms` (in milliseconds) and its position:
    /// for a looping animation, time wraps around the animation's duration;
    /// past the end of a non-looping one, its last frame. `None` where the
    /// animation has no duration.
    pub fn get_frame_at(&self, time_ms: u128) -> (r: Option<(usize, &AnimationFrame)>)
        requires
            self@.duration_fits(),
        ensures
            total_duration(self@.timeline) == 0 ==> r is None,
            total_duration(self@.timeline) > 0 ==> (r matches Some((i, f)) && i == frame_at(
                self@.timeline,
                playback_time(self@, time_ms as int),
            ) && 0 <= i < self@.timeline.len() && f@ == self@.timeline[i as int]),
    {
        let duration = match self.get_duration() {
            None => {
                assert(total_duration(self@.timeline) == 0);
                return None;
            },
            Some(0) => return None,
            Some(d) => d,
        };
        proof {
            lemma_total_nonnegative(self@.timeline);
        }
        let time: u128 = if self.is_looping {
            time_ms % (duration as u128)
        } else {
            time_ms
        };
        let ghost tl = self@.timeline;
        let mut cursor: u128 = 0;
        let mut i: usize = 0;
        while i < self.timeline.len()
            invariant
                i <= self.timeline.len(),
                tl == self@.timeline,
                total_duration(tl) == duration,
                time == playback_time(self@, time_ms as int),
                cursor == start_time(tl, i as int),
                forall|j: int| 0 <= j < i ==> !ends_after(tl, j, time as int),
            decreases self.timeline.len() - i,
        {
            proof {
                lemma_start_time_step(tl, i as int);
                lemma_start_time_bounds(tl, i as int + 1, tl.len() as int);
            }
            cursor = cursor + self.timeline[i].duration as u128;
            if time < cursor {
                proof {
                    lemma_frame_at(tl, time as int, i as int);
                }
                return Some((i, &self.timeline[i]));
            }
            i += 1;
        }
        proof {
            assert(!exists|i: int| 0 <= i < tl.len() && ends_after(tl, i, time as int));
        }
        let last = self.timeline.len() - 1;
        Some((last, &self.timeline[last]))
    }
}


// ---------------------------------------------------------------------------
// Adding and renaming
// ---------------------------------------------------------------------------

/// A fresh hitbox named `name`: an empty rectangle at the origin.
pub open spec fn new_hitbox_model(name: Seq<char>) -> HitboxModel {
    HitboxModel {
        name,
        geometry: Shape::Rectangle(Rectangle { top_left: (0, 0), size: (0, 0) }),
    }
}

impl Sheet {
    pub(crate) fn frame_sources_vec(&self) -> (r: Vec<String>)
        ensures
            r@.map_values(|s: String| s@) == frame_sources(self@.frames),
    {
        let mut r: Vec<String> = Vec::new();
        let mut i: usize = 0;
        while i < self.frames.len()
            invariant
                i <= self.frames.len(),
                r@.map_values(|s: String| s@) == frame_sources(self@.frames).take(i as int),
            decreases self.frames.len() - i,
        {
            let ghost before = r@;
            r.push(self.frames[i].source.clone());
            assert(r@.map_values(|s: String| s@) =~= before.map_values(|s: String| s@).push(
                self@.frames[i as int].source,
            ));
            assert(r@.map_values(|s: String| s@) =~= frame_sources(self@.frames).take(
                i as int + 1,
            ));
            i += 1;
        }
        assert(frame_sources(self@.frames).take(self.frames.len() as int) =~= frame_sources(
            self@.frames,
        ));
        r
    }

    pub(crate) fn animation_names_vec(&self) -> (r: Vec<String>)
        ensures
            r@.map_values(|s: String| s@) == animation_names(self@.animations),
    {
        let mut r: Vec<String> = Vec::new();
        let mut i: usize = 0;
        while i < self.animations.len()
            invariant
                i <= self.animations.len(),
                r@.map_values(|s: String| s@) == animation_names(self@.animations).take(i as int),
            decreases self.animations.len() - i,
        {
            let ghost before = r@;
            r.push(self.animations[i].name.clone());
            assert(r@.map_values(|s: String| s@) =~= before.map_values(|s: String| s@).push(
                self@.animations[i as int].name,
            ));
            assert(r@.map_values(|s: String| s@) =~= animation_names(self@.animations).take(
                i as int + 1,
            ));
            i += 1;
        }
        assert(animation_names(self@.animations).take(self.animations.len() as int)
            =~= animation_names(self@.animations));
        r
    }

    /// Adds an empty, looping animation under the first of the names "New
    /// Animation", "New Animation 2", "New Animation 3", ... that no animation
    /// has yet, and returns it.
    pub fn add_animation(&mut self) -> (r: &mut Animation)
        requires
            old(self).animations.len() < usize::MAX,
        ensures
            exists|k: int|
                is_first_free_name(animation_names(old(self)@.animations), "New Animation"@, k)
                    && (*r)@ == new_animation_model(numbered_name("New Animation"@, k)),
            final(self).animations@ == old(self).animations@.push(*final(r)),
            final(self).frames == old(self).frames,
            final(self).export_settings == old(self).export_settings,
    {
        let names = self.animation_names_vec();
        assert(names@.len() == names@.map_values(|s: String| s@).len());
        let name = first_free_name(&names, "New Animation");
        let animation = Animation::new(name.as_str());
        self.animations.push(animation);
        let last = self.animations.len() - 1;
        &mut self.animations[last]
    }

    /// Appends a frame showing `frame` to the first animation named
    /// `animation`.
    pub fn add_animation_frame(&mut self, animation: &str, frame: &str) -> (r: Result<(), SheetError>)
        ensures
            !old(self)@.has_frame(frame@) ==> r == Err::<(), SheetError>(SheetError::FrameNotFound)
                && final(self)@ == old(self)@,
            old(self)@.has_frame(frame@) && !old(self)@.has_animation(animation@) ==> r == Err::<
                (),
                SheetError,
            >(SheetError::AnimationNotFound) && final(self)@ == old(self)@,
            old(self)@.has_frame(frame@) && old(self)@.has_animation(animation@) ==> r is Ok
                && final(self)@ == (SheetModel {
                animations: old(self)@.animations.update(
                    old(self)@.animation_index(animation@),
                    AnimationModel {
                        timeline: old(self)@.animations[old(self)@.animation_index(
                            animation@,
                        )].timeline.push(new_animation_frame_model(frame@)),
                        ..old(self)@.animations[old(self)@.animation_index(animation@)]
                    },
                ),
                ..old(self)@
            }),
    {
        if !self.has_frame(frame) {
            return Err(SheetError::FrameNotFound);
        }
        let i = match self.animation_position(animation) {
            Some(i) => i,
            None => return Err(SheetError::AnimationNotFound),
        };
        let animation_frame = AnimationFrame::new(frame);
        let a = &mut self.animations[i];
        a.timeline.push(animation_frame);
        assert(self.animations@[i as int].timeline@.map_values(|f: AnimationFrame| f@)
            =~= old(self)@.animations[i as int].timeline.push(new_animation_frame_model(frame@)));
        assert(self@.animations =~= old(self)@.animations.update(
            i as int,
            AnimationModel {
                timeline: old(self)@.animations[i as int].timeline.push(
                    new_animation_frame_model(frame@),
                ),
                ..old(self)@.animations[i as int]
            },
        ));
        Ok(())
    }

    /// Renames the first animation named `old_name`. Names longer than
    /// `MAX_ANIMATION_NAME_LENGTH` bytes are refused.
    pub fn rename_animation(&mut self, old_name: &str, new_name: &str) -> (r: Result<(), SheetError>)
        ensures
            byte_len(new_name@) > MAX_ANIMATION_NAME_LENGTH ==> r == Err::<(), SheetError>(
                SheetError::AnimationNameTooLong,
            ) && final(self)@ == old(self)@,
            byte_len(new_name@) <= MAX_ANIMATION_NAME_LENGTH && !old(self)@.has_animation(old_name@)
                ==> r == Err::<(), SheetError>(SheetError::AnimationNotFound) && final(self)@ == old(
                self,
            )@,
            byte_len(new_name@) <= MAX_ANIMATION_NAME_LENGTH && old(self)@.has_animation(old_name@)
                ==> r is Ok && final(self)@ == sheet_with_animation_renamed(old(self)@, old_name@, new_name@),
    {
        if new_name.as_bytes().len() > MAX_ANIMATION_NAME_LENGTH {
            return Err(SheetError::AnimationNameTooLong);
        }
        let i = match self.animation_position(old_name) {
            Some(i) => i,
            None => return Err(SheetError::AnimationNotFound),
        };
        let a = &mut self.animations[i];
        a.name = new_name.to_owned();
        assert(self@.animations =~= old(self)@.animations.update(
            i as int,
            AnimationModel { name: new_name@, ..old(self)@.animations[i as int] },
        ));
        Ok(())
    }
}

impl Frame {
    /// The path of the frame's image.
    pub fn get_source(&self) -> (r: &str)
        ensures
            r@ == self.source@,
    {
        self.source.as_str()
    }

    /// The hitboxes of the frame, in order.
    pub fn hitboxes_iter(&self) -> (r: &[Hitbox])
        ensures
            r@ == self.hitboxes@,
    {
        self.hitboxes.as_slice()
    }

    /// The position of the first hitbox named `name`.
    pub fn hitbox_position(&self, name: &str) -> (r: Option<usize>)
        ensures
            match r {
                Some(i) => self@.has_hitbox(name@) && i == self@.hitbox_index(name@) && i
                    < self.hitboxes.len() && self@.hitboxes[i as int].name == name@,
                None => !self@.has_hitbox(name@) && self@.hitbox_index(name@) == -1,
            },
    {
        let key = name.to_owned();
        let mut i: usize = 0;
        while i < self.hitboxes.len()
            invariant
                i <= self.hitboxes.len(),
                key@ == name@,
                forall|j: int| 0 <= j < i ==> hitbox_names(self@.hitboxes)[j] != name@,
            decreases self.hitboxes.len() - i,
        {
            if self.hitboxes[i].name == key {
                proof {
                    lemma_first_index(hitbox_names(self@.hitboxes), name@, i as int);
                }
                return Some(i);
            }
            i += 1;
        }
        proof {
            lemma_first_index_none(hitbox_names(self@.hitboxes), name@);
        }
        None
    }

    /// The first hitbox named `name`.
    pub fn get_hitbox(&self, name: &str) -> (r: Option<&Hitbox>)
        ensures
            match r {
                Some(h) => self@.has_hitbox(name@) && h@ == self@.hitboxes[self@.hitbox_index(name@)],
                None => !self@.has_hitbox(name@),
            },
    {
        match self.hitbox_position(name) {
            Some(i) => Some(&self.hitboxes[i]),
            None => None,
        }
    }

    /// The first hitbox named `name`, to be changed in place.
    pub fn get_hitbox_mut(&mut self, name: &str) -> (r: Option<&mut Hitbox>)
        ensures
            old(self)@.has_hitbox(name@) ==> (r matches Some(h) && {
                let i = old(self)@.hitbox_index(name@);
                &&& (*h)@ == old(self)@.hitboxes[i]
                &&& final(self).hitboxes@ == old(self).hitboxes@.update(i, *final(h))
                &&& final(self).source == old(self).source
            }),
            !old(self)@.has_hitbox(name@) ==> r is None && *final(self) == *old(self),
    {
        match self.hitbox_position(name) {
            Some(i) => Some(&mut self.hitboxes[i]),
            None => None,
        }
    }

    /// Whether some hitbox of the frame is named `name`.
    pub fn has_hitbox(&self, name: &str) -> (r: bool)
        ensures
            r == self@.has_hitbox(name@),
    {
        self.hitbox_position(name).is_some()
    }

    pub(crate) fn hitbox_names_vec(&self) -> (r: Vec<String>)
        ensures
            r@.map_values(|s: String| s@) == hitbox_names(self@.hitboxes),
    {
        let mut r: Vec<String> = Vec::new();
        let mut i: usize = 0;
        while i < self.hitboxes.len()
            invariant
                i <= self.hitboxes.len(),
                r@.map_values(|s: String| s@) == hitbox_names(self@.hitboxes).take(i as int),
            decreases self.hitboxes.len() - i,
        {
            let ghost before = r@;
            r.push(self.hitboxes[i].name.clone());
            assert(r@.map_values(|s: String| s@) =~= before.map_values(|s: String| s@).push(
                self@.hitboxes[i as int].name,
            ));
            assert(r@.map_values(|s: String| s@) =~= hitbox_names(self@.hitboxes).take(
                i as int + 1,
            ));
            i += 1;
        }
        assert(hitbox_names(self@.hitboxes).take(self.hitboxes.len() as int) =~= hitbox_names(
            self@.hitboxes,
        ));
        r
    }

    /// Adds an empty hitbox at the origin under the first of the names "New
    /// Hitbox", "New Hitbox 2", "New Hitbox 3", ... that no hitbox of the frame
    /// has yet, and returns it.
    pub fn add_hitbox(&mut self) -> (r: &mut Hitbox)
        requires
            old(self).hitboxes.len() < usize::MAX,
        ensures
            exists|k: int|
                is_first_free_name(hitbox_names(old(self)@.hitboxes), "New Hitbox"@, k) && (*r)@
                    == new_hitbox_model(numbered_name("New Hitbox"@, k)),
            final(self).hitboxes@ == old(self).hitboxes@.push(*final(r)),
            final(self).source == old(self).source,
    {
        let names = self.hitbox_names_vec();
        assert(names@.len() == names@.map_values(|s: String| s@).len());
        let name = first_free_name(&names, "New Hitbox");
        self.hitboxes.push(
            Hitbox {
                name,
                geometry: Shape::Rectangle(Rectangle { top_left: (0, 0), size: (0, 0) }),
            },
        );
        let last = self.hitboxes.len() - 1;
        &mut self.hitboxes[last]
    }

    /// Renames the first hitbox named `old_name`. Names longer than
    /// `MAX_HITBOX_NAME_LENGTH` bytes are refused.
    pub fn rename_hitbox(&mut self, old_name: &str, new_name: &str) -> (r: Result<(), SheetError>)
        ensures
            byte_len(new_name@) > MAX_HITBOX_NAME_LENGTH ==> r == Err::<(), SheetError>(
                SheetError::HitboxNameTooLong,
            ) && final(self)@ == old(self)@,
            byte_len(new_name@) <= MAX_HITBOX_NAME_LENGTH && !old(self)@.has_hitbox(old_name@) ==> r
                == Err::<(), SheetError>(SheetError::HitboxNotFound) && final(self)@ == old(self)@,
            byte_len(new_name@) <= MAX_HITBOX_NAME_LENGTH && old(self)@.has_hitbox(old_name@) ==> r is Ok
                && final(self)@ == frame_with_hitbox_renamed(old(self)@, old_name@, new_name@),
    {
        if new_name.as_bytes().len() > MAX_HITBOX_NAME_LENGTH {
            return Err(SheetError::HitboxNameTooLong);
        }
        let i = match self.hitbox_position(old_name) {
            Some(i) => i,
            None => return Err(SheetError::HitboxNotFound),
        };
        let h = &mut self.hitboxes[i];
        h.name = new_name.to_owned();
        assert(self@.hitboxes =~= old(self)@.hitboxes.update(
            i as int,
            HitboxModel { name: new_name@, ..old(self)@.hitboxes[i as int] },
        ));
        Ok(())
    }
}

impl Hitbox {
    pub fn get_name(&self) -> (r: &str)
        ensures
            r@ == self.name@,
    {
        self.name.as_str()
    }

    pub fn get_rectangle(&self) -> (r: &Rectangle)
        ensures
            self.geometry == Shape::Rectangle(*r),
    {
        match &self.geometry {
            Shape::Rectangle(r) => r,
        }
    }

    pub fn get_position(&self) -> (r: (i32, i32))
        ensures
            self.geometry == Shape::Rectangle(Rectangle { top_left: r, ..self.get_rectangle_spec() }),
    {
        match &self.geometry {
            Shape::Rectangle(r) => r.top_left,
        }
    }

    pub fn get_size(&self) -> (r: (u32, u32))
        ensures
            self.geometry == Shape::Rectangle(Rectangle { size: r, ..self.get_rectangle_spec() }),
    {
        match &self.geometry {
            Shape::Rectangle(r) => r.size,
        }
    }

    pub fn set_position(&mut self, new_position: (i32, i32))
        ensures
            final(self).name == old(self).name,
            final(self).geometry == Shape::Rectangle(
                Rectangle { top_left: new_position, ..old(self).get_rectangle_spec() },
            ),
    {
        match &mut self.geometry {
            Shape::Rectangle(r) => {
                r.top_left = new_position;
            },
        }
    }

    pub fn set_size(&mut self, new_size: (u32, u32))
        ensures
            final(self).name == old(self).name,
            final(self).geometry == Shape::Rectangle(
                Rectangle { size: new_size, ..old(self).get_rectangle_spec() },
            ),
    {
        match &mut self.geometry {
            Shape::Rectangle(r) => {
                r.size = new_size;
            },
        }
    }
}

impl HitboxModel {
    pub open spec fn rectangle(self) -> Rectangle {
        match self.geometry {
            Shape::Rectangle(r) => r,
        }
    }
}

impl Hitbox {
    pub open spec fn get_rectangle_spec(&self) -> Rectangle {
        match self.geometry {
            Shape::Rectangle(r) => r,
        }
    }
}

impl AnimationFrame {
    /// A frame showing `frame` for 100 milliseconds, not offset.
    pub fn new(frame: &str) -> (r: AnimationFrame)
        ensures
            r@ == new_animation_frame_model(frame@),
    {
        AnimationFrame { frame: frame.to_owned(), duration: 100, offset: (0, 0) }
    }

    pub fn get_frame(&self) -> (r: &str)
        ensures
            r@ == self.frame@,
    {
        self.frame.as_str()
    }

    pub fn get_duration(&self) -> (r: u32)
        ensures
            r == self.duration,
    {
        self.duration
    }

    pub fn get_offset(&self) -> (r: (i32, i32))
        ensures
            r == self.offset,
    {
        self.offset
    }

    pub fn set_duration(&mut self, new_duration: u32)
        ensures
            final(self)@ == (AnimationFrameModel { duration: new_duration, ..old(self)@ }),
    {
        self.duration = new_duration;
    }

    pub fn set_offset(&mut self, new_offset: (i32, i32))
        ensures
            final(self)@ == (AnimationFrameModel { offset: new_offset, ..old(self)@ }),
    {
        self.offset = new_offset;
    }
}


// ---------------------------------------------------------------------------
// Reordering animation frames
// ---------------------------------------------------------------------------

/// `timeline` with the frame at `old_index` moved to where the frame at
/// `new_index` was, that is: placed just before it, or last where
/// `new_index` is the length of the timeline.
pub open spec fn reordered(timeline: Seq<AnimationFrameModel>, old_index: int, new_index: int) -> Seq<
    AnimationFrameModel,
> {
    let moved = timeline[old_index];
    let rest = timeline.remove(old_index);
    if new_index > old_index {
        rest.insert(new_index - 1, moved)
    } else {
        rest.insert(new_index, moved)
    }
}

impl Animation {
    /// Inserts a frame showing `frame` at `index`.
    pub fn insert_frame(&mut self, frame: &str, index: usize) -> (r: Result<(), SheetError>)
        ensures
            index > old(self)@.timeline.len() ==> r == Err::<(), SheetError>(
                SheetError::InvalidFrameIndex,
            ) && final(self)@ == old(self)@,
            index <= old(self)@.timeline.len() ==> r is Ok && final(self)@ == (AnimationModel {
                timeline: old(self)@.timeline.insert(index as int, new_animation_frame_model(frame@)),
                ..old(self)@
            }),
    {
        if index > self.timeline.len() {
            return Err(SheetError::InvalidFrameIndex);
        }
        let animation_frame = AnimationFrame::new(frame);
        self.timeline.insert(index, animation_frame);
        assert(self@.timeline =~= old(self)@.timeline.insert(
            index as int,
            new_animation_frame_model(frame@),
        ));
        Ok(())
    }

    /// Moves the frame at `old_index` to just before the frame at
    /// `new_index` (to the end where `new_index` is the number of frames).
    pub fn reorder_frame(&mut self, old_index: usize, new_index: usize) -> (r: Result<(), SheetError>)
        ensures
            old_index >= old(self)@.timeline.len() || new_index > old(self)@.timeline.len() ==> r
                == Err::<(), SheetError>(SheetError::InvalidFrameIndex) && final(self)@ == old(
                self,
            )@,
            old_index < old(self)@.timeline.len() && new_index <= old(self)@.timeline.len() ==> r is Ok
                && final(self)@ == (AnimationModel {
                timeline: reordered(old(self)@.timeline, old_index as int, new_index as int),
                ..old(self)@
            }),
    {
        if old_index >= self.timeline.len() || new_index > self.timeline.len() {
            return Err(SheetError::InvalidFrameIndex);
        }
        let animation_frame = self.timeline.remove(old_index);
        if new_index > old_index {
            self.timeline.insert(new_index - 1, animation_frame);
        } else {
            self.timeline.insert(new_index, animation_frame);
        }
        assert(self@.timeline =~= reordered(
            old(self)@.timeline,
            old_index as int,
            new_index as int,
        ));
        Ok(())
    }
}

// ---------------------------------------------------------------------------
// Relative and absolute paths
// ---------------------------------------------------------------------------

pub open spec fn absolute_frame(f: FrameModel, dir: Seq<char>) -> FrameModel {
    FrameModel { source: spec_path_join(dir, f.source), ..f }
}

pub open spec fn absolute_animation_frame(f: AnimationFrameModel, dir: Seq<char>) -> AnimationFrameModel {
    AnimationFrameModel { frame: spec_path_join(dir, f.frame), ..f }
}

pub open spec fn absolute_animation(a: AnimationModel, dir: Seq<char>) -> AnimationModel {
    AnimationModel {
        timeline: a.timeline.map_values(|f: AnimationFrameModel| absolute_animation_frame(f, dir)),
        ..a
    }
}

pub open spec fn absolute_format(f: ExportFormatModel, dir: Seq<char>) -> ExportFormatModel {
    match f {
        ExportFormatModel::Template(p) => ExportFormatModel::Template(spec_path_join(dir, p)),
    }
}

pub open spec fn absolute_export_settings(e: ExportSettingsModel, dir: Seq<char>) -> ExportSettingsModel {
    ExportSettingsModel {
        format: absolute_format(e.format, dir),
        texture_destination: spec_path_join(dir, e.texture_destination),
        metadata_destination: spec_path_join(dir, e.metadata_destination),
        metadata_paths_root: spec_path_join(dir, e.metadata_paths_root),
    }
}

/// The sheet with every path it holds joined onto directory `dir`.
pub open spec fn absolute_sheet(s: SheetModel, dir: Seq<char>) -> SheetModel {
    SheetModel {
        frames: s.frames.map_values(|f: FrameModel| absolute_frame(f, dir)),
        animations: s.animations.map_values(|a: AnimationModel| absolute_animation(a, dir)),
        export_settings: match s.export_settings {
            Some(e) => Some(absolute_export_settings(e, dir)),
            None => None,
        },
    }
}

pub open spec fn relative_path(p: Seq<char>, dir: Seq<char>) -> Seq<char> {
    spec_diff_paths(p, dir).unwrap()
}

pub open spec fn can_relativize(p: Seq<char>, dir: Seq<char>) -> bool {
    spec_diff_paths(p, dir) is Some
}

pub open spec fn relative_format(f: ExportFormatModel, dir: Seq<char>) -> ExportFormatModel {
    match f {
        ExportFormatModel::Template(p) => ExportFormatModel::Template(relative_path(p, dir)),
    }
}

pub open spec fn format_can_relativize(f: ExportFormatModel, dir: Seq<char>) -> bool {
    match f {
        ExportFormatModel::Template(p) => can_relativize(p, dir),
    }
}

/// Whether every path of the export settings has a path relative to `dir`.
pub open spec fn export_settings_can_relativize(e: ExportSettingsModel, dir: Seq<char>) -> bool {
    &&& format_can_relativize(e.format, dir)
    &&& can_relativize(e.texture_destination, dir)
    &&& can_relativize(e.metadata_destination, dir)
    &&& can_relativize(e.metadata_paths_root, dir)
}

pub open spec fn relative_export_settings(e: ExportSettingsModel, dir: Seq<char>) -> ExportSettingsModel {
    ExportSettingsModel {
        format: relative_format(e.format, dir),
        texture_destination: relative_path(e.texture_destination, dir),
        metadata_destination: relative_path(e.metadata_destination, dir),
        metadata_paths_root: relative_path(e.metadata_paths_root, dir),
    }
}

pub open spec fn relative_frame(f: FrameModel, dir: Seq<char>) -> FrameModel {
    FrameModel { source: relative_path(f.source, dir), ..f }
}

pub open spec fn relative_animation_frame(f: AnimationFrameModel, dir: Seq<char>) -> AnimationFrameModel {
    AnimationFrameModel { frame: relative_path(f.frame, dir), ..f }
}

pub open spec fn relative_animation(a: AnimationModel, dir: Seq<char>) -> AnimationModel {
    AnimationModel {
        timeline: a.timeline.map_values(|f: AnimationFrameModel| relative_animation_frame(f, dir)),
        ..a
    }
}

/// Whether every frame and every animation frame of the sheet has a path
/// relative to `dir`.
pub open spec fn sheet_can_relativize(s: SheetModel, dir: Seq<char>) -> bool {
    &&& forall|i: int| 0 <= i < s.frames.len() ==> can_relativize(#[trigger] s.frames[i].source, dir)
    &&& forall|i: int, j: int|
        0 <= i < s.animations.len() && 0 <= j < s.animations[i].timeline.len() ==> can_relativize(
            #[trigger] s.animations[i].timeline[j].frame,
            dir,
        )
}

/// The sheet with every path made relative to `dir`; export settings whose
/// paths cannot all be made relative are dropped.
pub open spec fn relative_sheet(s: SheetModel, dir: Seq<char>) -> SheetModel {
    SheetModel {
        frames: s.frames.map_values(|f: FrameModel| relative_frame(f, dir)),
        animations: s.animations.map_values(|a: AnimationModel| relative_animation(a, dir)),
        export_settings: match s.export_settings {
            Some(e) => if export_settings_can_relativize(e, dir) {
                Some(relative_export_settings(e, dir))
            } else {
                None
            },
            None => None,
        },
    }
}

impl ExportFormat {
    /// The format with its template path made relative to `relative_to`.
    pub fn with_relative_paths(&self, relative_to: &str) -> (r: Result<ExportFormat, SheetError>)
        ensures
            format_can_relativize(self@, relative_to@) ==> (r matches Ok(f) && f@ == relative_format(
                self@,
                relative_to@,
            )),
            !format_can_relativize(self@, relative_to@) ==> r == Err::<ExportFormat, SheetError>(
                SheetError::AbsoluteToRelativePath,
            ),
    {
        match self {
            ExportFormat::Template(p) => match diff_paths(p.as_str(), relative_to) {
                Some(q) => Ok(ExportFormat::Template(q)),
                None => Err(SheetError::AbsoluteToRelativePath),
            },
        }
    }

    /// The format with its template path joined onto `relative_to`.
    pub fn with_absolute_paths(&self, relative_to: &str) -> (r: ExportFormat)
        ensures
            r@ == absolute_format(self@, relative_to@),
    {
        match self {
            ExportFormat::Template(p) => ExportFormat::Template(path_join(relative_to, p.as_str())),
        }
    }
}

impl ExportSettings {
    /// Export settings with an empty template path and empty destinations.
    pub fn new() -> (r: ExportSettings)
        ensures
            r@ == (ExportSettingsModel {
                format: ExportFormatModel::Template(Seq::empty()),
                texture_destination: Seq::empty(),
                metadata_destination: Seq::empty(),
                metadata_paths_root: Seq::empty(),
            }),
    {
        let r = ExportSettings {
            format: ExportFormat::Template(String::new()),
            texture_destination: String::new(),
            metadata_destination: String::new(),
            metadata_paths_root: String::new(),
        };
        r
    }

    /// The settings with every path made relative to `relative_to`.
    pub fn with_relative_paths(&self, relative_to: &str) -> (r: Result<ExportSettings, SheetError>)
        ensures
            export_settings_can_relativize(self@, relative_to@) ==> (r matches Ok(e) && e@
                == relative_export_settings(self@, relative_to@)),
            !export_settings_can_relativize(self@, relative_to@) ==> r == Err::<
                ExportSettings,
                SheetError,
            >(SheetError::AbsoluteToRelativePath),
    {
        let format = self.format.with_relative_paths(relative_to)?;
        let texture_destination = match diff_paths(self.texture_destination.as_str(), relative_to) {
            Some(p) => p,
            None => return Err(SheetError::AbsoluteToRelativePath),
        };
        let metadata_destination = match diff_paths(self.metadata_destination.as_str(), relative_to) {
            Some(p) => p,
            None => return Err(SheetError::AbsoluteToRelativePath),
        };
        let metadata_paths_root = match diff_paths(self.metadata_paths_root.as_str(), relative_to) {
            Some(p) => p,
            None => return Err(SheetError::AbsoluteToRelativePath),
        };
        Ok(ExportSettings { format, texture_destination, metadata_destination, metadata_paths_root })
    }

    /// The settings with every path joined onto `relative_to`.
    pub fn with_absolute_paths(&self, relative_to: &str) -> (r: ExportSettings)
        ensures
            r@ == absolute_export_settings(self@, relative_to@),
    {
        ExportSettings {
            format: self.format.with_absolute_paths(relative_to),
            texture_destination: path_join(relative_to, self.texture_destination.as_str()),
            metadata_destination: path_join(relative_to, self.metadata_destination.as_str()),
            metadata_paths_root: path_join(relative_to, self.metadata_paths_root.as_str()),
        }
    }
}


impl Animation {
    fn with_absolute_paths(&self, relative_to: &str) -> (r: Animation)
        ensures
            r@ == absolute_animation(self@, relative_to@),
    {
        let mut timeline: Vec<AnimationFrame> = Vec::new();
        let mut i: usize = 0;
        while i < self.timeline.len()
            invariant
                i <= self.timeline.len(),
                timeline@.len() == i,
                forall|j: int|
                    0 <= j < i ==> (#[trigger] timeline@[j])@ == absolute_animation_frame(
                        self@.timeline[j],
                        relative_to@,
                    ),
            decreases self.timeline.len() - i,
        {
            let f = &self.timeline[i];
            timeline.push(
                AnimationFrame {
                    frame: path_join(relative_to, f.frame.as_str()),
                    duration: f.duration,
                    offset: f.offset,
                },
            );
            i += 1;
        }
        let r = Animation { name: self.name.clone(), timeline, is_looping: self.is_looping };
        assert(r@.timeline =~= self@.timeline.map_values(
            |f: AnimationFrameModel| absolute_animation_frame(f, relative_to@),
        ));
        r
    }

    fn with_relative_paths(&self, relative_to: &str) -> (r: Option<Animation>)
        ensures
            (forall|j: int|
                0 <= j < self@.timeline.len() ==> can_relativize(
                    #[trigger] self@.timeline[j].frame,
                    relative_to@,
                )) ==> (r matches Some(a) && a@ == relative_animation(self@, relative_to@)),
            !(forall|j: int|
                0 <= j < self@.timeline.len() ==> can_relativize(
                    #[trigger] self@.timeline[j].frame,
                    relative_to@,
                )) ==> r is None,
    {
        let mut timeline: Vec<AnimationFrame> = Vec::new();
        let mut i: usize = 0;
        while i < self.timeline.len()
            invariant
                i <= self.timeline.len(),
                timeline@.len() == i,
                forall|j: int|
                    0 <= j < i ==> can_relativize(#[trigger] self@.timeline[j].frame, relative_to@),
                forall|j: int|
                    0 <= j < i ==> (#[trigger] timeline@[j])@ == relative_animation_frame(
                        self@.timeline[j],
                        relative_to@,
                    ),
            decreases self.timeline.len() - i,
        {
            let f = &self.timeline[i];
            let frame = match diff_paths(f.frame.as_str(), relative_to) {
                Some(p) => p,
                None => {
                    assert(!can_relativize(self@.timeline[i as int].frame, relative_to@));
                    return None;
                },
            };
            timeline.push(AnimationFrame { frame, duration: f.duration, offset: f.offset });
            i += 1;
        }
        let r = Animation { name: self.name.clone(), timeline, is_looping: self.is_looping };
        assert(r@.timeline =~= self@.timeline.map_values(
            |f: AnimationFrameModel| relative_animation_frame(f, relative_to@),
        ));
        Some(r)
    }
}

impl Sheet {
    /// The sheet with every path it holds (frame sources, the frames that
    /// animations show, export settings) joined onto directory `relative_to`.
    pub fn with_absolute_paths(&self, relative_to: &str) -> (r: Sheet)
        ensures
            r@ == absolute_sheet(self@, relative_to@),
    {
        let mut frames: Vec<Frame> = Vec::new();
        let mut i: usize = 0;
        while i < self.frames.len()
            invariant
                i <= self.frames.len(),
                frames@.len() == i,
                forall|j: int|
                    0 <= j < i ==> (#[trigger] frames@[j])@ == absolute_frame(
                        self@.frames[j],
                        relative_to@,
                    ),
            decreases self.frames.len() - i,
        {
            let f = &self.frames[i];
            let hitboxes = f.hitboxes.clone();
            assert(hitboxes@.map_values(|h: Hitbox| h@) =~= f.hitboxes@.map_values(|h: Hitbox| h@));
            frames.push(Frame { source: path_join(relative_to, f.source.as_str()), hitboxes });
            i += 1;
        }
        let mut animations: Vec<Animation> = Vec::new();
        let mut i: usize = 0;
        while i < self.animations.len()
            invariant
                i <= self.animations.len(),
                animations@.len() == i,
                forall|j: int|
                    0 <= j < i ==> (#[trigger] animations@[j])@ == absolute_animation(
                        self@.animations[j],
                        relative_to@,
                    ),
            decreases self.animations.len() - i,
        {
            animations.push(self.animations[i].with_absolute_paths(relative_to));
            i += 1;
        }
        let export_settings = match &self.export_settings {
            Some(e) => Some(e.with_absolute_paths(relative_to)),
            None => None,
        };
        let r = Sheet { frames, animations, export_settings };
        assert(r@.frames =~= self@.frames.map_values(
            |f: FrameModel| absolute_frame(f, relative_to@),
        ));
        assert(r@.animations =~= self@.animations.map_values(
            |a: AnimationModel| absolute_animation(a, relative_to@),
        ));
        r
    }

    /// The sheet with every path it holds made relative to directory
    /// `relative_to`. Fails where a frame source or a frame shown by an
    /// animation has no such relative path; export settings whose paths
    /// cannot all be made relative are dropped.
    pub fn with_relative_paths(&self, relative_to: &str) -> (r: Result<Sheet, SheetError>)
        ensures
            sheet_can_relativize(self@, relative_to@) ==> (r matches Ok(s) && s@ == relative_sheet(
                self@,
                relative_to@,
            )),
            !sheet_can_relativize(self@, relative_to@) ==> r == Err::<Sheet, SheetError>(
                SheetError::AbsoluteToRelativePath,
            ),
    {
        let mut frames: Vec<Frame> = Vec::new();
        let mut i: usize = 0;
        while i < self.frames.len()
            invariant
                i <= self.frames.len(),
                frames@.len() == i,
                forall|j: int|
                    0 <= j < i ==> can_relativize(#[trigger] self@.frames[j].source, relative_to@),
                forall|j: int|
                    0 <= j < i ==> (#[trigger] frames@[j])@ == relative_frame(
                        self@.frames[j],
                        relative_to@,
                    ),
            decreases self.frames.len() - i,
        {
            let f = &self.frames[i];
            let source = match diff_paths(f.source.as_str(), relative_to) {
                Some(p) => p,
                None => {
                    assert(!can_relativize(self@.frames[i as int].source, relative_to@));
                    return Err(SheetError::AbsoluteToRelativePath);
                },
            };
            let hitboxes = f.hitboxes.clone();
            assert(hitboxes@.map_values(|h: Hitbox| h@) =~= f.hitboxes@.map_values(|h: Hitbox| h@));
            frames.push(Frame { source, hitboxes });
            i += 1;
        }
        let mut animations: Vec<Animation> = Vec::new();
        let mut i: usize = 0;
        while i < self.animations.len()
            invariant
                i <= self.animations.len(),
                animations@.len() == i,
                forall|j: int| 0 <= j < self@.frames.len() ==> can_relativize(#[trigger] self@.frames[j].source, relative_to@),
                forall|k: int, j: int|
                    0 <= k < i && 0 <= j < self@.animations[k].timeline.len() ==> can_relativize(
                        #[trigger] self@.animations[k].timeline[j].frame,
                        relative_to@,
                    ),
                forall|j: int|
                    0 <= j < i ==> (#[trigger] animations@[j])@ == relative_animation(
                        self@.animations[j],
                        relative_to@,
                    ),
            decreases self.animations.len() - i,
        {
            match self.animations[i].with_relative_paths(relative_to) {
                Some(a) => animations.push(a),
                None => {
                    assert(self.animations@[i as int]@ == self@.animations[i as int]);
                    let ghost j = choose|j: int|
                        0 <= j < self@.animations[i as int].timeline.len() && !can_relativize(
                            self@.animations[i as int].timeline[j].frame,
                            relative_to@,
                        );
                    assert(!can_relativize(self@.animations[i as int].timeline[j].frame, relative_to@));
                    return Err(SheetError::AbsoluteToRelativePath);
                },
            }
            i += 1;
        }
        let export_settings = match &self.export_settings {
            Some(e) => match e.with_relative_paths(relative_to) {
                Ok(e) => Some(e),
                Err(_) => None,
            },
            None => None,
        };
        let r = Sheet { frames, animations, export_settings };
        assert(r@.frames =~= self@.frames.map_values(
            |f: FrameModel| relative_frame(f, relative_to@),
        ));
        assert(r@.animations =~= self@.animations.map_values(
            |a: AnimationModel| relative_animation(a, relative_to@),
        ));
        Ok(r)
    }
}


// ---------------------------------------------------------------------------
// Comparisons
// ---------------------------------------------------------------------------

impl Hitbox {
    /// Whether `self` and `other` are the same hitbox.
    pub fn same_as(&self, other: &Hitbox) -> (r: bool)
        ensures
            r == (self@ == other@),
    {
        let a = self.get_rectangle();
        let b = other.get_rectangle();
        self.name == other.name && a.top_left.0 == b.top_left.0 && a.top_left.1 == b.top_left.1
            && a.size.0 == b.size.0 && a.size.1 == b.size.1
    }
}

impl Frame {
    /// Whether `self` and `other` are the same frame.
    pub fn same_as(&self, other: &Frame) -> (r: bool)
        ensures
            r == (self@ == other@),
    {
        if self.source != other.source || self.hitboxes.len() != other.hitboxes.len() {
            assert(self@.hitboxes.len() == self.hitboxes.len() && other@.hitboxes.len()
                == other.hitboxes.len());
            return false;
        }
        let mut i: usize = 0;
        while i < self.hitboxes.len()
            invariant
                i <= self.hitboxes.len(),
                self.hitboxes.len() == other.hitboxes.len(),
                forall|j: int| 0 <= j < i ==> self@.hitboxes[j] == other@.hitboxes[j],
            decreases self.hitboxes.len() - i,
        {
            if !self.hitboxes[i].same_as(&other.hitboxes[i]) {
                assert(self@.hitboxes[i as int] != other@.hitboxes[i as int]);
                return false;
            }
            i += 1;
        }
        assert(self@.hitboxes =~= other@.hitboxes);
        true
    }
}

impl AnimationFrame {
    /// Whether `self` and `other` are the same animation frame.
    pub fn same_as(&self, other: &AnimationFrame) -> (r: bool)
        ensures
            r == (self@ == other@),
    {
        self.frame == other.frame && self.duration == other.duration && self.offset.0
            == other.offset.0 && self.offset.1 == other.offset.1
    }
}

impl Animation {
    /// Whether `self` and `other` are the same animation.
    pub fn same_as(&self, other: &Animation) -> (r: bool)
        ensures
            r == (self@ == other@),
    {
        if self.name != other.name || self.is_looping != other.is_looping || self.timeline.len()
            != other.timeline.len() {
            assert(self@.timeline.len() == self.timeline.len() && other@.timeline.len()
                == other.timeline.len());
            return false;
        }
        let mut i: usize = 0;
        while i < self.timeline.len()
            invariant
                i <= self.timeline.len(),
                self.timeline.len() == other.timeline.len(),
                forall|j: int| 0 <= j < i ==> self@.timeline[j] == other@.timeline[j],
            decreases self.timeline.len() - i,
        {
            if !self.timeline[i].same_as(&other.timeline[i]) {
                assert(self@.timeline[i as int] != other@.timeline[i as int]);
                return false;
            }
            i += 1;
        }
        assert(self@.timeline =~= other@.timeline);
        true
    }
}

impl ExportSettings {
    /// Whether `self` and `other` are the same settings.
    pub fn same_as(&self, other: &ExportSettings) -> (r: bool)
        ensures
            r == (self@ == other@),
    {
        let formats_match = match (&self.format, &other.format) {
            (ExportFormat::Template(a), ExportFormat::Template(b)) => *a == *b,
        };
        formats_match && self.texture_destination == other.texture_destination
            && self.metadata_destination == other.metadata_destination && self.metadata_paths_root
            == other.metadata_paths_root
    }
}

impl Sheet {
    /// Whether `self` and `other` are the same sheet.
    pub fn same_as(&self, other: &Sheet) -> (r: bool)
        ensures
            r == (self@ == other@),
    {
        let settings_match = match (&self.export_settings, &other.export_settings) {
            (Some(a), Some(b)) => a.same_as(b),
            (None, None) => true,
            _ => false,
        };
        if !settings_match || self.frames.len() != other.frames.len() || self.animations.len()
            != other.animations.len() {
            assert(self@.frames.len() == self.frames.len() && other@.frames.len()
                == other.frames.len());
            assert(self@.animations.len() == self.animations.len() && other@.animations.len()
                == other.animations.len());
            return false;
        }
        let mut i: usize = 0;
        while i < self.frames.len()
            invariant
                i <= self.frames.len(),
                self.frames.len() == other.frames.len(),
                forall|j: int| 0 <= j < i ==> self@.frames[j] == other@.frames[j],
            decreases self.frames.len() - i,
        {
            if !self.frames[i].same_as(&other.frames[i]) {
                assert(self@.frames[i as int] != other@.frames[i as int]);
                return false;
            }
            i += 1;
        }
        let mut i: usize = 0;
        while i < self.animations.len()
            invariant
                i <= self.animations.len(),
                self.animations.len() == other.animations.len(),
                forall|j: int| 0 <= j < i ==> self@.animations[j] == other@.animations[j],
            decreases self.animations.len() - i,
        {
            if !self.animations[i].same_as(&other.animations[i]) {
                assert(self@.animations[i as int] != other@.animations[i as int]);
                return false;
            }
            i += 1;
        }
        assert(self@.frames =~= other@.frames);
        assert(self@.animations =~= other@.animations);
        true
    }
}

} // verus!
