//! What an export writes about a sheet: for each frame where its image lies
//! in the packed texture, its hitboxes, and each animation's frames, all in
//! whole pixels. A template turns this data into the metadata file.

use vstd::prelude::*;
use crate::paths::{diff_paths, spec_diff_paths};
use crate::sheet::{
    AnimationFrameModel, AnimationModel, ExportSettings, HitboxModel, Sheet, SheetModel,
};

verus! {

/// Where a frame's image lies in the packed texture.
#[derive(Clone, Copy, Debug)]
pub struct PackedFrame {
    pub position_in_sheet: (u32, u32),
    pub size_in_sheet: (u32, u32),
}

/// What building the export data can fail with.
#[derive(Clone, Copy, Debug, PartialEq, Eq, Structural)]
pub enum ExportError {
    TemplateParsingError,
    TemplateRenderingError,
    InvalidFrameReference,
    FrameWasNotPacked,
    AbsoluteToRelativePath,
}

/// A hitbox, placed from its frame's center and from its frame's top-left
/// corner.
#[derive(Debug)]
pub struct HitboxData {
    pub name: String,
    pub left_from_frame_center: i32,
    pub top_from_frame_center: i32,
    pub left_from_frame_left: i32,
    pub top_from_frame_top: i32,
    pub width: i32,
    pub height: i32,
}

/// A frame: its image, its position in the sheet, where it lies in the
/// texture, and its hitboxes.
#[derive(Debug)]
pub struct FrameData {
    pub source: String,
    pub index: i32,
    pub x: i32,
    pub y: i32,
    pub width: i32,
    pub height: i32,
    pub hitboxes: Vec<HitboxData>,
}

/// An animation frame: how long it shows, where its center and its top-left
/// corner are drawn, and the frame it shows.
#[derive(Debug)]
pub struct AnimationFrameData {
    pub duration: i32,
    pub center_offset_x: i32,
    pub center_offset_y: i32,
    pub top_left_offset_x: i32,
    pub top_left_offset_y: i32,
    pub frame: FrameData,
}

#[derive(Debug)]
pub struct AnimationData {
    pub name: String,
    pub is_looping: bool,
    pub keyframes: Vec<AnimationFrameData>,
}

/// Everything an export writes about a sheet.
#[derive(Debug)]
pub struct SheetData {
    pub frames: Vec<FrameData>,
    pub animations: Vec<AnimationData>,
    /// The texture's path, relative to the root of the metadata's paths.
    pub sheet_image: String,
}

pub struct HitboxDataModel {
    pub name: Seq<char>,
    pub left_from_frame_center: i32,
    pub top_from_frame_center: i32,
    pub left_from_frame_left: i32,
    pub top_from_frame_top: i32,
    pub width: i32,
    pub height: i32,
}

pub struct FrameDataModel {
    pub source: Seq<char>,
    pub index: i32,
    pub x: i32,
    pub y: i32,
    pub width: i32,
    pub height: i32,
    pub hitboxes: Seq<HitboxDataModel>,
}

pub struct AnimationFrameDataModel {
    pub duration: i32,
    pub center_offset_x: i32,
    pub center_offset_y: i32,
    pub top_left_offset_x: i32,
    pub top_left_offset_y: i32,
    pub frame: FrameDataModel,
}

pub struct AnimationDataModel {
    pub name: Seq<char>,
    pub is_looping: bool,
    pub keyframes: Seq<AnimationFrameDataModel>,
}

pub struct SheetDataModel {
    pub frames: Seq<FrameDataModel>,
    pub animations: Seq<AnimationDataModel>,
    pub sheet_image: Seq<char>,
}

impl View for HitboxData {
    type V = HitboxDataModel;

    open spec fn view(&self) -> HitboxDataModel {
        HitboxDataModel {
            name: self.name@,
            left_from_frame_center: self.left_from_frame_center,
            top_from_frame_center: self.top_from_frame_center,
            left_from_frame_left: self.left_from_frame_left,
            top_from_frame_top: self.top_from_frame_top,
            width: self.width,
            height: self.height,
        }
    }
}

impl View for FrameData {
    type V = FrameDataModel;

    open spec fn view(&self) -> FrameDataModel {
        FrameDataModel {
            source: self.source@,
            index: self.index,
            x: self.x,
            y: self.y,
            width: self.width,
            height: self.height,
            hitboxes: self.hitboxes@.map_values(|h: HitboxData| h@),
        }
    }
}

impl View for AnimationFrameData {
    type V = AnimationFrameDataModel;

    open spec fn view(&self) -> AnimationFrameDataModel {
        AnimationFrameDataModel {
            duration: self.duration,
            center_offset_x: self.center_offset_x,
            center_offset_y: self.center_offset_y,
            top_left_offset_x: self.top_left_offset_x,
            top_left_offset_y: self.top_left_offset_y,
            frame: self.frame@,
        }
    }
}

impl View for AnimationData {
    type V = AnimationDataModel;

    open spec fn view(&self) -> AnimationDataModel {
        AnimationDataModel {
            name: self.name@,
            is_looping: self.is_looping,
            keyframes: self.keyframes@.map_values(|k: AnimationFrameData| k@),
        }
    }
}

impl View for SheetData {
    type V = SheetDataModel;

    open spec fn view(&self) -> SheetDataModel {
        SheetDataModel {
            frames: self.frames@.map_values(|f: FrameData| f@),
            animations: self.animations@.map_values(|a: AnimationData| a@),
            sheet_image: self.sheet_image@,
        }
    }
}

/// Where each packed frame lies, by the path of its image.
pub open spec fn layout_model(layout: Seq<(String, PackedFrame)>) -> Seq<(Seq<char>, PackedFrame)> {
    layout.map_values(|e: (String, PackedFrame)| (e.0@, e.1))
}

/// The first entry of the layout for `path`.
pub open spec fn packed(layout: Seq<(Seq<char>, PackedFrame)>, path: Seq<char>) -> Option<PackedFrame> {
    if exists|i: int| 0 <= i < layout.len() && layout[i].0 == path {
        Some(
            layout[choose|i: int|
                0 <= i < layout.len() && layout[i].0 == path && forall|j: int|
                    0 <= j < i ==> layout[j].0 != path].1,
        )
    } else {
        None
    }
}

/// Half a frame's extent, rounded down: sizes are halved as `f32`s, which
/// hold them exactly up to 2^24.
pub open spec fn half(x: u32) -> int {
    x as int / 2
}

/// The largest image extent whose half an `f32` computes exactly.
pub const MAX_EXACT_EXTENT: u32 = 16777216;

pub open spec fn fits_i32(v: int) -> bool {
    i32::MIN <= v <= i32::MAX
}

/// The data of a hitbox of a frame packed as `p`.
pub open spec fn hitbox_data(h: HitboxModel, p: PackedFrame) -> HitboxDataModel {
    let position = h.rectangle().top_left;
    let size = h.rectangle().size;
    HitboxDataModel {
        name: h.name,
        left_from_frame_center: position.0,
        top_from_frame_center: position.1,
        left_from_frame_left: (position.0 + half(p.size_in_sheet.0)) as i32,
        top_from_frame_top: (position.1 + half(p.size_in_sheet.1)) as i32,
        width: size.0 as i32,
        height: size.1 as i32,
    }
}

/// Whether a hitbox's data fits in `i32`s, its frame being packed as `p`.
pub open spec fn hitbox_data_fits(h: HitboxModel, p: PackedFrame) -> bool {
    &&& p.size_in_sheet.0 <= MAX_EXACT_EXTENT && p.size_in_sheet.1 <= MAX_EXACT_EXTENT
    &&& fits_i32(h.rectangle().top_left.0 + half(p.size_in_sheet.0))
    &&& fits_i32(h.rectangle().top_left.1 + half(p.size_in_sheet.1))
}

/// The data of the frame at `index` of the sheet, or why there is none.
#[verifier::opaque]
pub open spec fn frame_data(
    sheet: SheetModel,
    index: int,
    layout: Seq<(Seq<char>, PackedFrame)>,
) -> Result<FrameDataModel, ExportError> {
    let f = sheet.frames[index];
    match packed(layout, f.source) {
        None => Err(ExportError::FrameWasNotPacked),
        Some(p) => Ok(
            FrameDataModel {
                source: f.source,
                index: index as i32,
                x: p.position_in_sheet.0 as i32,
                y: p.position_in_sheet.1 as i32,
                width: p.size_in_sheet.0 as i32,
                height: p.size_in_sheet.1 as i32,
                hitboxes: f.hitboxes.map_values(|h: HitboxModel| hitbox_data(h, p)),
            },
        ),
    }
}

/// Whether the data of every packed frame of the sheet fits in `i32`s.
pub open spec fn frames_fit(sheet: SheetModel, layout: Seq<(Seq<char>, PackedFrame)>) -> bool {
    forall|i: int, j: int|
        0 <= i < sheet.frames.len() && 0 <= j < sheet.frames[i].hitboxes.len() ==> (
        packed(layout, sheet.frames[i].source) matches Some(p) ==> hitbox_data_fits(
            #[trigger] sheet.frames[i].hitboxes[j],
            p,
        ))
}

/// The data of an animation frame, or why there is none.
#[verifier::opaque]
pub open spec fn animation_frame_data(
    sheet: SheetModel,
    k: AnimationFrameModel,
    layout: Seq<(Seq<char>, PackedFrame)>,
) -> Result<AnimationFrameDataModel, ExportError> {
    match packed(layout, k.frame) {
        None => Err(ExportError::FrameWasNotPacked),
        Some(p) => if !sheet.has_frame(k.frame) {
            Err(ExportError::InvalidFrameReference)
        } else {
            match frame_data(sheet, sheet.frame_index(k.frame), layout) {
                Err(e) => Err(e),
                Ok(frame) => Ok(
                    AnimationFrameDataModel {
                        duration: k.duration as i32,
                        center_offset_x: k.offset.0,
                        center_offset_y: k.offset.1,
                        top_left_offset_x: (k.offset.0 - half(p.size_in_sheet.0)) as i32,
                        top_left_offset_y: (k.offset.1 - half(p.size_in_sheet.1)) as i32,
                        frame,
                    },
                ),
            }
        },
    }
}

/// Whether the data of an animation frame fits in `i32`s.
pub open spec fn animation_frame_fits(k: AnimationFrameModel, layout: Seq<(Seq<char>, PackedFrame)>) -> bool {
    packed(layout, k.frame) matches Some(p) ==> {
        &&& p.size_in_sheet.0 <= MAX_EXACT_EXTENT && p.size_in_sheet.1 <= MAX_EXACT_EXTENT
        &&& fits_i32(k.offset.0 - half(p.size_in_sheet.0))
        &&& fits_i32(k.offset.1 - half(p.size_in_sheet.1))
    }
}

/// The data of the first `n` frames of the timeline, or the first error.
pub open spec fn keyframes_data(
    sheet: SheetModel,
    timeline: Seq<AnimationFrameModel>,
    layout: Seq<(Seq<char>, PackedFrame)>,
    n: int,
) -> Result<Seq<AnimationFrameDataModel>, ExportError>
    decreases n,
{
    if n <= 0 {
        Ok(seq![])
    } else {
        match keyframes_data(sheet, timeline, layout, n - 1) {
            Err(e) => Err(e),
            Ok(done) => match animation_frame_data(sheet, timeline[n - 1], layout) {
                Err(e) => Err(e),
                Ok(d) => Ok(done.push(d)),
            },
        }
    }
}

/// The data of an animation, or the first error among its frames.
#[verifier::opaque]
pub open spec fn animation_data(
    sheet: SheetModel,
    a: AnimationModel,
    layout: Seq<(Seq<char>, PackedFrame)>,
) -> Result<AnimationDataModel, ExportError> {
    match keyframes_data(sheet, a.timeline, layout, a.timeline.len() as int) {
        Err(e) => Err(e),
        Ok(keyframes) => Ok(AnimationDataModel { name: a.name, is_looping: a.is_looping, keyframes }),
    }
}

/// The data of the first `n` frames of the sheet, or the first error.
pub open spec fn frames_data(sheet: SheetModel, layout: Seq<(Seq<char>, PackedFrame)>, n: int) -> Result<
    Seq<FrameDataModel>,
    ExportError,
>
    decreases n,
{
    if n <= 0 {
        Ok(seq![])
    } else {
        match frames_data(sheet, layout, n - 1) {
            Err(e) => Err(e),
            Ok(done) => match frame_data(sheet, n - 1, layout) {
                Err(e) => Err(e),
                Ok(d) => Ok(done.push(d)),
            },
        }
    }
}

/// The data of the first `n` animations of the sheet, or the first error.
pub open spec fn animations_data(sheet: SheetModel, layout: Seq<(Seq<char>, PackedFrame)>, n: int) -> Result<
    Seq<AnimationDataModel>,
    ExportError,
>
    decreases n,
{
    if n <= 0 {
        Ok(seq![])
    } else {
        match animations_data(sheet, layout, n - 1) {
            Err(e) => Err(e),
            Ok(done) => match animation_data(sheet, sheet.animations[n - 1], layout) {
                Err(e) => Err(e),
                Ok(d) => Ok(done.push(d)),
            },
        }
    }
}

/// Everything an export writes about a sheet, or the first error: frames
/// first, then animations, then the texture's path.
pub open spec fn sheet_data(
    sheet: SheetModel,
    texture_destination: Seq<char>,
    metadata_paths_root: Seq<char>,
    layout: Seq<(Seq<char>, PackedFrame)>,
) -> Result<SheetDataModel, ExportError> {
    match frames_data(sheet, layout, sheet.frames.len() as int) {
        Err(e) => Err(e),
        Ok(frames) => match animations_data(sheet, layout, sheet.animations.len() as int) {
            Err(e) => Err(e),
            Ok(animations) => match spec_diff_paths(texture_destination, metadata_paths_root) {
                None => Err(ExportError::AbsoluteToRelativePath),
                Some(sheet_image) => Ok(SheetDataModel { frames, animations, sheet_image }),
            },
        },
    }
}

/// Whether every number the export writes about the sheet fits in an `i32`.
pub open spec fn export_fits(sheet: SheetModel, layout: Seq<(Seq<char>, PackedFrame)>) -> bool {
    &&& frames_fit(sheet, layout)
    &&& forall|i: int, j: int|
        0 <= i < sheet.animations.len() && 0 <= j < sheet.animations[i].timeline.len()
            ==> animation_frame_fits(#[trigger] sheet.animations[i].timeline[j], layout)
}

fn find_packed(layout: &Vec<(String, PackedFrame)>, path: &String) -> (r: Option<PackedFrame>)
    ensures
        r == packed(layout_model(layout@), path@),
{
    let ghost m = layout_model(layout@);
    let mut i: usize = 0;
    while i < layout.len()
        invariant
            i <= layout.len(),
            m == layout_model(layout@),
            forall|j: int| 0 <= j < i ==> m[j].0 != path@,
        decreases layout.len() - i,
    {
        if layout[i].0 == *path {
            proof {
                let k = i as int;
                assert(0 <= k < m.len() && m[k].0 == path@ && forall|j: int|
                    0 <= j < k ==> m[j].0 != path@);
                let c = choose|c: int|
                    0 <= c < m.len() && m[c].0 == path@ && forall|j: int|
                        0 <= j < c ==> m[j].0 != path@;
                if c < k {
                    assert(m[c].0 != path@);
                }
                if k < c {
                    assert(m[k].0 != path@);
                }
            }
            return Some(layout[i].1);
        }
        i += 1;
    }
    None
}

fn half_extent(x: u32) -> (r: i32)
    requires
        x <= MAX_EXACT_EXTENT,
    ensures
        r == half(x),
{
    (x / 2) as i32
}

/// The export data of a hitbox of a frame packed as `packed_frame`.
pub fn hitbox_export_data(hitbox: &crate::sheet::Hitbox, packed_frame: &PackedFrame) -> (r: HitboxData)
    requires
        hitbox_data_fits(hitbox@, *packed_frame),
    ensures
        r@ == hitbox_data(hitbox@, *packed_frame),
{
    let position = hitbox.get_position();
    let size = hitbox.get_size();
    HitboxData {
        name: hitbox.get_name().to_owned(),
        left_from_frame_center: position.0,
        top_from_frame_center: position.1,
        left_from_frame_left: position.0 + half_extent(packed_frame.size_in_sheet.0),
        top_from_frame_top: position.1 + half_extent(packed_frame.size_in_sheet.1),
        width: size.0 as i32,
        height: size.1 as i32,
    }
}

/// The export data of the frame at `index` of the sheet.
pub fn frame_export_data(sheet: &Sheet, index: usize, layout: &Vec<(String, PackedFrame)>) -> (r: Result<
    FrameData,
    ExportError,
>)
    requires
        index < sheet.frames.len(),
        frames_fit(sheet@, layout_model(layout@)),
    ensures
        match frame_data(sheet@, index as int, layout_model(layout@)) {
            Ok(d) => r matches Ok(x) && x@ == d,
            Err(e) => r matches Err(x) && x == e,
        },
{
    proof {
        reveal(frame_data);
    }
    let ghost lm = layout_model(layout@);
    let frame = &sheet.frames[index];
    let p = match find_packed(layout, &frame.source) {
        Some(p) => p,
        None => return Err(ExportError::FrameWasNotPacked),
    };
    let ghost f = sheet@.frames[index as int];
    let mut hitboxes: Vec<HitboxData> = Vec::new();
    let mut j: usize = 0;
    while j < frame.hitboxes.len()
        invariant
            j <= frame.hitboxes.len(),
            frame@ == f,
            f == sheet@.frames[index as int],
            index < sheet.frames.len(),
            packed(lm, f.source) == Some(p),
            lm == layout_model(layout@),
            frames_fit(sheet@, lm),
            hitboxes@.map_values(|h: HitboxData| h@) == f.hitboxes.take(j as int).map_values(
                |h: HitboxModel| hitbox_data(h, p),
            ),
        decreases frame.hitboxes.len() - j,
    {
        assert(frame.hitboxes@[j as int]@ == f.hitboxes[j as int]);
        assert(hitbox_data_fits(sheet@.frames[index as int].hitboxes[j as int], p));
        let d = hitbox_export_data(&frame.hitboxes[j], &p);
        let ghost before = hitboxes@;
        hitboxes.push(d);
        assert(hitboxes@.map_values(|h: HitboxData| h@) =~= f.hitboxes.take(j + 1).map_values(
            |h: HitboxModel| hitbox_data(h, p),
        )) by {
            assert(f.hitboxes.take(j + 1) =~= f.hitboxes.take(j as int).push(f.hitboxes[j as int]));
            assert(before.map_values(|h: HitboxData| h@).push(d@) =~= hitboxes@.map_values(
                |h: HitboxData| h@,
            ));
        }
        j += 1;
    }
    assert(f.hitboxes.take(j as int) =~= f.hitboxes);
    Ok(
        FrameData {
            source: frame.source.clone(),
            index: index as i32,
            x: p.position_in_sheet.0 as i32,
            y: p.position_in_sheet.1 as i32,
            width: p.size_in_sheet.0 as i32,
            height: p.size_in_sheet.1 as i32,
            hitboxes,
        },
    )
}

/// The export data of an animation frame.
pub fn animation_frame_export_data(
    sheet: &Sheet,
    keyframe: &crate::sheet::AnimationFrame,
    layout: &Vec<(String, PackedFrame)>,
) -> (r: Result<AnimationFrameData, ExportError>)
    requires
        frames_fit(sheet@, layout_model(layout@)),
        animation_frame_fits(keyframe@, layout_model(layout@)),
    ensures
        match animation_frame_data(sheet@, keyframe@, layout_model(layout@)) {
            Ok(d) => r matches Ok(x) && x@ == d,
            Err(e) => r matches Err(x) && x == e,
        },
{
    proof {
        reveal(animation_frame_data);
    }
    let p = match find_packed(layout, &keyframe.frame) {
        Some(p) => p,
        None => return Err(ExportError::FrameWasNotPacked),
    };
    let index = match sheet.frame_position(keyframe.frame.as_str()) {
        Some(i) => i,
        None => return Err(ExportError::InvalidFrameReference),
    };
    let frame = frame_export_data(sheet, index, layout)?;
    let offset = keyframe.get_offset();
    Ok(
        AnimationFrameData {
            duration: keyframe.duration as i32,
            center_offset_x: offset.0,
            center_offset_y: offset.1,
            top_left_offset_x: offset.0 - half_extent(p.size_in_sheet.0),
            top_left_offset_y: offset.1 - half_extent(p.size_in_sheet.1),
            frame,
        },
    )
}

/// The export data of an animation.
pub fn animation_export_data(
    sheet: &Sheet,
    animation: &crate::sheet::Animation,
    layout: &Vec<(String, PackedFrame)>,
) -> (r: Result<AnimationData, ExportError>)
    requires
        frames_fit(sheet@, layout_model(layout@)),
        forall|j: int|
            0 <= j < animation@.timeline.len() ==> animation_frame_fits(
                #[trigger] animation@.timeline[j],
                layout_model(layout@),
            ),
    ensures
        match animation_data(sheet@, animation@, layout_model(layout@)) {
            Ok(d) => r matches Ok(x) && x@ == d,
            Err(e) => r matches Err(x) && x == e,
        },
{
    proof {
        reveal(animation_data);
    }
    let ghost lm = layout_model(layout@);
    let ghost tl = animation@.timeline;
    let mut keyframes: Vec<AnimationFrameData> = Vec::new();
    assert(keyframes@.map_values(|k: AnimationFrameData| k@) =~= Seq::<AnimationFrameDataModel>::empty());
    let mut j: usize = 0;
    while j < animation.timeline.len()
        invariant
            j <= animation.timeline.len(),
            tl == animation@.timeline,
            lm == layout_model(layout@),
            frames_fit(sheet@, lm),
            forall|k: int| 0 <= k < tl.len() ==> animation_frame_fits(#[trigger] tl[k], lm),
            keyframes_data(sheet@, tl, lm, j as int) == Ok::<
                Seq<AnimationFrameDataModel>,
                ExportError,
            >(keyframes@.map_values(|k: AnimationFrameData| k@)),
        decreases animation.timeline.len() - j,
    {
        assert(animation.timeline@[j as int]@ == tl[j as int]);
        assert(animation_frame_fits(tl[j as int], lm));
        let d = match animation_frame_export_data(sheet, &animation.timeline[j], layout) {
            Ok(d) => d,
            Err(e) => {
                proof {
                    assert(keyframes_data(sheet@, tl, lm, j as int + 1) == Err::<
                        Seq<AnimationFrameDataModel>,
                        ExportError,
                    >(e));
                    lemma_keyframes_error(sheet@, tl, lm, j as int + 1, tl.len() as int);
                    reveal(animation_data);
                }
                return Err(e);
            },
        };
        let ghost before = keyframes@;
        keyframes.push(d);
        assert(keyframes@.map_values(|k: AnimationFrameData| k@) =~= before.map_values(
            |k: AnimationFrameData| k@,
        ).push(d@));
        j += 1;
    }
    proof {
        reveal(animation_data);
    }
    Ok(
        AnimationData {
            name: animation.name.clone(),
            is_looping: animation.is_looping,
            keyframes,
        },
    )
}

/// Once the data of some frame failed, so does that of every longer
/// prefix, with the same error.
proof fn lemma_keyframes_error(
    sheet: SheetModel,
    timeline: Seq<AnimationFrameModel>,
    layout: Seq<(Seq<char>, PackedFrame)>,
    n: int,
    m: int,
)
    requires
        1 <= n <= m,
        keyframes_data(sheet, timeline, layout, n) is Err,
    ensures
        keyframes_data(sheet, timeline, layout, m) == keyframes_data(sheet, timeline, layout, n),
    decreases m - n,
{
    if n < m {
        lemma_keyframes_error(sheet, timeline, layout, n, m - 1);
    }
}

proof fn lemma_frames_error(sheet: SheetModel, layout: Seq<(Seq<char>, PackedFrame)>, n: int, m: int)
    requires
        1 <= n <= m,
        frames_data(sheet, layout, n) is Err,
    ensures
        frames_data(sheet, layout, m) == frames_data(sheet, layout, n),
    decreases m - n,
{
    if n < m {
        lemma_frames_error(sheet, layout, n, m - 1);
    }
}

proof fn lemma_animations_error(sheet: SheetModel, layout: Seq<(Seq<char>, PackedFrame)>, n: int, m: int)
    requires
        1 <= n <= m,
        animations_data(sheet, layout, n) is Err,
    ensures
        animations_data(sheet, layout, m) == animations_data(sheet, layout, n),
    decreases m - n,
{
    if n < m {
        lemma_animations_error(sheet, layout, n, m - 1);
    }
}

fn all_frames_export_data(sheet: &Sheet, layout: &Vec<(String, PackedFrame)>) -> (r: Result<
    Vec<FrameData>,
    ExportError,
>)
    requires
        frames_fit(sheet@, layout_model(layout@)),
    ensures
        match frames_data(sheet@, layout_model(layout@), sheet@.frames.len() as int) {
            Ok(d) => r matches Ok(x) && x@.map_values(|f: FrameData| f@) == d,
            Err(e) => r matches Err(x) && x == e,
        },
{
    let ghost lm = layout_model(layout@);
    let mut frames: Vec<FrameData> = Vec::new();
    assert(frames@.map_values(|f: FrameData| f@) =~= Seq::<FrameDataModel>::empty());
    let mut i: usize = 0;
    while i < sheet.frames.len()
        invariant
            i <= sheet.frames.len(),
            lm == layout_model(layout@),
            frames_fit(sheet@, lm),
            frames_data(sheet@, lm, i as int) == Ok::<Seq<FrameDataModel>, ExportError>(
                frames@.map_values(|f: FrameData| f@),
            ),
        decreases sheet.frames.len() - i,
    {
        let d = match frame_export_data(sheet, i, layout) {
            Ok(d) => d,
            Err(e) => {
                proof {
                    lemma_frames_error(sheet@, lm, i as int + 1, sheet@.frames.len() as int);
                }
                return Err(e);
            },
        };
        let ghost before = frames@;
        frames.push(d);
        assert(frames@.map_values(|f: FrameData| f@) =~= before.map_values(|f: FrameData| f@).push(
            d@,
        ));
        i += 1;
    }
    Ok(frames)
}

fn all_animations_export_data(sheet: &Sheet, layout: &Vec<(String, PackedFrame)>) -> (r: Result<
    Vec<AnimationData>,
    ExportError,
>)
    requires
        export_fits(sheet@, layout_model(layout@)),
    ensures
        match animations_data(sheet@, layout_model(layout@), sheet@.animations.len() as int) {
            Ok(d) => r matches Ok(x) && x@.map_values(|a: AnimationData| a@) == d,
            Err(e) => r matches Err(x) && x == e,
        },
{
    let ghost lm = layout_model(layout@);
    let mut animations: Vec<AnimationData> = Vec::new();
    assert(animations@.map_values(|a: AnimationData| a@) =~= Seq::<AnimationDataModel>::empty());
    let mut i: usize = 0;
    while i < sheet.animations.len()
        invariant
            i <= sheet.animations.len(),
            lm == layout_model(layout@),
            export_fits(sheet@, lm),
            animations_data(sheet@, lm, i as int) == Ok::<Seq<AnimationDataModel>, ExportError>(
                animations@.map_values(|a: AnimationData| a@),
            ),
        decreases sheet.animations.len() - i,
    {
        let animation = &sheet.animations[i];
        assert(animation@ == sheet@.animations[i as int]);
        assert forall|j: int| 0 <= j < animation@.timeline.len() implies animation_frame_fits(
            #[trigger] animation@.timeline[j],
            lm,
        ) by {
            assert(animation_frame_fits(sheet@.animations[i as int].timeline[j], lm));
        }
        let d = match animation_export_data(sheet, animation, layout) {
            Ok(d) => d,
            Err(e) => {
                proof {
                    lemma_animations_error(sheet@, lm, i as int + 1, sheet@.animations.len() as int);
                }
                return Err(e);
            },
        };
        let ghost before = animations@;
        animations.push(d);
        assert(animations@.map_values(|a: AnimationData| a@) =~= before.map_values(
            |a: AnimationData| a@,
        ).push(d@));
        i += 1;
    }
    Ok(animations)
}

/// Everything an export writes about the sheet: the frames, the animations
/// and the texture's path relative to the root of the metadata's paths.
pub fn sheet_export_data(
    sheet: &Sheet,
    export_settings: &ExportSettings,
    layout: &Vec<(String, PackedFrame)>,
) -> (r: Result<SheetData, ExportError>)
    requires
        export_fits(sheet@, layout_model(layout@)),
    ensures
        match sheet_data(
            sheet@,
            export_settings.texture_destination@,
            export_settings.metadata_paths_root@,
            layout_model(layout@),
        ) {
            Ok(d) => r matches Ok(x) && x@ == d,
            Err(e) => r matches Err(x) && x == e,
        },
{
    let frames = all_frames_export_data(sheet, layout)?;
    let animations = all_animations_export_data(sheet, layout)?;
    let sheet_image = match diff_paths(
        export_settings.texture_destination.as_str(),
        export_settings.metadata_paths_root.as_str(),
    ) {
        Some(p) => p,
        None => return Err(ExportError::AbsoluteToRelativePath),
    };
    Ok(SheetData { frames, animations, sheet_image })
}

} // verus!
