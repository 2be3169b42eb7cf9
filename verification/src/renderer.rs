//! The frame renderer: a frame begins, items are drawn, the frame ends.
//! The renderer decides; what it hands back are the commands for the
//! canvas and the window, in the order in which they are to be carried out.

use vstd::prelude::*;
use crate::elide::DrawnLine;
use crate::font::FontCache;
use crate::geometry::{
    box_shadow, border_path, border_rectangle, effective_border, intersection, shadow_fill,
    shadow_inner, shadow_outer, Area, BoxShadow, ImagePlacement, Point, Position, Ratio, Rect,
};
use crate::image_cache::{ImageCache, ImageKeyId};

verus! {

/// The canvas's handle for a loaded font, `femtovg::FontId`. Nothing is
/// known of a handle but which handle it is.
#[verifier::external_type_specification]
#[verifier::external_body]
pub struct ExFontId(femtovg::FontId);

/// A colour with its opacity.
#[derive(Clone, Copy, Debug, PartialEq, Eq, Structural)]
pub struct Color {
    pub red: u8,
    pub green: u8,
    pub blue: u8,
    pub alpha: u8,
}

/// Whether the drawing context belongs to this renderer right now. Between
/// frames it is given up, so that others can use it.
#[derive(Clone, Copy, Debug, PartialEq, Eq, Structural)]
pub enum ContextState {
    NotCurrent,
    Current,
}

impl ContextState {
    /// Makes the context current. Returns the new state, and whether the
    /// window must be told: it must unless the context was current already.
    pub fn make_current(self) -> (made: (ContextState, bool))
        ensures
            made.0 == ContextState::Current,
            made.1 == (self == ContextState::NotCurrent),
    {
        match self {
            ContextState::NotCurrent => (ContextState::Current, true),
            ContextState::Current => (ContextState::Current, false),
        }
    }

    /// Gives the context up. Returns the new state, and whether the window
    /// must be told: it must if the context was current.
    pub fn make_not_current(self) -> (made: (ContextState, bool))
        ensures
            made.0 == ContextState::NotCurrent,
            made.1 == (self == ContextState::Current),
    {
        match self {
            ContextState::NotCurrent => (ContextState::NotCurrent, false),
            ContextState::Current => (ContextState::NotCurrent, true),
        }
    }

    /// Whether the buffers can be swapped: only a current context shows what was drawn.
    pub fn swap_buffers(&self) -> (swaps: bool)
        ensures
            swaps == (*self == ContextState::Current),
    {
        match self {
            ContextState::NotCurrent => false,
            ContextState::Current => true,
        }
    }
}

/// What the window and the canvas are told at the begin and the end of a frame.
#[derive(Clone, Copy, Debug, PartialEq, Eq, Structural)]
pub enum FrameAction {
    MakeCurrent,
    SetSize { width: u32, height: u32 },
    ClearRect { width: u32, height: u32, color: Color },
    Flush,
    SwapBuffers,
    MakeNotCurrent,
}

/// One command to the canvas. Positions and lengths are in units; the
/// sizes of images are in pixels of the image.
#[derive(Clone, Copy, Debug, PartialEq, Eq)]
pub enum DrawCommand {
    Save,
    Restore,
    Translate { x: i64, y: i64 },
    /// Scales what follows, so that one pixel of an image takes as many
    /// units of the target as the ratios say.
    Scale { horizontal: Ratio, vertical: Ratio },
    /// A rectangle of the source's size at the origin, painted with the image.
    FillImage { image: femtovg::ImageId, placement: ImagePlacement },
    /// A rectangle at the position of `area`, as large as the image, whose
    /// size in pixels `area` holds, and painted with it.
    FillImageAt { image: femtovg::ImageId, area: Area },
    /// One line of text with its left upper corner at the position.
    FillText { x: i64, y: i64, line: DrawnLine, color: Color },
    IntersectScissor { area: Area },
    FillRect { area: Area, color: Color },
    FillRoundedRect { area: Area, radius: i32, color: Color },
    StrokeRoundedRect { area: Area, radius: i32, color: Color, line_width: i64 },
    /// The blurred frame of a shadow: the rounded `outer` with `inner` cut
    /// out, painted with a gradient that fades from `color` at `gradient`
    /// to nothing over `blur`.
    FillShadowFrame { outer: Area, inner: Area, gradient: Area, radius: i32, blur: i32, color: Color },
}

/// The renderer between and across frames: the caches, and the state of the context.
pub struct GLRenderer {
    pub images: ImageCache,
    pub fonts: FontCache<femtovg::FontId>,
    pub context: ContextState,
}

/// What saving keeps and restoring brings back.
#[derive(Clone, Copy, Debug, PartialEq, Eq, Structural)]
pub struct RenderState {
    /// The clip that is in force, in the coordinates of the window; none
    /// while nothing is clipped.
    pub clip: Option<Area>,
    /// How far the origin was moved from that of the window.
    pub translation: Position,
}

/// The renderer of one frame.
#[derive(Debug)]
pub struct GLItemRenderer {
    /// The scale factor of the window, in units.
    pub scale_factor: i32,
    /// The state that is in force.
    pub state: RenderState,
    /// The states that were saved and not yet restored, the oldest first.
    pub saved: Vec<RenderState>,
}

/// The state at the begin of a frame: nothing clipped, nothing moved.
pub open spec fn initial_state() -> RenderState {
    RenderState { clip: None, translation: Position { x: 0, y: 0 } }
}

/// The coordinate nearest to `v` that can be held.
pub open spec fn clamped(v: int) -> i64 {
    if v > i64::MAX {
        i64::MAX
    } else if v < i64::MIN {
        i64::MIN
    } else {
        v as i64
    }
}

/// The area moved by `dx` and `dy`, as far as coordinates go.
pub open spec fn shifted(area: Area, dx: int, dy: int) -> Area {
    Area { x: clamped(area.x + dx), y: clamped(area.y + dy), width: area.width, height: area.height }
}

/// Adds two coordinates, stopping at the largest and the smallest.
pub fn clamped_sum(a: i64, b: i64) -> (sum: i64)
    ensures
        sum == clamped(a + b),
{
    let wide: i128 = a as i128 + b as i128;
    if wide > i64::MAX as i128 {
        i64::MAX
    } else if wide < i64::MIN as i128 {
        i64::MIN
    } else {
        wide as i64
    }
}

/// Subtracts a coordinate from another, stopping at the largest and the smallest.
pub fn clamped_difference(a: i64, b: i64) -> (difference: i64)
    ensures
        difference == clamped(a - b),
{
    let wide: i128 = a as i128 - b as i128;
    if wide > i64::MAX as i128 {
        i64::MAX
    } else if wide < i64::MIN as i128 {
        i64::MIN
    } else {
        wide as i64
    }
}

/// The actions that begin a frame in a window of the given size.
pub open spec fn begin_actions(
    context: ContextState,
    width: u32,
    height: u32,
    clear_color: Color,
) -> Seq<FrameAction> {
    let draw = seq![
        FrameAction::SetSize { width, height },
        FrameAction::ClearRect { width, height, color: clear_color },
    ];
    if context == ContextState::NotCurrent {
        seq![FrameAction::MakeCurrent] + draw
    } else {
        draw
    }
}

/// The actions that end a frame.
pub open spec fn end_actions(context: ContextState) -> Seq<FrameAction> {
    if context == ContextState::Current {
        seq![FrameAction::Flush, FrameAction::SwapBuffers, FrameAction::MakeNotCurrent]
    } else {
        seq![FrameAction::Flush]
    }
}

impl GLRenderer {
    pub open spec fn well_formed(&self) -> bool {
        self.images.well_formed() && self.fonts.well_formed()
    }

    /// A renderer with empty caches, whose context is not current.
    pub fn new() -> (renderer: Self)
        ensures
            renderer.well_formed(),
            renderer.context == ContextState::NotCurrent,
            renderer.images@.images.len() == 0,
            renderer.images@.index == Map::<ImageKeyId, int>::empty(),
            renderer.fonts.map() == Map::<(Seq<char>, i32), femtovg::FontId>::empty(),
    {
        GLRenderer {
            images: ImageCache::new(),
            fonts: FontCache::new(),
            context: ContextState::NotCurrent,
        }
    }

    /// Begins a frame: the context is made current unless it is, the canvas
    /// gets the size of the window and is cleared to the colour. Returns the
    /// renderer of the frame, which clips nothing and has saved nothing.
    pub fn new_renderer(
        &mut self,
        clear_color: Color,
        scale_factor: i32,
        width: u32,
        height: u32,
    ) -> (frame: (GLItemRenderer, Vec<FrameAction>))
        ensures
            frame.1@ == begin_actions(old(self).context, width, height, clear_color),
            frame.0.scale_factor == scale_factor,
            frame.0.state == initial_state(),
            frame.0.saved@.len() == 0,
            final(self).context == ContextState::Current,
            final(self).images == old(self).images,
            final(self).fonts == old(self).fonts,
    {
        let mut actions: Vec<FrameAction> = Vec::new();
        let (context, told) = self.context.make_current();
        if told {
            actions.push(FrameAction::MakeCurrent);
        }
        actions.push(FrameAction::SetSize { width, height });
        actions.push(FrameAction::ClearRect { width, height, color: clear_color });
        assert(actions@ =~= begin_actions(self.context, width, height, clear_color));
        self.context = context;
        let state = RenderState { clip: None, translation: Position { x: 0, y: 0 } };
        (GLItemRenderer { scale_factor, state, saved: Vec::new() }, actions)
    }

    /// Ends a frame: what was drawn is flushed and shown, the context is
    /// given up, and the image cache forgets the images that nobody holds.
    /// Every state that the frame saved must have been restored.
    pub fn flush_renderer(&mut self, renderer: GLItemRenderer) -> (actions: Vec<FrameAction>)
        requires
            old(self).well_formed(),
            renderer.is_balanced(),
        ensures
            final(self).well_formed(),
            actions@ == end_actions(old(self).context),
            final(self).context == ContextState::NotCurrent,
            final(self).images@ == old(self).images@.collected(),
            final(self).fonts == old(self).fonts,
    {
        let mut actions: Vec<FrameAction> = Vec::new();
        actions.push(FrameAction::Flush);
        if self.context.swap_buffers() {
            actions.push(FrameAction::SwapBuffers);
        }
        let (context, told) = self.context.make_not_current();
        if told {
            actions.push(FrameAction::MakeNotCurrent);
        }
        assert(actions@ =~= end_actions(self.context));
        self.context = context;
        self.images.collect_garbage();
        actions
    }
}

/// The clip after `area` was combined with it.
pub open spec fn combined_clip(clip: Option<Area>, area: Area) -> Area {
    match clip {
        Some(current) => intersection(current, area),
        None => intersection(area, area),
    }
}

/// The commands that draw a filled rectangle at `pos`.
pub open spec fn rectangle_commands(pos: Point, geometry: Rect, color: Color) -> Seq<DrawCommand> {
    if geometry.is_empty() {
        Seq::empty()
    } else {
        seq![
            DrawCommand::Save,
            DrawCommand::Translate { x: pos.x as i64, y: pos.y as i64 },
            DrawCommand::FillRect { area: geometry.widened(), color },
            DrawCommand::Restore,
        ]
    }
}

/// A rectangle with a border and rounded corners.
#[derive(Clone, Copy, Debug, PartialEq, Eq, Structural)]
pub struct BorderRectangle {
    pub geometry: Rect,
    pub border_width: i32,
    pub border_radius: i32,
    pub color: Color,
    pub border_color: Color,
}

/// The commands that draw a bordered rectangle at `pos`: filled, then
/// stroked along the same path.
pub open spec fn border_rectangle_commands(pos: Point, rect: BorderRectangle) -> Seq<DrawCommand> {
    if rect.geometry.is_empty() {
        Seq::empty()
    } else {
        let path = border_path(rect.geometry, rect.border_width as int);
        seq![
            DrawCommand::Save,
            DrawCommand::Translate { x: pos.x as i64, y: pos.y as i64 },
            DrawCommand::FillRoundedRect { area: path, radius: rect.border_radius, color: rect.color },
            DrawCommand::StrokeRoundedRect {
                area: path,
                radius: rect.border_radius,
                color: rect.border_color,
                line_width: effective_border(
                    rect.border_width as int,
                    rect.geometry.width as int,
                ) as i64,
            },
            DrawCommand::Restore,
        ]
    }
}

/// The commands that draw a box shadow at `pos`: the blurred frame, then
/// the inner rectangle filled solidly.
pub open spec fn box_shadow_commands(
    pos: Point,
    shadow: BoxShadow,
    radius: i32,
    color: Color,
) -> Seq<DrawCommand> {
    if shadow.geometry.is_empty() {
        Seq::empty()
    } else {
        seq![
            DrawCommand::Save,
            DrawCommand::Translate { x: pos.x as i64, y: pos.y as i64 },
            DrawCommand::FillShadowFrame {
                outer: shadow_outer(shadow),
                inner: shadow_inner(shadow),
                gradient: shadow_fill(shadow),
                radius,
                blur: shadow.blur,
                color,
            },
            DrawCommand::FillRect { area: shadow_inner(shadow), color },
            DrawCommand::Restore,
        ]
    }
}

impl GLItemRenderer {
    /// Whether every saved state was restored.
    pub open spec fn is_balanced(&self) -> bool {
        self.saved@.len() == 0
    }

    /// The scale factor of the frame.
    pub fn scale_factor(&self) -> (factor: i32)
        ensures
            factor == self.scale_factor,
    {
        self.scale_factor
    }

    /// Draws a filled rectangle; nothing for an empty one.
    pub fn draw_rectangle(&self, pos: Point, geometry: &Rect, color: Color) -> (commands: Vec<
        DrawCommand,
    >)
        ensures
            commands@ == rectangle_commands(pos, *geometry, color),
    {
        let mut commands: Vec<DrawCommand> = Vec::new();
        if geometry.is_empty() {
            return commands;
        }
        commands.push(DrawCommand::Save);
        commands.push(DrawCommand::Translate { x: pos.x as i64, y: pos.y as i64 });
        commands.push(DrawCommand::FillRect { area: geometry.to_area(), color });
        commands.push(DrawCommand::Restore);
        assert(commands@ =~= rectangle_commands(pos, *geometry, color));
        commands
    }

    /// Draws a rectangle with its border. The border lies inside the
    /// geometry and is never wider than half of the rectangle.
    pub fn draw_border_rectangle(&self, pos: Point, rect: &BorderRectangle) -> (commands: Vec<
        DrawCommand,
    >)
        ensures
            commands@ == border_rectangle_commands(pos, *rect),
    {
        let mut commands: Vec<DrawCommand> = Vec::new();
        match border_rectangle(&rect.geometry, rect.border_width) {
            None => {},
            Some(border) => {
                commands.push(DrawCommand::Save);
                commands.push(DrawCommand::Translate { x: pos.x as i64, y: pos.y as i64 });
                commands.push(
                    DrawCommand::FillRoundedRect {
                        area: border.path,
                        radius: rect.border_radius,
                        color: rect.color,
                    },
                );
                commands.push(
                    DrawCommand::StrokeRoundedRect {
                        area: border.path,
                        radius: rect.border_radius,
                        color: rect.border_color,
                        line_width: border.line_width,
                    },
                );
                commands.push(DrawCommand::Restore);
            },
        }
        assert(commands@ =~= border_rectangle_commands(pos, *rect));
        commands
    }

    /// Draws the shadow of a box.
    pub fn draw_box_shadow(&self, pos: Point, shadow: &BoxShadow, radius: i32, color: Color) -> (commands:
        Vec<DrawCommand>)
        ensures
            commands@ == box_shadow_commands(pos, *shadow, radius, color),
    {
        let mut commands: Vec<DrawCommand> = Vec::new();
        match box_shadow(shadow) {
            None => {},
            Some(drawn) => {
                commands.push(DrawCommand::Save);
                commands.push(DrawCommand::Translate { x: pos.x as i64, y: pos.y as i64 });
                commands.push(
                    DrawCommand::FillShadowFrame {
                        outer: drawn.outer,
                        inner: drawn.inner,
                        gradient: drawn.fill,
                        radius,
                        blur: shadow.blur,
                        color,
                    },
                );
                commands.push(DrawCommand::FillRect { area: drawn.inner, color });
                commands.push(DrawCommand::Restore);
            },
        }
        assert(commands@ =~= box_shadow_commands(pos, *shadow, radius, color));
        commands
    }

    /// Moves the origin for what is drawn from now on.
    pub fn translate(&mut self, dx: i32, dy: i32) -> (command: DrawCommand)
        ensures
            command == (DrawCommand::Translate { x: dx as i64, y: dy as i64 }),
            final(self).state.translation == (Position {
                x: clamped(old(self).state.translation.x + dx),
                y: clamped(old(self).state.translation.y + dy),
            }),
            final(self).state.clip == old(self).state.clip,
            final(self).saved == old(self).saved,
            final(self).scale_factor == old(self).scale_factor,
    {
        self.state.translation = Position {
            x: clamped_sum(self.state.translation.x, dx as i64),
            y: clamped_sum(self.state.translation.y, dy as i64),
        };
        DrawCommand::Translate { x: dx as i64, y: dy as i64 }
    }

    /// Narrows the clip to its part inside the rectangle at `pos`. The
    /// canvas is told the rectangle as it lies from the origin; the clip is
    /// kept in the coordinates of the window.
    pub fn combine_clip(&mut self, pos: Point, clip: &Rect) -> (command: DrawCommand)
        ensures
            command == (DrawCommand::IntersectScissor { area: clip.translated(pos) }),
            final(self).state.clip == Some(
                combined_clip(
                    old(self).state.clip,
                    shifted(
                        clip.translated(pos),
                        old(self).state.translation.x as int,
                        old(self).state.translation.y as int,
                    ),
                ),
            ),
            final(self).state.translation == old(self).state.translation,
            final(self).saved == old(self).saved,
            final(self).scale_factor == old(self).scale_factor,
    {
        let area = clip.translate(pos);
        let in_window = Area {
            x: clamped_sum(area.x, self.state.translation.x),
            y: clamped_sum(area.y, self.state.translation.y),
            width: area.width,
            height: area.height,
        };
        let combined = match self.state.clip {
            Some(current) => current.intersect(&in_window),
            None => in_window.intersect(&in_window),
        };
        self.state.clip = Some(combined);
        DrawCommand::IntersectScissor { area }
    }

    /// The clip that is in force, as it lies from the origin; none while
    /// nothing is clipped.
    pub fn current_clip(&self) -> (clip: Option<Area>)
        ensures
            clip == (match self.state.clip {
                Some(area) => Some(
                    shifted(
                        area,
                        -(self.state.translation.x as int),
                        -(self.state.translation.y as int),
                    ),
                ),
                None => None,
            }),
    {
        match self.state.clip {
            Some(area) => Some(
                Area {
                    x: clamped_difference(area.x, self.state.translation.x),
                    y: clamped_difference(area.y, self.state.translation.y),
                    width: area.width,
                    height: area.height,
                },
            ),
            None => None,
        }
    }

    /// Saves the state, to be restored later.
    pub fn save_state(&mut self) -> (command: DrawCommand)
        ensures
            command == DrawCommand::Save,
            final(self).saved@ == old(self).saved@.push(old(self).state),
            final(self).state == old(self).state,
            final(self).scale_factor == old(self).scale_factor,
    {
        self.saved.push(self.state);
        DrawCommand::Save
    }

    /// Restores the state that was saved last. With nothing saved, the
    /// state is that of the begin of the frame.
    pub fn restore_state(&mut self) -> (command: DrawCommand)
        ensures
            command == DrawCommand::Restore,
            old(self).saved@.len() > 0 ==> final(self).state == old(self).saved@.last(),
            old(self).saved@.len() > 0 ==> final(self).saved@ == old(self).saved@.drop_last(),
            old(self).saved@.len() == 0 ==> final(self).state == initial_state(),
            old(self).saved@.len() == 0 ==> final(self).saved@.len() == 0,
            final(self).scale_factor == old(self).scale_factor,
    {
        match self.saved.pop() {
            Some(state) => {
                self.state = state;
            },
            None => {
                self.state = RenderState { clip: None, translation: Position { x: 0, y: 0 } };
            },
        }
        DrawCommand::Restore
    }
}

/// Saving and restoring are a pair: after both, the state and the saved
/// states are what they were, whatever was clipped or moved in between.
pub proof fn lemma_save_restore_balance(state: RenderState, saved: Seq<RenderState>)
    ensures
        saved.push(state).last() == state,
        saved.push(state).drop_last() == saved,
{
    assert(saved.push(state).drop_last() =~= saved);
}

/// Clipping only narrows: what lies in the combined clip lay in the clip
/// before, if there was one, and lies in the area.
pub proof fn lemma_clip_narrows(clip: Option<Area>, area: Area, px: int, py: int)
    requires
        combined_clip(clip, area).contains(px, py),
    ensures
        area.contains(px, py),
        clip matches Some(current) ==> current.contains(px, py),
{
}

} // verus!
