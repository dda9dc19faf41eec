use vstd::prelude::*;
use crate::style::{PageStyle, STYLE_COUNT, style_index, style_at_spec};
use crate::tiler::{SQUARE_SIZE, SQUARE_PITCH, span, valid_grid};
use uuid::Uuid;

verus! {

#[verifier::external_type_specification]
#[verifier::external_body]
pub struct ExUuid(Uuid);

/// Relies on uuid::Uuid::new_v4: a fresh random identifier. Nothing is
/// stated of its value.
pub assume_specification[ Uuid::new_v4 ]() -> Uuid;

/// Gap between the page and the edge of its outline, in pixels.
pub const OUTLINE_MARGIN: i32 = 3;

/// An axis-aligned rectangle on the canvas: top-left corner and size.
#[derive(Clone, Copy, Debug, PartialEq, Eq, Structural)]
pub struct Rect {
    pub x: i32,
    pub y: i32,
    pub w: u32,
    pub h: u32,
}

/// `r` grown by `d` pixels on every side.
pub open spec fn inflate(r: Rect, d: int) -> Rect {
    Rect { x: (r.x - d) as i32, y: (r.y - d) as i32, w: (r.w + 2 * d) as u32, h: (r.h + 2 * d) as u32 }
}

/// What one frame of a page asks of the renderer: a gray outline filled
/// first, then the texture of the current style over the content rectangle,
/// whole, unrotated, unflipped, in canvas coordinates.
#[derive(Clone, Copy, Debug)]
pub struct DrawPlan {
    pub outline: Rect,
    pub content: Rect,
    pub texture: Uuid,
    pub style_index: usize,
}

/// Abstract state of a page.
pub struct PageModel {
    pub id: Uuid,
    pub x: int,
    pub y: int,
    pub cols: int,
    pub rows: int,
    pub style: PageStyle,
}

/// Horizontal position that centres a page of `cols` squares, `span(cols)`
/// pixels wide, on a canvas `canvas_width` pixels wide.
pub open spec fn centered_x(canvas_width: int, cols: int) -> int {
    canvas_width / 2 - span(cols) / 2
}

/// The frame a page in state `m` draws.
pub open spec fn planned_draw(m: PageModel) -> DrawPlan {
    DrawPlan {
        outline: inflate(content_rect(m), OUTLINE_MARGIN as int),
        content: content_rect(m),
        texture: m.id,
        style_index: style_index(m.style) as usize,
    }
}

/// The content rectangle of a page.
pub open spec fn content_rect(m: PageModel) -> Rect {
    Rect { x: m.x as i32, y: m.y as i32, w: span(m.cols) as u32, h: span(m.rows) as u32 }
}

/// A page of the notebook: a grid of squares placed on the canvas, whose
/// four style textures the renderer holds under `id`.
pub struct Pages {
    pub id: Uuid,
    position: (i32, i32),
    page_size: (u32, u32),
    square_size: u32,
    style: PageStyle,
}

impl Pages {
    pub closed spec fn view(&self) -> PageModel {
        PageModel {
            id: self.id,
            x: self.position.0 as int,
            y: self.position.1 as int,
            cols: self.page_size.0 as int,
            rows: self.page_size.1 as int,
            style: self.style,
        }
    }

    /// The grid fits the renderer's coordinates, and the outline drawn
    /// around the page does too.
    pub closed spec fn wf(&self) -> bool {
        &&& valid_grid(self.page_size.0 as int, self.page_size.1 as int)
        &&& self.square_size == SQUARE_SIZE
        &&& self.position.0 >= i32::MIN + OUTLINE_MARGIN
        &&& self.position.1 >= i32::MIN + OUTLINE_MARGIN
    }

    /// A page of `page_size` squares with a fresh identity, centred
    /// horizontally on a canvas `canvas_width` pixels wide, at the top, in
    /// the first style.
    pub fn new(page_size: (u32, u32), canvas_width: u32) -> (r: Pages)
        requires
            valid_grid(page_size.0 as int, page_size.1 as int),
        ensures
            r.wf(),
            r@.cols == page_size.0,
            r@.rows == page_size.1,
            r@.x == centered_x(canvas_width as int, page_size.0 as int),
            r@.y == 0,
            r@.style == PageStyle::WhiteSquared,
    {
        let x = (canvas_width / 2) as i64 - ((SQUARE_PITCH * page_size.0 - 1) / 2) as i64;
        let id = Uuid::new_v4();
        Pages {
            id,
            position: (x as i32, 0),
            page_size,
            square_size: SQUARE_SIZE,
            style: PageStyle::WhiteSquared,
        }
    }

    /// Identity under which the renderer holds this page's textures.
    pub fn id(&self) -> (r: Uuid)
        ensures
            r == self@.id,
    {
        self.id
    }

    /// Width of the page bitmap, in pixels.
    pub fn width(&self) -> (r: u32)
        requires
            self.wf(),
        ensures
            r == span(self@.cols),
    {
        let pitch = self.square_size + 1;
        assert(self.page_size.0 * pitch == self.page_size.0 * SQUARE_PITCH);
        self.page_size.0 * pitch - 1
    }

    /// Height of the page bitmap, in pixels.
    pub fn height(&self) -> (r: u32)
        requires
            self.wf(),
        ensures
            r == span(self@.rows),
    {
        let pitch = self.square_size + 1;
        assert(self.page_size.1 * pitch == self.page_size.1 * SQUARE_PITCH);
        self.page_size.1 * pitch - 1
    }

    pub fn style(&self) -> (r: PageStyle)
        ensures
            r == self@.style,
    {
        self.style
    }

    /// Selects the style whose texture later frames draw.
    pub fn set_style(&mut self, style: PageStyle)
        ensures
            final(self)@ == (PageModel { style, ..old(self)@ }),
            old(self).wf() ==> final(self).wf(),
    {
        self.style = style
    }

    /// The renderer calls of one frame: the outline is the content
    /// rectangle grown by `OUTLINE_MARGIN` on each side, and the texture is
    /// the slot of the current style.
    pub fn draw(&self) -> (r: DrawPlan)
        requires
            self.wf(),
        ensures
            r.content == content_rect(self@),
            r.outline == inflate(r.content, OUTLINE_MARGIN as int),
            r.texture == self@.id,
            r.style_index == style_index(self@.style),
            r == planned_draw(self@),
    {
        let w = self.width();
        let h = self.height();
        let content = Rect { x: self.position.0, y: self.position.1, w, h };
        let outline = Rect {
            x: self.position.0 - OUTLINE_MARGIN,
            y: self.position.1 - OUTLINE_MARGIN,
            w: w + 2 * OUTLINE_MARGIN as u32,
            h: h + 2 * OUTLINE_MARGIN as u32,
        };
        DrawPlan { outline, content, texture: self.id, style_index: self.style.index() }
    }
}

/// What building a page does next, given how the composites of the styles
/// so far went.
#[derive(Clone, Copy, Debug, PartialEq, Eq, Structural)]
pub enum BuildAction {
    /// Composite the bitmap of this style.
    Composite(PageStyle),
    /// Hand the four bitmaps, in slot order, to the renderer as one batch.
    Register,
    /// Give up: no page, and nothing registered.
    Abort,
}

/// Next build step after the composites whose outcomes are `outcomes`, in
/// slot order (`true` for a bitmap built).
pub open spec fn build_action(outcomes: Seq<bool>) -> BuildAction {
    if exists|k: int| 0 <= k < outcomes.len() && !#[trigger] outcomes[k] {
        BuildAction::Abort
    } else if outcomes.len() < STYLE_COUNT {
        BuildAction::Composite(style_at_spec(outcomes.len() as int))
    } else {
        BuildAction::Register
    }
}

/// Decides the next step of building a page: composite the styles one by
/// one in slot order, abort at the first failure, and register the batch
/// once all four bitmaps are built.
pub fn next_build_action(outcomes: &Vec<bool>) -> (r: BuildAction)
    ensures
        r == build_action(outcomes@),
{
    let mut k: usize = 0;
    while k < outcomes.len()
        invariant
            k <= outcomes@.len(),
            forall|m: int| 0 <= m < k ==> #[trigger] outcomes@[m],
        decreases outcomes@.len() - k,
    {
        if !outcomes[k] {
            return BuildAction::Abort;
        }
        k = k + 1;
    }
    if outcomes.len() < STYLE_COUNT {
        BuildAction::Composite(PageStyle::at(outcomes.len()))
    } else {
        BuildAction::Register
    }
}

/// Once the bitmap of any style `s` could not be built (its outcome stands
/// in `s`'s slot, since styles are composited in slot order), building
/// aborts, whatever is reported afterwards: no page results and the renderer
/// is never asked to register a batch.
pub proof fn failed_composite_never_registers(outcomes: Seq<bool>, later: Seq<bool>, s: PageStyle)
    requires
        style_index(s) < outcomes.len(),
        !outcomes[style_index(s) as int],
    ensures
        build_action(outcomes + later) == BuildAction::Abort,
        build_action(outcomes + later) != BuildAction::Register,
{
    let k = style_index(s) as int;
    assert((outcomes + later)[k] == outcomes[k]);
}

/// While every composite so far succeeded, the next style composited is
/// the one whose slot is the number built so far, so the registered batch
/// holds each style's bitmap in that style's slot; registration comes only
/// after all of them.
pub proof fn styles_composited_in_slot_order(outcomes: Seq<bool>)
    requires
        forall|k: int| 0 <= k < outcomes.len() ==> #[trigger] outcomes[k],
    ensures
        outcomes.len() < STYLE_COUNT ==> (build_action(outcomes) matches BuildAction::Composite(s)
            && style_index(s) == outcomes.len()),
        build_action(outcomes) == BuildAction::Register <==> outcomes.len() >= STYLE_COUNT,
{
}

/// After a style is selected, every frame draws that style's slot, with the
/// same geometry as before: the frame depends on the page's state alone,
/// so it stays the same until the style is changed again.
pub proof fn selected_style_is_drawn(m: PageModel, s: PageStyle)
    ensures
        planned_draw(PageModel { style: s, ..m }).style_index == style_index(s),
        planned_draw(PageModel { style: s, ..m }).texture == m.id,
        planned_draw(PageModel { style: s, ..m }).content == planned_draw(m).content,
        planned_draw(PageModel { style: s, ..m }).outline == planned_draw(m).outline,
{
}

/// The outline of every frame is its content rectangle grown by
/// `OUTLINE_MARGIN` pixels on each side, with no wrap-around.
pub proof fn outline_surrounds_content(p: Pages)
    requires
        p.wf(),
    ensures
        planned_draw(p@).outline == inflate(planned_draw(p@).content, OUTLINE_MARGIN as int),
        planned_draw(p@).outline.x == planned_draw(p@).content.x - OUTLINE_MARGIN,
        planned_draw(p@).outline.y == planned_draw(p@).content.y - OUTLINE_MARGIN,
        planned_draw(p@).outline.w == planned_draw(p@).content.w + 2 * OUTLINE_MARGIN,
        planned_draw(p@).outline.h == planned_draw(p@).content.h + 2 * OUTLINE_MARGIN,
{
}

} // verus!
