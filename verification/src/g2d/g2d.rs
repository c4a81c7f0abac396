use crate::g2d::frame::draws_of;
use crate::g2d::frame::drawn;
use crate::g2d::frame::first_oversized;
use crate::g2d::frame::plan_frame;
use crate::g2d::frame::views;
use crate::g2d::frame::Frame;
use crate::g2d::frame::RenderError;
use crate::g2d::gpu::PresentMode;
use crate::g2d::gpu::SwapConfig;
use crate::g2d::gpu::TextureFormat;
use crate::g2d::instance::ONE;
use crate::g2d::sprite::batch::SpriteBatch;
use crate::g2d::sprite::sheet::raster_fault;
use crate::g2d::sprite::sheet::Raster;
use crate::g2d::sprite::sheet::SheetError;
use crate::g2d::sprite::sheet::SpriteSheet;
use crate::g2d::wire::is_memory_image;
use crate::g2d::wire::memory_image;
use std::rc::Rc;
use vstd::prelude::*;

verus! {

/// What a graphics context holds, as a value of the specification.
pub struct GraphicsView {
    /// The configuration of the swap chain in use.
    pub swap: SwapConfig,
    /// The screen coordinates of the lower-right corner.
    pub scale: Seq<u32>,
    /// The built-in font sheet, once it has been asked for.
    pub courier: Option<SpriteSheet>,
    /// Whether the background worker has been started.
    pub polling: bool,
}

/// The swap configuration for a surface of the given physical size: the
/// fixed presentation format, one frame per vertical blank.
pub open spec fn swap_for(width: u32, height: u32) -> SwapConfig {
    SwapConfig {
        width,
        height,
        format: TextureFormat::Bgra8UnormSrgb,
        present_mode: PresentMode::Fifo,
    }
}

/// The scale of a new context: the lower-right corner is `[1, 1]`.
pub open spec fn unit_scale() -> Seq<u32> {
    seq![ONE, ONE]
}

/// A context as it is made for a surface of the given physical size.
pub open spec fn fresh(width: u32, height: u32) -> GraphicsView {
    GraphicsView {
        swap: swap_for(width, height),
        scale: unit_scale(),
        courier: None,
        polling: false,
    }
}

/// `g` after a call that makes sure the worker runs.
pub open spec fn after_ensure_polling(g: GraphicsView) -> GraphicsView {
    GraphicsView { polling: true, ..g }
}

/// `g` after the worker has ended or could not be started.
pub open spec fn after_polling_ended(g: GraphicsView) -> GraphicsView {
    GraphicsView { polling: false, ..g }
}

/// Whether a call that makes sure the worker runs has to start it.
pub open spec fn must_start(g: GraphicsView) -> bool {
    !g.polling
}

/// `g` after a resize to the given physical size.
pub open spec fn after_resize(g: GraphicsView, width: u32, height: u32) -> GraphicsView {
    GraphicsView { swap: SwapConfig { width, height, ..g.swap }, ..g }
}

/// `g` after the scale is set.
pub open spec fn after_set_scale(g: GraphicsView, scale: Seq<u32>) -> GraphicsView {
    GraphicsView { scale, ..g }
}

/// The scale under which a frame planned in state `g` is drawn.
pub open spec fn scale_in_force(g: GraphicsView) -> Seq<u32> {
    g.scale
}

/// The state of the graphics context: what the next frame, the next swap
/// chain and the next upload depend on. The GPU objects themselves live in
/// the back end, which carries out what the methods here return.
pub struct Graphics2D {
    swap: SwapConfig,
    scale: [u32; 2],
    courier_sprite_sheet: Option<Rc<SpriteSheet>>,
    polling: bool,
}

impl View for Graphics2D {
    type V = GraphicsView;

    closed spec fn view(&self) -> GraphicsView {
        GraphicsView {
            swap: self.swap,
            scale: self.scale@,
            courier: match self.courier_sprite_sheet {
                Some(sheet) => Some(*sheet),
                None => None,
            },
            polling: self.polling,
        }
    }
}

/// `Rc::clone`: another pointer to the same sheet.
#[verifier::external_body]
fn share(sheet: &Rc<SpriteSheet>) -> (r: Rc<SpriteSheet>)
    ensures
        r == *sheet,
{
    Rc::clone(sheet)
}

impl Graphics2D {
    /// The context for a surface of the given physical size.
    pub fn new(width: u32, height: u32) -> (r: Graphics2D)
        ensures
            r@ == fresh(width, height),
    {
        let r = Graphics2D {
            swap: SwapConfig {
                width,
                height,
                format: TextureFormat::Bgra8UnormSrgb,
                present_mode: PresentMode::Fifo,
            },
            scale: [ONE, ONE],
            courier_sprite_sheet: None,
            polling: false,
        };
        assert(r.scale@ =~= unit_scale());
        r
    }

    /// The configuration of the swap chain in use.
    pub fn swap_config(&self) -> (r: SwapConfig)
        ensures
            r == self@.swap,
    {
        self.swap
    }

    /// Takes note that the surface now has the given physical size, and
    /// returns the configuration to rebuild the swap chain with. Nothing
    /// else changes.
    pub fn resized(&mut self, width: u32, height: u32) -> (r: SwapConfig)
        ensures
            final(self)@ == after_resize(old(self)@, width, height),
            r == final(self)@.swap,
    {
        self.swap = SwapConfig { width, height, ..self.swap };
        self.swap
    }

    /// The screen coordinates of the lower-right corner; the upper-left is
    /// always `[0, 0]`.
    pub fn scale(&self) -> (r: [u32; 2])
        ensures
            r@ == self@.scale,
    {
        self.scale
    }

    /// The contents of the scale uniform for the scale in force.
    pub fn scale_data(&self) -> (r: Vec<u8>)
        ensures
            is_memory_image(self@.scale, r@),
    {
        memory_image(self.scale.as_slice())
    }

    /// Sets the screen coordinates of the lower-right corner, and returns
    /// the new contents of the scale uniform. Frames planned from now on
    /// are drawn under the new scale.
    pub fn set_scale(&mut self, new_scale: [u32; 2]) -> (r: Vec<u8>)
        ensures
            final(self)@ == after_set_scale(old(self)@, new_scale@),
            is_memory_image(new_scale@, r@),
    {
        self.scale = new_scale;
        memory_image(self.scale.as_slice())
    }

    /// The frame that draws `batches`: batches without instances are left
    /// out, the others are drawn in the order given, each with one draw of
    /// six vertices for every instance, under the scale in force.
    pub fn render(&self, batches: &[&SpriteBatch]) -> (r: Result<Frame, RenderError>)
        ensures
            match r {
                Ok(frame) => {
                    &&& first_oversized(views(batches@)) is None
                    &&& frame.clear@ == seq![0u32, 0u32, 0u32, 0u32]
                    &&& frame.scale@ == scale_in_force(self@)
                    &&& frame.draws@.len() == draws_of(views(batches@)).len()
                    &&& forall|k: int|
                        0 <= k < frame.draws@.len() ==> (#[trigger] frame.draws@[k]).carries(
                            drawn(views(batches@))[k],
                            draws_of(views(batches@))[k],
                        )
                },
                Err(RenderError::TooManyInstances { batch }) => first_oversized(views(batches@))
                    == Some(batch as int),
            },
    {
        plan_frame(self.scale, batches)
    }

    /// The built-in font sheet, if it has been made.
    pub fn kept_courier_sprite_sheet(&self) -> (r: Option<Rc<SpriteSheet>>)
        ensures
            match r {
                Some(sheet) => self@.courier == Some(*sheet),
                None => self@.courier is None,
            },
    {
        match &self.courier_sprite_sheet {
            Some(kept) => Some(share(kept)),
            None => None,
        }
    }

    /// The built-in font sheet. The first call that succeeds makes it from
    /// `font`, the decoded image of the font, and keeps it; every later call
    /// returns the sheet that was kept and does not look at `font`.
    pub fn courier_sprite_sheet(&mut self, font: Raster) -> (r: Result<Rc<SpriteSheet>, SheetError>)
        ensures
            match old(self)@.courier {
                Some(kept) => r == Ok::<Rc<SpriteSheet>, SheetError>(Rc::new(kept)) && final(self)@
                    == old(self)@,
                None => match r {
                    Ok(sheet) => {
                        &&& raster_fault(font.width, font.height, font.pixels@) is None
                        &&& sheet.spec_width() == font.width
                        &&& sheet.spec_height() == font.height
                        &&& sheet.spec_pixels() == font.pixels@
                        &&& final(self)@ == (GraphicsView { courier: Some(*sheet), ..old(self)@ })
                    },
                    Err(e) => raster_fault(font.width, font.height, font.pixels@) == Some(e)
                        && final(self)@ == old(self)@,
                },
            },
    {
        if let Some(kept) = &self.courier_sprite_sheet {
            return Ok(share(kept));
        }
        match SpriteSheet::from_raster(font) {
            Ok(sheet) => {
                self.courier_sprite_sheet = Some(share(&sheet));
                Ok(sheet)
            },
            Err(e) => Err(e),
        }
    }

    /// Whether the background worker has been started.
    pub fn polling(&self) -> (r: bool)
        ensures
            r == self@.polling,
    {
        self.polling
    }

    /// Makes sure that the background worker runs: returns whether the
    /// caller has to start it now, and counts it as running from here on.
    /// A caller that cannot start it says so with `polling_ended`.
    pub fn ensure_polling(&mut self) -> (start: bool)
        ensures
            start == must_start(old(self)@),
            final(self)@ == after_ensure_polling(old(self)@),
    {
        let start: bool = !self.polling;
        self.polling = true;
        start
    }

    /// Takes note that no worker runs: it could not be started, or it was
    /// told to stop. The next call of `ensure_polling` asks for a new one.
    pub fn polling_ended(&mut self)
        ensures
            final(self)@ == after_polling_ended(old(self)@),
    {
        self.polling = false;
    }
}

/// At most one worker runs: once one is counted as running no call asks for
/// another, and after it has ended or could not be started the next call
/// asks for one again.
pub proof fn lemma_one_worker(g: GraphicsView)
    ensures
        !must_start(after_ensure_polling(g)),
        after_ensure_polling(after_ensure_polling(g)) == after_ensure_polling(g),
        must_start(after_polling_ended(g)),
        must_start(after_polling_ended(after_ensure_polling(g))),
        after_polling_ended(after_ensure_polling(g)) == after_polling_ended(g),
        after_ensure_polling(g).swap == g.swap,
        after_ensure_polling(g).scale == g.scale,
        after_ensure_polling(g).courier == g.courier,
{
}

/// A frame is drawn under the scale that was set last: after `set_scale` it
/// is the new scale, and a frame planned before is drawn under the scale of
/// that time.
pub proof fn lemma_scale_takes_effect(g: GraphicsView, scale: Seq<u32>)
    ensures
        scale_in_force(after_set_scale(g, scale)) == scale,
        scale_in_force(g) == g.scale,
        after_set_scale(g, scale).swap == g.swap,
{
}

/// A second resize to the same size changes nothing, and no resize touches
/// the scale.
pub proof fn lemma_resize_idempotent(g: GraphicsView, width: u32, height: u32)
    ensures
        after_resize(after_resize(g, width, height), width, height) == after_resize(
            g,
            width,
            height,
        ),
        scale_in_force(after_resize(g, width, height)) == scale_in_force(g),
        after_resize(g, width, height).swap.width == width,
        after_resize(g, width, height).swap.height == height,
        after_resize(g, width, height).swap.format == g.swap.format,
        after_resize(g, width, height).swap.present_mode == g.swap.present_mode,
{
}

} // verus!
