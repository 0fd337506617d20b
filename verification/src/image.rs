//! The image primitive: a component wrapping a static bitmap resource.

use vstd::prelude::*;
use crate::component::{Canvas, Component, Event, EventCtx, PaintCmd};
use crate::geometry::Rect;

verus! {

/// A component that draws one bitmap into whatever area it is given.
/// Decoding and pixel work live in the renderer; this core only tracks the
/// resource bytes and the area the image occupies.
pub struct Image {
    pub data: Vec<u8>,
    pub area: Rect,
}

impl Image {
    pub fn new(data: Vec<u8>) -> (r: Image)
        ensures
            r.data == data,
            r.area == Rect::spec_zero(),
    {
        Image { data, area: Rect::zero() }
    }
}

impl Component for Image {
    type Msg = ();

    open spec fn place_req(&self, bounds: Rect) -> bool {
        true
    }

    open spec fn place_result(&self, bounds: Rect) -> Rect {
        bounds
    }

    open spec fn place_next(&self, bounds: Rect) -> Self {
        Image { data: self.data, area: bounds }
    }

    open spec fn event_result(&self, event: Event) -> Option<()> {
        None
    }

    open spec fn event_next(&self, event: Event) -> Self {
        *self
    }

    open spec fn paint_cmds(&self) -> Seq<PaintCmd> {
        seq![PaintCmd::Image { area: self.area }]
    }

    open spec fn bounds_rects(&self) -> Seq<Rect> {
        seq![self.area]
    }

    fn place(&mut self, bounds: Rect) -> (r: Rect) {
        self.area = bounds;
        bounds
    }

    fn event(&mut self, ctx: &mut EventCtx, event: Event) -> (r: Option<()>) {
        None
    }

    fn paint(&mut self, canvas: &mut Canvas) {
        canvas.push(PaintCmd::Image { area: self.area });
        proof {
            assert(canvas@ =~= old(canvas)@ + old(self).paint_cmds());
        }
    }

    fn bounds(&self, sink: &mut Vec<Rect>) {
        sink.push(self.area);
        proof {
            assert(sink@ =~= old(sink)@ + self.bounds_rects());
        }
    }
}

} // verus!
