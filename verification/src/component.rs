//! The generic component capability: every widget can be placed into a
//! rectangle, can handle input events, can paint itself onto a canvas, and
//! can report the rectangles it occupies.

use vstd::prelude::*;
use crate::geometry::Rect;

verus! {

/// An input event delivered by the external dispatcher.
#[derive(Clone, Copy, Debug, PartialEq, Eq, Structural)]
pub enum Event {
    /// The screen has just been attached to the display.
    Attach,
    /// A timer with the given token has fired.
    Timer { token: u32 },
    /// A touch at the given display coordinates.
    Touch { x: i16, y: i16 },
}

/// The per-dispatch context handed to event handlers by the external event
/// loop. This core reads nothing from it and passes it through unchanged.
#[derive(Clone, Copy, Debug, PartialEq, Eq, Structural)]
pub struct EventCtx {}

impl EventCtx {
    pub fn new() -> (r: EventCtx)
        ensures
            r == (EventCtx {}),
    {
        EventCtx {}
    }
}

/// One painting step recorded on the canvas; the order of the recorded steps
/// is the order in which pixels would be drawn, so a later step wins overlap.
#[derive(Clone, Copy, Debug, PartialEq, Eq, Structural)]
pub enum PaintCmd {
    /// A bitmap drawn into the given area.
    Image { area: Rect },
    /// One line of styled text drawn within the given area.
    Text { area: Rect },
    /// A drawing step of a foreign component, identified by a token.
    Token { id: u32 },
}

/// The recording render target: painting appends commands in draw order.
pub type Canvas = Vec<PaintCmd>;

/// The generic component capability.
///
/// The spec functions describe, for each component, what its executable
/// methods return and how they change its state; the method contracts tie
/// the executable methods to those descriptions, so a composite's behavior
/// can be verified without knowing its children's concrete types.
pub trait Component: Sized {
    /// The message a component may bubble up from an event.
    type Msg;

    /// When the component may be placed into `bounds` (arithmetic limits of
    /// its layout computation). The default describes a component whose
    /// layout never overflows.
    open spec fn place_req(&self, bounds: Rect) -> bool {
        true
    }

    /// The rectangle the component reports as occupied after placement. The
    /// default describes a component that takes all the space it is given.
    open spec fn place_result(&self, bounds: Rect) -> Rect {
        bounds
    }

    /// The component's state after placement. The default describes a
    /// component whose state does not record its placement.
    open spec fn place_next(&self, bounds: Rect) -> Self {
        *self
    }

    /// The message the component produces for an event, if any. The default
    /// describes an inert component.
    open spec fn event_result(&self, event: Event) -> Option<Self::Msg> {
        None
    }

    /// The component's state after handling an event. The default describes
    /// a component that events leave unchanged.
    open spec fn event_next(&self, event: Event) -> Self {
        *self
    }

    /// The painting steps the component records, in draw order. The default
    /// describes a component that draws nothing.
    open spec fn paint_cmds(&self) -> Seq<PaintCmd> {
        Seq::empty()
    }

    /// The rectangles the component reports for hit-testing, in order. The
    /// default describes a component that reports none.
    open spec fn bounds_rects(&self) -> Seq<Rect> {
        Seq::empty()
    }

    /// Lay the component out inside `bounds` and return the rectangle it
    /// occupies.
    fn place(&mut self, bounds: Rect) -> (r: Rect)
        requires
            old(self).place_req(bounds),
        ensures
            r == old(self).place_result(bounds),
            *final(self) == old(self).place_next(bounds),
    ;

    /// Handle one input event, possibly producing a message.
    fn event(&mut self, ctx: &mut EventCtx, event: Event) -> (r: Option<Self::Msg>)
        ensures
            r == old(self).event_result(event),
            *final(self) == old(self).event_next(event),
    ;

    /// Record the component's painting steps on the canvas, in draw order.
    fn paint(&mut self, canvas: &mut Canvas)
        ensures
            *final(self) == *old(self),
            final(canvas)@ == old(canvas)@ + old(self).paint_cmds(),
    ;

    /// Report the rectangles the component occupies, in order.
    fn bounds(&self, sink: &mut Vec<Rect>)
        ensures
            final(sink)@ == old(sink)@ + self.bounds_rects(),
    ;
}

/// An owning wrapper around a child component; composites hold their
/// children through it and forward the component capability unchanged.
pub struct Child<T> {
    pub component: T,
}

impl<T: Component> Child<T> {
    pub fn new(component: T) -> (r: Child<T>)
        ensures
            r == (Child { component }),
    {
        Child { component }
    }

    /// Read-only access to the wrapped component.
    pub fn inner(&self) -> (r: &T)
        ensures
            *r == self.component,
    {
        &self.component
    }
}

impl<T: Component> Component for Child<T> {
    type Msg = T::Msg;

    open spec fn place_req(&self, bounds: Rect) -> bool {
        self.component.place_req(bounds)
    }

    open spec fn place_result(&self, bounds: Rect) -> Rect {
        self.component.place_result(bounds)
    }

    open spec fn place_next(&self, bounds: Rect) -> Self {
        Child { component: self.component.place_next(bounds) }
    }

    open spec fn event_result(&self, event: Event) -> Option<T::Msg> {
        self.component.event_result(event)
    }

    open spec fn event_next(&self, event: Event) -> Self {
        Child { component: self.component.event_next(event) }
    }

    open spec fn paint_cmds(&self) -> Seq<PaintCmd> {
        self.component.paint_cmds()
    }

    open spec fn bounds_rects(&self) -> Seq<Rect> {
        self.component.bounds_rects()
    }

    fn place(&mut self, bounds: Rect) -> (r: Rect) {
        self.component.place(bounds)
    }

    fn event(&mut self, ctx: &mut EventCtx, event: Event) -> (r: Option<T::Msg>) {
        self.component.event(ctx, event)
    }

    fn paint(&mut self, canvas: &mut Canvas) {
        self.component.paint(canvas)
    }

    fn bounds(&self, sink: &mut Vec<Rect>) {
        self.component.bounds(sink)
    }
}

} // verus!
