//! The paragraph/text-flow component: an ordered sequence of styled text
//! entries, stacked linearly, with optional per-entry centering.

use vstd::prelude::*;
use crate::component::{Canvas, Component, Event, EventCtx, PaintCmd};
use crate::geometry::{LinearPlacement, Rect};
use crate::theme::{Color, TextStyle};

verus! {

/// A source of display text. Entry types only need to reveal their character
/// content to the specifications and answer whether they are empty.
pub trait TextSource: Sized {
    /// The characters of the text.
    spec fn text(&self) -> Seq<char>;

    /// Whether the text has no characters.
    fn text_is_empty(&self) -> (r: bool)
        ensures
            r == (self.text().len() == 0),
    ;
}

impl TextSource for String {
    open spec fn text(&self) -> Seq<char> {
        self@
    }

    fn text_is_empty(&self) -> (r: bool) {
        self.as_str().is_empty()
    }
}

/// One styled text entry of a paragraph block.
pub struct Paragraph<T> {
    pub style: TextStyle,
    /// A color override for this entry; the style's default color otherwise.
    pub color: Option<Color>,
    pub content: T,
    /// Whether the entry is centered within the block's width.
    pub centered: bool,
}

/// A vertically arranged block of styled text entries. The block is inert:
/// it handles events without ever producing a message.
pub struct Paragraphs<T> {
    pub placement: LinearPlacement,
    pub list: Vec<Paragraph<T>>,
    pub area: Rect,
}

impl<T: TextSource> Paragraphs<T> {
    /// An empty block with the default vertical arrangement.
    pub fn new() -> (r: Paragraphs<T>)
        ensures
            r.placement == LinearPlacement::spec_vertical(),
            r.list@ == Seq::<Paragraph<T>>::empty(),
            r.area == Rect::spec_zero(),
    {
        let r = Paragraphs {
            placement: LinearPlacement::vertical(),
            list: Vec::new(),
            area: Rect::zero(),
        };
        proof {
            assert(r.list@ =~= Seq::<Paragraph<T>>::empty());
        }
        r
    }

    /// The same block with another arrangement.
    pub fn with_placement(self, placement: LinearPlacement) -> (r: Paragraphs<T>)
        ensures
            r.placement == placement,
            r.list == self.list,
            r.area == self.area,
    {
        Paragraphs { placement, list: self.list, area: self.area }
    }

    /// Append an entry in the given style, with the style's default color,
    /// not centered.
    pub fn add(self, style: TextStyle, content: T) -> (r: Paragraphs<T>)
        ensures
            r.list@ == self.list@.push(
                (Paragraph { style, color: None, content, centered: false }),
            ),
            r.placement == self.placement,
            r.area == self.area,
    {
        let mut list = self.list;
        list.push(Paragraph { style, color: None, content, centered: false });
        Paragraphs { placement: self.placement, list, area: self.area }
    }

    /// Append an entry in the given style with a color override, not
    /// centered.
    pub fn add_color(self, style: TextStyle, color: Color, content: T) -> (r: Paragraphs<T>)
        ensures
            r.list@ == self.list@.push(
                (Paragraph { style, color: Some(color), content, centered: false }),
            ),
            r.placement == self.placement,
            r.area == self.area,
    {
        let mut list = self.list;
        list.push(Paragraph { style, color: Some(color), content, centered: false });
        Paragraphs { placement: self.placement, list, area: self.area }
    }

    /// Mark the most recently appended entry as centered; does nothing on an
    /// empty block.
    pub fn centered(self) -> (r: Paragraphs<T>)
        ensures
            self.list@.len() == 0 ==> r.list@ == self.list@,
            self.list@.len() > 0 ==> r.list@ == self.list@.update(
                self.list@.len() - 1,
                (Paragraph {
                    style: self.list@.last().style,
                    color: self.list@.last().color,
                    content: self.list@.last().content,
                    centered: true,
                }),
            ),
            r.placement == self.placement,
            r.area == self.area,
    {
        let mut list = self.list;
        if list.len() > 0 {
            let last = list.pop().unwrap();
            list.push(
                Paragraph {
                    style: last.style,
                    color: last.color,
                    content: last.content,
                    centered: true,
                },
            );
            proof {
                assert(list@ =~= self.list@.update(
                    self.list@.len() - 1,
                    (Paragraph {
                        style: self.list@.last().style,
                        color: self.list@.last().color,
                        content: self.list@.last().content,
                        centered: true,
                    }),
                ));
            }
        }
        Paragraphs { placement: self.placement, list, area: self.area }
    }

    /// The number of entries in the block.
    pub fn line_count(&self) -> (n: usize)
        ensures
            n == self.list@.len(),
    {
        self.list.len()
    }
}

impl<T: TextSource> Component for Paragraphs<T> {
    type Msg = ();

    open spec fn place_req(&self, bounds: Rect) -> bool {
        true
    }

    open spec fn place_result(&self, bounds: Rect) -> Rect {
        bounds
    }

    open spec fn place_next(&self, bounds: Rect) -> Self {
        Paragraphs { placement: self.placement, list: self.list, area: bounds }
    }

    open spec fn event_result(&self, event: Event) -> Option<()> {
        None
    }

    open spec fn event_next(&self, event: Event) -> Self {
        *self
    }

    open spec fn paint_cmds(&self) -> Seq<PaintCmd> {
        Seq::new(self.list@.len(), |i: int| PaintCmd::Text { area: self.area })
    }

    open spec fn bounds_rects(&self) -> Seq<Rect> {
        seq![self.area]
    }

    fn place(&mut self, bounds: Rect) -> (r: Rect) {
        self.area = bounds;
        bounds
    }

    fn event(&mut self, ctx: &mut EventCtx, event: Event) -> (r: Option<()>) {
        None
    }

    fn paint(&mut self, canvas: &mut Canvas) {
        let n: usize = self.list.len();
        let mut i: usize = 0;
        proof {
            assert(canvas@ =~= old(canvas)@ + Seq::new(
                0nat,
                |j: int| PaintCmd::Text { area: self.area },
            ));
        }
        while i < n
            invariant
                i <= n,
                n == self.list@.len(),
                *self == *old(self),
                canvas@ == old(canvas)@ + Seq::new(
                    i as nat,
                    |j: int| PaintCmd::Text { area: self.area },
                ),
            decreases n - i,
        {
            canvas.push(PaintCmd::Text { area: self.area });
            i = i + 1;
            proof {
                assert(canvas@ =~= old(canvas)@ + Seq::new(
                    i as nat,
                    |j: int| PaintCmd::Text { area: self.area },
                ));
            }
        }
        proof {
            assert(canvas@ =~= old(canvas)@ + old(self).paint_cmds());
        }
    }

    fn bounds(&self, sink: &mut Vec<Rect>) {
        sink.push(self.area);
        proof {
            assert(sink@ =~= old(sink)@ + self.bounds_rects());
        }
    }
}

} // verus!
