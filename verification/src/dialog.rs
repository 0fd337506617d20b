//! The two composite widgets: [`Dialog`] arranges an arbitrary content
//! component above an arbitrary controls component; [`IconDialog`] arranges
//! a fixed icon and a paragraph block above arbitrary controls.

use vstd::prelude::*;
use crate::component::{Canvas, Child, Component, Event, EventCtx, PaintCmd};
use crate::geometry::{Alignment, Axis, Insets, LinearPlacement, Rect};
use crate::image::Image;
use crate::text::{Paragraph, Paragraphs, TextSource};
use crate::theme;
use crate::theme::TextStyle;

verus! {

/// The message a [`Dialog`] bubbles up from one event: either a message of
/// the content child or a message of the controls child.
#[derive(Debug, PartialEq, Eq)]
pub enum DialogMsg<T, U> {
    Content(T),
    Controls(U),
}

/// The message an [`IconDialog`] bubbles up from one event. Its text side is
/// inert and can never produce a message, so the type has no content case.
#[derive(Debug, PartialEq, Eq)]
pub enum IconDialogMsg<K> {
    Controls(K),
}

/// A generic two-region composite: an arbitrary content component above an
/// arbitrary controls component.
pub struct Dialog<T, U> {
    pub content: Child<T>,
    pub controls: Child<U>,
}

/// The content rectangle of a [`Dialog`]: the bounds shrunk from the bottom
/// by the controls' height plus the inter-button spacing, and from the left
/// by the content border.
pub open spec fn dialog_content_area(bounds: Rect, controls_area: Rect) -> Rect {
    bounds.spec_inset(Insets::spec_bottom(controls_area.spec_height() as i16)).spec_inset(
        Insets::spec_bottom(theme::BUTTON_SPACING),
    ).spec_inset(Insets::spec_left(theme::CONTENT_BORDER))
}

/// The arithmetic of [`dialog_content_area`] stays within the coordinate
/// type.
pub open spec fn dialog_layout_fits(bounds: Rect, controls_area: Rect) -> bool {
    let r1 = bounds.spec_inset(Insets::spec_bottom(controls_area.spec_height() as i16));
    let r2 = r1.spec_inset(Insets::spec_bottom(theme::BUTTON_SPACING));
    &&& controls_area.wf()
    &&& bounds.inset_fits(Insets::spec_bottom(controls_area.spec_height() as i16))
    &&& r1.inset_fits(Insets::spec_bottom(theme::BUTTON_SPACING))
    &&& r2.inset_fits(Insets::spec_left(theme::CONTENT_BORDER))
}

impl<T: Component, U: Component> Dialog<T, U> {
    pub fn new(content: T, controls: U) -> (r: Dialog<T, U>)
        ensures
            r.content.component == content,
            r.controls.component == controls,
    {
        Dialog { content: Child::new(content), controls: Child::new(controls) }
    }

    /// Read-only access to the content component.
    pub fn inner(&self) -> (r: &T)
        ensures
            *r == self.content.component,
    {
        self.content.inner()
    }
}

impl<T: Component, U: Component> Component for Dialog<T, U> {
    type Msg = DialogMsg<T::Msg, U::Msg>;

    open spec fn place_req(&self, bounds: Rect) -> bool {
        let controls_area = self.controls.place_result(bounds);
        &&& self.controls.place_req(bounds)
        &&& dialog_layout_fits(bounds, controls_area)
        &&& self.content.place_req(dialog_content_area(bounds, controls_area))
    }

    open spec fn place_result(&self, bounds: Rect) -> Rect {
        bounds
    }

    open spec fn place_next(&self, bounds: Rect) -> Self {
        let controls_area = self.controls.place_result(bounds);
        Dialog {
            content: self.content.place_next(dialog_content_area(bounds, controls_area)),
            controls: self.controls.place_next(bounds),
        }
    }

    open spec fn event_result(&self, event: Event) -> Option<DialogMsg<T::Msg, U::Msg>> {
        match self.content.event_result(event) {
            Some(m) => Some(DialogMsg::Content(m)),
            None => match self.controls.event_result(event) {
                Some(k) => Some(DialogMsg::Controls(k)),
                None => None,
            },
        }
    }

    open spec fn event_next(&self, event: Event) -> Self {
        Dialog {
            content: self.content.event_next(event),
            controls: match self.content.event_result(event) {
                Some(m) => self.controls,
                None => self.controls.event_next(event),
            },
        }
    }

    open spec fn paint_cmds(&self) -> Seq<PaintCmd> {
        self.content.paint_cmds() + self.controls.paint_cmds()
    }

    open spec fn bounds_rects(&self) -> Seq<Rect> {
        self.content.bounds_rects() + self.controls.bounds_rects()
    }

    /// The controls choose their own sub-rectangle of `bounds` first; the
    /// content is placed into what remains above them; the composite always
    /// reports the full `bounds` back.
    fn place(&mut self, bounds: Rect) -> (r: Rect)
        ensures
            r == bounds,
    {
        let controls_area = self.controls.place(bounds);
        let content_area = bounds.inset(Insets::bottom(controls_area.height())).inset(
            Insets::bottom(theme::BUTTON_SPACING),
        ).inset(Insets::left(theme::CONTENT_BORDER));
        self.content.place(content_area);
        bounds
    }

    /// Content-first, short-circuit event routing: the content always sees
    /// the event; the controls see it only when the content produced no
    /// message.
    fn event(&mut self, ctx: &mut EventCtx, event: Event) -> (r: Option<DialogMsg<T::Msg, U::Msg>>) {
        let cm = self.content.event(ctx, event);
        match cm {
            Some(m) => Some(DialogMsg::Content(m)),
            None => match self.controls.event(ctx, event) {
                Some(k) => Some(DialogMsg::Controls(k)),
                None => None,
            },
        }
    }

    /// Paint the content, then the controls, unconditionally and in that
    /// order.
    fn paint(&mut self, canvas: &mut Canvas) {
        self.content.paint(canvas);
        self.controls.paint(canvas);
        proof {
            assert(canvas@ =~= old(canvas)@ + old(self).paint_cmds());
        }
    }

    /// Report the content's rectangles, then the controls'.
    fn bounds(&self, sink: &mut Vec<Rect>) {
        self.content.bounds(sink);
        self.controls.bounds(sink);
        proof {
            assert(sink@ =~= old(sink)@ + self.bounds_rects());
        }
    }
}

/// Top padding above the icon area of an [`IconDialog`].
pub const ICON_AREA_PADDING: i16 = 2;

/// Fixed height of the icon area of an [`IconDialog`].
pub const ICON_AREA_HEIGHT: i16 = 60;

/// Spacing between consecutive paragraph lines of an [`IconDialog`].
pub const VALUE_SPACE: i16 = 5;

/// A specialized composite: a fixed icon and a block of centered text lines
/// above an arbitrary controls component.
pub struct IconDialog<T, U> {
    pub image: Child<Image>,
    pub paragraphs: Paragraphs<T>,
    pub controls: Child<U>,
}

/// The rectangle an [`IconDialog`] works in and reports back: the given
/// bounds shrunk by the standard borders and the icon-area top padding.
pub open spec fn icon_dialog_inner_bounds(bounds: Rect) -> Rect {
    bounds.spec_inset(theme::spec_borders()).spec_inset(Insets::spec_top(ICON_AREA_PADDING))
}

/// The region left for icon and paragraphs once the controls took their
/// share of the inner bounds.
pub open spec fn icon_dialog_content_area(bounds: Rect, controls_area: Rect) -> Rect {
    icon_dialog_inner_bounds(bounds).spec_inset(
        Insets::spec_bottom(controls_area.spec_height() as i16),
    )
}

/// The arithmetic of the [`IconDialog`] layout stays within the coordinate
/// type and leaves a non-degenerate content region to split.
pub open spec fn icon_dialog_layout_fits(bounds: Rect, controls_area: Rect) -> bool {
    let b1 = bounds.spec_inset(theme::spec_borders());
    let inner = icon_dialog_inner_bounds(bounds);
    &&& bounds.inset_fits(theme::spec_borders())
    &&& b1.inset_fits(Insets::spec_top(ICON_AREA_PADDING))
    &&& controls_area.wf()
    &&& inner.inset_fits(Insets::spec_bottom(controls_area.spec_height() as i16))
    &&& icon_dialog_content_area(bounds, controls_area).wf()
}

impl<T: TextSource, U: Component> IconDialog<T, U> {
    /// Build the composite from an icon bitmap, a title styled as medium and
    /// centered, and a controls component.
    pub fn new(icon: Vec<u8>, title: T, controls: U) -> (r: IconDialog<T, U>)
        ensures
            r.image.component.data == icon,
            r.image.component.area == Rect::spec_zero(),
            r.paragraphs.placement == (LinearPlacement {
                axis: Axis::Vertical,
                align: Alignment::Center,
                spacing: VALUE_SPACE,
            }),
            r.paragraphs.list@ == seq![
                (Paragraph {
                    style: TextStyle::Medium,
                    color: None,
                    content: title,
                    centered: true,
                }),
            ],
            r.paragraphs.area == Rect::spec_zero(),
            r.controls.component == controls,
    {
        let paragraphs = Paragraphs::new().with_placement(
            LinearPlacement::vertical().align_at_center().with_spacing(VALUE_SPACE),
        ).add(theme::TEXT_MEDIUM, title).centered();
        proof {
            assert(paragraphs.list@ =~= seq![
                (Paragraph {
                    style: TextStyle::Medium,
                    color: None,
                    content: title,
                    centered: true,
                }),
            ]);
        }
        IconDialog {
            image: Child::new(Image::new(icon)),
            paragraphs,
            controls: Child::new(controls),
        }
    }

    /// Append a normally styled, off-white, centered description line; an
    /// empty description means "no description line" and leaves the block
    /// unchanged.
    pub fn with_description(self, description: T) -> (r: IconDialog<T, U>)
        ensures
            description.text().len() == 0 ==> r.paragraphs.list@ == self.paragraphs.list@,
            description.text().len() > 0 ==> r.paragraphs.list@ == self.paragraphs.list@.push(
                (Paragraph {
                    style: TextStyle::Normal,
                    color: Some(theme::spec_off_white()),
                    content: description,
                    centered: true,
                }),
            ),
            r.paragraphs.placement == self.paragraphs.placement,
            r.paragraphs.area == self.paragraphs.area,
            r.image == self.image,
            r.controls == self.controls,
    {
        if description.text_is_empty() {
            self
        } else {
            let paragraphs = self.paragraphs.add_color(
                theme::TEXT_NORMAL,
                theme::off_white(),
                description,
            ).centered();
            proof {
                assert(paragraphs.list@ =~= self.paragraphs.list@.push(
                    (Paragraph {
                        style: TextStyle::Normal,
                        color: Some(theme::spec_off_white()),
                        content: description,
                        centered: true,
                    }),
                ));
            }
            IconDialog { image: self.image, paragraphs, controls: self.controls }
        }
    }

    /// Build the themed four-line summary screen: the lines alternate
    /// normal/off-white and medium styling, all centered, under the built-in
    /// success icon.
    pub fn new_shares(lines: (T, T, T, T), controls: U) -> (r: IconDialog<T, U>)
        ensures
            r.image.component.data@ == theme::spec_image_success(),
            r.image.component.area == Rect::spec_zero(),
            r.paragraphs.placement == (LinearPlacement {
                axis: Axis::Vertical,
                align: Alignment::Center,
                spacing: 0,
            }),
            r.paragraphs.list@ == seq![
                (Paragraph {
                    style: TextStyle::Normal,
                    color: Some(theme::spec_off_white()),
                    content: lines.0,
                    centered: true,
                }),
                (Paragraph {
                    style: TextStyle::Medium,
                    color: None,
                    content: lines.1,
                    centered: true,
                }),
                (Paragraph {
                    style: TextStyle::Normal,
                    color: Some(theme::spec_off_white()),
                    content: lines.2,
                    centered: true,
                }),
                (Paragraph {
                    style: TextStyle::Medium,
                    color: None,
                    content: lines.3,
                    centered: true,
                }),
            ],
            r.paragraphs.area == Rect::spec_zero(),
            r.controls.component == controls,
    {
        let (l0, l1, l2, l3) = lines;
        let paragraphs = Paragraphs::new().with_placement(
            LinearPlacement::vertical().align_at_center(),
        ).add_color(theme::TEXT_NORMAL, theme::off_white(), l0).centered().add(
            theme::TEXT_MEDIUM,
            l1,
        ).centered().add_color(theme::TEXT_NORMAL, theme::off_white(), l2).centered().add(
            theme::TEXT_MEDIUM,
            l3,
        ).centered();
        proof {
            assert(paragraphs.list@ =~= seq![
                (Paragraph {
                    style: TextStyle::Normal,
                    color: Some(theme::spec_off_white()),
                    content: l0,
                    centered: true,
                }),
                (Paragraph {
                    style: TextStyle::Medium,
                    color: None,
                    content: l1,
                    centered: true,
                }),
                (Paragraph {
                    style: TextStyle::Normal,
                    color: Some(theme::spec_off_white()),
                    content: l2,
                    centered: true,
                }),
                (Paragraph {
                    style: TextStyle::Medium,
                    color: None,
                    content: l3,
                    centered: true,
                }),
            ]);
        }
        IconDialog {
            image: Child::new(Image::new(theme::image_success())),
            paragraphs,
            controls: Child::new(controls),
        }
    }
}

impl<T: TextSource, U: Component> Component for IconDialog<T, U> {
    type Msg = IconDialogMsg<U::Msg>;

    open spec fn place_req(&self, bounds: Rect) -> bool {
        let inner = icon_dialog_inner_bounds(bounds);
        let controls_area = self.controls.place_result(inner);
        &&& self.controls.place_req(inner)
        &&& icon_dialog_layout_fits(bounds, controls_area)
    }

    open spec fn place_result(&self, bounds: Rect) -> Rect {
        icon_dialog_inner_bounds(bounds)
    }

    open spec fn place_next(&self, bounds: Rect) -> Self {
        let inner = icon_dialog_inner_bounds(bounds);
        let controls_area = self.controls.place_result(inner);
        let split = icon_dialog_content_area(bounds, controls_area).spec_split_top(
            ICON_AREA_HEIGHT,
        );
        IconDialog {
            image: self.image.place_next(split.0),
            paragraphs: self.paragraphs.place_next(split.1),
            controls: self.controls.place_next(inner),
        }
    }

    open spec fn event_result(&self, event: Event) -> Option<IconDialogMsg<U::Msg>> {
        match self.controls.event_result(event) {
            Some(k) => Some(IconDialogMsg::Controls(k)),
            None => None,
        }
    }

    open spec fn event_next(&self, event: Event) -> Self {
        IconDialog {
            image: self.image,
            paragraphs: self.paragraphs.event_next(event),
            controls: self.controls.event_next(event),
        }
    }

    open spec fn paint_cmds(&self) -> Seq<PaintCmd> {
        self.image.paint_cmds() + self.paragraphs.paint_cmds() + self.controls.paint_cmds()
    }

    open spec fn bounds_rects(&self) -> Seq<Rect> {
        self.image.bounds_rects() + self.paragraphs.bounds_rects() + self.controls.bounds_rects()
    }

    /// Shrink the bounds by the standard borders and the icon-area padding;
    /// let the controls take their share; split the rest into the fixed-height
    /// icon slice and the paragraph slice; report the shrunk bounds back.
    fn place(&mut self, bounds: Rect) -> (r: Rect)
        ensures
            r == icon_dialog_inner_bounds(bounds),
    {
        let inner = bounds.inset(theme::borders()).inset(Insets::top(ICON_AREA_PADDING));
        let controls_area = self.controls.place(inner);
        let content_area = inner.inset(Insets::bottom(controls_area.height()));
        let (image_area, para_area) = content_area.split_top(ICON_AREA_HEIGHT);
        self.image.place(image_area);
        self.paragraphs.place(para_area);
        inner
    }

    /// The paragraphs always see the event, their result is discarded; any
    /// message comes from the controls.
    fn event(&mut self, ctx: &mut EventCtx, event: Event) -> (r: Option<IconDialogMsg<U::Msg>>) {
        let _ = self.paragraphs.event(ctx, event);
        match self.controls.event(ctx, event) {
            Some(k) => Some(IconDialogMsg::Controls(k)),
            None => None,
        }
    }

    /// Paint the icon, then the paragraphs, then the controls, in that fixed
    /// order.
    fn paint(&mut self, canvas: &mut Canvas) {
        self.image.paint(canvas);
        self.paragraphs.paint(canvas);
        self.controls.paint(canvas);
        proof {
            assert(canvas@ =~= old(canvas)@ + old(self).paint_cmds());
        }
    }

    /// Report the icon's rectangles, then the paragraphs', then the
    /// controls'.
    fn bounds(&self, sink: &mut Vec<Rect>) {
        self.image.bounds(sink);
        self.paragraphs.bounds(sink);
        self.controls.bounds(sink);
        proof {
            assert(sink@ =~= old(sink)@ + self.bounds_rects());
        }
    }
}

/// Law: placing a `Dialog` reports exactly the rectangle passed in,
/// unmodified, regardless of what its children occupy.
pub proof fn lemma_dialog_place_reports_bounds<T: Component, U: Component>(
    d: Dialog<T, U>,
    bounds: Rect,
)
    ensures
        d.place_result(bounds) == bounds,
{
}

/// Law: placing an `IconDialog` reports the input rectangle shrunk by the
/// standard borders and the icon-area top padding; whenever that shrinkage
/// stays within the coordinate type it is never the raw input.
pub proof fn lemma_icon_dialog_place_shrinks<T: TextSource, U: Component>(
    d: IconDialog<T, U>,
    bounds: Rect,
)
    ensures
        d.place_result(bounds) == icon_dialog_inner_bounds(bounds),
        bounds.inset_fits(theme::spec_borders()) && bounds.spec_inset(
            theme::spec_borders(),
        ).inset_fits(Insets::spec_top(ICON_AREA_PADDING)) ==> d.place_result(bounds) != bounds,
{
}

/// Law: in a `Dialog`, the content sees every event first. When it produces
/// a message, that message is surfaced as `Content` and the controls are
/// left untouched; when it produces none, the controls see the event and any
/// message of theirs is surfaced as `Controls`.
pub proof fn lemma_dialog_event_content_first<T: Component, U: Component>(
    d: Dialog<T, U>,
    event: Event,
)
    ensures
        d.event_next(event).content == d.content.event_next(event),
        match d.content.event_result(event) {
            Some(m) => {
                &&& d.event_result(event) == Some(DialogMsg::<T::Msg, U::Msg>::Content(m))
                &&& d.event_next(event).controls == d.controls
            },
            None => {
                &&& d.event_next(event).controls == d.controls.event_next(event)
                &&& match d.controls.event_result(event) {
                    Some(k) => d.event_result(event) == Some(
                        DialogMsg::<T::Msg, U::Msg>::Controls(k),
                    ),
                    None => d.event_result(event) is None,
                }
            },
        },
{
}

/// Law: in an `IconDialog`, the paragraphs always receive the event and
/// their result is always discarded; the returned message, if any, is the
/// controls' message wrapped as `Controls`.
pub proof fn lemma_icon_dialog_event_controls_only<T: TextSource, U: Component>(
    d: IconDialog<T, U>,
    event: Event,
)
    ensures
        d.event_next(event).paragraphs == d.paragraphs.event_next(event),
        d.event_next(event).image == d.image,
        match d.controls.event_result(event) {
            Some(k) => d.event_result(event) == Some(IconDialogMsg::Controls(k)),
            None => d.event_result(event) is None,
        },
{
}

/// Law: a message of an `IconDialog` always comes from the controls side;
/// the message type has no content case to construct.
pub proof fn lemma_icon_dialog_msg_controls_only<K>(m: IconDialogMsg<K>)
    ensures
        m is Controls,
{
}

/// Law: a `Dialog` always paints its content's steps first and its controls'
/// steps after them, in every state.
pub proof fn lemma_dialog_paint_order<T: Component, U: Component>(d: Dialog<T, U>)
    ensures
        d.paint_cmds() == d.content.paint_cmds() + d.controls.paint_cmds(),
{
}

/// Law: an `IconDialog` always paints the icon's steps, then the
/// paragraphs', then the controls', in every state.
pub proof fn lemma_icon_dialog_paint_order<T: TextSource, U: Component>(d: IconDialog<T, U>)
    ensures
        d.paint_cmds() == d.image.paint_cmds() + d.paragraphs.paint_cmds()
            + d.controls.paint_cmds(),
{
}

/// Law: a `Dialog` reports its content's rectangles before its controls'.
pub proof fn lemma_dialog_bounds_order<T: Component, U: Component>(d: Dialog<T, U>)
    ensures
        d.bounds_rects() == d.content.bounds_rects() + d.controls.bounds_rects(),
{
}

/// Law: an `IconDialog` reports the icon's rectangles, then the
/// paragraphs', then the controls'.
pub proof fn lemma_icon_dialog_bounds_order<T: TextSource, U: Component>(d: IconDialog<T, U>)
    ensures
        d.bounds_rects() == d.image.bounds_rects() + d.paragraphs.bounds_rects()
            + d.controls.bounds_rects(),
{
}

} // verus!
