use dialog::component::{Component, Event, EventCtx, PaintCmd};
use dialog::dialog::{Dialog, DialogMsg, IconDialog, IconDialogMsg};
use dialog::geometry::Rect;
use dialog::theme;

/// A controls stand-in: anchors itself to the bottom of its bounds with a
/// fixed height, records every event it receives, and reports a fixed
/// message (or none).
struct FixedControls {
    height: i16,
    msg: Option<u32>,
    received: Vec<Event>,
    area: Rect,
    token: u32,
}

impl FixedControls {
    fn new(height: i16, msg: Option<u32>, token: u32) -> Self {
        FixedControls { height, msg, received: Vec::new(), area: Rect::new(0, 0, 0, 0), token }
    }
}

impl Component for FixedControls {
    type Msg = u32;

    fn place(&mut self, bounds: Rect) -> Rect {
        self.area = Rect::new(bounds.x0, bounds.y1 - self.height, bounds.x1, bounds.y1);
        self.area
    }

    fn event(&mut self, _ctx: &mut EventCtx, event: Event) -> Option<u32> {
        self.received.push(event);
        self.msg
    }

    fn paint(&mut self, canvas: &mut Vec<PaintCmd>) {
        canvas.push(PaintCmd::Token { id: self.token });
    }

    fn bounds(&self, sink: &mut Vec<Rect>) {
        sink.push(self.area);
    }
}

/// A content stand-in: takes whatever rectangle it is given, records every
/// event, and reports a fixed message (or none).
struct RecordingContent {
    msg: Option<u32>,
    received: Vec<Event>,
    area: Rect,
    token: u32,
}

impl RecordingContent {
    fn new(msg: Option<u32>, token: u32) -> Self {
        RecordingContent { msg, received: Vec::new(), area: Rect::new(0, 0, 0, 0), token }
    }
}

impl Component for RecordingContent {
    type Msg = u32;

    fn place(&mut self, bounds: Rect) -> Rect {
        self.area = bounds;
        bounds
    }

    fn event(&mut self, _ctx: &mut EventCtx, event: Event) -> Option<u32> {
        self.received.push(event);
        self.msg
    }

    fn paint(&mut self, canvas: &mut Vec<PaintCmd>) {
        canvas.push(PaintCmd::Token { id: self.token });
    }

    fn bounds(&self, sink: &mut Vec<Rect>) {
        sink.push(self.area);
    }
}

fn full_screen() -> Rect {
    Rect::new(0, 0, 240, 240)
}

#[test]
fn dialog_place_returns_input_unmodified() {
    let mut d = Dialog::new(RecordingContent::new(None, 1), FixedControls::new(48, None, 2));
    let r = d.place(full_screen());
    assert_eq!(r, full_screen());
    // controls take the bottom 48 units of the full bounds
    assert_eq!(d.controls.component.area, Rect::new(0, 192, 240, 240));
    // content: shrunk from the bottom by 48 + BUTTON_SPACING and from the
    // left by CONTENT_BORDER
    assert_eq!(
        d.content.component.area,
        Rect::new(theme::CONTENT_BORDER, 0, 240, 240 - 48 - theme::BUTTON_SPACING)
    );
}

#[test]
fn icon_dialog_place_returns_shrunk_bounds() {
    let mut d = IconDialog::new(
        vec![1u8, 2, 3],
        String::from("Title"),
        FixedControls::new(48, None, 2),
    );
    let r = d.place(full_screen());
    // borders of 8 on each side, then 2 more from the top
    assert_eq!(r, Rect::new(8, 10, 232, 232));
    assert_ne!(r, full_screen());
}

#[test]
fn icon_dialog_layout_heights_match() {
    // bounds 240x240, border 8 each side, top padding 2, icon area 60,
    // controls height 48: the paragraph area height is
    // 240 - 2*8 - 2 - 60 - 48 = 114.
    let mut d = IconDialog::new(
        vec![1u8, 2, 3],
        String::from("Title"),
        FixedControls::new(48, None, 2),
    );
    d.place(full_screen());
    assert_eq!(d.controls.component.area, Rect::new(8, 184, 232, 232));
    assert_eq!(d.image.component.area, Rect::new(8, 10, 232, 70));
    assert_eq!(d.paragraphs.area, Rect::new(8, 70, 232, 184));
    assert_eq!(d.paragraphs.area.y1 - d.paragraphs.area.y0, 114);
}

#[test]
fn dialog_event_content_message_wins_and_controls_is_skipped() {
    let mut d = Dialog::new(RecordingContent::new(Some(7), 1), FixedControls::new(48, Some(9), 2));
    let mut ctx = EventCtx::new();
    let r = d.event(&mut ctx, Event::Attach);
    assert_eq!(r, Some(DialogMsg::Content(7)));
    assert_eq!(d.content.component.received.len(), 1);
    // the controls never saw the event
    assert_eq!(d.controls.component.received.len(), 0);
}

#[test]
fn dialog_event_falls_through_to_controls() {
    let mut d = Dialog::new(RecordingContent::new(None, 1), FixedControls::new(48, Some(9), 2));
    let mut ctx = EventCtx::new();
    let r = d.event(&mut ctx, Event::Touch { x: 10, y: 20 });
    assert_eq!(r, Some(DialogMsg::Controls(9)));
    // both children saw the event
    assert_eq!(d.content.component.received, vec![Event::Touch { x: 10, y: 20 }]);
    assert_eq!(d.controls.component.received, vec![Event::Touch { x: 10, y: 20 }]);
}

#[test]
fn dialog_event_silent_content_does_not_block_controls() {
    // content handles the event internally (returns no message): the
    // controls still see that same event
    let mut d = Dialog::new(RecordingContent::new(None, 1), FixedControls::new(48, None, 2));
    let mut ctx = EventCtx::new();
    let r = d.event(&mut ctx, Event::Timer { token: 4 });
    assert_eq!(r, None);
    assert_eq!(d.content.component.received.len(), 1);
    assert_eq!(d.controls.component.received.len(), 1);
}

#[test]
fn icon_dialog_event_message_is_always_controls() {
    let mut d = IconDialog::new(
        vec![1u8],
        String::from("Title"),
        FixedControls::new(48, Some(5), 2),
    );
    let mut ctx = EventCtx::new();
    let r = d.event(&mut ctx, Event::Attach);
    assert_eq!(r, Some(IconDialogMsg::Controls(5)));
    assert_eq!(d.controls.component.received, vec![Event::Attach]);
}

#[test]
fn icon_dialog_event_none_when_controls_silent() {
    let mut d = IconDialog::new(vec![1u8], String::from("Title"), FixedControls::new(48, None, 2));
    let mut ctx = EventCtx::new();
    let r = d.event(&mut ctx, Event::Attach);
    assert_eq!(r, None);
    assert_eq!(d.controls.component.received, vec![Event::Attach]);
}

#[test]
fn dialog_paints_content_then_controls() {
    let mut d = Dialog::new(RecordingContent::new(None, 1), FixedControls::new(48, None, 2));
    d.place(full_screen());
    let mut canvas: Vec<PaintCmd> = Vec::new();
    d.paint(&mut canvas);
    assert_eq!(canvas, vec![PaintCmd::Token { id: 1 }, PaintCmd::Token { id: 2 }]);
}

#[test]
fn dialog_paint_order_survives_events() {
    let mut d = Dialog::new(RecordingContent::new(Some(7), 1), FixedControls::new(48, Some(9), 2));
    d.place(full_screen());
    let mut ctx = EventCtx::new();
    d.event(&mut ctx, Event::Attach);
    d.event(&mut ctx, Event::Timer { token: 1 });
    let mut canvas: Vec<PaintCmd> = Vec::new();
    d.paint(&mut canvas);
    assert_eq!(canvas, vec![PaintCmd::Token { id: 1 }, PaintCmd::Token { id: 2 }]);
}

#[test]
fn icon_dialog_paints_icon_then_paragraphs_then_controls() {
    let mut d = IconDialog::new(vec![1u8], String::from("Title"), FixedControls::new(48, None, 2));
    d.place(full_screen());
    let mut canvas: Vec<PaintCmd> = Vec::new();
    d.paint(&mut canvas);
    let icon_area = Rect::new(8, 10, 232, 70);
    let para_area = Rect::new(8, 70, 232, 184);
    assert_eq!(
        canvas,
        vec![
            PaintCmd::Image { area: icon_area },
            PaintCmd::Text { area: para_area },
            PaintCmd::Token { id: 2 },
        ]
    );
}

#[test]
fn dialog_bounds_reports_two_rects_in_order() {
    let mut d = Dialog::new(RecordingContent::new(None, 1), FixedControls::new(48, None, 2));
    d.place(full_screen());
    let mut sink: Vec<Rect> = Vec::new();
    d.bounds(&mut sink);
    assert_eq!(sink.len(), 2);
    assert_eq!(sink[0], d.content.component.area);
    assert_eq!(sink[1], d.controls.component.area);
}

#[test]
fn icon_dialog_bounds_reports_three_rects_in_order() {
    let mut d = IconDialog::new(vec![1u8], String::from("Title"), FixedControls::new(48, None, 2));
    d.place(full_screen());
    let mut sink: Vec<Rect> = Vec::new();
    d.bounds(&mut sink);
    assert_eq!(sink.len(), 3);
    assert_eq!(sink[0], d.image.component.area);
    assert_eq!(sink[1], d.paragraphs.area);
    assert_eq!(sink[2], d.controls.component.area);
}

#[test]
fn dialog_inner_gives_back_the_content() {
    let d = Dialog::new(RecordingContent::new(Some(3), 1), FixedControls::new(48, None, 2));
    assert_eq!(d.inner().msg, Some(3));
}
