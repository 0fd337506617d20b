use dialog::component::{Component, Event, EventCtx, PaintCmd};
use dialog::dialog::IconDialog;
use dialog::geometry::{Alignment, Axis, Rect};
use dialog::text::Paragraphs;
use dialog::theme::{self, TextStyle};

/// A minimal controls stand-in that never reacts.
struct InertControls;

impl Component for InertControls {
    type Msg = u32;

    fn place(&mut self, bounds: Rect) -> Rect {
        Rect::new(bounds.x0, bounds.y1, bounds.x1, bounds.y1)
    }

    fn event(&mut self, _ctx: &mut EventCtx, _event: Event) -> Option<u32> {
        None
    }

    fn paint(&mut self, _canvas: &mut Vec<PaintCmd>) {}

    fn bounds(&self, _sink: &mut Vec<Rect>) {}
}

#[test]
fn new_builds_one_centered_medium_title_line() {
    let d = IconDialog::new(vec![9u8], String::from("Heads up"), InertControls);
    assert_eq!(d.paragraphs.line_count(), 1);
    let p = &d.paragraphs.list[0];
    assert_eq!(p.style, TextStyle::Medium);
    assert_eq!(p.color, None);
    assert_eq!(p.content, String::from("Heads up"));
    assert!(p.centered);
    assert_eq!(d.paragraphs.placement.axis, Axis::Vertical);
    assert_eq!(d.paragraphs.placement.align, Alignment::Center);
    assert_eq!(d.paragraphs.placement.spacing, dialog::dialog::VALUE_SPACE);
    assert_eq!(d.image.component.data, vec![9u8]);
}

#[test]
fn with_description_empty_leaves_lines_unchanged() {
    let d = IconDialog::new(vec![9u8], String::from("Title"), InertControls);
    let before = d.paragraphs.line_count();
    let d = d.with_description(String::new());
    assert_eq!(d.paragraphs.line_count(), before);
}

#[test]
fn with_description_appends_exactly_one_line() {
    let d = IconDialog::new(vec![9u8], String::from("Title"), InertControls);
    let before = d.paragraphs.line_count();
    let d = d.with_description(String::from("x"));
    assert_eq!(d.paragraphs.line_count(), before + 1);
    let p = &d.paragraphs.list[1];
    assert_eq!(p.style, TextStyle::Normal);
    assert_eq!(p.color, Some(theme::off_white()));
    assert_eq!(p.content, String::from("x"));
    assert!(p.centered);
}

#[test]
fn new_shares_yields_four_lines_in_fixed_style_order() {
    let lines = (
        String::from("You finished"),
        String::from("group one"),
        String::from("out of"),
        String::from("three groups"),
    );
    let d = IconDialog::new_shares(lines, InertControls);
    assert_eq!(d.paragraphs.line_count(), 4);
    let styles: Vec<TextStyle> = d.paragraphs.list.iter().map(|p| p.style).collect();
    assert_eq!(
        styles,
        vec![TextStyle::Normal, TextStyle::Medium, TextStyle::Normal, TextStyle::Medium]
    );
    assert_eq!(d.paragraphs.list[0].color, Some(theme::off_white()));
    assert_eq!(d.paragraphs.list[1].color, None);
    assert_eq!(d.paragraphs.list[2].color, Some(theme::off_white()));
    assert_eq!(d.paragraphs.list[3].color, None);
    assert!(d.paragraphs.list.iter().all(|p| p.centered));
    // the success icon is built in, not caller-supplied
    assert_eq!(d.image.component.data, theme::image_success());
    assert_eq!(d.paragraphs.placement.spacing, 0);
    assert_eq!(d.paragraphs.placement.align, Alignment::Center);
}

#[test]
fn paragraphs_paint_one_text_step_per_line() {
    let mut paragraphs: Paragraphs<String> = Paragraphs::new()
        .add(TextStyle::Normal, String::from("a"))
        .add(TextStyle::Medium, String::from("b"));
    let area = Rect::new(0, 0, 100, 50);
    paragraphs.place(area);
    let mut canvas: Vec<PaintCmd> = Vec::new();
    paragraphs.paint(&mut canvas);
    assert_eq!(canvas, vec![PaintCmd::Text { area }, PaintCmd::Text { area }]);
}

#[test]
fn centered_marks_only_the_last_line() {
    let paragraphs: Paragraphs<String> = Paragraphs::new()
        .add(TextStyle::Normal, String::from("a"))
        .add(TextStyle::Medium, String::from("b"))
        .centered();
    assert!(!paragraphs.list[0].centered);
    assert!(paragraphs.list[1].centered);
}

#[test]
fn centered_on_empty_block_does_nothing() {
    let paragraphs: Paragraphs<String> = Paragraphs::new().centered();
    assert_eq!(paragraphs.line_count(), 0);
}
