use myedit::back_buffer::create_back_buffer;
use myedit::highlight::{draw_syntax_highlighting, get_pos_len_from_text_range, Highlight, TextSpan};
use myedit::types::{Buffer, Color, Point, Rect};
use ropey::Rope;

fn buffer(text: &str, start_line: usize) -> Buffer {
    Buffer { rope: Rope::from_str(text), source: String::from("main.rs"), start_line }
}

#[test]
fn span_is_placed_right_of_the_gutter_on_its_row() {
    let b = buffer("fn main() {}\nlet x = 1;\n", 0);
    assert_eq!(
        get_pos_len_from_text_range(TextSpan { start: 3, len: 4 }, &b),
        (Some(Point { x: 7, y: 0 }), 4)
    );
    assert_eq!(
        get_pos_len_from_text_range(TextSpan { start: 17, len: 1 }, &b),
        (Some(Point { x: 8, y: 1 }), 1)
    );
    let scrolled = buffer("fn main() {}\nlet x = 1;\n", 1);
    assert_eq!(get_pos_len_from_text_range(TextSpan { start: 3, len: 4 }, &scrolled), (None, 4));
    assert_eq!(
        get_pos_len_from_text_range(TextSpan { start: 13, len: 3 }, &scrolled),
        (Some(Point { x: 4, y: 0 }), 3)
    );
    assert_eq!(get_pos_len_from_text_range(TextSpan { start: 99, len: 2 }, &b), (None, 2));
}

#[test]
fn highlights_color_their_spans_by_tag() {
    let b = buffer("fn main() {}\nlet x = 1;\n", 0);
    let mut frame = create_back_buffer(Rect { w: 20, h: 3 });
    let highlights = vec![
        Highlight { span: TextSpan { start: 3, len: 4 }, tag: String::from("function") },
        Highlight { span: TextSpan { start: 13, len: 3 }, tag: String::from("keyword") },
        Highlight { span: TextSpan { start: 17, len: 1 }, tag: String::from("unknown") },
    ];
    draw_syntax_highlighting(&highlights, &b, &mut frame, 3);
    let blue = Some(Color { r: 128, g: 160, b: 255 });
    let green = Some(Color { r: 133, g: 220, b: 133 });
    let colored: Vec<usize> = (0..frame.cells.len()).filter(|i| frame.cells[*i].fg.is_some()).collect();
    assert_eq!(colored, vec![7, 8, 9, 10, 24, 25, 26]);
    assert_eq!(frame.cells[7].fg, blue);
    assert_eq!(frame.cells[24].fg, green);
}

#[test]
fn highlighting_stops_below_the_terminal() {
    let b = buffer("a\nb\nc\nd\n", 0);
    let mut frame = create_back_buffer(Rect { w: 6, h: 4 });
    let highlights = vec![
        Highlight { span: TextSpan { start: 6, len: 1 }, tag: String::from("type") },
        Highlight { span: TextSpan { start: 0, len: 1 }, tag: String::from("type") },
    ];
    draw_syntax_highlighting(&highlights, &b, &mut frame, 2);
    assert!(frame.cells.iter().all(|c| c.fg.is_none()));
}
