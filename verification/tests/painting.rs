use editor::canvas::{fits_in, is_whole};
use editor::layout::{Area, Size};
use editor::node::options::DisplayOptions;
use editor::node::ports::{Port, PortConfiguration, PortRenderingStrategy};
use editor::node::render::{NodeRenderer, RenderError};
use editor::node::types::{DefinedType, Type};
use editor::node::{BuiltinType, Node, NodeType};
use editor::util::tui::BufferExt;
use ratatui::buffer::Buffer;
use ratatui::layout::Rect;

const U8: Type = Type::U(8);
const U16: Type = Type::U(16);
const U8_VARRAY: Type = Type::VArray(&U8);

const HINTS: DisplayOptions = DisplayOptions {
    show_type_hints: true,
};
const NO_HINTS: DisplayOptions = DisplayOptions {
    show_type_hints: false,
};

fn entry(pc: PortConfiguration<'static>) -> Node<'static> {
    Node::new(NodeType::Builtin(BuiltinType::ENTRY), pc)
}

fn no_ports() -> PortConfiguration<'static> {
    PortConfiguration::new(None, None, vec![], vec![])
}

/// Paints `node` into a buffer of its minimum size and gives the lines back.
fn paint(node: &Node, options: &DisplayOptions) -> Vec<String> {
    let mut renderer = NodeRenderer::new(options).with_node(node);
    let size = renderer.get_minimum_size();
    let mut buf = Buffer::empty(Rect::new(0, 0, size.width, size.height));
    renderer.render(Area::new(0, 0, size.width, size.height), &mut buf);
    lines(&buf)
}

fn lines(buf: &Buffer) -> Vec<String> {
    let mut all = Vec::new();
    let mut line = 0;
    while let Some(text) = buf.get_line(line) {
        all.push(text.to_string());
        line += 1;
    }
    all
}

#[test]
fn inline_ports_share_rows() {
    let pc = PortConfiguration::new(
        None,
        None,
        vec![Port::new(&U8, "a".into()), Port::new(&U16, "b".into())],
        vec![Port::new(&U8_VARRAY, "c".into())],
    );
    let node = entry(pc).with_alias("_");
    assert_eq!(
        paint(&node, &HINTS),
        vec![
            " ┏━━━━━━━━━┓ ",
            " ┃    _    ┃ ",
            " ┣┅┅┅┅┅┅┅┅┅┫ ",
            "◈┫u8   u8[]┣◈",
            "◈┫u16      ┃ ",
            " ┗━━━━━━━━━┛ ",
        ]
    );
}

#[test]
fn inputs_first_puts_outputs_below() {
    let pc = PortConfiguration::new(
        None,
        None,
        vec![Port::new(&U8, "a".into())],
        vec![Port::new(&U16, "b".into())],
    )
    .with_rendering_strategy(PortRenderingStrategy::InputsFirst);
    let node = entry(pc).with_alias("_");
    assert_eq!(
        paint(&node, &HINTS),
        vec![
            " ┏━━━┓ ",
            " ┃ _ ┃ ",
            " ┣┅┅┅┫ ",
            "◈┫u8 ┃ ",
            " ┃u16┣◈",
            " ┗━━━┛ ",
        ]
    );
}

#[test]
fn outputs_first_puts_inputs_below() {
    let pc = PortConfiguration::new(
        None,
        None,
        vec![Port::new(&U8, "a".into())],
        vec![Port::new(&U16, "b".into())],
    )
    .with_rendering_strategy(PortRenderingStrategy::OutputsFirst);
    let node = entry(pc).with_alias("_");
    assert_eq!(
        paint(&node, &HINTS),
        vec![
            " ┏━━━┓ ",
            " ┃ _ ┃ ",
            " ┣┅┅┅┫ ",
            " ┃u16┣◈",
            "◈┫u8 ┃ ",
            " ┗━━━┛ ",
        ]
    );
}

#[test]
fn record_node_is_drawn_in_double_lines() {
    let dt = DefinedType::new("P");
    let pc = PortConfiguration::new(None, None, vec![Port::new(&U8, "a".into())], vec![]);
    let node = Node::new(NodeType::StructInitializtion(&dt), pc);
    assert_eq!(
        paint(&node, &HINTS),
        vec![
            " ╔════╗ ",
            " ║ P  ║ ",
            " ╠┅┅┅┅╣ ",
            "◈╣u8  ║ ",
            " ╚════╝ ",
        ]
    );
}

#[test]
fn record_output_branches_to_the_right() {
    let dt = DefinedType::new("P");
    let pc = PortConfiguration::new(None, Some(Port::primary(&U8)), vec![], vec![]);
    let node = Node::new(NodeType::StructInitializtion(&dt), pc);
    assert_eq!(
        paint(&node, &HINTS),
        vec![" ╔═══════╗ ", " ║ P   u8╠◈", " ╚═══════╝ ",]
    );
}

#[test]
fn hints_can_be_left_out() {
    let pc = PortConfiguration::new(
        Some(Port::primary(&U8)),
        None,
        vec![],
        vec![Port::new(&U16, "b".into())],
    );
    let node = entry(pc);
    assert_eq!(
        paint(&node, &NO_HINTS),
        vec![
            " ┏━━━━━━━┓ ",
            "◈┫ ENTRY ┃ ",
            " ┣┅┅┅┅┅┅┅┫ ",
            " ┃       ┣◈",
            " ┗━━━━━━━┛ ",
        ]
    );
}

#[test]
fn name_stands_right_beside_a_primary_input_alone() {
    let node = entry(PortConfiguration::new(Some(Port::primary(&U8)), None, vec![], vec![]))
        .with_alias("_");
    let mut buf = Buffer::empty(Rect::new(0, 0, 9, 1));
    NodeRenderer::new(&HINTS)
        .with_node(&node)
        .render_name(Area::new(0, 0, 9, 1), &mut buf);
    assert_eq!(buf.get_line(0).unwrap(), "       _ ");
}

#[test]
fn name_stands_left_beside_a_primary_output_alone() {
    let node = entry(PortConfiguration::new(None, Some(Port::primary(&U8)), vec![], vec![]))
        .with_alias("_");
    let mut buf = Buffer::empty(Rect::new(0, 0, 9, 1));
    NodeRenderer::new(&HINTS)
        .with_node(&node)
        .render_name(Area::new(0, 0, 9, 1), &mut buf);
    assert_eq!(buf.get_line(0).unwrap(), " _       ");
}

#[test]
fn name_is_centered_between_both_primaries() {
    let node = entry(PortConfiguration::new(
        Some(Port::primary(&U8)),
        Some(Port::primary(&U8)),
        vec![],
        vec![],
    ))
    .with_alias("_");
    let mut buf = Buffer::empty(Rect::new(0, 0, 9, 1));
    NodeRenderer::new(&HINTS)
        .with_node(&node)
        .render_name(Area::new(0, 0, 9, 1), &mut buf);
    assert_eq!(buf.get_line(0).unwrap(), "    _    ");
}

#[test]
fn name_beside_a_primary_input_in_the_whole_node() {
    let node = entry(PortConfiguration::new(Some(Port::primary(&U8)), None, vec![], vec![]))
        .with_alias("_");
    assert_eq!(
        paint(&node, &HINTS),
        vec![" ┏━━━━━━━┓ ", "◈┫u8   _ ┃ ", " ┗━━━━━━━┛ ",]
    );
}

#[test]
fn output_hint_beyond_ascii_ends_at_the_branch() {
    let accented = Type::Defined(DefinedType::new("é"));
    let pc = PortConfiguration::new(None, Some(Port::primary(&accented)), vec![], vec![]);
    let node = Node::new(NodeType::Builtin(BuiltinType::ENTRY), pc).with_alias("_");
    assert_eq!(
        paint(&node, &HINTS),
        vec![" ┏━━━━━━━┓ ", " ┃ _    é┣◈", " ┗━━━━━━━┛ ",]
    );
}

#[test]
fn node_is_painted_where_the_area_is() {
    let node = entry(no_ports()).with_alias("_");
    let mut renderer = NodeRenderer::new(&HINTS).with_node(&node);
    let mut buf = Buffer::empty(Rect::new(10, 20, 9, 5));
    renderer.render(Area::new(11, 21, 7, 3), &mut buf);
    assert_eq!(
        lines(&buf),
        vec![
            "         ",
            "  ┏━━━┓  ",
            "  ┃ _ ┃  ",
            "  ┗━━━┛  ",
            "         ",
        ]
    );
}

#[test]
fn larger_area_keeps_the_ports_on_its_edges() {
    let node = entry(PortConfiguration::new(
        Some(Port::primary(&U8)),
        Some(Port::primary(&U8_VARRAY)),
        vec![],
        vec![],
    ))
    .with_alias("_");
    let mut renderer = NodeRenderer::new(&HINTS).with_node(&node);
    let mut buf = Buffer::empty(Rect::new(0, 0, 17, 4));
    renderer.render(Area::new(0, 0, 17, 4), &mut buf);
    assert_eq!(
        lines(&buf),
        vec![
            " ┏━━━━━━━━━━━━━┓ ",
            "◈┫u8    _  u8[]┣◈",
            " ┃             ┃ ",
            " ┗━━━━━━━━━━━━━┛ ",
        ]
    );
}

#[test]
fn narrower_area_is_refused_and_nothing_is_painted() {
    let node = entry(PortConfiguration::new(
        Some(Port::primary(&U8)),
        Some(Port::primary(&U8_VARRAY)),
        vec![],
        vec![],
    ))
    .with_alias("_");
    let mut renderer = NodeRenderer::new(&HINTS).with_node(&node);
    let size = renderer.get_minimum_size();
    assert_eq!(size, Size::new(15, 3));

    let mut buf = Buffer::empty(Rect::new(0, 0, 20, 5));
    let result = renderer.try_render(Area::new(0, 0, size.width - 1, size.height), &mut buf);
    assert_eq!(
        result,
        Some(Err(RenderError::InsufficientArea {
            minimum: Size::new(15, 3),
            given: Size::new(14, 3),
        }))
    );
    assert_eq!(buf, Buffer::empty(Rect::new(0, 0, 20, 5)));
}

#[test]
fn error_says_what_was_asked_for_and_what_was_given() {
    let error = RenderError::InsufficientArea {
        minimum: Size::new(15, 3),
        given: Size::new(14, 300),
    };
    assert_eq!(
        error.message(),
        "Cannot draw node; Supplied area is too small: minimum = 15x3, given = 14x300."
    );
    let mut text = String::from("size ");
    Size::new(0, 65535).push_to(&mut text);
    assert_eq!(text, "size 0x65535");
}

#[test]
fn lower_area_is_refused_and_nothing_is_painted() {
    let node = entry(PortConfiguration::new(
        None,
        None,
        vec![Port::new(&U8, "a".into())],
        vec![],
    ));
    let mut renderer = NodeRenderer::new(&HINTS).with_node(&node);
    let size = renderer.get_minimum_size();
    assert_eq!(size, Size::new(11, 5));

    let mut buf = Buffer::empty(Rect::new(0, 0, 20, 5));
    let result = renderer.try_render(Area::new(0, 0, 20, 4), &mut buf);
    assert_eq!(
        result,
        Some(Err(RenderError::InsufficientArea {
            minimum: Size::new(11, 5),
            given: Size::new(20, 4),
        }))
    );
    assert_eq!(buf, Buffer::empty(Rect::new(0, 0, 20, 5)));
}

#[test]
fn area_outside_the_buffer_is_not_painted() {
    let node = entry(no_ports()).with_alias("_");
    let mut renderer = NodeRenderer::new(&HINTS).with_node(&node);
    let mut buf = Buffer::empty(Rect::new(0, 0, 7, 3));

    assert_eq!(renderer.try_render(Area::new(1, 0, 7, 3), &mut buf), None);
    assert_eq!(buf, Buffer::empty(Rect::new(0, 0, 7, 3)));

    assert_eq!(
        renderer.try_render(Area::new(0, 0, 7, 3), &mut buf),
        Some(Ok(()))
    );
    assert_eq!(lines(&buf), vec![" ┏━━━┓ ", " ┃ _ ┃ ", " ┗━━━┛ ",]);

    assert_eq!(
        renderer.try_render(Area::new(0, 0, 6, 3), &mut buf),
        Some(Err(RenderError::InsufficientArea {
            minimum: Size::new(7, 3),
            given: Size::new(6, 3),
        }))
    );
}

#[test]
fn too_small_area_is_refused_wherever_it_lies() {
    let node = entry(no_ports()).with_alias("_");
    let mut renderer = NodeRenderer::new(&HINTS).with_node(&node);
    let mut buf = Buffer::empty(Rect::new(0, 0, 7, 3));
    assert_eq!(
        renderer.try_render(Area::new(5, 2, 6, 3), &mut buf),
        Some(Err(RenderError::InsufficientArea {
            minimum: Size::new(7, 3),
            given: Size::new(6, 3),
        }))
    );
    assert_eq!(buf, Buffer::empty(Rect::new(0, 0, 7, 3)));
}

#[test]
fn buffer_that_lacks_cells_is_not_painted() {
    let node = entry(no_ports()).with_alias("_");
    let mut renderer = NodeRenderer::new(&HINTS).with_node(&node);
    let mut buf = Buffer {
        area: Rect::new(0, 0, 20, 5),
        content: vec![],
    };
    assert!(!is_whole(&buf));
    assert!(!fits_in(Area::new(0, 0, 7, 3), &buf));
    assert!(!fits_in(Area::new(0, 0, 0, 0), &buf));
    assert_eq!(buf.get_line(0), None);
    assert_eq!(renderer.try_render(Area::new(0, 0, 7, 3), &mut buf), None);
    assert!(buf.content.is_empty());
    assert_eq!(
        renderer.try_render(Area::new(0, 0, 6, 3), &mut buf),
        Some(Err(RenderError::InsufficientArea {
            minimum: Size::new(7, 3),
            given: Size::new(6, 3),
        }))
    );

    let whole = Buffer::empty(Rect::new(3, 4, 20, 5));
    assert!(is_whole(&whole));
    assert!(is_whole(&Buffer::default()));
}

#[test]
fn borders_are_drawn_on_areas_below_the_minimum_size() {
    let with_ports = entry(PortConfiguration::new(
        None,
        None,
        vec![Port::new(&U8, "a".into())],
        vec![],
    ));
    let mut buf = Buffer::empty(Rect::new(0, 0, 4, 3));
    NodeRenderer::new(&HINTS)
        .with_node(&with_ports)
        .render_borders(Area::new(0, 0, 4, 3), &mut buf);
    assert_eq!(lines(&buf), vec![" ┏┓ ", " ┃┃ ", " ┣┫ "]);

    let mut buf = Buffer::empty(Rect::new(0, 0, 6, 4));
    NodeRenderer::new(&HINTS)
        .with_node(&with_ports)
        .render_borders(Area::new(0, 0, 6, 4), &mut buf);
    assert_eq!(lines(&buf), vec![" ┏━━┓ ", " ┃  ┃ ", " ┣┅┅┫ ", " ┗━━┛ "]);

    let without_ports = entry(no_ports());
    let mut buf = Buffer::empty(Rect::new(0, 0, 3, 2));
    NodeRenderer::new(&HINTS)
        .with_node(&without_ports)
        .render_borders(Area::new(0, 0, 3, 2), &mut buf);
    assert_eq!(lines(&buf), vec![" ┏ ", " ┗ "]);

    let mut buf = Buffer::empty(Rect::new(0, 0, 3, 2));
    NodeRenderer::new(&HINTS)
        .with_node(&without_ports)
        .render_borders(Area::new(1, 1, 1, 1), &mut buf);
    assert_eq!(buf, Buffer::empty(Rect::new(0, 0, 3, 2)));
}

#[test]
fn painting_leaves_the_styles_of_the_cells() {
    let mut cell = ratatui::buffer::Cell::new("x");
    cell.set_style(
        ratatui::style::Style::new()
            .fg(ratatui::style::Color::Red)
            .bg(ratatui::style::Color::Blue)
            .add_modifier(ratatui::style::Modifier::BOLD),
    );
    let pc = PortConfiguration::new(
        Some(Port::primary(&U8)),
        Some(Port::primary(&U8_VARRAY)),
        vec![Port::new(&U16, "a".into())],
        vec![Port::new(&U8, "b".into())],
    );
    let node = entry(pc).with_alias("_");
    let mut renderer = NodeRenderer::new(&HINTS).with_node(&node);
    let mut buf = Buffer::filled(Rect::new(0, 0, 17, 7), cell.clone());
    renderer.render(Area::new(1, 1, 15, 5), &mut buf);
    assert_eq!(
        lines(&buf),
        vec![
            "xxxxxxxxxxxxxxxxx",
            "xx┏━━━━━━━━━━━┓xx",
            "x◈┫u8xx _ u8[]┣◈x",
            "xx┣┅┅┅┅┅┅┅┅┅┅┅┫xx",
            "x◈┫u16xxxxxxu8┣◈x",
            "xx┗━━━━━━━━━━━┛xx",
            "xxxxxxxxxxxxxxxxx",
        ]
    );
    for painted in buf.content() {
        assert_eq!(painted.style(), cell.style());
    }
}

#[test]
fn ports_are_marked_beside_hints_beyond_ascii() {
    let wide = Type::Defined(DefinedType::new("日本"));
    let pc = PortConfiguration::new(
        Some(Port::primary(&wide)),
        None,
        vec![Port::new(&wide, "a".into()), Port::new(&U8, "b".into())],
        vec![Port::new(&wide, "c".into())],
    );
    let node = Node::new(NodeType::Builtin(BuiltinType::ENTRY), pc).with_alias("_");
    let mut renderer = NodeRenderer::new(&HINTS).with_node(&node);
    let size = renderer.get_minimum_size();
    assert_eq!(size, Size::new(19, 6));
    let mut buf = Buffer::empty(Rect::new(0, 0, 19, 6));
    renderer.render(Area::new(0, 0, 19, 6), &mut buf);
    for row in [1, 3, 4] {
        assert_eq!(buf[(0, row)].symbol(), "◈");
        assert_eq!(buf[(1, row)].symbol(), "┫");
    }
    assert_eq!(buf[(18, 3)].symbol(), "◈");
    assert_eq!(buf[(17, 3)].symbol(), "┣");
    assert_eq!(buf[(2, 3)].symbol(), "日");
    assert_eq!(buf[(4, 3)].symbol(), "本");
    assert_eq!(buf[(13, 3)].symbol(), "日");
    assert_eq!(buf[(15, 3)].symbol(), "本");
    assert_eq!(
        lines(&buf)[4],
        "◈┫u8             ┃ "
    );
}

#[test]
fn input_hint_beyond_ascii_begins_at_the_branch() {
    let accented = Type::Defined(DefinedType::new("é"));
    let pc = PortConfiguration::new(Some(Port::primary(&accented)), None, vec![], vec![]);
    let node = Node::new(NodeType::Builtin(BuiltinType::ENTRY), pc).with_alias("_");
    assert_eq!(
        paint(&node, &HINTS),
        vec![" ┏━━━━━━━┓ ", "◈┫é    _ ┃ ", " ┗━━━━━━━┛ ",]
    );
}

#[test]
fn node_is_painted_up_to_the_last_column() {
    let pc = PortConfiguration::new(
        Some(Port::primary(&U8)),
        Some(Port::primary(&U8)),
        vec![],
        vec![Port::new(&U16, "a".into())],
    );
    let node = entry(pc).with_alias("_");
    let mut renderer = NodeRenderer::new(&HINTS).with_node(&node);
    let size = renderer.get_minimum_size();
    assert_eq!(size, Size::new(11, 5));
    let mut buf = Buffer::empty(Rect::new(0, 0, u16::MAX, 5));
    let left = u16::MAX - size.width;
    assert_eq!(
        renderer.try_render(Area::new(left, 0, size.width, size.height), &mut buf),
        Some(Ok(()))
    );
    let row = |y: u16| -> String {
        (left..u16::MAX)
            .map(|x| buf[(x, y)].symbol().to_string())
            .collect()
    };
    assert_eq!(row(0), " ┏━━━━━━━┓ ");
    assert_eq!(row(1), "◈┫u8 _ u8┣◈");
    assert_eq!(row(2), " ┣┅┅┅┅┅┅┅┫ ");
    assert_eq!(row(3), " ┃    u16┣◈");
    assert_eq!(row(4), " ┗━━━━━━━┛ ");
    assert_eq!(
        renderer.try_render(Area::new(left + 1, 0, size.width, size.height), &mut buf),
        None
    );
}

#[test]
fn fits_in_compares_the_area_with_the_buffer() {
    let buf = Buffer::empty(Rect::new(2, 3, 10, 4));
    assert!(fits_in(Area::new(2, 3, 10, 4), &buf));
    assert!(fits_in(Area::new(5, 4, 7, 3), &buf));
    assert!(!fits_in(Area::new(1, 3, 4, 2), &buf));
    assert!(!fits_in(Area::new(2, 2, 4, 2), &buf));
    assert!(!fits_in(Area::new(5, 4, 8, 3), &buf));
    assert!(!fits_in(Area::new(5, 4, 7, 4), &buf));
    assert!(fits_in(Area::new(50, 50, 0, 7), &buf));
}

#[test]
fn get_line_reads_rows_of_the_buffer() {
    let buf = Buffer::with_lines(vec!["abc", "def"]);
    assert_eq!(buf.get_line(0).unwrap(), "abc");
    assert_eq!(buf.get_line(1).unwrap(), "def");
    assert_eq!(buf.get_line(2), None);

    let shifted = {
        let mut b = Buffer::empty(Rect::new(4, 9, 2, 2));
        b[(5, 10)].set_symbol("x");
        b
    };
    assert_eq!(shifted.get_line(0).unwrap(), "  ");
    assert_eq!(shifted.get_line(1).unwrap(), " x");

    let no_columns = Buffer::empty(Rect::new(0, 0, 0, 3));
    assert_eq!(no_columns.get_line(0), None);
}
