use compact_str::CompactString;
use editor::layout::Area;
use editor::node::options::DisplayOptions;
use editor::node::ports::{Port, PortConfiguration};
use editor::node::render::{get_max_compact_string_len, NodeRenderer};
use editor::node::types::{DefinedType, Type};
use editor::node::{BuiltinType, Node, NodeType};
use editor::util::tui::BufferExt;
use ratatui::buffer::Buffer;
use ratatui::layout::Rect;

const TYPE_U8: Type = Type::U(8);
const TYPE_U8_VARRAY: Type = Type::VArray(&TYPE_U8);

#[test]
fn render_test_render_builtin_node() {
    let mut pc = PortConfiguration::new(None, None, vec![], vec![]);
    pc.set_primary_output(Port::primary(&TYPE_U8_VARRAY));
    let node = test_node().with_port_configuration(pc);

    let options = DisplayOptions {
        show_type_hints: true,
    };
    let mut renderer = NodeRenderer::new(&options).with_node(&node);
    let minimum_size = renderer.get_minimum_size();

    let mut render = Buffer::empty(Rect::new(0, 0, minimum_size.width, minimum_size.height));
    renderer.render(area_of(render.area), &mut render);

    println!("{render:?}");
}

#[test]
fn test_get_minimum_width() {
    let test_cases = [
        (("_", None), " ┃ _ ┃ "),
        (
            (
                "_",
                Some(PortConfiguration::new(None, None, vec![], vec![])),
            ),
            " ┃ _ ┃ ",
        ),
        (
            (
                "_",
                Some(PortConfiguration::new(
                    Some(Port::new(&TYPE_U8, "Foo".into())),
                    Some(Port::new(&TYPE_U8_VARRAY, "Bar".into())),
                    vec![],
                    vec![],
                )),
            ),
            "◈┫u8   _ u8[]┣◈",
        ),
    ];

    let mut node = test_node();
    let options = DisplayOptions {
        show_type_hints: true,
    };
    let base_renderer = NodeRenderer::new(&options);

    for ((alias, pc), expected) in test_cases {
        node = node.with_alias(alias);
        if let Some(ref pc) = pc {
            node = node.with_port_configuration(pc.clone());
        }

        let mut node_renderer = base_renderer.with_node(&node);
        let minimum_size = node_renderer.get_minimum_size();

        let mut buf = Buffer::empty(Rect::new(0, 0, minimum_size.width, minimum_size.height));
        node_renderer.render(area_of(buf.area), &mut buf);

        let rendered = buf.get_line(1).unwrap();
        assert_eq!(rendered, expected);
    }
}

#[test]
fn test_render_borders() {
    let mut node = test_node();
    let options = DisplayOptions {
        show_type_hints: true,
    };
    let base_renderer = NodeRenderer::new(&options);

    let dt = DefinedType::new("_____");
    let test_cases = [
        (NodeType::Defined("_____"), vec![
            " ┏━━━━━━━┓ ",
            " ┃       ┃ ",
            " ┗━━━━━━━┛ ",
        ]),
        (NodeType::StructInitializtion(&dt), vec![
            " ╔═══════╗ ",
            " ║       ║ ",
            " ╚═══════╝ ",
        ]),
        (NodeType::Builtin(BuiltinType::ENTRY), vec![
            " ┏━━━━━━━┓ ",
            " ┃       ┃ ",
            " ┗━━━━━━━┛ ",
        ]),
    ];

    for (ty, expected) in test_cases {
        node = node.with_type(ty);

        let mut node_renderer = base_renderer.with_node(&node);
        let minimum_size = node_renderer.get_minimum_size();

        let mut buf = Buffer::empty(Rect::new(0, 0, minimum_size.width, minimum_size.height));
        node_renderer.render_borders(area_of(buf.area), &mut buf);

        assert_eq!(buf, Buffer::with_lines(expected));
        buf.reset();
    }
}

#[test]
fn test_render_ports() {
    let mut node = test_node();
    let options = DisplayOptions {
        show_type_hints: true,
    };
    let base_renderer = NodeRenderer::new(&options);

    let test_cases = [
        (PortConfiguration::new(None, None, vec![], vec![]), vec![
            "           ",
            "           ",
            "           ",
        ]),
        (PortConfiguration::new(Some(Port::primary(&TYPE_U8)), None, vec![], vec![]), vec![
            "               ",
            "◈┫u8           ",
            "               ",
        ]),
        (PortConfiguration::new(None, Some(Port::primary(&TYPE_U8)), vec![], vec![]), vec![
            "               ",
            "           u8┣◈",
            "               ",
        ]),
        (PortConfiguration::new(Some(Port::primary(&TYPE_U8)), Some(Port::primary(&TYPE_U8)), vec![], vec![]), vec![
            "               ",
            "◈┫u8       u8┣◈",
            "               ",
        ])
    ];

    for (pc, expected) in test_cases {
        node = node.with_port_configuration(pc);

        let mut node_renderer = base_renderer.with_node(&node);
        let minimum_size = node_renderer.get_minimum_size();

        let mut buf = Buffer::empty(Rect::new(0, 0, minimum_size.width, minimum_size.height));
        node_renderer.render_ports(area_of(buf.area), &mut buf);

        assert_eq!(buf, Buffer::with_lines(expected));
        buf.reset();
    }
}

#[test]
fn test_render_name() {
    let mut node = test_node();
    let options = DisplayOptions {
        show_type_hints: true,
    };
    let base_renderer = NodeRenderer::new(&options);
    let mut buf = Buffer::empty(Rect::new(0, 0, 9, 1));

    let test_cases = [(None, "  ENTRY  "), (Some("_"), "    _    ")];

    for (alias, expected) in test_cases {
        node = match alias {
            Some(alias) => node.with_alias(alias),
            None => node.without_alias(),
        };
        base_renderer
            .with_node(&node)
            .render_name(area_of(buf.area), &mut buf);

        assert_eq!(buf.get_line(0).unwrap(), expected);
        buf.reset();
    }
}

#[test]
fn test_get_max_compact_string_len() {
    const A: CompactString = CompactString::const_new("Hi!");
    const B: CompactString = CompactString::const_new("Goodbye.");

    assert_eq!(get_max_compact_string_len(None, None), 0);
    assert_eq!(get_max_compact_string_len(Some(&A), None), 3);
    assert_eq!(get_max_compact_string_len(None, Some(&B)), 8);
    assert_eq!(get_max_compact_string_len(Some(&A), Some(&B)), 8);
}

#[test]
fn tests_test_render_builtin_node() {
    let type_u8 = Type::U(8);
    let u8_varray = Type::VArray(&type_u8);

    let mut pc = PortConfiguration::new(None, None, vec![], vec![]);
    pc.set_primary_output(Port::primary(&u8_varray));
    let node = comment_node().with_port_configuration(pc);

    let options = DisplayOptions {
        show_type_hints: true,
    };
    let mut renderer = NodeRenderer::new(&options).with_node(&node);

    let minimum_size = renderer.get_minimum_size();

    let mut render = Buffer::empty(Rect::new(0, 0, minimum_size.width, minimum_size.height));
    renderer.render(area_of(render.area), &mut render);

    println!("{render:?}");
}

#[test]
fn test_minimum_width() {
    // Test Cases

    const TEST_TYPE_1: Type = Type::U(8);
    const TEST_TYPE_2: Type = Type::VArray(&TEST_TYPE_1);
    let test_cases = [
        (("_", None), " ┃ _ ┃ "),
        (
            ("_", Some(PortConfiguration::new(None, None, vec![], vec![]))),
            " ┃ _ ┃ ",
        ),
        (
            (
                "_",
                Some(PortConfiguration::new(
                    Some(Port::new(&TEST_TYPE_1, "Foo".into())),
                    Some(Port::new(&TEST_TYPE_2, "Bar".into())),
                    vec![],
                    vec![],
                )),
            ),
            "◈┫u8   _ u8[]┣◈",
        ),
    ];

    // Rendering

    let mut node = comment_node();

    let options = DisplayOptions {
        show_type_hints: true,
    };
    let renderer = NodeRenderer::new(&options);

    let target_line = |node: &Node, line: usize| {
        let mut node_renderer = renderer.with_node(node);
        let minimum_size = node_renderer.get_minimum_size();

        let mut buffer = Buffer::empty(Rect::new(0, 0, minimum_size.width, minimum_size.height));
        node_renderer.render(area_of(buffer.area), &mut buffer);

        get_buffer_line(&buffer, line)
    };

    // Assertions

    for ((alias, pc), expected) in test_cases {
        node = node.with_alias(alias);
        if let Some(ref pc) = pc {
            node = node.with_port_configuration(pc.clone());
        }

        let rendered = target_line(&node, 1);
        assert_eq!(rendered, expected, "Given alias '{alias}' and pc '{pc:?}'");
    }
}

// Util

fn test_node<'a>() -> Node<'a> {
    Node::new(
        NodeType::Builtin(BuiltinType::ENTRY),
        PortConfiguration::new(None, None, vec![], vec![]),
    )
}

fn comment_node<'a>() -> Node<'a> {
    Node::new(
        NodeType::Builtin(BuiltinType::COMMENT),
        PortConfiguration::new(None, None, vec![], vec![]),
    )
}

fn area_of(rect: Rect) -> Area {
    Area::new(rect.x, rect.y, rect.width, rect.height)
}

fn get_buffer_line(buf: &Buffer, line: usize) -> String {
    buf.content()
        .chunks(buf.area.width as usize)
        .nth(line)
        .unwrap()
        .iter()
        .map(|c| c.symbol())
        .collect::<String>()
}
