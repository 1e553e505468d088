use editor::layout::{Area, Size};
use editor::node::options::DisplayOptions;
use editor::node::ports::{Port, PortConfiguration, PortRenderingStrategy};
use editor::node::render::{NodeRenderer, RenderError, MINIMUM_NODE_HEIGHT};
use editor::node::types::{DefinedType, Type};
use editor::node::{BuiltinType, Node, NodeType};

const U8: Type = Type::U(8);
const U16: Type = Type::U(16);
const U8_VARRAY: Type = Type::VArray(&U8);

const HINTS: DisplayOptions = DisplayOptions {
    show_type_hints: true,
};
const NO_HINTS: DisplayOptions = DisplayOptions {
    show_type_hints: false,
};

fn entry(pc: PortConfiguration<'static>) -> Node<'static> {
    Node::new(NodeType::Builtin(BuiltinType::ENTRY), pc)
}

fn no_ports() -> PortConfiguration<'static> {
    PortConfiguration::new(None, None, vec![], vec![])
}

fn size_of(node: &Node, options: &DisplayOptions) -> Size {
    NodeRenderer::new(options)
        .with_node(node)
        .get_minimum_size()
}

#[test]
fn minimum_width_floor() {
    let node = entry(no_ports()).with_alias("_");
    assert_eq!(size_of(&node, &HINTS), Size::new(7, 3));
    assert_eq!(size_of(&node, &NO_HINTS), Size::new(7, 3));
}

#[test]
fn empty_name_asks_for_six_columns() {
    let node = entry(no_ports()).with_alias("");
    assert_eq!(size_of(&node, &HINTS), Size::new(6, 3));
}

#[test]
fn primary_hints_widen_the_node() {
    let pc = PortConfiguration::new(
        Some(Port::primary(&U8)),
        Some(Port::primary(&U8_VARRAY)),
        vec![],
        vec![],
    );
    let node = entry(pc).with_alias("_");
    assert_eq!(size_of(&node, &HINTS), Size::new(15, 3));
    assert_eq!(size_of(&node, &NO_HINTS), Size::new(7, 3));
}

#[test]
fn inline_height_grows_with_the_longer_side() {
    let two_inputs = PortConfiguration::new(
        None,
        None,
        vec![Port::new(&U8, "a".into()), Port::new(&U8, "b".into())],
        vec![],
    );
    assert_eq!(size_of(&entry(two_inputs), &HINTS).height, 6);

    let two_and_three = PortConfiguration::new(
        Some(Port::primary(&U8)),
        None,
        vec![Port::new(&U8, "a".into()), Port::new(&U8, "b".into())],
        vec![
            Port::new(&U8, "c".into()),
            Port::new(&U8, "d".into()),
            Port::new(&U8, "e".into()),
        ],
    );
    assert_eq!(size_of(&entry(two_and_three), &HINTS).height, 7);
}

#[test]
fn stacked_height_grows_with_every_port() {
    for strategy in [
        PortRenderingStrategy::InputsFirst,
        PortRenderingStrategy::OutputsFirst,
    ] {
        let pc = PortConfiguration::new(
            None,
            None,
            vec![Port::new(&U8, "a".into()), Port::new(&U8, "b".into())],
            vec![Port::new(&U8, "c".into())],
        )
        .with_rendering_strategy(strategy);
        assert_eq!(size_of(&entry(pc), &HINTS).height, 7);
    }
}

#[test]
fn primaries_alone_keep_the_minimum_height() {
    let pc = PortConfiguration::new(Some(Port::primary(&U8)), None, vec![], vec![]);
    assert_eq!(size_of(&entry(pc), &HINTS).height, MINIMUM_NODE_HEIGHT);
    assert_eq!(MINIMUM_NODE_HEIGHT, 3);
}

#[test]
fn inline_width_is_that_of_the_widest_row() {
    // slot 0 holds "u8" and "u8[]": 2 * 4 + 1; slot 1 holds "u16" alone: 2 * 3.
    let pc = PortConfiguration::new(
        None,
        None,
        vec![Port::new(&U8, "a".into()), Port::new(&U16, "b".into())],
        vec![Port::new(&U8_VARRAY, "c".into())],
    );
    let node = entry(pc).with_alias("_");
    assert_eq!(size_of(&node, &HINTS), Size::new(13, 6));
    assert_eq!(size_of(&node, &NO_HINTS), Size::new(7, 6));
}

#[test]
fn inline_width_is_at_least_the_name_row() {
    let pc = PortConfiguration::new(
        Some(Port::primary(&U16)),
        None,
        vec![Port::new(&U8, "a".into())],
        vec![],
    );
    // name row: 2 * 3 + 7; slot 0: 2 * 2.
    assert_eq!(size_of(&entry(pc), &HINTS), Size::new(17, 5));
}

#[test]
fn stacked_width_is_that_of_the_longest_hint() {
    let dt = DefinedType::new("Coordinates");
    let long = Type::Defined(dt);
    for strategy in [
        PortRenderingStrategy::InputsFirst,
        PortRenderingStrategy::OutputsFirst,
    ] {
        let pc = PortConfiguration::new(
            None,
            None,
            vec![Port::new(&U8, "a".into())],
            vec![Port::new(&long, "b".into()), Port::new(&U16, "c".into())],
        )
        .with_rendering_strategy(strategy);
        let node = Node::new(NodeType::Builtin(BuiltinType::EXIT), pc);
        // " EXIT " takes 6 columns, "Coordinates" 11.
        assert_eq!(size_of(&node, &HINTS), Size::new(15, 7));
        assert_eq!(size_of(&node, &NO_HINTS), Size::new(10, 7));
    }
}

#[test]
fn stacked_width_is_at_least_the_name_row() {
    let pc = PortConfiguration::new(
        Some(Port::primary(&U8)),
        Some(Port::primary(&U8_VARRAY)),
        vec![Port::new(&U8, "a".into())],
        vec![],
    )
    .with_rendering_strategy(PortRenderingStrategy::InputsFirst);
    let node = entry(pc).with_alias("_");
    assert_eq!(size_of(&node, &HINTS), Size::new(15, 5));
}

#[test]
fn width_counts_the_bytes_of_the_name() {
    let node = entry(no_ports()).with_alias("é");
    assert_eq!(size_of(&node, &HINTS), Size::new(8, 3));
}

#[test]
fn minimum_size_is_the_same_when_asked_twice() {
    let pc = PortConfiguration::new(
        Some(Port::primary(&U8)),
        None,
        vec![Port::new(&U16, "a".into())],
        vec![],
    );
    let node = entry(pc);
    let mut renderer = NodeRenderer::new(&HINTS).with_node(&node);
    let first = renderer.get_minimum_size();
    let second = renderer.get_minimum_size();
    assert_eq!(first, second);
    assert_eq!(first, Size::new(15, 5));
}

#[test]
fn binding_another_node_measures_anew() {
    let small = entry(no_ports()).with_alias("_");
    let large = entry(no_ports());
    let mut renderer = NodeRenderer::new(&HINTS).with_node(&small);
    assert_eq!(renderer.get_minimum_size(), Size::new(7, 3));
    renderer.swap_node(&large);
    assert_eq!(renderer.get_minimum_size(), Size::new(11, 3));

    let released = renderer.release_node();
    let mut again = released.with_node(&small);
    assert_eq!(again.get_minimum_size(), Size::new(7, 3));
}

#[test]
fn very_long_name_is_cut_to_what_a_side_can_hold() {
    let name = "n".repeat(70_000);
    let node = entry(no_ports()).with_alias(&name);
    let mut renderer = NodeRenderer::new(&HINTS).with_node(&node);
    assert_eq!(renderer.get_minimum_size(), Size::new(u16::MAX, 3));

    let mut buf = ratatui::buffer::Buffer::empty(ratatui::layout::Rect::new(0, 0, u16::MAX, 1));
    buf.resize(ratatui::layout::Rect::new(0, 0, u16::MAX, 3));
    let result = renderer.try_render(Area::new(0, 0, u16::MAX, 3), &mut buf);
    assert_eq!(
        result,
        Some(Err(RenderError::InsufficientArea {
            minimum: Size::new(u16::MAX, 3),
            given: Size::new(u16::MAX, 3),
        }))
    );
}

#[test]
fn area_is_sufficient_from_the_minimum_size_on() {
    let pc = PortConfiguration::new(
        Some(Port::primary(&U8)),
        Some(Port::primary(&U8_VARRAY)),
        vec![],
        vec![Port::new(&U8, "a".into())],
    );
    let node = entry(pc).with_alias("_");
    let mut renderer = NodeRenderer::new(&HINTS).with_node(&node);
    assert_eq!(renderer.get_minimum_size(), Size::new(15, 5));
    assert!(renderer.is_sufficient(Area::new(0, 0, 15, 5)));
    assert!(renderer.is_sufficient(Area::new(7, 9, 40, 6)));
    assert!(!renderer.is_sufficient(Area::new(0, 0, 14, 5)));
    assert!(!renderer.is_sufficient(Area::new(0, 0, 15, 4)));
    assert!(!renderer.is_sufficient(Area::new(0, 0, 0, 0)));
}

#[test]
fn area_shrinks_as_a_terminal_rectangle_does() {
    let cases = [
        (0, 0, 10, 5, 2, 1),
        (3, 4, 3, 5, 2, 1),
        (3, 4, 4, 2, 2, 1),
        (0, 0, 65535, 10, 32768, 0),
        (0, 0, 65535, 65535, 32767, 40000),
        (100, 7, 65535, 65535, 65535, 65535),
        (65535, 65535, 4, 4, 1, 1),
        (65534, 65530, 65535, 65535, 2, 9),
        (5, 5, 65534, 9, 32768, 1),
    ];
    for (x, y, width, height, horizontal, vertical) in cases {
        let expected = ratatui::layout::Rect {
            x,
            y,
            width,
            height,
        }
        .inner(ratatui::layout::Margin::new(horizontal, vertical));
        assert_eq!(
            Area::new(x, y, width, height).inner(horizontal, vertical),
            Area::new(expected.x, expected.y, expected.width, expected.height)
        );
    }
    assert_eq!(
        Area::new(0, 0, 65535, 10).inner(32768, 0),
        Area::new(32768, 0, 0, 10)
    );
}

#[test]
fn area_shrinks_by_its_margins() {
    assert_eq!(Area::new(0, 0, 10, 5).inner(2, 1), Area::new(2, 1, 6, 3));
    assert_eq!(Area::new(3, 4, 10, 5).inner(1, 0), Area::new(4, 4, 8, 5));
    assert_eq!(Area::new(3, 4, 3, 5).inner(2, 1), Area::new(0, 0, 0, 0));
    assert_eq!(Area::new(3, 4, 10, 1).inner(2, 1), Area::new(0, 0, 0, 0));
    assert_eq!(Area::new(3, 4, 4, 2).inner(2, 1), Area::new(5, 5, 0, 0));
    assert_eq!(Area::new(3, 4, 10, 5).as_size(), Size::new(10, 5));
}
