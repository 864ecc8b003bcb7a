use jsoncanvas::color::{Color, HexColor};
use jsoncanvas::edge::{Edge, End, Side};
use jsoncanvas::node::{
    Background, BackgroundStyle, FileNode, GroupNode, LinkNode, Node, TextNode,
};
use jsoncanvas::{EdgeId, JsonCanvas, JsonCanvasError, NodeId, ParseError};

fn node_id(s: &str) -> NodeId {
    NodeId::new(s.to_string()).unwrap()
}

fn edge_id(s: &str) -> EdgeId {
    EdgeId::new(s.to_string()).unwrap()
}

#[test]
fn test() {
    // Color
    let color1 = Color::Preset("red".to_string());
    let color2 = Color::Color(HexColor::parse("#ff0000").unwrap());

    // Text Node
    let node1: Node = TextNode::new(
        node_id("id"),
        0,
        0,
        100,
        100,
        Some(Color::Preset("red".to_string())),
        "This is a test".to_string(),
    )
    .into();

    // File Node
    let node2: Node = FileNode::new(
        node_id("id2"),
        0,
        0,
        100,
        100,
        Some(Color::Preset("red".to_string())),
        "dir/to/path/file.png".to_string(),
        None,
    )
    .into();
    let node3: Node = FileNode::new(
        node_id("id3"),
        0,
        0,
        100,
        100,
        Some(color1),
        "dir/to/path/file.png".to_string(),
        Some("#here".to_string()),
    )
    .into();

    // Link Node
    let node4: Node = LinkNode::new(
        node_id("id4"),
        0,
        0,
        100,
        100,
        Some(Color::Preset("red".to_string())),
        "https://julienduroure.com".to_string(),
    )
    .unwrap()
    .into();

    // Group Node
    let node5: Node = GroupNode::new(
        node_id("id5"),
        0,
        0,
        100,
        100,
        Some(color2),
        Some("Label".to_string()),
        None,
    )
    .into();
    let node6: Node = GroupNode::new(node_id("id6"), 0, 0, 100, 100, None, None, None).into();
    let node7: Node = GroupNode::new(
        node_id("id7"),
        0,
        0,
        100,
        100,
        None,
        None,
        Some(Background::new("path/to/image.png".to_string(), None)),
    )
    .into();
    let node8: Node = GroupNode::new(
        node_id("id8"),
        0,
        0,
        100,
        100,
        None,
        None,
        Some(Background::new(
            "path/to/image.png".to_string(),
            Some(BackgroundStyle::Cover),
        )),
    )
    .into();

    // Edge
    let edge1 = Edge::new(
        edge_id("edge1"),
        node_id("id"),
        None,
        None,
        node_id("id2"),
        Some(Side::Left),
        Some(End::Arrow),
        None,
        None,
    );
    let edge2 = Edge::new(
        edge_id("edge2"),
        node_id("id3"),
        None,
        None,
        node_id("id4"),
        Some(Side::Left),
        Some(End::Arrow),
        Some(Color::Preset("cyan".to_string())),
        Some("edge label".to_string()),
    );

    // JSON Canvas
    let mut canvas = JsonCanvas::default();
    canvas.add_node(node1).unwrap();
    canvas.add_node(node2).unwrap();
    canvas.add_node(node3).unwrap();
    canvas.add_node(node4).unwrap();
    canvas.add_node(node5).unwrap();
    canvas.add_node(node6).unwrap();
    canvas.add_node(node7).unwrap();
    canvas.add_node(node8).unwrap();

    canvas.add_edge(edge1).unwrap();
    canvas.add_edge(edge2).unwrap();

    let serialized_canvas = canvas.to_string();

    println!("serialized canvas = {}", serialized_canvas);

    let _jsoncanvas_deserialized: JsonCanvas = JsonCanvas::from_str(&serialized_canvas).unwrap();
}

#[test]
fn single_text_node_exact_wire() {
    let mut canvas = JsonCanvas::new();
    let node: Node = TextNode::new(node_id("n1"), 0, 0, 100, 100, None, "hi".to_string()).into();
    canvas.add_node(node).unwrap();
    assert_eq!(
        canvas.to_string(),
        "{\"nodes\":[{\"id\":\"n1\",\"x\":0,\"y\":0,\"width\":100,\"height\":100,\"type\":\"text\",\"text\":\"hi\"}]}"
    );
}

#[test]
fn empty_canvas_wire() {
    let canvas = JsonCanvas::new();
    assert_eq!(canvas.to_string(), "{}");
    let back = JsonCanvas::from_str("{}").unwrap();
    assert_eq!(back.get_nodes().len(), 0);
    assert_eq!(back.get_edges().len(), 0);
}

#[test]
fn lenient_parse_keeps_dangling_edges() {
    let canvas = JsonCanvas::from_str(
        "{\"nodes\":[],\"edges\":[{\"id\":\"e1\",\"fromNode\":\"a\",\"toNode\":\"b\"}]}",
    )
    .unwrap();
    assert_eq!(canvas.get_nodes().len(), 0);
    assert_eq!(canvas.get_edges().len(), 1);
    let e = canvas.get_edge(&edge_id("e1")).unwrap();
    assert_eq!(e.from_node().as_str(), "a");
    assert_eq!(e.to_node().as_str(), "b");
}

#[test]
fn round_trip_preserves_document() {
    let mut canvas = JsonCanvas::new();
    canvas
        .add_node(
            TextNode::new(
                node_id("a"),
                -5,
                7,
                0,
                18446744073709551615,
                Some(Color::Color(HexColor::rgb(1, 2, 3))),
                "text with \"quotes\" and\nnewlines".to_string(),
            )
            .into(),
        )
        .unwrap();
    canvas
        .add_node(
            LinkNode::new(
                node_id("b"),
                1,
                2,
                3,
                4,
                None,
                "https://example.com/a?q=1#frag".to_string(),
            )
            .unwrap()
            .into(),
        )
        .unwrap();
    canvas
        .add_edge(Edge::new(
            edge_id("e"),
            node_id("a"),
            Some(Side::Top),
            Some(End::NoArrow),
            node_id("b"),
            Some(Side::Bottom),
            Some(End::Arrow),
            Some(Color::Preset("4".to_string())),
            Some("lbl".to_string()),
        ))
        .unwrap();
    let first = canvas.to_string();
    let reparsed = JsonCanvas::from_str(&first).unwrap();
    let second = reparsed.to_string();
    assert_eq!(first, second);
    assert_eq!(reparsed.get_nodes().len(), 2);
    assert_eq!(reparsed.get_edges().len(), 1);
}

#[test]
fn duplicate_node_id_rejected_without_mutation() {
    let mut canvas = JsonCanvas::new();
    canvas
        .add_node(TextNode::new(node_id("n"), 0, 0, 1, 1, None, "one".to_string()).into())
        .unwrap();
    let before = canvas.to_string();
    let err = canvas
        .add_node(TextNode::new(node_id("n"), 9, 9, 9, 9, None, "two".to_string()).into())
        .unwrap_err();
    assert!(matches!(err, JsonCanvasError::NodeExists(id) if id.as_str() == "n"));
    assert_eq!(canvas.to_string(), before);
}

#[test]
fn duplicate_edge_id_rejected_without_mutation() {
    let mut canvas = JsonCanvas::new();
    canvas
        .add_node(TextNode::new(node_id("a"), 0, 0, 1, 1, None, "a".to_string()).into())
        .unwrap();
    canvas
        .add_node(TextNode::new(node_id("b"), 0, 0, 1, 1, None, "b".to_string()).into())
        .unwrap();
    canvas
        .add_edge(Edge::new(
            edge_id("e"),
            node_id("a"),
            None,
            None,
            node_id("b"),
            None,
            None,
            None,
            None,
        ))
        .unwrap();
    let before = canvas.to_string();
    let err = canvas
        .add_edge(Edge::new(
            edge_id("e"),
            node_id("b"),
            None,
            None,
            node_id("a"),
            None,
            None,
            None,
            None,
        ))
        .unwrap_err();
    assert!(matches!(err, JsonCanvasError::EdgeExists(id) if id.as_str() == "e"));
    assert_eq!(canvas.to_string(), before);
}

#[test]
fn dangling_endpoint_rejected_without_mutation() {
    let mut canvas = JsonCanvas::new();
    canvas
        .add_node(TextNode::new(node_id("a"), 0, 0, 1, 1, None, "a".to_string()).into())
        .unwrap();
    let before = canvas.to_string();
    let err = canvas
        .add_edge(Edge::new(
            edge_id("e"),
            node_id("a"),
            None,
            None,
            node_id("missing"),
            None,
            None,
            None,
            None,
        ))
        .unwrap_err();
    assert!(matches!(err, JsonCanvasError::NodeNotExists(id) if id.as_str() == "missing"));
    assert_eq!(canvas.to_string(), before);
    let err2 = canvas
        .add_edge(Edge::new(
            edge_id("e"),
            node_id("ghost"),
            None,
            None,
            node_id("a"),
            None,
            None,
            None,
            None,
        ))
        .unwrap_err();
    assert!(matches!(err2, JsonCanvasError::NodeNotExists(id) if id.as_str() == "ghost"));
    assert_eq!(canvas.to_string(), before);
}

#[test]
fn get_node_and_edge_by_id() {
    let mut canvas = JsonCanvas::new();
    canvas
        .add_node(TextNode::new(node_id("a"), 3, 4, 5, 6, None, "hello".to_string()).into())
        .unwrap();
    let found = canvas.get_node(&node_id("a")).unwrap();
    match found {
        Node::Text(t) => assert_eq!(t.text(), "hello"),
        _ => panic!("expected a text node"),
    }
    assert!(canvas.get_node(&node_id("zz")).is_none());
    assert!(canvas.get_edge(&edge_id("zz")).is_none());
}

#[test]
fn parse_accepts_whitespace_and_any_field_order() {
    let canvas = JsonCanvas::from_str(
        " { \"nodes\" : [ { \"type\" : \"text\" , \"text\" : \"hi\" , \"height\" : 2 , \"width\" : 1 , \"y\" : -3 , \"x\" : 0 , \"id\" : \"n\" } ] } ",
    )
    .unwrap();
    let node = canvas.get_node(&node_id("n")).unwrap();
    match node {
        Node::Text(t) => assert_eq!(t.text(), "hi"),
        _ => panic!("expected a text node"),
    }
}

#[test]
fn parse_error_taxonomy() {
    let unknown = JsonCanvas::from_str("{\"bogus\":[]}").unwrap_err();
    assert!(matches!(
        unknown,
        JsonCanvasError::ParseError(ParseError::UnknownField(k)) if k == "bogus"
    ));

    let wrong = JsonCanvas::from_str("{\"nodes\":1}").unwrap_err();
    assert!(matches!(
        wrong,
        JsonCanvasError::ParseError(ParseError::WrongType(k)) if k == "nodes"
    ));

    let missing = JsonCanvas::from_str(
        "{\"nodes\":[{\"id\":\"n\",\"x\":0,\"y\":0,\"width\":1,\"height\":1,\"type\":\"text\"}]}",
    )
    .unwrap_err();
    assert!(matches!(
        missing,
        JsonCanvasError::ParseError(ParseError::MissingField(k)) if k == "text"
    ));

    let bad_tag = JsonCanvas::from_str(
        "{\"nodes\":[{\"id\":\"n\",\"x\":0,\"y\":0,\"width\":1,\"height\":1,\"type\":\"blob\"}]}",
    )
    .unwrap_err();
    assert!(matches!(
        bad_tag,
        JsonCanvasError::ParseError(ParseError::UnknownEnumValue(v)) if v == "blob"
    ));

    let bad_side = JsonCanvas::from_str(
        "{\"edges\":[{\"id\":\"e\",\"fromNode\":\"a\",\"toNode\":\"b\",\"fromSide\":\"up\"}]}",
    )
    .unwrap_err();
    assert!(matches!(
        bad_side,
        JsonCanvasError::ParseError(ParseError::UnknownEnumValue(v)) if v == "up"
    ));

    let bad_hex = JsonCanvas::from_str(
        "{\"nodes\":[{\"id\":\"n\",\"x\":0,\"y\":0,\"width\":1,\"height\":1,\"color\":\"#XYZ\",\"type\":\"text\",\"text\":\"t\"}]}",
    )
    .unwrap_err();
    assert!(matches!(
        bad_hex,
        JsonCanvasError::ParseError(ParseError::InvalidHex(v)) if v == "#XYZ"
    ));

    let bad_url = JsonCanvas::from_str(
        "{\"nodes\":[{\"id\":\"n\",\"x\":0,\"y\":0,\"width\":1,\"height\":1,\"type\":\"link\",\"url\":\"not a url\"}]}",
    )
    .unwrap_err();
    assert!(matches!(
        bad_url,
        JsonCanvasError::ParseError(ParseError::MalformedUrl(v)) if v == "not a url"
    ));

    let empty_id = JsonCanvas::from_str(
        "{\"nodes\":[{\"id\":\"\",\"x\":0,\"y\":0,\"width\":1,\"height\":1,\"type\":\"text\",\"text\":\"t\"}]}",
    )
    .unwrap_err();
    assert!(matches!(
        empty_id,
        JsonCanvasError::ParseError(ParseError::EmptyIdentifier)
    ));

    let neg_width = JsonCanvas::from_str(
        "{\"nodes\":[{\"id\":\"n\",\"x\":0,\"y\":0,\"width\":-1,\"height\":1,\"type\":\"text\",\"text\":\"t\"}]}",
    )
    .unwrap_err();
    assert!(matches!(
        neg_width,
        JsonCanvasError::ParseError(ParseError::NumberOutOfRange(k)) if k == "width"
    ));

    let dup = JsonCanvas::from_str(
        "{\"nodes\":[{\"id\":\"n\",\"x\":0,\"y\":0,\"width\":1,\"height\":1,\"type\":\"text\",\"text\":\"t\"},{\"id\":\"n\",\"x\":1,\"y\":1,\"width\":1,\"height\":1,\"type\":\"text\",\"text\":\"u\"}]}",
    )
    .unwrap_err();
    assert!(matches!(
        dup,
        JsonCanvasError::ParseError(ParseError::DuplicateNodeId(v)) if v == "n"
    ));

    let style_without_background = JsonCanvas::from_str(
        "{\"nodes\":[{\"id\":\"n\",\"x\":0,\"y\":0,\"width\":1,\"height\":1,\"type\":\"group\",\"backgroundStyle\":\"cover\"}]}",
    )
    .unwrap_err();
    assert!(matches!(
        style_without_background,
        JsonCanvasError::ParseError(ParseError::MissingField(k)) if k == "background"
    ));

    let dup_edge = JsonCanvas::from_str(
        "{\"edges\":[{\"id\":\"e\",\"fromNode\":\"a\",\"toNode\":\"b\"},{\"id\":\"e\",\"fromNode\":\"b\",\"toNode\":\"a\"}]}",
    )
    .unwrap_err();
    assert!(matches!(
        dup_edge,
        JsonCanvasError::ParseError(ParseError::DuplicateEdgeId(v)) if v == "e"
    ));

    let syntax = JsonCanvas::from_str("{\"nodes\":").unwrap_err();
    assert!(matches!(
        syntax,
        JsonCanvasError::ParseError(ParseError::Syntax)
    ));
}

#[test]
fn link_node_validates_url() {
    assert!(matches!(
        LinkNode::new(node_id("l"), 0, 0, 1, 1, None, "::not valid::".to_string()),
        Err(ParseError::MalformedUrl(u)) if u == "::not valid::"
    ));
    let ok = LinkNode::new(
        node_id("l"),
        0,
        0,
        1,
        1,
        None,
        "https://example.org/x".to_string(),
    )
    .unwrap();
    assert_eq!(ok.url(), "https://example.org/x");
}

#[test]
fn edge_mutators() {
    let mut edge = Edge::new(
        edge_id("e"),
        node_id("a"),
        None,
        None,
        node_id("b"),
        None,
        None,
        None,
        None,
    );
    edge.set_label("hello".to_string());
    assert_eq!(edge.label().unwrap(), "hello");
    assert_eq!(edge.remove_label().unwrap(), "hello");
    assert!(edge.label().is_none());
    edge.set_color(Color::Preset("red".to_string()));
    assert_eq!(edge.remove_color().unwrap(), Color::Preset("red".to_string()));
    assert!(edge.color().is_none());
    let (old_node, old_side, old_end) = edge.set_from(node_id("c"), Some(Side::Right), None);
    assert_eq!(old_node.as_str(), "a");
    assert!(old_side.is_none());
    assert!(old_end.is_none());
    assert_eq!(edge.from_node().as_str(), "c");
    assert!(matches!(edge.from_side(), Some(Side::Right)));
    let (old_to, _, _) = edge.set_to(node_id("d"), None, Some(End::Arrow));
    assert_eq!(old_to.as_str(), "b");
    assert_eq!(edge.to_node().as_str(), "d");
}

#[test]
fn optional_fields_stay_off_the_wire() {
    let mut canvas = JsonCanvas::new();
    canvas
        .add_node(GroupNode::new(node_id("g"), 0, 0, 1, 1, None, None, None).into())
        .unwrap();
    canvas
        .add_node(FileNode::new(node_id("f"), 0, 0, 1, 1, None, "p.png".to_string(), None).into())
        .unwrap();
    canvas
        .add_edge(Edge::new(
            edge_id("e"),
            node_id("g"),
            None,
            None,
            node_id("f"),
            None,
            None,
            None,
            None,
        ))
        .unwrap();
    let wire = canvas.to_string();
    for key in [
        "color",
        "label",
        "background",
        "backgroundStyle",
        "subpath",
        "fromSide",
        "fromEnd",
        "toSide",
        "toEnd",
    ] {
        assert!(!wire.contains(key), "unexpected key {} in {}", key, wire);
    }
}

#[test]
fn parse_full_document_idempotent() {
    let doc = "{\"nodes\":[{\"id\":\"id7\",\"x\":0,\"y\":0,\"width\":100,\"height\":100,\"background\":\"path/to/image.png\",\"type\":\"group\"},{\"id\":\"id5\",\"x\":0,\"y\":0,\"width\":100,\"height\":100,\"color\":\"#ff0000\",\"label\":\"Label\",\"type\":\"group\"},{\"id\":\"id2\",\"x\":0,\"y\":0,\"width\":100,\"height\":100,\"color\":\"1\",\"file\":\"dir/to/path/file.png\",\"type\":\"file\"},{\"id\":\"id4\",\"x\":0,\"y\":0,\"width\":100,\"height\":100,\"color\":\"1\",\"url\":\"https://www.google.com\",\"type\":\"link\"},{\"id\":\"id6\",\"x\":0,\"y\":0,\"width\":100,\"height\":100,\"type\":\"group\"},{\"id\":\"id3\",\"x\":0,\"y\":0,\"width\":100,\"height\":100,\"color\":\"1\",\"file\":\"dir/to/path/file.png\",\"subpath\":\"#here\",\"type\":\"file\"},{\"id\":\"id8\",\"x\":0,\"y\":0,\"width\":100,\"height\":100,\"background\":\"path/to/image.png\",\"backgroundStyle\":\"cover\",\"type\":\"group\"},{\"id\":\"id\",\"x\":0,\"y\":0,\"width\":100,\"height\":100,\"color\":\"1\",\"text\":\"Test\",\"type\":\"text\"}],\"edges\":[{\"id\":\"edge2\",\"fromNode\":\"node3\",\"toNode\":\"node4\",\"color\":\"5\",\"label\":\"edge label\",\"toSide\":\"left\",\"toEnd\":\"arrow\"},{\"id\":\"edge1\",\"fromNode\":\"node1\",\"toNode\":\"node2\",\"toSide\":\"left\",\"toEnd\":\"arrow\"}]}";
    let canvas = JsonCanvas::from_str(doc).unwrap();
    assert_eq!(canvas.get_nodes().len(), 8);
    assert_eq!(canvas.get_edges().len(), 2);
    let first = canvas.to_string();
    let reparsed = JsonCanvas::from_str(&first).unwrap();
    assert_eq!(reparsed.to_string(), first);
}
