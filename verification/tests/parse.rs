use input_flow::block::{Block, BlockParser};
use input_flow::span::{Span, SpanParser};

fn render(blocks: &Vec<Block>) -> String {
    let parts: Vec<String> = blocks
        .iter()
        .map(|block| {
            if block.blocks().is_empty() {
                block.spans().to_string()
            } else {
                format!("{}({})", block.spans(), render(block.blocks()))
            }
        })
        .collect();
    parts.join(",")
}

fn parse_lines(text: &str) -> BlockParser<'_> {
    let mut parser = BlockParser::new();
    for line in text.split("\n") {
        parser = parser.with(line);
    }
    parser
}

#[test]
fn block_test() {
    let lines = r#"
    A
    B
      C
      D
    E
        F
        G
            H
            I
    J
            K
                                    L
                                    M
    N
    "#;
    let lines = lines.split("\n");
    let mut parser = BlockParser::new();
    for line in lines {
        parser = parser.with(&line);
    }
    let blocks = parser.into_blocks();
    assert_eq!(render(&blocks), "A,B(C,D),E(F,G(H,I)),J(K(L,M)),N");
}

#[test]
fn blank_lines_change_nothing() {
    let parser = parse_lines("  a\n\n \t \n  b");
    assert_eq!(render(&parser.into_blocks()), "a,b");
    assert!(BlockParser::new().into_blocks().is_empty());
}

#[test]
fn mismatched_indentation_is_not_accepted() {
    let parser = BlockParser::new().with("            A");
    assert!(!parser.accepts_line("        B"));
    assert!(parser.accepts_line("            C"));
    assert!(parser.accepts_line("                D"));
    assert!(parser.accepts_line("   "));

    let parser = BlockParser::new().with("        A").with("                B");
    assert!(!parser.accepts_line("            C"));
    assert!(parser.accepts_line("        C"));
}

#[test]
fn tabs_and_spaces_are_both_blanks() {
    let parser = parse_lines("\tx\n\t\ty\n\tz");
    assert_eq!(render(&parser.into_blocks()), "x(y),z");
    let parser = parse_lines("\tx\n\t\ty");
    assert_eq!(render(&parser.into_blocks()), "x(y)");
}

#[test]
fn span_test() {
    let text = "abc [link] def [href](http://website.com) qwe [123";
    let result = SpanParser::parse(text);
    println!("{:?}", result);
    assert!(result.is_empty());
}

#[test]
fn plain_text_is_one_span() {
    let text = "just some text";
    let spans = SpanParser::parse(text);
    assert_eq!(spans.len(), 1);
    assert!(matches!(spans[0], Span::Text(t) if t == text));
    let empty = SpanParser::parse("");
    assert!(matches!(empty[0], Span::Text("")));
}

#[test]
fn blocks_and_parsers_clone_and_default() {
    let parser = parse_lines("a\n  b\nc");
    let copy = parser.clone();
    assert_eq!(render(&copy.into_blocks()), "a(b),c");
    let blocks = parser.into_blocks();
    let copies: Vec<Block> = blocks.iter().map(|b| b.clone()).collect();
    assert_eq!(render(&copies), render(&blocks));
    let empty = Block::default();
    assert_eq!(empty.spans(), "");
    assert!(empty.blocks().is_empty());
    assert!(BlockParser::default().into_blocks().is_empty());
}
