use vecline::gen::VecLineGen;
use vecline::parser::CodeParser;

fn parse_ok(code: &str) -> CodeParser {
    let mut parser = CodeParser::new(code.to_owned(), VecLineGen::default());
    let r = parser.parse();
    assert!(r.is_ok(), "parse failed: {:?}", r.err().map(|e| e.msg));
    parser
}

fn parse_err(code: &str) -> vecline::interfaces::ParseError {
    let mut parser = CodeParser::new(code.to_owned(), VecLineGen::default());
    parser.parse().expect_err("parse unexpectedly succeeded")
}

#[test]
fn three_commands_parse() {
    let parser = parse_ok("MOVE 0,0,LINE 10,10,END");
    assert_eq!(parser.gen.len(), 3);
}

#[test]
fn comma_after_name_also_accepted() {
    let parser = parse_ok("MOVE,0,0,LINE,10,10,END");
    assert_eq!(parser.gen.len(), 3);
}

#[test]
fn lowercase_names_fold() {
    let parser = parse_ok("move 1,2,line 3,4,");
    assert_eq!(parser.gen.len(), 2);
}

#[test]
fn aliases_resolve() {
    let parser = parse_ok("CUBIC 0,0,0,0,10,0,SCALE 2,2,CLOSE");
    assert_eq!(parser.gen.len(), 3);
}

#[test]
fn misspelled_name_suggests_closest() {
    let e = parse_err("LIEN 0,0");
    assert_eq!(e.msg, "Invalid op type 'LIEN', maybe it is 'LINE'");
    assert!(e.msg.contains("LINE"));
    assert_eq!(e.cursor.pos, 0);
    assert_eq!(e.cursor.row, 0);
    assert_eq!(e.cursor.col, 0);
}

#[test]
fn distant_name_gets_no_suggestion() {
    let e = parse_err("MOVE 0,0 XYZZY 1,1");
    assert_eq!(e.msg, "Invalid op type 'XYZZY'");
    assert!(!e.msg.contains("maybe"));
    assert_eq!(e.cursor.pos, 9);
}

#[test]
fn error_cursor_tracks_rows_and_columns() {
    let e = parse_err("MOVE 0,0,\nLIEN 0,0");
    assert_eq!(e.cursor.row, 1);
    assert_eq!(e.cursor.col, 0);
    assert_eq!(e.cursor.pos, 10);
}

#[test]
fn empty_op_type_reported() {
    let e = parse_err(",,");
    assert_eq!(e.msg, "Empty op type");
    assert_eq!(e.cursor.pos, 0);
}

#[test]
fn invalid_number_names_the_literal() {
    let e = parse_err("MOVE 1.2.3,4,");
    assert_eq!(e.msg, "Invalid number '1.2.3'");
    assert_eq!(e.cursor.pos, 5);
}

#[test]
fn missing_number_is_an_empty_literal() {
    let e = parse_err("MOVE ,");
    assert_eq!(e.msg, "Invalid number ''");
}

#[test]
fn adjacent_tokens_need_a_comma() {
    let e = parse_err("MOVE 0,0,LINE 3:4");
    assert_eq!(e.msg, "Expected comma");
    assert_eq!(e.cursor.pos, 15);
}

#[test]
fn unterminated_block_comment_rejected() {
    let e = parse_err("/* open");
    assert_eq!(e.msg, "Invalid comment");
    assert_eq!(e.cursor.pos, 0);
}

#[test]
fn comments_skipped_between_tokens() {
    let parser = parse_ok("/*lead*/MOVE 0,0, // tail\nLINE 1,1,");
    assert_eq!(parser.gen.len(), 2);
}

#[test]
fn line_comment_at_end_of_input_accepted() {
    let parser = parse_ok("MOVE 0,0, // trailing");
    assert_eq!(parser.gen.len(), 1);
}

#[test]
fn whitespace_forms_separate_tokens() {
    let parser = parse_ok("MOVE\t1,1\nLINE 2,2,");
    assert_eq!(parser.gen.len(), 2);
}

#[test]
fn empty_source_is_the_empty_program() {
    let parser = parse_ok("");
    assert_eq!(parser.gen.len(), 0);
}

#[test]
fn comment_only_source_is_empty() {
    let parser = parse_ok("  /* all */ // gone");
    assert_eq!(parser.gen.len(), 0);
}
