use archiver_config::nesting::{shallow, MAX_NESTING};
use archiver_config::{parse_config, parse_document, Item, ParseError};

fn arrays(depth: usize) -> String {
    format!("a = {}{}", "[".repeat(depth), "]".repeat(depth))
}

fn inline_tables(depth: usize) -> String {
    format!("a = {}1{}", "{a = ".repeat(depth), "}".repeat(depth))
}

fn dotted_key(dots: usize) -> String {
    format!("a{} = 1", ".a".repeat(dots))
}

fn depth_of(item: &Item) -> usize {
    match item {
        Item::Array(items) => 1 + items.iter().map(depth_of).max().unwrap_or(0),
        Item::Table(entries) => 1 + entries.iter().map(|(_, v)| depth_of(v)).max().unwrap_or(0),
        _ => 0,
    }
}

#[test]
fn limit_is_sixty_four() {
    assert_eq!(MAX_NESTING, 64);
}

#[test]
fn arrays_up_to_the_limit_are_read() {
    let document = parse_document(&arrays(64)).unwrap();
    assert_eq!(depth_of(&document), 65);
    assert!(shallow(&arrays(64)));
}

#[test]
fn arrays_past_the_limit_are_too_deep() {
    assert_eq!(parse_document(&arrays(65)), Err(ParseError::TooDeep));
    assert_eq!(parse_document(&arrays(100_000)), Err(ParseError::TooDeep));
    assert!(!shallow(&arrays(65)));
}

#[test]
fn inline_tables_past_the_limit_are_too_deep() {
    assert!(parse_document(&inline_tables(64)).is_ok());
    assert_eq!(parse_document(&inline_tables(65)), Err(ParseError::TooDeep));
    assert_eq!(parse_document(&inline_tables(50_000)), Err(ParseError::TooDeep));
}

#[test]
fn dotted_keys_past_the_limit_are_too_deep() {
    let document = parse_document(&dotted_key(64)).unwrap();
    assert_eq!(depth_of(&document), 65);
    assert_eq!(parse_document(&dotted_key(65)), Err(ParseError::TooDeep));
    assert_eq!(parse_document(&dotted_key(50_000)), Err(ParseError::TooDeep));
}

#[test]
fn dotted_header_counts_with_its_bracket() {
    let header = format!("[a{}]\nb = 1\n", ".a".repeat(63));
    assert!(parse_document(&header).is_ok());
    let header = format!("[a{}]\nb = 1\n", ".a".repeat(64));
    assert_eq!(parse_document(&header), Err(ParseError::TooDeep));
}

#[test]
fn deepest_text_within_the_limit_is_read() {
    let text = format!(
        "[a{}]\nb{} = {}{}\n",
        ".a".repeat(63),
        ".b".repeat(32),
        "[".repeat(32),
        "]".repeat(32)
    );
    let document = parse_document(&text).unwrap();
    assert_eq!(depth_of(&document), 64 + 33 + 32);
}

#[test]
fn brackets_in_strings_and_comments_do_not_count() {
    let many = "[{.".repeat(100);
    let text = format!(
        "a = \"{m}\"\nb = '{m}'\nc = \"\"\"{m}\n{m}\"\"\"\nd = '''{m}\n{m}'''\n# {m}\ne = \"\\\"{m}\" # {m}\n",
        m = many
    );
    let document = parse_document(&text).unwrap();
    assert_eq!(depth_of(&document), 1);
}

#[test]
fn quotes_inside_multi_line_strings_do_not_end_them() {
    let many = "[".repeat(100);
    let text = format!("a = \"\"\"x\"{m}\"\"{m}\\\"\"\"{m}\"\"\"\"\"\nb = [[1]]\n", m = many);
    let document = parse_document(&text).unwrap();
    assert_eq!(depth_of(&document), 3);
    let text = format!("a = '''x'{m}''{m}'''''\nb = ''\nc = \"\"\nd = [1]\n", m = many);
    assert!(parse_document(&text).is_ok());
}

#[test]
fn levels_that_were_closed_do_not_count() {
    let mut text = String::new();
    for i in 0..500 {
        text.push_str(&format!("k{} = [[{}], {{ a.b = [1.5] }}]\n", i, i));
    }
    for i in 0..500 {
        text.push_str(&format!("[[t.u]]\nv.w = {}\n", i));
    }
    assert!(parse_document(&text).is_ok());
}

#[test]
fn periods_count_up_to_the_end_of_the_value() {
    let text = format!("a = [\n{}\n]\n", "1.5,\n".repeat(63));
    assert!(parse_document(&text).is_ok());
    let text = format!("a = [\n{}\n]\n", "1.5,\n".repeat(64));
    assert_eq!(parse_document(&text), Err(ParseError::TooDeep));
    let text = "a = 1.5\n".repeat(200);
    assert!(matches!(parse_document(&text), Err(ParseError::Syntax { .. })));
    let mut text = String::new();
    for i in 0..200 {
        text.push_str(&format!("a{} = 1.5\n", i));
    }
    assert!(parse_document(&text).is_ok());
}

#[test]
fn closing_more_than_was_opened_is_a_syntax_failure() {
    assert!(matches!(parse_document("a = ]]]]"), Err(ParseError::Syntax { .. })));
    assert!(matches!(parse_document("a = [[[["), Err(ParseError::Syntax { .. })));
}

#[test]
fn text_that_nests_too_deep_is_no_configuration() {
    assert_eq!(parse_config(&arrays(65)).err(), Some(ParseError::TooDeep));
}

#[test]
fn windows_line_ends_are_read() {
    let text = "a = [\r\n  [1],\r\n  [2]\r\n]\r\nb = \"x\" # c\r\n";
    assert_eq!(depth_of(&parse_document(text).unwrap()), 3);
}

#[test]
fn arrays_of_tables_inside_each_other_are_read() {
    let mut text = String::new();
    let mut path = String::from("a");
    for _ in 0..62 {
        text.push_str(&format!("[[{}]]\n", path));
        path.push_str(".a");
    }
    text.push_str(&format!("[[{}]]\nb{} = {}{}\n", path, ".b".repeat(32), "[".repeat(32), "]".repeat(32)));
    let document = parse_document(&text).unwrap();
    assert_eq!(depth_of(&document), 2 * 63 + 33 + 32);
}

#[test]
fn levels_behind_a_string_count_again() {
    let deep = arrays(65).replace("a = ", "z = ");
    let heads = [
        "a = \"x\\\\\"",
        "a = \"x\\\"\"",
        "a = 'x\\'",
        "a = ''",
        "a = \"\"",
        "a = ''''''",
        "a = \"\"\"\"\"\"",
        "a = '''x''''",
        "a = '''x'''''",
        "a = \"\"\"x\"\"\"\"\"",
        "a = \"\"\"x\\\"\"\"\"",
        "a = \"\"\"\n]]]]\n\"\"\"",
        "a = 1 # \"",
        "a = 1 # '''",
        "\"a\" = 1",
        "'a' = 1",
    ];
    for head in heads {
        let shallow_text = format!("{}\nz = [[1]]\n", head);
        assert!(parse_document(&shallow_text).is_ok(), "{}", head);
        let deep_text = format!("{}\n{}\n", head, deep);
        assert_eq!(parse_document(&deep_text), Err(ParseError::TooDeep), "{}", head);
        let same_line = format!("b = [{}, {}]\n", head.replace("a = ", "").replace(" = 1", ""), "[".repeat(64));
        if !head.contains('#') && !head.contains('\n') {
            assert_eq!(parse_document(&same_line), Err(ParseError::TooDeep), "{}", head);
        }
    }
}

#[test]
fn closed_levels_inside_strings_do_not_lower_the_count() {
    let text = format!("a = {}\"]]]]]]]]\", '}}}}}}}}', {}", "[".repeat(60), "[".repeat(5));
    assert_eq!(parse_document(&text), Err(ParseError::TooDeep));
    let text = format!("a = {} # ]]]]]]]]\n{}", "[".repeat(60), "[".repeat(5));
    assert_eq!(parse_document(&text), Err(ParseError::TooDeep));
    let text = format!("a = {}\"\"\"\n]]]]]]]]\n\"\"\", {}", "[".repeat(60), "[".repeat(5));
    assert_eq!(parse_document(&text), Err(ParseError::TooDeep));
}
