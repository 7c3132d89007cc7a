use sync_msteams_jira_comments::markup::is_admitted;
use sync_msteams_jira_comments::markup::is_convertible;
use sync_msteams_jira_comments::markup::to_markdown;
use sync_msteams_jira_comments::markup::OutlineNode;
use sync_msteams_jira_comments::markup::MAX_DEPTH;
use sync_msteams_jira_comments::markup::MAX_LENGTH;

fn some(s: &str) -> Option<String> {
    Some(s.to_string())
}

/// An outline from pairs of parent and name; an empty name stands for a node that is no element.
fn outline(nodes: &[(Option<usize>, &str)]) -> Vec<OutlineNode> {
    nodes
        .iter()
        .map(|(parent, name)| OutlineNode {
            parent: *parent,
            name: if name.is_empty() { None } else { Some(name.to_string()) },
        })
        .collect()
}

/// A chain of elements under the document, each the child of the one before.
fn chain(names: &[&str]) -> Vec<OutlineNode> {
    let mut nodes = vec![(None, "")];
    for (k, name) in names.iter().enumerate() {
        nodes.push((Some(k), *name));
    }
    outline(&nodes)
}

#[test]
fn plain_markup_is_converted() {
    assert_eq!(to_markdown("<p>Hello <b>world</b></p>"), some("Hello **world**"));
    assert_eq!(to_markdown("plain text"), some("plain text"));
    assert_eq!(to_markdown(""), some(""));
    assert_eq!(to_markdown("<div>one</div><div>two</div>"), some("one\n\ntwo"));
    assert_eq!(to_markdown("<a href=\"https://x.example/y\">link</a>"), some("[link](https://x.example/y)"));
}

#[test]
fn lists_are_converted_with_whatever_stands_in_or_around_them() {
    assert_eq!(to_markdown("<ul><li>one</li><li>two</li></ul>"), some("* one\n* two"));
    assert_eq!(to_markdown("<ol><li>one</li><li>two</li></ol>"), some("1. one\n2. two"));
    assert_eq!(to_markdown("<ul><li><b>x</b></li></ul>"), some("* **x**"));
    assert_eq!(to_markdown("<ul><li>x</li></ul><b>y</b>"), some("* x\n\n**y**"));
    assert!(to_markdown("<b><ul><li>x</li><li><a href=\"u\">y</a></li></ul></b>").is_some());
    assert!(to_markdown("<blockquote><ol><li><i>x</i><ul><li>y</li></ul></li></ol></blockquote>").is_some());
    assert!(to_markdown("<a href=\"u\"><menu><li>x</li></menu></a>").is_some());
}

#[test]
fn list_items_outside_a_list_are_converted_where_no_position_is_kept() {
    assert!(to_markdown("<div><li>x</li></div>").is_some());
    assert!(to_markdown("<p>a</p><li>x</li><h1>t</h1><b>later</b>").is_some());
    assert!(to_markdown("<li><b>x</b></li>").is_some());
}

#[test]
fn list_items_outside_a_list_and_under_a_kept_position_are_refused() {
    assert_eq!(to_markdown("<div><b><li>x</li></b></div>"), None);
    assert_eq!(to_markdown("<blockquote><li>x</li></blockquote>"), None);
    assert_eq!(to_markdown("<q><li>x</li></q>"), None);
    assert_eq!(to_markdown("<cite><li>x</li></cite>"), None);
    assert_eq!(to_markdown("<a href=\"u\"><li>x</li></a>"), None);
    assert_eq!(to_markdown("<ul></ul><i><span><li>x"), None);
    for keeper in ["b", "i", "s", "strong", "em", "del", "q", "cite", "blockquote", "a"] {
        assert!(!is_convertible(&format!("<{}><li>x</li></{}>", keeper, keeper)));
        assert!(is_convertible(&format!("<{}><ul><li>x</li></ul></{}>", keeper, keeper)));
        assert!(is_convertible(&format!("<li>x</li><{}>y</{}>", keeper, keeper)));
    }
}

#[test]
fn tables_are_converted_unless_one_stands_in_another() {
    assert_eq!(
        to_markdown("<table><tr><th>a</th><th>b</th></tr><tr><td>1</td><td><b>2</b></td></tr></table>"),
        some("| a |  b  |\n|---|-----|\n| 1 |**2**|")
    );
    assert!(to_markdown("<table><tr><td>x</td></tr></table><table><tr><td>y</td></tr></table>").is_some());
    assert!(to_markdown("<table><tr><td><ul><li><b>x</b></li></ul></td></tr></table>").is_some());
    assert_eq!(to_markdown("<table><tr><td><table><tr><td>x</td></tr></table></td></tr></table>"), None);
    // Inside a cell a list item needs its list inside the cell as well.
    assert_eq!(to_markdown("<ul><li><table><tr><td><b><li>x</li></b></td></tr></table></li></ul>"), None);
}

#[test]
fn any_number_of_tags_is_converted() {
    let paragraphs = "<p>x</p>".repeat(5000);
    assert_eq!(to_markdown(&paragraphs).map(|t| t.matches('x').count()), Some(5000));
    let mixed = "<div><b>x</b> <a href=\"u\">y</a><ul><li>z</li></ul></div>".repeat(1000);
    assert!(to_markdown(&mixed).is_some());
}

#[test]
fn documents_nested_too_deep_are_refused() {
    // The document, `html` and `body` stand above what the text holds.
    let deepest = "<div>".repeat(MAX_DEPTH - 2);
    assert!(to_markdown(&format!("{}", deepest)).is_some());
    let too_deep = "<div>".repeat(MAX_DEPTH - 1);
    assert_eq!(to_markdown(&too_deep), None);
    assert_eq!(to_markdown(&"<b>".repeat(4 * MAX_DEPTH)), None);
    assert_eq!(to_markdown(&"<blockquote>".repeat(4 * MAX_DEPTH)), None);
}

#[test]
fn texts_too_long_for_the_parser_are_refused() {
    let over = "x".repeat(MAX_LENGTH + 1);
    assert!(!is_convertible(&over));
    assert_eq!(to_markdown(&over), None);
}

#[test]
fn outline_of_a_plain_document_is_admitted() {
    assert!(is_admitted(&chain(&["html", "body", "p", "b"])));
    assert!(is_admitted(&outline(&[
        (None, ""),
        (Some(0), "html"),
        (Some(1), "head"),
        (Some(1), "body"),
        (Some(3), "ul"),
        (Some(4), "li"),
        (Some(5), "b"),
        (Some(6), ""),
        (Some(4), "li"),
        (Some(3), "table"),
        (Some(3), "table"),
    ])));
    assert!(is_admitted(&outline(&[(None, "")])));
}

#[test]
fn outline_without_a_document_or_with_misplaced_parents_is_refused() {
    assert!(!is_admitted(&Vec::new()));
    assert!(!is_admitted(&outline(&[(Some(0), "html")])));
    assert!(!is_admitted(&outline(&[(None, ""), (None, "html")])));
    assert!(!is_admitted(&outline(&[(None, ""), (Some(1), "html")])));
    assert!(!is_admitted(&outline(&[(None, ""), (Some(2), "html"), (Some(0), "body")])));
}

#[test]
fn list_items_in_an_outline() {
    assert!(is_admitted(&chain(&["html", "body", "b", "ul", "li"])));
    assert!(is_admitted(&chain(&["html", "body", "ol", "a", "span", "li"])));
    assert!(is_admitted(&chain(&["html", "body", "menu", "li", "b", "li"])));
    assert!(is_admitted(&chain(&["html", "body", "div", "li", "b"])));
    assert!(!is_admitted(&chain(&["html", "body", "b", "li"])));
    assert!(!is_admitted(&chain(&["html", "body", "a", "div", "span", "li"])));
    // A list above a table cell does not count inside the cell; a kept position does.
    assert!(!is_admitted(&chain(&["html", "body", "b", "ul", "table", "tr", "td", "li"])));
    assert!(!is_admitted(&chain(&["html", "body", "ul", "table", "tr", "th", "i", "li"])));
    assert!(is_admitted(&chain(&["html", "body", "ul", "table", "tr", "td", "li"])));
    assert!(is_admitted(&chain(&["html", "body", "b", "table", "tr", "td", "ul", "li"])));
    // Names are compared as they are.
    assert!(is_admitted(&chain(&["html", "body", "B", "li"])));
    assert!(is_admitted(&chain(&["html", "body", "b", "LI"])));
}

#[test]
fn tables_in_an_outline() {
    assert!(is_admitted(&chain(&["html", "body", "table", "tbody", "tr", "td", "div"])));
    assert!(!is_admitted(&chain(&["html", "body", "table", "tbody", "tr", "td", "table"])));
    assert!(!is_admitted(&chain(&["html", "body", "table", "table"])));
    assert!(!is_admitted(&chain(&["html", "body", "table", "tr", "td", "div", "p", "table", "tr"])));
}

#[test]
fn depth_in_an_outline() {
    let names: Vec<&str> = std::iter::repeat("div").take(MAX_DEPTH).collect();
    assert!(is_admitted(&chain(&names)));
    let names: Vec<&str> = std::iter::repeat("div").take(MAX_DEPTH + 1).collect();
    assert!(!is_admitted(&chain(&names)));
    // Breadth is not depth.
    let mut wide = vec![(None, ""), (Some(0), "html"), (Some(1), "body")];
    for _ in 0..10 * MAX_DEPTH {
        wide.push((Some(2), "p"));
    }
    assert!(is_admitted(&outline(&wide)));
}

#[test]
fn deepest_admitted_table_is_converted() {
    let above = "<div>".repeat(120);
    let inside = "<div><b>".repeat(60);
    let text = format!("{}<table><tr><td>{}x</td><td>y</td></tr></table>", above, inside);
    assert!(is_convertible(&text));
    assert_eq!(to_markdown(&text).map(|t| t.contains("**x**")), Some(true));
    let inside = "<blockquote>".repeat(125);
    let text = format!("{}<ul><li>{}<ol><li><a href=\"u\">x</a>", above, inside);
    assert!(is_convertible(&text));
    assert!(to_markdown(&text).is_some());
}
