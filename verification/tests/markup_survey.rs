use sync_msteams_jira_comments::markup::is_convertible;
use sync_msteams_jira_comments::markup::to_markdown;

const PIECES: &[&str] = &[
    "<div>", "</div>", "<p>", "</p>", "<br>", "<hr>", "<b>", "</b>", "<i>", "</i>", "<s>", "</s>",
    "<strong>", "</strong>", "<em>", "</em>", "<del>", "</del>", "<q>", "</q>", "<cite>", "</cite>",
    "<blockquote>", "</blockquote>", "<a href=\"https://x.example/a b\">", "<a name=\"n\">", "</a>",
    "<li>", "</li>", "<li>", "<ul>", "</ul>", "<ol>", "</ol>", "<menu>", "</menu>", "<h1>", "</h1>", "<h3>",
    "</h3>", "<pre>", "</pre>", "<code class=\"language-rust\">", "</code>", "<span>", "</span>",
    "<sub>", "</sub>", "<details>", "<summary>", "</summary>", "</details>", "<img src=\"u v\" alt=\"é\">",
    "<img src=\"u\" width=\"3\">", "<iframe src=\"https://www.youtube.com/embed/abc\">", "</iframe>",
    "<u>", "</u>", "<td>", "<tr>", "</td>", "<th>", "<table>", "</table>", "<tbody>", "<caption>",
    "<at id=\"0\">", "</at>", "<dd>", "<dt>", "<button>", "</button>", "<select>", "<option>",
    "<textarea>", "</textarea>", "<svg>", "<desc>", "<foreignObject>", "</svg>", "<math>", "<mi>",
    "<template>", "</template>", "<script>", "</script>", "<style>", "</style>", "<title>", "<body>",
    "</body>", "</html>", "<head>", "<frameset>", "<form>", "<input>", "<nobr>", "<font size=\"1\">",
    "<marquee>", "<object>", "<applet>", "<!-- c -->", "<![CDATA[x]]>",
    "text", " ", "\n", "  \n\n ", "é日本", "* item", "# head", "> quote", "a_b*c~d", "&amp;", "&lt;li&gt;",
    "<", ">", "</", "\r\n", "\t", "1. one", "- dash", "\u{a0}", "=== ", "\\", "\0",
];

fn next(seed: &mut u64) -> usize {
    *seed = seed.wrapping_mul(6364136223846793005).wrapping_add(1442695040888963407);
    (*seed >> 33) as usize
}

/// Builds texts from the pieces and converts every one that is admitted.
/// Returns how many were admitted and how many refused.
fn survey(mut seed: u64, cases: usize, longest: usize, pieces: &[&str]) -> (usize, usize) {
    let mut admitted = 0;
    let mut refused = 0;
    for _ in 0..cases {
        let length = 1 + next(&mut seed) % longest;
        let mut text = String::new();
        for _ in 0..length {
            text.push_str(pieces[next(&mut seed) % pieces.len()]);
        }
        if is_convertible(&text) {
            assert!(to_markdown(&text).is_some());
            admitted += 1;
        } else {
            assert!(to_markdown(&text).is_none());
            refused += 1;
        }
    }
    (admitted, refused)
}

#[test]
fn admitted_texts_of_all_pieces_are_converted() {
    let (admitted, refused) = survey(1, 1200, 24, PIECES);
    assert!(admitted > refused);
}

#[test]
fn admitted_texts_of_all_pieces_are_converted_again() {
    let (admitted, refused) = survey(0x9e3779b97f4a7c15, 1200, 24, PIECES);
    assert!(admitted > refused);
}

#[test]
fn admitted_long_texts_of_all_pieces_are_converted() {
    let (admitted, _) = survey(3, 300, 120, PIECES);
    assert!(admitted > 0);
}

#[test]
fn texts_of_lists_emphasis_links_and_quotes_are_surveyed() {
    let pieces = [
        "<ul>", "</ul>", "<ol>", "</ol>", "<li>", "</li>", "<li>", "<b>", "</b>", "<i>", "</i>",
        "<a href=\"u\">", "</a>", "<blockquote>", "</blockquote>", "<q>", "</q>", "<p>", "</p>", "<div>",
        "</div>", "x", " ", "\n", "é", "<br>", "<del>", "</del>", "<pre>", "</pre>",
    ];
    let (admitted, refused) = survey(17, 1500, 16, &pieces);
    assert!(admitted > 0);
    assert!(refused > 0);
}

#[test]
fn texts_of_tables_lists_and_emphasis_are_surveyed() {
    let pieces = [
        "<table>", "</table>", "<tr>", "</tr>", "<td>", "</td>", "<th align=\"center\">", "</th>", "<tbody>",
        "<caption>", "<ul>", "</ul>", "<li>", "</li>", "<b>", "</b>", "<a href=\"u\">", "</a>",
        "<blockquote>", "x", "a much longer cell text", " ", "\n", "é", "<br>", "<pre>", "</pre>", "<p>",
        "<div>", "</div>", "|", "-",
    ];
    let (admitted, refused) = survey(23, 1500, 20, &pieces);
    assert!(admitted > 0);
    assert!(refused > 0);
}

#[test]
fn well_formed_lists_with_emphasis_are_all_converted() {
    let inner = ["x", "<b>y</b>", "<a href=\"u\">z</a>", "<i>w</i> ", "<blockquote>q</blockquote>", "<br>", "\n"];
    let mut seed: u64 = 31;
    for _ in 0..600 {
        let mut text = String::from("<p><strong>intro</strong></p>");
        for _ in 0..1 + next(&mut seed) % 3 {
            let list = if next(&mut seed) % 2 == 0 { "ul" } else { "ol" };
            text.push_str(&format!("<{}>", list));
            for _ in 0..1 + next(&mut seed) % 5 {
                text.push_str("<li>");
                for _ in 0..next(&mut seed) % 4 {
                    text.push_str(inner[next(&mut seed) % inner.len()]);
                }
                if next(&mut seed) % 4 == 0 {
                    text.push_str("<ul><li><em>nested</em></li></ul>");
                }
                text.push_str("</li>");
            }
            text.push_str(&format!("</{}>", list));
        }
        assert!(is_convertible(&text));
        assert!(to_markdown(&text).is_some());
    }
}
