use rpc_worker::text::sanitize_surrogates;
use rpc_worker::export::{
    build_anki_back_field, build_csv, encode_html, escape_csv_cell, is_blank, normalize_lower,
    sanitize_pdf_text, Term,
};

fn term(t: &str, d: &str, cn: Option<&str>) -> Term {
    Term {
        id: 1,
        term: t.to_string(),
        definition: d.to_string(),
        definition_cn: cn.map(|s| s.to_string()),
        review_stage: 0,
        last_reviewed_at: None,
    }
}

#[test]
fn csv_cells_are_quoted() {
    assert_eq!(escape_csv_cell("plain"), "\"plain\"");
    assert_eq!(escape_csv_cell("say \"hi\""), "\"say \"\"hi\"\"\"");
    assert_eq!(escape_csv_cell(""), "\"\"");
}

#[test]
fn csv_has_header_and_one_line_per_term() {
    let terms = vec![term("Neural Network", "An interconnected group of nodes.", None), term("a,b", "x", Some("中文"))];
    let csv = build_csv(&terms).unwrap();
    assert_eq!(
        csv,
        "Term,Definition,Definition (zh-CN)\n\"Neural Network\",\"An interconnected group of nodes.\",\"\"\n\"a,b\",\"x\",\"中文\"\n"
    );
    assert_eq!(build_csv(&[]).unwrap(), "Term,Definition,Definition (zh-CN)\n");
}

#[test]
fn html_is_escaped() {
    assert_eq!(encode_html("<a href=\"x\">Tom & Jerry's</a>"), "&lt;a href=&quot;x&quot;&gt;Tom &amp; Jerry&#39;s&lt;/a&gt;");
    assert_eq!(encode_html("plain"), "plain");
}

#[test]
fn anki_back_field_layout() {
    assert_eq!(build_anki_back_field("a<b\nc", None), "a&lt;b<br>c");
    assert_eq!(
        build_anki_back_field("def", Some("第一\n第二")),
        "def<br><div class=\"definition-cn\">第一<br>第二</div>"
    );
    assert_eq!(build_anki_back_field("def", Some("  \n")), "def");
}

#[test]
fn lower_case_is_ascii_only() {
    assert_eq!(normalize_lower("OpenAI GPT-4"), "openai gpt-4");
    assert_eq!(normalize_lower("ÄÖ"), "ÄÖ");
}

#[test]
fn pdf_text_is_cleaned() {
    assert_eq!(sanitize_pdf_text("a\r\nb\rc\td"), "a\nb\nc    d");
    assert_eq!(sanitize_pdf_text("\r\r\n\n"), "\n\n\n");
}

#[test]
fn blank_detection() {
    assert!(is_blank(""));
    assert!(is_blank(" \t\n"));
    assert!(!is_blank(" x "));
}

#[test]
fn surrogate_filter_keeps_every_rust_char() {
    assert_eq!(sanitize_surrogates("abc".to_string()), "abc");
    assert_eq!(sanitize_surrogates("\u{d7ff}\u{e000}𝄞".to_string()), "\u{d7ff}\u{e000}𝄞");
}
