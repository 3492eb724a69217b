use lursystem::html::escape;

#[test]
fn five_characters_are_escaped() {
    assert_eq!(escape("&<>\"'"), "&amp;&lt;&gt;&quot;&#39;");
    assert_eq!(escape("a & b"), "a &amp; b");
    assert_eq!(escape("&amp;"), "&amp;amp;");
    assert_eq!(escape("åäö — ✓"), "åäö — ✓");
    assert_eq!(escape(""), "");
}

#[test]
fn escaped_text_holds_no_markup() {
    let text = escape("<script>alert('x')</script> \"&\"");
    assert!(!text.contains('<') && !text.contains('>'));
    assert!(!text.contains('"') && !text.contains('\''));
}

#[test]
fn escaped_texts_stay_apart() {
    let texts = ["<", "&lt;", "&amp;lt;", "'", "&#39;", "\""];
    for a in texts {
        for b in texts {
            assert_eq!(escape(a) == escape(b), a == b);
        }
    }
}
