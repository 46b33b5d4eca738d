use svgr_rs::decode_xml::decode_xml;

#[test]
fn escape_xml_text() {
    let test_cases = vec![
        ("&amp;amp;", "&amp;"),
        ("&amp;#38;", "&#38;"),
        ("&amp;#x26;", "&#x26;"),
        ("&#38;#38;", "&#38;"),
        ("&#x26;#38;", "&#38;"),
        ("&#x3a;", ":"),
        ("&>", "&>"),
        ("id=770&#anchor", "id=770&#anchor"),
    ];
    test_cases.into_iter().for_each(|(input, expected)| {
        assert_eq!(decode_xml(input), expected);
    });
}

#[test]
fn decodes_named_entities() {
    assert_eq!(decode_xml("&lt;a&gt; &quot;b&quot; &apos;c&apos;"), "<a> \"b\" 'c'");
}

#[test]
fn decodes_decimal_and_hex_references() {
    assert_eq!(decode_xml("&#65;&#x42;&#X43;"), "ABC");
}

#[test]
fn keeps_unknown_and_invalid_references() {
    assert_eq!(decode_xml("&nbsp;"), "&nbsp;");
    assert_eq!(decode_xml("&#xD800;"), "&#xD800;");
    assert_eq!(decode_xml("&#99999999999;"), "&#99999999999;");
    assert_eq!(decode_xml("&#;"), "&#;");
    assert_eq!(decode_xml(""), "");
}
