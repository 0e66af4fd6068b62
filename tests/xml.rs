use modem::xml::get_value_from_tag;

#[test]
fn first_element_text_is_read() {
    let xml = "<?xml version=\"1.0\" encoding=\"UTF-8\"?>\n<response>\n<SesInfo>SessionID=abc</SesInfo>\n<TokInfo>tok&amp;1</TokInfo>\n</response>";
    assert_eq!(get_value_from_tag(xml, "SesInfo"), Some("SessionID=abc".to_string()));
    assert_eq!(get_value_from_tag(xml, "TokInfo"), Some("tok&1".to_string()));
}

#[test]
fn missing_element_gives_none() {
    assert_eq!(get_value_from_tag("<response><a>1</a></response>", "b"), None);
    assert_eq!(get_value_from_tag("", "b"), None);
}

#[test]
fn empty_element_gives_empty_text() {
    assert_eq!(get_value_from_tag("<r><a></a></r>", "a"), Some(String::new()));
}

#[test]
fn first_of_two_elements_wins() {
    assert_eq!(get_value_from_tag("<r><a>1</a><a>2</a></r>", "a"), Some("1".to_string()));
}

#[test]
fn malformed_input_before_element_gives_none() {
    assert_eq!(get_value_from_tag("<r></x><a>1</a>", "a"), None);
}
