use ghostscript::device_list::DeviceList;

#[test]
fn names_are_joined_by_single_spaces() {
    assert_eq!(DeviceList::new("x11").as_str(), "x11");
    assert_eq!(DeviceList::new("x11 png16m").as_str(), "x11 png16m");
    assert_eq!(DeviceList::new("  x11   png16m\tbbox \n").as_str(), "x11 png16m bbox");
    assert_eq!(DeviceList::new("\r\nx11\u{a0}bbox\u{3000}").as_str(), "x11 bbox");
    assert_eq!(DeviceList::new("a").as_str(), "a");
    assert_eq!(DeviceList::new(" a").as_str(), "a");
    assert_eq!(DeviceList::new("a ").as_str(), "a");
}

#[test]
fn a_text_without_names_is_the_empty_list() {
    assert_eq!(DeviceList::new("").as_str(), "");
    assert_eq!(DeviceList::new(" \t \n").as_str(), "");
    assert_eq!(DeviceList::default().as_str(), "");
    assert_eq!(DeviceList::new(" "), DeviceList::default());
}

#[test]
fn names_keep_their_characters() {
    assert_eq!(DeviceList::new("pdfwrite\u{e9}  \u{1f5a8}dev").as_str(), "pdfwrite\u{e9} \u{1f5a8}dev");
}

#[test]
fn normalizing_twice_changes_nothing() {
    for text in ["", "x11", "  a  b\tc ", "png16m\n\njpeg", "\u{2003}a\u{2003}"] {
        let once = DeviceList::new(text);
        let twice = DeviceList::new(once.as_str());
        assert_eq!(once, twice);
    }
}

#[test]
fn the_names_of_a_list() {
    assert_eq!(DeviceList::new(" x11  png16m bbox").names(), vec!["x11", "png16m", "bbox"]);
    assert_eq!(DeviceList::new("x11").names(), vec!["x11"]);
    assert_eq!(DeviceList::new("").names(), Vec::<String>::new());
    assert_eq!(DeviceList::new("a b").names().join(" "), DeviceList::new("a b").as_str());
}

#[test]
fn extending_appends_names_in_order() {
    let mut list = DeviceList::new("x11");
    list.extend(&["png16m", "  bbox  jpeg ", "", "   ", "tiff24nc"]);
    assert_eq!(list.as_str(), "x11 png16m bbox jpeg tiff24nc");
    list.extend(&[]);
    assert_eq!(list.as_str(), "x11 png16m bbox jpeg tiff24nc");
    let mut empty = DeviceList::default();
    empty.extend(&["", " "]);
    assert_eq!(empty.as_str(), "");
    empty.extend(&[" a"]);
    assert_eq!(empty.as_str(), "a");
}

#[test]
fn a_list_from_several_texts() {
    assert_eq!(DeviceList::from_iter(&["x11", "png16m bbox"]).as_str(), "x11 png16m bbox");
    assert_eq!(DeviceList::from_iter(&[]).as_str(), "");
    assert_eq!(DeviceList::from_iter(&["a b"]), DeviceList::new("a   b"));
    assert_ne!(DeviceList::from_iter(&["a b"]), DeviceList::new("ab"));
}

#[test]
fn lists_are_equal_when_their_names_are() {
    assert_eq!(DeviceList::new("a b"), DeviceList::new(" a\tb "));
    assert_ne!(DeviceList::new("a b"), DeviceList::new("b a"));
    assert_eq!(DeviceList::new("a b").clone(), DeviceList::new("a b"));
}
