use minimize_ytm::toast::toast_xml;

#[test]
fn toast_xml_has_image_title_and_artist() {
    let xml = toast_xml("Song", "Singer", "C:\\tmp\\ytm_thumbnail.png");
    let expected = r#"<toast>
            <audio silent="true"/>
            <visual>
                <binding template="ToastImageAndText02">
                    <image id="1" src="C:\tmp\ytm_thumbnail.png" hint-crop="circle"/>
                    <text id="1"> Song </text>
                    <text id="2"> Singer </text>
                </binding>
            </visual>
        </toast>"#;
    assert_eq!(xml, expected);
}

#[test]
fn toast_xml_with_empty_fields() {
    let xml = toast_xml("", "", "");
    assert!(xml.contains("src=\"\" hint-crop"));
    assert!(xml.contains("<text id=\"1\">  </text>"));
    assert!(xml.contains("<text id=\"2\">  </text>"));
}
