use radio_bot::posts::pick_post;

const LISTING: &str = r#"<?xml version="1.0" encoding="UTF-8"?>
<posts count="3" offset="0">
  <post id="1" file_url="https://img.example/1.png"/>
  <tag name="x"/>
  <post id="2" file_url="https://img.example/2.png"/>
  <post id="3"/>
</posts>"#;

#[test]
fn picks_post_by_draw() {
    assert_eq!(pick_post(LISTING, 0), Some(String::from("https://img.example/1.png")));
    assert_eq!(pick_post(LISTING, 1), Some(String::from("https://img.example/2.png")));
    assert_eq!(pick_post(LISTING, 2), None);
    assert_eq!(pick_post(LISTING, 4), Some(String::from("https://img.example/2.png")));
}

#[test]
fn no_posts_or_no_xml() {
    assert_eq!(pick_post("<posts count=\"0\"/>", 7), None);
    assert_eq!(pick_post("not xml <", 0), None);
}
