use chrono::Datelike;
use podcast_feed::feed::{BuildError, FeedGenerator, MediaFile};

fn media_file(name: &str, stem: &str, extension: &str, byte_len: Option<u64>) -> MediaFile {
    MediaFile {
        name: name.to_owned(),
        stem: stem.to_owned(),
        extension: extension.to_owned(),
        byte_len,
    }
}

fn generator() -> FeedGenerator {
    FeedGenerator {
        title: "Feed Title 1".to_owned(),
        base_url: "https://eg.test".to_owned(),
        image: None,
    }
}

fn get_child_node_text<'a>(parent: &roxmltree::Node<'a, 'a>, child_tag: &str) -> &'a str {
    parent
        .descendants()
        .find(|n| n.tag_name().name() == child_tag)
        .unwrap()
        .text()
        .unwrap()
}

fn assert_contains(haystack: &str, needle: &str) {
    assert!(
        haystack.contains(needle),
        "expected string to contain {:?}, got:\n\n{}\n\n",
        needle,
        haystack
    );
}

fn expected_pub_date(days_back: u64) -> String {
    chrono::Utc::now()
        .date_naive()
        .checked_sub_days(chrono::Days::new(days_back))
        .unwrap()
        .and_hms_opt(0, 0, 0)
        .unwrap()
        .and_utc()
        .to_rfc2822()
}

#[test]
fn generates_xml_for_files() {
    let file = media_file("file1.mp3", "file1", "mp3", Some(6));
    let generator = generator();
    let result = generator.generate_for_files(vec![file]);
    assert!(result.is_ok(), "expected generate_for_files to return ok");
    let feed = String::from_utf8(result.unwrap()).unwrap();
    assert_contains(&feed, "<title>Feed Title 1</title>");
    assert_contains(&feed, "xmlns:itunes");
    assert_contains(&feed, "<itunes:block>Yes</itunes:block>");
    assert_contains(
        &feed,
        "url=\"https://eg.test/file1.mp3\" length=\"6\" type=\"audio/mpeg\"",
    );
    assert_contains(&feed, "<title>file1</title>");
}

#[test]
fn returns_error_if_file_does_not_exist() {
    let file = media_file("invalid-file-1.mp3", "invalid-file-1", "mp3", None);
    let generator = generator();
    let result = generator.generate_for_files(vec![file]);
    assert!(
        result.is_err(),
        "expected generate_for_files to return an error"
    );
}

#[test]
fn outputs_correct_mime_type() {
    assert_eq!(FeedGenerator::mime_type("mp3").unwrap(), "audio/mpeg");
    assert_eq!(FeedGenerator::mime_type("mp4").unwrap(), "audio/mp4");
    assert_eq!(FeedGenerator::mime_type("aac").unwrap(), "audio/aac");
    assert_eq!(FeedGenerator::mime_type("m4a").unwrap(), "audio/mp4");
}

#[test]
fn rejects_unrecognized_extension() {
    assert_eq!(
        FeedGenerator::mime_type("wav"),
        Err(BuildError::UnsupportedExtension)
    );
    assert_eq!(
        FeedGenerator::mime_type("MP3"),
        Err(BuildError::UnsupportedExtension)
    );
    assert_eq!(
        FeedGenerator::mime_type(""),
        Err(BuildError::UnsupportedExtension)
    );
}

#[test]
fn pub_dates_go_in_reverse() {
    let files = vec![
        media_file("name1.mp3", "file1", "mp3", Some(123)),
        media_file("name1.mp3", "file2", "mp3", Some(123)),
        media_file("name1.mp3", "file3", "mp3", Some(123)),
    ];
    let generator = generator();
    let bytes = generator.generate_for_files(files).unwrap();
    let feed = String::from_utf8(bytes).unwrap();
    let doc = roxmltree::Document::parse(&feed).unwrap();
    let items: Vec<roxmltree::Node> = doc
        .descendants()
        .filter(|n| n.tag_name().name() == "item")
        .collect();
    assert_eq!(items.len(), 3);
    let item = items.get(0).unwrap();
    assert_eq!(get_child_node_text(item, "title"), "file1");
    assert_eq!(get_child_node_text(item, "pubDate"), expected_pub_date(0));
    let item = items.get(1).unwrap();
    assert_eq!(get_child_node_text(item, "title"), "file2");
    assert_eq!(get_child_node_text(item, "pubDate"), expected_pub_date(1));
    let item = items.get(2).unwrap();
    assert_eq!(get_child_node_text(item, "title"), "file3");
    assert_eq!(get_child_node_text(item, "pubDate"), expected_pub_date(2));
}

#[test]
fn handles_special_chars_in_filenames() {
    let files = vec![media_file("a+b c&d.mp3", "a+b c&d", "mp3", Some(123))];
    let generator = generator();
    let bytes = generator.generate_for_files(files).unwrap();
    let feed = String::from_utf8(bytes).unwrap();
    let doc = roxmltree::Document::parse(&feed).unwrap();
    let item = doc
        .descendants()
        .find(|n| n.tag_name().name() == "item")
        .unwrap();
    assert_eq!(get_child_node_text(&item, "title"), "a+b c&d");
    let enclosure = doc
        .descendants()
        .find(|n| n.tag_name().name() == "enclosure")
        .unwrap();
    assert_eq!(
        enclosure.attribute("url"),
        Some("https://eg.test/a%2Bb%20c%26d.mp3")
    );
}

#[test]
fn replaces_underscores_with_spaces_in_title() {
    let files = vec![media_file("ab_cd.mp3", "ab_cd", "mp3", Some(123))];
    let generator = generator();
    let bytes = generator.generate_for_files(files).unwrap();
    let feed = String::from_utf8(bytes).unwrap();
    let doc = roxmltree::Document::parse(&feed).unwrap();
    let item = doc
        .descendants()
        .find(|n| n.tag_name().name() == "item")
        .unwrap();
    assert_eq!(get_child_node_text(&item, "title"), "ab cd");
    let enclosure = doc
        .descendants()
        .find(|n| n.tag_name().name() == "enclosure")
        .unwrap();
    assert_eq!(enclosure.attribute("url"), Some("https://eg.test/ab_cd.mp3"));
}

#[test]
fn empty_file_list_gives_feed_without_items() {
    let generator = generator();
    let bytes = generator.generate_for_files(Vec::<MediaFile>::new()).unwrap();
    let feed = String::from_utf8(bytes).unwrap();
    let doc = roxmltree::Document::parse(&feed).unwrap();
    assert!(doc
        .descendants()
        .all(|n| n.tag_name().name() != "item"));
    assert_contains(&feed, "<title>Feed Title 1</title>");
}

#[test]
fn first_faulty_file_decides_the_error() {
    let generator = generator();
    let files = vec![
        media_file("good.mp3", "good", "mp3", Some(1)),
        media_file("bad.wav", "bad", "wav", Some(1)),
        media_file("unreadable.mp3", "unreadable", "mp3", None),
    ];
    assert_eq!(
        generator.generate_for_files(files),
        Err(BuildError::UnsupportedExtension)
    );
    let files = vec![
        media_file("unreadable.mp3", "unreadable", "mp3", None),
        media_file("bad.wav", "bad", "wav", Some(1)),
    ];
    assert_eq!(
        generator.generate_for_files(files),
        Err(BuildError::UnreadableFile)
    );
}

#[test]
fn three_items_keep_input_order_and_dates() {
    let generator = generator();
    let files = vec![
        media_file("file1.mp3", "file1", "mp3", Some(1)),
        media_file("file2.mp3", "file2", "mp3", Some(2)),
        media_file("file3.mp3", "file3", "mp3", Some(3)),
    ];
    let today = chrono::Utc::now().date_naive().num_days_from_ce();
    let channel = generator.build_channel(&files, today).unwrap();
    assert_eq!(channel.items.len(), 3);
    for (i, item) in channel.items.iter().enumerate() {
        assert_eq!(item.pub_day, today - i as i32);
        assert_eq!(item.pub_date, expected_pub_date(i as u64));
    }
    assert!(channel.block);
}

#[test]
fn channel_artwork_comes_from_the_image_path() {
    let mut generator = generator();
    generator.image = Some("art dir/cover 1.png".to_owned());
    let files = vec![media_file("file1.mp3", "file1", "mp3", Some(6))];
    let channel = generator.build_channel(&files, 738_000).unwrap();
    assert_eq!(
        channel.image.as_deref(),
        Some("https://eg.test/cover%201.png")
    );
}


#[test]
fn serialization_is_deterministic() {
    let generator = generator();
    let files = vec![
        media_file("a+b c&d.mp3", "a+b c&d", "mp3", Some(6)),
        media_file("file2.mp3", "file_2", "mp3", Some(123)),
    ];
    let channel = generator.build_channel(&files, 738_000).unwrap();
    let first = channel.to_xml();
    let second = channel.to_xml();
    assert_eq!(first, second);
    assert!(!first.is_empty());
}
