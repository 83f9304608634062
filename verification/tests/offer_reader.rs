use bytes::Bytes;
use cursor_clip::offer_reader::{assemble_payloads, read_targets};

fn strings(v: &[&str]) -> Vec<String> {
    v.iter().map(|s| s.to_string()).collect()
}

#[test]
fn all_types_are_read_when_none_is_an_image() {
    let mimes = strings(&["text/html", "text/plain;charset=utf-8", "UTF8_STRING"]);
    assert_eq!(read_targets(&mimes), mimes);
    assert_eq!(read_targets(&Vec::new()), Vec::<String>::new());
}

#[test]
fn png_is_preferred_among_images() {
    let mimes = strings(&["image/bmp", "text/html", "image/jpeg", "image/png"]);
    assert_eq!(read_targets(&mimes), strings(&["image/png"]));
}

#[test]
fn jpeg_is_preferred_to_bmp() {
    let mimes = strings(&["image/bmp", "image/jpeg", "image/webp", "text/plain"]);
    assert_eq!(read_targets(&mimes), strings(&["image/jpeg"]));
}

#[test]
fn bmp_is_preferred_to_other_images() {
    let mimes = strings(&["image/webp", "image/bmp"]);
    assert_eq!(read_targets(&mimes), strings(&["image/bmp"]));
}

#[test]
fn first_image_is_read_when_none_is_preferred() {
    let mimes = strings(&["text/plain", "image/webp", "image/gif"]);
    assert_eq!(read_targets(&mimes), strings(&["image/webp"]));
}

#[test]
fn image_must_be_a_prefix_of_the_type() {
    let mimes = strings(&["x-image/png", "text/plain"]);
    assert_eq!(read_targets(&mimes), mimes);
}

#[test]
fn payloads_are_gathered_in_order() {
    let reads = vec![
        ("text/html".to_string(), Some(b"<b>x</b>".to_vec())),
        ("text/plain".to_string(), Some(b"x".to_vec())),
    ];
    let map = assemble_payloads(reads);
    let pairs: Vec<(&String, &Bytes)> = map.iter().collect();
    assert_eq!(pairs.len(), 2);
    assert_eq!(pairs[0].0, "text/html");
    assert_eq!(pairs[0].1.as_ref(), b"<b>x</b>");
    assert_eq!(pairs[1].0, "text/plain");
    assert_eq!(pairs[1].1.as_ref(), b"x");
}

#[test]
fn empty_and_failed_reads_are_skipped() {
    let reads = vec![
        ("a/failed".to_string(), None),
        ("b/empty".to_string(), Some(Vec::new())),
        ("c/good".to_string(), Some(vec![1, 2, 3])),
        ("d/failed".to_string(), None),
        ("e/good".to_string(), Some(vec![4])),
    ];
    let map = assemble_payloads(reads);
    let keys: Vec<&String> = map.keys().collect();
    assert_eq!(keys, vec!["c/good", "e/good"]);
    assert_eq!(map["c/good"].as_ref(), &[1, 2, 3]);
    assert_eq!(map["e/good"].as_ref(), &[4]);
}

#[test]
fn nothing_read_gives_an_empty_map() {
    assert!(assemble_payloads(Vec::new()).is_empty());
    assert!(assemble_payloads(vec![("a".to_string(), None)]).is_empty());
}

#[test]
fn a_type_read_twice_keeps_its_place_and_the_later_bytes() {
    let reads = vec![
        ("a".to_string(), Some(vec![1])),
        ("b".to_string(), Some(vec![2])),
        ("a".to_string(), Some(vec![3, 3])),
        ("a".to_string(), Some(Vec::new())),
    ];
    let map = assemble_payloads(reads);
    let keys: Vec<&String> = map.keys().collect();
    assert_eq!(keys, vec!["a", "b"]);
    assert_eq!(map["a"].as_ref(), &[3, 3]);
}
