use example_mapp::assets::split_stem;
use regex::Regex;

fn by_pattern(stem: &str) -> Option<(String, String)> {
    let pattern = Regex::new(r"^(?P<name>.*)_\((?P<scale>.*?)\)$").unwrap();
    let captures = pattern.captures(stem)?;
    Some((
        captures.name("name").unwrap().as_str().to_string(),
        captures.name("scale").unwrap().as_str().to_string(),
    ))
}

fn by_split(stem: &str) -> Option<(String, String)> {
    let at = split_stem(stem.as_bytes())?;
    Some((stem[..at].to_string(), stem[at + 2..stem.len() - 1].to_string()))
}

#[test]
fn stem_falls_into_name_and_scale() {
    assert_eq!(split_stem(b"teapot_(0.5)"), Some(6));
    assert_eq!(by_split("teapot_(0.5)"), Some(("teapot".to_string(), "0.5".to_string())));
    assert_eq!(by_split("_()"), Some(("".to_string(), "".to_string())));
}

#[test]
fn stem_splits_at_the_last_separator() {
    assert_eq!(split_stem(b"a_(1)_(2)"), Some(5));
    assert_eq!(by_split("a_(1)_(2)"), Some(("a_(1)".to_string(), "2".to_string())));
    assert_eq!(by_split("a_(_(3)"), Some(("a_(".to_string(), "3".to_string())));
}

#[test]
fn stem_without_scale_does_not_split() {
    assert_eq!(split_stem(b""), None);
    assert_eq!(split_stem(b"teapot"), None);
    assert_eq!(split_stem(b"teapot_(0.5"), None);
    assert_eq!(split_stem(b"teapot(0.5)"), None);
    assert_eq!(split_stem(b"teapot_0.5)"), None);
    assert_eq!(split_stem(b"_("), None);
    assert_eq!(split_stem(b"()"), None);
    assert_eq!(split_stem(b"tea\npot_(0.5)"), None);
    assert_eq!(split_stem(b"teapot_(0.5)\n"), None);
    assert_eq!(split_stem(b"teapot_(0\n5)"), None);
}

#[test]
fn stem_splits_where_the_pattern_matches() {
    let pieces = ["", "a", "_", "(", ")", "_(", "()", "1.5", "\n", "é", " "];
    let mut stems: Vec<String> = vec![String::new()];
    for _ in 0..4 {
        let mut longer = Vec::new();
        for stem in &stems {
            for piece in pieces {
                longer.push(format!("{}{}", stem, piece));
            }
        }
        stems = longer;
    }
    assert_eq!(stems.len(), 11 * 11 * 11 * 11);
    let mut matched = 0;
    for stem in &stems {
        let expected = by_pattern(stem);
        if expected.is_some() {
            matched += 1;
        }
        assert_eq!(by_split(stem), expected, "stem {:?}", stem);
    }
    assert!(matched > 100);
}
