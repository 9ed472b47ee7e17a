use meme_viewer::coordinator::{gather, run_fetched};
use meme_viewer::descriptor::{filter_locations, is_accepted_location};
use meme_viewer::feed::{collect_descriptors, extract_locations, member, urls_from_feed, JsonValue};
use meme_viewer::retry::{AttemptState, Decision, DEFAULT_MAX_ATTEMPTS, DEFAULT_RETRY_DELAY_MS};
use meme_viewer::worker::{pack_rgb, process_fetched, received_body, FetchOutcome, WorkerFailure};

const W: u32 = 400;
const H: u32 = 300;

fn strings(items: &[&str]) -> Vec<String> {
    items.iter().map(|s| s.to_string()).collect()
}

fn obj(fields: Vec<(&str, JsonValue)>) -> JsonValue {
    JsonValue::Object(fields.into_iter().map(|(k, v)| (k.to_string(), v)).collect())
}

fn post(url: &str) -> JsonValue {
    obj(vec![("data", obj(vec![("title", JsonValue::Str("t".to_string())), ("url", JsonValue::Str(url.to_string()))]))])
}

fn feed(posts: Vec<JsonValue>) -> JsonValue {
    obj(vec![("kind", JsonValue::Str("Listing".to_string())), ("data", obj(vec![("children", JsonValue::Array(posts))]))])
}

fn png_bytes(width: u32, height: u32, rgb: [u8; 3]) -> Vec<u8> {
    let img = image::RgbImage::from_pixel(width, height, image::Rgb(rgb));
    let mut bytes: Vec<u8> = Vec::new();
    image::DynamicImage::ImageRgb8(img)
        .write_to(&mut std::io::Cursor::new(&mut bytes), image::ImageOutputFormat::Png)
        .unwrap();
    bytes
}

fn received(body: Vec<u8>) -> FetchOutcome {
    FetchOutcome::Received { status: 200, body }
}

#[test]
fn filter_keeps_example_locations() {
    let input = strings(&["a.jpg", "b.txt", "https://v.redd.it/x"]);
    assert_eq!(filter_locations(&input), strings(&["a.jpg", "https://v.redd.it/x"]));
}

#[test]
fn filter_accepts_each_suffix_and_marker() {
    assert!(is_accepted_location("https://i.example.com/a.jpg"));
    assert!(is_accepted_location("https://i.example.com/a.png"));
    assert!(is_accepted_location("https://i.example.com/a.gif"));
    assert!(is_accepted_location("https://v.redd.it/abc123"));
    assert!(!is_accepted_location("https://i.example.com/a.jpeg"));
    assert!(!is_accepted_location("https://i.example.com/a.JPG"));
    assert!(!is_accepted_location("https://i.example.com/a.jpg?x=1"));
    assert!(!is_accepted_location(""));
    assert!(!is_accepted_location("jpg"));
}

#[test]
fn filter_keeps_order_and_duplicates() {
    let input = strings(&["z.png", "y.html", "z.png", "a.gif", ".jpg"]);
    assert_eq!(filter_locations(&input), strings(&["z.png", "z.png", "a.gif", ".jpg"]));
    assert_eq!(filter_locations(&Vec::new()), Vec::<String>::new());
}

#[test]
fn member_finds_field_or_none() {
    let doc = obj(vec![("a", JsonValue::Number), ("b", JsonValue::Bool(true))]);
    assert!(matches!(member(&doc, &"b".to_string()), Some(JsonValue::Bool(true))));
    assert!(member(&doc, &"c".to_string()).is_none());
    assert!(member(&JsonValue::Array(vec![]), &"a".to_string()).is_none());
}

#[test]
fn feed_yields_matching_urls_in_order() {
    let doc = feed(vec![
        post("https://i.example.com/1.jpg"),
        post("https://example.com/article"),
        obj(vec![("data", obj(vec![("title", JsonValue::Str("no url".to_string()))]))]),
        obj(vec![("data", obj(vec![("url", JsonValue::Number)]))]),
        post("https://v.redd.it/clip"),
        post("https://i.example.com/2.gif"),
    ]);
    assert_eq!(
        extract_locations(&doc),
        strings(&["https://i.example.com/1.jpg", "https://example.com/article", "https://v.redd.it/clip", "https://i.example.com/2.gif"])
    );
    assert_eq!(
        urls_from_feed(&doc),
        strings(&["https://i.example.com/1.jpg", "https://v.redd.it/clip", "https://i.example.com/2.gif"])
    );
}

#[test]
fn malformed_feeds_yield_nothing() {
    let docs = vec![
        JsonValue::Null,
        JsonValue::Array(vec![post("a.jpg")]),
        obj(vec![("kind", JsonValue::Str("Listing".to_string()))]),
        obj(vec![("data", JsonValue::Str("x".to_string()))]),
        obj(vec![("data", obj(vec![("children", obj(vec![("0", post("a.jpg"))]))]))]),
        obj(vec![("data", obj(vec![("children", JsonValue::Str("a.jpg".to_string()))]))]),
    ];
    for doc in docs.iter() {
        assert!(urls_from_feed(doc).is_empty());
    }
}

#[test]
fn collect_flattens_sources_and_skips_failed_ones() {
    let responses = vec![
        Some(feed(vec![post("a.jpg"), post("b.txt")])),
        None,
        Some(JsonValue::Null),
        Some(feed(vec![post("a.jpg"), post("c.png")])),
    ];
    assert_eq!(collect_descriptors(&responses), strings(&["a.jpg", "a.jpg", "c.png"]));
    assert!(collect_descriptors(&vec![None, None]).is_empty());
}

#[test]
fn pack_rgb_packs_channels() {
    let rgb = vec![1u8, 2, 3, 255, 0, 128, 0, 255, 0];
    assert_eq!(pack_rgb(&rgb), vec![0x010203u32, 0xFF0080, 0x00FF00]);
    assert_eq!(pack_rgb(&vec![9u8, 8, 7, 6, 5]), vec![0x090807u32]);
    assert!(pack_rgb(&vec![]).is_empty());
}

#[test]
fn received_body_checks_status() {
    let ok = received(vec![1, 2]);
    assert_eq!(received_body(&ok), Ok(&vec![1u8, 2]));
    let moved = FetchOutcome::Received { status: 301, body: vec![] };
    assert_eq!(received_body(&moved), Err(WorkerFailure::BadStatus(301)));
    assert_eq!(received_body(&FetchOutcome::Unreachable), Err(WorkerFailure::ItemUnreachable));
}

#[test]
fn worker_reports_each_failure() {
    assert_eq!(process_fetched(&FetchOutcome::Unreachable, W, H), Err(WorkerFailure::ItemUnreachable));
    assert_eq!(process_fetched(&FetchOutcome::BodyUnreadable, W, H), Err(WorkerFailure::PayloadUnreadable));
    let missing = FetchOutcome::Received { status: 404, body: png_bytes(2, 2, [0, 0, 0]) };
    assert_eq!(process_fetched(&missing, W, H), Err(WorkerFailure::BadStatus(404)));
    assert_eq!(process_fetched(&received(b"<html>not an image</html>".to_vec()), W, H), Err(WorkerFailure::UnknownFormat));
    let mut truncated = png_bytes(8, 8, [1, 2, 3]);
    truncated.truncate(20);
    assert_eq!(process_fetched(&received(truncated), W, H), Err(WorkerFailure::Undecodable));
}

#[test]
fn worker_output_has_target_length() {
    for (w, h) in [(7u32, 5u32), (400, 300), (1000, 20)] {
        let out = process_fetched(&received(png_bytes(w, h, [10, 20, 30])), W, H).unwrap();
        assert_eq!(out.len(), (W * H) as usize);
        assert!(out.iter().all(|p| *p == 0x0A141E));
    }
    let small = process_fetched(&received(png_bytes(3, 3, [255, 255, 255])), 2, 1).unwrap();
    assert_eq!(small, vec![0xFFFFFFu32, 0xFFFFFF]);
}

#[test]
fn gather_conserves_results() {
    let results: Vec<Result<Vec<u32>, WorkerFailure>> = vec![
        Ok(vec![1, 2]),
        Err(WorkerFailure::Undecodable),
        Ok(vec![3, 4]),
        Err(WorkerFailure::ItemUnreachable),
        Err(WorkerFailure::BadStatus(500)),
    ];
    let run = gather(&results);
    assert_eq!(run.buffers, vec![vec![1u32, 2], vec![3, 4]]);
    assert_eq!(run.discarded, 3);
    assert_eq!(run.buffers.len() + run.discarded, results.len());
    assert_eq!(run.usable(), 2);
    let none = gather(&vec![]);
    assert!(none.is_empty());
    assert_eq!(none.discarded, 0);
}

#[test]
fn run_twice_on_same_content_has_same_size() {
    let fetched = vec![
        received(png_bytes(4, 4, [1, 1, 1])),
        FetchOutcome::Unreachable,
        received(vec![0, 1, 2, 3]),
        received(png_bytes(9, 2, [5, 6, 7])),
    ];
    let first = run_fetched(&fetched, W, H);
    let second = run_fetched(&fetched, W, H);
    assert_eq!(first.usable(), 2);
    assert_eq!(second.usable(), first.usable());
    assert_eq!(first.discarded, 2);
    assert_eq!(first.buffers.len() + first.discarded, fetched.len());
}

#[test]
fn retry_stops_after_max_attempts() {
    let mut state = AttemptState::with_defaults();
    assert_eq!(state.max_attempts, DEFAULT_MAX_ATTEMPTS);
    assert_eq!(DEFAULT_MAX_ATTEMPTS, 3);
    let mut decisions = Vec::new();
    loop {
        let d = state.evaluate(0);
        decisions.push(d);
        if d != Decision::Retry(DEFAULT_RETRY_DELAY_MS) {
            break;
        }
    }
    assert_eq!(decisions, vec![Decision::Retry(5000), Decision::Retry(5000), Decision::Exhausted]);
    assert_eq!(state.attempt, 3);
    assert_eq!(state.evaluate(0), Decision::Exhausted);
}

#[test]
fn retry_succeeds_on_usable_run() {
    let mut state = AttemptState::new(5, 250);
    assert_eq!(state.evaluate(0), Decision::Retry(250));
    assert_eq!(state.attempt, 2);
    assert_eq!(state.evaluate(4), Decision::Success);
    assert_eq!(state.attempt, 2);
    let mut single = AttemptState::new(1, 10);
    assert_eq!(single.evaluate(0), Decision::Exhausted);
}

#[test]
fn two_urls_decode_and_succeed_on_first_attempt() {
    let doc = feed(vec![post("https://i.example.com/a.png"), post("https://i.example.com/b.jpg"), post("https://example.com/c")]);
    let descriptors = collect_descriptors(&vec![Some(doc)]);
    assert_eq!(descriptors.len(), 2);
    let fetched: Vec<FetchOutcome> = descriptors
        .iter()
        .enumerate()
        .map(|(i, _)| received(png_bytes(10 + i as u32, 10, [1, 2, 3])))
        .collect();
    let run = run_fetched(&fetched, W, H);
    assert_eq!(run.buffers.len(), 2);
    assert_eq!(run.discarded, 0);
    let mut state = AttemptState::with_defaults();
    assert_eq!(state.evaluate(run.usable()), Decision::Success);
    assert_eq!(state.attempt, 1);
}

#[test]
fn timed_out_url_retries_then_exhausts() {
    let mut state = AttemptState::with_defaults();
    let mut decisions = Vec::new();
    loop {
        let doc = feed(vec![post("https://i.example.com/slow.gif")]);
        let descriptors = collect_descriptors(&vec![Some(doc)]);
        assert_eq!(descriptors.len(), 1);
        let fetched = vec![FetchOutcome::Unreachable];
        let run = run_fetched(&fetched, W, H);
        assert!(run.is_empty());
        assert_eq!(run.discarded, 1);
        let d = state.evaluate(run.usable());
        decisions.push((state.attempt, d));
        if d == Decision::Exhausted || d == Decision::Success {
            break;
        }
    }
    assert_eq!(decisions, vec![(2, Decision::Retry(5000)), (3, Decision::Retry(5000)), (3, Decision::Exhausted)]);
}
