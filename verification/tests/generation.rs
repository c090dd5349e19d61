use http_fuzzer::input::Method;
use http_fuzzer::input::body_given_flip;
use http_fuzzer::input::header_pair;
use http_fuzzer::input::random_body;
use http_fuzzer::input::random_headers;
use http_fuzzer::input::random_method;

const CANDIDATES: [(&str, &str); 4] = [
    ("User-Agent", "Mozilla/5.0"),
    ("X-Fuzz", "true"),
    ("Accept", "*/*"),
    ("Cookie", "ID=deadbeef"),
];

fn method_position(m: Method) -> usize {
    match m {
        Method::Get => 0,
        Method::Post => 1,
        Method::Put => 2,
        Method::Delete => 3,
        Method::Patch => 4,
        Method::Options => 5,
        Method::Head => 6,
    }
}

#[test]
fn random_method_covers_all_seven_roughly_uniformly() {
    let samples = 14_000;
    let mut counts = [0usize; 7];
    for _ in 0..samples {
        counts[method_position(random_method())] += 1;
    }
    // Expected count per method is 2000; these bounds are many standard
    // deviations wide, so a correct uniform sampler virtually never fails.
    for &c in counts.iter() {
        assert!(c > 1400, "method drawn far too rarely: {}", c);
        assert!(c < 2600, "method drawn far too often: {}", c);
    }
}

#[test]
fn random_headers_returns_one_to_four_unique_candidates() {
    let mut seen_len = [false; 5];
    for _ in 0..2000 {
        let headers = random_headers();
        assert!(1 <= headers.len() && headers.len() <= 4);
        seen_len[headers.len()] = true;
        for (name, value) in &headers {
            assert!(
                CANDIDATES.iter().any(|(n, v)| n == name && v == value),
                "unexpected header pair: {} / {}",
                name,
                value
            );
        }
        for a in 0..headers.len() {
            for b in (a + 1)..headers.len() {
                assert_ne!(headers[a].0, headers[b].0, "duplicate header name in one call");
            }
        }
    }
    // Every count between 1 and 4 occurs over many calls.
    assert!(seen_len[1] && seen_len[2] && seen_len[3] && seen_len[4]);
}

#[test]
fn random_body_absent_about_half_the_time() {
    let samples = 1000;
    let mut absent = 0;
    for _ in 0..samples {
        if random_body().is_none() {
            absent += 1;
        }
    }
    // Expected 500; the bounds are over nine standard deviations wide.
    assert!(absent > 350, "body absent too rarely: {}", absent);
    assert!(absent < 650, "body absent too often: {}", absent);
}

#[test]
fn random_body_when_present_is_short_and_alphanumeric() {
    let mut seen_present = false;
    for _ in 0..1000 {
        if let Some(body) = random_body() {
            seen_present = true;
            let len = body.chars().count();
            assert!((5..30).contains(&len), "body length out of range: {}", len);
            assert!(
                body.chars().all(|c| c.is_ascii_alphanumeric()),
                "body holds a non-alphanumeric character: {}",
                body
            );
        }
    }
    assert!(seen_present);
}

#[test]
fn body_given_flip_false_returns_nothing() {
    for _ in 0..100 {
        assert!(body_given_flip(false).is_none());
    }
}

#[test]
fn body_given_flip_true_returns_valid_body() {
    for _ in 0..500 {
        let body = body_given_flip(true).expect("a body is owed when the flip is true");
        let len = body.chars().count();
        assert!((5..30).contains(&len));
        assert!(body.chars().all(|c| c.is_ascii_alphanumeric()));
    }
}

#[test]
fn header_pairs_match_the_fixed_candidates() {
    for (i, (name, value)) in CANDIDATES.iter().enumerate() {
        let (n, v) = header_pair(i);
        assert_eq!(&n, name);
        assert_eq!(&v, value);
    }
}

#[test]
fn method_names_are_the_seven_canonical_ones() {
    let expected = ["GET", "POST", "PUT", "DELETE", "PATCH", "OPTIONS", "HEAD"];
    for (i, want) in expected.iter().enumerate() {
        assert_eq!(Method::from_index(i).name(), *want);
    }
}
