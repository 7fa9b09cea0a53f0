use booklet::chunking::{check_counts, make_chunks};
use booklet::config::{parse_margin, parse_parts, RunConfig};
use booklet::errors::ValidationError;
use booklet::geometry::{crop_rects, rotation_for, Rect, Rotation};
use booklet::naming::{output_file_name, push_zero_padded};
use booklet::numbering::page_numbers;
use booklet::ordering::{is_scan_file, scan_order};
use booklet::report::{collect_failures, ScanError, ScanFailure};
use booklet::splitter::{page_file_names, split_scan};
use std::collections::BTreeSet;

fn names(v: &[&str]) -> Vec<String> {
    v.iter().map(|s| s.to_string()).collect()
}

#[test]
fn two_scan_chunk_numbering() {
    assert_eq!(page_numbers(0, 2), (4, 1));
    assert_eq!(page_numbers(1, 2), (2, 3));
    let pages: BTreeSet<usize> = [4, 1, 2, 3].into_iter().collect();
    assert_eq!(pages, (1..=4).collect::<BTreeSet<usize>>());
}

#[test]
fn numbering_covers_every_page_once() {
    for m in 1..=12usize {
        let mut seen = vec![0u32; 2 * m + 1];
        for idx in 0..m {
            let (l, r) = page_numbers(idx, m);
            seen[l] += 1;
            seen[r] += 1;
        }
        assert_eq!(seen[0], 0);
        assert!(seen[1..].iter().all(|&c| c == 1));
    }
}

#[test]
fn odd_scan_count_is_rejected() {
    let e = check_counts(3, 1).unwrap_err();
    assert_eq!(e, ValidationError::OddScanCount { count: 3 });
    assert!(e.message().contains('3'));
    assert_eq!(e.message(), "The number of pictures must be a multiple of 2 (got 3)");
}

#[test]
fn count_not_multiple_of_parts_is_rejected() {
    let e = check_counts(8, 3).unwrap_err();
    assert_eq!(e, ValidationError::NotMultipleOfParts { parts: 3, count: 8 });
    assert_eq!(e.message(), "The number of pictures must be a multiple of 3 (got 8)");
}

#[test]
fn divisibility_decides_acceptance() {
    for count in 0..40usize {
        for parts in 1..10usize {
            let ok = count % 2 == 0 && count % parts == 0;
            assert_eq!(check_counts(count, parts).is_ok(), ok);
            assert_eq!(make_chunks(count, parts).is_ok(), ok);
        }
    }
}

#[test]
fn chunks_are_contiguous_and_labelled() {
    let cs = make_chunks(8, 2).unwrap();
    assert_eq!(cs.len(), 2);
    assert_eq!((cs[0].start, cs[0].len, cs[0].label.as_str()), (0, 4, "1"));
    assert_eq!((cs[1].start, cs[1].len, cs[1].label.as_str()), (4, 4, "2"));
    let cs = make_chunks(40, 20).unwrap();
    assert_eq!(cs.len(), 20);
    assert_eq!(cs[0].label, "01");
    assert_eq!(cs[19].label, "20");
    assert_eq!(cs[19].start, 38);
    assert_eq!(make_chunks(6, 4).unwrap_err(), ValidationError::NotMultipleOfParts { parts: 4, count: 6 });
}

#[test]
fn zero_margin_halves() {
    let (l, r) = crop_rects(0, 100, 200).unwrap();
    assert_eq!((l.x, l.y, l.x + l.width, l.y + l.height), (0, 0, 50, 200));
    assert_eq!((r.x, r.y, r.x + r.width, r.y + r.height), (50, 0, 100, 200));
}

#[test]
fn margin_trims_outer_edges() {
    let (l, r) = crop_rects(5, 101, 60).unwrap();
    assert_eq!(l, Rect { x: 5, y: 5, width: 45, height: 50 });
    assert_eq!(r, Rect { x: 45, y: 5, width: 46, height: 50 });
}

#[test]
fn right_page_starts_margin_before_midline() {
    let (l, r) = crop_rects(1, 100, 200).unwrap();
    assert_eq!(l, Rect { x: 1, y: 1, width: 49, height: 198 });
    assert_eq!(r, Rect { x: 49, y: 1, width: 49, height: 198 });
}

#[test]
fn oversized_margin_is_rejected() {
    let e = crop_rects(50, 100, 200).unwrap_err();
    assert_eq!(e, ValidationError::MarginTooLarge { margin: 50, width: 100, height: 200 });
    assert_eq!(e.message(), "A margin of 50 pixels leaves nothing of a 100x200 picture");
    assert!(crop_rects(30, 100, 60).is_err());
    assert!(crop_rects(29, 100, 59).is_ok());
}

#[test]
fn rotation_alternates() {
    assert_eq!(rotation_for(0), Rotation::Clockwise);
    assert_eq!(rotation_for(1), Rotation::CounterClockwise);
    assert_eq!(rotation_for(6), Rotation::Clockwise);
}

#[test]
fn file_names_are_padded() {
    assert_eq!(output_file_name("1", 4, 0, "0001.jpg"), "1__4_0001.jpg");
    assert_eq!(output_file_name("02", 7, 3, "x.tiff"), "02__007_x.tiff");
    assert_eq!(output_file_name("1", 1234, 2, "a.jpg"), "1__1234_a.jpg");
    let mut s = String::from("n=");
    push_zero_padded(&mut s, 905, 5);
    assert_eq!(s, "n=00905");
}

#[test]
fn scan_file_names() {
    let (l, r) = page_file_names("1", 0, 12, "0001.jpg");
    assert_eq!(l, "1__24_0001.jpg");
    assert_eq!(r, "1__1_0001.jpg");
    let (l, r) = page_file_names("1", 3, 12, "0004.jpg");
    assert_eq!(l, "1__4_0004.jpg");
    assert_eq!(r, "1__21_0004.jpg");
}

#[test]
fn scan_extensions() {
    assert!(is_scan_file("a.jpg"));
    assert!(is_scan_file("a.b.jpeg"));
    assert!(is_scan_file("scan.tiff"));
    assert!(!is_scan_file("a.JPG"));
    assert!(!is_scan_file(".jpg"));
    assert!(!is_scan_file("a.png"));
    assert!(!is_scan_file("jpg"));
    assert!(!is_scan_file("a.jpg.txt"));
    assert!(!is_scan_file(""));
}

#[test]
fn scans_are_filtered_and_sorted() {
    let got = scan_order(names(&["b.jpg", "a.jpg", "notes.txt", "A.tiff", "0002.jpeg"]));
    assert_eq!(got, names(&["0002.jpeg", "A.tiff", "a.jpg", "b.jpg"]));
    assert!(scan_order(Vec::new()).is_empty());
}

#[test]
fn margin_and_parts_arguments() {
    assert_eq!(parse_margin("12"), Ok(12));
    assert_eq!(parse_margin("+3"), Ok(3));
    assert_eq!(parse_margin("0"), Ok(0));
    assert_eq!(parse_margin("4294967295"), Ok(u32::MAX));
    assert_eq!(parse_margin("4294967296"), Err(ValidationError::BadMargin));
    assert_eq!(parse_margin("-1"), Err(ValidationError::BadMargin));
    assert_eq!(parse_margin(""), Err(ValidationError::BadMargin));
    assert_eq!(parse_margin("+"), Err(ValidationError::BadMargin));
    assert_eq!(parse_margin("1x"), Err(ValidationError::BadMargin));
    assert_eq!(parse_parts("0"), Err(ValidationError::BadParts));
    assert_eq!(parse_parts("3"), Ok(3));
    assert_eq!(parse_parts("abc"), Err(ValidationError::BadParts));
}

#[test]
fn config_lists_every_bad_argument() {
    assert_eq!(RunConfig::parse("4", "2"), Ok(RunConfig { margin: 4, parts: 2 }));
    assert_eq!(
        RunConfig::parse("x", "0"),
        Err(vec![ValidationError::BadMargin, ValidationError::BadParts])
    );
    assert_eq!(RunConfig::parse("1", "0"), Err(vec![ValidationError::BadParts]));
}

fn scan_error(path: &str, failure: ScanFailure) -> ScanError {
    let file_name = path.rsplit('/').next().unwrap_or_default().to_string();
    ScanError { path: path.to_string(), file_name, failure, cause: String::from("broken") }
}

#[test]
fn failures_are_isolated_per_scan() {
    let e1 = scan_error("b.jpg", ScanFailure::Open);
    let e2 = scan_error("d.jpg", ScanFailure::SaveRight);
    let mut errs = vec![scan_error("earlier.jpg", ScanFailure::SaveLeft)];
    collect_failures(&mut errs, vec![Ok(()), Err(e1.clone()), Ok(()), Err(e2.clone())]);
    assert_eq!(errs.len(), 3);
    assert_eq!(errs[1], e1);
    assert_eq!(errs[2], e2);
    collect_failures(&mut errs, vec![Ok(()), Ok(())]);
    assert_eq!(errs.len(), 3);
}

#[test]
fn error_chain_lines() {
    let e = scan_error("in/0001.jpg", ScanFailure::Open);
    assert_eq!(
        e.chain(),
        names(&["Could not process picture `in/0001.jpg`", "Cannot open image `in/0001.jpg`", "broken"])
    );
    let e = ScanError {
        path: String::from("p.jpg"),
        file_name: String::from("p.jpg"),
        failure: ScanFailure::Crop(ValidationError::MarginTooLarge { margin: 9, width: 10, height: 30 }),
        cause: String::new(),
    };
    assert_eq!(
        e.chain(),
        names(&["Could not process picture `p.jpg`", "A margin of 9 pixels leaves nothing of a 10x30 picture"])
    );
}

#[test]
fn save_failure_names_the_file() {
    let e = scan_error("in/0001.jpg", ScanFailure::SaveRight);
    assert_eq!(
        e.chain(),
        names(&["Could not process picture `in/0001.jpg`", "Cannot save right part of `0001.jpg`", "broken"])
    );
}

#[test]
fn splitting_a_decoded_scan() {
    let img = image::DynamicImage::new_rgb8(200, 100);
    let s = split_scan(&img, 0, 2, 0).ok().unwrap();
    assert_eq!((s.left.width(), s.left.height()), (50, 200));
    assert_eq!((s.right.width(), s.right.height()), (50, 200));
    assert_eq!((s.left_page, s.right_page), (4, 1));
    let s = split_scan(&img, 1, 2, 10).ok().unwrap();
    assert_eq!((s.left.width(), s.left.height()), (40, 180));
    assert_eq!((s.right.width(), s.right.height()), (40, 180));
    assert_eq!((s.left_page, s.right_page), (2, 3));
    let e = split_scan(&img, 1, 2, 50).err().unwrap();
    assert_eq!(e, ValidationError::MarginTooLarge { margin: 50, width: 100, height: 200 });
}
