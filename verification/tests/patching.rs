use undetected_chromedriver::patcher::{patch, patch_image, random_letter};
use undetected_chromedriver::scanner::scan;

fn is_letter(b: u8) -> bool {
    (65..=90).contains(&b) || (97..=122).contains(&b)
}

#[test]
fn scan_empty_buffer_finds_nothing() {
    let buf: Vec<u8> = Vec::new();
    assert_eq!(scan(&buf), Vec::<usize>::new());
}

#[test]
fn scan_short_buffer_finds_nothing() {
    let buf = b"cdc".to_vec();
    assert_eq!(scan(&buf), Vec::<usize>::new());
}

#[test]
fn scan_without_marker_finds_nothing() {
    let buf = b"the driver binary holds no detection string".to_vec();
    assert_eq!(scan(&buf), Vec::<usize>::new());
}

#[test]
fn scan_finds_marker_at_start() {
    let buf = b"cdc_abcdefghijklmnopqrstuvwxyz".to_vec();
    assert_eq!(scan(&buf), vec![0]);
}

#[test]
fn scan_finds_overlapping_occurrences_sequentially() {
    let buf = b"cdcdc_".to_vec();
    assert_eq!(scan(&buf), vec![2]);
}

#[test]
fn scan_finds_every_occurrence_in_order() {
    let buf = b"xxcdc_AAAAAAAAAAAAAAAAAAxxcdc_BBBBBBBBBBBBBBBBBBxx".to_vec();
    assert_eq!(scan(&buf), vec![2, 26]);
}

#[test]
fn patch_without_offsets_changes_nothing() {
    let buf = b"no marker anywhere in here".to_vec();
    let offsets: Vec<usize> = Vec::new();
    assert_eq!(patch(&buf, &offsets), buf);
}

#[test]
fn patch_image_without_marker_is_identity() {
    let buf = b"the driver binary holds no detection string".to_vec();
    let (out, count) = patch_image(&buf);
    assert_eq!(count, 0);
    assert_eq!(out, buf);
}

#[test]
fn patch_image_end_to_end_two_markers() {
    let buf = b"xxcdc_AAAAAAAAAAAAAAAAAAxxcdc_BBBBBBBBBBBBBBBBBBxx".to_vec();
    let (out, patch_ct) = patch_image(&buf);
    assert_eq!(patch_ct, 2);
    assert_eq!(out.len(), buf.len());
    for i in 0..buf.len() {
        let in_window = (2..24).contains(&i) || (26..48).contains(&i);
        if in_window {
            assert!(is_letter(out[i]), "byte {} at {} not a letter", out[i], i);
        } else {
            assert_eq!(out[i], buf[i], "byte at {} changed", i);
        }
    }
}

#[test]
fn patch_overwrites_window_with_letters_only() {
    let buf = b"cdc_AAAAAAAAAAAAAAAAAAtrailing bytes stay put".to_vec();
    let offsets = scan(&buf);
    assert_eq!(offsets, vec![0]);
    let out = patch(&buf, &offsets);
    assert_eq!(out.len(), buf.len());
    for i in 0..22 {
        assert!(is_letter(out[i]));
    }
    for i in 22..buf.len() {
        assert_eq!(out[i], buf[i]);
    }
}

#[test]
fn patch_keeps_length() {
    let buf = b"ydcdc_ABCDEFGHIJKLMNOPQRSTUVWXYZcdc_ABCDEFGHIJKLMNOPQRSTUVWXYZ".to_vec();
    let (out, patch_ct) = patch_image(&buf);
    assert_eq!(patch_ct, 2);
    assert_eq!(out.len(), buf.len());
}

#[test]
fn random_letter_stays_in_alphabet() {
    for _ in 0..500 {
        assert!(is_letter(random_letter()));
    }
}
