use bsky_gif_unfucker::text::{duration_label, fmt_secs, push_decimal, spinner_glyph, temp_file_name};
use bsky_gif_unfucker::timing::{effective_delay_cs, loops_for, MIN_DURATION_CS};

#[test]
fn short_delays_count_as_a_tenth_of_a_second() {
    assert_eq!(effective_delay_cs(0), 10);
    assert_eq!(effective_delay_cs(1), 10);
}

#[test]
fn other_delays_are_kept() {
    assert_eq!(effective_delay_cs(2), 2);
    assert_eq!(effective_delay_cs(7), 7);
    assert_eq!(effective_delay_cs(65535), 65535);
}

#[test]
fn loops_round_the_quotient_up() {
    assert_eq!(loops_for(50), 2);
    assert_eq!(loops_for(10), 10);
    assert_eq!(loops_for(3), 34);
    assert_eq!(loops_for(99), 2);
    assert_eq!(loops_for(1), 100);
}

#[test]
fn loop_count_is_least_reaching_minimum() {
    for d in 1..MIN_DURATION_CS {
        let loops = loops_for(d);
        assert!(d * loops >= MIN_DURATION_CS);
        assert!(d * (loops - 1) < MIN_DURATION_CS);
    }
}

#[test]
fn seconds_are_trimmed() {
    assert_eq!(fmt_secs(150), "1.5s");
    assert_eq!(fmt_secs(100), "1s");
    assert_eq!(fmt_secs(105), "1.05s");
    assert_eq!(fmt_secs(0), "0s");
    assert_eq!(fmt_secs(7), "0.07s");
    assert_eq!(fmt_secs(1234), "12.34s");
    assert_eq!(fmt_secs(1230), "12.3s");
    assert_eq!(fmt_secs(10000), "100s");
}

#[test]
fn seconds_match_float_formatting() {
    for cs in 0u32..3000 {
        let secs = f64::from(cs) / 100.0;
        let formatted = format!("{secs:.2}");
        let trimmed = formatted.trim_end_matches('0').trim_end_matches('.');
        assert_eq!(fmt_secs(cs), format!("{trimmed}s"));
    }
}

#[test]
fn label_shows_both_durations() {
    assert_eq!(duration_label(40, Some(120)), "0.4s \u{2192} 1.2s");
    assert_eq!(duration_label(250, None), "2.5s");
}

#[test]
fn decimal_numerals() {
    let mut s = String::from("n=");
    push_decimal(&mut s, 0);
    assert_eq!(s, "n=0");
    let mut s = String::new();
    push_decimal(&mut s, 18446744073709551615);
    assert_eq!(s, "18446744073709551615");
}

#[test]
fn temp_names_carry_process_and_counter() {
    assert_eq!(temp_file_name(42, 7), "bsky-gif-unfucker-42-7.gif");
    assert_eq!(temp_file_name(0, 0), "bsky-gif-unfucker-0-0.gif");
}

#[test]
fn spinner_cycles() {
    assert_eq!(spinner_glyph(0), "\u{280b}");
    assert_eq!(spinner_glyph(9), "\u{280f}");
    assert_eq!(spinner_glyph(11), "\u{2819}");
    assert_eq!(spinner_glyph(20), spinner_glyph(0));
}
