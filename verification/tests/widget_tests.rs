use livesplit_term::color::SemanticColor;
use livesplit_term::widget::{
    compose_frame, compose_info_line, compose_timer_line, compose_title, pick_title_line,
    split_row_from_columns, FrameSnap, InfoSnap, SplitRowSnap, TimerSnap, TitleSnap,
};

#[test]
fn pick_title_line_prefers_the_longest_fitting_variant() {
    let variants = vec!["Short".to_string(), "A Longer Variant".to_string(), "x".repeat(40)];
    assert_eq!(pick_title_line(&variants, 35), "A Longer Variant");
    assert_eq!(pick_title_line(&variants, 4), "Shor");
    assert_eq!(pick_title_line(&Vec::new(), 35), "");
}

#[test]
fn split_row_from_columns_reads_right_to_left() {
    let row = split_row_from_columns(
        "Split 1".to_string(),
        vec![
            ("1:00".to_string(), SemanticColor::Default),
            ("-0:01".to_string(), SemanticColor::AheadGainingTime),
        ],
    );
    assert_eq!(row.name, "Split 1");
    assert_eq!(row.time, "1:00");
    assert_eq!(row.delta, "-0:01");
    assert_eq!(row.color, SemanticColor::AheadGainingTime);

    let bare = split_row_from_columns("Split 2".to_string(), Vec::new());
    assert_eq!(bare.time, "");
    assert_eq!(bare.delta, "");
    assert_eq!(bare.color, SemanticColor::Default);
}

fn info(label: &str, value: &str, color: SemanticColor) -> InfoSnap {
    InfoSnap { label: label.to_string(), value: value.to_string(), color }
}

fn row(name: &str, delta: &str, time: &str, color: SemanticColor) -> SplitRowSnap {
    SplitRowSnap {
        name: name.to_string(),
        delta: delta.to_string(),
        time: time.to_string(),
        color,
    }
}

#[test]
fn title_without_attempts_has_one_line() {
    let t = TitleSnap { line1: "Some Game".to_string(), line2: None, attempts: None };
    let r = compose_title(&t);
    assert_eq!(r.line1, format!("{:^35}", "Some Game"));
    assert_eq!(r.line2, None);
}

#[test]
fn title_merges_category_and_attempts() {
    let t = TitleSnap {
        line1: "Some Game".to_string(),
        line2: Some("Any%".to_string()),
        attempts: Some(42),
    };
    let r = compose_title(&t);
    let base = format!("{:^35}", "Any%");
    let over = format!("{:>35}", "42");
    let expected: String = base
        .chars()
        .zip(over.chars())
        .map(|(c, a)| if a.is_whitespace() { c } else { a })
        .collect();
    assert_eq!(r.line2.unwrap(), expected);
}

#[test]
fn title_with_attempts_but_no_category() {
    let t = TitleSnap { line1: "Some Game".to_string(), line2: None, attempts: Some(3) };
    let r = compose_title(&t);
    assert_eq!(r.line2.unwrap(), format!("{:>35}", "3"));
}

#[test]
fn timer_line_right_justified_with_fraction() {
    let t = TimerSnap {
        time: "1:23".to_string(),
        fraction: ".45".to_string(),
        color: SemanticColor::AheadGainingTime,
    };
    assert_eq!(compose_timer_line(&t), format!("{:>32}{}", "1:23", ".45"));
}

#[test]
fn info_line_matches_format_info_text() {
    let s = info("Previous Segment", "-0:01.2", SemanticColor::AheadGainingTime);
    let base = format!("{:<35}", "Previous Segment");
    let over = format!("{:>35}", "-0:01.2");
    let expected: String = base
        .chars()
        .zip(over.chars())
        .map(|(t, v)| if v.is_whitespace() { t } else { v })
        .collect();
    assert_eq!(compose_info_line(&s), expected);
}

#[test]
fn frame_with_four_segments() {
    let snap = FrameSnap {
        title: TitleSnap {
            line1: "Some Game".to_string(),
            line2: Some("Any%".to_string()),
            attempts: Some(7),
        },
        rows: vec![
            row("Split 1", "-0:01", "1:00", SemanticColor::AheadGainingTime),
            row("Split 2", "+0:02", "2:00", SemanticColor::BehindLosingTime),
            row("Split 3", "", "3:00", SemanticColor::Default),
            row("Split 4", "", "", SemanticColor::Default),
        ],
        timer: TimerSnap {
            time: "2:34".to_string(),
            fraction: ".5".to_string(),
            color: SemanticColor::AheadGainingTime,
        },
        previous_segment: info("Previous Segment", "-0:01", SemanticColor::AheadGainingTime),
        sum_of_best: info("Sum of Best Segments", "9:00", SemanticColor::Default),
        possible_time_save: info("Possible Time Save", "0:05", SemanticColor::Default),
    };
    let f = compose_frame(&snap);

    let h = f.heights;
    assert_eq!(
        [h.title, h.splits, h.timer, h.previous_segment, h.sum_of_best, h.possible_time_save],
        [3, 7, 2, 1, 1, 1]
    );
    let total = h.title + h.splits + h.timer + h.previous_segment + h.sum_of_best
        + h.possible_time_save;
    assert_eq!(total, 15);

    assert_eq!(f.rows.len(), 4);
    assert_eq!(f.rows[0].name, "Split 1");
    assert_eq!(f.rows[0].delta, "    -0:01");
    assert_eq!(f.rows[0].time, "     1:00");
    assert_eq!(f.rows[0].color, SemanticColor::AheadGainingTime);
    assert_eq!(f.rows[3].delta, "         ");

    assert_eq!(f.timer_line, format!("{:>32}.5", "2:34"));
    assert_eq!(f.timer_color, SemanticColor::AheadGainingTime);
    assert_eq!(f.previous_segment_color, SemanticColor::AheadGainingTime);
    assert_eq!(f.sum_of_best_line.len(), 35);
}

#[test]
fn frame_with_no_segments_degenerates() {
    let snap = FrameSnap {
        title: TitleSnap { line1: "Game".to_string(), line2: None, attempts: None },
        rows: vec![],
        timer: TimerSnap {
            time: "0:00".to_string(),
            fraction: ".0".to_string(),
            color: SemanticColor::NotRunning,
        },
        previous_segment: info("Previous Segment", "", SemanticColor::Default),
        sum_of_best: info("Sum of Best Segments", "", SemanticColor::Default),
        possible_time_save: info("Possible Time Save", "", SemanticColor::Default),
    };
    let f = compose_frame(&snap);
    assert_eq!(f.rows.len(), 0);
    assert_eq!(f.heights.splits, 3);
}
