//! The widget state composer: turns the per-frame snapshot values the
//! engine reports into display-ready fixed-width text blocks, one per
//! widget, and the region heights for the frame.

use vstd::prelude::*;
use crate::color::SemanticColor;
use crate::layout::{RegionHeights, region_heights};
use crate::text::{
    INFO_WIDTH, TIMER_WIDTH, COLUMN_WIDTH, aligned_center, aligned_left, aligned_right, clamped,
    decimal, merged, align_center, align_right, clamp_width, format_info_text, merge, u32_decimal,
};

verus! {

/// What the engine reports for the title widget: the game name, an optional
/// category line and an optional attempt count.
#[derive(Clone, Debug)]
pub struct TitleSnap {
    pub line1: String,
    pub line2: Option<String>,
    pub attempts: Option<u32>,
}

/// One row of the splits table as the engine reports it: pre-formatted
/// delta and time texts and the row's semantic color.
#[derive(Clone, Debug)]
pub struct SplitRowSnap {
    pub name: String,
    pub delta: String,
    pub time: String,
    pub color: SemanticColor,
}

/// What the engine reports for the timer widget.
#[derive(Clone, Debug)]
pub struct TimerSnap {
    pub time: String,
    pub fraction: String,
    pub color: SemanticColor,
}

/// What the engine reports for one info line (previous segment, sum of
/// best, possible time save).
#[derive(Clone, Debug)]
pub struct InfoSnap {
    pub label: String,
    pub value: String,
    pub color: SemanticColor,
}

/// The engine state captured for one frame, under the read side of the
/// engine's lock; composing works on this alone, never on the lock.
#[derive(Clone, Debug)]
pub struct FrameSnap {
    pub title: TitleSnap,
    pub rows: Vec<SplitRowSnap>,
    pub timer: TimerSnap,
    pub previous_segment: InfoSnap,
    pub sum_of_best: InfoSnap,
    pub possible_time_save: InfoSnap,
}

/// The composed title block: the game name line and, when an attempt count
/// is present, the merged category/attempts line.
#[derive(Clone, Debug)]
pub struct TitleText {
    pub line1: String,
    pub line2: Option<String>,
}

/// One composed row of the splits table.
#[derive(Clone, Debug)]
pub struct SplitRowText {
    pub name: String,
    pub delta: String,
    pub time: String,
    pub color: SemanticColor,
}

/// One composed frame: every widget's text, ready to draw, plus the region
/// heights. No engine state is needed to draw it.
#[derive(Clone, Debug)]
pub struct Frame {
    pub title: TitleText,
    pub rows: Vec<SplitRowText>,
    pub timer_line: String,
    pub timer_color: SemanticColor,
    pub previous_segment_line: String,
    pub previous_segment_color: SemanticColor,
    pub sum_of_best_line: String,
    pub possible_time_save_line: String,
    pub heights: RegionHeights,
}

/// The title's category text; an absent category counts as empty.
pub open spec fn category_text(t: TitleSnap) -> Seq<char> {
    if t.line2 is Some {
        t.line2->0@
    } else {
        Seq::empty()
    }
}

/// The title's second line: the centered category overlaid with the
/// right-justified attempt count.
pub open spec fn title_line2_text(t: TitleSnap, attempts: u32) -> Seq<char> {
    merged(
        aligned_center(category_text(t), INFO_WIDTH as nat),
        aligned_right(decimal(attempts as nat), INFO_WIDTH as nat),
    )
}

/// One info line: left-justified label overlaid with the right-justified
/// value.
pub open spec fn info_line_text(s: InfoSnap) -> Seq<char> {
    merged(aligned_left(s.label@, INFO_WIDTH as nat), aligned_right(s.value@, INFO_WIDTH as nat))
}

/// The widths a snapshot must respect: the category and the info texts fit
/// their 35-column fields, and the row count leaves the splits region
/// height representable.
pub open spec fn frame_snap_ok(s: FrameSnap) -> bool {
    &&& (s.title.line2 is Some ==> s.title.line2->0@.len() <= INFO_WIDTH)
    &&& s.previous_segment.label@.len() <= INFO_WIDTH
    &&& s.previous_segment.value@.len() <= INFO_WIDTH
    &&& s.sum_of_best.label@.len() <= INFO_WIDTH
    &&& s.sum_of_best.value@.len() <= INFO_WIDTH
    &&& s.possible_time_save.label@.len() <= INFO_WIDTH
    &&& s.possible_time_save.value@.len() <= INFO_WIDTH
    &&& s.rows@.len() + 3 <= u16::MAX
}

/// How a composed row relates to its snapshot: the name as given, delta and
/// time right-justified in their 9-column fields, the color carried over.
pub open spec fn row_matches(snap: SplitRowSnap, row: SplitRowText) -> bool {
    &&& row.name@ == snap.name@
    &&& row.delta@ == aligned_right(snap.delta@, COLUMN_WIDTH as nat)
    &&& row.time@ == aligned_right(snap.time@, COLUMN_WIDTH as nat)
    &&& row.color == snap.color
}

/// How a composed frame relates to its snapshot: every widget's text is the
/// stated composition, there is one table row per engine segment, and the
/// heights are those of this frame's segment count.
pub open spec fn frame_matches(s: FrameSnap, f: Frame) -> bool {
    &&& f.title.line1@ == aligned_center(s.title.line1@, INFO_WIDTH as nat)
    &&& (f.title.line2 is Some <==> s.title.attempts is Some)
    &&& (s.title.attempts is Some ==> f.title.line2->0@ == title_line2_text(
        s.title,
        s.title.attempts->0,
    ))
    &&& f.rows@.len() == s.rows@.len()
    &&& (forall|i: int| 0 <= i < s.rows@.len() ==> row_matches(s.rows@[i], #[trigger] f.rows@[i]))
    &&& f.timer_line@ == aligned_right(s.timer.time@, TIMER_WIDTH as nat) + s.timer.fraction@
    &&& f.timer_color == s.timer.color
    &&& f.previous_segment_line@ == info_line_text(s.previous_segment)
    &&& f.previous_segment_color == s.previous_segment.color
    &&& f.sum_of_best_line@ == info_line_text(s.sum_of_best)
    &&& f.possible_time_save_line@ == info_line_text(s.possible_time_save)
    &&& f.heights == (RegionHeights {
        title: 3,
        splits: (s.rows@.len() + 3) as u16,
        timer: 2,
        previous_segment: 1,
        sum_of_best: 1,
        possible_time_save: 1,
    })
}

/// Whether some variant at an index under `n` fits the width.
pub open spec fn some_variant_fits(variants: Seq<String>, n: int, width: nat) -> bool {
    exists|i: int| 0 <= i < n && variants[i]@.len() <= width
}

/// Picks, from the variants of one title line, the first of the longest
/// ones that fit the width; when none fits, the first variant cut to the
/// width, and for no variants at all the empty text.
pub fn pick_title_line(variants: &Vec<String>, width: usize) -> (r: String)
    ensures
        variants@.len() == 0 ==> r@ == Seq::<char>::empty(),
        variants@.len() > 0 && !some_variant_fits(variants@, variants@.len() as int, width as nat)
            ==> r@ == clamped(variants@[0]@, width as nat),
        some_variant_fits(variants@, variants@.len() as int, width as nat) ==> exists|i: int|
            {
                &&& 0 <= i < variants@.len()
                &&& r@ == variants@[i]@
                &&& variants@[i]@.len() <= width
                &&& (forall|j: int|
                    0 <= j < variants@.len() && variants@[j]@.len() <= width
                        ==> variants@[j]@.len() <= variants@[i]@.len())
                &&& (forall|j: int|
                    0 <= j < i && variants@[j]@.len() <= width ==> variants@[j]@.len()
                        < variants@[i]@.len())
            },
{
    let mut best: usize = 0;
    let mut found = false;
    let mut k: usize = 0;
    while k < variants.len()
        invariant
            k <= variants@.len(),
            !found ==> !some_variant_fits(variants@, k as int, width as nat),
            found ==> {
                &&& best < k
                &&& variants@[best as int]@.len() <= width
                &&& (forall|j: int|
                    0 <= j < k && variants@[j]@.len() <= width ==> variants@[j]@.len()
                        <= variants@[best as int]@.len())
                &&& (forall|j: int|
                    0 <= j < best && variants@[j]@.len() <= width ==> variants@[j]@.len()
                        < variants@[best as int]@.len())
            },
        decreases variants@.len() - k,
    {
        let len_k = variants[k].as_str().unicode_len();
        if len_k <= width && (!found || len_k > variants[best].as_str().unicode_len()) {
            best = k;
            found = true;
        }
        k = k + 1;
    }
    if found {
        variants[best].clone()
    } else if variants.len() > 0 {
        clamp_width(variants[0].as_str(), width)
    } else {
        String::new()
    }
}

/// Builds one row's snapshot from the engine's column values, which it
/// reports right to left: the first column is the time, the second the
/// delta, and the row takes the delta's color (the time's where there is no
/// delta column, and the default color with no columns at all).
pub fn split_row_from_columns(name: String, columns: Vec<(String, SemanticColor)>) -> (r:
    SplitRowSnap)
    ensures
        r.name == name,
        r.time@ == if columns@.len() > 0 {
            columns@[0].0@
        } else {
            Seq::<char>::empty()
        },
        r.delta@ == if columns@.len() > 1 {
            columns@[1].0@
        } else {
            Seq::<char>::empty()
        },
        r.color == if columns@.len() > 1 {
            columns@[1].1
        } else if columns@.len() > 0 {
            columns@[0].1
        } else {
            SemanticColor::Default
        },
{
    let time = if columns.len() > 0 {
        columns[0].0.clone()
    } else {
        String::new()
    };
    let delta = if columns.len() > 1 {
        columns[1].0.clone()
    } else {
        String::new()
    };
    let color = if columns.len() > 1 {
        columns[1].1
    } else if columns.len() > 0 {
        columns[0].1
    } else {
        SemanticColor::Default
    };
    SplitRowSnap { name, delta, time, color }
}

/// Composes the title block: the game name centered, and — when the engine
/// reports an attempt count — the centered category merged with the
/// right-justified count. Without a count the second line is omitted.
pub fn compose_title(t: &TitleSnap) -> (r: TitleText)
    requires
        t.line2 is Some ==> t.line2->0@.len() <= INFO_WIDTH,
    ensures
        r.line1@ == aligned_center(t.line1@, INFO_WIDTH as nat),
        r.line2 is Some <==> t.attempts is Some,
        t.attempts is Some ==> r.line2->0@ == title_line2_text(*t, t.attempts->0),
{
    let line1 = align_center(t.line1.as_str(), INFO_WIDTH);
    let line2 = match &t.attempts {
        None => None,
        Some(n) => {
            let category = match &t.line2 {
                Some(c) => align_center(c.as_str(), INFO_WIDTH),
                None => {
                    proof {
                        reveal_strlit("");
                        assert(""@ =~= Seq::<char>::empty());
                    }
                    align_center("", INFO_WIDTH)
                },
            };
            let count = align_right(u32_decimal(*n).as_str(), INFO_WIDTH);
            Some(merge(category.as_str(), count.as_str()))
        },
    };
    TitleText { line1, line2 }
}

/// Composes one splits-table row: the name as given, delta and time
/// right-justified in their columns, the engine's order and color kept.
pub fn compose_split_row(s: &SplitRowSnap) -> (r: SplitRowText)
    ensures
        row_matches(*s, r),
{
    SplitRowText {
        name: s.name.clone(),
        delta: align_right(s.delta.as_str(), COLUMN_WIDTH),
        time: align_right(s.time.as_str(), COLUMN_WIDTH),
        color: s.color,
    }
}

/// Composes the timer line: the main time right-justified in its 32-column
/// field with the fractional-seconds suffix appended unpadded.
pub fn compose_timer_line(t: &TimerSnap) -> (r: String)
    ensures
        r@ == aligned_right(t.time@, TIMER_WIDTH as nat) + t.fraction@,
{
    let mut line = align_right(t.time.as_str(), TIMER_WIDTH);
    line.append(t.fraction.as_str());
    line
}

/// Composes one info line from its snapshot.
pub fn compose_info_line(s: &InfoSnap) -> (r: String)
    requires
        s.label@.len() <= INFO_WIDTH,
        s.value@.len() <= INFO_WIDTH,
    ensures
        r@ == info_line_text(*s),
{
    format_info_text(s.label.as_str(), s.value.as_str())
}

/// Composes one whole frame from a snapshot: all six widgets and the
/// layout heights. The splits table keeps one row per engine segment, so
/// the row count and the region heights of a frame always agree with the
/// segment count of the snapshot it was built from.
pub fn compose_frame(s: &FrameSnap) -> (f: Frame)
    requires
        frame_snap_ok(*s),
    ensures
        frame_matches(*s, f),
{
    let title = compose_title(&s.title);
    let mut rows: Vec<SplitRowText> = Vec::new();
    let mut i: usize = 0;
    while i < s.rows.len()
        invariant
            i <= s.rows@.len(),
            rows@.len() == i,
            forall|j: int| 0 <= j < i ==> row_matches(s.rows@[j], #[trigger] rows@[j]),
        decreases s.rows@.len() - i,
    {
        let r = compose_split_row(&s.rows[i]);
        rows.push(r);
        i = i + 1;
    }
    let timer_line = compose_timer_line(&s.timer);
    let previous_segment_line = compose_info_line(&s.previous_segment);
    let sum_of_best_line = compose_info_line(&s.sum_of_best);
    let possible_time_save_line = compose_info_line(&s.possible_time_save);
    let heights = region_heights(rows.len());
    Frame {
        title,
        rows,
        timer_line,
        timer_color: s.timer.color,
        previous_segment_line,
        previous_segment_color: s.previous_segment.color,
        sum_of_best_line,
        possible_time_save_line,
        heights,
    }
}

} // verus!
