//! Panel composition: proportional bars, severity colors, and the styled
//! lines and rows each dashboard panel displays.

use vstd::prelude::*;
use vstd::arithmetic::div_mod::{lemma_div_is_ordered, lemma_fundamental_div_mod_converse};
use vstd::string::StringExecFns;
use std::collections::HashMap;
use crate::process::{ProcessMemory, ProcessPriority, get_process_memory, get_process_priority};
use crate::snapshot::{CoreSample, LoadAverage, ProcessSample, ProcessStatus};
use crate::helpers::{
    chars_to_string, digit_char, push_digits, push_format_bytes, spec_digits, spec_format_bytes,
    spec_pad_left, spec_pad_right, spec_spaces,
};
use crate::style::{Color, Line, Span, SpanView, Style, fg, plain, spec_fg, spec_plain};

verus! {

/// CPU-bar severity thresholds, in tenths of a percent: strictly above 80%
/// is the alert tier, strictly above 50% the warning tier.
pub const CPU_HIGH_THRESHOLD_TENTHS: u32 = 800;

pub const CPU_MEDIUM_THRESHOLD_TENTHS: u32 = 500;

/// Process-table usage-cell thresholds, in tenths of a percent: a
/// deliberately different pair from the CPU-bar thresholds.
pub const PROCESS_HIGH_THRESHOLD_TENTHS: u32 = 500;

pub const PROCESS_MEDIUM_THRESHOLD_TENTHS: u32 = 200;

/// The severity color of one core's usage (in tenths of a percent).
pub open spec fn spec_cpu_color(usage_tenths: u32) -> Color {
    if usage_tenths > CPU_HIGH_THRESHOLD_TENTHS {
        Color::Red
    } else if usage_tenths > CPU_MEDIUM_THRESHOLD_TENTHS {
        Color::Yellow
    } else {
        Color::Green
    }
}

pub fn get_cpu_color(usage_tenths: u32) -> (c: Color)
    ensures
        c == spec_cpu_color(usage_tenths),
{
    if usage_tenths > CPU_HIGH_THRESHOLD_TENTHS {
        Color::Red
    } else if usage_tenths > CPU_MEDIUM_THRESHOLD_TENTHS {
        Color::Yellow
    } else {
        Color::Green
    }
}

/// The severity color of a used/total ratio: strictly above 0.8 is the
/// alert tier, strictly above 0.5 the warning tier; a zero total is
/// nominal (never a division).
pub open spec fn spec_memory_color(used: nat, total: nat) -> Color {
    if total == 0 {
        Color::Green
    } else if 10 * used > 8 * total {
        Color::Red
    } else if 2 * used > total {
        Color::Yellow
    } else {
        Color::Green
    }
}

pub fn get_memory_color(used: u64, total: u64) -> (c: Color)
    ensures
        c == spec_memory_color(used as nat, total as nat),
{
    if total == 0 {
        Color::Green
    } else if 10 * (used as u128) > 8 * (total as u128) {
        Color::Red
    } else if 2 * (used as u128) > total as u128 {
        Color::Yellow
    } else {
        Color::Green
    }
}

/// The style of a CPU% or MEM% table cell (usage in tenths of a percent).
pub open spec fn spec_usage_style(usage_tenths: u32) -> Style {
    if usage_tenths > PROCESS_HIGH_THRESHOLD_TENTHS {
        spec_fg(Color::Red)
    } else if usage_tenths > PROCESS_MEDIUM_THRESHOLD_TENTHS {
        spec_fg(Color::Yellow)
    } else {
        spec_fg(Color::White)
    }
}

pub fn get_usage_color(usage_tenths: u32) -> (s: Style)
    ensures
        s == spec_usage_style(usage_tenths),
{
    if usage_tenths > PROCESS_HIGH_THRESHOLD_TENTHS {
        fg(Color::Red)
    } else if usage_tenths > PROCESS_MEDIUM_THRESHOLD_TENTHS {
        fg(Color::Yellow)
    } else {
        fg(Color::White)
    }
}

/// The style of the one-letter status cell.
pub open spec fn spec_status_style(code: char) -> Style {
    if code == 'R' {
        spec_fg(Color::Yellow)
    } else if code == 'S' {
        spec_fg(Color::Green)
    } else if code == 'Z' {
        spec_fg(Color::Red)
    } else {
        spec_fg(Color::Gray)
    }
}

pub fn get_status_color(code: char) -> (s: Style)
    ensures
        s == spec_status_style(code),
{
    if code == 'R' {
        fg(Color::Yellow)
    } else if code == 'S' {
        fg(Color::Green)
    } else if code == 'Z' {
        fg(Color::Red)
    } else {
        fg(Color::Gray)
    }
}

/// A proportional bar: `total` cells, the first `used` filled with `'|'`.
pub open spec fn spec_progress_bar(used: nat, total: nat) -> Seq<char> {
    Seq::new(total, |i: int| if i < used { '|' } else { ' ' })
}

fn progress_bar_chars(used: usize, total: usize) -> (bar: Vec<char>)
    ensures
        bar@ == spec_progress_bar(used as nat, total as nat),
{
    let mut bar: Vec<char> = Vec::new();
    let mut i: usize = 0;
    while i < total
        invariant
            i <= total,
            bar@ == spec_progress_bar(used as nat, total as nat).take(i as int),
        decreases total - i,
    {
        if i < used {
            bar.push('|');
        } else {
            bar.push(' ');
        }
        i = i + 1;
        assert(bar@ =~= spec_progress_bar(used as nat, total as nat).take(i as int));
    }
    proof {
        assert(spec_progress_bar(used as nat, total as nat).take(total as int)
            =~= spec_progress_bar(used as nat, total as nat));
    }
    bar
}

/// Render a proportional bar as a string of `'|'` and `' '` cells.
pub fn create_progress_bar(used: usize, total: usize) -> (r: String)
    ensures
        r@ == spec_progress_bar(used as nat, total as nat),
{
    let bar = progress_bar_chars(used, total);
    chars_to_string(&bar)
}

/// How many of `width` bar cells a used/total ratio fills: the ratio scaled
/// to the width and rounded to the nearest cell (halves round up), clamped
/// to the width; zero when the total is zero.
pub open spec fn spec_fill_count(used: nat, total: nat, width: nat) -> nat {
    if total == 0 {
        0
    } else {
        let f = (2 * used * width + total) / (2 * total);
        if f > width {
            width
        } else {
            f
        }
    }
}

/// Computes the filled-cell count of a proportional bar.
pub fn fill_count(used: u64, total: u64, width: u64) -> (r: u64)
    requires
        width <= 65535,
    ensures
        r as nat == spec_fill_count(used as nat, total as nat, width as nat),
        r <= width,
{
    if total == 0 {
        0
    } else {
        proof {
            assert((used as int) * (width as int) <= 0xffff_ffff_ffff_ffff * 65535)
                by (nonlinear_arith)
                requires
                    used <= 0xffff_ffff_ffff_ffff,
                    width <= 65535,
            ;
            assert(2 * (used as int) * (width as int) == 2 * ((used as int) * (width as int)))
                by (nonlinear_arith);
        }
        let uw: u128 = (used as u128) * (width as u128);
        let wide: u128 = (2 * uw + (total as u128)) / (2 * (total as u128));
        if wide > width as u128 {
            width
        } else {
            wide as u64
        }
    }
}

/// Law: an empty numerator fills no cells, whatever the width.
pub proof fn lemma_fill_count_empty(total: nat, width: nat)
    ensures
        spec_fill_count(0, total, width) == 0,
{
    if total > 0 {
        let d = 2 * (total as int);
        vstd::arithmetic::div_mod::lemma_basic_div(total as int, d);
        assert(2 * 0 * width + total == total) by (nonlinear_arith);
        assert((total as int) / d == 0);
    }
}

/// Law: a full ratio fills every cell.
pub proof fn lemma_fill_count_full(total: nat, width: nat)
    requires
        total > 0,
    ensures
        spec_fill_count(total, total, width) == width,
{
    assert(2 * total * width + total == width * (2 * total) + total) by (nonlinear_arith);
    lemma_fundamental_div_mod_converse(
        (2 * total * width + total) as int,
        (2 * total) as int,
        width as int,
        total as int,
    );
}

/// Law: for a fixed total and width, the fill count never decreases as the
/// used amount grows.
pub proof fn lemma_fill_count_monotone(used1: nat, used2: nat, total: nat, width: nat)
    requires
        used1 <= used2,
    ensures
        spec_fill_count(used1, total, width) <= spec_fill_count(used2, total, width),
{
    if total > 0 {
        assert(2 * used1 * width <= 2 * used2 * width) by (nonlinear_arith)
            requires
                used1 <= used2,
                width >= 0,
        ;
        lemma_div_is_ordered(
            (2 * used1 * width + total) as int,
            (2 * used2 * width + total) as int,
            (2 * total) as int,
        );
    }
}

/// The text overlaid on a memory bar: `"<used>/<total>"` in byte units.
pub open spec fn spec_memory_label(used: nat, total: nat) -> Seq<char> {
    spec_format_bytes(used) + seq!['/'] + spec_format_bytes(total)
}

/// `base` with `text` written over it starting at `start`; characters past
/// the end of `base` are dropped.
pub open spec fn spec_overlay(base: Seq<char>, text: Seq<char>, start: int) -> Seq<char> {
    Seq::new(base.len(), |i: int| if start <= i < start + text.len() {
        text[i - start]
    } else {
        base[i]
    })
}

/// Where the overlaid label begins: right-justified inside the bar, or at
/// the left edge when the bar is shorter than the label.
pub open spec fn spec_label_start(bar_length: nat, text_len: nat) -> int {
    if bar_length > text_len {
        bar_length - text_len
    } else {
        0
    }
}

/// The characters of one memory bar: a proportional bar with the
/// `"<used>/<total>"` label overlaid right-justified.
pub open spec fn spec_memory_bar_chars(used: nat, total: nat, bar_length: nat) -> Seq<char> {
    let label = spec_memory_label(used, total);
    spec_overlay(
        spec_progress_bar(spec_fill_count(used, total, bar_length), bar_length),
        label,
        spec_label_start(bar_length, label.len()),
    )
}

/// The four spans of a memory bar line: padded label, opening bracket,
/// the colored bar with its overlay, closing bracket.
pub open spec fn spec_memory_bar_line(
    label: Seq<char>,
    used: nat,
    total: nat,
    bar_length: nat,
    label_width: nat,
) -> Seq<SpanView> {
    seq![
        SpanView { text: spec_pad_right(label, label_width), style: spec_fg(Color::Cyan) },
        SpanView { text: seq!['['], style: spec_plain() },
        SpanView {
            text: spec_memory_bar_chars(used, total, bar_length),
            style: spec_fg(spec_memory_color(used, total)),
        },
        SpanView { text: seq![']'], style: spec_plain() },
    ]
}

/// Pads `label` with trailing spaces to at least `width` characters.
fn pad_right_chars(label: &Vec<char>, width: usize) -> (out: Vec<char>)
    ensures
        out@ == spec_pad_right(label@, width as nat),
{
    let mut out = label.clone();
    while out.len() < width
        invariant
            label@.len() >= width ==> out@ == label@,
            label@.len() < width ==> out@.len() <= width && out@ == label@ + spec_spaces(
                (out@.len() - label@.len()) as nat,
            ),
        decreases width - out.len(),
    {
        out.push(' ');
        assert(out@ =~= label@ + spec_spaces((out@.len() - label@.len()) as nat));
    }
    assert(out@ =~= spec_pad_right(label@, width as nat));
    out
}

/// Build one memory/swap bar line: fixed-width label, then a bracketed
/// proportional bar colored by severity with the byte string overlaid.
pub fn create_memory_bar(
    label: &Vec<char>,
    used: u64,
    total: u64,
    bar_length: usize,
    label_width: usize,
) -> (line: Line)
    requires
        bar_length <= 65535,
    ensures
        line@ == spec_memory_bar_line(
            label@,
            used as nat,
            total as nat,
            bar_length as nat,
            label_width as nat,
        ),
{
    let mut label_text: Vec<char> = Vec::new();
    push_format_bytes(&mut label_text, used);
    label_text.push('/');
    push_format_bytes(&mut label_text, total);
    assert(label_text@ =~= spec_memory_label(used as nat, total as nat));

    let fill = fill_count(used, total, bar_length as u64);
    let start: usize = if bar_length > label_text.len() {
        bar_length - label_text.len()
    } else {
        0
    };

    let ghost target = spec_memory_bar_chars(used as nat, total as nat, bar_length as nat);
    let mut bar: Vec<char> = Vec::new();
    let mut i: usize = 0;
    while i < bar_length
        invariant
            i <= bar_length,
            bar@.len() == i,
            bar_length <= 65535,
            fill as nat == spec_fill_count(used as nat, total as nat, bar_length as nat),
            start as int == spec_label_start(bar_length as nat, label_text@.len()),
            label_text@ == spec_memory_label(used as nat, total as nat),
            target == spec_memory_bar_chars(used as nat, total as nat, bar_length as nat),
            forall|j: int| 0 <= j < i ==> bar@[j] == target[j],
        decreases bar_length - i,
    {
        let c = if i >= start && i - start < label_text.len() {
            label_text[i - start]
        } else if (i as u64) < fill {
            '|'
        } else {
            ' '
        };
        bar.push(c);
        i = i + 1;
    }
    assert(bar@ =~= target);

    let padded = pad_right_chars(label, label_width);
    let mut spans: Vec<Span> = Vec::new();
    spans.push(crate::style::span_from_chars(&padded, fg(Color::Cyan)));
    let mut open_bracket: Vec<char> = Vec::new();
    open_bracket.push('[');
    spans.push(crate::style::span_from_chars(&open_bracket, plain()));
    spans.push(crate::style::span_from_chars(&bar, fg(get_memory_color(used, total))));
    let mut close_bracket: Vec<char> = Vec::new();
    close_bracket.push(']');
    spans.push(crate::style::span_from_chars(&close_bracket, plain()));
    let line = Line { spans };
    assert(open_bracket@ =~= seq!['[']);
    assert(close_bracket@ =~= seq![']']);
    assert(line@ =~= spec_memory_bar_line(
        label@,
        used as nat,
        total as nat,
        bar_length as nat,
        label_width as nat,
    ));
    line
}

/// The CPU grid has four columns; cores fill the first column top to
/// bottom before starting the second.
pub const CPU_COLUMNS: usize = 4;

pub const MIN_BAR_LENGTH: usize = 4;

pub const MIN_MEMORY_BAR_LENGTH: usize = 10;

pub const LABEL_WIDTH: usize = 5;

/// Rows of the CPU grid: the core count divided into columns of four,
/// rounded up.
pub open spec fn spec_cpu_rows(count: nat) -> nat {
    count / 4 + if count % 4 == 0 {
        0nat
    } else {
        1nat
    }
}

/// The bar width of one CPU cell: the column width that remains after the
/// inter-column padding, minus the label/percent/bracket overhead, floored
/// at four cells so degenerate narrow terminals still render something.
pub open spec fn spec_cpu_bar_length(width: nat) -> nat {
    let per_col = if width > 9 {
        ((width - 9) as nat) / 4
    } else {
        0nat
    };
    let b = if per_col > 12 {
        (per_col - 12) as nat
    } else {
        0nat
    };
    if b < 4 {
        4nat
    } else {
        b
    }
}

/// A core's percentage text: the one-decimal value right-aligned to five
/// characters, then a percent sign.
pub open spec fn spec_pct_chars(tenths: nat) -> Seq<char> {
    spec_pad_left(spec_digits(tenths / 10) + seq!['.', digit_char(tenths % 10)], 5) + seq!['%']
}

/// A core's index label: two right-aligned characters and three spaces.
pub open spec fn spec_cpu_label(idx: nat) -> Seq<char> {
    spec_pad_left(spec_digits(idx), 2) + seq![' ', ' ', ' ']
}

/// One CPU grid cell: label, bracketed colored bar, and percentage for the
/// core at `row + col * rows`, or blank padding of the same width past the
/// real core count.
pub open spec fn spec_cpu_cell(
    cores: Seq<crate::snapshot::CoreSample>,
    rows: nat,
    row: nat,
    col: nat,
    bar_len: nat,
) -> Seq<SpanView> {
    let idx = row + col * rows;
    if idx < cores.len() {
        let t = cores[idx as int].usage_tenths;
        seq![
            SpanView { text: spec_cpu_label(idx), style: spec_fg(Color::Cyan) },
            SpanView { text: seq!['['], style: spec_plain() },
            SpanView {
                text: spec_progress_bar(spec_fill_count(t as nat, 1000, bar_len), bar_len),
                style: spec_fg(spec_cpu_color(t)),
            },
            SpanView { text: seq![']', ' '], style: spec_plain() },
            SpanView { text: spec_pct_chars(t as nat), style: spec_fg(Color::Gray) },
        ]
    } else {
        seq![SpanView { text: spec_spaces(14 + bar_len), style: spec_plain() }]
    }
}

/// The inter-column separator.
pub open spec fn spec_cpu_sep() -> Seq<SpanView> {
    seq![SpanView { text: seq![' ', ' ', ' '], style: spec_plain() }]
}

/// One row of the CPU grid: its four cells with separators between them.
pub open spec fn spec_cpu_row(
    cores: Seq<crate::snapshot::CoreSample>,
    rows: nat,
    row: nat,
    bar_len: nat,
) -> Seq<SpanView> {
    spec_cpu_cell(cores, rows, row, 0, bar_len) + spec_cpu_sep() + spec_cpu_cell(
        cores,
        rows,
        row,
        1,
        bar_len,
    ) + spec_cpu_sep() + spec_cpu_cell(cores, rows, row, 2, bar_len) + spec_cpu_sep()
        + spec_cpu_cell(cores, rows, row, 3, bar_len)
}

/// Pads `v` with leading spaces to at least `width` characters.
fn pad_left_chars(v: &Vec<char>, width: usize) -> (out: Vec<char>)
    ensures
        out@ == crate::helpers::spec_pad_left(v@, width as nat),
{
    let mut out: Vec<char> = Vec::new();
    if v.len() < width {
        let pad = width - v.len();
        let mut i: usize = 0;
        while i < pad
            invariant
                i <= pad,
                out@ == spec_spaces(i as nat),
            decreases pad - i,
        {
            out.push(' ');
            i = i + 1;
            assert(out@ =~= spec_spaces(i as nat));
        }
    }
    out.extend_from_slice(v.as_slice());
    assert(out@ =~= crate::helpers::spec_pad_left(v@, width as nat));
    out
}

/// Appends a one-decimal percentage, right-aligned to five characters and
/// followed by `'%'`.
fn push_pct(out: &mut Vec<char>, tenths: u32)
    ensures
        final(out)@ == old(out)@ + spec_pct_chars(tenths as nat),
{
    let mut num: Vec<char> = Vec::new();
    push_digits(&mut num, (tenths / 10) as u64);
    num.push('.');
    push_digits(&mut num, (tenths % 10) as u64);
    assert(num@ =~= spec_digits((tenths / 10) as nat) + seq![
        '.',
        digit_char((tenths % 10) as nat),
    ]);
    let padded = pad_left_chars(&num, 5);
    out.extend_from_slice(padded.as_slice());
    out.push('%');
    assert(out@ =~= old(out)@ + spec_pct_chars(tenths as nat));
}

/// Appends the spans of one CPU grid cell.
fn push_cpu_cell(
    spans: &mut Vec<Span>,
    cores: &Vec<crate::snapshot::CoreSample>,
    rows: usize,
    row: usize,
    col: usize,
    bar_len: usize,
)
    requires
        bar_len <= 65535,
    ensures
        crate::style::spec_span_views(final(spans)@) == crate::style::spec_span_views(old(spans)@)
            + spec_cpu_cell(cores@, rows as nat, row as nat, col as nat, bar_len as nat),
{
    proof {
        assert((col as int) * (rows as int) <= 0xffff_ffff_ffff_ffff * 0xffff_ffff_ffff_ffff)
            by (nonlinear_arith)
            requires
                0 <= col <= 0xffff_ffff_ffff_ffff,
                0 <= rows <= 0xffff_ffff_ffff_ffff,
        ;
    }
    let idx_wide: u128 = (row as u128) + (col as u128) * (rows as u128);
    if idx_wide < cores.len() as u128 {
        let idx = idx_wide as usize;
        let t = cores[idx].usage_tenths;
        let mut label: Vec<char> = Vec::new();
        push_digits(&mut label, idx as u64);
        let mut padded = pad_left_chars(&label, 2);
        padded.push(' ');
        padded.push(' ');
        padded.push(' ');
        assert(padded@ =~= spec_cpu_label(idx as nat));
        spans.push(crate::style::span_from_chars(&padded, fg(Color::Cyan)));

        let mut open_bracket: Vec<char> = Vec::new();
        open_bracket.push('[');
        assert(open_bracket@ =~= seq!['[']);
        spans.push(crate::style::span_from_chars(&open_bracket, plain()));

        let used = fill_count(t as u64, 1000, bar_len as u64);
        let bar = progress_bar_chars(used as usize, bar_len);
        spans.push(crate::style::span_from_chars(&bar, fg(get_cpu_color(t))));

        let mut close_bracket: Vec<char> = Vec::new();
        close_bracket.push(']');
        close_bracket.push(' ');
        assert(close_bracket@ =~= seq![']', ' ']);
        spans.push(crate::style::span_from_chars(&close_bracket, plain()));

        let mut pct: Vec<char> = Vec::new();
        push_pct(&mut pct, t);
        spans.push(crate::style::span_from_chars(&pct, fg(Color::Gray)));
        assert(crate::style::spec_span_views(spans@) =~= crate::style::spec_span_views(
            old(spans)@,
        ) + spec_cpu_cell(cores@, rows as nat, row as nat, col as nat, bar_len as nat));
    } else {
        let blank: Vec<char> = vec![' '; 14 + bar_len];
        assert(blank@ =~= spec_spaces((14 + bar_len) as nat));
        spans.push(crate::style::span_from_chars(&blank, plain()));
        assert(crate::style::spec_span_views(spans@) =~= crate::style::spec_span_views(
            old(spans)@,
        ) + spec_cpu_cell(cores@, rows as nat, row as nat, col as nat, bar_len as nat));
    }
}

fn push_cpu_sep(spans: &mut Vec<Span>)
    ensures
        crate::style::spec_span_views(final(spans)@) == crate::style::spec_span_views(old(spans)@)
            + spec_cpu_sep(),
{
    let sep: Vec<char> = vec![' '; 3];
    assert(sep@ =~= seq![' ', ' ', ' ']);
    spans.push(crate::style::span_from_chars(&sep, plain()));
    assert(crate::style::spec_span_views(spans@) =~= crate::style::spec_span_views(old(spans)@)
        + spec_cpu_sep());
}

/// Build the CPU panel: one line per grid row, cores filled column-major
/// into four columns, each cell a labeled, colored proportional bar with a
/// one-decimal percentage.
pub fn draw_cpu_bars(cores: &Vec<crate::snapshot::CoreSample>, area_width: u16) -> (lines: Vec<
    Line,
>)
    ensures
        lines@.len() == spec_cpu_rows(cores@.len()),
        forall|r: int|
            0 <= r < lines@.len() ==> lines@[r]@ == spec_cpu_row(
                cores@,
                spec_cpu_rows(cores@.len()),
                r as nat,
                spec_cpu_bar_length(area_width as nat),
            ),
{
    let count = cores.len();
    let rows = count / 4 + if count % 4 == 0 {
        0
    } else {
        1
    };
    assert(rows as nat == spec_cpu_rows(cores@.len()));

    let w = area_width as usize;
    let per_col: usize = if w > 9 {
        (w - 9) / 4
    } else {
        0
    };
    let b: usize = if per_col > 12 {
        per_col - 12
    } else {
        0
    };
    let bar_len: usize = if b < 4 {
        4
    } else {
        b
    };
    assert(bar_len as nat == spec_cpu_bar_length(area_width as nat));
    assert(bar_len <= 65535);

    let mut lines: Vec<Line> = Vec::new();
    let mut row: usize = 0;
    while row < rows
        invariant
            row <= rows,
            lines@.len() == row,
            bar_len <= 65535,
            bar_len as nat == spec_cpu_bar_length(area_width as nat),
            rows as nat == spec_cpu_rows(cores@.len()),
            forall|r: int|
                0 <= r < row ==> lines@[r]@ == spec_cpu_row(
                    cores@,
                    rows as nat,
                    r as nat,
                    bar_len as nat,
                ),
        decreases rows - row,
    {
        let mut spans: Vec<Span> = Vec::new();
        push_cpu_cell(&mut spans, cores, rows, row, 0, bar_len);
        push_cpu_sep(&mut spans);
        push_cpu_cell(&mut spans, cores, rows, row, 1, bar_len);
        push_cpu_sep(&mut spans);
        push_cpu_cell(&mut spans, cores, rows, row, 2, bar_len);
        push_cpu_sep(&mut spans);
        push_cpu_cell(&mut spans, cores, rows, row, 3, bar_len);
        let line = Line { spans };
        assert(line@ =~= spec_cpu_row(cores@, rows as nat, row as nat, bar_len as nat));
        lines.push(line);
        row = row + 1;
    }
    lines
}

/// A load-average figure at two-decimal precision, from hundredths.
pub open spec fn spec_two_decimals(hundredths: nat) -> Seq<char> {
    spec_digits(hundredths / 100) + seq![
        '.',
        digit_char((hundredths / 10) % 10),
        digit_char(hundredths % 10),
    ]
}

/// Appends a two-decimal figure from hundredths.
fn push_two_decimals(out: &mut Vec<char>, hundredths: u64)
    ensures
        final(out)@ == old(out)@ + spec_two_decimals(hundredths as nat),
{
    push_digits(out, hundredths / 100);
    out.push('.');
    out.push(crate::helpers::digit_to_char((hundredths / 10) % 10));
    out.push(crate::helpers::digit_to_char(hundredths % 10));
    assert(out@ =~= old(out)@ + spec_two_decimals(hundredths as nat));
}

/// How many of the processes are in the running state.
pub open spec fn spec_count_running(s: Seq<ProcessSample>) -> nat
    decreases s.len(),
{
    if s.len() == 0 {
        0
    } else {
        spec_count_running(s.drop_last()) + if s.last().status == ProcessStatus::Running {
            1nat
        } else {
            0nat
        }
    }
}

/// Counts the processes whose status is `Running`.
pub fn count_running(processes: &Vec<ProcessSample>) -> (n: usize)
    ensures
        n as nat == spec_count_running(processes@),
{
    let mut n: usize = 0;
    let mut i: usize = 0;
    while i < processes.len()
        invariant
            i <= processes@.len(),
            n <= i,
            n as nat == spec_count_running(processes@.take(i as int)),
        decreases processes@.len() - i,
    {
        let is_running = match processes[i].status {
            ProcessStatus::Running => true,
            _ => false,
        };
        if is_running {
            n = n + 1;
        }
        proof {
            assert(processes@.take(i + 1).drop_last() =~= processes@.take(i as int));
            assert(processes@.take(i + 1).last() == processes@[i as int]);
        }
        i = i + 1;
    }
    proof {
        assert(processes@.take(processes@.len() as int) =~= processes@);
    }
    n
}

/// The two leading pad spaces of every system-info line.
pub open spec fn spec_info_padding() -> SpanView {
    SpanView { text: seq![' ', ' '], style: spec_plain() }
}

/// The task-count line: total processes, not-available thread counts, and
/// the running count.
pub open spec fn spec_tasks_line(total: nat, running: nat) -> Seq<SpanView> {
    seq![
        spec_info_padding(),
        SpanView {
            text: seq!['T', 'a', 's', 'k', 's', ':', ' '] + spec_digits(total) + seq![
                ',',
                ' ',
                'N',
                '/',
                'A',
                ' ',
                't',
                'h',
                'r',
                ',',
                ' ',
                '0',
                ' ',
                'k',
                't',
                'h',
                'r',
                ';',
                ' ',
            ] + spec_digits(running) + seq![' ', 'r', 'u', 'n', 'n', 'i', 'n', 'g'],
            style: spec_fg(Color::Cyan),
        },
    ]
}

/// The load-average line: the three figures at two decimals.
pub open spec fn spec_load_line(load: LoadAverage) -> Seq<SpanView> {
    seq![
        spec_info_padding(),
        SpanView {
            text: seq!['L', 'o', 'a', 'd', ' ', 'a', 'v', 'e', 'r', 'a', 'g', 'e', ':', ' ']
                + spec_two_decimals(load.one_hundredths as nat) + seq![' ']
                + spec_two_decimals(load.five_hundredths as nat) + seq![' ']
                + spec_two_decimals(load.fifteen_hundredths as nat),
            style: spec_fg(Color::Cyan),
        },
    ]
}

/// The uptime line, in bold.
pub open spec fn spec_uptime_line(uptime: nat) -> Seq<SpanView> {
    seq![
        spec_info_padding(),
        SpanView {
            text: seq!['U', 'p', 't', 'i', 'm', 'e', ':', ' ']
                + crate::helpers::spec_format_uptime(uptime),
            style: crate::style::spec_fg_bold(Color::Cyan),
        },
    ]
}

fn info_padding_span() -> (s: Span)
    ensures
        s@ == spec_info_padding(),
{
    let mut pad: Vec<char> = Vec::new();
    pad.push(' ');
    pad.push(' ');
    assert(pad@ =~= seq![' ', ' ']);
    crate::style::span_from_chars(&pad, plain())
}

/// Build the system-info panel: task counts, load averages, and uptime.
pub fn draw_system_info(
    processes: &Vec<ProcessSample>,
    load_average: LoadAverage,
    uptime_seconds: u64,
) -> (lines: Vec<Line>)
    ensures
        lines@.len() == 3,
        lines@[0]@ == spec_tasks_line(processes@.len(), spec_count_running(processes@)),
        lines@[1]@ == spec_load_line(load_average),
        lines@[2]@ == spec_uptime_line(uptime_seconds as nat),
{
    let running = count_running(processes);

    let mut tasks: Vec<char> = Vec::new();
    tasks.push('T');
    tasks.push('a');
    tasks.push('s');
    tasks.push('k');
    tasks.push('s');
    tasks.push(':');
    tasks.push(' ');
    assert(tasks@ =~= seq!['T', 'a', 's', 'k', 's', ':', ' ']);
    push_digits(&mut tasks, processes.len() as u64);
    let ghost tasks1 = tasks@;
    tasks.push(',');
    tasks.push(' ');
    tasks.push('N');
    tasks.push('/');
    tasks.push('A');
    tasks.push(' ');
    tasks.push('t');
    tasks.push('h');
    tasks.push('r');
    tasks.push(',');
    tasks.push(' ');
    tasks.push('0');
    tasks.push(' ');
    tasks.push('k');
    tasks.push('t');
    tasks.push('h');
    tasks.push('r');
    tasks.push(';');
    tasks.push(' ');
    assert(tasks@ =~= tasks1 + seq![
        ',',
        ' ',
        'N',
        '/',
        'A',
        ' ',
        't',
        'h',
        'r',
        ',',
        ' ',
        '0',
        ' ',
        'k',
        't',
        'h',
        'r',
        ';',
        ' ',
    ]);
    push_digits(&mut tasks, running as u64);
    let ghost tasks2 = tasks@;
    tasks.push(' ');
    tasks.push('r');
    tasks.push('u');
    tasks.push('n');
    tasks.push('n');
    tasks.push('i');
    tasks.push('n');
    tasks.push('g');
    assert(tasks@ =~= tasks2 + seq![' ', 'r', 'u', 'n', 'n', 'i', 'n', 'g']);
    assert(tasks@ =~= seq!['T', 'a', 's', 'k', 's', ':', ' ']
        + spec_digits(processes@.len()) + seq![
        ',',
        ' ',
        'N',
        '/',
        'A',
        ' ',
        't',
        'h',
        'r',
        ',',
        ' ',
        '0',
        ' ',
        'k',
        't',
        'h',
        'r',
        ';',
        ' ',
    ] + spec_digits(spec_count_running(processes@)) + seq![
        ' ',
        'r',
        'u',
        'n',
        'n',
        'i',
        'n',
        'g',
    ]);

    let mut load: Vec<char> = Vec::new();
    load.push('L');
    load.push('o');
    load.push('a');
    load.push('d');
    load.push(' ');
    load.push('a');
    load.push('v');
    load.push('e');
    load.push('r');
    load.push('a');
    load.push('g');
    load.push('e');
    load.push(':');
    load.push(' ');
    assert(load@ =~= seq!['L', 'o', 'a', 'd', ' ', 'a', 'v', 'e', 'r', 'a', 'g', 'e', ':', ' ']);
    push_two_decimals(&mut load, load_average.one_hundredths);
    load.push(' ');
    push_two_decimals(&mut load, load_average.five_hundredths);
    load.push(' ');
    push_two_decimals(&mut load, load_average.fifteen_hundredths);
    assert(load@ =~= seq!['L', 'o', 'a', 'd', ' ', 'a', 'v', 'e', 'r', 'a', 'g', 'e', ':', ' ']
        + spec_two_decimals(load_average.one_hundredths as nat) + seq![' ']
        + spec_two_decimals(load_average.five_hundredths as nat) + seq![' ']
        + spec_two_decimals(load_average.fifteen_hundredths as nat));

    let mut up: Vec<char> = Vec::new();
    up.push('U');
    up.push('p');
    up.push('t');
    up.push('i');
    up.push('m');
    up.push('e');
    up.push(':');
    up.push(' ');
    crate::helpers::push_format_uptime(&mut up, uptime_seconds);

    let mut lines: Vec<Line> = Vec::new();

    let mut spans0: Vec<Span> = Vec::new();
    spans0.push(info_padding_span());
    spans0.push(crate::style::span_from_chars(&tasks, fg(Color::Cyan)));
    let line0 = Line { spans: spans0 };
    assert(line0@ =~~= spec_tasks_line(processes@.len(), spec_count_running(processes@)));
    lines.push(line0);

    let mut spans1: Vec<Span> = Vec::new();
    spans1.push(info_padding_span());
    spans1.push(crate::style::span_from_chars(&load, fg(Color::Cyan)));
    let line1 = Line { spans: spans1 };
    assert(line1@ =~~= spec_load_line(load_average));
    lines.push(line1);

    let mut spans2: Vec<Span> = Vec::new();
    spans2.push(info_padding_span());
    spans2.push(crate::style::span_from_chars(&up, crate::style::fg_bold(Color::Cyan)));
    let line2 = Line { spans: spans2 };
    assert(line2@ =~~= spec_uptime_line(uptime_seconds as nat));
    lines.push(line2);

    assert(lines@[0] == line0);
    lines
}

/// The bar width of the memory panel: the panel width minus label and
/// bracket overhead, floored at ten cells.
pub open spec fn spec_memory_panel_bar_length(width: nat) -> nat {
    let b = if width > 8 {
        (width - 8) as nat
    } else {
        0nat
    };
    if b < 10 {
        10nat
    } else {
        b
    }
}

/// Build the memory panel: stacked "Mem" and "Swp" bars.
pub fn draw_memory_bars(
    memory: crate::snapshot::MemoryStats,
    swap: crate::snapshot::MemoryStats,
    area_width: u16,
) -> (lines: Vec<Line>)
    ensures
        lines@.len() == 2,
        lines@[0]@ == spec_memory_bar_line(
            seq!['M', 'e', 'm'],
            memory.used_bytes as nat,
            memory.total_bytes as nat,
            spec_memory_panel_bar_length(area_width as nat),
            5,
        ),
        lines@[1]@ == spec_memory_bar_line(
            seq!['S', 'w', 'p'],
            swap.used_bytes as nat,
            swap.total_bytes as nat,
            spec_memory_panel_bar_length(area_width as nat),
            5,
        ),
{
    let w = area_width as usize;
    let b: usize = if w > 8 {
        w - 8
    } else {
        0
    };
    let bar_length: usize = if b < 10 {
        10
    } else {
        b
    };
    assert(bar_length as nat == spec_memory_panel_bar_length(area_width as nat));

    let mut mem_label: Vec<char> = Vec::new();
    mem_label.push('M');
    mem_label.push('e');
    mem_label.push('m');
    assert(mem_label@ =~= seq!['M', 'e', 'm']);
    let mut swp_label: Vec<char> = Vec::new();
    swp_label.push('S');
    swp_label.push('w');
    swp_label.push('p');
    assert(swp_label@ =~= seq!['S', 'w', 'p']);

    let mut lines: Vec<Line> = Vec::new();
    let mem_line = create_memory_bar(
        &mem_label,
        memory.used_bytes,
        memory.total_bytes,
        bar_length,
        LABEL_WIDTH,
    );
    lines.push(mem_line);
    let swp_line = create_memory_bar(
        &swp_label,
        swap.used_bytes,
        swap.total_bytes,
        bar_length,
        LABEL_WIDTH,
    );
    lines.push(swp_line);
    lines
}

/// The one-letter status code of a process state.
pub open spec fn spec_status_char(st: ProcessStatus) -> char {
    match st {
        ProcessStatus::Running => 'R',
        ProcessStatus::Sleeping => 'S',
        ProcessStatus::Zombie => 'Z',
        ProcessStatus::Other(c) => c,
    }
}

/// The one-letter status code shown in the table's S column.
pub fn get_process_status(st: ProcessStatus) -> (c: char)
    ensures
        c == spec_status_char(st),
{
    match st {
        ProcessStatus::Running => 'R',
        ProcessStatus::Sleeping => 'S',
        ProcessStatus::Zombie => 'Z',
        ProcessStatus::Other(c) => c,
    }
}

/// The display name for a process owner: the directory's entry, or `"?"`
/// when the owner id is absent or unmapped.
pub open spec fn spec_user_name(owner: Option<u32>, users: Map<u32, String>) -> Seq<char> {
    match owner {
        Some(uid) => if users.contains_key(uid) {
            users[uid]@
        } else {
            seq!['?']
        },
        None => seq!['?'],
    }
}

fn lookup_user(owner: Option<u32>, users: &HashMap<u32, String>) -> (name: String)
    ensures
        name@ == spec_user_name(owner, users@),
{
    let found: Option<String> = match owner {
        Some(uid) => match users.get(&uid) {
            Some(n) => Some(n.clone()),
            None => None,
        },
        None => None,
    };
    match found {
        Some(n) => n,
        None => {
            let mut q: Vec<char> = Vec::new();
            q.push('?');
            assert(q@ =~= seq!['?']);
            chars_to_string(&q)
        },
    }
}

/// A one-decimal value from tenths, with no padding: how the CPU% and MEM%
/// cells print.
pub open spec fn spec_tenths_chars(tenths: nat) -> Seq<char> {
    spec_digits(tenths / 10) + seq!['.', digit_char(tenths % 10)]
}

fn push_tenths(out: &mut Vec<char>, tenths: u32)
    ensures
        final(out)@ == old(out)@ + spec_tenths_chars(tenths as nat),
{
    push_digits(out, (tenths / 10) as u64);
    out.push('.');
    out.push(crate::helpers::digit_to_char((tenths % 10) as u64));
    assert(out@ =~= old(out)@ + spec_tenths_chars(tenths as nat));
}

/// The command column: the argument strings joined by single spaces.
pub open spec fn spec_join_spaces(parts: Seq<Seq<char>>) -> Seq<char>
    decreases parts.len(),
{
    if parts.len() == 0 {
        Seq::empty()
    } else if parts.len() == 1 {
        parts[0]
    } else {
        spec_join_spaces(parts.drop_last()) + seq![' '] + parts.last()
    }
}

/// Joins a command's argument strings with single spaces.
pub fn join_command(parts: &Vec<String>) -> (s: String)
    ensures
        s@ == spec_join_spaces(parts.deep_view()),
{
    let mut s = String::new();
    let mut i: usize = 0;
    while i < parts.len()
        invariant
            i <= parts@.len(),
            s@ == spec_join_spaces(parts.deep_view().take(i as int)),
        decreases parts@.len() - i,
    {
        if i > 0 {
            s.append(" ");
            proof {
                reveal_strlit(" ");
            }
        }
        s.append(parts[i].as_str());
        proof {
            let dv = parts.deep_view();
            assert(dv.take(i + 1).drop_last() =~= dv.take(i as int));
            assert(dv.take(i + 1).last() == dv[i as int]);
            assert(dv[i as int] == parts@[i as int]@);
            assert(s@ == spec_join_spaces(dv.take(i + 1)));
        }
        i = i + 1;
    }
    proof {
        assert(parts.deep_view().take(parts@.len() as int) =~= parts.deep_view());
    }
    s
}

/// The reconciled memory for a pid: the side-channel entry, else the
/// fallback values.
pub open spec fn spec_process_memory(
    pid: u32,
    mem: Map<u32, ProcessMemory>,
    fallback_virt: u64,
    fallback_res: u64,
) -> ProcessMemory {
    if mem.contains_key(pid) {
        mem[pid]
    } else {
        ProcessMemory { virtual_memory: fallback_virt, resident_memory: fallback_res }
    }
}

/// The priority column's text for a pid.
pub open spec fn spec_priority_text(pid: u32, prio: Map<u32, ProcessPriority>) -> Seq<char> {
    if prio.contains_key(pid) {
        prio[pid].priority@
    } else {
        seq!['?']
    }
}

/// The nice column's text for a pid.
pub open spec fn spec_nice_text(pid: u32, prio: Map<u32, ProcessPriority>) -> Seq<char> {
    if prio.contains_key(pid) {
        prio[pid].nice@
    } else {
        seq!['?']
    }
}

/// The style of a table row: the top row gets a reverse-video highlight;
/// the others alternate background shades by parity.
pub open spec fn spec_row_style(index: nat) -> Style {
    if index == 0 {
        Style { fg: Some(Color::White), bg: Some(Color::Blue), bold: false, reversed: true }
    } else if index % 2 == 1 {
        Style { fg: None, bg: Some(Color::Black), bold: false, reversed: false }
    } else {
        Style { fg: None, bg: Some(Color::Rgb(30, 30, 30)), bold: false, reversed: false }
    }
}

fn row_style(index: usize) -> (s: Style)
    ensures
        s == spec_row_style(index as nat),
{
    if index == 0 {
        Style { fg: Some(Color::White), bg: Some(Color::Blue), bold: false, reversed: true }
    } else if index % 2 == 1 {
        Style { fg: None, bg: Some(Color::Black), bold: false, reversed: false }
    } else {
        Style { fg: None, bg: Some(Color::Rgb(30, 30, 30)), bold: false, reversed: false }
    }
}

/// The MEM% column's value in tenths of a percent: resident over total,
/// clamped to 100% (zero when the total is zero).
pub open spec fn spec_mem_percent_tenths(resident: nat, total: nat) -> nat {
    spec_fill_count(resident, total, 1000)
}

/// One process table row, fully determined by the sample, the lookup maps,
/// the total memory, and the row's index in sort order.
pub open spec fn spec_process_row(
    index: nat,
    p: ProcessSample,
    users: Map<u32, String>,
    prio: Map<u32, ProcessPriority>,
    mem: Map<u32, ProcessMemory>,
    total_memory: nat,
) -> crate::style::RowView {
    let pm = spec_process_memory(
        p.pid,
        mem,
        ((p.virtual_memory_bytes as nat) / 1024) as u64,
        ((p.resident_memory_bytes as nat) / 1024) as u64,
    );
    let code = spec_status_char(p.status);
    let mem_tenths = spec_mem_percent_tenths(p.resident_memory_bytes as nat, total_memory);
    crate::style::RowView {
        cells: seq![
            SpanView { text: spec_digits(p.pid as nat), style: spec_fg(Color::White) },
            SpanView { text: spec_user_name(p.owner_id, users), style: spec_fg(Color::Cyan) },
            SpanView { text: spec_priority_text(p.pid, prio), style: spec_fg(Color::White) },
            SpanView { text: spec_nice_text(p.pid, prio), style: spec_fg(Color::White) },
            SpanView {
                text: spec_format_bytes(pm.virtual_memory as nat),
                style: spec_fg(Color::Green),
            },
            SpanView {
                text: spec_format_bytes(pm.resident_memory as nat),
                style: spec_fg(Color::Green),
            },
            SpanView { text: seq![code], style: spec_status_style(code) },
            SpanView {
                text: spec_tenths_chars(p.cpu_tenths as nat),
                style: spec_usage_style(p.cpu_tenths),
            },
            SpanView {
                text: spec_tenths_chars(mem_tenths),
                style: spec_usage_style(mem_tenths as u32),
            },
            SpanView {
                text: crate::helpers::spec_format_runtime(p.run_time_seconds as nat),
                style: spec_fg(Color::White),
            },
            SpanView {
                text: spec_join_spaces(p.command.deep_view()),
                style: spec_fg(Color::Cyan),
            },
        ],
        style: spec_row_style(index),
    }
}

/// Build one process table row: resolved owner name, reconciled
/// priority/nice and memory, status code, usage percentages, runtime, and
/// the joined command, colored per column, with the row style of `index`.
pub fn create_process_row(
    index: usize,
    process: &ProcessSample,
    uid_to_user: &HashMap<u32, String>,
    priority_map: &HashMap<u32, ProcessPriority>,
    memory_map: &HashMap<u32, ProcessMemory>,
    total_memory: u64,
) -> (row: crate::style::Row)
    ensures
        row@ == spec_process_row(
            index as nat,
            *process,
            uid_to_user@,
            priority_map@,
            memory_map@,
            total_memory as nat,
        ),
{
    let pid = process.pid;
    let user = lookup_user(process.owner_id, uid_to_user);
    let priority_info = get_process_priority(pid, priority_map);
    let memory_info = get_process_memory(
        pid,
        memory_map,
        process.virtual_memory_bytes / 1024,
        process.resident_memory_bytes / 1024,
    );
    let code = get_process_status(process.status);
    let mem_tenths = fill_count(process.resident_memory_bytes, total_memory, 1000);
    let runtime = crate::helpers::format_runtime(process.run_time_seconds);
    let command = join_command(&process.command);

    let mut pid_chars: Vec<char> = Vec::new();
    push_digits(&mut pid_chars, pid as u64);
    let mut status_chars: Vec<char> = Vec::new();
    status_chars.push(code);
    assert(status_chars@ =~= seq![code]);
    let mut cpu_chars: Vec<char> = Vec::new();
    push_tenths(&mut cpu_chars, process.cpu_tenths);
    let mut mem_chars: Vec<char> = Vec::new();
    push_tenths(&mut mem_chars, mem_tenths as u32);

    let mut cells: Vec<Span> = Vec::new();
    cells.push(crate::style::span_from_chars(&pid_chars, fg(Color::White)));
    cells.push(Span { text: user, style: fg(Color::Cyan) });
    cells.push(Span { text: priority_info.priority, style: fg(Color::White) });
    cells.push(Span { text: priority_info.nice, style: fg(Color::White) });
    cells.push(Span {
        text: crate::helpers::format_bytes(memory_info.virtual_memory),
        style: fg(Color::Green),
    });
    cells.push(Span {
        text: crate::helpers::format_bytes(memory_info.resident_memory),
        style: fg(Color::Green),
    });
    cells.push(crate::style::span_from_chars(&status_chars, get_status_color(code)));
    cells.push(crate::style::span_from_chars(&cpu_chars, get_usage_color(process.cpu_tenths)));
    cells.push(crate::style::span_from_chars(&mem_chars, get_usage_color(mem_tenths as u32)));
    cells.push(Span { text: runtime, style: fg(Color::White) });
    cells.push(Span { text: command, style: fg(Color::Cyan) });

    let row = crate::style::Row { cells, style: row_style(index) };
    assert(row@ =~~= spec_process_row(
        index as nat,
        *process,
        uid_to_user@,
        priority_map@,
        memory_map@,
        total_memory as nat,
    ));
    row
}

/// A table column's width rule: a fixed width or a flexible minimum.
#[derive(Clone, Copy, Debug, PartialEq, Eq)]
pub enum ColumnConstraint {
    Length(u16),
    Min(u16),
}

/// The fixed column order and widths of the process table.
pub open spec fn spec_table_constraints() -> Seq<ColumnConstraint> {
    seq![
        ColumnConstraint::Length(7),
        ColumnConstraint::Length(12),
        ColumnConstraint::Length(5),
        ColumnConstraint::Length(4),
        ColumnConstraint::Length(8),
        ColumnConstraint::Length(8),
        ColumnConstraint::Length(2),
        ColumnConstraint::Length(6),
        ColumnConstraint::Length(6),
        ColumnConstraint::Length(8),
        ColumnConstraint::Min(10),
    ]
}

/// The column widths, in order: PID, USER, PRI, NI, VIRT, RES, S, CPU%,
/// MEM%, TIME+, and a flexible Command column.
pub fn get_table_constraints() -> (v: Vec<ColumnConstraint>)
    ensures
        v@ == spec_table_constraints(),
{
    let mut v: Vec<ColumnConstraint> = Vec::new();
    v.push(ColumnConstraint::Length(7));
    v.push(ColumnConstraint::Length(12));
    v.push(ColumnConstraint::Length(5));
    v.push(ColumnConstraint::Length(4));
    v.push(ColumnConstraint::Length(8));
    v.push(ColumnConstraint::Length(8));
    v.push(ColumnConstraint::Length(2));
    v.push(ColumnConstraint::Length(6));
    v.push(ColumnConstraint::Length(6));
    v.push(ColumnConstraint::Length(8));
    v.push(ColumnConstraint::Min(10));
    assert(v@ =~= spec_table_constraints());
    v
}

/// The table's sort order: CPU percentage descending, ties broken by
/// ascending pid.
pub open spec fn spec_table_order(a: ProcessSample, b: ProcessSample) -> bool {
    a.cpu_tenths > b.cpu_tenths || (a.cpu_tenths == b.cpu_tenths && a.pid <= b.pid)
}

/// Sort processes by descending CPU percentage, ties by ascending pid: the
/// result is a permutation of the input in table order.
pub fn sort_processes(v: Vec<ProcessSample>) -> (r: Vec<ProcessSample>)
    ensures
        r@.len() == v@.len(),
        r@.to_multiset() == v@.to_multiset(),
        forall|i: int, j: int|
            0 <= i < j < r@.len() ==> spec_table_order(r@[i], r@[j]),
{
    broadcast use vstd::seq_lib::group_to_multiset_ensures;
    broadcast use vstd::multiset::group_multiset_axioms;

    let mut rest = v;
    let mut out: Vec<ProcessSample> = Vec::new();
    proof {
        assert(out@.to_multiset().add(rest@.to_multiset()) =~= v@.to_multiset());
    }
    while rest.len() > 0
        invariant
            out@.len() + rest@.len() == v@.len(),
            out@.to_multiset().add(rest@.to_multiset()) == v@.to_multiset(),
            forall|i: int, j: int|
                0 <= i < j < out@.len() ==> spec_table_order(out@[i], out@[j]),
            forall|i: int, k: int|
                0 <= i < out@.len() && 0 <= k < rest@.len() ==> spec_table_order(
                    out@[i],
                    rest@[k],
                ),
        decreases rest@.len(),
    {
        let mut best: usize = 0;
        let mut j: usize = 1;
        while j < rest.len()
            invariant
                rest@.len() > 0,
                best < j,
                j <= rest@.len(),
                forall|k: int| 0 <= k < j ==> spec_table_order(rest@[best as int], rest@[k]),
            decreases rest@.len() - j,
        {
            let better = rest[j].cpu_tenths > rest[best].cpu_tenths || (rest[j].cpu_tenths
                == rest[best].cpu_tenths && rest[j].pid < rest[best].pid);
            if better {
                best = j;
            }
            j = j + 1;
        }
        let ghost old_out = out@;
        let ghost old_rest = rest@;
        let item = rest.remove(best);
        out.push(item);
        proof {
            assert(old_rest.contains(old_rest[best as int]));
            vstd::seq_lib::to_multiset_remove::<ProcessSample>(old_rest, best as int);
            vstd::seq_lib::to_multiset_contains::<ProcessSample>(old_rest, item);
            assert(old_rest.to_multiset().count(item) > 0);
            assert(rest@.to_multiset() == old_rest.to_multiset().remove(item));
            vstd::seq_lib::to_multiset_build::<ProcessSample>(old_out, item);
            assert(out@.to_multiset() == old_out.to_multiset().insert(item));
            assert(out@.to_multiset().add(rest@.to_multiset()) =~= v@.to_multiset());
            assert forall|i: int, k: int|
                0 <= i < out@.len() && 0 <= k < rest@.len() implies spec_table_order(
                out@[i],
                rest@[k],
            ) by {
                let orig_k = if k < best as int {
                    k
                } else {
                    k + 1
                };
                assert(rest@[k] == old_rest[orig_k]);
                if i < old_out.len() {
                    assert(out@[i] == old_out[i]);
                } else {
                    assert(out@[i] == item);
                    assert(spec_table_order(old_rest[best as int], old_rest[orig_k]));
                }
            }
        }
    }
    proof {
        assert(rest@.to_multiset().len() == 0);
        assert(out@.to_multiset() =~= v@.to_multiset());
    }
    out
}

/// Build the process table body: the processes in table order, one styled
/// row each, with the top consumer highlighted.
pub fn draw_process_table(
    processes: Vec<ProcessSample>,
    uid_to_user: &HashMap<u32, String>,
    priority_map: &HashMap<u32, ProcessPriority>,
    memory_map: &HashMap<u32, ProcessMemory>,
    total_memory: u64,
) -> (rows: Vec<crate::style::Row>)
    ensures
        rows@.len() == processes@.len(),
        exists|sorted: Seq<ProcessSample>|
            {
                &&& #[trigger] sorted.to_multiset() == processes@.to_multiset()
                &&& sorted.len() == rows@.len()
                &&& (forall|i: int, j: int|
                    0 <= i < j < sorted.len() ==> spec_table_order(sorted[i], sorted[j]))
                &&& (forall|i: int|
                    0 <= i < rows@.len() ==> rows@[i]@ == spec_process_row(
                        i as nat,
                        sorted[i],
                        uid_to_user@,
                        priority_map@,
                        memory_map@,
                        total_memory as nat,
                    ))
            },
{
    broadcast use vstd::seq_lib::group_to_multiset_ensures;

    let ghost orig = processes@;
    let sorted = sort_processes(processes);
    let mut rows: Vec<crate::style::Row> = Vec::new();
    let mut i: usize = 0;
    while i < sorted.len()
        invariant
            i <= sorted@.len(),
            rows@.len() == i,
            forall|k: int|
                0 <= k < i ==> rows@[k]@ == spec_process_row(
                    k as nat,
                    sorted@[k],
                    uid_to_user@,
                    priority_map@,
                    memory_map@,
                    total_memory as nat,
                ),
        decreases sorted@.len() - i,
    {
        let row = create_process_row(
            i,
            &sorted[i],
            uid_to_user,
            priority_map,
            memory_map,
            total_memory,
        );
        rows.push(row);
        i = i + 1;
    }
    proof {
        assert(sorted@.to_multiset() == orig.to_multiset());
    }
    rows
}

/// The table header's cells, each bold.
pub open spec fn spec_table_header() -> crate::style::RowView {
    crate::style::RowView {
        cells: seq![
            SpanView { text: seq!['P', 'I', 'D'], style: crate::style::spec_bold() },
            SpanView { text: seq!['U', 'S', 'E', 'R'], style: crate::style::spec_bold() },
            SpanView { text: seq!['P', 'R', 'I'], style: crate::style::spec_bold() },
            SpanView { text: seq!['N', 'I'], style: crate::style::spec_bold() },
            SpanView { text: seq!['V', 'I', 'R', 'T'], style: crate::style::spec_bold() },
            SpanView { text: seq!['R', 'E', 'S'], style: crate::style::spec_bold() },
            SpanView { text: seq!['S'], style: crate::style::spec_bold() },
            SpanView { text: seq!['C', 'P', 'U', '%', ' '], style: crate::style::spec_bold() },
            SpanView { text: seq!['M', 'E', 'M', '%', ' '], style: crate::style::spec_bold() },
            SpanView { text: seq!['T', 'I', 'M', 'E', '+'], style: crate::style::spec_bold() },
            SpanView {
                text: seq!['C', 'o', 'm', 'm', 'a', 'n', 'd'],
                style: crate::style::spec_bold(),
            },
        ],
        style: spec_plain(),
    }
}

fn header_cell(text: &Vec<char>) -> (s: Span)
    ensures
        s@ == (SpanView { text: text@, style: crate::style::spec_bold() }),
{
    crate::style::span_from_chars(text, crate::style::bold_style())
}

/// Build the table header row.
pub fn create_table_header() -> (r: crate::style::Row)
    ensures
        r@ == spec_table_header(),
{
    let mut cells: Vec<Span> = Vec::new();

    let mut t: Vec<char> = Vec::new();
    t.push('P');
    t.push('I');
    t.push('D');
    assert(t@ =~= seq!['P', 'I', 'D']);
    cells.push(header_cell(&t));

    let mut t: Vec<char> = Vec::new();
    t.push('U');
    t.push('S');
    t.push('E');
    t.push('R');
    assert(t@ =~= seq!['U', 'S', 'E', 'R']);
    cells.push(header_cell(&t));

    let mut t: Vec<char> = Vec::new();
    t.push('P');
    t.push('R');
    t.push('I');
    assert(t@ =~= seq!['P', 'R', 'I']);
    cells.push(header_cell(&t));

    let mut t: Vec<char> = Vec::new();
    t.push('N');
    t.push('I');
    assert(t@ =~= seq!['N', 'I']);
    cells.push(header_cell(&t));

    let mut t: Vec<char> = Vec::new();
    t.push('V');
    t.push('I');
    t.push('R');
    t.push('T');
    assert(t@ =~= seq!['V', 'I', 'R', 'T']);
    cells.push(header_cell(&t));

    let mut t: Vec<char> = Vec::new();
    t.push('R');
    t.push('E');
    t.push('S');
    assert(t@ =~= seq!['R', 'E', 'S']);
    cells.push(header_cell(&t));

    let mut t: Vec<char> = Vec::new();
    t.push('S');
    assert(t@ =~= seq!['S']);
    cells.push(header_cell(&t));

    let mut t: Vec<char> = Vec::new();
    t.push('C');
    t.push('P');
    t.push('U');
    t.push('%');
    t.push(' ');
    assert(t@ =~= seq!['C', 'P', 'U', '%', ' ']);
    cells.push(header_cell(&t));

    let mut t: Vec<char> = Vec::new();
    t.push('M');
    t.push('E');
    t.push('M');
    t.push('%');
    t.push(' ');
    assert(t@ =~= seq!['M', 'E', 'M', '%', ' ']);
    cells.push(header_cell(&t));

    let mut t: Vec<char> = Vec::new();
    t.push('T');
    t.push('I');
    t.push('M');
    t.push('E');
    t.push('+');
    assert(t@ =~= seq!['T', 'I', 'M', 'E', '+']);
    cells.push(header_cell(&t));

    let mut t: Vec<char> = Vec::new();
    t.push('C');
    t.push('o');
    t.push('m');
    t.push('m');
    t.push('a');
    t.push('n');
    t.push('d');
    assert(t@ =~= seq!['C', 'o', 'm', 'm', 'a', 'n', 'd']);
    cells.push(header_cell(&t));

    let r = crate::style::Row { cells, style: plain() };
    assert(r@ =~~= spec_table_header());
    r
}

/// The refresh cadence of the dashboard, in milliseconds.
pub const REFRESH_INTERVAL_MS: u64 = 1000;

/// The bounded input-poll timeout, in milliseconds.
pub const EVENT_POLL_TIMEOUT_MS: u64 = 100;

/// Application state: whether the help overlay is showing.
pub struct AppState {
    pub show_help: bool,
}

/// An input key, reduced to what the dashboard distinguishes: a character,
/// a function key, or anything else.
#[derive(Clone, Copy, Debug, PartialEq, Eq)]
pub enum Key {
    Char(char),
    Function(u8),
    Other,
}

/// The key that signals loop termination.
pub open spec fn spec_is_quit(key: Key) -> bool {
    key == Key::Char('q')
}

/// The key that shows the help overlay.
pub open spec fn spec_is_help(key: Key) -> bool {
    key == Key::Function(1)
}

/// The help flag after a key press: the quit key changes nothing (the loop
/// terminates instead); any other key dismisses a showing overlay; the help
/// key raises it from the dashboard; everything else is a no-op.
pub open spec fn spec_next_show_help(show_help: bool, key: Key) -> bool {
    if spec_is_quit(key) {
        show_help
    } else if show_help {
        false
    } else if spec_is_help(key) {
        true
    } else {
        false
    }
}

/// Whether a key requests loop termination.
pub fn should_quit(key: Key) -> (r: bool)
    ensures
        r == spec_is_quit(key),
{
    match key {
        Key::Char(c) => c == 'q',
        _ => false,
    }
}

/// Consume one key event, updating the help toggle.
pub fn handle_key_event(app_state: &mut AppState, key: Key)
    ensures
        final(app_state).show_help == spec_next_show_help(old(app_state).show_help, key),
{
    let is_quit = match key {
        Key::Char(c) => c == 'q',
        _ => false,
    };
    let is_help_key = match key {
        Key::Function(n) => n == 1,
        _ => false,
    };
    if is_quit {
        // Termination is signaled to the driving loop; the state keeps.
    } else if app_state.show_help {
        app_state.show_help = false;
    } else if is_help_key {
        app_state.show_help = true;
    }
}

/// Whether the driving loop should refetch the snapshot: only on the
/// dashboard, and only once the refresh interval has elapsed.
pub fn should_refresh(show_help: bool, elapsed_ms: u64) -> (r: bool)
    ensures
        r == (!show_help && elapsed_ms > REFRESH_INTERVAL_MS),
{
    !show_help && elapsed_ms > REFRESH_INTERVAL_MS
}

/// Law: the help key raises the overlay from the dashboard; any non-quit
/// key dismisses a showing overlay; the quit key never changes the state,
/// whichever screen is up.
pub proof fn lemma_help_toggle(show_help: bool, key: Key)
    ensures
        !show_help && spec_is_help(key) ==> spec_next_show_help(show_help, key),
        show_help && !spec_is_quit(key) ==> !spec_next_show_help(show_help, key),
        spec_is_quit(key) ==> spec_next_show_help(show_help, key) == show_help,
{
}

/// Relies on chrono's `Utc::now` and `Datelike::year`: the current UTC
/// year.  Nothing is assumed of the clock, so no result is promised; a
/// (pre-1970) negative year would be cast into a large unsigned value.
#[verifier::external_body]
fn current_year() -> u32 {
    chrono::Datelike::year(&chrono::Utc::now()) as u32
}

/// The help overlay's lines for a given copyright end year.
pub open spec fn spec_help_lines(year: nat) -> Seq<Seq<SpanView>> {
    let pad = SpanView { text: seq![' ', ' ', ' ', ' '], style: spec_plain() };
    let empty = seq![SpanView { text: Seq::<char>::empty(), style: spec_plain() }];
    seq![
        empty,
        seq![
            pad,
            SpanView {
                text: "Sysly - macOS System Monitor Experiment"@,
                style: crate::style::spec_fg_bold(Color::Yellow),
            },
            pad,
        ],
        seq![
            pad,
            SpanView {
                text: "Version 1.1.0 - Conceived Jul 1, 2019"@,
                style: spec_fg(Color::Cyan),
            },
            pad,
        ],
        seq![
            pad,
            SpanView {
                text: seq!['(', 'C', ')', ' ', '2', '0', '1', '9', '-'] + spec_digits(year),
                style: spec_fg(Color::Yellow),
            },
            pad,
        ],
        seq![
            pad,
            SpanView {
                text: "Inspired by htop. Written in Rust using sysinfo."@,
                style: spec_fg(Color::Magenta),
            },
            pad,
        ],
        seq![
            pad,
            pad,
            SpanView {
                text: "Released under the Apache License 2.0."@,
                style: spec_fg(Color::Yellow),
            },
            pad,
        ],
        empty,
        seq![
            pad,
            SpanView {
                text: "Press any key to return."@,
                style: crate::style::spec_fg_bold(Color::Green),
            },
            pad,
        ],
        empty,
    ]
}

fn help_pad_span() -> (s: Span)
    ensures
        s@ == (SpanView { text: seq![' ', ' ', ' ', ' '], style: spec_plain() }),
{
    let pad: Vec<char> = vec![' '; 4];
    assert(pad@ =~= seq![' ', ' ', ' ', ' ']);
    crate::style::span_from_chars(&pad, plain())
}

fn empty_line() -> (l: Line)
    ensures
        l@ == seq![SpanView { text: Seq::<char>::empty(), style: spec_plain() }],
{
    let empty: Vec<char> = Vec::new();
    let mut spans: Vec<Span> = Vec::new();
    spans.push(crate::style::span_from_chars(&empty, plain()));
    let l = Line { spans };
    assert(l@ =~~= seq![SpanView { text: Seq::<char>::empty(), style: spec_plain() }]);
    l
}

fn padded_line(text: &str, style: Style) -> (l: Line)
    ensures
        l@ == seq![
            SpanView { text: seq![' ', ' ', ' ', ' '], style: spec_plain() },
            SpanView { text: text@, style },
            SpanView { text: seq![' ', ' ', ' ', ' '], style: spec_plain() },
        ],
{
    let mut spans: Vec<Span> = Vec::new();
    spans.push(help_pad_span());
    spans.push(crate::style::span_from_str(text, style));
    spans.push(help_pad_span());
    let l = Line { spans };
    assert(l@ =~~= seq![
        SpanView { text: seq![' ', ' ', ' ', ' '], style: spec_plain() },
        SpanView { text: text@, style },
        SpanView { text: seq![' ', ' ', ' ', ' '], style: spec_plain() },
    ]);
    l
}

/// Build the help overlay's lines for the given copyright end year.
pub fn help_lines(year: u32) -> (lines: Vec<Line>)
    ensures
        lines@.len() == spec_help_lines(year as nat).len(),
        forall|i: int|
            0 <= i < lines@.len() ==> lines@[i]@ == spec_help_lines(year as nat)[i],
{
    let mut lines: Vec<Line> = Vec::new();
    lines.push(empty_line());
    lines.push(
        padded_line(
            "Sysly - macOS System Monitor Experiment",
            crate::style::fg_bold(Color::Yellow),
        ),
    );
    lines.push(padded_line("Version 1.1.0 - Conceived Jul 1, 2019", fg(Color::Cyan)));

    let mut copyright: Vec<char> = Vec::new();
    copyright.push('(');
    copyright.push('C');
    copyright.push(')');
    copyright.push(' ');
    copyright.push('2');
    copyright.push('0');
    copyright.push('1');
    copyright.push('9');
    copyright.push('-');
    assert(copyright@ =~= seq!['(', 'C', ')', ' ', '2', '0', '1', '9', '-']);
    push_digits(&mut copyright, year as u64);
    let mut cspans: Vec<Span> = Vec::new();
    cspans.push(help_pad_span());
    cspans.push(crate::style::span_from_chars(&copyright, fg(Color::Yellow)));
    cspans.push(help_pad_span());
    let cline = Line { spans: cspans };
    assert(cline@ =~~= spec_help_lines(year as nat)[3]);
    lines.push(cline);

    lines.push(
        padded_line("Inspired by htop. Written in Rust using sysinfo.", fg(Color::Magenta)),
    );

    let mut lspans: Vec<Span> = Vec::new();
    lspans.push(help_pad_span());
    lspans.push(help_pad_span());
    lspans.push(
        crate::style::span_from_str("Released under the Apache License 2.0.", fg(Color::Yellow)),
    );
    lspans.push(help_pad_span());
    let lline = Line { spans: lspans };
    assert(lline@ =~~= spec_help_lines(year as nat)[5]);
    lines.push(lline);

    lines.push(empty_line());
    lines.push(padded_line("Press any key to return.", crate::style::fg_bold(Color::Green)));
    lines.push(empty_line());
    assert(lines@.len() == spec_help_lines(year as nat).len());
    lines
}

/// The help overlay: where it sits and what it says.
pub struct HelpView {
    pub area: crate::helpers::Rect,
    pub lines: Vec<Line>,
}

/// Build the help overlay for the current year: a panel centered at
/// 60%x20% of `area` with the static help text.
pub fn draw_help_window(area: crate::helpers::Rect) -> (help: HelpView)
    requires
        crate::helpers::rect_wf(area),
    ensures
        help.area.width == area.width as int * 60 / 100,
        help.area.height == area.height as int * 20 / 100,
        help.area.x == area.x as int + area.width as int * 20 / 100,
        help.area.y == area.y as int + area.height as int * 40 / 100,
        exists|year: nat|
            help.lines@.len() == spec_help_lines(year).len() && (forall|i: int|
                0 <= i < help.lines@.len() ==> #[trigger] help.lines@[i]@ == spec_help_lines(
                    year,
                )[i]),
{
    let help_area = crate::helpers::centered_rect(60, 20, area);
    let year = current_year();
    let lines = help_lines(year);
    HelpView { area: help_area, lines }
}

/// What a CPU panel of `lines` must say about `cores` at a given width.
pub open spec fn spec_is_cpu_panel(lines: Seq<Line>, cores: Seq<CoreSample>, width: nat) -> bool {
    &&& lines.len() == spec_cpu_rows(cores.len())
    &&& forall|r: int|
        0 <= r < lines.len() ==> lines[r]@ == spec_cpu_row(
            cores,
            spec_cpu_rows(cores.len()),
            r as nat,
            spec_cpu_bar_length(width),
        )
}

/// What a memory panel of `lines` must say about memory and swap at a
/// given width.
pub open spec fn spec_is_memory_panel(
    lines: Seq<Line>,
    memory: crate::snapshot::MemoryStats,
    swap: crate::snapshot::MemoryStats,
    width: nat,
) -> bool {
    &&& lines.len() == 2
    &&& lines[0]@ == spec_memory_bar_line(
        seq!['M', 'e', 'm'],
        memory.used_bytes as nat,
        memory.total_bytes as nat,
        spec_memory_panel_bar_length(width),
        5,
    )
    &&& lines[1]@ == spec_memory_bar_line(
        seq!['S', 'w', 'p'],
        swap.used_bytes as nat,
        swap.total_bytes as nat,
        spec_memory_panel_bar_length(width),
        5,
    )
}

/// What a system-info panel of `lines` must say about the snapshot.
pub open spec fn spec_is_info_panel(
    lines: Seq<Line>,
    processes: Seq<ProcessSample>,
    load: LoadAverage,
    uptime: nat,
) -> bool {
    &&& lines.len() == 3
    &&& lines[0]@ == spec_tasks_line(processes.len(), spec_count_running(processes))
    &&& lines[1]@ == spec_load_line(load)
    &&& lines[2]@ == spec_uptime_line(uptime)
}

/// What a table body of `rows` must say about the processes: one row per
/// process, in table order, each row exactly determined by its sample.
pub open spec fn spec_is_table_body(
    rows: Seq<crate::style::Row>,
    processes: Seq<ProcessSample>,
    users: Map<u32, String>,
    prio: Map<u32, ProcessPriority>,
    mem: Map<u32, ProcessMemory>,
    total_memory: nat,
) -> bool {
    &&& rows.len() == processes.len()
    &&& exists|sorted: Seq<ProcessSample>|
        {
            &&& #[trigger] sorted.to_multiset() == processes.to_multiset()
            &&& sorted.len() == rows.len()
            &&& (forall|i: int, j: int|
                0 <= i < j < sorted.len() ==> spec_table_order(sorted[i], sorted[j]))
            &&& (forall|i: int|
                0 <= i < rows.len() ==> rows[i]@ == spec_process_row(
                    i as nat,
                    sorted[i],
                    users,
                    prio,
                    mem,
                    total_memory,
                ))
        }
}

/// A positioned block of styled lines.
pub struct Panel {
    pub area: crate::helpers::Rect,
    pub lines: Vec<Line>,
}

/// The positioned process table: header, column widths, and body rows.
pub struct TablePanel {
    pub area: crate::helpers::Rect,
    pub header: crate::style::Row,
    pub constraints: Vec<ColumnConstraint>,
    pub rows: Vec<crate::style::Row>,
}

/// The info band's three panels.
pub struct InfoBar {
    pub cpu: Panel,
    pub memory: Panel,
    pub info: Panel,
}

/// A full dashboard frame: the info band and the process table.
pub struct Dashboard {
    pub info_bar: InfoBar,
    pub table: TablePanel,
}

/// Build the info band: the CPU grid on top, then memory bars on the left
/// half and system info on the right half of the remaining space.
pub fn draw_info_bar(
    cores: &Vec<CoreSample>,
    memory: crate::snapshot::MemoryStats,
    swap: crate::snapshot::MemoryStats,
    processes: &Vec<ProcessSample>,
    load_average: LoadAverage,
    uptime_seconds: u64,
    area: crate::helpers::Rect,
) -> (bar: InfoBar)
    requires
        crate::helpers::rect_wf(area),
    ensures
        bar.cpu.area == (crate::helpers::Rect {
            x: area.x,
            y: area.y,
            width: area.width,
            height: if spec_cpu_rows(cores@.len()) < area.height as nat {
                spec_cpu_rows(cores@.len()) as u16
            } else {
                area.height
            },
        }),
        bar.memory.area.x == area.x && bar.memory.area.y == area.y + bar.cpu.area.height,
        bar.memory.area.width == area.width as int / 2,
        bar.memory.area.height == area.height - bar.cpu.area.height,
        bar.info.area.x == area.x + area.width as int / 2 && bar.info.area.y == area.y
            + bar.cpu.area.height,
        bar.info.area.width == area.width - area.width as int / 2,
        bar.info.area.height == area.height - bar.cpu.area.height,
        spec_is_cpu_panel(bar.cpu.lines@, cores@, area.width as nat),
        spec_is_memory_panel(bar.memory.lines@, memory, swap, bar.memory.area.width as nat),
        spec_is_info_panel(bar.info.lines@, processes@, load_average, uptime_seconds as nat),
        crate::helpers::rect_wf(bar.memory.area) && crate::helpers::rect_wf(bar.info.area),
{
    let count = cores.len();
    let rows = count / 4 + if count % 4 == 0 {
        0
    } else {
        1
    };
    let cpu_h: u16 = if rows < area.height as usize {
        rows as u16
    } else {
        area.height
    };
    let cpu_area = crate::helpers::Rect {
        x: area.x,
        y: area.y,
        width: area.width,
        height: cpu_h,
    };
    let lower_y = area.y + cpu_h;
    let lower_h = area.height - cpu_h;
    let left_w = area.width / 2;
    let memory_area = crate::helpers::Rect { x: area.x, y: lower_y, width: left_w, height: lower_h };
    let info_area = crate::helpers::Rect {
        x: area.x + left_w,
        y: lower_y,
        width: area.width - left_w,
        height: lower_h,
    };

    let cpu_lines = draw_cpu_bars(cores, area.width);
    let memory_lines = draw_memory_bars(memory, swap, left_w);
    let info_lines = draw_system_info(processes, load_average, uptime_seconds);

    InfoBar {
        cpu: Panel { area: cpu_area, lines: cpu_lines },
        memory: Panel { area: memory_area, lines: memory_lines },
        info: Panel { area: info_area, lines: info_lines },
    }
}

/// Build a full dashboard frame: a seven-row info band on top (clipped to
/// the area) and the process table below.
pub fn draw_dashboard(
    snapshot: crate::snapshot::Snapshot,
    uid_to_user: &HashMap<u32, String>,
    priority_map: &HashMap<u32, ProcessPriority>,
    memory_map: &HashMap<u32, ProcessMemory>,
    area: crate::helpers::Rect,
) -> (d: Dashboard)
    requires
        crate::helpers::rect_wf(area),
    ensures
        d.table.area.x == area.x && d.table.area.width == area.width,
        d.table.area.y == area.y + (if area.height < 7 {
            area.height as int
        } else {
            7
        }),
        d.table.area.height == area.height - (if area.height < 7 {
            area.height as int
        } else {
            7
        }),
        d.table.header@ == spec_table_header(),
        d.table.constraints@ == spec_table_constraints(),
        spec_is_table_body(
            d.table.rows@,
            snapshot.processes@,
            uid_to_user@,
            priority_map@,
            memory_map@,
            snapshot.memory.total_bytes as nat,
        ),
        spec_is_cpu_panel(d.info_bar.cpu.lines@, snapshot.cores@, area.width as nat),
        spec_is_memory_panel(
            d.info_bar.memory.lines@,
            snapshot.memory,
            snapshot.swap,
            d.info_bar.memory.area.width as nat,
        ),
        spec_is_info_panel(
            d.info_bar.info.lines@,
            snapshot.processes@,
            snapshot.load_average,
            snapshot.uptime_seconds as nat,
        ),
{
    let info_h: u16 = if area.height < 7 {
        area.height
    } else {
        7
    };
    let info_area = crate::helpers::Rect {
        x: area.x,
        y: area.y,
        width: area.width,
        height: info_h,
    };
    let table_area = crate::helpers::Rect {
        x: area.x,
        y: area.y + info_h,
        width: area.width,
        height: area.height - info_h,
    };

    let crate::snapshot::Snapshot { cores, memory, swap, processes, load_average, uptime_seconds } =
        snapshot;

    let info_bar = draw_info_bar(
        &cores,
        memory,
        swap,
        &processes,
        load_average,
        uptime_seconds,
        info_area,
    );
    let header = create_table_header();
    let constraints = get_table_constraints();
    let rows = draw_process_table(
        processes,
        uid_to_user,
        priority_map,
        memory_map,
        memory.total_bytes,
    );

    Dashboard {
        info_bar,
        table: TablePanel { area: table_area, header, constraints, rows },
    }
}

} // verus!
