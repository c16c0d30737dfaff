//! The report that the display server gives of its outputs, read line by
//! line: which line tells the current size, which heads the primary
//! output, and which offers a mode.

use crate::text::{
    chars_of, contains, contains_text, copy_range, digits_end, find_digits_end, find_line_end, is_white_space,
    lemma_line_end_is_behind, line_end, matches_at, number_at, occurs_at, read_number, string_of, white_space,
    NUMBER_LIMIT,
};
use vstd::prelude::*;

verus! {

/// One line of the report, as far as it is read.
#[derive(Debug)]
pub enum ReportLine {
    /// The line tells the current size of the screen.
    Current(u32, u32),
    /// The line heads the modes of the primary output.
    Primary,
    /// The line offers a mode: its size and, for each word behind the
    /// size, the refresh rate that the word starts with, as it is written;
    /// nothing for a word that starts with none.
    Mode { w: u32, h: u32, rates: Vec<Option<String>> },
    /// Any other line.
    Other,
}

/// A line with its texts as sequences of characters.
pub enum ReportLineView {
    Current(u32, u32),
    Primary,
    Mode { w: u32, h: u32, rates: Seq<Option<Seq<char>>> },
    Other,
}

/// Rates with their texts as sequences of characters.
pub open spec fn rate_views(rates: Seq<Option<String>>) -> Seq<Option<Seq<char>>> {
    Seq::new(
        rates.len(),
        |i: int|
            match rates[i] {
                Some(rate) => Some(rate@),
                None => None,
            },
    )
}

impl View for ReportLine {
    type V = ReportLineView;

    open spec fn view(&self) -> ReportLineView {
        match self {
            ReportLine::Current(w, h) => ReportLineView::Current(*w, *h),
            ReportLine::Primary => ReportLineView::Primary,
            ReportLine::Mode { w, h, rates } => ReportLineView::Mode { w: *w, h: *h, rates: rate_views(rates@) },
            ReportLine::Other => ReportLineView::Other,
        }
    }
}

/// A size that is written in a line, and the place behind it.
pub ghost struct SizeAt {
    pub w: u32,
    pub h: u32,
    pub end: int,
}

/// The place behind the space at `at`; `at` itself where no space stands
/// there.
pub open spec fn past_space(line: Seq<char>, at: int) -> int {
    if 0 <= at < line.len() && line[at] == ' ' {
        at + 1
    } else {
        at
    }
}

/// The size that is written at `at`: a width, the letter `x` and a height,
/// where `spaced` allows it with one space before the letter and one
/// behind it. A number that is too large to be held is no width and no
/// height.
pub open spec fn size_at(line: Seq<char>, at: int, spaced: bool) -> Option<SizeAt> {
    let w_to = digits_end(line, at, line.len() as int);
    let x_at = if spaced {
        past_space(line, w_to)
    } else {
        w_to
    };
    let h_from = if spaced {
        past_space(line, x_at + 1)
    } else {
        x_at + 1
    };
    let h_to = digits_end(line, h_from, line.len() as int);
    let w = number_at(line, at, w_to);
    let h = number_at(line, h_from, h_to);
    if 0 <= at < w_to && x_at < line.len() && line[x_at] == 'x' && h_from < h_to && w <= u32::MAX && h
        <= u32::MAX {
        Some(SizeAt { w: w as u32, h: h as u32, end: h_to })
    } else {
        None
    }
}

/// The word that announces the current size.
pub open spec fn current_marker() -> Seq<char> {
    "current "@
}

/// The current size, where the line tells it at `at`.
pub open spec fn current_at(line: Seq<char>, at: int) -> Option<SizeAt> {
    if occurs_at(line, current_marker(), at) {
        size_at(line, at + current_marker().len(), true)
    } else {
        None
    }
}

/// The current size that the line tells first, from `from` on.
pub open spec fn current_from(line: Seq<char>, from: int) -> Option<SizeAt>
    decreases line.len() - from,
{
    if from < 0 || from >= line.len() {
        None
    } else {
        match current_at(line, from) {
            Some(size) => Some(size),
            None => current_from(line, from + 1),
        }
    }
}

/// The first place from `from` on that holds no space; the end of the
/// line where each holds one.
pub open spec fn spaces_end(line: Seq<char>, from: int) -> int
    decreases line.len() - from,
{
    if from < 0 || from >= line.len() || line[from] != ' ' {
        from
    } else {
        spaces_end(line, from + 1)
    }
}

/// The size of the mode that the line offers: the line starts with a
/// space, the size follows the spaces at its start, and a space follows
/// the size.
pub open spec fn mode_of(line: Seq<char>) -> Option<SizeAt> {
    let start = spaces_end(line, 0);
    match size_at(line, start, false) {
        Some(size) => if 0 < start && size.end < line.len() && line[size.end] == ' ' {
            Some(size)
        } else {
            None
        },
        None => None,
    }
}

/// The first place from `from` on that holds no white space; the end of
/// the line where each holds some.
pub open spec fn word_start(line: Seq<char>, from: int) -> int
    decreases line.len() - from,
{
    if from < 0 || from >= line.len() || !white_space(line[from]) {
        from
    } else {
        word_start(line, from + 1)
    }
}

/// The first place from `from` on that holds white space; the end of the
/// line where none does.
pub open spec fn word_end(line: Seq<char>, from: int) -> int
    decreases line.len() - from,
{
    if from < 0 || from >= line.len() || white_space(line[from]) {
        from
    } else {
        word_end(line, from + 1)
    }
}

/// The refresh rate that the word from `from` up to `end` starts with, as
/// it is written: digits, a point, digits.
pub open spec fn rate_at(line: Seq<char>, from: int, end: int) -> Option<Seq<char>> {
    let point = digits_end(line, from, end);
    let to = digits_end(line, point + 1, end);
    if from < point && point < end && line[point] == '.' && point + 1 < to {
        Some(line.subrange(from, to))
    } else {
        None
    }
}

/// A word starts at or behind the place that it is looked for from, and
/// ends behind its start.
pub proof fn lemma_words_advance(line: Seq<char>, from: int)
    requires
        0 <= from <= line.len(),
    ensures
        from <= word_start(line, from) <= line.len(),
        from <= word_end(line, from) <= line.len(),
        from < line.len() && !white_space(line[from]) ==> from < word_end(line, from),
        word_start(line, from) < line.len() ==> !white_space(line[word_start(line, from)]),
    decreases line.len() - from,
{
    if from < line.len() {
        lemma_words_advance(line, from + 1);
    }
}

/// The rates of the words of the line from `from` on, in their order.
pub open spec fn rates_from(line: Seq<char>, from: int) -> Seq<Option<Seq<char>>>
    decreases line.len() - from,
{
    if from < 0 || from > line.len() || word_start(line, from) >= line.len() {
        Seq::empty()
    } else {
        proof {
            lemma_words_advance(line, from);
            lemma_words_advance(line, word_start(line, from));
        }
        seq![rate_at(line, word_start(line, from), word_end(line, word_start(line, from)))] + rates_from(
            line,
            word_end(line, word_start(line, from)),
        )
    }
}

/// What a line of the report is read as. The current size goes before the
/// head of the primary output, and that before a mode.
pub open spec fn line_of(line: Seq<char>) -> ReportLineView {
    match current_from(line, 0) {
        Some(size) => ReportLineView::Current(size.w, size.h),
        None => if contains(line, " primary "@) {
            ReportLineView::Primary
        } else {
            match mode_of(line) {
                Some(size) => ReportLineView::Mode { w: size.w, h: size.h, rates: rates_from(line, size.end) },
                None => ReportLineView::Other,
            }
        },
    }
}

/// The lines of a report from place `from` on, each as it is read. A line
/// ends at a line feed; what follows the last line feed is a line too,
/// even where it is empty.
pub open spec fn lines_from(text: Seq<char>, from: int) -> Seq<ReportLineView>
    decreases text.len() - from,
{
    if from < 0 || from > text.len() {
        Seq::empty()
    } else {
        proof {
            lemma_line_end_is_behind(text, from);
        }
        let end = line_end(text, from);
        let line = seq![line_of(text.subrange(from, end))];
        if end < text.len() {
            line + lines_from(text, end + 1)
        } else {
            line
        }
    }
}

/// Lines with their texts as sequences of characters.
pub open spec fn line_views(lines: Seq<ReportLine>) -> Seq<ReportLineView> {
    Seq::new(lines.len(), |i: int| lines[i]@)
}

/// Reads the size that is written at `at`.
fn read_size(line: &Vec<char>, at: usize, spaced: bool) -> (size: Option<(u32, u32, usize)>)
    requires
        at <= line.len(),
    ensures
        match size {
            Some((w, h, end)) => size_at(line@, at as int, spaced) == Some(SizeAt { w, h, end: end as int })
                && end <= line.len(),
            None => size_at(line@, at as int, spaced) is None,
        },
{
    let len = line.len();
    let w_to = find_digits_end(line, at, len);
    let x_at = if spaced && w_to < len && line[w_to] == ' ' {
        w_to + 1
    } else {
        w_to
    };
    if at == w_to || x_at >= len || line[x_at] != 'x' {
        return None;
    }
    let h_from = if spaced && x_at + 1 < len && line[x_at + 1] == ' ' {
        x_at + 2
    } else {
        x_at + 1
    };
    let h_to = find_digits_end(line, h_from, len);
    if h_from == h_to {
        return None;
    }
    let w = read_number(line, at, w_to);
    let h = read_number(line, h_from, h_to);
    if w >= NUMBER_LIMIT || h >= NUMBER_LIMIT {
        return None;
    }
    Some((w as u32, h as u32, h_to))
}

/// Reads the current size that the line tells first.
fn read_current(line: &Vec<char>) -> (size: Option<(u32, u32)>)
    ensures
        match size {
            Some((w, h)) => current_from(line@, 0) matches Some(s) && s.w == w && s.h == h,
            None => current_from(line@, 0) is None,
        },
{
    let marker = chars_of("current ");
    let mut at: usize = 0;
    while at < line.len()
        invariant
            at <= line.len(),
            marker@ == current_marker(),
            current_from(line@, 0) == current_from(line@, at as int),
        decreases line.len() - at,
    {
        if matches_at(line, &marker, at) {
            match read_size(line, at + marker.len(), true) {
                Some((w, h, _)) => {
                    return Some((w, h));
                },
                None => {},
            }
        }
        at += 1;
    }
    None
}

/// Reads the size of the mode that the line offers.
fn read_mode(line: &Vec<char>) -> (size: Option<(u32, u32, usize)>)
    ensures
        match size {
            Some((w, h, end)) => mode_of(line@) == Some(SizeAt { w, h, end: end as int }) && end
                < line.len(),
            None => mode_of(line@) is None,
        },
{
    let mut start: usize = 0;
    while start < line.len() && line[start] == ' '
        invariant
            start <= line.len(),
            spaces_end(line@, 0) == spaces_end(line@, start as int),
        decreases line.len() - start,
    {
        start += 1;
    }
    match read_size(line, start, false) {
        Some((w, h, end)) => if 0 < start && end < line.len() && line[end] == ' ' {
            Some((w, h, end))
        } else {
            None
        },
        None => None,
    }
}

/// Reads the refresh rate that a word starts with.
fn read_rate(line: &Vec<char>, from: usize, end: usize) -> (rate: Option<String>)
    requires
        from <= end <= line.len(),
    ensures
        match rate {
            Some(text) => rate_at(line@, from as int, end as int) == Some(text@),
            None => rate_at(line@, from as int, end as int) is None,
        },
{
    let point = find_digits_end(line, from, end);
    if from == point || point >= end || line[point] != '.' {
        return None;
    }
    let to = find_digits_end(line, point + 1, end);
    if point + 1 == to {
        return None;
    }
    Some(string_of(&copy_range(line, from, to)))
}

/// Reads the rates of the words of the line from `from` on.
fn read_rates(line: &Vec<char>, from: usize) -> (rates: Vec<Option<String>>)
    requires
        from <= line.len(),
    ensures
        rate_views(rates@) == rates_from(line@, from as int),
{
    let mut rates: Vec<Option<String>> = Vec::new();
    let mut at: usize = from;
    assert(rate_views(rates@) =~= Seq::empty());
    loop
        invariant
            at <= line.len(),
            rates_from(line@, from as int) == rate_views(rates@) + rates_from(line@, at as int),
        decreases line.len() - at,
    {
        let mut start: usize = at;
        while start < line.len() && is_white_space(line[start])
            invariant
                at <= start <= line.len(),
                word_start(line@, at as int) == word_start(line@, start as int),
            decreases line.len() - start,
        {
            start += 1;
        }
        if start >= line.len() {
            assert(rates_from(line@, at as int) =~= Seq::empty());
            return rates;
        }
        let mut end: usize = start + 1;
        while end < line.len() && !is_white_space(line[end])
            invariant
                start < end <= line.len(),
                word_end(line@, start as int) == word_end(line@, end as int),
            decreases line.len() - end,
        {
            end += 1;
        }
        let rate = read_rate(line, start, end);
        let ghost before = rate_views(rates@);
        rates.push(rate);
        assert(rate_views(rates@) =~= before + seq![rate_at(line@, start as int, end as int)]);
        assert(rate_views(rates@) + rates_from(line@, end as int) =~= before + (seq![
            rate_at(line@, start as int, end as int),
        ] + rates_from(line@, end as int)));
        at = end;
    }
}

/// Reads a line of the report.
pub fn read_line(line: &Vec<char>) -> (read: ReportLine)
    ensures
        read@ == line_of(line@),
{
    match read_current(line) {
        Some((w, h)) => ReportLine::Current(w, h),
        None => {
            if contains_text(line, &chars_of(" primary ")) {
                ReportLine::Primary
            } else {
                match read_mode(line) {
                    Some((w, h, end)) => ReportLine::Mode { w, h, rates: read_rates(line, end) },
                    None => ReportLine::Other,
                }
            }
        },
    }
}

/// Reads a report, line by line.
pub fn read_report(output: &str) -> (lines: Vec<ReportLine>)
    ensures
        line_views(lines@) == lines_from(output@, 0),
{
    let chars = chars_of(output);
    let mut lines: Vec<ReportLine> = Vec::new();
    let mut from: usize = 0;
    assert(line_views(lines@) =~= Seq::empty());
    loop
        invariant
            from <= chars.len(),
            chars@ == output@,
            lines_from(chars@, 0) == line_views(lines@) + lines_from(chars@, from as int),
        decreases chars.len() - from,
    {
        let end = find_line_end(&chars, from);
        let line = read_line(&copy_range(&chars, from, end));
        let ghost before = line_views(lines@);
        let ghost read = line@;
        lines.push(line);
        assert(line_views(lines@) =~= before + seq![read]);
        if end >= chars.len() {
            return lines;
        }
        assert(line_views(lines@) + lines_from(chars@, end + 1) =~= before + (seq![read] + lines_from(
            chars@,
            end + 1,
        )));
        from = end + 1;
    }
}

} // verus!
