//! The display modes that the settings offer.

use crate::text::{decimal, string_of, to_decimal};
use vstd::prelude::*;

verus! {

/// A display size with the refresh rates that it is offered at.
#[derive(Debug)]
pub struct Resolution {
    pub w: u32,
    pub h: u32,
    pub freqs: Vec<u32>,
}

/// The display sizes of the primary screen, and the one it is set to.
pub struct Screen {
    pub resolutions: Vec<Resolution>,
    pub current_resolution: Option<Resolution>,
}

impl Screen {
    /// The size that is looked for: the one given, or the current one of
    /// the screen where a side of the one given is zero.
    pub open spec fn wanted_size(&self, w: u32, h: u32) -> (u32, u32) {
        if w == 0 || h == 0 {
            match self.current_resolution {
                Some(r) => (r.w, r.h),
                None => (0, 0),
            }
        } else {
            (w, h)
        }
    }

    /// The refresh rate that is looked for: the one given, or, where it is
    /// zero, the first one of the screen's current mode.
    pub open spec fn wanted_rate(&self, freq: u32) -> u32 {
        if freq == 0 {
            match self.current_resolution {
                Some(r) => if r.freqs.len() > 0 {
                    r.freqs[0]
                } else {
                    0
                },
                None => 0,
            }
        } else {
            freq
        }
    }

    /// Whether resolution `i` is the first one of the given size.
    pub open spec fn is_first_of_size(&self, i: int, w: u32, h: u32) -> bool {
        &&& 0 <= i < self.resolutions.len()
        &&& self.resolutions[i].w == w
        &&& self.resolutions[i].h == h
        &&& forall|j: int|
            0 <= j < i ==> !(self.resolutions[j].w == w && self.resolutions[j].h == h)
    }

    /// The place of the first resolution of the size that is looked for.
    pub open spec fn position_of(&self, w: u32, h: u32) -> Option<int> {
        let want_w = self.wanted_size(w, h).0;
        let want_h = self.wanted_size(w, h).1;
        if exists|i: int| self.is_first_of_size(i, want_w, want_h) {
            Some(choose|i: int| self.is_first_of_size(i, want_w, want_h))
        } else {
            None
        }
    }

    /// The place of the first rate, among those of the resolution at a
    /// place, that equals the rate that is looked for.
    pub open spec fn rate_position_of(&self, resolution_position: int, freq: u32) -> Option<int> {
        if 0 <= resolution_position < self.resolutions.len() && exists|i: int|
            Self::is_first_rate(
                self.resolutions[resolution_position].freqs@,
                i,
                self.wanted_rate(freq),
            ) {
            Some(
                choose|i: int|
                    Self::is_first_rate(
                        self.resolutions[resolution_position].freqs@,
                        i,
                        self.wanted_rate(freq),
                    ),
            )
        } else {
            None
        }
    }

    /// The place of a size among the resolutions; a zero side stands for the
    /// current size of the screen.
    pub fn position(&self, w: u32, h: u32) -> (found: Option<usize>)
        ensures
            match found {
                Some(i) => self.position_of(w, h) == Some(i as int),
                None => self.position_of(w, h) is None,
            },
            match found {
                Some(i) => self.is_first_of_size(
                    i as int,
                    self.wanted_size(w, h).0,
                    self.wanted_size(w, h).1,
                ),
                None => forall|j: int|
                    0 <= j < self.resolutions.len() ==> !(self.resolutions[j].w == self.wanted_size(
                        w,
                        h,
                    ).0 && self.resolutions[j].h == self.wanted_size(w, h).1),
            },
    {
        let (want_w, want_h) = if w == 0 || h == 0 {
            match &self.current_resolution {
                Some(r) => (r.w, r.h),
                None => (0, 0),
            }
        } else {
            (w, h)
        };
        let mut i: usize = 0;
        while i < self.resolutions.len()
            invariant
                i <= self.resolutions.len(),
                (want_w, want_h) == self.wanted_size(w, h),
                forall|j: int|
                    0 <= j < i ==> !(self.resolutions[j].w == want_w && self.resolutions[j].h
                        == want_h),
            decreases self.resolutions.len() - i,
        {
            if self.resolutions[i].w == want_w && self.resolutions[i].h == want_h {
                proof {
                    let size = self.wanted_size(w, h);
                    assert(self.is_first_of_size(i as int, size.0, size.1));
                    let k = choose|k: int| self.is_first_of_size(k, size.0, size.1);
                    assert(self.is_first_of_size(k, size.0, size.1));
                    assert(k == i);
                }
                return Some(i);
            }
            i += 1;
        }
        None
    }

    /// The number of refresh rates of the resolution at a place.
    pub fn refresh_rates_len(&self, resolution_position: usize) -> (len: Option<usize>)
        ensures
            len == if resolution_position < self.resolutions.len() {
                Some(self.resolutions[resolution_position as int].freqs.len())
            } else {
                None
            },
    {
        if resolution_position < self.resolutions.len() {
            Some(self.resolutions[resolution_position].freqs.len())
        } else {
            None
        }
    }

    /// Whether rate `i` of a list is the first one equal to `freq`.
    pub open spec fn is_first_rate(freqs: Seq<u32>, i: int, freq: u32) -> bool {
        &&& 0 <= i < freqs.len()
        &&& freqs[i] == freq
        &&& forall|j: int| 0 <= j < i ==> freqs[j] != freq
    }

    /// The place of a refresh rate among those of the resolution at a place;
    /// a zero rate stands for the current rate of the screen.
    pub fn refresh_rate_position(&self, resolution_position: usize, freq: u32) -> (found: Option<usize>)
        ensures
            match found {
                Some(i) => self.rate_position_of(resolution_position as int, freq) == Some(i as int),
                None => self.rate_position_of(resolution_position as int, freq) is None,
            },
            match found {
                Some(i) => resolution_position < self.resolutions.len() && Self::is_first_rate(
                    self.resolutions[resolution_position as int].freqs@,
                    i as int,
                    self.wanted_rate(freq),
                ),
                None => resolution_position >= self.resolutions.len() || forall|j: int|
                    0 <= j < self.resolutions[resolution_position as int].freqs.len()
                        ==> self.resolutions[resolution_position as int].freqs[j]
                        != self.wanted_rate(freq),
            },
    {
        let wanted = if freq == 0 {
            match &self.current_resolution {
                Some(r) => if r.freqs.len() > 0 {
                    r.freqs[0]
                } else {
                    0
                },
                None => 0,
            }
        } else {
            freq
        };
        if resolution_position >= self.resolutions.len() {
            return None;
        }
        let freqs = &self.resolutions[resolution_position].freqs;
        let mut i: usize = 0;
        while i < freqs.len()
            invariant
                i <= freqs.len(),
                wanted == self.wanted_rate(freq),
                resolution_position < self.resolutions.len(),
                freqs@ == self.resolutions[resolution_position as int].freqs@,
                forall|j: int| 0 <= j < i ==> freqs[j] != wanted,
            decreases freqs.len() - i,
        {
            if freqs[i] == wanted {
                proof {
                    assert(Self::is_first_rate(freqs@, i as int, wanted));
                    let k = choose|k: int| Self::is_first_rate(freqs@, k, wanted);
                    assert(k == i);
                }
                return Some(i);
            }
            i += 1;
        }
        None
    }
}


/// A resolution with its refresh rates as a sequence.
pub struct ResolutionView {
    pub w: u32,
    pub h: u32,
    pub freqs: Seq<u32>,
}

impl View for Resolution {
    type V = ResolutionView;

    open spec fn view(&self) -> ResolutionView {
        ResolutionView { w: self.w, h: self.h, freqs: self.freqs@ }
    }
}

/// The resolutions of a list, each by its view.
pub open spec fn resolution_views(resolutions: Seq<Resolution>) -> Seq<ResolutionView> {
    Seq::new(resolutions.len(), |i: int| resolutions[i]@)
}

/// One line of the report that the display server gives of its outputs.
pub enum XrandrLine {
    /// The line that tells the current size of the screen.
    Current(u32, u32),
    /// The line that heads the modes of the primary output.
    Primary,
    /// A mode: its size, and its refresh rates rounded to whole numbers, zero
    /// standing for a rate that could not be read.
    Mode(u32, u32, Vec<u32>),
    /// Any other line.
    Other,
}

/// Whether two sizes have the same ratio of width to height, as
/// `fraction::Fraction` compares them: fractions with a denominator are
/// equal where they denote the same number, those without one are equal
/// where both or neither have a numerator, and the ones are never equal to
/// the others.
pub open spec fn ratio_eq(w: u32, h: u32, other_w: u32, other_h: u32) -> bool {
    if h == 0 && other_h == 0 {
        (w == 0) == (other_w == 0)
    } else if h == 0 || other_h == 0 {
        false
    } else {
        w * other_h == other_w * h
    }
}

/// Compares the ratios of two sizes.
///
/// Trusted: calls `fraction::GenericFraction::new` for each size and compares
/// the two with `==`. `new` gives the not-a-number for 0/0, the infinite for
/// any other fraction without denominator, and the reduced fraction else; `==`
/// holds between two not-a-numbers, between two infinites of one sign, and
/// between two fractions of the same value.
#[verifier::external_body]
pub(crate) fn same_ratio(w: u32, h: u32, other_w: u32, other_h: u32) -> (same: bool)
    ensures
        same == ratio_eq(w, h, other_w, other_h),
{
    fraction::Fraction::new(w, h) == fraction::Fraction::new(other_w, other_h)
}

/// The rates among the first `n` of a list that are kept: those that are
/// not zero, each once, in the order in which they first come.
pub open spec fn unique_rates(freqs: Seq<u32>, n: int) -> Seq<u32>
    decreases n,
{
    if n <= 0 {
        Seq::empty()
    } else {
        let before = unique_rates(freqs, n - 1);
        if freqs[n - 1] == 0 || before.contains(freqs[n - 1]) {
            before
        } else {
            before.push(freqs[n - 1])
        }
    }
}

/// What has been read of a report.
pub struct Scan {
    /// The current size of the screen, once it has been told.
    pub current: Option<(u32, u32)>,
    /// Whether the lines that follow belong to the primary output.
    pub in_primary: bool,
    /// The modes kept so far.
    pub kept: Seq<ResolutionView>,
}

/// Whether a mode is offered: it is at least 640 by 480 and has the ratio
/// of the current size of the screen.
pub open spec fn is_offered(current: Option<(u32, u32)>, w: u32, h: u32) -> bool {
    &&& w >= 640
    &&& h >= 480
    &&& current matches Some(size) && ratio_eq(w, h, size.0, size.1)
}

/// What has been read once one more line has been looked at. A mode is
/// kept where it belongs to the primary output and is offered; any line
/// that is none of the three kinds ends the primary output.
pub open spec fn scan_next(scan: Scan, line: XrandrLine) -> Scan {
    match line {
        XrandrLine::Current(w, h) => Scan { current: Some((w, h)), ..scan },
        XrandrLine::Primary => Scan { in_primary: true, ..scan },
        XrandrLine::Mode(w, h, freqs) => if scan.in_primary && is_offered(scan.current, w, h) {
            Scan {
                kept: scan.kept.push(
                    ResolutionView { w, h, freqs: unique_rates(freqs@, freqs.len() as int) },
                ),
                ..scan
            }
        } else {
            scan
        },
        XrandrLine::Other => Scan { in_primary: false, ..scan },
    }
}

/// What has been read after the first `n` lines of a report.
pub open spec fn scanned(lines: Seq<XrandrLine>, n: int) -> Scan
    decreases n,
{
    if n <= 0 {
        Scan { current: None, in_primary: false, kept: Seq::empty() }
    } else {
        scan_next(scanned(lines, n - 1), lines[n - 1])
    }
}

/// The current size that a line tells, if it tells one.
pub open spec fn current_of(line: XrandrLine) -> Option<(u32, u32)> {
    match line {
        XrandrLine::Current(w, h) => Some((w, h)),
        _ => None,
    }
}

/// Whether the first `n` lines of a report tell one current size at most,
/// however often they tell it.
pub open spec fn tells_one_size(lines: Seq<XrandrLine>, n: int) -> bool {
    forall|i: int, j: int|
        0 <= i < j < n && current_of(lines[i]) is Some && current_of(lines[j]) is Some ==> current_of(
            lines[i],
        ) == current_of(lines[j])
}

/// Whether each of the modes is offered at the given current size.
pub open spec fn all_offered(kept: Seq<ResolutionView>, current: Option<(u32, u32)>) -> bool {
    forall|k: int| 0 <= k < kept.len() ==> is_offered(current, (#[trigger] kept[k]).w, kept[k].h)
}

/// Every mode that is kept of a report is at least 640 by 480 and has the
/// ratio of the current size that the report tells, where the report tells
/// one current size at most. (A report that tells two keeps the modes by
/// the size that it told last before each of them.)
pub proof fn lemma_kept_modes_are_offered(lines: Seq<XrandrLine>, n: int)
    requires
        0 <= n <= lines.len(),
        tells_one_size(lines, n),
    ensures
        all_offered(scanned(lines, n).kept, scanned(lines, n).current),
        scanned(lines, n).current is Some ==> exists|i: int|
            0 <= i < n && current_of(#[trigger] lines[i]) == scanned(lines, n).current,
    decreases n,
{
    if n > 0 {
        lemma_kept_modes_are_offered(lines, n - 1);
        let before = scanned(lines, n - 1);
        let after = scanned(lines, n);
        match lines[n - 1] {
            XrandrLine::Current(w, h) => {
                assert(current_of(lines[n - 1]) == after.current);
                if before.current is Some {
                    let i = choose|i: int|
                        0 <= i < n - 1 && current_of(#[trigger] lines[i]) == before.current;
                    assert(current_of(lines[i]) == current_of(lines[n - 1]));
                }
            },
            XrandrLine::Mode(w, h, freqs) => {
                if before.current is Some {
                    let i = choose|i: int|
                        0 <= i < n - 1 && current_of(#[trigger] lines[i]) == before.current;
                    assert(current_of(lines[i]) == after.current);
                }
            },
            _ => {
                if before.current is Some {
                    let i = choose|i: int|
                        0 <= i < n - 1 && current_of(#[trigger] lines[i]) == before.current;
                    assert(current_of(lines[i]) == after.current);
                }
            },
        }
    }
}

/// The order of lists of rates: the first rate in which two lists differ
/// decides; a list comes before the lists that it starts.
pub open spec fn rates_le(a: Seq<u32>, b: Seq<u32>) -> bool
    decreases a.len(),
{
    if a.len() == 0 {
        true
    } else if b.len() == 0 {
        false
    } else if a[0] != b[0] {
        a[0] < b[0]
    } else {
        rates_le(a.drop_first(), b.drop_first())
    }
}

/// The order of resolutions: by width, then by height, then by rates.
pub open spec fn resolution_le(a: ResolutionView, b: ResolutionView) -> bool {
    a.w < b.w || (a.w == b.w && (a.h < b.h || (a.h == b.h && rates_le(a.freqs, b.freqs))))
}

/// Whether a list of resolutions is in order.
pub open spec fn in_order(resolutions: Seq<ResolutionView>) -> bool {
    forall|i: int, j: int|
        0 <= i < j < resolutions.len() ==> resolution_le(resolutions[i], resolutions[j])
}

/// Of two lists of rates one comes before the other.
pub proof fn lemma_rates_le_total(a: Seq<u32>, b: Seq<u32>)
    ensures
        rates_le(a, b) || rates_le(b, a),
    decreases a.len(),
{
    if a.len() > 0 && b.len() > 0 && a[0] == b[0] {
        lemma_rates_le_total(a.drop_first(), b.drop_first());
    }
}

/// The order of lists of rates is transitive.
pub proof fn lemma_rates_le_transitive(a: Seq<u32>, b: Seq<u32>, c: Seq<u32>)
    requires
        rates_le(a, b),
        rates_le(b, c),
    ensures
        rates_le(a, c),
    decreases a.len(),
{
    if a.len() > 0 && b.len() > 0 && c.len() > 0 && a[0] == b[0] && b[0] == c[0] {
        lemma_rates_le_transitive(a.drop_first(), b.drop_first(), c.drop_first());
    }
}

/// Two lists of rates of which each comes before the other are one list.
pub proof fn lemma_rates_le_antisymmetric(a: Seq<u32>, b: Seq<u32>)
    requires
        rates_le(a, b),
        rates_le(b, a),
    ensures
        a == b,
    decreases a.len(),
{
    if a.len() > 0 && b.len() > 0 {
        lemma_rates_le_antisymmetric(a.drop_first(), b.drop_first());
        assert(a =~= seq![a[0]] + a.drop_first());
        assert(b =~= seq![b[0]] + b.drop_first());
    } else {
        assert(a =~= b);
    }
}

/// Tells whether one list of rates comes before another.
pub fn rates_before(a: &Vec<u32>, b: &Vec<u32>) -> (le: bool)
    ensures
        le == rates_le(a@, b@),
{
    let mut i: usize = 0;
    assert(a@.skip(0) =~= a@ && b@.skip(0) =~= b@);
    while i < a.len()
        invariant
            i <= a.len(),
            i <= b.len(),
            rates_le(a@, b@) == rates_le(a@.skip(i as int), b@.skip(i as int)),
        decreases a.len() - i,
    {
        proof {
            assert(a@.skip(i as int).len() > 0);
            assert(a@.skip(i as int)[0] == a@[i as int]);
            assert(a@.skip(i as int).drop_first() =~= a@.skip(i + 1));
        }
        if i >= b.len() {
            assert(b@.skip(i as int).len() == 0);
            return false;
        }
        proof {
            assert(b@.skip(i as int)[0] == b@[i as int]);
            assert(b@.skip(i as int).drop_first() =~= b@.skip(i + 1));
        }
        if a[i] != b[i] {
            return a[i] < b[i];
        }
        i += 1;
    }
    assert(a@.skip(i as int).len() == 0);
    true
}

impl Resolution {
    /// Tells whether a resolution comes before another in the order of
    /// resolutions.
    pub fn comes_before(&self, other: &Resolution) -> (le: bool)
        ensures
            le == resolution_le(self@, other@),
    {
        if self.w != other.w {
            self.w < other.w
        } else if self.h != other.h {
            self.h < other.h
        } else {
            rates_before(&self.freqs, &other.freqs)
        }
    }
}

/// Keeps the rates that are not zero, each once.
pub fn keep_unique_rates(freqs: &Vec<u32>) -> (kept: Vec<u32>)
    ensures
        kept@ == unique_rates(freqs@, freqs.len() as int),
{
    let mut kept: Vec<u32> = Vec::new();
    let mut i: usize = 0;
    while i < freqs.len()
        invariant
            i <= freqs.len(),
            kept@ == unique_rates(freqs@, i as int),
        decreases freqs.len() - i,
    {
        let freq = freqs[i];
        let mut known = false;
        let mut k: usize = 0;
        while k < kept.len()
            invariant
                k <= kept.len(),
                known == kept@.take(k as int).contains(freq),
            decreases kept.len() - k,
        {
            if kept[k] == freq {
                known = true;
            }
            proof {
                let before = kept@.take(k as int);
                let after = kept@.take(k + 1);
                assert(after =~= before.push(kept@[k as int]));
                if before.contains(freq) {
                    let at = choose|at: int| 0 <= at < before.len() && before[at] == freq;
                    assert(after[at] == freq);
                }
                if kept@[k as int] == freq {
                    assert(after[k as int] == freq);
                }
            }
            k += 1;
        }
        assert(kept@.take(kept.len() as int) =~= kept@);
        if freq != 0 && !known {
            kept.push(freq);
        }
        i += 1;
    }
    kept
}

/// Puts a resolution into a list that is in order, behind those that come
/// before it.
fn insert_in_order(resolutions: &mut Vec<Resolution>, resolution: Resolution)
    requires
        in_order(resolution_views(old(resolutions)@)),
    ensures
        in_order(resolution_views(final(resolutions)@)),
        resolution_views(final(resolutions)@).to_multiset() == resolution_views(
            old(resolutions)@,
        ).to_multiset().insert(resolution@),
{
    broadcast use vstd::seq_lib::group_to_multiset_ensures;

    let ghost before = resolution_views(resolutions@);
    let mut i: usize = 0;
    while i < resolutions.len() && resolutions[i].comes_before(&resolution)
        invariant
            i <= resolutions.len(),
            *resolutions == *old(resolutions),
            before == resolution_views(resolutions@),
            forall|j: int| 0 <= j < i ==> resolution_le(before[j], resolution@),
        decreases resolutions.len() - i,
    {
        assert(before[i as int] == resolutions[i as int]@);
        i += 1;
    }
    proof {
        if i < resolutions.len() {
            assert(before[i as int] == resolutions[i as int]@);
            lemma_rates_le_total(before[i as int].freqs, resolution@.freqs);
            assert(resolution_le(resolution@, before[i as int]));
            assert forall|j: int| i <= j < before.len() implies resolution_le(
                resolution@,
                before[j],
            ) by {
                if j > i {
                    assert(resolution_le(before[i as int], before[j]));
                    if resolution@.w == before[i as int].w && before[i as int].w == before[j].w
                        && resolution@.h == before[i as int].h && before[i as int].h
                        == before[j].h {
                        lemma_rates_le_transitive(
                            resolution@.freqs,
                            before[i as int].freqs,
                            before[j].freqs,
                        );
                    }
                }
            }
        }
    }
    resolutions.insert(i, resolution);
    proof {
        let after = resolution_views(resolutions@);
        assert(after =~= before.insert(i as int, resolution@));
        assert(after.remove(i as int) =~= before);
        assert(after[i as int] == resolution@);
        assert(after.to_multiset() =~= before.to_multiset().insert(resolution@));
        assert forall|a: int, b: int| 0 <= a < b < after.len() implies resolution_le(
            after[a],
            after[b],
        ) by {
            if a < i && b < i {
                assert(resolution_le(before[a], before[b]));
            } else if a < i && b == i {
            } else if a < i && b > i {
                assert(resolution_le(before[a], before[b - 1]));
            } else if a == i {
                assert(resolution_le(resolution@, before[b - 1]));
            } else {
                assert(resolution_le(before[a - 1], before[b - 1]));
            }
        }
    }
}

impl Screen {
    /// The screen that a report of the display server describes: its
    /// current size, and the modes of its primary output that are offered,
    /// in the order of resolutions.
    pub fn list_screens_resolutions(report: &Vec<XrandrLine>) -> (screen: Screen)
        ensures
            in_order(resolution_views(screen.resolutions@)),
            resolution_views(screen.resolutions@).to_multiset() == scanned(
                report@,
                report.len() as int,
            ).kept.to_multiset(),
            match screen.current_resolution {
                Some(current) => scanned(report@, report.len() as int).current == Some(
                    (current.w, current.h),
                ) && current.freqs@ == seq![0u32],
                None => scanned(report@, report.len() as int).current is None,
            },
    {
        broadcast use vstd::seq_lib::group_to_multiset_ensures;

        let mut resolutions: Vec<Resolution> = Vec::new();
        let mut current: Option<(u32, u32)> = None;
        let mut in_primary = false;
        let mut i: usize = 0;
        assert(resolution_views(resolutions@) =~= Seq::<ResolutionView>::empty());
        while i < report.len()
            invariant
                i <= report.len(),
                current == scanned(report@, i as int).current,
                in_primary == scanned(report@, i as int).in_primary,
                in_order(resolution_views(resolutions@)),
                resolution_views(resolutions@).to_multiset() == scanned(
                    report@,
                    i as int,
                ).kept.to_multiset(),
            decreases report.len() - i,
        {
            match &report[i] {
                XrandrLine::Current(w, h) => {
                    current = Some((*w, *h));
                },
                XrandrLine::Primary => {
                    in_primary = true;
                },
                XrandrLine::Mode(w, h, freqs) => {
                    let offered = in_primary && *w >= 640 && *h >= 480 && match current {
                        Some(size) => same_ratio(*w, *h, size.0, size.1),
                        None => false,
                    };
                    if offered {
                        let resolution = Resolution { w: *w, h: *h, freqs: keep_unique_rates(freqs) };
                        proof {
                            scanned(report@, i as int).kept.to_multiset_ensures();
                        }
                        insert_in_order(&mut resolutions, resolution);
                    }
                },
                XrandrLine::Other => {
                    in_primary = false;
                },
            }
            i += 1;
        }
        let current_resolution = match current {
            Some(size) => {
                let mut freqs: Vec<u32> = Vec::new();
                freqs.push(0);
                Some(Resolution { w: size.0, h: size.1, freqs })
            },
            None => None,
        };
        Screen { resolutions, current_resolution }
    }
}

/// A list of resolutions is settled by what it holds and by being in order:
/// two lists in order that hold the same resolutions are one list.
pub proof fn lemma_order_settles_the_list(a: Seq<ResolutionView>, b: Seq<ResolutionView>)
    requires
        in_order(a),
        in_order(b),
        a.to_multiset() == b.to_multiset(),
    ensures
        a == b,
    decreases a.len(),
{
    a.to_multiset_ensures();
    b.to_multiset_ensures();
    assert(a.len() == b.len());
    if a.len() == 0 {
        assert(a =~= b);
    } else {
        assert(a.contains(a[0]));
        assert(b.contains(b[0]));
        assert(a.to_multiset().count(a[0]) > 0);
        assert(b.to_multiset().count(b[0]) > 0);
        assert(b.to_multiset().count(a[0]) > 0);
        assert(a.to_multiset().count(b[0]) > 0);
        assert(b.contains(a[0]));
        assert(a.contains(b[0]));
        let i = choose|i: int| 0 <= i < b.len() && b[i] == a[0];
        let j = choose|j: int| 0 <= j < a.len() && a[j] == b[0];
        assert(resolution_le(b[0], a[0])) by {
            if i > 0 {
                assert(resolution_le(b[0], b[i]));
            } else {
                lemma_rates_le_total(a[0].freqs, a[0].freqs);
            }
        }
        assert(resolution_le(a[0], b[0])) by {
            if j > 0 {
                assert(resolution_le(a[0], a[j]));
            } else {
                lemma_rates_le_total(a[0].freqs, a[0].freqs);
            }
        }
        if a[0].w == b[0].w && a[0].h == b[0].h {
            lemma_rates_le_antisymmetric(a[0].freqs, b[0].freqs);
        }
        assert(a[0] == b[0]);
        assert(a.remove(0) =~= a.drop_first());
        assert(b.remove(0) =~= b.drop_first());
        assert(a.drop_first().to_multiset() == b.drop_first().to_multiset());
        lemma_order_settles_the_list(a.drop_first(), b.drop_first());
        assert(a =~= seq![a[0]] + a.drop_first());
        assert(b =~= seq![b[0]] + b.drop_first());
    }
}


/// How a resolution is shown: its width and its height with an `x` between.
pub open spec fn resolution_label(w: u32, h: u32) -> Seq<char> {
    decimal(w as nat) + "x"@ + decimal(h as nat)
}

/// How a refresh rate is shown: its number, then its unit.
pub open spec fn rate_label(freq: u32) -> Seq<char> {
    decimal(freq as nat) + " Hz"@
}

impl Resolution {
    /// The text under which the resolution is offered.
    pub fn label(&self) -> (text: String)
        ensures
            text@ == resolution_label(self.w, self.h),
    {
        let mut text = string_of(&to_decimal(self.w as u64));
        text.append("x");
        text.append(string_of(&to_decimal(self.h as u64)).as_str());
        text
    }
}

/// The texts under which refresh rates are offered, in their order.
pub fn rate_labels(freqs: &Vec<u32>) -> (labels: Vec<String>)
    ensures
        labels.len() == freqs.len(),
        forall|i: int| 0 <= i < freqs.len() ==> (#[trigger] labels[i])@ == rate_label(freqs[i]),
{
    let mut labels: Vec<String> = Vec::new();
    let mut i: usize = 0;
    while i < freqs.len()
        invariant
            i <= freqs.len(),
            labels.len() == i,
            forall|k: int| 0 <= k < i ==> (#[trigger] labels[k])@ == rate_label(freqs[k]),
        decreases freqs.len() - i,
    {
        let mut label = string_of(&to_decimal(freqs[i] as u64));
        label.append(" Hz");
        labels.push(label);
        i += 1;
    }
    labels
}

} // verus!
