//! Window geometry for snap layouts, and memory of original window
//! geometry.
use vstd::prelude::*;

pub use crate::protocol::SnapLayout;
use crate::text::{owned, str_eq};

verus! {

/// A rectangle: position and size of a window or a work area.
#[derive(Debug, Clone, Copy, PartialEq, Eq, Hash, Default, Structural)]
pub struct Rect {
    pub x: i32,
    pub y: i32,
    pub width: i32,
    pub height: i32,
}

impl Rect {
    pub fn new(x: i32, y: i32, width: i32, height: i32) -> (r: Rect)
        ensures
            r == (Rect { x, y, width, height }),
    {
        Rect { x, y, width, height }
    }
}

/// Rust's integer division of `a` by a positive `b` (rounding toward zero).
pub open spec fn tdiv(a: int, b: int) -> int {
    if a >= 0 {
        a / b
    } else {
        -((-a) / b)
    }
}

/// The least `p * 2^k` (k >= 0) with `20 * p * 2^k > n`.
pub open spec fn first_power_above(n: int, p: int) -> int
    decreases (if n - p > 0 {
        n - p
    } else {
        0
    }),
{
    if p <= 0 || 20 * p > n {
        p
    } else {
        first_power_above(n, 2 * p)
    }
}

/// Seventy percent of `w`, rounded to the nearest integer with halves away
/// from zero, as `(w as f64 * 0.7).round()` gives it. The binary64 value of
/// 0.7 lies just below 7/10, so an exact half `q + 1/2` is reached only
/// when the product rounds up to it: that happens when `5 p >= 2 |w|`, `p`
/// the power of two with `10 p <= 7 |w| < 20 p`.
pub open spec fn seventy_percent(w: int) -> int {
    let a = if w >= 0 {
        w
    } else {
        -w
    };
    let n = 7 * a;
    let q = n / 10;
    let rem = n % 10;
    let r = if rem < 5 {
        q
    } else if rem > 5 {
        q + 1
    } else if 5 * first_power_above(n, 1) < 2 * a {
        q
    } else {
        q + 1
    };
    if w >= 0 {
        r
    } else {
        -r
    }
}

/// The window rectangle `(x, y, width, height)` a layout gives in a work
/// area.
pub open spec fn geometry(l: SnapLayout, r: Rect) -> (int, int, int, int) {
    let x = r.x as int;
    let y = r.y as int;
    let w = r.width as int;
    let h = r.height as int;
    match l {
        SnapLayout::HalfLeft => (x, y, tdiv(w, 2), h),
        SnapLayout::HalfRight => (x + tdiv(w, 2), y, w - tdiv(w, 2), h),
        SnapLayout::HalfTop => (x, y, w, tdiv(h, 2)),
        SnapLayout::HalfBottom => (x, y + tdiv(h, 2), w, h - tdiv(h, 2)),
        SnapLayout::TwoThirdsLeft => (x, y, tdiv(w * 2, 3), h),
        SnapLayout::OneThirdRight => (x + tdiv(w * 2, 3), y, w - tdiv(w * 2, 3), h),
        SnapLayout::OneThirdLeft => (x, y, tdiv(w, 3), h),
        SnapLayout::TwoThirdsRight => (x + tdiv(w, 3), y, w - tdiv(w, 3), h),
        SnapLayout::ThreeColumnsLeft => (x, y, tdiv(w, 3), h),
        SnapLayout::ThreeColumnsCenter => (x + tdiv(w, 3), y, tdiv(w, 3), h),
        SnapLayout::ThreeColumnsRight => (x + tdiv(w * 2, 3), y, w - tdiv(w * 2, 3), h),
        SnapLayout::Maximize => (x, y, w, h),
        SnapLayout::CenterFloating => {
            let fw = seventy_percent(w);
            let fh = seventy_percent(h);
            (x + tdiv(w - fw, 2), y + tdiv(h - fh, 2), fw, fh)
        },
        SnapLayout::RestoreOriginal => (x, y, w, h),
    }
}

pub open spec fn in_i32(v: int) -> bool {
    i32::MIN <= v <= i32::MAX
}

/// The layout's computation stays within 32-bit integers (the doubled width
/// included, for layouts that take two thirds).
pub open spec fn layout_fits(l: SnapLayout, r: Rect) -> bool {
    let g = geometry(l, r);
    &&& in_i32(g.0)
    &&& in_i32(g.1)
    &&& in_i32(g.2)
    &&& in_i32(g.3)
    &&& (l == SnapLayout::TwoThirdsLeft || l == SnapLayout::OneThirdRight || l
        == SnapLayout::ThreeColumnsRight) ==> in_i32(r.width * 2)
}

pub open spec fn rect_of(g: (int, int, int, int)) -> Rect {
    Rect { x: g.0 as i32, y: g.1 as i32, width: g.2 as i32, height: g.3 as i32 }
}

fn seventy_percent_exec(w: i32) -> (r: i32)
    ensures
        r == seventy_percent(w as int),
{
    let a: i64 = if w >= 0 {
        w as i64
    } else {
        -(w as i64)
    };
    let n: i64 = 7 * a;
    let q: i64 = n / 10;
    let rem: i64 = n % 10;
    let r: i64 = if rem < 5 {
        q
    } else if rem > 5 {
        q + 1
    } else {
        let mut p: i64 = 1;
        while 20 * p <= n
            invariant
                1 <= p <= n + 1,
                n == 7 * a,
                0 <= a <= 0x8000_0000,
                first_power_above(n as int, p as int) == first_power_above(n as int, 1),
            decreases n - p,
        {
            p = p * 2;
        }
        if 5 * p < 2 * a {
            q
        } else {
            q + 1
        }
    };
    assert(r <= 0x7000_0000);
    if w >= 0 {
        r as i32
    } else {
        (-r) as i32
    }
}

/// Pure window-geometry computation.
#[derive(Debug, Clone, Copy, Default)]
pub struct LayoutEngine;

impl LayoutEngine {
    /// The window rectangle `layout` gives in `work_area`: halves and thirds
    /// split the width (or height) with integer division, the remainder
    /// going to the right (or bottom) part; `CenterFloating` is a centred
    /// window at seventy percent of each dimension; `Maximize` and
    /// `RestoreOriginal` fill the work area.
    pub fn compute_geometry(layout: SnapLayout, work_area: Rect) -> (r: Rect)
        requires
            layout_fits(layout, work_area),
        ensures
            r == rect_of(geometry(layout, work_area)),
    {
        let x = work_area.x;
        let y = work_area.y;
        let w = work_area.width;
        let h = work_area.height;
        match layout {
            SnapLayout::HalfLeft => Rect::new(x, y, w / 2, h),
            SnapLayout::HalfRight => Rect::new(x + w / 2, y, w - w / 2, h),
            SnapLayout::HalfTop => Rect::new(x, y, w, h / 2),
            SnapLayout::HalfBottom => Rect::new(x, y + h / 2, w, h - h / 2),
            SnapLayout::TwoThirdsLeft => Rect::new(x, y, (w * 2) / 3, h),
            SnapLayout::OneThirdRight => Rect::new(x + (w * 2) / 3, y, w - (w * 2) / 3, h),
            SnapLayout::OneThirdLeft => Rect::new(x, y, w / 3, h),
            SnapLayout::TwoThirdsRight => Rect::new(x + w / 3, y, w - w / 3, h),
            SnapLayout::ThreeColumnsLeft => Rect::new(x, y, w / 3, h),
            SnapLayout::ThreeColumnsCenter => Rect::new(x + w / 3, y, w / 3, h),
            SnapLayout::ThreeColumnsRight => Rect::new(x + (w * 2) / 3, y, w - (w * 2) / 3, h),
            SnapLayout::Maximize => Rect::new(x, y, w, h),
            SnapLayout::CenterFloating => {
                let fw = seventy_percent_exec(w);
                let fh = seventy_percent_exec(h);
                let fx = x + ((w - fw) / 2);
                let fy = y + ((h - fh) / 2);
                Rect::new(fx, fy, fw, fh)
            },
            SnapLayout::RestoreOriginal => Rect::new(x, y, w, h),
        }
    }
}

fn in_i32_exec(v: i64) -> (r: bool)
    ensures
        r == in_i32(v as int),
{
    -2147483648i64 <= v && v <= 2147483647i64
}

impl LayoutEngine {
    /// Whether `layout` can be computed on `work_area` within 32-bit
    /// integers.
    pub fn fits(layout: SnapLayout, work_area: Rect) -> (r: bool)
        ensures
            r == layout_fits(layout, work_area),
    {
        let x = work_area.x as i64;
        let y = work_area.y as i64;
        let w = work_area.width as i64;
        let h = work_area.height as i64;
        let g: (i64, i64, i64, i64) = match layout {
            SnapLayout::HalfLeft => (x, y, w / 2, h),
            SnapLayout::HalfRight => (x + w / 2, y, w - w / 2, h),
            SnapLayout::HalfTop => (x, y, w, h / 2),
            SnapLayout::HalfBottom => (x, y + h / 2, w, h - h / 2),
            SnapLayout::TwoThirdsLeft => (x, y, (w * 2) / 3, h),
            SnapLayout::OneThirdRight => (x + (w * 2) / 3, y, w - (w * 2) / 3, h),
            SnapLayout::OneThirdLeft => (x, y, w / 3, h),
            SnapLayout::TwoThirdsRight => (x + w / 3, y, w - w / 3, h),
            SnapLayout::ThreeColumnsLeft => (x, y, w / 3, h),
            SnapLayout::ThreeColumnsCenter => (x + w / 3, y, w / 3, h),
            SnapLayout::ThreeColumnsRight => (x + (w * 2) / 3, y, w - (w * 2) / 3, h),
            SnapLayout::Maximize => (x, y, w, h),
            SnapLayout::CenterFloating => {
                let fw = seventy_percent_exec(work_area.width) as i64;
                let fh = seventy_percent_exec(work_area.height) as i64;
                (x + (w - fw) / 2, y + (h - fh) / 2, fw, fh)
            },
            SnapLayout::RestoreOriginal => (x, y, w, h),
        };
        let doubled = match layout {
            SnapLayout::TwoThirdsLeft | SnapLayout::OneThirdRight | SnapLayout::ThreeColumnsRight => in_i32_exec(w * 2),
            _ => true,
        };
        in_i32_exec(g.0) && in_i32_exec(g.1) && in_i32_exec(g.2) && in_i32_exec(g.3) && doubled
    }
}

/// The left and right halves tile the work area horizontally, and the top
/// and bottom halves tile it vertically.
pub proof fn law_halves_tile_work_area(r: Rect)
    ensures
        geometry(SnapLayout::HalfLeft, r).0 == r.x,
        geometry(SnapLayout::HalfRight, r).0 == geometry(SnapLayout::HalfLeft, r).0 + geometry(
            SnapLayout::HalfLeft,
            r,
        ).2,
        geometry(SnapLayout::HalfLeft, r).2 + geometry(SnapLayout::HalfRight, r).2 == r.width,
        geometry(SnapLayout::HalfTop, r).1 == r.y,
        geometry(SnapLayout::HalfBottom, r).1 == geometry(SnapLayout::HalfTop, r).1 + geometry(
            SnapLayout::HalfTop,
            r,
        ).3,
        geometry(SnapLayout::HalfTop, r).3 + geometry(SnapLayout::HalfBottom, r).3 == r.height,
{
}

/// Two thirds and the remaining third tile the width, on either side.
pub proof fn law_thirds_tile_width(r: Rect)
    ensures
        geometry(SnapLayout::TwoThirdsLeft, r).2 + geometry(SnapLayout::OneThirdRight, r).2
            == r.width,
        geometry(SnapLayout::OneThirdRight, r).0 == r.x + geometry(SnapLayout::TwoThirdsLeft, r).2,
        geometry(SnapLayout::OneThirdLeft, r).2 + geometry(SnapLayout::TwoThirdsRight, r).2
            == r.width,
        geometry(SnapLayout::TwoThirdsRight, r).0 == r.x + geometry(SnapLayout::OneThirdLeft, r).2,
{
}

/// The three columns tile the width left to right when the width is not
/// negative and leaves no remainder of two when divided by three (with a
/// remainder of two, one pixel column stays uncovered between the centre
/// and right columns).
pub proof fn law_three_columns_tile_width(r: Rect)
    requires
        r.width >= 0,
        r.width % 3 != 2,
    ensures
        geometry(SnapLayout::ThreeColumnsLeft, r).0 == r.x,
        geometry(SnapLayout::ThreeColumnsCenter, r).0 == r.x + geometry(
            SnapLayout::ThreeColumnsLeft,
            r,
        ).2,
        geometry(SnapLayout::ThreeColumnsRight, r).0 == geometry(SnapLayout::ThreeColumnsCenter, r).0
            + geometry(SnapLayout::ThreeColumnsCenter, r).2,
        geometry(SnapLayout::ThreeColumnsLeft, r).2 + geometry(SnapLayout::ThreeColumnsCenter, r).2
            + geometry(SnapLayout::ThreeColumnsRight, r).2 == r.width,
{
    let w = r.width as int;
    assert((w * 2) / 3 == w / 3 + w / 3) by (nonlinear_arith)
        requires
            w >= 0,
            w % 3 != 2,
    ;
}

// ---------------------------------------------------------------------------
// Geometry memory
// ---------------------------------------------------------------------------

/// Remembered original window geometry, by window address.
#[derive(Debug, Clone, Default)]
pub struct GeometryMemory {
    memories: Vec<(String, Rect)>,
}

pub open spec fn addr_distinct(s: Seq<(String, Rect)>) -> bool {
    forall|i: int, j: int| 0 <= i < s.len() && 0 <= j < s.len() && i != j ==> s[i].0@ != s[j].0@
}

pub open spec fn addr_map(s: Seq<(String, Rect)>) -> Map<Seq<char>, Rect> {
    Map::new(
        |k: Seq<char>| exists|i: int| 0 <= i < s.len() && #[trigger] s[i].0@ == k,
        |k: Seq<char>| s[choose|i: int| 0 <= i < s.len() && #[trigger] s[i].0@ == k].1,
    )
}

proof fn lemma_addr_val(s: Seq<(String, Rect)>, i: int)
    requires
        addr_distinct(s),
        0 <= i < s.len(),
    ensures
        addr_map(s).contains_key(s[i].0@),
        addr_map(s)[s[i].0@] == s[i].1,
{
    let k = s[i].0@;
    assert(exists|j: int| 0 <= j < s.len() && #[trigger] s[j].0@ == k);
    let j = choose|j: int| 0 <= j < s.len() && #[trigger] s[j].0@ == k;
    assert(j == i);
}

proof fn lemma_addr_len(s: Seq<(String, Rect)>)
    requires
        addr_distinct(s),
    ensures
        addr_map(s).dom().finite(),
        addr_map(s).dom().len() == s.len(),
    decreases s.len(),
{
    if s.len() == 0 {
        assert(addr_map(s).dom() =~= Set::<Seq<char>>::empty());
    } else {
        let t = s.drop_last();
        assert(addr_distinct(t)) by {
            assert forall|i: int, j: int| 0 <= i < t.len() && 0 <= j < t.len() && i != j implies t[i].0@
                != t[j].0@ by {
                assert(t[i] == s[i] && t[j] == s[j]);
            }
        }
        lemma_addr_len(t);
        let k = s.last().0@;
        assert forall|x: Seq<char>| addr_map(s).dom().contains(x) == addr_map(t).dom().insert(k).contains(x) by {
            if addr_map(s).dom().contains(x) && x != k {
                let i = choose|i: int| 0 <= i < s.len() && #[trigger] s[i].0@ == x;
                assert(t[i] == s[i]);
            }
            if addr_map(t).dom().contains(x) {
                let i = choose|i: int| 0 <= i < t.len() && #[trigger] t[i].0@ == x;
                assert(t[i] == s[i]);
            }
            if x == k {
                assert(s[s.len() - 1].0@ == k);
            }
        }
        assert(addr_map(s).dom() =~= addr_map(t).dom().insert(k));
        if addr_map(t).dom().contains(k) {
            let i = choose|i: int| 0 <= i < t.len() && #[trigger] t[i].0@ == k;
            assert(t[i] == s[i]);
        }
    }
}

impl View for GeometryMemory {
    type V = Map<Seq<char>, Rect>;

    closed spec fn view(&self) -> Map<Seq<char>, Rect> {
        addr_map(self.memories@)
    }
}

impl GeometryMemory {
    pub closed spec fn wf(&self) -> bool {
        addr_distinct(self.memories@)
    }

    pub fn new() -> (r: GeometryMemory)
        ensures
            r.wf(),
            r@ == Map::<Seq<char>, Rect>::empty(),
    {
        let r = GeometryMemory { memories: Vec::new() };
        assert(r@ =~= Map::<Seq<char>, Rect>::empty());
        r
    }

    fn find(&self, address: &str) -> (r: Option<usize>)
        requires
            self.wf(),
        ensures
            match r {
                Some(i) => i < self.memories@.len() && self.memories@[i as int].0@ == address@,
                None => !self@.contains_key(address@),
            },
    {
        let mut i: usize = 0;
        while i < self.memories.len()
            invariant
                i <= self.memories@.len(),
                forall|j: int| 0 <= j < i ==> #[trigger] self.memories@[j].0@ != address@,
            decreases self.memories@.len() - i,
        {
            if str_eq(self.memories[i].0.as_str(), address) {
                return Some(i);
            }
            i = i + 1;
        }
        None
    }

    /// Remembers `rect` for `address` unless something is remembered for it
    /// already; tells whether it was remembered now.
    pub fn record_if_absent(&mut self, address: &str, rect: Rect) -> (r: bool)
        requires
            old(self).wf(),
        ensures
            final(self).wf(),
            r == !old(self)@.contains_key(address@),
            r ==> final(self)@ == old(self)@.insert(address@, rect),
            !r ==> final(self)@ == old(self)@,
    {
        match self.find(address) {
            Some(i) => {
                proof {
                    lemma_addr_val(self.memories@, i as int);
                }
                false
            },
            None => {
                let ghost s0 = self.memories@;
                self.memories.push((owned(address), rect));
                proof {
                    let s = self.memories@;
                    assert forall|i: int, j: int| 0 <= i < s.len() && 0 <= j < s.len() && i != j implies s[i].0@
                        != s[j].0@ by {
                        if i < s0.len() {
                            assert(s[i] == s0[i]);
                        }
                        if j < s0.len() {
                            assert(s[j] == s0[j]);
                        }
                        if i < s0.len() && j == s0.len() {
                            assert(addr_map(s0).contains_key(s0[i].0@));
                        }
                        if j < s0.len() && i == s0.len() {
                            assert(addr_map(s0).contains_key(s0[j].0@));
                        }
                    }
                    let m = addr_map(s0).insert(address@, rect);
                    assert forall|k: Seq<char>| #[trigger] addr_map(s).contains_key(k) == m.contains_key(k) by {
                        if addr_map(s).contains_key(k) && k != address@ {
                            let i = choose|i: int| 0 <= i < s.len() && #[trigger] s[i].0@ == k;
                            assert(s[i] == s0[i]);
                        }
                        if addr_map(s0).contains_key(k) {
                            let i = choose|i: int| 0 <= i < s0.len() && #[trigger] s0[i].0@ == k;
                            assert(s[i] == s0[i]);
                        }
                        if k == address@ {
                            assert(s[s0.len() as int].0@ == k);
                        }
                    }
                    assert forall|k: Seq<char>| #[trigger] addr_map(s).contains_key(k) implies addr_map(s)[k]
                        == m[k] by {
                        let i = choose|i: int| 0 <= i < s.len() && #[trigger] s[i].0@ == k;
                        lemma_addr_val(s, i);
                        if i < s0.len() {
                            assert(s[i] == s0[i]);
                            lemma_addr_val(s0, i);
                        }
                    }
                    assert(addr_map(s) =~= m);
                }
                true
            },
        }
    }

    /// Forgets and returns what is remembered for `address`.
    pub fn restore_original(&mut self, address: &str) -> (r: Option<Rect>)
        requires
            old(self).wf(),
        ensures
            final(self).wf(),
            r == (if old(self)@.contains_key(address@) {
                Some(old(self)@[address@])
            } else {
                None
            }),
            final(self)@ == old(self)@.remove(address@),
    {
        match self.find(address) {
            None => {
                assert(self@.remove(address@) =~= self@);
                None
            },
            Some(i) => {
                let ghost s0 = self.memories@;
                proof {
                    lemma_addr_val(s0, i as int);
                }
                let (_, rect) = self.memories.remove(i);
                proof {
                    let s = self.memories@;
                    assert(s =~= s0.remove(i as int));
                    assert forall|a: int, b: int| 0 <= a < s.len() && 0 <= b < s.len() && a != b implies s[a].0@
                        != s[b].0@ by {
                        let a0 = if a < i { a } else { a + 1 };
                        let b0 = if b < i { b } else { b + 1 };
                        assert(s[a] == s0[a0] && s[b] == s0[b0]);
                    }
                    let m = addr_map(s0).remove(address@);
                    assert forall|k: Seq<char>| #[trigger] addr_map(s).contains_key(k) == m.contains_key(k) by {
                        if addr_map(s).contains_key(k) {
                            let j = choose|j: int| 0 <= j < s.len() && #[trigger] s[j].0@ == k;
                            let j0 = if j < i { j } else { j + 1 };
                            assert(s[j] == s0[j0]);
                            assert(j0 != i);
                        }
                        if m.contains_key(k) {
                            let j = choose|j: int| 0 <= j < s0.len() && #[trigger] s0[j].0@ == k;
                            assert(j != i);
                            let j1 = if j < i { j } else { j - 1 };
                            assert(s[j1] == s0[j]);
                        }
                    }
                    assert forall|k: Seq<char>| #[trigger] addr_map(s).contains_key(k) implies addr_map(s)[k]
                        == m[k] by {
                        let j = choose|j: int| 0 <= j < s.len() && #[trigger] s[j].0@ == k;
                        lemma_addr_val(s, j);
                        let j0 = if j < i { j } else { j + 1 };
                        assert(s[j] == s0[j0]);
                        lemma_addr_val(s0, j0);
                    }
                    assert(addr_map(s) =~= m);
                }
                Some(rect)
            },
        }
    }

    /// What is remembered for `address`, left in place.
    pub fn peek_original(&self, address: &str) -> (r: Option<&Rect>)
        requires
            self.wf(),
        ensures
            match r {
                Some(x) => self@.contains_key(address@) && *x == self@[address@],
                None => !self@.contains_key(address@),
            },
    {
        match self.find(address) {
            Some(i) => {
                proof {
                    lemma_addr_val(self.memories@, i as int);
                }
                Some(&self.memories[i].1)
            },
            None => None,
        }
    }

    /// Forgets everything.
    pub fn clear(&mut self)
        ensures
            final(self).wf(),
            final(self)@ == Map::<Seq<char>, Rect>::empty(),
    {
        self.memories = Vec::new();
        assert(self@ =~= Map::<Seq<char>, Rect>::empty());
    }

    /// A well-formed memory remembers finitely many windows.
    pub proof fn lemma_finite(&self)
        requires
            self.wf(),
        ensures
            self@.dom().finite(),
    {
        lemma_addr_len(self.memories@);
    }

    /// Number of remembered windows.
    pub fn len(&self) -> (r: usize)
        requires
            self.wf(),
        ensures
            self@.dom().finite(),
            r == self@.dom().len(),
    {
        proof {
            lemma_addr_len(self.memories@);
        }
        self.memories.len()
    }

    pub fn is_empty(&self) -> (r: bool)
        requires
            self.wf(),
        ensures
            r == (self@.dom().len() == 0),
    {
        proof {
            lemma_addr_len(self.memories@);
        }
        self.memories.len() == 0
    }
}

/// Remembering a window's geometry and then restoring it gives back what was
/// remembered first: a second recording does not overwrite it, and the
/// restore forgets it.
pub proof fn law_restore_returns_first_recorded(
    m: Map<Seq<char>, Rect>,
    address: Seq<char>,
    first: Rect,
    second: Rect,
)
    requires
        !m.contains_key(address),
    ensures
        m.insert(address, first).contains_key(address),
        m.insert(address, first)[address] == first,
        !m.insert(address, first).remove(address).contains_key(address),
{
}

} // verus!
