//! Properties of the layout engine and the resize clamp that hold for
//! every input.
use crate::desktop::{abs, candidate, clamped, nominal_size, within_clamp};
use crate::layout::{slot_override, bsp_spec, columns_spec, layout_spec, propagated, propagated_upto, resized_area, rows_spec, share, stride};
use crate::protocol::{Layout, ResizeEdge, Sizing};
use crate::rect::{half, rect, shrunk, wadd, wsub, Rect};
use crate::window::Window;
use crate::workspace::{balanced, tiled_resizes, windows_layout};
use vstd::prelude::*;

verus! {

/// The layout engine is a pure function of its inputs: two computations
/// from the same area, count, kind and gap size, without overrides, give
/// identical rectangles.
pub proof fn lemma_layout_deterministic(area: Rect, n: nat, kind: Layout, gaps: i32, first: Seq<Rect>, second: Seq<Rect>)
    requires
        first == layout_spec(area, n, kind, gaps, Seq::empty()),
        second == layout_spec(area, n, kind, gaps, Seq::empty()),
    ensures
        first == second,
{
}

/// Every entry is `None`.
pub open spec fn all_none(o: Seq<Option<Rect>>) -> bool {
    forall|k: int| 0 <= k < o.len() ==> o[k] is None
}

proof fn lemma_tiled_balanced(ws: Seq<Window>, floated: Seq<isize>)
    ensures
        all_none(tiled_resizes(balanced(ws), floated)),
        tiled_resizes(balanced(ws), floated).len() == tiled_resizes(ws, floated).len(),
    decreases ws.len(),
{
    if ws.len() > 0 {
        assert(balanced(ws).drop_last() =~= balanced(ws.drop_last()));
        lemma_tiled_balanced(ws.drop_last(), floated);
    }
}

proof fn lemma_propagated_none(o: Seq<Option<Rect>>, vertical: bool, k: nat)
    requires
        all_none(o),
    ensures
        propagated_upto(o, vertical, k) == o,
    decreases k,
{
    if k > 0 {
        lemma_propagated_none(o, vertical, (k - 1) as nat);
    }
}

proof fn lemma_bsp_without_overrides(i: nat, count: nat, area: Rect, vertical: nat, gaps: i32, o: Seq<Option<Rect>>)
    requires
        all_none(o),
    ensures
        bsp_spec(i, count, area, vertical, gaps, o) == bsp_spec(i, count, area, vertical, gaps, Seq::empty()),
    decreases count,
{
    assert(resized_area(area, o, i as int) == area);
    assert(resized_area(area, Seq::empty(), i as int) == area);
    if count > 1 {
        let h = half(area.height);
        let w = half(area.width);
        let top = rect(area.x, area.y, area.width, h);
        let left = rect(area.x, area.y, w, area.height);
        assert(resized_area(top, o, i as int) == top && resized_area(top, Seq::empty(), i as int) == top);
        assert(resized_area(left, o, i as int) == left && resized_area(left, Seq::empty(), i as int) == left);
        lemma_bsp_without_overrides(i + 1, (count - 1) as nat, rect(area.x, wadd(area.y, h), area.width, wsub(area.height, h)), vertical, gaps, o);
        lemma_bsp_without_overrides(i + 1, (count - 1) as nat, rect(wadd(area.x, w), area.y, wsub(area.width, w), area.height), vertical, gaps, o);
    }
}

/// Clearing every resize override restores the balanced partition: the
/// layout of the cleared windows is exactly a fresh computation for as
/// many windows with no overrides at all.
pub proof fn lemma_retile_balanced(ws: Seq<Window>, kind: Layout, area: Rect, gaps: i32, floated: Seq<isize>)
    ensures
        windows_layout(balanced(ws), kind, area, gaps, floated) == layout_spec(
            area,
            tiled_resizes(ws, floated).len(),
            kind,
            gaps,
            Seq::empty(),
        ),
{
    let o = tiled_resizes(balanced(ws), floated);
    lemma_tiled_balanced(ws, floated);
    let n = o.len();
    lemma_propagated_none(o, true, n);
    lemma_propagated_none(o, false, n);
    lemma_bsp_without_overrides(0, n, area, 1, gaps, o);
    lemma_bsp_without_overrides(0, n, area, 0, gaps, o);
    let e = Seq::<Option<Rect>>::empty();
    lemma_propagated_none(e, true, 0);
    lemma_propagated_none(e, false, 0);
}

/// The override component that `edge` moves.
pub open spec fn component(r: Rect, edge: ResizeEdge) -> int {
    match edge {
        ResizeEdge::Left => r.x as int,
        ResizeEdge::Top => r.y as int,
        ResizeEdge::Right => r.width as int,
        ResizeEdge::Bottom => r.height as int,
    }
}

/// One resize step never takes an override component past the clamp:
/// the step is ignored or its result is under `nominal / 1.005`. A
/// component under the clamp of a positive nominal size keeps that size
/// positive when added or taken away, so the rectangle never inverts.
pub proof fn lemma_clamp_bound(r: Rect, edge: ResizeEdge, sizing: Sizing, step: i32, nominal: Rect)
    ensures
        ({
            let out = clamped(r, edge, sizing, step, nominal);
            out == r || within_clamp(component(out, edge), nominal_size(nominal, edge))
        }),
        forall|v: int, n: i32| within_clamp(v, n) ==> n + v > 0 && n - v > 0,
{
}

/// `step` applied `k` times in a row.
pub open spec fn clamp_iter(r: Rect, edge: ResizeEdge, sizing: Sizing, step: i32, nominal: Rect, k: nat) -> Rect
    decreases k,
{
    if k == 0 {
        r
    } else {
        clamped(clamp_iter(r, edge, sizing, step, nominal, (k - 1) as nat), edge, sizing, step, nominal)
    }
}

/// Whether the repetition after the `j`-th one is ignored.
pub open spec fn stuck_at(r: Rect, edge: ResizeEdge, sizing: Sizing, step: i32, nominal: Rect, j: nat) -> bool {
    clamp_iter(r, edge, sizing, step, nominal, j + 1) == clamp_iter(r, edge, sizing, step, nominal, j)
}

/// Whether every repetition from the `k`-th on leaves the override as
/// it is.
pub open spec fn settled_from(r: Rect, edge: ResizeEdge, sizing: Sizing, step: i32, nominal: Rect, k: nat) -> bool {
    forall|j: nat| j >= k ==> #[trigger] clamp_iter(r, edge, sizing, step, nominal, j) == clamp_iter(r, edge, sizing, step, nominal, k)
}

/// Which way the moved component goes.
pub open spec fn grows(edge: ResizeEdge, sizing: Sizing) -> bool {
    match edge {
        ResizeEdge::Left | ResizeEdge::Top => sizing == Sizing::Decrease,
        ResizeEdge::Right | ResizeEdge::Bottom => sizing == Sizing::Increase,
    }
}

proof fn lemma_stuck_forever(r: Rect, edge: ResizeEdge, sizing: Sizing, step: i32, nominal: Rect, k: nat, j: nat)
    requires
        clamp_iter(r, edge, sizing, step, nominal, k + 1) == clamp_iter(r, edge, sizing, step, nominal, k),
        j >= k,
    ensures
        clamp_iter(r, edge, sizing, step, nominal, j) == clamp_iter(r, edge, sizing, step, nominal, k),
    decreases j - k,
{
    if j > k {
        lemma_stuck_forever(r, edge, sizing, step, nominal, k, (j - 1) as nat);
    }
}

/// Until the first ignored step, the component moves by `step` each time.
proof fn lemma_moving(r: Rect, edge: ResizeEdge, sizing: Sizing, step: i32, nominal: Rect, k: nat)
    ensures
        (exists|j: nat| j < k && #[trigger] stuck_at(r, edge, sizing, step, nominal, j))
            || component(clamp_iter(r, edge, sizing, step, nominal, k), edge) == if grows(edge, sizing) {
            component(r, edge) + k * step
        } else {
            component(r, edge) - k * step
        },
    decreases k,
{
    if k > 0 {
        let p = (k - 1) as nat;
        lemma_moving(r, edge, sizing, step, nominal, p);
        let prev = clamp_iter(r, edge, sizing, step, nominal, p);
        if clamp_iter(r, edge, sizing, step, nominal, k) == prev {
            assert(stuck_at(r, edge, sizing, step, nominal, p));
        } else if exists|j: nat| j < p && #[trigger] stuck_at(r, edge, sizing, step, nominal, j) {
            let j = choose|j: nat| j < p && #[trigger] stuck_at(r, edge, sizing, step, nominal, j);
            assert(j < k && stuck_at(r, edge, sizing, step, nominal, j));
        } else {
            let v = candidate(prev, edge, sizing, step);
            assert(within_clamp(v, nominal_size(nominal, edge)));
            assert(component(clamp_iter(r, edge, sizing, step, nominal, k), edge) == v);
            assert(k * step == p * step + step) by (nonlinear_arith)
                requires
                    k == p + 1,
            ;
        }
    }
}

/// Repeating one resize step with a positive step size eventually stops
/// changing the override: from some number of repetitions on, every
/// further repetition leaves it as it is.
pub proof fn lemma_clamp_settles(r: Rect, edge: ResizeEdge, sizing: Sizing, step: i32, nominal: Rect)
    requires
        step > 0,
    ensures
        exists|k: nat| #[trigger] settled_from(r, edge, sizing, step, nominal, k),
{
    let f0 = component(r, edge);
    let a: int = abs(f0) + 0x1_0000_0000;
    let s = step as int;
    let big = (a / s + 1) as nat;
    vstd::arithmetic::div_mod::lemma_fundamental_div_mod(a, s);
    vstd::arithmetic::div_mod::lemma_mod_bound(a, s);
    assert(big * s > a) by (nonlinear_arith)
        requires
            a == s * (a / s) + a % s,
            0 <= a % s < s,
            big == a / s + 1,
    ;
    lemma_moving(r, edge, sizing, step, nominal, big);
    if exists|j: nat| j < big && #[trigger] stuck_at(r, edge, sizing, step, nominal, j) {
        let j = choose|j: nat| j < big && #[trigger] stuck_at(r, edge, sizing, step, nominal, j);
        assert forall|i: nat| i >= j implies #[trigger] clamp_iter(r, edge, sizing, step, nominal, i) == clamp_iter(r, edge, sizing, step, nominal, j) by {
            lemma_stuck_forever(r, edge, sizing, step, nominal, j, i);
        }
        assert(settled_from(r, edge, sizing, step, nominal, j));
    } else {
        let p = (big - 1) as nat;
        assert(!stuck_at(r, edge, sizing, step, nominal, p));
        let v = candidate(clamp_iter(r, edge, sizing, step, nominal, p), edge, sizing, step);
        assert(within_clamp(v, nominal_size(nominal, edge)));
        assert(component(clamp_iter(r, edge, sizing, step, nominal, big), edge) == v);
        assert(false);
    }
}

/// Whether the grid point lies in `r`, right and bottom edges excluded.
pub open spec fn covers(r: Rect, px: int, py: int) -> bool {
    r.x <= px < r.x + r.width && r.y <= py < r.y + r.height
}

/// An area whose far edges fit in 32 bits.
pub open spec fn sound_area(a: Rect) -> bool {
    a.width >= 0 && a.height >= 0 && a.x + a.width <= i32::MAX && a.y + a.height <= i32::MAX
}

/// `slots` partition `area`: each lies inside it, no two overlap, and
/// together they cover it.
pub open spec fn partitions(slots: Seq<Rect>, area: Rect) -> bool {
    &&& forall|k: int, px: int, py: int| 0 <= k < slots.len() && #[trigger] covers(slots[k], px, py) ==> covers(area, px, py)
    &&& forall|i: int, j: int, px: int, py: int|
        0 <= i < j < slots.len() && #[trigger] covers(slots[i], px, py) ==> !#[trigger] covers(slots[j], px, py)
    &&& forall|px: int, py: int| #[trigger] covers(area, px, py) ==> exists|k: int| 0 <= k < slots.len() && #[trigger] covers(slots[k], px, py)
}

proof fn lemma_bsp_partition(i: nat, count: nat, area: Rect, vertical: nat)
    requires
        sound_area(area),
        count >= 1,
    ensures
        partitions(bsp_spec(i, count, area, vertical, 0, Seq::empty()), area),
    decreases count,
{
    let s = bsp_spec(i, count, area, vertical, 0, Seq::empty());
    assert(resized_area(area, Seq::empty(), i as int) == area);
    if count == 1 {
        assert(s == seq![area]);
        assert forall|px: int, py: int| #[trigger] covers(area, px, py) implies exists|k: int| 0 <= k < s.len() && #[trigger] covers(s[k], px, py) by {
            assert(covers(s[0], px, py));
        }
    } else if i % 2 != vertical {
        let h = half(area.height);
        let first = rect(area.x, area.y, area.width, h);
        assert(resized_area(first, Seq::empty(), i as int) == first);
        let rest_area = rect(area.x, wadd(area.y, h), area.width, wsub(area.height, h));
        assert(rest_area == rect(area.x, (area.y + h) as i32, area.width, (area.height - h) as i32));
        let rest = bsp_spec(i + 1, (count - 1) as nat, rest_area, vertical, 0, Seq::empty());
        lemma_bsp_partition(i + 1, (count - 1) as nat, rest_area, vertical);
        assert(s == seq![first] + rest);
        lemma_split_partition(s, first, rest, area, rest_area);
    } else {
        let w = half(area.width);
        let first = rect(area.x, area.y, w, area.height);
        assert(resized_area(first, Seq::empty(), i as int) == first);
        let rest_area = rect(wadd(area.x, w), area.y, wsub(area.width, w), area.height);
        assert(rest_area == rect((area.x + w) as i32, area.y, (area.width - w) as i32, area.height));
        let rest = bsp_spec(i + 1, (count - 1) as nat, rest_area, vertical, 0, Seq::empty());
        lemma_bsp_partition(i + 1, (count - 1) as nat, rest_area, vertical);
        assert(s == seq![first] + rest);
        lemma_split_partition(s, first, rest, area, rest_area);
    }
}

/// A first slot and a partition of the rest of an area partition the
/// whole, when the area is exactly the two pieces.
proof fn lemma_split_partition(s: Seq<Rect>, first: Rect, rest: Seq<Rect>, area: Rect, rest_area: Rect)
    requires
        s == seq![first] + rest,
        partitions(rest, rest_area),
        forall|px: int, py: int| covers(area, px, py) <==> (covers(first, px, py) || covers(rest_area, px, py)),
        forall|px: int, py: int| covers(first, px, py) ==> !covers(rest_area, px, py),
    ensures
        partitions(s, area),
{
    assert forall|k: int, px: int, py: int| 0 <= k < s.len() && #[trigger] covers(s[k], px, py) implies covers(area, px, py) by {
        if k > 0 {
            assert(s[k] == rest[k - 1]);
            assert(covers(rest[k - 1], px, py));
        }
    }
    assert forall|i: int, j: int, px: int, py: int|
        0 <= i < j < s.len() && #[trigger] covers(s[i], px, py) implies !#[trigger] covers(s[j], px, py) by {
        assert(s[j] == rest[j - 1]);
        if i == 0 {
            if covers(rest[j - 1], px, py) {
                assert(covers(rest_area, px, py));
            }
        } else {
            assert(s[i] == rest[i - 1]);
            assert(covers(rest[i - 1], px, py));
        }
    }
    assert forall|px: int, py: int| #[trigger] covers(area, px, py) implies exists|k: int| 0 <= k < s.len() && #[trigger] covers(s[k], px, py) by {
        if covers(first, px, py) {
            assert(covers(s[0], px, py));
        } else {
            assert(covers(rest_area, px, py));
            let k = choose|k: int| 0 <= k < rest.len() && #[trigger] covers(rest[k], px, py);
            assert(s[k + 1] == rest[k]);
            assert(covers(s[k + 1], px, py));
        }
    }
}

proof fn lemma_stride(w: i32, k: nat, n: nat)
    requires
        w >= 0,
        k <= n,
        n * w <= i32::MAX,
    ensures
        stride(w, k) == k * w,
    decreases k,
{
    if k > 0 {
        lemma_stride(w, (k - 1) as nat, n);
        assert(k * w <= n * w) by (nonlinear_arith)
            requires
                k <= n,
                w >= 0,
        ;
        assert((k - 1) * w + w == k * w) by (nonlinear_arith);
        assert(0 <= (k - 1) * w) by (nonlinear_arith)
            requires
                k >= 1,
                w >= 0,
        ;
        assert(wadd(stride(w, (k - 1) as nat), w) == k * w);
    } else {
        assert(k * w == 0) by (nonlinear_arith)
            requires
                k == 0,
        ;
    }
}

proof fn lemma_strip(t: int, w: int, n: int)
    requires
        w > 0,
        n >= 1,
        0 <= t < n * w,
    ensures
        0 <= t / w < n,
        (t / w) * w <= t < (t / w) * w + w,
{
    vstd::arithmetic::div_mod::lemma_fundamental_div_mod(t, w);
    vstd::arithmetic::div_mod::lemma_mod_bound(t, w);
    let q = t / w;
    assert(0 <= q < n) by (nonlinear_arith)
        requires
            t == w * q + t % w,
            0 <= t % w < w,
            0 <= t < n * w,
            w > 0,
    ;
    assert(q * w <= t < q * w + w) by (nonlinear_arith)
        requires
            t == w * q + t % w,
            0 <= t % w < w,
    ;
}

proof fn lemma_strip_bounds(i: int, j: int, w: int, n: int)
    requires
        0 <= i < j < n,
        w >= 0,
    ensures
        0 <= i * w,
        i * w + w <= j * w,
        j * w + w <= n * w,
{
    assert(0 <= i * w) by (nonlinear_arith)
        requires
            0 <= i,
            w >= 0,
    ;
    assert(i * w + w <= j * w) by (nonlinear_arith)
        requires
            i < j,
            w >= 0,
    ;
    assert(j * w + w <= n * w) by (nonlinear_arith)
        requires
            j < n,
            w >= 0,
    ;
}

proof fn lemma_share_exact(total: i32, n: nat)
    requires
        n >= 1,
        total >= 0,
        (total as int) % (n as int) == 0,
    ensures
        share(total, n) == (total as int) / (n as int),
        n * share(total, n) == total,
        share(total, n) >= 0,
{
    vstd::arithmetic::div_mod::lemma_fundamental_div_mod(total as int, n as int);
    vstd::arithmetic::div_mod::lemma_div_pos_is_pos(total as int, n as int);
    vstd::arithmetic::div_mod::lemma_div_is_ordered_by_denominator(total as int, 1, n as int);
}

proof fn lemma_columns_partition(area: Rect, n: nat)
    requires
        sound_area(area),
        n >= 1,
        (area.width as int) % (n as int) == 0,
    ensures
        partitions(columns_spec(area, n, 0), area),
{
    let s = columns_spec(area, n, 0);
    let w = share(area.width, n);
    lemma_share_exact(area.width, n);
    assert forall|k: int| 0 <= k < n implies #[trigger] s[k] == rect((area.x + k * w) as i32, area.y, w, area.height) by {
        lemma_stride(w, k as nat, n);
        assert(k * w <= n * w) by (nonlinear_arith)
            requires
                k < n,
                w >= 0,
        ;
    }
    assert forall|k: int, px: int, py: int| 0 <= k < s.len() && #[trigger] covers(s[k], px, py) implies covers(area, px, py) by {
        assert(k * w + w <= n * w) by (nonlinear_arith)
            requires
                k < n,
                w >= 0,
        ;
        assert(0 <= k * w) by (nonlinear_arith)
            requires
                0 <= k,
                w >= 0,
        ;
    }
    assert forall|i: int, j: int, px: int, py: int|
        0 <= i < j < s.len() && #[trigger] covers(s[i], px, py) implies !#[trigger] covers(s[j], px, py) by {
        lemma_strip_bounds(i, j, w as int, n as int);
    }
    assert forall|px: int, py: int| #[trigger] covers(area, px, py) implies exists|k: int| 0 <= k < s.len() && #[trigger] covers(s[k], px, py) by {
        let t = px - area.x;
        assert(w > 0) by (nonlinear_arith)
            requires
                n * w == area.width,
                0 <= t < area.width,
                w >= 0,
        ;
        lemma_strip(t, w as int, n as int);
        let k = t / (w as int);
        assert(covers(s[k], px, py));
    }
}

proof fn lemma_rows_partition(area: Rect, n: nat)
    requires
        sound_area(area),
        n >= 1,
        (area.height as int) % (n as int) == 0,
    ensures
        partitions(rows_spec(area, n, 0), area),
{
    let s = rows_spec(area, n, 0);
    let h = share(area.height, n);
    lemma_share_exact(area.height, n);
    assert forall|k: int| 0 <= k < n implies #[trigger] s[k] == rect(area.x, (area.y + k * h) as i32, area.width, h) by {
        lemma_stride(h, k as nat, n);
        assert(k * h <= n * h) by (nonlinear_arith)
            requires
                k < n,
                h >= 0,
        ;
        assert(0 <= k * h) by (nonlinear_arith)
            requires
                0 <= k,
                h >= 0,
        ;
    }
    assert forall|k: int, px: int, py: int| 0 <= k < s.len() && #[trigger] covers(s[k], px, py) implies covers(area, px, py) by {
        assert(k * h + h <= n * h) by (nonlinear_arith)
            requires
                k < n,
                h >= 0,
        ;
        assert(0 <= k * h) by (nonlinear_arith)
            requires
                0 <= k,
                h >= 0,
        ;
    }
    assert forall|i: int, j: int, px: int, py: int|
        0 <= i < j < s.len() && #[trigger] covers(s[i], px, py) implies !#[trigger] covers(s[j], px, py) by {
        lemma_strip_bounds(i, j, h as int, n as int);
    }
    assert forall|px: int, py: int| #[trigger] covers(area, px, py) implies exists|k: int| 0 <= k < s.len() && #[trigger] covers(s[k], px, py) by {
        let t = py - area.y;
        assert(h > 0) by (nonlinear_arith)
            requires
                n * h == area.height,
                0 <= t < area.height,
                h >= 0,
        ;
        lemma_strip(t, h as int, n as int);
        let k = t / (h as int);
        assert(covers(s[k], px, py));
    }
}

/// Partition coverage: a layout of `n` windows has exactly `n`
/// rectangles; each is its slot shrunk by the gap size, and for `n >= 1`
/// the slots lie inside the area, never overlap, and cover it. Columns
/// and rows cover it when the area divides evenly among the windows (a
/// remainder strip stays free otherwise), and a monocle layout shares one
/// slot among all windows, so it partitions only up to one window.
pub proof fn lemma_partition_coverage(area: Rect, n: nat, kind: Layout, gaps: i32)
    requires
        sound_area(area),
        kind == Layout::Monocle ==> n <= 1,
        kind == Layout::Columns && n >= 1 ==> (area.width as int) % (n as int) == 0,
        kind == Layout::Rows && n >= 1 ==> (area.height as int) % (n as int) == 0,
    ensures
        layout_spec(area, n, kind, gaps, Seq::empty()).len() == n,
        forall|k: int| 0 <= k < n ==> #[trigger] layout_spec(area, n, kind, gaps, Seq::empty())[k] == shrunk(
            layout_spec(area, n, kind, 0, Seq::empty())[k],
            gaps,
        ),
        n >= 1 ==> partitions(layout_spec(area, n, kind, 0, Seq::empty()), area),
{
    crate::layout::lemma_layout_len(area, n, kind, gaps, Seq::empty());
    crate::layout::lemma_layout_len(area, n, kind, 0, Seq::empty());
    let e = Seq::<Option<Rect>>::empty();
    assert(propagated(e, true) == e);
    assert(propagated(e, false) == e);
    let out = layout_spec(area, n, kind, gaps, e);
    let slots = layout_spec(area, n, kind, 0, e);
    match kind {
        Layout::BSPV => {
            lemma_bsp_slots(0, n, area, 1, gaps, e);
            if n >= 1 {
                lemma_bsp_partition(0, n, area, 1);
            }
        },
        Layout::BSPH => {
            lemma_bsp_slots(0, n, area, 0, gaps, e);
            if n >= 1 {
                lemma_bsp_partition(0, n, area, 0);
            }
        },
        Layout::Columns => {
            if n >= 1 {
                lemma_columns_partition(area, n);
            }
        },
        Layout::Rows => {
            if n >= 1 {
                lemma_rows_partition(area, n);
            }
        },
        Layout::Monocle => {
            if n == 1 {
                assert(slots[0] == area);
                assert forall|px: int, py: int| #[trigger] covers(area, px, py) implies exists|k: int| 0 <= k < slots.len() && #[trigger] covers(slots[k], px, py) by {
                    assert(covers(slots[0], px, py));
                }
            }
        },
    }
}

/// Every BSP rectangle is its balanced, gapless slot with that slot's own
/// override added and then shrunk by the gap size: an override changes
/// only its own rectangle, by exactly its delta.
pub proof fn lemma_bsp_slots(i: nat, count: nat, area: Rect, vertical: nat, gaps: i32, overrides: Seq<Option<Rect>>)
    ensures
        bsp_spec(i, count, area, vertical, gaps, overrides).len() == count,
        bsp_spec(i, count, area, vertical, 0, Seq::empty()).len() == count,
        forall|k: int| 0 <= k < count ==> #[trigger] bsp_spec(i, count, area, vertical, gaps, overrides)[k] == shrunk(
            resized_area(bsp_spec(i, count, area, vertical, 0, Seq::empty())[k], overrides, i + k),
            gaps,
        ),
    decreases count,
{
    let g = bsp_spec(i, count, area, vertical, gaps, overrides);
    let z = bsp_spec(i, count, area, vertical, 0, Seq::empty());
    crate::layout::lemma_bsp_len(i, count, area, vertical, gaps, overrides);
    crate::layout::lemma_bsp_len(i, count, area, vertical, 0, Seq::empty());
    if count == 1 {
        assert(resized_area(area, Seq::empty(), i as int) == area);
        assert(z[0] == area);
    } else if count > 1 {
        let h = half(area.height);
        let w = half(area.width);
        let top = rect(area.x, area.y, area.width, h);
        let left = rect(area.x, area.y, w, area.height);
        assert(resized_area(top, Seq::empty(), i as int) == top);
        assert(resized_area(left, Seq::empty(), i as int) == left);
        let down = rect(area.x, wadd(area.y, h), area.width, wsub(area.height, h));
        let right = rect(wadd(area.x, w), area.y, wsub(area.width, w), area.height);
        lemma_bsp_slots(i + 1, (count - 1) as nat, down, vertical, gaps, overrides);
        lemma_bsp_slots(i + 1, (count - 1) as nat, right, vertical, gaps, overrides);
        assert forall|k: int| 0 <= k < count implies #[trigger] g[k] == shrunk(resized_area(z[k], overrides, i + k), gaps) by {
            if k > 0 {
                if i % 2 != vertical {
                    assert(g[k] == bsp_spec(i + 1, (count - 1) as nat, down, vertical, gaps, overrides)[k - 1]);
                    assert(z[k] == bsp_spec(i + 1, (count - 1) as nat, down, vertical, 0, Seq::empty())[k - 1]);
                } else {
                    assert(g[k] == bsp_spec(i + 1, (count - 1) as nat, right, vertical, gaps, overrides)[k - 1]);
                    assert(z[k] == bsp_spec(i + 1, (count - 1) as nat, right, vertical, 0, Seq::empty())[k - 1]);
                }
            }
        }
    }
}

/// Overrides are local: two override lists that agree on every slot but
/// `k` give BSP layouts that agree on every rectangle but `k`.
pub proof fn lemma_override_local(
    count: nat,
    area: Rect,
    vertical: nat,
    gaps: i32,
    first: Seq<Option<Rect>>,
    second: Seq<Option<Rect>>,
    k: int,
)
    requires
        forall|j: int| 0 <= j < count && j != k ==> slot_override(first, j) == slot_override(second, j),
    ensures
        forall|j: int| 0 <= j < count && j != k ==> #[trigger] bsp_spec(0, count, area, vertical, gaps, first)[j]
            == bsp_spec(0, count, area, vertical, gaps, second)[j],
{
    lemma_bsp_slots(0, count, area, vertical, gaps, first);
    lemma_bsp_slots(0, count, area, vertical, gaps, second);
    assert forall|j: int| 0 <= j < count && j != k implies #[trigger] bsp_spec(0, count, area, vertical, gaps, first)[j]
        == bsp_spec(0, count, area, vertical, gaps, second)[j] by {
        assert(slot_override(first, 0 + j) == slot_override(second, 0 + j));
    }
}

/// Starting from a zero override, repeating one resize step of size
/// `step > 0` stops changing the override after at most
/// `|nominal| / step + 1` repetitions.
pub proof fn lemma_clamp_settles_by(r: Rect, edge: ResizeEdge, sizing: Sizing, step: i32, nominal: Rect)
    requires
        step > 0,
        component(r, edge) == 0,
    ensures
        settled_from(r, edge, sizing, step, nominal, (abs(nominal_size(nominal, edge) as int) / (step as int) + 1) as nat),
{
    let n = abs(nominal_size(nominal, edge) as int);
    let st = step as int;
    let big = (n / st + 1) as nat;
    vstd::arithmetic::div_mod::lemma_fundamental_div_mod(n, st);
    vstd::arithmetic::div_mod::lemma_mod_bound(n, st);
    assert(big * st > n) by (nonlinear_arith)
        requires
            n == st * (n / st) + n % st,
            0 <= n % st < st,
            big == n / st + 1,
    ;
    lemma_moving(r, edge, sizing, step, nominal, big);
    if exists|j: nat| j < big && #[trigger] stuck_at(r, edge, sizing, step, nominal, j) {
        let j = choose|j: nat| j < big && #[trigger] stuck_at(r, edge, sizing, step, nominal, j);
        lemma_stuck_forever(r, edge, sizing, step, nominal, j, big);
        assert forall|i: nat| i >= big implies #[trigger] clamp_iter(r, edge, sizing, step, nominal, i) == clamp_iter(r, edge, sizing, step, nominal, big) by {
            lemma_stuck_forever(r, edge, sizing, step, nominal, j, i);
        }
    } else {
        let p = (big - 1) as nat;
        assert(!stuck_at(r, edge, sizing, step, nominal, p));
        let v = candidate(clamp_iter(r, edge, sizing, step, nominal, p), edge, sizing, step);
        assert(within_clamp(v, nominal_size(nominal, edge)));
        assert(component(clamp_iter(r, edge, sizing, step, nominal, big), edge) == v);
        assert(false);
    }
}

proof fn lemma_bsp_slot_sizes(i: nat, count: nat, area: Rect, vertical: nat)
    requires
        sound_area(area),
    ensures
        forall|k: int| 0 <= k < count ==> {
            &&& 0 <= #[trigger] bsp_spec(i, count, area, vertical, 0, Seq::empty())[k].width <= area.width
            &&& 0 <= bsp_spec(i, count, area, vertical, 0, Seq::empty())[k].height <= area.height
        },
    decreases count,
{
    let z = bsp_spec(i, count, area, vertical, 0, Seq::empty());
    crate::layout::lemma_bsp_len(i, count, area, vertical, 0, Seq::empty());
    if count == 1 {
        assert(resized_area(area, Seq::empty(), i as int) == area);
    } else if count > 1 {
        let h = half(area.height);
        let w = half(area.width);
        let top = rect(area.x, area.y, area.width, h);
        let left = rect(area.x, area.y, w, area.height);
        assert(resized_area(top, Seq::empty(), i as int) == top);
        assert(resized_area(left, Seq::empty(), i as int) == left);
        let down = rect(area.x, wadd(area.y, h), area.width, wsub(area.height, h));
        let right = rect(wadd(area.x, w), area.y, wsub(area.width, w), area.height);
        assert(down == rect(area.x, (area.y + h) as i32, area.width, (area.height - h) as i32));
        assert(right == rect((area.x + w) as i32, area.y, (area.width - w) as i32, area.height));
        lemma_bsp_slot_sizes(i + 1, (count - 1) as nat, down, vertical);
        lemma_bsp_slot_sizes(i + 1, (count - 1) as nat, right, vertical);
        assert forall|k: int| 0 <= k < count implies {
            &&& 0 <= #[trigger] z[k].width <= area.width
            &&& 0 <= z[k].height <= area.height
        } by {
            if k > 0 {
                if i % 2 != vertical {
                    assert(z[k] == bsp_spec(i + 1, (count - 1) as nat, down, vertical, 0, Seq::empty())[k - 1]);
                } else {
                    assert(z[k] == bsp_spec(i + 1, (count - 1) as nat, right, vertical, 0, Seq::empty())[k - 1]);
                }
            }
        }
    }
}

/// A BSP rectangle never inverts under a clamped override: when the
/// size components of slot `k`'s override stay under the clamp of its
/// balanced rectangle, the rectangle keeps a positive width and height
/// wherever the balanced one has them.
pub proof fn lemma_clamped_rect_upright(count: nat, area: Rect, vertical: nat, gaps: i32, overrides: Seq<Option<Rect>>, k: int)
    requires
        sound_area(area),
        area.width <= 0x4000_0000,
        area.height <= 0x4000_0000,
        0 <= gaps <= 0x1000_0000,
        0 <= k < count,
        slot_override(overrides, k) is Some,
        ({
            let d = slot_override(overrides, k)->0;
            let nominal = bsp_spec(0, count, area, vertical, gaps, Seq::empty())[k];
            &&& nominal.width > 0 ==> within_clamp(d.width as int, nominal.width)
            &&& nominal.height > 0 ==> within_clamp(d.height as int, nominal.height)
        }),
    ensures
        ({
            let out = bsp_spec(0, count, area, vertical, gaps, overrides)[k];
            let nominal = bsp_spec(0, count, area, vertical, gaps, Seq::empty())[k];
            &&& nominal.width > 0 ==> out.width > 0
            &&& nominal.height > 0 ==> out.height > 0
        }),
{
    lemma_bsp_slots(0, count, area, vertical, gaps, overrides);
    lemma_bsp_slots(0, count, area, vertical, gaps, Seq::empty());
    lemma_bsp_slot_sizes(0, count, area, vertical);
    let z = bsp_spec(0, count, area, vertical, 0, Seq::empty())[k];
    assert(resized_area(z, Seq::empty(), 0 + k) == z);
    assert(0 <= z.width <= area.width && 0 <= z.height <= area.height);
}

} // verus!
