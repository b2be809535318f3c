//! The layout engine: turns a window count, an area, a layout kind, a gap
//! size and per-slot resize overrides into one rectangle per window.
use crate::protocol::Layout;
use crate::rect::{half, offset_by, rect, shrunk, wadd, wsub, Rect, halve};
use vstd::prelude::*;

verus! {

/// The override of slot `i`, if the slot has one.
pub open spec fn slot_override(overrides: Seq<Option<Rect>>, i: int) -> Option<Rect> {
    if 0 <= i < overrides.len() {
        overrides[i]
    } else {
        None
    }
}

/// `area` with the override of slot `i` applied.
pub open spec fn resized_area(area: Rect, overrides: Seq<Option<Rect>>, i: int) -> Rect {
    match slot_override(overrides, i) {
        Some(d) => offset_by(area, d),
        None => area,
    }
}

/// Recursive binary space partition from slot `i` with `count` windows
/// left. The area is split exactly in half: top and bottom when
/// `i % 2 != vertical`, left and right otherwise. The slot takes the first
/// half with its own override applied, and the remaining windows share the
/// second, unadjusted half.
pub open spec fn bsp_spec(
    i: nat,
    count: nat,
    area: Rect,
    vertical: nat,
    gaps: i32,
    overrides: Seq<Option<Rect>>,
) -> Seq<Rect>
    decreases count,
{
    if count == 0 {
        Seq::empty()
    } else if count == 1 {
        seq![shrunk(resized_area(area, overrides, i as int), gaps)]
    } else if i % 2 != vertical {
        let h = half(area.height);
        seq![shrunk(resized_area(rect(area.x, area.y, area.width, h), overrides, i as int), gaps)] + bsp_spec(
            i + 1,
            (count - 1) as nat,
            rect(area.x, wadd(area.y, h), area.width, wsub(area.height, h)),
            vertical,
            gaps,
            overrides,
        )
    } else {
        let w = half(area.width);
        seq![shrunk(resized_area(rect(area.x, area.y, w, area.height), overrides, i as int), gaps)] + bsp_spec(
            i + 1,
            (count - 1) as nat,
            rect(wadd(area.x, w), area.y, wsub(area.width, w), area.height),
            vertical,
            gaps,
            overrides,
        )
    }
}

pub fn bsp(
    i: usize,
    window_count: usize,
    area: Rect,
    vertical: usize,
    gaps: i32,
    resize_dimensions: &Vec<Option<Rect>>,
) -> (r: Vec<Rect>)
    requires
        i + window_count <= usize::MAX,
    ensures
        r@ == bsp_spec(i as nat, window_count as nat, area, vertical as nat, gaps, resize_dimensions@),
{
    let ghost target = bsp_spec(i as nat, window_count as nat, area, vertical as nat, gaps, resize_dimensions@);
    let mut res: Vec<Rect> = Vec::new();
    let mut k: usize = i;
    let mut remaining: usize = window_count;
    let mut a = area;
    while remaining > 0
        invariant
            k + remaining == i + window_count,
            i + window_count <= usize::MAX,
            res@ + bsp_spec(k as nat, remaining as nat, a, vertical as nat, gaps, resize_dimensions@)
                == target,
        decreases remaining,
    {
        let ghost rest_before = bsp_spec(k as nat, remaining as nat, a, vertical as nat, gaps, resize_dimensions@);
        let ghost old_res = res@;
        let slot = if remaining == 1 {
            a
        } else if k % 2 != vertical {
            Rect { x: a.x, y: a.y, width: a.width, height: halve(a.height) }
        } else {
            Rect { x: a.x, y: a.y, width: halve(a.width), height: a.height }
        };
        let resized = if k < resize_dimensions.len() {
            match resize_dimensions[k] {
                Some(d) => slot.offset(d),
                None => slot,
            }
        } else {
            slot
        };
        let first = resized.shrink(gaps);
        res.push(first);
        if remaining == 1 {
            proof {
                assert(rest_before == seq![first]);
                assert(res@ =~= old_res + rest_before);
            }
        } else if k % 2 != vertical {
            let h = slot.height;
            a = Rect { x: a.x, y: a.y.wrapping_add(h), width: a.width, height: a.height.wrapping_sub(h) };
            proof {
                let tail = bsp_spec((k + 1) as nat, (remaining - 1) as nat, a, vertical as nat, gaps, resize_dimensions@);
                assert(rest_before == seq![first] + tail);
                assert(res@ + tail =~= old_res + rest_before);
            }
        } else {
            let w = slot.width;
            a = Rect { x: a.x.wrapping_add(w), y: a.y, width: a.width.wrapping_sub(w), height: a.height };
            proof {
                let tail = bsp_spec((k + 1) as nat, (remaining - 1) as nat, a, vertical as nat, gaps, resize_dimensions@);
                assert(rest_before == seq![first] + tail);
                assert(res@ + tail =~= old_res + rest_before);
            }
        }
        k = k + 1;
        remaining = remaining - 1;
    }
    proof {
        assert(res@ + Seq::<Rect>::empty() =~= res@);
    }
    res
}

/// The slot whose width absorbs a change of the left edge of slot `i`;
/// `left_first` is the geometry whose first split is left/right.
pub open spec fn x_neighbor(i: int, left_first: bool) -> Option<int> {
    if left_first {
        if i == 1 {
            Some(0)
        } else if i % 2 == 1 {
            Some(i - 1)
        } else {
            Some(i - 2)
        }
    } else if i >= 2 && i % 2 == 0 {
        Some(i - 1)
    } else {
        None
    }
}

/// The slot whose height absorbs a change of the top edge of slot `i`.
pub open spec fn y_neighbor(i: int, left_first: bool) -> Option<int> {
    if left_first {
        if i >= 2 && i % 2 == 0 {
            Some(i - 1)
        } else if i >= 3 && i % 2 == 1 {
            Some(i - 2)
        } else {
            None
        }
    } else if i == 1 {
        Some(0)
    } else if i >= 3 && i % 2 == 1 {
        Some(i - 1)
    } else {
        None
    }
}

pub open spec fn grown_width(o: Option<Rect>, d: i32) -> Option<Rect> {
    match o {
        Some(q) => Some(Rect { width: wadd(q.width, d), ..q }),
        None => Some(rect(0, 0, d, 0)),
    }
}

pub open spec fn grown_height(o: Option<Rect>, d: i32) -> Option<Rect> {
    match o {
        Some(q) => Some(Rect { height: wadd(q.height, d), ..q }),
        None => Some(rect(0, 0, 0, d)),
    }
}

pub open spec fn cleared_x(o: Option<Rect>) -> Option<Rect> {
    match o {
        Some(q) => Some(Rect { x: 0, ..q }),
        None => None,
    }
}

pub open spec fn cleared_y(o: Option<Rect>) -> Option<Rect> {
    match o {
        Some(q) => Some(Rect { y: 0, ..q }),
        None => None,
    }
}

/// Moves the edge offsets of slot `i`'s override `r` into the size of
/// its structural neighbours, then clears them on slot `i`.
pub open spec fn propagate_at(acc: Seq<Option<Rect>>, i: int, r: Rect, left_first: bool) -> Seq<
    Option<Rect>,
> {
    let a1 = if r.x != 0 {
        let b = match x_neighbor(i, left_first) {
            Some(n) => acc.update(n, grown_width(acc[n], r.x)),
            None => acc,
        };
        b.update(i, cleared_x(b[i]))
    } else {
        acc
    };
    if r.y != 0 {
        let b = match y_neighbor(i, left_first) {
            Some(n) => a1.update(n, grown_height(a1[n], r.y)),
            None => a1,
        };
        b.update(i, cleared_y(b[i]))
    } else {
        a1
    }
}

/// Propagation applied to the first `k` slots of `orig`.
pub open spec fn propagated_upto(orig: Seq<Option<Rect>>, left_first: bool, k: nat) -> Seq<
    Option<Rect>,
>
    decreases k,
{
    if k == 0 {
        orig
    } else {
        let prev = propagated_upto(orig, left_first, (k - 1) as nat);
        let i = k - 1;
        if i > 0 && i < orig.len() && orig[i] is Some {
            propagate_at(prev, i, orig[i]->0, left_first)
        } else {
            prev
        }
    }
}

/// The overrides actually used by a BSP layout: every slot's edge
/// offsets moved into its neighbours' sizes.
pub open spec fn propagated(orig: Seq<Option<Rect>>, left_first: bool) -> Seq<Option<Rect>> {
    propagated_upto(orig, left_first, orig.len())
}

fn x_neighbor_of(i: usize, left_first: bool) -> (r: Option<usize>)
    requires
        i >= 1,
    ensures
        r matches Some(n) ==> x_neighbor(i as int, left_first) == Some(n as int),
        r is None ==> x_neighbor(i as int, left_first) is None,
{
    if left_first {
        if i == 1 {
            Some(0)
        } else if i % 2 == 1 {
            Some(i - 1)
        } else {
            Some(i - 2)
        }
    } else if i >= 2 && i % 2 == 0 {
        Some(i - 1)
    } else {
        None
    }
}

fn y_neighbor_of(i: usize, left_first: bool) -> (r: Option<usize>)
    requires
        i >= 1,
    ensures
        r matches Some(n) ==> y_neighbor(i as int, left_first) == Some(n as int),
        r is None ==> y_neighbor(i as int, left_first) is None,
{
    if left_first {
        if i >= 2 && i % 2 == 0 {
            Some(i - 1)
        } else if i >= 3 && i % 2 == 1 {
            Some(i - 2)
        } else {
            None
        }
    } else if i == 1 {
        Some(0)
    } else if i >= 3 && i % 2 == 1 {
        Some(i - 1)
    } else {
        None
    }
}

/// Propagates the edge offsets of each BSP slot's override into the sizes
/// of its adjacent slots, so that neighbouring rectangles keep sharing a
/// seam.
pub fn calculate_resize_adjustments(resize_dimensions: &Vec<Option<Rect>>, layout: Layout) -> (r: Vec<
    Option<Rect>,
>)
    requires
        layout == Layout::BSPV || layout == Layout::BSPH,
    ensures
        r@ == propagated(resize_dimensions@, layout == Layout::BSPH),
{
    let left_first = match layout {
        Layout::BSPH => true,
        _ => false,
    };
    let ghost orig = resize_dimensions@;
    let mut adj: Vec<Option<Rect>> = Vec::new();
    let mut j: usize = 0;
    while j < resize_dimensions.len()
        invariant
            j <= resize_dimensions.len(),
            orig == resize_dimensions@,
            adj@ == orig.subrange(0, j as int),
        decreases resize_dimensions.len() - j,
    {
        adj.push(resize_dimensions[j]);
        j = j + 1;
        proof {
            assert(adj@ =~= orig.subrange(0, j as int));
        }
    }
    proof {
        assert(adj@ =~= orig);
    }
    let mut i: usize = 0;
    while i < resize_dimensions.len()
        invariant
            i <= resize_dimensions.len(),
            orig == resize_dimensions@,
            adj@ == propagated_upto(orig, left_first, i as nat),
            adj@.len() == orig.len(),
        decreases resize_dimensions.len() - i,
    {
        if let Some(r) = resize_dimensions[i] {
            if i > 0 {
                if r.x != 0 {
                    match x_neighbor_of(i, left_first) {
                        Some(n) => {
                            let g = match adj[n] {
                                Some(q) => Some(Rect { width: q.width.wrapping_add(r.x), ..q }),
                                None => Some(Rect { x: 0, y: 0, width: r.x, height: 0 }),
                            };
                            adj.set(n, g);
                        },
                        None => {},
                    }
                    let c = match adj[i] {
                        Some(q) => Some(Rect { x: 0, ..q }),
                        None => None,
                    };
                    adj.set(i, c);
                }
                if r.y != 0 {
                    match y_neighbor_of(i, left_first) {
                        Some(n) => {
                            let g = match adj[n] {
                                Some(q) => Some(Rect { height: q.height.wrapping_add(r.y), ..q }),
                                None => Some(Rect { x: 0, y: 0, width: 0, height: r.y }),
                            };
                            adj.set(n, g);
                        },
                        None => {},
                    }
                    let c = match adj[i] {
                        Some(q) => Some(Rect { y: 0, ..q }),
                        None => None,
                    };
                    adj.set(i, c);
                }
                proof {
                    assert(adj@ =~= propagate_at(propagated_upto(orig, left_first, i as nat), i as int, r, left_first));
                }
            }
        }
        i = i + 1;
    }
    adj
}

/// The size of each of `n` equal shares of `total`, rounded down.
pub open spec fn share(total: i32, n: nat) -> i32 {
    (total as int / n as int) as i32
}

/// `step` added `k` times to zero, wrapping.
pub open spec fn stride(step: i32, k: nat) -> i32
    decreases k,
{
    if k == 0 {
        0
    } else {
        wadd(stride(step, (k - 1) as nat), step)
    }
}

/// `n` equal columns, left to right, each shrunk by `gaps`.
pub open spec fn columns_spec(area: Rect, n: nat, gaps: i32) -> Seq<Rect> {
    let w = share(area.width, n);
    Seq::new(
        n,
        |k: int|
            shrunk(rect(wadd(area.x, stride(w, k as nat)), area.y, w, area.height), gaps),
    )
}

/// `n` equal rows, top to bottom, each shrunk by `gaps`.
pub open spec fn rows_spec(area: Rect, n: nat, gaps: i32) -> Seq<Rect> {
    let h = share(area.height, n);
    Seq::new(
        n,
        |k: int|
            shrunk(rect(area.x, wadd(area.y, stride(h, k as nat)), area.width, h), gaps),
    )
}

/// `n` copies of the whole area shrunk by `gaps`.
pub open spec fn monocle_spec(area: Rect, n: nat, gaps: i32) -> Seq<Rect> {
    Seq::new(n, |k: int| shrunk(area, gaps))
}

/// The rectangles of `n` tiled windows under layout `kind`.
pub open spec fn layout_spec(
    area: Rect,
    n: nat,
    kind: Layout,
    gaps: i32,
    overrides: Seq<Option<Rect>>,
) -> Seq<Rect> {
    match kind {
        Layout::BSPV => bsp_spec(0, n, area, 1, gaps, propagated(overrides, false)),
        Layout::BSPH => bsp_spec(0, n, area, 0, gaps, propagated(overrides, true)),
        Layout::Columns => columns_spec(area, n, gaps),
        Layout::Rows => rows_spec(area, n, gaps),
        Layout::Monocle => monocle_spec(area, n, gaps),
    }
}

fn share_of(total: i32, n: usize) -> (r: i32)
    requires
        n > 0,
    ensures
        r == share(total, n as nat),
{
    let t = total as i64;
    if n > 0x8000_0000usize {
        proof {
            let ni = n as int;
            let ti = t as int;
            if ti >= 0 {
                vstd::arithmetic::div_mod::lemma_basic_div(ti, ni);
            } else {
                vstd::arithmetic::div_mod::lemma_fundamental_div_mod(ti, ni);
                vstd::arithmetic::div_mod::lemma_mod_bound(ti, ni);
                assert(ti / ni == -1) by (nonlinear_arith)
                    requires
                        ti == ni * (ti / ni) + ti % ni,
                        0 <= ti % ni < ni,
                        -ni <= ti < 0,
                ;
            }
        }
        if total >= 0 {
            0
        } else {
            -1
        }
    } else {
        let d = n as i64;
        proof {
            let ti = t as int;
            let di = d as int;
            vstd::arithmetic::div_mod::lemma_fundamental_div_mod(ti, di);
            vstd::arithmetic::div_mod::lemma_mod_bound(ti, di);
            assert(i32::MIN <= ti / di <= i32::MAX) by (nonlinear_arith)
                requires
                    ti == di * (ti / di) + ti % di,
                    0 <= ti % di < di,
                    di >= 1,
                    i32::MIN <= ti <= i32::MAX,
            ;
        }
        match t.checked_div_euclid(d) {
            Some(q) => q as i32,
            None => 0,
        }
    }
}

/// Equal shares of an axis: `n` rectangles made by `place` from the
/// offset of each share.
fn stripes(area: Rect, n: usize, gaps: i32, horizontal: bool) -> (r: Vec<Rect>)
    requires
        n > 0,
    ensures
        horizontal ==> r@ == columns_spec(area, n as nat, gaps),
        !horizontal ==> r@ == rows_spec(area, n as nat, gaps),
{
    let step = if horizontal {
        share_of(area.width, n)
    } else {
        share_of(area.height, n)
    };
    let ghost want = if horizontal {
        columns_spec(area, n as nat, gaps)
    } else {
        rows_spec(area, n as nat, gaps)
    };
    let mut res: Vec<Rect> = Vec::new();
    let mut offset: i32 = 0;
    let mut k: usize = 0;
    while k < n
        invariant
            k <= n,
            offset == stride(step, k as nat),
            step == (if horizontal { share(area.width, n as nat) } else { share(area.height, n as nat) }),
            want == (if horizontal { columns_spec(area, n as nat, gaps) } else { rows_spec(area, n as nat, gaps) }),
            res@ == want.subrange(0, k as int),
        decreases n - k,
    {
        let slot = if horizontal {
            Rect { x: area.x.wrapping_add(offset), y: area.y, width: step, height: area.height }
        } else {
            Rect { x: area.x, y: area.y.wrapping_add(offset), width: area.width, height: step }
        };
        res.push(slot.shrink(gaps));
        offset = offset.wrapping_add(step);
        k = k + 1;
        proof {
            assert(res@ =~= want.subrange(0, k as int));
        }
    }
    proof {
        assert(res@ =~= want);
    }
    res
}

/// The rectangles of `window_count` tiled windows under layout `kind`:
/// exactly one per window, in traversal order.
pub fn compute_layout(
    area: Rect,
    window_count: usize,
    kind: Layout,
    gaps: i32,
    resize_overrides: &Vec<Option<Rect>>,
) -> (r: Vec<Rect>)
    ensures
        r@ == layout_spec(area, window_count as nat, kind, gaps, resize_overrides@),
        r@.len() == window_count,
{
    let r = match kind {
        Layout::BSPV => {
            let adjusted = calculate_resize_adjustments(resize_overrides, kind);
            bsp(0, window_count, area, 1, gaps, &adjusted)
        },
        Layout::BSPH => {
            let adjusted = calculate_resize_adjustments(resize_overrides, kind);
            bsp(0, window_count, area, 0, gaps, &adjusted)
        },
        Layout::Columns | Layout::Rows => {
            if window_count == 0 {
                let e: Vec<Rect> = Vec::new();
                proof {
                    assert(e@ =~= layout_spec(area, 0, kind, gaps, resize_overrides@));
                }
                e
            } else {
                stripes(area, window_count, gaps, kind == Layout::Columns)
            }
        },
        Layout::Monocle => {
            let full = area.shrink(gaps);
            let mut res: Vec<Rect> = Vec::new();
            let mut k: usize = 0;
            while k < window_count
                invariant
                    k <= window_count,
                    full == shrunk(area, gaps),
                    res@ == monocle_spec(area, k as nat, gaps),
                decreases window_count - k,
            {
                res.push(full);
                k = k + 1;
                proof {
                    assert(res@ =~= monocle_spec(area, k as nat, gaps));
                }
            }
            res
        },
    };
    proof {
        lemma_layout_len(area, window_count as nat, kind, gaps, resize_overrides@);
    }
    r
}

pub proof fn lemma_bsp_len(i: nat, count: nat, area: Rect, vertical: nat, gaps: i32, overrides: Seq<Option<Rect>>)
    ensures
        bsp_spec(i, count, area, vertical, gaps, overrides).len() == count,
    decreases count,
{
    if count > 1 {
        let h = half(area.height);
        let w = half(area.width);
        lemma_bsp_len(i + 1, (count - 1) as nat, rect(area.x, wadd(area.y, h), area.width, wsub(area.height, h)), vertical, gaps, overrides);
        lemma_bsp_len(i + 1, (count - 1) as nat, rect(wadd(area.x, w), area.y, wsub(area.width, w), area.height), vertical, gaps, overrides);
    }
}

/// Every layout yields exactly one rectangle per window.
pub proof fn lemma_layout_len(area: Rect, n: nat, kind: Layout, gaps: i32, overrides: Seq<Option<Rect>>)
    ensures
        layout_spec(area, n, kind, gaps, overrides).len() == n,
{
    lemma_bsp_len(0, n, area, 1, gaps, propagated(overrides, false));
    lemma_bsp_len(0, n, area, 0, gaps, propagated(overrides, true));
}

} // verus!
