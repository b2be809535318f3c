use yatta::desktop::clamp_resize;
use yatta::layout::{bsp, calculate_resize_adjustments, compute_layout};
use yatta::protocol::{Layout, ResizeEdge, Sizing};
use yatta::rect::{halve, Rect};

fn r(x: i32, y: i32, width: i32, height: i32) -> Rect {
    Rect { x, y, width, height }
}

#[test]
fn bsp_vertical_three_windows() {
    let out = compute_layout(r(0, 0, 1000, 800), 3, Layout::BSPV, 5, &vec![]);
    assert_eq!(out, vec![r(5, 5, 990, 390), r(5, 405, 490, 390), r(505, 405, 490, 390)]);
}

#[test]
fn bsp_horizontal_three_windows() {
    let out = compute_layout(r(0, 0, 1000, 800), 3, Layout::BSPH, 5, &vec![]);
    assert_eq!(out, vec![r(5, 5, 490, 790), r(505, 5, 490, 390), r(505, 405, 490, 390)]);
}

#[test]
fn layout_counts_match_window_count() {
    for kind in [Layout::BSPV, Layout::BSPH, Layout::Columns, Layout::Rows, Layout::Monocle] {
        for n in 0..7usize {
            assert_eq!(compute_layout(r(10, 20, 1280, 720), n, kind, 4, &vec![]).len(), n);
        }
    }
}

#[test]
fn layout_is_deterministic() {
    let a = compute_layout(r(0, 0, 1920, 1080), 5, Layout::BSPV, 3, &vec![]);
    let b = compute_layout(r(0, 0, 1920, 1080), 5, Layout::BSPV, 3, &vec![]);
    assert_eq!(a, b);
}

#[test]
fn columns_floor_the_share() {
    let out = compute_layout(r(0, 0, 1000, 600), 3, Layout::Columns, 0, &vec![]);
    assert_eq!(out, vec![r(0, 0, 333, 600), r(333, 0, 333, 600), r(666, 0, 333, 600)]);
}

#[test]
fn rows_with_gaps() {
    let out = compute_layout(r(0, 0, 600, 900), 3, Layout::Rows, 10, &vec![]);
    assert_eq!(out, vec![r(10, 10, 580, 280), r(10, 310, 580, 280), r(10, 610, 580, 280)]);
}

#[test]
fn monocle_repeats_full_area() {
    let out = compute_layout(r(0, 0, 800, 600), 2, Layout::Monocle, 5, &vec![]);
    assert_eq!(out, vec![r(5, 5, 790, 590), r(5, 5, 790, 590)]);
}

#[test]
fn empty_layout_has_no_rectangles() {
    assert!(compute_layout(r(0, 0, 800, 600), 0, Layout::Columns, 5, &vec![]).is_empty());
    assert!(compute_layout(r(0, 0, 800, 600), 0, Layout::BSPV, 5, &vec![]).is_empty());
}

#[test]
fn single_window_fills_area_minus_gaps() {
    let out = compute_layout(r(0, 0, 800, 600), 1, Layout::BSPV, 5, &vec![]);
    assert_eq!(out, vec![r(5, 5, 790, 590)]);
}

#[test]
fn override_changes_only_its_own_rectangle() {
    let overrides = vec![None, Some(r(0, 0, 0, 100))];
    let out = bsp(0, 3, r(0, 0, 1000, 800), 1, 0, &overrides);
    assert_eq!(out, vec![r(0, 0, 1000, 400), r(0, 400, 500, 500), r(500, 400, 500, 400)]);
}

#[test]
fn override_adds_its_whole_delta() {
    let overrides = vec![Some(r(0, 0, 100, 0))];
    let out = bsp(0, 2, r(0, 0, 1000, 800), 0, 0, &overrides);
    assert_eq!(out, vec![r(0, 0, 600, 800), r(500, 0, 500, 800)]);
}

#[test]
fn left_edge_offset_moves_into_neighbour_width() {
    let overrides = vec![None, Some(r(-40, 0, 0, 0))];
    let adjusted = calculate_resize_adjustments(&overrides, Layout::BSPH);
    assert_eq!(adjusted, vec![Some(r(0, 0, -40, 0)), Some(r(0, 0, 0, 0))]);
}

#[test]
fn top_edge_offset_under_vertical_bsp() {
    let overrides = vec![None, Some(r(0, 30, 0, 0)), None];
    let adjusted = calculate_resize_adjustments(&overrides, Layout::BSPV);
    assert_eq!(adjusted, vec![Some(r(0, 0, 0, 30)), Some(r(0, 0, 0, 0)), None]);
}

#[test]
fn clamp_accepts_small_steps() {
    let nominal = r(0, 0, 500, 400);
    let out = clamp_resize(r(0, 0, 0, 0), ResizeEdge::Right, Sizing::Increase, 50, nominal);
    assert_eq!(out, r(0, 0, 50, 0));
    let out = clamp_resize(r(0, 0, 0, 0), ResizeEdge::Left, Sizing::Increase, 50, nominal);
    assert_eq!(out, r(-50, 0, 0, 0));
    let out = clamp_resize(r(0, 0, 0, 0), ResizeEdge::Top, Sizing::Decrease, 50, nominal);
    assert_eq!(out, r(0, 50, 0, 0));
}

#[test]
fn clamp_rejects_step_past_bound() {
    let nominal = r(0, 0, 500, 400);
    let out = clamp_resize(r(0, 0, 0, 450), ResizeEdge::Bottom, Sizing::Increase, 50, nominal);
    assert_eq!(out, r(0, 0, 0, 450));
}

#[test]
fn repeated_increase_settles_and_never_inverts() {
    let nominal = r(0, 0, 500, 400);
    let mut cur = r(0, 0, 0, 0);
    let mut changes = 0;
    for _ in 0..100 {
        let next = clamp_resize(cur, ResizeEdge::Right, Sizing::Increase, 50, nominal);
        if next != cur {
            changes += 1;
        }
        cur = next;
        assert!(nominal.width + cur.width > 0);
    }
    assert_eq!(cur.width, 450);
    assert_eq!(changes, 9);
    assert_eq!(clamp_resize(cur, ResizeEdge::Right, Sizing::Increase, 50, nominal), cur);
}

#[test]
fn halve_rounds_toward_zero() {
    assert_eq!(halve(7), 3);
    assert_eq!(halve(-7), -3);
    assert_eq!(halve(i32::MIN), i32::MIN / 2);
}

fn overlap(a: &Rect, b: &Rect) -> bool {
    a.x < b.x + b.width && b.x < a.x + a.width && a.y < b.y + b.height && b.y < a.y + a.height
}

#[test]
fn gapless_bsp_tiles_the_area() {
    for kind in [Layout::BSPV, Layout::BSPH] {
        for n in 1..9usize {
            let area = r(100, 50, 1921, 1079);
            let slots = compute_layout(area, n, kind, 0, &vec![]);
            let mut total: i64 = 0;
            for (i, a) in slots.iter().enumerate() {
                assert!(a.width >= 0 && a.height >= 0);
                assert!(a.x >= area.x && a.y >= area.y);
                assert!(a.x + a.width <= area.x + area.width && a.y + a.height <= area.y + area.height);
                total += a.width as i64 * a.height as i64;
                for b in slots.iter().skip(i + 1) {
                    assert!(!overlap(a, b));
                }
            }
            assert_eq!(total, 1921 * 1079);
            let gapped = compute_layout(area, n, kind, 6, &vec![]);
            for (g, s) in gapped.iter().zip(slots.iter()) {
                assert_eq!(*g, s.shrink(6));
            }
        }
    }
}
