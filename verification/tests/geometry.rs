//! Measuring, hitting, moving, resizing and turning annotation items, with
//! plane geometry in floating point handed to the library.

use std::rc::Rc;

use pashari::annotation::{hit_rect_handle, resize_rect, Annotation, Handle, MosaicMode};
use pashari::measure::{
    all_drawable, annotations_bounds, common_rotation, guide_bounds, hit_item, hit_items_in_rect,
    is_boxable, item_bbox, item_export_bbox, next_marker_number, selection_bounds, Outline,
};
use pashari::order::reorder_selection;
use pashari::pixels::{compose_rgba, contrast_text_color, EXPORT_SENTINEL};
use pashari::style::{common_style, PropVal, Style};
use pashari::transform::{
    rotate_annotation_around, scale_annotation, scale_annotation_rotated, translate_annotation,
};

type Ann = Annotation<f64, f32>;

const DEFAULT_COLOR: u32 = 0x00E0_3030;
const DEFAULT_THICK: i64 = 4;
const DEFAULT_BLOCK: f32 = 16.0;

// ---- Plane geometry ----

fn rect_norm_f64(r: (f64, f64, f64, f64)) -> (f64, f64, f64, f64) {
    (r.0.min(r.2), r.1.min(r.3), r.0.max(r.2), r.1.max(r.3))
}

fn rect_center(r: (f64, f64, f64, f64)) -> (f64, f64) {
    let (x0, y0, x1, y1) = rect_norm_f64(r);
    ((x0 + x1) / 2.0, (y0 + y1) / 2.0)
}

fn rotate_point(p: (f64, f64), c: (f64, f64), ang: f64) -> (f64, f64) {
    let (dx, dy) = (p.0 - c.0, p.1 - c.1);
    let (s, co) = ang.sin_cos();
    (c.0 + dx * co - dy * s, c.1 + dx * s + dy * co)
}

fn rotated_rect_corners(r: (f64, f64, f64, f64), rot: f64) -> [(i64, i64); 4] {
    let (x0, y0, x1, y1) = rect_norm_f64(r);
    let c = rect_center(r);
    [(x0, y0), (x1, y0), (x1, y1), (x0, y1)].map(|(x, y)| {
        let (rx, ry) = rotate_point((x, y), c, rot);
        (rx.round() as i64, ry.round() as i64)
    })
}

fn to_local(p: (i64, i64), r: (f64, f64, f64, f64), rot: f64) -> (f64, f64) {
    let c = rect_center(r);
    rotate_point((p.0 as f64, p.1 as f64), c, -rot)
}

fn dist_point_seg(p: (i64, i64), a: (i64, i64), b: (i64, i64)) -> f64 {
    let (px, py) = (p.0 as f64, p.1 as f64);
    let (ax, ay) = (a.0 as f64, a.1 as f64);
    let (bx, by) = (b.0 as f64, b.1 as f64);
    let (dx, dy) = (bx - ax, by - ay);
    let len2 = dx * dx + dy * dy;
    if len2 <= f64::EPSILON {
        return (px - ax).hypot(py - ay);
    }
    let t = (((px - ax) * dx + (py - ay) * dy) / len2).clamp(0.0, 1.0);
    (px - (ax + t * dx)).hypot(py - (ay + t * dy))
}

fn arrow_head_len(th: i64) -> f64 {
    (th as f64 * 5.0).max(10.0)
}

fn arrow_barb_tips(a: (i64, i64), b: (i64, i64), th: i64) -> Option<[(f64, f64); 2]> {
    let (dx, dy) = ((b.0 - a.0) as f64, (b.1 - a.1) as f64);
    let len = (dx * dx + dy * dy).sqrt();
    if len < 1.0 {
        return None;
    }
    let (ux, uy) = (dx / len, dy / len);
    let head = arrow_head_len(th);
    let ang = 0.5_f64;
    let mut tips = [(0.0, 0.0); 2];
    for (i, &s) in [ang, -ang].iter().enumerate() {
        let (c, sn) = (s.cos(), s.sin());
        let rx = -ux * c - (-uy) * sn;
        let ry = -ux * sn + (-uy) * c;
        tips[i] = (b.0 as f64 + rx * head, b.1 as f64 + ry * head);
    }
    Some(tips)
}

fn resize_rotated_rect(
    orig: (f64, f64, f64, f64),
    h: Handle,
    p: (f64, f64),
    rot: f64,
) -> (f64, f64, f64, f64) {
    let c0 = rect_center(orig);
    let local_p = rotate_point(p, c0, -rot);
    let (mut x0, mut y0, mut x1, mut y1) = orig;
    match h {
        Handle::TopLeft | Handle::Left | Handle::BottomLeft => x0 = local_p.0,
        Handle::TopRight | Handle::Right | Handle::BottomRight => x1 = local_p.0,
        Handle::Top | Handle::Bottom => {}
    }
    match h {
        Handle::TopLeft | Handle::Top | Handle::TopRight => y0 = local_p.1,
        Handle::BottomLeft | Handle::Bottom | Handle::BottomRight => y1 = local_p.1,
        Handle::Left | Handle::Right => {}
    }
    let (nx0, nx1) = if x0 <= x1 { (x0, x1) } else { (x1, x0) };
    let (ny0, ny1) = if y0 <= y1 { (y0, y1) } else { (y1, y0) };

    if rot == 0.0 {
        return (nx0, ny0, nx1, ny1);
    }

    let c1 = ((nx0 + nx1) / 2.0, (ny0 + ny1) / 2.0);
    let delta = (c1.0 - c0.0, c1.1 - c0.1);
    let d = {
        let rotated = rotate_point(delta, (0.0, 0.0), rot);
        (rotated.0 - delta.0, rotated.1 - delta.1)
    };
    (nx0 + d.0, ny0 + d.1, nx1 + d.0, ny1 + d.1)
}

fn scale_point_local(
    p: (f64, f64),
    orig: (f64, f64, f64, f64),
    new: (f64, f64, f64, f64),
) -> (f64, f64) {
    let (ox0, oy0, ox1, oy1) = orig;
    let (nx0, ny0, nx1, ny1) = new;
    let (ow, oh) = (ox1 - ox0, oy1 - oy0);
    let sx = if ow.abs() > f64::EPSILON {
        (nx1 - nx0) / ow
    } else {
        1.0
    };
    let sy = if oh.abs() > f64::EPSILON {
        (ny1 - ny0) / oh
    } else {
        1.0
    };
    (nx0 + (p.0 - ox0) * sx, ny0 + (p.1 - oy0) * sy)
}

fn transform_rotated_corners(
    r: (f64, f64, f64, f64),
    item_rot: f64,
    map: impl Fn((f64, f64)) -> (f64, f64),
) -> (f64, f64, f64, f64) {
    let item_center = rect_center(r);
    let world_p0 = rotate_point((r.0, r.1), item_center, item_rot);
    let world_p1 = rotate_point((r.2, r.3), item_center, item_rot);
    let new_world_p0 = map(world_p0);
    let new_world_p1 = map(world_p1);
    let new_center = (
        (new_world_p0.0 + new_world_p1.0) / 2.0,
        (new_world_p0.1 + new_world_p1.1) / 2.0,
    );
    let nr0 = rotate_point(new_world_p0, new_center, -item_rot);
    let nr1 = rotate_point(new_world_p1, new_center, -item_rot);
    (nr0.0, nr0.1, nr1.0, nr1.1)
}

fn rotate_shape_r(r: (f64, f64, f64, f64), center: (f64, f64), delta: f64) -> (f64, f64, f64, f64) {
    let rc = rect_center(r);
    let (nx, ny) = rotate_point(rc, center, delta);
    let (dx, dy) = (nx - rc.0, ny - rc.1);
    (r.0 + dx, r.1 + dy, r.2 + dx, r.3 + dy)
}

fn rotated_rect_intersects_rect(
    r: (f64, f64, f64, f64),
    rot: f64,
    rect: (i64, i64, i64, i64),
) -> bool {
    let (x0, y0, x1, y1) = rect_norm_f64(r);
    let c = rect_center(r);
    let item_corners =
        [(x0, y0), (x1, y0), (x1, y1), (x0, y1)].map(|(x, y)| rotate_point((x, y), c, rot));
    let (rx0, ry0, rx1, ry1) = rect;
    let rect_corners = [
        (rx0 as f64, ry0 as f64),
        (rx1 as f64, ry0 as f64),
        (rx1 as f64, ry1 as f64),
        (rx0 as f64, ry1 as f64),
    ];
    let project = |pts: &[(f64, f64); 4], axis: (f64, f64)| -> (f64, f64) {
        let mut lo = f64::MAX;
        let mut hi = f64::MIN;
        for &(px, py) in pts {
            let d = px * axis.0 + py * axis.1;
            lo = lo.min(d);
            hi = hi.max(d);
        }
        (lo, hi)
    };
    let axes = [
        (1.0, 0.0),
        (0.0, 1.0),
        (rot.cos(), rot.sin()),
        (-rot.sin(), rot.cos()),
    ];
    for axis in axes {
        let (a_lo, a_hi) = project(&item_corners, axis);
        let (b_lo, b_hi) = project(&rect_corners, axis);
        if a_hi < b_lo || b_hi < a_lo {
            return false;
        }
    }
    true
}

/// The rectangle of a text when no font is there to measure it.
fn text_local_rect(pos: (i64, i64), size: f32) -> (f64, f64, f64, f64) {
    let (x, y) = (pos.0 as f64, pos.1 as f64);
    (x, y, x + 1.0, y + size.ceil() as f64)
}

fn outline(ann: &Ann) -> Outline {
    let mut o = Outline {
        corners: [(0, 0); 4],
        oval: (0, 0, 0, 0),
        radius: 0,
        reach: 0,
        barbs: None,
    };
    match ann {
        Annotation::Image { r, rot, .. }
        | Annotation::Rect { r, rot, .. }
        | Annotation::Mosaic { r, rot, .. } => o.corners = rotated_rect_corners(*r, *rot),
        Annotation::Text { pos, size, rot, .. } => {
            o.corners = rotated_rect_corners(text_local_rect(*pos, *size), *rot)
        }
        Annotation::Ellipse { r, rot, .. } => {
            let (x0, y0, x1, y1) = rect_norm_f64(*r);
            let (cx, cy) = ((x0 + x1) / 2.0, (y0 + y1) / 2.0);
            let (rx, ry) = ((x1 - x0) / 2.0, (y1 - y0) / 2.0);
            let hw = ((rx * rot.cos()).powi(2) + (ry * rot.sin()).powi(2)).sqrt();
            let hh = ((rx * rot.sin()).powi(2) + (ry * rot.cos()).powi(2)).sqrt();
            o.oval = (
                (cx - hw).round() as i64,
                (cy - hh).round() as i64,
                (cx + hw).round() as i64,
                (cy + hh).round() as i64,
            );
        }
        Annotation::NumberMarker { size, .. } => {
            o.radius = *size as i64;
            o.reach = size.max(6.0).ceil() as i64;
        }
        Annotation::Arrow { a, b, thick, .. } => {
            o.barbs = arrow_barb_tips(*a, *b, *thick).map(|tips| {
                let boxed = tips.map(|(x, y)| {
                    (
                        x.floor() as i64,
                        y.floor() as i64,
                        x.ceil() as i64,
                        y.ceil() as i64,
                    )
                });
                (boxed[0], boxed[1])
            });
        }
        _ => {}
    }
    o
}

fn outlines(items: &[Ann]) -> Vec<Outline> {
    items.iter().map(outline).collect()
}

fn tight(ann: &Ann) -> (i64, i64, i64, i64) {
    item_bbox(ann, &outline(ann))
}

fn padded(ann: &Ann) -> (i64, i64, i64, i64) {
    item_export_bbox(ann, &outline(ann))
}

fn all_bounds(items: &Vec<Ann>) -> Option<(i64, i64, i64, i64)> {
    annotations_bounds(items, &outlines(items))
}

fn chosen_bounds(items: &Vec<Ann>, selected: &[usize]) -> Option<(i64, i64, i64, i64)> {
    selection_bounds(items, selected, &outlines(items))
}

/// Whether an item's own shape is under the point.
fn touches(ann: &Ann, p: (i64, i64), tol: f64) -> bool {
    let in_rect = |r: (f64, f64, f64, f64), rot: f64| {
        let lp = to_local(p, r, rot);
        let (x0, y0, x1, y1) = rect_norm_f64(r);
        lp.0 >= x0 - tol && lp.0 <= x1 + tol && lp.1 >= y0 - tol && lp.1 <= y1 + tol
    };
    match ann {
        // The library leaves guides out by itself.
        Annotation::Guide { .. } => true,
        Annotation::Arrow { a, b, .. } => dist_point_seg(p, *a, *b) <= tol,
        Annotation::Polyline { points, .. } => points
            .windows(2)
            .any(|w| dist_point_seg(p, w[0], w[1]) <= tol),
        Annotation::Rect { r, rot, .. }
        | Annotation::Image { r, rot, .. }
        | Annotation::Mosaic { r, rot, .. } => in_rect(*r, *rot),
        Annotation::Text { pos, size, rot, .. } => in_rect(text_local_rect(*pos, *size), *rot),
        Annotation::Ellipse { r, rot, .. } => {
            let lp = to_local(p, *r, *rot);
            let (x0, y0, x1, y1) = rect_norm_f64(*r);
            let (cx, cy) = ((x0 + x1) / 2.0, (y0 + y1) / 2.0);
            let (rx, ry) = (
                ((x1 - x0) / 2.0 + tol).max(0.1),
                ((y1 - y0) / 2.0 + tol).max(0.1),
            );
            (((lp.0 - cx) / rx).powi(2) + ((lp.1 - cy) / ry).powi(2)) <= 1.0
        }
        Annotation::NumberMarker { pos, size, .. } => {
            let d = ((p.0 - pos.0) as f64).hypot((p.1 - pos.1) as f64);
            d <= *size as f64 + tol
        }
    }
}

fn touch(items: &Vec<Ann>, p: (i64, i64), tol: f64) -> Option<usize> {
    let touched: Vec<bool> = items.iter().map(|a| touches(a, p, tol)).collect();
    hit_item(items, &touched)
}

fn sweep(items: &Vec<Ann>, rect: (i64, i64, i64, i64)) -> Vec<usize> {
    let crosses: Vec<bool> = items
        .iter()
        .map(|a| match a {
            Annotation::Rect { r, rot, .. }
            | Annotation::Ellipse { r, rot, .. }
            | Annotation::Image { r, rot, .. }
            | Annotation::Mosaic { r, rot, .. } => rotated_rect_intersects_rect(*r, *rot, rect),
            Annotation::Text { pos, size, rot, .. } => {
                rotated_rect_intersects_rect(text_local_rect(*pos, *size), *rot, rect)
            }
            _ => false,
        })
        .collect();
    hit_items_in_rect(items, rect, &outlines(items), &crosses)
}

fn same_angle(a: f64, b: f64) -> bool {
    (a - b).abs() < 1e-6
}

fn same_size(a: f32, b: f32) -> bool {
    a == b
}

fn shift(v: f64, d: i64) -> f64 {
    v + d as f64
}

/// The factors of a frame's resizing, 1 along an axis without extent.
fn factors(orig: (f64, f64, f64, f64), new: (f64, f64, f64, f64)) -> (f64, f64) {
    let (ow, oh) = (orig.2 - orig.0, orig.3 - orig.1);
    let sx = if ow.abs() > f64::EPSILON {
        (new.2 - new.0) / ow
    } else {
        1.0
    };
    let sy = if oh.abs() > f64::EPSILON {
        (new.3 - new.1) / oh
    } else {
        1.0
    };
    (sx, sy)
}

fn lifted(r: (i64, i64, i64, i64)) -> (f64, f64, f64, f64) {
    (r.0 as f64, r.1 as f64, r.2 as f64, r.3 as f64)
}

fn stretch(ann: &Ann, orig: (i64, i64, i64, i64), new: (i64, i64, i64, i64)) -> Ann {
    let (of, nf) = (lifted(orig), lifted(new));
    let (sx, sy) = factors(of, nf);
    let map = |p: (f64, f64)| (nf.0 + (p.0 - of.0) * sx, nf.1 + (p.1 - of.1) * sy);
    let point = |p: (i64, i64)| {
        let q = map((p.0 as f64, p.1 as f64));
        (q.0.round() as i64, q.1.round() as i64)
    };
    let rect = |r: (f64, f64, f64, f64), _rot: f64| {
        let (a, b) = (map((r.0, r.1)), map((r.2, r.3)));
        (a.0, a.1, b.0, b.1)
    };
    let size = |s: f32| (s as f64 * (sx + sy) / 2.0) as f32;
    scale_annotation(ann, &point, &rect, &size)
}

fn stretch_rotated(
    ann: &Ann,
    orig: (f64, f64, f64, f64),
    new: (f64, f64, f64, f64),
    rot: f64,
) -> Ann {
    let (sx, sy) = factors(orig, new);
    let size = |s: f32| (s as f64 * (sx + sy) / 2.0) as f32;
    let (c0, c1) = (rect_center(orig), rect_center(new));
    let map = |p: (f64, f64)| {
        let lp = rotate_point(p, c0, -rot);
        let sp = scale_point_local(lp, orig, new);
        rotate_point(sp, c1, rot)
    };
    let point = |p: (i64, i64)| {
        let q = map((p.0 as f64, p.1 as f64));
        (q.0.round() as i64, q.1.round() as i64)
    };
    if rot == 0.0 {
        let rect = |r: (f64, f64, f64, f64), _rot: f64| {
            let a = scale_point_local((r.0, r.1), orig, new);
            let b = scale_point_local((r.2, r.3), orig, new);
            (a.0, a.1, b.0, b.1)
        };
        return scale_annotation_rotated(ann, true, &point, &rect, &size);
    }
    let rect = |r: (f64, f64, f64, f64), item_rot: f64| transform_rotated_corners(r, item_rot, map);
    scale_annotation_rotated(ann, false, &point, &rect, &size)
}

fn turn(ann: &Ann, center: (f64, f64), delta: f64) -> Ann {
    let point = |p: (i64, i64)| {
        let (x, y) = rotate_point((p.0 as f64, p.1 as f64), center, delta);
        (x.round() as i64, y.round() as i64)
    };
    let orbit = |r: (f64, f64, f64, f64)| rotate_shape_r(r, center, delta);
    let add_turn = |t: f64| t + delta;
    let text_at = match ann {
        Annotation::Text { pos, size, .. } => {
            let r = orbit(text_local_rect(*pos, *size));
            (r.0.round() as i64, r.1.round() as i64)
        }
        _ => (0, 0),
    };
    rotate_annotation_around(ann, &point, &orbit, &add_turn, text_at)
}

#[allow(clippy::type_complexity)]
fn shared_style(
    items: &[&Ann],
    defaults: (u32, i64, f32, bool, f32, bool),
) -> (
    PropVal<u32>,
    PropVal<i64>,
    PropVal<f32>,
    PropVal<bool>,
    PropVal<f32>,
    PropVal<bool>,
) {
    let list: Vec<Ann> = items.iter().map(|a| (*a).clone()).collect();
    let selected: Vec<usize> = (0..list.len()).collect();
    let style = Style {
        color: defaults.0,
        thick: defaults.1,
        size: defaults.2,
        filled: defaults.3,
        block: defaults.4,
        blur: defaults.5,
    };
    let v = common_style(&list, &selected, style, &same_size);
    (v.color, v.thick, v.size, v.filled, v.block, v.blur)
}

// ---- Items ----

fn rect_item(r: (i64, i64, i64, i64)) -> Ann {
    Annotation::Rect {
        r: lifted(r),
        color: DEFAULT_COLOR,
        thick: DEFAULT_THICK,
        rot: 0.0,
        filled: false,
    }
}

fn mosaic_item(r: (i64, i64, i64, i64)) -> Ann {
    Annotation::Mosaic {
        r: lifted(r),
        rot: 0.0,
        block: DEFAULT_BLOCK,
        mode: MosaicMode::Pixelate,
        seed: 0,
    }
}

fn image_item(pos: (i64, i64), w: i64, h: i64) -> Ann {
    Annotation::Image {
        r: lifted((pos.0, pos.1, pos.0 + w, pos.1 + h)),
        src_w: 2,
        src_h: 2,
        pixels: Rc::new(vec![1, 2, 3, 4]),
        rot: 0.0,
    }
}

// ---- Tests ----

#[test]
fn hit_rect_handle_picks_corner_and_edge() {
    let r = (10, 20, 30, 40);
    assert_eq!(hit_rect_handle(r, (10, 20), 3), Some(Handle::TopLeft));
    assert_eq!(hit_rect_handle(r, (20, 40), 3), Some(Handle::Bottom));
    assert_eq!(hit_rect_handle(r, (30, 30), 3), Some(Handle::Right));
    // Near the center hits no handle.
    assert_eq!(hit_rect_handle(r, (20, 30), 3), None);
}

#[test]
fn resize_rect_moves_matching_edges_and_renormalizes() {
    let r = (10, 20, 30, 40);
    // Only the right edge moves.
    assert_eq!(resize_rect(r, Handle::Right, (50, 5)), (10, 20, 50, 40));
    // The top-left corner moves x0/y0.
    assert_eq!(resize_rect(r, Handle::TopLeft, (5, 8)), (5, 8, 30, 40));
    // Dragging the right edge past the left edge flips and renormalizes.
    assert_eq!(resize_rect(r, Handle::Right, (0, 5)), (0, 20, 10, 40));
}

#[test]
fn item_bbox_rect_rotated_returns_aabb_of_corners() {
    let flat = rect_item((0, 0, 40, 20));
    let (fx0, fy0, fx1, fy1) = tight(&flat);

    let rotated: Ann = Annotation::Rect {
        r: (0.0, 0.0, 40.0, 20.0),
        color: 0,
        thick: 1,
        rot: std::f64::consts::FRAC_PI_4,
        filled: false,
    };
    let (rx0, ry0, rx1, ry1) = tight(&rotated);

    // A 45° rotation makes the bounding rect larger than the original (unless it's a square).
    assert!(rx1 - rx0 > fx1 - fx0 || ry1 - ry0 > fy1 - fy0);
    // The center doesn't change.
    assert_eq!((fx0 + fx1) / 2, (rx0 + rx1) / 2);
    assert_eq!((fy0 + fy1) / 2, (ry0 + ry1) / 2);
}

#[test]
fn item_bbox_image_rotated_returns_aabb_of_corners() {
    // Image has exactly the same "rect plus rotation angle" shape as Rect, so it should behave the same.
    let flat = image_item((0, 0), 40, 20);
    let (fx0, fy0, fx1, fy1) = tight(&flat);

    let rotated: Ann = Annotation::Image {
        r: (0.0, 0.0, 40.0, 20.0),
        src_w: 2,
        src_h: 2,
        pixels: Rc::new(vec![1, 2, 3, 4]),
        rot: std::f64::consts::FRAC_PI_4,
    };
    let (rx0, ry0, rx1, ry1) = tight(&rotated);

    // A 45° rotation makes the bounding rect larger than the original.
    assert!(rx1 - rx0 > fx1 - fx0 || ry1 - ry0 > fy1 - fy0);
    // The center doesn't change.
    assert_eq!((fx0 + fx1) / 2, (rx0 + rx1) / 2);
    assert_eq!((fy0 + fy1) / 2, (ry0 + ry1) / 2);
}

#[test]
fn item_bbox_text_rotated_returns_aabb_of_corners() {
    // Text builds its local rect on demand from a font measurement, then uses the same formula.
    let flat: Ann = Annotation::Text {
        pos: (0, 0),
        text: "Hi".into(),
        color: DEFAULT_COLOR,
        size: 20.0,
        rot: 0.0,
    };
    let (fx0, fy0, fx1, fy1) = tight(&flat);

    let rotated: Ann = Annotation::Text {
        pos: (0, 0),
        text: "Hi".into(),
        color: DEFAULT_COLOR,
        size: 20.0,
        rot: std::f64::consts::FRAC_PI_4,
    };
    let (rx0, ry0, rx1, ry1) = tight(&rotated);

    assert!(rx1 - rx0 > fx1 - fx0 || ry1 - ry0 > fy1 - fy0);
    assert_eq!((fx0 + fx1) / 2, (rx0 + rx1) / 2);
    assert_eq!((fy0 + fy1) / 2, (ry0 + ry1) / 2);
}

#[test]
fn item_bbox_number_marker_is_a_square_around_pos_sized_by_radius() {
    let ann: Ann = Annotation::NumberMarker {
        pos: (10, 20),
        number: 1,
        color: DEFAULT_COLOR,
        size: 8.0,
    };
    assert_eq!(tight(&ann), (2, 12, 18, 28));
}

#[test]
fn item_bbox_ellipse_rotated_matches_closed_form_and_sampled_outline() {
    // An ellipse with rx=40, ry=20, rotated 30°. The bounding rect
    // should be given by the closed form
    // hw=sqrt((rx*cos)^2+(ry*sin)^2), hh=sqrt((rx*sin)^2+(ry*cos)^2),
    // and that value should closely match the min/max measured by
    // finely sampling the outline.
    let (cx, cy) = (100.0, 50.0);
    let (rx, ry) = (40.0, 20.0);
    let rot = 30.0_f64.to_radians();
    let ann: Ann = Annotation::Ellipse {
        r: (cx - rx, cy - ry, cx + rx, cy + ry),
        color: DEFAULT_COLOR,
        thick: 1,
        rot,
        filled: false,
    };
    let (bx0, by0, bx1, by1) = tight(&ann);

    let mut sx0 = f64::MAX;
    let mut sy0 = f64::MAX;
    let mut sx1 = f64::MIN;
    let mut sy1 = f64::MIN;
    let steps = 3600;
    for i in 0..steps {
        let ang = i as f64 / steps as f64 * std::f64::consts::TAU;
        let local = (cx + rx * ang.cos(), cy + ry * ang.sin());
        let (wx, wy) = rotate_point(local, (cx, cy), rot);
        sx0 = sx0.min(wx);
        sy0 = sy0.min(wy);
        sx1 = sx1.max(wx);
        sy1 = sy1.max(wy);
    }

    assert!((bx0 as f64 - sx0).abs() <= 1.0, "bx0={bx0} sx0={sx0}");
    assert!((by0 as f64 - sy0).abs() <= 1.0, "by0={by0} sy0={sy0}");
    assert!((bx1 as f64 - sx1).abs() <= 1.0, "bx1={bx1} sx1={sx1}");
    assert!((by1 as f64 - sy1).abs() <= 1.0, "by1={by1} sy1={sy1}");
}

#[test]
fn item_bbox_polyline_returns_min_max_of_all_points() {
    // item_bbox stays tight (for the selection outline/hit-testing).
    let ann: Ann = Annotation::Polyline {
        points: vec![(10, 50), (30, 5), (100, 20)],
        color: DEFAULT_COLOR,
        thick: DEFAULT_THICK,
    };
    assert_eq!(tight(&ann), (10, 5, 100, 50));
}

#[test]
fn item_export_bbox_polyline_is_padded_by_half_thickness() {
    let ann: Ann = Annotation::Polyline {
        points: vec![(10, 50), (30, 5), (100, 20)],
        color: DEFAULT_COLOR,
        thick: DEFAULT_THICK,
    };
    // Since the line is drawn ±(thick/2) around the center, it extends
    // beyond the points' min/max by that much (DEFAULT_THICK=4 ->
    // pad=2, so the outer half of the line isn't clipped on export).
    // This padding is only added by the export-only item_export_bbox
    // (item_bbox itself stays tight).
    let pad = DEFAULT_THICK / 2;
    assert_eq!(
        padded(&ann),
        (10 - pad, 5 - pad, 100 + pad, 50 + pad)
    );
}

#[test]
fn item_export_bbox_arrow_tightly_bounds_the_actual_barb_tips() {
    let a = (0, 0);
    let b = (100, 0);
    let thick = DEFAULT_THICK;
    let ann: Ann = Annotation::Arrow {
        a,
        b,
        color: DEFAULT_COLOR,
        thick,
    };
    // item_bbox (for the selection outline/hit-testing) stays the tight min/max of a/b.
    assert_eq!(tight(&ann), (0, 0, 100, 0));

    let (bx0, by0, bx1, by1) = padded(&ann);
    let pad = (thick.max(1) + 1) / 2;

    // Both arrowhead tips are actually included in the bounding rect (not clipped).
    let tips = arrow_barb_tips(a, b, thick).unwrap();
    for (tx, ty) in tips {
        assert!(
            tx >= (bx0 + pad) as f64 && tx <= (bx1 - pad) as f64,
            "tx={tx}"
        );
        assert!(
            ty >= (by0 + pad) as f64 && ty <= (by1 - pad) as f64,
            "ty={ty}"
        );
    }
    // The barbs only ever extend toward `a` (the reverse direction),
    // so no extra padding should appear beyond `b` in the opposite
    // direction (+x for this arrow): growing by `arrow_head_len` in every
    // direction would be too much.
    let head_pad = arrow_head_len(thick).ceil() as i64;
    assert!(
        bx1 < b.0 + head_pad,
        "bx1={bx1} reaches past the tip"
    );
}

#[test]
fn item_export_bbox_rect_filled_has_no_stroke_padding() {
    // A filled shape ignores thick when drawing, so the bounding rect needs no padding either.
    let ann: Ann = Annotation::Rect {
        r: (0.0, 0.0, 40.0, 20.0),
        color: DEFAULT_COLOR,
        thick: 20,
        rot: 0.0,
        filled: true,
    };
    assert_eq!(padded(&ann), (0, 0, 40, 20));
}

#[test]
fn hit_item_prefers_topmost() {
    // Two overlapping rects; the last one (frontmost) wins.
    let items: Vec<Ann> = vec![rect_item((0, 0, 100, 100)), rect_item((10, 10, 50, 50))];
    assert_eq!(touch(&items, (20, 20), 4.0), Some(1));
    // Outside the front one but inside the back one hits the back one.
    assert_eq!(touch(&items, (80, 80), 4.0), Some(0));
    // Outside both is None.
    assert_eq!(touch(&items, (200, 200), 4.0), None);
}

#[test]
fn hit_item_uses_actual_rotated_outline_not_its_aabb() {
    // A square rotated 45° (a diamond). Its axis-aligned bounding rect
    // (AABB) extends beyond the actual outline, so clicking in that
    // "gap" shouldn't select it.
    let items: Vec<Ann> = vec![Annotation::Rect {
        r: (0.0, 0.0, 10.0, 10.0),
        color: DEFAULT_COLOR,
        thick: DEFAULT_THICK,
        rot: std::f64::consts::FRAC_PI_4,
        filled: false,
    }];
    // The AABB's (roughly (-2,-2)..(12,12)) top-left corner is outside the diamond's outline.
    assert_eq!(touch(&items, (-1, -1), 0.0), None);
    // The center (inside the diamond) is of course selected.
    assert_eq!(touch(&items, (5, 5), 0.0), Some(0));
}

#[test]
fn hit_item_image_uses_actual_rotated_outline_not_its_aabb() {
    // Image shares exactly the same test as Rect, so it's the same diamond scenario.
    let items: Vec<Ann> = vec![Annotation::Image {
        r: (0.0, 0.0, 10.0, 10.0),
        src_w: 2,
        src_h: 2,
        pixels: Rc::new(vec![1, 2, 3, 4]),
        rot: std::f64::consts::FRAC_PI_4,
    }];
    assert_eq!(touch(&items, (-1, -1), 0.0), None);
    assert_eq!(touch(&items, (5, 5), 0.0), Some(0));
}

#[test]
fn hit_item_text_uses_actual_rotated_outline_not_its_aabb() {
    // With no font measurement (`text: None`), the local rect falls
    // back to a thin 1px-wide, 20px-tall rect. Even so, the AABB's
    // corner should be outside the outline, and near the center
    // should be inside it (values pre-computed).
    let items: Vec<Ann> = vec![Annotation::Text {
        pos: (0, 0),
        text: String::new(),
        color: DEFAULT_COLOR,
        size: 20.0,
        rot: std::f64::consts::FRAC_PI_4,
    }];
    assert_eq!(touch(&items, (-6, 4), 0.0), None);
    assert_eq!(touch(&items, (0, 10), 0.0), Some(0));
}

#[test]
fn hit_item_number_marker_hits_within_radius_and_misses_outside() {
    let items: Vec<Ann> = vec![Annotation::NumberMarker {
        pos: (10, 10),
        number: 1,
        color: DEFAULT_COLOR,
        size: 5.0,
    }];
    assert_eq!(touch(&items, (12, 10), 0.0), Some(0));
    assert_eq!(touch(&items, (20, 10), 0.0), None);
    // Also hits slightly outside, within the tolerance tol.
    assert_eq!(touch(&items, (16, 10), 1.0), Some(0));
}

#[test]
fn hit_item_ellipse_uses_actual_rotated_outline_not_its_aabb() {
    // An ellipse with rx=10,ry=8, rotated 45° (center (10,8)). Its
    // axis-aligned bounding rect (AABB) extends beyond the actual
    // ellipse, so clicking in that "gap" (the AABB's corner)
    // shouldn't select it.
    let items: Vec<Ann> = vec![Annotation::Ellipse {
        r: (0.0, 0.0, 20.0, 16.0),
        color: DEFAULT_COLOR,
        thick: DEFAULT_THICK,
        rot: std::f64::consts::FRAC_PI_4,
        filled: false,
    }];
    // The AABB's (roughly (0.9,-1.1)..(19.1,17.1)) top-left corner is outside the ellipse's outline.
    assert_eq!(touch(&items, (1, -1), 0.0), None);
    // The center (inside the ellipse) is of course selected.
    assert_eq!(touch(&items, (10, 8), 0.0), Some(0));
}

#[test]
fn hit_item_never_selects_guide_even_when_topmost() {
    // The guide is never selectable via the Select tool (Guide-tool
    // only), to prevent it from being accidentally selected when
    // trying to select another item.
    let items: Vec<Ann> = vec![
        rect_item((0, 0, 100, 100)),
        Annotation::Guide {
            r: (0, 0, 100, 100),
        },
    ];
    assert_eq!(touch(&items, (20, 20), 4.0), Some(0));
    // With only a guide present, None.
    let guide_only: Vec<Ann> = vec![Annotation::Guide {
        r: (0, 0, 100, 100),
    }];
    assert_eq!(touch(&guide_only, (20, 20), 4.0), None);
}

#[test]
fn hit_item_polyline_hits_interior_segment_but_misses_off_segment() {
    let items: Vec<Ann> = vec![Annotation::Polyline {
        points: vec![(0, 0), (10, 0), (10, 10)],
        color: DEFAULT_COLOR,
        thick: DEFAULT_THICK,
    }];
    // A point on the second segment ((10,0)-(10,10)).
    assert_eq!(touch(&items, (10, 5), 0.0), Some(0));
    // A point far from every segment.
    assert_eq!(touch(&items, (5, 5), 0.0), None);
}

#[test]
fn hit_items_in_rect_finds_contained_and_overlapping_but_not_outside() {
    let items: Vec<Ann> = vec![
        rect_item((10, 10, 20, 20)),     // fully contained
        rect_item((15, 15, 200, 200)),   // partially overlapping
        rect_item((500, 500, 600, 600)), // fully outside
    ];
    let mut hits = sweep(&items, (0, 0, 100, 100));
    hits.sort_unstable();
    assert_eq!(hits, vec![0, 1]);
}

#[test]
fn hit_items_in_rect_excludes_guide_even_when_overlapping() {
    let items: Vec<Ann> = vec![
        rect_item((10, 10, 20, 20)),
        Annotation::Guide {
            r: (0, 0, 100, 100),
        },
    ];
    assert_eq!(sweep(&items, (0, 0, 100, 100)), vec![0]);
}

#[test]
fn hit_items_in_rect_uses_actual_rotated_outline_not_its_aabb() {
    // A square rotated 45° (a diamond). Its axis-aligned bounding rect
    // (AABB) extends beyond the actual outline, so a marquee touching
    // only that "gap" shouldn't select it.
    let item: Ann = Annotation::Rect {
        r: (0.0, 0.0, 10.0, 10.0),
        color: DEFAULT_COLOR,
        thick: DEFAULT_THICK,
        rot: std::f64::consts::FRAC_PI_4,
        filled: false,
    };
    let items: Vec<Ann> = vec![item];
    // A marquee touching the AABB's (roughly (-2,-2)..(12,12))
    // top-left corner, but not the diamond's outline.
    assert_eq!(
        sweep(&items, (-2, -2, 0, 0)),
        Vec::<usize>::new(),
        "touching only the gap of the box must not select"
    );
    // A marquee touching near the center (inside the diamond) selects it.
    assert_eq!(sweep(&items, (3, 3, 7, 7)), vec![0]);
}

#[test]
fn hit_items_in_rect_ellipse_uses_its_own_rotated_bbox() {
    // Marquee selection approximates an ellipse as its bounding rect
    // rotated (the same (0,0,20,16) rot=45° ellipse as in item_bbox).
    let item: Ann = Annotation::Ellipse {
        r: (0.0, 0.0, 20.0, 16.0),
        color: DEFAULT_COLOR,
        thick: DEFAULT_THICK,
        rot: std::f64::consts::FRAC_PI_4,
        filled: false,
    };
    let items: Vec<Ann> = vec![item];
    // A marquee outside the AABB (roughly (0.9,-1.1)..(19.1,17.1)), past the origin.
    assert_eq!(
        sweep(&items, (-10, -10, -5, -5)),
        Vec::<usize>::new()
    );
    // A marquee touching near the center selects it.
    assert_eq!(sweep(&items, (8, 6, 12, 10)), vec![0]);
}

#[test]
fn hit_items_in_rect_image_uses_actual_rotated_outline_not_its_aabb() {
    // Image shares exactly the same test as Rect, so it's the same diamond scenario.
    let item: Ann = Annotation::Image {
        r: (0.0, 0.0, 10.0, 10.0),
        src_w: 2,
        src_h: 2,
        pixels: Rc::new(vec![1, 2, 3, 4]),
        rot: std::f64::consts::FRAC_PI_4,
    };
    let items: Vec<Ann> = vec![item];
    assert_eq!(
        sweep(&items, (-2, -2, 0, 0)),
        Vec::<usize>::new(),
        "touching only the gap of the box must not select"
    );
    assert_eq!(sweep(&items, (3, 3, 7, 7)), vec![0]);
}

#[test]
fn hit_items_in_rect_text_uses_its_own_rotated_local_rect() {
    // The same scenario as
    // hit_item_text_uses_actual_rotated_outline_not_its_aabb: a thin
    // 1px-wide, 20px-tall fallback rect, rotated 45°.
    let item: Ann = Annotation::Text {
        pos: (0, 0),
        text: String::new(),
        color: DEFAULT_COLOR,
        size: 20.0,
        rot: std::f64::consts::FRAC_PI_4,
    };
    let items: Vec<Ann> = vec![item];
    // A marquee touching only near the AABB's corner (not the actual thin outline).
    assert_eq!(
        sweep(&items, (-7, 3, -6, 4)),
        Vec::<usize>::new()
    );
    // A marquee touching near the center.
    assert_eq!(sweep(&items, (-1, 9, 1, 11)), vec![0]);
}

#[test]
fn hit_items_in_rect_polyline_uses_bbox_of_all_points() {
    let item: Ann = Annotation::Polyline {
        points: vec![(0, 0), (10, 0), (10, 10)],
        color: DEFAULT_COLOR,
        thick: DEFAULT_THICK,
    };
    let items: Vec<Ann> = vec![item];
    // A marquee entirely outside the bbox (0,0)-(10,10).
    assert_eq!(
        sweep(&items, (20, 20, 30, 30)),
        Vec::<usize>::new()
    );
    // A marquee overlapping the bbox.
    assert_eq!(sweep(&items, (5, 5, 15, 15)), vec![0]);
}

#[test]
fn image_bbox_uses_display_size() {
    let a = image_item((10, 20), 30, 40);
    assert_eq!(tight(&a), (10, 20, 40, 60));
}

#[test]
fn annotations_bounds_covers_all_items() {
    let items: Vec<Ann> = vec![image_item((0, 0), 100, 50), rect_item((-10, 20, 40, 200))];
    // x: -10..100, y: 0..200, plus rect_item's (unfilled, DEFAULT_THICK=4)
    // outline padding (pad=2).
    assert_eq!(all_bounds(&items), Some((-12, 0, 100, 202)));
    assert_eq!(all_bounds(&Vec::new()), None);
}

#[test]
fn selection_bounds_covers_only_the_selected_subset() {
    let items: Vec<Ann> = vec![
        image_item((0, 0), 100, 50),
        rect_item((-10, 20, 40, 200)),
        image_item((1000, 1000), 10, 10), // not selected
    ];
    // Used as the group-transform reference (the selection outline's
    // bounding rect), so unlike annotations_bounds (for export, with
    // line-padding included), this stays the tight item_bbox range.
    assert_eq!(
        chosen_bounds(&items, &[0, 1]),
        Some((-10, 0, 100, 200))
    );
    assert_eq!(
        chosen_bounds(&items, &[2]),
        Some((1000, 1000, 1010, 1010))
    );
    assert_eq!(chosen_bounds(&items, &[]), None);
}

#[test]
fn common_rotation_matches_when_all_selected_rects_agree() {
    let a: Ann = Annotation::Rect {
        r: (0.0, 0.0, 10.0, 10.0),
        color: DEFAULT_COLOR,
        thick: DEFAULT_THICK,
        rot: 0.3,
        filled: false,
    };
    let items: Vec<Ann> = vec![a.clone(), a];
    assert!((common_rotation(&items, &[0, 1], 0.0, &same_angle) - 0.3).abs() < 1e-9);
}

#[test]
fn common_rotation_falls_back_to_zero_when_rotations_differ() {
    let a: Ann = Annotation::Rect {
        r: (0.0, 0.0, 10.0, 10.0),
        color: DEFAULT_COLOR,
        thick: DEFAULT_THICK,
        rot: 0.3,
        filled: false,
    };
    let b: Ann = Annotation::Rect {
        r: (20.0, 0.0, 30.0, 10.0),
        color: DEFAULT_COLOR,
        thick: DEFAULT_THICK,
        rot: 0.5,
        filled: false,
    };
    let items: Vec<Ann> = vec![a, b];
    assert_eq!(common_rotation(&items, &[0, 1], 0.0, &same_angle), 0.0);
}

#[test]
fn common_rotation_treats_non_rotatable_items_as_effectively_unrotated() {
    // Types without a rotation field, like Arrow/Guide, are treated as
    // agreeing at an effective rotation of 0.0 (Image/Text are excluded
    // here since they became rotatable).
    let items: Vec<Ann> = vec![
        Annotation::Arrow {
            a: (0, 0),
            b: (10, 0),
            color: DEFAULT_COLOR,
            thick: DEFAULT_THICK,
        },
        Annotation::Guide { r: (0, 0, 10, 10) },
    ];
    assert_eq!(common_rotation(&items, &[0, 1], 0.0, &same_angle), 0.0);
}

#[test]
fn common_rotation_considers_ellipse_rotation_too() {
    // Ellipse, like Rect, has rotation, so it's reflected in the effective rotation.
    let a: Ann = Annotation::Ellipse {
        r: (0.0, 0.0, 10.0, 10.0),
        color: DEFAULT_COLOR,
        thick: DEFAULT_THICK,
        rot: 0.4,
        filled: false,
    };
    let items: Vec<Ann> = vec![a.clone(), a];
    assert!((common_rotation(&items, &[0, 1], 0.0, &same_angle) - 0.4).abs() < 1e-9);
}

#[test]
fn common_rotation_considers_image_and_text_rotation_too() {
    // Image/Text have also become rotatable, so it's reflected in the effective rotation.
    let img: Ann = Annotation::Image {
        r: (0.0, 0.0, 10.0, 10.0),
        src_w: 2,
        src_h: 2,
        pixels: Rc::new(vec![1, 2, 3, 4]),
        rot: 0.4,
    };
    let txt: Ann = Annotation::Text {
        pos: (0, 0),
        text: "hi".into(),
        color: DEFAULT_COLOR,
        size: 20.0,
        rot: 0.4,
    };
    let items: Vec<Ann> = vec![img, txt];
    assert!((common_rotation(&items, &[0, 1], 0.0, &same_angle) - 0.4).abs() < 1e-9);
}

#[test]
fn scale_annotation_rotated_matches_scale_annotation_when_unrotated() {
    let orig_rect = (0.0, 0.0, 10.0, 10.0);
    let new_rect = (0.0, 0.0, 20.0, 30.0);
    let item: Ann = Annotation::Ellipse {
        r: (2.0, 2.0, 8.0, 8.0),
        color: DEFAULT_COLOR,
        thick: DEFAULT_THICK,
        rot: 0.0,
        filled: false,
    };
    let via_rotated = stretch_rotated(&item, orig_rect, new_rect, 0.0);
    let via_plain = stretch(&item, (0, 0, 10, 10), (0, 0, 20, 30));
    match (via_rotated, via_plain) {
        (Annotation::Ellipse { r: r1, .. }, Annotation::Ellipse { r: r2, .. }) => {
            assert_eq!(r1, r2)
        }
        _ => panic!("a Ellipse was expected"),
    }
}

#[test]
fn scale_annotation_rotated_keeps_opposite_corner_fixed_in_world_space() {
    // Resizing a rotated bounding rect should still leave the opposite
    // corner's (TopLeft) world coordinates unchanged (same
    // verification approach as Rect's own resize_rotated_rect).
    let orig_rect = (0.0, 0.0, 40.0, 20.0);
    let rot = 0.4_f64;
    let anchor_world_before = rotate_point((0.0, 0.0), rect_center(orig_rect), rot);

    let new_rect = resize_rotated_rect(orig_rect, Handle::BottomRight, (90.0, 70.0), rot);

    let item: Ann = Annotation::Rect {
        r: orig_rect,
        color: DEFAULT_COLOR,
        thick: DEFAULT_THICK,
        rot,
        filled: false,
    };
    let scaled = stretch_rotated(&item, orig_rect, new_rect, rot);
    let Annotation::Rect {
        r: new_r,
        rot: new_rot,
        ..
    } = scaled
    else {
        panic!("a Rect was expected");
    };
    assert_eq!(new_rot, rot, "resizing a group keeps the angle");

    let anchor_world_after = rotate_point((new_r.0, new_r.1), rect_center(new_r), new_rot);
    assert!(
        (anchor_world_before.0 - anchor_world_after.0).abs() < 1e-6
            && (anchor_world_before.1 - anchor_world_after.1).abs() < 1e-6,
        "before={anchor_world_before:?} after={anchor_world_after:?}"
    );
}

#[test]
fn scale_annotation_rotated_keeps_opposite_corner_fixed_in_world_space_for_ellipse() {
    // The exact same verification as Rect, done for Ellipse too (both
    // go through the same transform_rotated_corners helper, so they
    // should behave the same).
    let orig_rect = (0.0, 0.0, 40.0, 20.0);
    let rot = 0.4_f64;
    let anchor_world_before = rotate_point((0.0, 0.0), rect_center(orig_rect), rot);

    let new_rect = resize_rotated_rect(orig_rect, Handle::BottomRight, (90.0, 70.0), rot);

    let item: Ann = Annotation::Ellipse {
        r: orig_rect,
        color: DEFAULT_COLOR,
        thick: DEFAULT_THICK,
        rot,
        filled: false,
    };
    let scaled = stretch_rotated(&item, orig_rect, new_rect, rot);
    let Annotation::Ellipse {
        r: new_r,
        rot: new_rot,
        ..
    } = scaled
    else {
        panic!("a Ellipse was expected");
    };
    assert_eq!(new_rot, rot, "resizing a group keeps the angle");

    let anchor_world_after = rotate_point((new_r.0, new_r.1), rect_center(new_r), new_rot);
    assert!(
        (anchor_world_before.0 - anchor_world_after.0).abs() < 1e-6
            && (anchor_world_before.1 - anchor_world_after.1).abs() < 1e-6,
        "before={anchor_world_before:?} after={anchor_world_after:?}"
    );
}

#[test]
fn scale_annotation_rotated_keeps_opposite_corner_fixed_in_world_space_for_image() {
    // The exact same verification as Rect/Ellipse, done for Image too
    // (all go through the same transform_rotated_corners helper, so
    // they should behave the same).
    let orig_rect = (0.0, 0.0, 40.0, 20.0);
    let rot = 0.4_f64;
    let anchor_world_before = rotate_point((0.0, 0.0), rect_center(orig_rect), rot);

    let new_rect = resize_rotated_rect(orig_rect, Handle::BottomRight, (90.0, 70.0), rot);

    let item: Ann = Annotation::Image {
        r: orig_rect,
        src_w: 2,
        src_h: 2,
        pixels: Rc::new(vec![1, 2, 3, 4]),
        rot,
    };
    let scaled = stretch_rotated(&item, orig_rect, new_rect, rot);
    let Annotation::Image {
        r: new_r,
        rot: new_rot,
        ..
    } = scaled
    else {
        panic!("a Image was expected");
    };
    assert_eq!(new_rot, rot, "resizing a group keeps the angle");

    let anchor_world_after = rotate_point((new_r.0, new_r.1), rect_center(new_r), new_rot);
    assert!(
        (anchor_world_before.0 - anchor_world_after.0).abs() < 1e-6
            && (anchor_world_before.1 - anchor_world_after.1).abs() < 1e-6,
        "before={anchor_world_before:?} after={anchor_world_after:?}"
    );
}

#[test]
fn guide_bounds_finds_the_only_guide_and_normalizes_it() {
    let items: Vec<Ann> = vec![
        rect_item((0, 0, 10, 10)),
        Annotation::Guide { r: (40, 30, 5, 8) }, // unnormalized (x0>x1, y0>y1)
        image_item((100, 100), 20, 20),
    ];
    assert_eq!(guide_bounds(&items), Some((5, 8, 40, 30)));
}

#[test]
fn guide_bounds_none_when_no_guide_present() {
    let items: Vec<Ann> = vec![rect_item((0, 0, 10, 10)), image_item((0, 0), 20, 20)];
    assert_eq!(guide_bounds(&items), None);
    assert_eq!(guide_bounds(&Vec::<Ann>::new()), None);
}

#[test]
fn translate_image_shifts_pos_keeps_pixels() {
    let a = image_item((10, 20), 30, 40);
    match translate_annotation(&a, 5, -3, &shift) {
        Annotation::Image { r, pixels, .. } => {
            assert_eq!(r, (15.0, 17.0, 45.0, 57.0));
            assert_eq!(&*pixels, &[1, 2, 3, 4]);
        }
        _ => panic!("a Image was expected"),
    }
}

#[test]
fn translate_annotation_mosaic_shifts_r_keeps_rot_and_block() {
    let a: Ann = Annotation::Mosaic {
        r: (10.0, 20.0, 30.0, 40.0),
        rot: 0.3,
        block: 12.0,
        mode: MosaicMode::Pixelate,
        seed: 42,
    };
    match translate_annotation(&a, 5, -3, &shift) {
        Annotation::Mosaic {
            r,
            rot,
            block,
            mode,
            seed,
        } => {
            assert_eq!(r, (15.0, 17.0, 35.0, 37.0));
            assert_eq!(rot, 0.3);
            assert_eq!(block, 12.0);
            assert_eq!(mode, MosaicMode::Pixelate);
            assert_eq!(seed, 42);
        }
        _ => panic!("a Mosaic was expected"),
    }
}

#[test]
fn scale_annotation_mosaic_maps_r_keeps_block() {
    let a: Ann = Annotation::Mosaic {
        r: (0.0, 0.0, 10.0, 10.0),
        rot: 0.0,
        block: 8.0,
        mode: MosaicMode::Blur,
        seed: 7,
    };
    match stretch(&a, (0, 0, 10, 10), (0, 0, 20, 20)) {
        Annotation::Mosaic {
            r,
            block,
            mode,
            seed,
            ..
        } => {
            assert_eq!(r, (0.0, 0.0, 20.0, 20.0));
            assert_eq!(block, 8.0);
            assert_eq!(mode, MosaicMode::Blur);
            assert_eq!(seed, 7);
        }
        _ => panic!("a Mosaic was expected"),
    }
}

#[test]
fn scale_annotation_rotated_mosaic_keeps_opposite_corner_fixed_in_world_space() {
    let a: Ann = Annotation::Mosaic {
        r: (0.0, 0.0, 10.0, 10.0),
        rot: 0.0,
        block: 8.0,
        mode: MosaicMode::Pixelate,
        seed: 3,
    };
    let orig = (0.0, 0.0, 10.0, 10.0);
    let dragged = (0.0, 0.0, 20.0, 10.0);
    match stretch_rotated(&a, orig, dragged, 0.0) {
        Annotation::Mosaic {
            r,
            rot,
            block,
            mode,
            seed,
        } => {
            assert_eq!(r, (0.0, 0.0, 20.0, 10.0));
            assert_eq!(rot, 0.0);
            assert_eq!(block, 8.0);
            assert_eq!(mode, MosaicMode::Pixelate);
            assert_eq!(seed, 3);
        }
        _ => panic!("a Mosaic was expected"),
    }
}

#[test]
fn rotate_annotation_around_mosaic_spins_r_and_adds_delta_to_rot() {
    let a: Ann = Annotation::Mosaic {
        r: (0.0, 0.0, 10.0, 10.0),
        rot: 0.0,
        block: 8.0,
        mode: MosaicMode::Blur,
        seed: 99,
    };
    let center = (5.0, 5.0);
    match turn(&a, center, std::f64::consts::FRAC_PI_2) {
        Annotation::Mosaic {
            r,
            rot,
            block,
            mode,
            seed,
        } => {
            // Even after a 90° rotation, since it's around the center, the rect itself (corner coordinates) is unchanged.
            assert_eq!(r, (0.0, 0.0, 10.0, 10.0));
            assert!((rot - std::f64::consts::FRAC_PI_2).abs() < 1e-9);
            assert_eq!(block, 8.0);
            assert_eq!(mode, MosaicMode::Blur);
            assert_eq!(seed, 99);
        }
        _ => panic!("a Mosaic was expected"),
    }
}

#[test]
fn item_bbox_mosaic_rotated_returns_aabb_of_corners() {
    let flat = mosaic_item((0, 0, 40, 20));
    let (fx0, fy0, fx1, fy1) = tight(&flat);

    let rotated: Ann = Annotation::Mosaic {
        r: (0.0, 0.0, 40.0, 20.0),
        rot: std::f64::consts::FRAC_PI_4,
        block: DEFAULT_BLOCK,
        mode: MosaicMode::Pixelate,
        seed: 0,
    };
    let (rx0, ry0, rx1, ry1) = tight(&rotated);

    assert!(rx1 - rx0 > fx1 - fx0 || ry1 - ry0 > fy1 - fy0);
    assert_eq!((fx0 + fx1) / 2, (rx0 + rx1) / 2);
    assert_eq!((fy0 + fy1) / 2, (ry0 + ry1) / 2);
}

#[test]
fn item_export_bbox_mosaic_matches_item_bbox_since_it_has_no_stroke() {
    // Mosaic has no thickness, so its export bbox should match the regular bbox.
    let a = mosaic_item((5, 5, 35, 35));
    assert_eq!(tight(&a), padded(&a));
}

#[test]
fn compose_rgba_marks_sentinel_transparent() {
    // pixel 0: drawn black (stays opaque), pixel 1: sentinel (transparent), pixel 2: colored (opaque).
    let color = [0x0000_0000, 0x0011_2233, 0x00E0_3030];
    let mask = [0x0000_0000, EXPORT_SENTINEL, 0x00E0_3030];
    let rgba = compose_rgba(&color, &mask);
    assert_eq!(&rgba[0..4], &[0, 0, 0, 255]); // a black item isn't made transparent
    assert_eq!(&rgba[4..8], &[0, 0, 0, 0]); // untouched is transparent
    assert_eq!(&rgba[8..12], &[0xE0, 0x30, 0x30, 255]);
}

#[test]
fn translate_annotation_preserves_style() {
    let a: Ann = Annotation::Rect {
        r: (10.0, 20.0, 30.0, 40.0),
        color: 0x0012_3456,
        thick: 7,
        rot: 0.3,
        filled: false,
    };
    match translate_annotation(&a, 5, -3, &shift) {
        Annotation::Rect {
            r,
            color,
            thick,
            rot,
            ..
        } => {
            assert_eq!(r, (15.0, 17.0, 35.0, 37.0));
            assert_eq!(color, 0x0012_3456);
            assert_eq!(thick, 7);
            assert_eq!(rot, 0.3);
        }
        _ => panic!("a Rect was expected"),
    }
}

#[test]
fn translate_annotation_number_marker_shifts_pos_keeps_number_and_size() {
    let a: Ann = Annotation::NumberMarker {
        pos: (10, 20),
        number: 3,
        color: 0x0012_3456,
        size: 8.0,
    };
    match translate_annotation(&a, 5, -3, &shift) {
        Annotation::NumberMarker {
            pos,
            number,
            color,
            size,
        } => {
            assert_eq!(pos, (15, 17));
            assert_eq!(number, 3);
            assert_eq!(color, 0x0012_3456);
            assert_eq!(size, 8.0);
        }
        _ => panic!("a NumberMarker was expected"),
    }
}

#[test]
fn scale_annotation_number_marker_maps_pos_and_scales_size() {
    let a: Ann = Annotation::NumberMarker {
        pos: (10, 10),
        number: 1,
        color: DEFAULT_COLOR,
        size: 10.0,
    };
    // A bounding-rect transform that scales up 2x.
    let scaled = stretch(&a, (0, 0, 10, 10), (0, 0, 20, 20));
    match scaled {
        Annotation::NumberMarker { pos, size, .. } => {
            assert_eq!(pos, (20, 20));
            assert_eq!(size, 20.0);
        }
        _ => panic!("a NumberMarker was expected"),
    }
}

#[test]
fn scale_annotation_rotated_number_marker_matches_scale_annotation_when_unrotated() {
    let a: Ann = Annotation::NumberMarker {
        pos: (10, 10),
        number: 1,
        color: DEFAULT_COLOR,
        size: 10.0,
    };
    let plain = stretch(&a, (0, 0, 10, 10), (0, 0, 20, 20));
    let rotated =
        stretch_rotated(&a, (0.0, 0.0, 10.0, 10.0), (0.0, 0.0, 20.0, 20.0), 0.0);
    match (plain, rotated) {
        (
            Annotation::NumberMarker {
                pos: p1, size: s1, ..
            },
            Annotation::NumberMarker {
                pos: p2, size: s2, ..
            },
        ) => {
            assert_eq!(p1, p2);
            assert_eq!(s1, s2);
        }
        _ => panic!("a NumberMarker was expected"),
    }
}

#[test]
fn rotate_annotation_around_number_marker_only_repositions_pos() {
    let a: Ann = Annotation::NumberMarker {
        pos: (10, 0),
        number: 1,
        color: DEFAULT_COLOR,
        size: 5.0,
    };
    // A point in the +x direction from center (0,0), rotated 90°, ends up in the +y direction.
    match turn(&a, (0.0, 0.0), std::f64::consts::FRAC_PI_2) {
        Annotation::NumberMarker {
            pos, number, size, ..
        } => {
            assert_eq!(pos, (0, 10));
            assert_eq!(number, 1);
            assert_eq!(size, 5.0);
        }
        _ => panic!("a NumberMarker was expected"),
    }
}

#[test]
fn next_marker_number_starts_at_1_and_continues_from_existing_max() {
    assert_eq!(next_marker_number(&Vec::<Ann>::new()), 1);
    let items: Vec<Ann> = vec![
        Annotation::NumberMarker {
            pos: (0, 0),
            number: 1,
            color: DEFAULT_COLOR,
            size: 5.0,
        },
        Annotation::NumberMarker {
            pos: (0, 0),
            number: 3,
            color: DEFAULT_COLOR,
            size: 5.0,
        },
        Annotation::Rect {
            r: (0.0, 0.0, 1.0, 1.0),
            color: DEFAULT_COLOR,
            thick: DEFAULT_THICK,
            rot: 0.0,
            filled: false,
        },
    ];
    assert_eq!(next_marker_number(&items), 4);
}

#[test]
fn contrast_text_color_picks_black_on_light_and_white_on_dark() {
    assert_eq!(contrast_text_color(0x00FF_FFFF), 0x0000_0000);
    assert_eq!(contrast_text_color(0x0000_0000), 0x00FF_FFFF);
}

#[test]
fn translate_annotation_polyline_shifts_all_points_equally() {
    let a: Ann = Annotation::Polyline {
        points: vec![(10, 20), (30, 40), (50, 20)],
        color: 0x0012_3456,
        thick: 7,
    };
    match translate_annotation(&a, 5, -3, &shift) {
        Annotation::Polyline {
            points,
            color,
            thick,
        } => {
            assert_eq!(points, vec![(15, 17), (35, 37), (55, 17)]);
            assert_eq!(color, 0x0012_3456);
            assert_eq!(thick, 7);
        }
        _ => panic!("a Polyline was expected"),
    }
}

#[test]
fn scale_annotation_keeps_anchor_corner_fixed_and_scales_proportionally() {
    // Bounding rect (0,0,10,10) -> (0,0,20,30) (top-left is the fixed anchor, width 2x, height 3x).
    let orig_rect = (0, 0, 10, 10);
    let new_rect = (0, 0, 20, 30);

    // Ellipse: each coordinate scales proportionally by sx=2, sy=3.
    let ellipse: Ann = Annotation::Ellipse {
        r: (2.0, 2.0, 8.0, 8.0),
        color: DEFAULT_COLOR,
        thick: DEFAULT_THICK,
        rot: 0.0,
        filled: false,
    };
    match stretch(&ellipse, orig_rect, new_rect) {
        Annotation::Ellipse { r, .. } => assert_eq!(r, (4.0, 6.0, 16.0, 24.0)),
        _ => panic!("a Ellipse was expected"),
    }

    // Rect: transforms proportionally while staying f64; rot is unchanged.
    let rect: Ann = Annotation::Rect {
        r: (2.0, 2.0, 8.0, 8.0),
        color: DEFAULT_COLOR,
        thick: DEFAULT_THICK,
        rot: 0.5,
        filled: false,
    };
    match stretch(&rect, orig_rect, new_rect) {
        Annotation::Rect { r, rot, .. } => {
            assert_eq!(r, (4.0, 6.0, 16.0, 24.0));
            assert_eq!(rot, 0.5);
        }
        _ => panic!("a Rect was expected"),
    }

    // Image: like Rect, r transforms proportionally.
    let image: Ann = Annotation::Image {
        r: (0.0, 0.0, 10.0, 10.0),
        src_w: 10,
        src_h: 10,
        pixels: Rc::new(vec![0; 400]),
        rot: 0.0,
    };
    match stretch(&image, orig_rect, new_rect) {
        Annotation::Image { r, .. } => assert_eq!(r, (0.0, 0.0, 20.0, 30.0)),
        _ => panic!("a Image was expected"),
    }
}

#[test]
fn scale_annotation_falls_back_to_unit_scale_on_zero_width_axis() {
    // Even when the selection's bounding rect is a vertical line (width 0), no panic or division by zero.
    let orig_rect = (5, 0, 5, 10);
    let new_rect = (5, 0, 5, 40);
    let a: Ann = Annotation::Arrow {
        a: (5, 2),
        b: (5, 8),
        color: DEFAULT_COLOR,
        thick: DEFAULT_THICK,
    };
    match stretch(&a, orig_rect, new_rect) {
        Annotation::Arrow { a, b, .. } => {
            // The x axis (width 0) stays 1:1, and only the y axis scales 4x.
            assert_eq!(a, (5, 8));
            assert_eq!(b, (5, 32));
        }
        _ => panic!("a Arrow was expected"),
    }
}

#[test]
fn scale_annotation_polyline_scales_all_points_proportionally() {
    let orig_rect = (0, 0, 10, 10);
    let new_rect = (0, 0, 20, 30);
    let a: Ann = Annotation::Polyline {
        points: vec![(2, 2), (8, 8), (2, 8)],
        color: DEFAULT_COLOR,
        thick: DEFAULT_THICK,
    };
    match stretch(&a, orig_rect, new_rect) {
        Annotation::Polyline { points, .. } => {
            assert_eq!(points, vec![(4, 6), (16, 24), (4, 24)]);
        }
        _ => panic!("a Polyline was expected"),
    }
}

#[test]
fn scale_annotation_rotated_polyline_matches_scale_annotation_when_unrotated() {
    let orig_rect = (0.0, 0.0, 10.0, 10.0);
    let new_rect = (0.0, 0.0, 20.0, 30.0);
    let item: Ann = Annotation::Polyline {
        points: vec![(2, 2), (8, 8)],
        color: DEFAULT_COLOR,
        thick: DEFAULT_THICK,
    };
    let via_rotated = stretch_rotated(&item, orig_rect, new_rect, 0.0);
    let via_plain = stretch(&item, (0, 0, 10, 10), (0, 0, 20, 30));
    match (via_rotated, via_plain) {
        (Annotation::Polyline { points: p1, .. }, Annotation::Polyline { points: p2, .. }) => {
            assert_eq!(p1, p2)
        }
        _ => panic!("a Polyline was expected"),
    }
}

#[test]
fn rotate_annotation_around_spins_rect_and_arrow_but_only_repositions_others() {
    let center = (0.0, 0.0);
    let delta = std::f64::consts::FRAC_PI_2;

    // Rect: the center orbits, and rot increases by delta.
    let rect: Ann = Annotation::Rect {
        r: (5.0, -5.0, 15.0, 5.0), // center (10,0)
        color: DEFAULT_COLOR,
        thick: DEFAULT_THICK,
        rot: 0.1,
        filled: false,
    };
    match turn(&rect, center, delta) {
        Annotation::Rect { r, rot, .. } => {
            let new_center = ((r.0 + r.2) / 2.0, (r.1 + r.3) / 2.0);
            assert!((new_center.0 - 0.0).abs() < 1e-6, "cx={}", new_center.0);
            assert!((new_center.1 - 10.0).abs() < 1e-6, "cy={}", new_center.1);
            assert!((rot - (0.1 + delta)).abs() < 1e-9);
        }
        _ => panic!("a Rect was expected"),
    }

    // Arrow: both endpoints orbit the center individually (orientation rotates correctly too).
    let arrow: Ann = Annotation::Arrow {
        a: (10, 0),
        b: (20, 0),
        color: DEFAULT_COLOR,
        thick: DEFAULT_THICK,
    };
    match turn(&arrow, center, delta) {
        Annotation::Arrow { a, b, .. } => {
            assert_eq!(a, (0, 10));
            assert_eq!(b, (0, 20));
        }
        _ => panic!("a Arrow was expected"),
    }

    // Polyline: like Arrow, every point orbits the center individually (has no `rot`).
    let polyline: Ann = Annotation::Polyline {
        points: vec![(10, 0), (20, 0), (20, 10)],
        color: DEFAULT_COLOR,
        thick: DEFAULT_THICK,
    };
    match turn(&polyline, center, delta) {
        Annotation::Polyline { points, .. } => {
            assert_eq!(points, vec![(0, 10), (0, 20), (-10, 20)]);
        }
        _ => panic!("a Polyline was expected"),
    }

    // Ellipse/Image: like Rect, the center orbits and rot increases by
    // delta.
    let ellipse: Ann = Annotation::Ellipse {
        r: (5.0, -5.0, 15.0, 5.0), // center (10,0)
        color: DEFAULT_COLOR,
        thick: DEFAULT_THICK,
        rot: 0.1,
        filled: false,
    };
    match turn(&ellipse, center, delta) {
        Annotation::Ellipse { r, rot, .. } => {
            let new_center = ((r.0 + r.2) / 2.0, (r.1 + r.3) / 2.0);
            assert!((new_center.0 - 0.0).abs() < 1e-6, "cx={}", new_center.0);
            assert!((new_center.1 - 10.0).abs() < 1e-6, "cy={}", new_center.1);
            assert!((rot - (0.1 + delta)).abs() < 1e-9);
        }
        _ => panic!("a Ellipse was expected"),
    }

    let image: Ann = Annotation::Image {
        r: (5.0, -5.0, 15.0, 5.0), // center (10,0)
        src_w: 10,
        src_h: 10,
        pixels: Rc::new(vec![0; 400]),
        rot: 0.1,
    };
    match turn(&image, center, delta) {
        Annotation::Image { r, rot, .. } => {
            let new_center = ((r.0 + r.2) / 2.0, (r.1 + r.3) / 2.0);
            assert!((new_center.0 - 0.0).abs() < 1e-6, "cx={}", new_center.0);
            assert!((new_center.1 - 10.0).abs() < 1e-6, "cy={}", new_center.1);
            assert!((rot - (0.1 + delta)).abs() < 1e-9);
        }
        _ => panic!("a Image was expected"),
    }

    // Text: its own rot also increases by delta (its local rect is
    // built on demand from a font measurement, so only the rot update
    // is verified here).
    let text_ann: Ann = Annotation::Text {
        pos: (10, -5),
        text: String::new(),
        color: DEFAULT_COLOR,
        size: 10.0,
        rot: 0.1,
    };
    match turn(&text_ann, center, delta) {
        Annotation::Text { rot, .. } => {
            assert!((rot - (0.1 + delta)).abs() < 1e-9);
        }
        _ => panic!("a Text was expected"),
    }
}

#[test]
fn reorder_selection_moves_whole_set_forward_when_room_exists() {
    let mut items: Vec<Ann> = (0..7).map(|i| rect_item((i, 0, i + 1, 1))).collect();
    let selected = reorder_selection(&mut items, &[2, 3, 5], true);
    assert_eq!(selected, vec![3, 4, 6]);
}

#[test]
fn reorder_selection_moves_whole_set_backward_when_room_exists() {
    let mut items: Vec<Ann> = (0..7).map(|i| rect_item((i, 0, i + 1, 1))).collect();
    let selected = reorder_selection(&mut items, &[2, 3, 5], false);
    assert_eq!(selected, vec![1, 2, 4]);
}

#[test]
fn reorder_selection_adjacent_pair_moves_as_a_block() {
    let mut items: Vec<Ann> = (0..5).map(|i| rect_item((i, 0, i + 1, 1))).collect();
    let selected = reorder_selection(&mut items, &[2, 3], true);
    assert_eq!(selected, vec![3, 4]);
}

#[test]
fn reorder_selection_blocked_group_at_boundary_does_not_move() {
    let mut items: Vec<Ann> = (0..5).map(|i| rect_item((i, 0, i + 1, 1))).collect();
    // A group already at the front boundary (3,4 are last) doesn't move further forward.
    let selected = reorder_selection(&mut items, &[3, 4], true);
    assert_eq!(selected, vec![3, 4]);
}

#[test]
fn reorder_selection_single_item_behaves_like_the_old_page_up_down() {
    let mut items: Vec<Ann> = (0..3).map(|i| rect_item((i, 0, i + 1, 1))).collect();
    assert_eq!(reorder_selection(&mut items, &[1], true), vec![2]);
    assert_eq!(reorder_selection(&mut items, &[2], false), vec![1]);
}

#[test]
fn common_style_single_item_is_always_uniform() {
    let a = rect_item((0, 0, 10, 10));
    let (color, thick, size, filled, block, is_blur) = shared_style(
        &[&a],
        (DEFAULT_COLOR, DEFAULT_THICK, 24.0, false, 16.0, false),
    );
    assert_eq!(color, PropVal::Uniform(DEFAULT_COLOR));
    assert_eq!(thick, PropVal::Uniform(DEFAULT_THICK));
    // Rect has no text size/block/blur, so those stay Uniform at their defaults.
    assert_eq!(size, PropVal::Uniform(24.0));
    assert_eq!(filled, PropVal::Uniform(false));
    assert_eq!(block, PropVal::Uniform(16.0));
    assert_eq!(is_blur, PropVal::Uniform(false));
}

#[test]
fn common_style_differing_colors_report_mixed_with_first_as_representative() {
    let a: Ann = Annotation::Rect {
        r: (0.0, 0.0, 10.0, 10.0),
        color: 0x00FF_0000,
        thick: DEFAULT_THICK,
        rot: 0.0,
        filled: false,
    };
    let b: Ann = Annotation::Rect {
        r: (0.0, 0.0, 10.0, 10.0),
        color: 0x0000_FF00,
        thick: DEFAULT_THICK,
        rot: 0.0,
        filled: false,
    };
    let (color, thick, _, _, _, _) = shared_style(
        &[&a, &b],
        (DEFAULT_COLOR, DEFAULT_THICK, 24.0, false, 16.0, false),
    );
    assert_eq!(color, PropVal::Mixed(0x00FF_0000));
    // Thickness agrees, so it stays Uniform.
    assert_eq!(thick, PropVal::Uniform(DEFAULT_THICK));
}

#[test]
fn common_style_reports_mixed_filled_when_rect_and_ellipse_differ() {
    let filled: Ann = Annotation::Rect {
        r: (0.0, 0.0, 10.0, 10.0),
        color: DEFAULT_COLOR,
        thick: DEFAULT_THICK,
        rot: 0.0,
        filled: true,
    };
    let unfilled: Ann = Annotation::Ellipse {
        r: (0.0, 0.0, 10.0, 10.0),
        color: DEFAULT_COLOR,
        thick: DEFAULT_THICK,
        rot: 0.0,
        filled: false,
    };
    let (_, _, _, f, _, _) = shared_style(
        &[&filled, &unfilled],
        (DEFAULT_COLOR, DEFAULT_THICK, 24.0, false, 16.0, false),
    );
    assert_eq!(f, PropVal::Mixed(true));

    // Uniform when they all agree.
    let (_, _, _, f2, _, _) = shared_style(
        &[&filled, &filled],
        (DEFAULT_COLOR, DEFAULT_THICK, 24.0, false, 16.0, false),
    );
    assert_eq!(f2, PropVal::Uniform(true));
}

#[test]
fn common_style_falls_back_to_defaults_when_no_applicable_item() {
    let img: Ann = Annotation::Image {
        r: (0.0, 0.0, 10.0, 10.0),
        src_w: 10,
        src_h: 10,
        pixels: Rc::new(vec![0; 400]),
        rot: 0.0,
    };
    let guide: Ann = Annotation::Guide { r: (0, 0, 10, 10) };
    // When only types without color/thickness are selected, or nothing
    // is selected, everything falls back to Uniform at its default.
    let (color, thick, size, filled, block, is_blur) = shared_style(
        &[&img, &guide],
        (DEFAULT_COLOR, DEFAULT_THICK, 24.0, false, 16.0, false),
    );
    assert_eq!(color, PropVal::Uniform(DEFAULT_COLOR));
    assert_eq!(thick, PropVal::Uniform(DEFAULT_THICK));
    assert_eq!(size, PropVal::Uniform(24.0));
    assert_eq!(filled, PropVal::Uniform(false));
    assert_eq!(block, PropVal::Uniform(16.0));
    assert_eq!(is_blur, PropVal::Uniform(false));

    let (color, thick, size, filled, block, is_blur) = shared_style(
        &[],
        (DEFAULT_COLOR, DEFAULT_THICK, 24.0, false, 16.0, false),
    );
    assert_eq!(color, PropVal::Uniform(DEFAULT_COLOR));
    assert_eq!(thick, PropVal::Uniform(DEFAULT_THICK));
    assert_eq!(size, PropVal::Uniform(24.0));
    assert_eq!(filled, PropVal::Uniform(false));
    assert_eq!(block, PropVal::Uniform(16.0));
    assert_eq!(is_blur, PropVal::Uniform(false));
}

#[test]
fn common_style_reports_mixed_block_when_mosaics_differ_uniform_when_same() {
    let a: Ann = Annotation::Mosaic {
        r: (0.0, 0.0, 10.0, 10.0),
        rot: 0.0,
        block: 8.0,
        mode: MosaicMode::Pixelate,
        seed: 0,
    };
    let b: Ann = Annotation::Mosaic {
        r: (0.0, 0.0, 10.0, 10.0),
        rot: 0.0,
        block: 16.0,
        mode: MosaicMode::Pixelate,
        seed: 0,
    };
    let (_, _, _, _, block, _) = shared_style(
        &[&a, &b],
        (DEFAULT_COLOR, DEFAULT_THICK, 24.0, false, 16.0, false),
    );
    assert_eq!(block, PropVal::Mixed(8.0));

    let (_, _, _, _, block2, _) = shared_style(
        &[&a, &a],
        (DEFAULT_COLOR, DEFAULT_THICK, 24.0, false, 16.0, false),
    );
    assert_eq!(block2, PropVal::Uniform(8.0));
}

#[test]
fn common_style_reports_is_blur_uniform_and_mixed() {
    let pixelate: Ann = Annotation::Mosaic {
        r: (0.0, 0.0, 10.0, 10.0),
        rot: 0.0,
        block: 8.0,
        mode: MosaicMode::Pixelate,
        seed: 0,
    };
    let blur: Ann = Annotation::Mosaic {
        r: (0.0, 0.0, 10.0, 10.0),
        rot: 0.0,
        block: 8.0,
        mode: MosaicMode::Blur,
        seed: 0,
    };
    let (.., is_blur) = shared_style(
        &[&pixelate, &blur],
        (DEFAULT_COLOR, DEFAULT_THICK, 24.0, false, 16.0, false),
    );
    assert_eq!(is_blur, PropVal::Mixed(false));

    let (.., is_blur2) = shared_style(
        &[&blur, &blur],
        (DEFAULT_COLOR, DEFAULT_THICK, 24.0, false, 16.0, false),
    );
    assert_eq!(is_blur2, PropVal::Uniform(true));
}

#[test]
fn boxes_beyond_the_coordinates_are_told() {
    let marker = |x: i64| -> Ann {
        Annotation::NumberMarker {
            pos: (x, 0),
            number: 1,
            color: 0,
            size: 10.0,
        }
    };
    assert!(is_boxable(&marker(0), &outline(&marker(0))));
    assert!(!is_boxable(&marker(i64::MAX - 9), &outline(&marker(0))));
    let line = |x: i64, thick: i64| -> Ann {
        Annotation::Polyline {
            points: vec![(0, 0), (x, 5)],
            color: 0,
            thick,
        }
    };
    let items = vec![marker(0), line(9, 4)];
    assert!(all_drawable(&items, &outlines(&items)));
    assert!(!all_drawable(&items, &outlines(&items[..1])));
    let wide = vec![line(i64::MAX - 1, 4)];
    assert!(is_boxable(&wide[0], &outline(&wide[0])));
    assert!(!all_drawable(&wide, &outlines(&wide)));
    let thick = vec![line(9, i64::MAX)];
    assert!(!all_drawable(&thick, &outlines(&thick)));
}

#[test]
fn the_export_box_holds_a_small_marker() {
    let marker = |size: f32| -> Ann {
        Annotation::NumberMarker {
            pos: (10, 20),
            number: 1,
            color: DEFAULT_COLOR,
            size,
        }
    };
    // Its disc is painted with a radius of 6 at least.
    assert_eq!(tight(&marker(4.0)), (6, 16, 14, 24));
    assert_eq!(padded(&marker(4.0)), (4, 14, 16, 26));
    assert_eq!(padded(&marker(10.0)), (0, 10, 20, 30));
    assert_eq!(padded(&marker(10.5)), (-1, 9, 21, 31));
    // A number wider than the disc counts too.
    let mut wide = outline(&marker(10.0));
    wide.reach = 14;
    assert_eq!(item_export_bbox(&marker(10.0), &wide), (-4, 6, 24, 34));
}
