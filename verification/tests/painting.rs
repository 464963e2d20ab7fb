//! Painting items onto a pixel buffer from what the library says is drawn.

use std::rc::Rc;

use pashari::annotation::{Annotation, MosaicMode};
use pashari::bake::{self, clip_extent, BLUR_KERNEL_RADIUS_MAX};
use pashari::measure::Outline;
use pashari::paint::{
    paint_annotations, paint_one, Layer, OnScreen, PaintOp, GUIDE_COLOR, GUIDE_THICK,
};
use pashari::stroke;

type Ann = Annotation<f64, f32>;

const DEFAULT_COLOR: u32 = 0x00E0_3030;

// ---- A canvas ----

struct Canvas<'a> {
    buf: &'a mut [u32],
    w: usize,
    h: usize,
}

fn blend_pixel(dst: &mut u32, color: u32, coverage: f32) {
    let a = coverage.clamp(0.0, 1.0);
    let d = *dst;
    let mix = |shift: u32| -> u32 {
        let bg = ((d >> shift) & 0xff) as f32;
        let fg = ((color >> shift) & 0xff) as f32;
        (bg * (1.0 - a) + fg * a) as u32
    };
    *dst = (mix(16) << 16) | (mix(8) << 8) | mix(0);
}

impl Canvas<'_> {
    fn blend_i(&mut self, x: i64, y: i64, color: u32, coverage: f32) {
        if x >= 0 && y >= 0 && (x as usize) < self.w && (y as usize) < self.h {
            blend_pixel(
                &mut self.buf[y as usize * self.w + x as usize],
                color,
                coverage,
            );
        }
    }

    fn line(&mut self, x0: i64, y0: i64, x1: i64, y1: i64, th: i64, color: u32) {
        let half = th.max(1) as f64 / 2.0;
        let pad = half.ceil() as i64 + 1;
        let (ax, ay) = (x0 as f64, y0 as f64);
        let (dx, dy) = (x1 as f64 - ax, y1 as f64 - ay);
        let len2 = dx * dx + dy * dy;
        let top = y0.min(y1).saturating_sub(pad).max(0);
        let bottom = y0.max(y1).saturating_add(pad).min(self.h as i64 - 1);
        let left = x0.min(x1).saturating_sub(pad).max(0);
        let right = x0.max(x1).saturating_add(pad).min(self.w as i64 - 1);
        for y in top..=bottom {
            for x in left..=right {
                let (px, py) = (x as f64 - ax, y as f64 - ay);
                let t = if len2 > 0.0 {
                    ((px * dx + py * dy) / len2).clamp(0.0, 1.0)
                } else {
                    0.0
                };
                let d = (px - t * dx).hypot(py - t * dy);
                let coverage = (half + 0.5 - d).clamp(0.0, 1.0) as f32;
                if coverage > 0.0 {
                    self.blend_i(x, y, color, coverage);
                }
            }
        }
    }

    fn fill_circle_f(&mut self, cx: f64, cy: f64, r: f64, color: u32) {
        let top = ((cy - r).floor() as i64 - 1).max(0);
        let bottom = ((cy + r).ceil() as i64 + 1).min(self.h as i64 - 1);
        let left = ((cx - r).floor() as i64 - 1).max(0);
        let right = ((cx + r).ceil() as i64 + 1).min(self.w as i64 - 1);
        for y in top..=bottom {
            for x in left..=right {
                let d = (x as f64 - cx).hypot(y as f64 - cy);
                let coverage = (r + 0.5 - d).clamp(0.0, 1.0) as f32;
                if coverage > 0.0 {
                    self.blend_i(x, y, color, coverage);
                }
            }
        }
    }
}

// ---- Plane geometry ----

fn rect_norm_f64(r: (f64, f64, f64, f64)) -> (f64, f64, f64, f64) {
    (r.0.min(r.2), r.1.min(r.3), r.0.max(r.2), r.1.max(r.3))
}

fn rect_center(r: (f64, f64, f64, f64)) -> (f64, f64) {
    let (x0, y0, x1, y1) = rect_norm_f64(r);
    ((x0 + x1) / 2.0, (y0 + y1) / 2.0)
}

fn rotate_point(p: (f64, f64), c: (f64, f64), ang: f64) -> (f64, f64) {
    let (dx, dy) = (p.0 - c.0, p.1 - c.1);
    let (s, co) = ang.sin_cos();
    (c.0 + dx * co - dy * s, c.1 + dx * s + dy * co)
}

fn rotated_rect_corners(r: (f64, f64, f64, f64), rot: f64) -> [(i64, i64); 4] {
    let (x0, y0, x1, y1) = rect_norm_f64(r);
    let c = rect_center(r);
    [(x0, y0), (x1, y0), (x1, y1), (x0, y1)].map(|(x, y)| {
        let (rx, ry) = rotate_point((x, y), c, rot);
        (rx.round() as i64, ry.round() as i64)
    })
}

fn arrow_head_len(th: i64) -> f64 {
    (th as f64 * 5.0).max(10.0)
}

fn arrow_barb_tips(a: (i64, i64), b: (i64, i64), th: i64) -> Option<[(f64, f64); 2]> {
    let (dx, dy) = ((b.0 - a.0) as f64, (b.1 - a.1) as f64);
    let len = (dx * dx + dy * dy).sqrt();
    if len < 1.0 {
        return None;
    }
    let (ux, uy) = (dx / len, dy / len);
    let head = arrow_head_len(th);
    let ang = 0.5_f64;
    let mut tips = [(0.0, 0.0); 2];
    for (i, &s) in [ang, -ang].iter().enumerate() {
        let (c, sn) = (s.cos(), s.sin());
        let rx = -ux * c - (-uy) * sn;
        let ry = -ux * sn + (-uy) * c;
        tips[i] = (b.0 as f64 + rx * head, b.1 as f64 + ry * head);
    }
    Some(tips)
}

fn composite_over(dst: u32, src: u32) -> u32 {
    let sa = ((src >> 24) & 0xff) as f32 / 255.0;
    if sa <= 0.0 {
        return dst;
    }
    let da = ((dst >> 24) & 0xff) as f32 / 255.0;
    let out_a = sa + da * (1.0 - sa);
    if out_a <= 0.0 {
        return 0;
    }
    let ch = |shift: u32| -> u32 {
        let s = ((src >> shift) & 0xff) as f32;
        let d = ((dst >> shift) & 0xff) as f32;
        ((s * sa + d * da * (1.0 - sa)) / out_a)
            .round()
            .clamp(0.0, 255.0) as u32
    };
    (((out_a * 255.0).round() as u32) << 24) | (ch(16) << 16) | (ch(8) << 8) | ch(0)
}

struct Xform {
    scale: f64,
    ox: f64,
    oy: f64,
}

impl Xform {
    /// A world point on screen.
    fn map(&self, p: (i64, i64)) -> (i64, i64) {
        (
            (self.ox + p.0 as f64 * self.scale) as i64,
            (self.oy + p.1 as f64 * self.scale) as i64,
        )
    }

    /// A thickness on screen.
    fn thick(&self, base: i64) -> i64 {
        (base as f64 * self.scale).round().max(1.0) as i64
    }
}

struct Placed {
    c: (f64, f64),
    half: (f64, f64),
    sin: f64,
    cos: f64,
}

impl Placed {
    /// Where a display rectangle lands on screen, if it has area there.
    ///
    fn new(r: (f64, f64, f64, f64), rot: f64, t: &Xform) -> Option<Placed> {
        let (x0, y0, x1, y1) = rect_norm_f64(r);
        let (cx, cy) = ((x0 + x1) / 2.0, (y0 + y1) / 2.0);
        let half = ((x1 - x0) / 2.0 * t.scale, (y1 - y0) / 2.0 * t.scale);
        if half.0 <= 0.0 || half.1 <= 0.0 {
            return None;
        }
        let (sin, cos) = rot.sin_cos();
        Some(Placed {
            c: (t.ox + cx * t.scale, t.oy + cy * t.scale),
            half,
            sin,
            cos,
        })
    }

    /// The pixels it can reach.
    fn extent(&self) -> ((i64, i64), (i64, i64)) {
        let hw = self.half.0 * self.cos.abs() + self.half.1 * self.sin.abs();
        let hh = self.half.0 * self.sin.abs() + self.half.1 * self.cos.abs();
        (
            ((self.c.0 - hw).floor() as i64, (self.c.1 - hh).floor() as i64),
            ((self.c.0 + hw).ceil() as i64, (self.c.1 + hh).ceil() as i64),
        )
    }

    /// A pixel relative to the center, turned back.
    fn back(&self, x: f64, y: f64) -> (f64, f64) {
        let (dx, dy) = (x - self.c.0, y - self.c.1);
        (
            dx * self.cos + dy * self.sin,
            -dx * self.sin + dy * self.cos,
        )
    }

    /// Whether a pixel is inside.
    fn holds(&self, x: f64, y: f64) -> bool {
        let (ux, uy) = self.back(x, y);
        ux >= -self.half.0 && ux <= self.half.0 && uy >= -self.half.1 && uy <= self.half.1
    }

    /// The nearest source place of a pixel inside.
    fn source(&self, x: f64, y: f64, src: (i64, i64)) -> Option<(i64, i64)> {
        let (ux, uy) = self.back(x, y);
        if ux < -self.half.0 || ux > self.half.0 || uy < -self.half.1 || uy > self.half.1 {
            return None;
        }
        let nx = (ux + self.half.0) * (1.0 / (2.0 * self.half.0));
        let ny = (uy + self.half.1) * (1.0 / (2.0 * self.half.1));
        Some((
            (nx * src.0 as f64).round() as i64,
            (ny * src.1 as f64).round() as i64,
        ))
    }
}

fn paint_image(
    canvas: &mut Canvas,
    r: (f64, f64, f64, f64),
    rot: f64,
    src: (i64, i64),
    pixels: &Vec<u32>,
    t: &Xform,
) {
    if src.0 <= 0 || src.1 <= 0 {
        return;
    }
    let size = (src.0 as usize, src.1 as usize);
    assert!(size.0.checked_mul(size.1) == Some(pixels.len()));
    let placed = match Placed::new(r, rot, t) {
        Some(p) => p,
        None => return,
    };
    let (lo, hi) = placed.extent();
    let (w, h) = (canvas.w, canvas.h);
    let clip = match clip_extent(lo, hi, w, h) {
        Some(c) => c,
        None => return,
    };
    let blend = |dst: u32, color: u32, alpha: u32| {
        let mut out = dst;
        blend_pixel(&mut out, color, alpha as f32 / 255.0);
        out
    };
    let sample = |x: usize, y: usize| placed.source(x as f64, y as f64, src);
    bake::paint_image(canvas.buf, w, h, clip, size, pixels, &sample, &blend);
}

fn paint_mosaic(
    canvas: &mut Canvas,
    r: (f64, f64, f64, f64),
    rot: f64,
    block: f32,
    mode: MosaicMode,
    seed: u32,
    t: &Xform,
) {
    let placed = match Placed::new(r, rot, t) {
        Some(p) => p,
        None => return,
    };
    let (lo, hi) = placed.extent();
    let (w, h) = (canvas.w, canvas.h);
    let clip = match clip_extent(lo, hi, w, h) {
        Some(c) => c,
        None => return,
    };
    let block = ((block as f64).max(1.0) * t.scale).max(1.0);
    let sigma = block / 2.0;
    let radius = ((sigma * 3.0).ceil() as usize).clamp(1, BLUR_KERNEL_RADIUS_MAX);
    let denom = 2.0 * sigma * sigma;
    let mut weights: Vec<f64> = (-(radius as i64)..=radius as i64)
        .map(|i| (-((i * i) as f64) / denom).exp())
        .collect();
    let sum: f64 = weights.iter().sum();
    for v in &mut weights {
        *v /= sum;
    }
    let inside = |x: usize, y: usize| placed.holds(x as f64, y as f64);
    let center = |x: usize, y: usize| {
        let (ux, uy) = placed.back(x as f64, y as f64);
        let bx = (ux / block).floor() * block + block / 2.0;
        let by = (uy / block).floor() * block + block / 2.0;
        (
            (placed.c.0 + bx * placed.cos - by * placed.sin).round() as i64,
            (placed.c.1 + bx * placed.sin + by * placed.cos).round() as i64,
        )
    };
    let jitter = |hash: u64, x: usize, y: usize| {
        let angle = (hash as u32) as f64 / u32::MAX as f64 * std::f64::consts::TAU;
        let frac = (hash >> 32) as u32 as f64 / u32::MAX as f64;
        let dist = frac.sqrt() * sigma;
        (
            (x as f64 + angle.cos() * dist).round() as i64,
            (y as f64 + angle.sin() * dist).round() as i64,
        )
    };
    let mix = |window: Vec<u32>| {
        let channel = |shift: u32| -> u32 {
            let v: f64 = window
                .iter()
                .zip(&weights)
                .map(|(c, wgt)| wgt * ((c >> shift) & 0xff) as f64)
                .sum();
            v.round().clamp(0.0, 255.0) as u32
        };
        (channel(16) << 16) | (channel(8) << 8) | channel(0)
    };
    bake::paint_mosaic(
        canvas.buf, w, h, clip, mode, seed, radius, &inside, &center, &jitter, &mix,
    );
}

fn fill_rotated_rect(canvas: &mut Canvas, p: &Placed, color: u32) {
    let (lo, hi) = p.extent();
    let (w, h) = (canvas.w as i64, canvas.h as i64);
    for y in (lo.1 - 2).max(0)..(hi.1 + 2).min(h) {
        for x in (lo.0 - 2).max(0)..(hi.0 + 2).min(w) {
            let (lx, ly) = p.back(x as f64 + 0.5, y as f64 + 0.5);
            let d = (lx.abs() - p.half.0).max(ly.abs() - p.half.1);
            let coverage = (0.5 - d).clamp(0.0, 1.0) as f32;
            if coverage > 0.0 {
                canvas.blend_i(x, y, color, coverage);
            }
        }
    }
}

fn fill_rotated_ellipse(canvas: &mut Canvas, p: &Placed, color: u32) {
    let (rx, ry) = (p.half.0.max(0.1), p.half.1.max(0.1));
    let (lo, hi) = p.extent();
    let (w, h) = (canvas.w as i64, canvas.h as i64);
    for y in (lo.1 - 2).max(0)..(hi.1 + 2).min(h) {
        for x in (lo.0 - 2).max(0)..(hi.0 + 2).min(w) {
            let (lx, ly) = p.back(x as f64 + 0.5, y as f64 + 0.5);
            let d = ((lx / rx).powi(2) + (ly / ry).powi(2)).sqrt();
            let grad = ((lx / (rx * rx)).powi(2) + (ly / (ry * ry)).powi(2))
                .sqrt()
                .max(1e-6);
            let coverage = ((1.0 - d) / grad).clamp(0.0, 1.0) as f32;
            if coverage > 0.0 {
                canvas.blend_i(x, y, color, coverage);
            }
        }
    }
}

fn draw_ellipse(canvas: &mut Canvas, p: &Placed, rot: f64, th: i64, color: u32) {
    let (rx, ry) = p.half;
    if rx < 0.5 && ry < 0.5 {
        return;
    }
    let steps = ((rx + ry) as usize).clamp(24, 720);
    let mut prev: Option<(i64, i64)> = None;
    for i in 0..=steps {
        let ang = (i as f64 / steps as f64) * std::f64::consts::TAU;
        let (s, co) = ang.sin_cos();
        let (wx, wy) = rotate_point((p.c.0 + rx * co, p.c.1 + ry * s), p.c, rot);
        let q = (wx.round() as i64, wy.round() as i64);
        if let Some(pp) = prev {
            canvas.line(pp.0, pp.1, q.0, q.1, th, color);
            round_join(canvas, q, th, color);
        }
        prev = Some(q);
    }
}

fn round_join(canvas: &mut Canvas, p: (i64, i64), th: i64, color: u32) {
    canvas.fill_circle_f(p.0 as f64, p.1 as f64, th.max(1) as f64 / 2.0, color);
}

fn on_screen(ann: &Ann, t: &Xform, canvas: (usize, usize)) -> OnScreen {
    let mut s = OnScreen {
        points: Vec::new(),
        barbs: None,
        th: 1,
        canvas: (canvas.0 as i64, canvas.1 as i64),
        text: false,
    };
    match ann {
        Annotation::Arrow { a, b, thick, .. } => {
            s.th = t.thick(*thick);
            s.points = vec![t.map(*a), t.map(*b)];
            s.barbs = arrow_barb_tips(s.points[0], s.points[1], s.th).map(|tips| {
                let whole = tips.map(|(x, y)| (x as i64, y as i64));
                (whole[0], whole[1])
            });
        }
        Annotation::Polyline { points, thick, .. } => {
            assert!(points.len() >= 2);
            s.th = t.thick(*thick);
            s.points = points.iter().map(|&p| t.map(p)).collect();
        }
        Annotation::Rect {
            r,
            thick,
            rot,
            filled,
            ..
        } => {
            s.th = t.thick(*thick);
            if !*filled {
                s.points = rotated_rect_corners(*r, *rot)
                    .iter()
                    .map(|&p| t.map(p))
                    .collect();
            }
        }
        Annotation::Ellipse { thick, .. } => s.th = t.thick(*thick),
        Annotation::Text { pos, .. } | Annotation::NumberMarker { pos, .. } => {
            s.points = vec![t.map(*pos)];
        }
        Annotation::Guide { r } => {
            s.th = t.thick(GUIDE_THICK);
            s.points = vec![t.map((r.0, r.1)), t.map((r.2, r.3))];
            let room = 2 * (s.th + 2);
            for p in &s.points {
                assert!(p.0.checked_sub(room).is_some() && p.0.checked_add(room).is_some());
                assert!(p.1.checked_sub(room).is_some() && p.1.checked_add(room).is_some());
            }
        }
        _ => {}
    }
    s
}

fn draw_lines(canvas: &mut Canvas, ops: &[PaintOp]) {
    for op in ops {
        match *op {
            PaintOp::Line { a, b, th, color } => canvas.line(a.0, a.1, b.0, b.1, th, color),
            PaintOp::Join { at, th, color } => round_join(canvas, at, th, color),
            _ => {}
        }
    }
}

fn frame_of(ann: &Ann) -> Option<((f64, f64, f64, f64), f64)> {
    match ann {
        Annotation::Image { r, rot, .. }
        | Annotation::Rect { r, rot, .. }
        | Annotation::Mosaic { r, rot, .. }
        | Annotation::Ellipse { r, rot, .. } => Some((*r, *rot)),
        _ => None,
    }
}

fn show(canvas: &mut Canvas, ann: &Ann, t: &Xform, export: bool) {
    let s = on_screen(ann, t, (canvas.w, canvas.h));
    for op in paint_one(ann, &s, export) {
        let placed = frame_of(ann).and_then(|f| Placed::new(f.0, f.1, t));
        match (op, placed) {
            (PaintOp::FillRect { color }, Some(p)) => fill_rotated_rect(canvas, &p, color),
            (PaintOp::FillOval { color }, Some(p)) => fill_rotated_ellipse(canvas, &p, color),
            (PaintOp::Ring { th, color }, Some(p)) => {
                let rot = frame_of(ann).map_or(0.0, |f| f.1);
                draw_ellipse(canvas, &p, rot, th, color);
            }
            (line, _) => draw_lines(canvas, &[line]),
        }
    }
}

fn show_all(canvas: &mut Canvas, items: &Vec<Ann>, t: &Xform) {
    for layer in paint_annotations(items, None) {
        match layer {
            Layer::Item(i) => show(canvas, &items[i], t, false),
            Layer::Preview => unreachable!(),
        }
    }
}

fn dim_around(canvas: &mut Canvas, guide: Option<(i64, i64, i64, i64)>, t: &Xform) {
    let on_screen = guide.map(|r| {
        let (a, b) = (t.map((r.0, r.1)), t.map((r.2, r.3)));
        (a.0, a.1, b.0, b.1)
    });
    bake::dim_outside_guide(canvas.buf, canvas.w, canvas.h, on_screen);
}

fn ink(points: Vec<(i64, i64)>, thick: i64, color: u32) -> Ann {
    let place = |v: i64| v as f64;
    let render = |w: usize, h: usize, ops: Vec<PaintOp>| {
        let mut buf = vec![0u32; w * h];
        let mut canvas = Canvas {
            buf: &mut buf,
            w,
            h,
        };
        draw_lines(&mut canvas, &ops);
        buf
    };
    stroke::rasterize_freehand(&points, thick, color, 0.0, &place, &render)
}

fn merge(items: Vec<Ann>) -> Ann {
    assert!(items.iter().any(|a| matches!(a, Annotation::Image { .. })));
    let shapes: Vec<Outline> = items
        .iter()
        .map(|a| Outline {
            corners: frame_of(a).map_or([(0, 0); 4], |f| rotated_rect_corners(f.0, f.1)),
            oval: (0, 0, 0, 0),
            radius: 0,
            reach: 0,
            barbs: None,
        })
        .collect();
    let placed = |n: usize, origin: (i64, i64)| {
        let t = Xform {
            scale: 1.0,
            ox: -origin.0 as f64,
            oy: -origin.1 as f64,
        };
        frame_of(&items[n]).and_then(|(r, rot)| Placed::new(r, rot, &t))
    };
    let size_of = |n: usize| match &items[n] {
        Annotation::Image { src_w, src_h, .. } => (*src_w, *src_h),
        _ => (0, 0),
    };
    let extent = |n: usize, origin: (i64, i64)| placed(n, origin).map(|p| p.extent());
    let sample = |n: usize, origin: (i64, i64), x: usize, y: usize| {
        placed(n, origin).and_then(|p| p.source(x as f64, y as f64, size_of(n)))
    };
    let over = |dst: u32, src: u32| composite_over(dst, src);
    let place = |v: i64| v as f64;
    stroke::merge_images(&items, &shapes, 0.0, &place, &extent, &sample, &over)
}

fn checkerboard_buf() -> Vec<u32> {
    let mut buf = vec![0u32; 40 * 40];
    for y in 0..40 {
        for x in 0..40 {
            buf[y * 40 + x] = if (x + y) % 2 == 0 {
                0x00FF_0000
            } else {
                0x0000_00FF
            };
        }
    }
    buf
}

// ---- Tests ----

#[test]
fn draw_ellipse_paints_a_ring_wider_than_tall_for_wide_bbox() {
    const SENTINEL: u32 = 0x0012_3456;
    let ann: Ann = Annotation::Ellipse {
        r: (5.0, 15.0, 35.0, 25.0), // width 30 x height 10.
        color: 0x0000_0000,
        thick: 1,
        rot: 0.0,
        filled: false,
    };
    let t = Xform {
        scale: 1.0,
        ox: 0.0,
        oy: 0.0,
    };
    let mut buf = vec![SENTINEL; 40 * 40];
    {
        let mut canvas = Canvas {
            buf: &mut buf,
            w: 40,
            h: 40,
        };
        show(&mut canvas, &ann, &t, false);
    }
    assert!(buf.iter().any(|&px| px != SENTINEL), "something is drawn");

    let mut min_x = usize::MAX;
    let mut max_x = 0usize;
    let mut min_y = usize::MAX;
    let mut max_y = 0usize;
    for y in 0..40 {
        for x in 0..40 {
            if buf[y * 40 + x] != SENTINEL {
                min_x = min_x.min(x);
                max_x = max_x.max(x);
                min_y = min_y.min(y);
                max_y = max_y.max(y);
            }
        }
    }
    assert!(
        max_x - min_x > max_y - min_y,
        "the ring is wider than tall"
    );
}

#[test]
fn paint_one_filled_rect_paints_solid_interior_unfilled_stays_a_ring() {
    const SENTINEL: u32 = 0x0012_3456;
    let t = Xform {
        scale: 1.0,
        ox: 0.0,
        oy: 0.0,
    };

    let filled: Ann = Annotation::Rect {
        r: (5.0, 5.0, 35.0, 35.0),
        color: 0x0000_0000,
        thick: 1,
        rot: 0.0,
        filled: true,
    };
    let mut buf = vec![SENTINEL; 40 * 40];
    {
        let mut canvas = Canvas {
            buf: &mut buf,
            w: 40,
            h: 40,
        };
        show(&mut canvas, &filled, &t, false);
    }
    assert_ne!(
        buf[20 * 40 + 20],
        SENTINEL,
        "filled paints the center"
    );

    let unfilled: Ann = Annotation::Rect {
        r: (5.0, 5.0, 35.0, 35.0),
        color: 0x0000_0000,
        thick: 1,
        rot: 0.0,
        filled: false,
    };
    let mut buf2 = vec![SENTINEL; 40 * 40];
    {
        let mut canvas = Canvas {
            buf: &mut buf2,
            w: 40,
            h: 40,
        };
        show(&mut canvas, &unfilled, &t, false);
    }
    assert_eq!(
        buf2[20 * 40 + 20],
        SENTINEL,
        "not filled leaves the center"
    );
}

#[test]
fn paint_one_filled_ellipse_paints_solid_interior_unfilled_stays_a_ring() {
    const SENTINEL: u32 = 0x0012_3456;
    let t = Xform {
        scale: 1.0,
        ox: 0.0,
        oy: 0.0,
    };

    let filled: Ann = Annotation::Ellipse {
        r: (5.0, 5.0, 35.0, 35.0),
        color: 0x0000_0000,
        thick: 1,
        rot: 0.0,
        filled: true,
    };
    let mut buf = vec![SENTINEL; 40 * 40];
    {
        let mut canvas = Canvas {
            buf: &mut buf,
            w: 40,
            h: 40,
        };
        show(&mut canvas, &filled, &t, false);
    }
    assert_ne!(
        buf[20 * 40 + 20],
        SENTINEL,
        "filled paints the center"
    );

    let unfilled: Ann = Annotation::Ellipse {
        r: (5.0, 5.0, 35.0, 35.0),
        color: 0x0000_0000,
        thick: 1,
        rot: 0.0,
        filled: false,
    };
    let mut buf2 = vec![SENTINEL; 40 * 40];
    {
        let mut canvas = Canvas {
            buf: &mut buf2,
            w: 40,
            h: 40,
        };
        show(&mut canvas, &unfilled, &t, false);
    }
    assert_eq!(
        buf2[20 * 40 + 20],
        SENTINEL,
        "not filled leaves the center"
    );
}

#[test]
fn paint_image_at_100_percent_zoom_samples_every_column_exactly() {
    // At 100% zoom column dx always samples the same column sx=dx, whatever
    // the float error: the nearest place is rounded, not cut off.
    const SRC_W: usize = 22;
    // A different color per column, so a shift is immediately detectable
    // (top byte set to 0xFF to mark opacity).
    let pixels: Vec<u32> = (0..SRC_W as u32).map(|v| 0xFF00_0000 | v).collect();
    let mut buf = vec![0u32; SRC_W];
    {
        let mut canvas = Canvas {
            buf: &mut buf,
            w: SRC_W,
            h: 1,
        };
        let t = Xform {
            scale: 1.0,
            ox: 0.0,
            oy: 0.0,
        };
        paint_image(
            &mut canvas,
            (0.0, 0.0, SRC_W as f64, 1.0),
            0.0,
            (SRC_W as i64, 1),
            &pixels,
            &t,
        );
    }
    for (x, &px) in buf.iter().enumerate() {
        assert_eq!(px, x as u32, "column {x} shows another column");
    }
}

#[test]
fn paint_image_huge_zoom_clips_to_canvas() {
    // Even at an extreme zoom (dw/dh far larger than the canvas), it
    // should clip and only paint within the canvas — without clipping
    // the iteration count would explode and the test would never finish.
    // Top byte set to 0xFF to mark opacity.
    let pixels = vec![0xFFFF_0000u32, 0xFF00_FF00, 0xFF00_00FF, 0xFFFF_FFFF];
    const SENTINEL: u32 = 0x0012_3456;
    let mut buf = vec![SENTINEL; 4 * 4];
    {
        let mut canvas = Canvas {
            buf: &mut buf,
            w: 4,
            h: 4,
        };
        let t = Xform {
            scale: 100_000.0,
            ox: 0.0,
            oy: 0.0,
        };
        paint_image(&mut canvas, (0.0, 0.0, 2.0, 2.0), 0.0, (2, 2), &pixels, &t);
    }
    // The image covers the origin area, so the whole canvas should be overwritten from the sentinel color.
    assert!(buf.iter().all(|&px| px != SENTINEL));
    assert_eq!(buf[0], 0x00FF_0000); // (0,0) samples the top-left (red) via nearest-neighbor.
}

#[test]
fn paint_image_offscreen_is_skipped() {
    let pixels = vec![0xFFFF_0000u32, 0xFF00_FF00, 0xFF00_00FF, 0xFFFF_FFFF];
    const SENTINEL: u32 = 0x0012_3456;
    let mut buf = vec![SENTINEL; 4 * 4];
    {
        let mut canvas = Canvas {
            buf: &mut buf,
            w: 4,
            h: 4,
        };
        let t = Xform {
            scale: 1.0,
            ox: 0.0,
            oy: 0.0,
        };
        // Placed far outside the canvas's bottom-right.
        paint_image(
            &mut canvas,
            (1000.0, 1000.0, 1002.0, 1002.0),
            0.0,
            (2, 2),
            &pixels,
            &t,
        );
    }
    assert!(buf.iter().all(|&px| px == SENTINEL));
}

#[test]
fn paint_image_rotated_square_is_not_cropped_at_corners() {
    // Rotating a square image by 45° makes the diamond's tips extend
    // beyond the unrotated rect, and they are painted too.
    let pixels = vec![0xFFAA_BBCCu32];
    const SENTINEL: u32 = 0x0012_3456;
    let mut buf = vec![SENTINEL; 40 * 40];
    {
        let mut canvas = Canvas {
            buf: &mut buf,
            w: 40,
            h: 40,
        };
        let t = Xform {
            scale: 1.0,
            ox: 0.0,
            oy: 0.0,
        };
        paint_image(
            &mut canvas,
            (0.0, 0.0, 20.0, 20.0),
            std::f64::consts::FRAC_PI_4,
            (1, 1),
            &pixels,
            &t,
        );
    }
    // A point 12 units from the center (10,10) toward the rotated tip
    // (+x axis). Outside the pre-rotation rect (half-width 10), but
    // should be inside the rotated diamond (half-width ≈14.14).
    assert_eq!(
        buf[10 * 40 + 22],
        0x00AA_BBCC,
        "inside the diamond but not painted"
    );
}

#[test]
fn paint_image_blends_semi_transparent_pixels_and_skips_fully_transparent_ones() {
    // A pasted or dropped image's alpha (the pixels' top byte) blends it
    // with the ground.
    const BG: u32 = 0x0010_2030;
    let mut buf = vec![BG; 3];
    {
        let mut canvas = Canvas {
            buf: &mut buf,
            w: 3,
            h: 1,
        };
        let t = Xform {
            scale: 1.0,
            ox: 0.0,
            oy: 0.0,
        };
        // Column 1: fully opaque white, column 2: semi-transparent
        // (alpha=128) white, column 3: fully transparent white.
        let pixels = vec![0xFFFF_FFFFu32, 0x80FF_FFFF, 0x00FF_FFFF];
        paint_image(&mut canvas, (0.0, 0.0, 3.0, 1.0), 0.0, (3, 1), &pixels, &t);
    }
    assert_eq!(buf[0], 0x00FF_FFFF, "opaque covers the ground");
    assert_eq!(buf[2], BG, "transparent leaves the ground");
    let mixed = buf[1];
    let mix_channel = |bg: u32, fg: u32| -> u32 {
        (bg as f32 * (1.0 - 128.0 / 255.0) + fg as f32 * (128.0 / 255.0)) as u32
    };
    let expect_r = mix_channel((BG >> 16) & 0xff, 0xff);
    let expect_g = mix_channel((BG >> 8) & 0xff, 0xff);
    let expect_b = mix_channel(BG & 0xff, 0xff);
    assert_eq!(
        mixed,
        (expect_r << 16) | (expect_g << 8) | expect_b,
        "translucent mixes with the ground"
    );
}

#[test]
fn paint_mosaic_uniform_block_flattens_interior_to_one_color_and_leaves_outside_untouched() {
    // Applies a large block to a checkerboard background. A block
    // boundary always runs through the rect's center (the local
    // origin), so the whole rect won't be one color, but the quadrant
    // matching the center (here, bottom-right: x and y both >= center)
    // fits entirely within one block, so it should become uniform.
    // Outside the rect (past the checkerboard's boundary) is unchanged.
    let mut buf = vec![0u32; 40 * 40];
    for y in 0..40 {
        for x in 0..40 {
            buf[y * 40 + x] = if (x + y) % 2 == 0 {
                0x00FF_0000
            } else {
                0x0000_00FF
            };
        }
    }
    let t = Xform {
        scale: 1.0,
        ox: 0.0,
        oy: 0.0,
    };
    {
        let mut canvas = Canvas {
            buf: &mut buf,
            w: 40,
            h: 40,
        };
        // Rect: (10,10)-(30,30), center (20,20). With block=100, the
        // bottom-right quadrant [20,30)x[20,30) falls within local
        // coordinates [0,10), so it snaps to the same block.
        paint_mosaic(
            &mut canvas,
            (10.0, 10.0, 30.0, 30.0),
            0.0,
            100.0,
            MosaicMode::Pixelate,
            0,
            &t,
        );
    }
    let inside = buf[25 * 40 + 25];
    for y in 20..30 {
        for x in 20..30 {
            assert_eq!(
                buf[y * 40 + x],
                inside,
                "one block, one color (x={x}, y={y})"
            );
        }
    }
    // Outside the rect (past the checkerboard's boundary) is unchanged.
    assert_eq!(buf[0], 0x00FF_0000, "outside stays as it was");
    assert_eq!(buf[1], 0x0000_00FF, "outside stays as it was");
}

#[test]
fn paint_mosaic_rotated_only_affects_the_rotated_footprint() {
    // Rotating by 45° should change only the interior of the rotated
    // diamond, not the axis-aligned rect area as-is — the corners (of
    // the axis-aligned rect) fall outside the rotated diamond, so they
    // stay unchanged. Against the checkerboard, confirms "repainted"
    // by checking that two adjacent pixels inside the diamond (which
    // would normally have alternating checkerboard colors) become the
    // same color after snapping to the same block.
    let mut buf = vec![0u32; 40 * 40];
    for y in 0..40 {
        for x in 0..40 {
            buf[y * 40 + x] = if (x + y) % 2 == 0 {
                0x00FF_0000
            } else {
                0x0000_00FF
            };
        }
    }
    let t = Xform {
        scale: 1.0,
        ox: 0.0,
        oy: 0.0,
    };
    {
        let mut canvas = Canvas {
            buf: &mut buf,
            w: 40,
            h: 40,
        };
        paint_mosaic(
            &mut canvas,
            (10.0, 10.0, 30.0, 30.0),
            std::f64::consts::FRAC_PI_4,
            4.0,
            MosaicMode::Pixelate,
            0,
            &t,
        );
    }
    // The axis-aligned rect's corner (10,10) is outside the rotated
    // diamond, so it follows the original checkerboard pattern unchanged.
    assert_eq!(
        buf[10 * 40 + 10],
        0x00FF_0000,
        "the corner is outside the diamond"
    );
    // The center (20,20) and its neighbor (21,20) are both inside the
    // diamond. They'd normally alternate colors in the checkerboard,
    // but the mosaic should repaint them to the same block, making
    // them the same color.
    assert_eq!(
        buf[20 * 40 + 20],
        buf[20 * 40 + 21],
        "neighbours in one block share a color"
    );
}

#[test]
fn paint_mosaic_blur_changes_pixels_inside_but_not_outside_the_shape() {
    let mut buf = checkerboard_buf();
    let original_outside = buf[0];
    let t = Xform {
        scale: 1.0,
        ox: 0.0,
        oy: 0.0,
    };
    {
        let mut canvas = Canvas {
            buf: &mut buf,
            w: 40,
            h: 40,
        };
        paint_mosaic(
            &mut canvas,
            (10.0, 10.0, 30.0, 30.0),
            0.0,
            8.0,
            MosaicMode::Blur,
            12345,
            &t,
        );
    }
    // Outside the rect (far top-left) is unchanged.
    assert_eq!(buf[0], original_outside, "outside stays as it was");
    // Inside the rect, the checkerboard's alternating pattern should
    // be smoothed, with at least one case of adjacent pixels matching
    // exactly (evidence of blurring).
    let mut any_smoothed = false;
    for y in 11..29 {
        for x in 11..29 {
            let here = buf[y * 40 + x];
            let right = buf[y * 40 + x + 1];
            // In the original checkerboard, adjacent pixels always
            // differed. If they match after blurring, that's evidence
            // averaging took effect.
            if here == right {
                any_smoothed = true;
            }
        }
    }
    assert!(
        any_smoothed,
        "blurring evens out the pattern"
    );
}

#[test]
fn paint_mosaic_blur_same_seed_is_deterministic() {
    // With the same seed, the output should be exactly identical no
    // matter how many times it's drawn (so redrawing doesn't flicker).
    let base = checkerboard_buf();
    let t = Xform {
        scale: 1.0,
        ox: 0.0,
        oy: 0.0,
    };
    let mut buf1 = base.clone();
    let mut buf2 = base;
    {
        let mut canvas = Canvas {
            buf: &mut buf1,
            w: 40,
            h: 40,
        };
        paint_mosaic(
            &mut canvas,
            (10.0, 10.0, 30.0, 30.0),
            0.0,
            8.0,
            MosaicMode::Blur,
            777,
            &t,
        );
    }
    {
        let mut canvas = Canvas {
            buf: &mut buf2,
            w: 40,
            h: 40,
        };
        paint_mosaic(
            &mut canvas,
            (10.0, 10.0, 30.0, 30.0),
            0.0,
            8.0,
            MosaicMode::Blur,
            777,
            &t,
        );
    }
    assert_eq!(buf1, buf2, "one seed, one result");
}

#[test]
fn paint_mosaic_blur_different_seeds_produce_different_output() {
    // With a different seed, sample positions are random instead of a
    // fixed kernel, so the output should differ even for the same
    // input (this is the property that resists reconstruction).
    let base = checkerboard_buf();
    let t = Xform {
        scale: 1.0,
        ox: 0.0,
        oy: 0.0,
    };
    let mut buf1 = base.clone();
    let mut buf2 = base;
    {
        let mut canvas = Canvas {
            buf: &mut buf1,
            w: 40,
            h: 40,
        };
        paint_mosaic(
            &mut canvas,
            (10.0, 10.0, 30.0, 30.0),
            0.0,
            8.0,
            MosaicMode::Blur,
            1,
            &t,
        );
    }
    {
        let mut canvas = Canvas {
            buf: &mut buf2,
            w: 40,
            h: 40,
        };
        paint_mosaic(
            &mut canvas,
            (10.0, 10.0, 30.0, 30.0),
            0.0,
            8.0,
            MosaicMode::Blur,
            2,
            &t,
        );
    }
    assert_ne!(buf1, buf2, "another seed, another result");
}

#[test]
fn guide_paints_when_live_but_not_when_exporting() {
    const SENTINEL: u32 = 0x0012_3456;
    // The border is drawn offset outside the boundary, so leave enough margin to stay within the canvas.
    let ann: Ann = Annotation::Guide {
        r: (10, 10, 20, 20),
    };
    let t = Xform {
        scale: 1.0,
        ox: 0.0,
        oy: 0.0,
    };

    let mut buf = vec![SENTINEL; 40 * 40];
    {
        let mut canvas = Canvas {
            buf: &mut buf,
            w: 40,
            h: 40,
        };
        show(&mut canvas, &ann, &t, false);
    }
    assert!(
        buf.iter().any(|&px| px != SENTINEL),
        "drawn on screen"
    );

    let mut buf = vec![SENTINEL; 40 * 40];
    {
        let mut canvas = Canvas {
            buf: &mut buf,
            w: 40,
            h: 40,
        };
        show(&mut canvas, &ann, &t, true);
    }
    assert!(
        buf.iter().all(|&px| px == SENTINEL),
        "not drawn on export"
    );
}

#[test]
fn guide_border_does_not_intrude_into_export_area() {
    let ann: Ann = Annotation::Guide { r: (2, 2, 6, 6) };
    let t = Xform {
        scale: 1.0,
        ox: 0.0,
        oy: 0.0,
    };
    let mut buf = vec![0x00FF_FFFFu32; 10 * 10];
    {
        let mut canvas = Canvas {
            buf: &mut buf,
            w: 10,
            h: 10,
        };
        show(&mut canvas, &ann, &t, false);
    }
    // The border doesn't overflow into the export bounds (interior) [2,6)x[2,6).
    for y in 2..6 {
        for x in 2..6 {
            assert_eq!(
                buf[y * 10 + x],
                0x00FF_FFFF,
                "the border intrudes at ({x},{y})"
            );
        }
    }
    // The border (black) is actually drawn somewhere outside.
    assert!(buf.contains(&0x0000_0000));
}

#[test]
fn guide_border_hugs_the_boundary_without_a_gap() {
    // The border sits flush just outside the boundary (1px out), with no gap between them.
    let ann: Ann = Annotation::Guide {
        r: (10, 10, 20, 20),
    };
    let t = Xform {
        scale: 1.0,
        ox: 0.0,
        oy: 0.0,
    };
    let mut buf = vec![0x00FF_FFFFu32; 40 * 40];
    {
        let mut canvas = Canvas {
            buf: &mut buf,
            w: 40,
            h: 40,
        };
        show(&mut canvas, &ann, &t, false);
    }
    // 1px outside the top edge's boundary (y=10, so y=9); horizontally, near the top edge's midpoint.
    assert_eq!(buf[9 * 40 + 15], 0x0000_0000, "a gap beside the boundary");
}

#[test]
fn guide_border_renders_correctly_when_far_larger_than_canvas() {
    // Even when the guide's bottom-right is far outside the canvas (an
    // actual scenario when zoomed in), the visible portion of the
    // border should still draw correctly (and quickly).
    let ann: Ann = Annotation::Guide {
        r: (10, 10, 100_000, 100_000),
    };
    let t = Xform {
        scale: 1.0,
        ox: 0.0,
        oy: 0.0,
    };
    let mut buf = vec![0x00FF_FFFFu32; 40 * 40];
    {
        let mut canvas = Canvas {
            buf: &mut buf,
            w: 40,
            h: 40,
        };
        show(&mut canvas, &ann, &t, false);
    }
    // 1px outside the top edge's boundary (y=10, so y=9) still has the border drawn.
    assert_eq!(
        buf[9 * 40 + 15],
        0x0000_0000,
        "the cut to the canvas lost the border"
    );
    // Near the guide's actual bottom-right (off-canvas), nothing is drawn, as expected.
    assert_eq!(buf[39 * 40 + 39], 0x00FF_FFFF);
}

#[test]
fn paint_annotations_always_draws_guide_on_top_regardless_of_order() {
    // Even if the guide is first in the array (i.e. behind other
    // items), it should always draw on top, unaffected by
    // PageUp/PageDown changing draw order.
    let guide: Ann = Annotation::Guide {
        r: (10, 10, 20, 20),
    };
    // Places a red rect overlapping the guide's border (just outside
    // the boundary, passing through (9,15)) after the guide (i.e. in
    // front, in array order).
    let rect: Ann = Annotation::Rect {
        r: (9.0, 0.0, 11.0, 40.0),
        color: 0x00FF_0000,
        thick: 1,
        rot: 0.0,
        filled: false,
    };
    let t = Xform {
        scale: 1.0,
        ox: 0.0,
        oy: 0.0,
    };
    let mut buf = vec![0x00FF_FFFFu32; 40 * 40];
    {
        let mut canvas = Canvas {
            buf: &mut buf,
            w: 40,
            h: 40,
        };
        show_all(&mut canvas, &vec![guide, rect], &t);
    }
    assert_eq!(
        buf[9 * 40 + 9],
        GUIDE_COLOR,
        "the guide is on top"
    );
}

#[test]
fn dim_outside_guide_darkens_outside_and_keeps_inside() {
    let t = Xform {
        scale: 1.0,
        ox: 0.0,
        oy: 0.0,
    };
    let mut buf = vec![0x00FF_FFFFu32; 4 * 4]; // all white
    {
        let mut canvas = Canvas {
            buf: &mut buf,
            w: 4,
            h: 4,
        };
        dim_around(&mut canvas, Some((1, 1, 3, 3)), &t);
    }
    // Inside the guide (1,1)-(2,2) is unchanged.
    assert_eq!(buf[4 + 1], 0x00FF_FFFF);
    assert_eq!(buf[2 * 4 + 2], 0x00FF_FFFF);
    // Outside the guide is dimmed.
    assert_ne!(buf[0], 0x00FF_FFFF);
    assert_ne!(buf[3 * 4 + 3], 0x00FF_FFFF);
}

#[test]
fn dim_outside_guide_noop_without_guide() {
    let t = Xform {
        scale: 1.0,
        ox: 0.0,
        oy: 0.0,
    };
    let mut buf = vec![0x00FF_FFFFu32; 4 * 4];
    {
        let mut canvas = Canvas {
            buf: &mut buf,
            w: 4,
            h: 4,
        };
        dim_around(&mut canvas, None, &t);
    }
    assert!(buf.iter().all(|&px| px == 0x00FF_FFFF));
}

#[test]
fn rasterize_freehand_returns_image_with_padded_bbox_and_expected_alpha() {
    // A vertical line (0,0)-(0,20), thickness 4.
    let ann = ink(vec![(0, 0), (0, 20)], 4, DEFAULT_COLOR);
    match ann {
        Annotation::Image {
            r,
            src_w,
            src_h,
            pixels,
            rot,
        } => {
            // pad = thick.max(1)/2 + 2 = 4.
            assert_eq!(r, (-4.0, -4.0, 4.0, 24.0));
            assert_eq!(src_w, 8);
            assert_eq!(src_h, 28);
            assert_eq!(rot, 0.0);
            // The stroke's center (local coordinates directly over the line) is nearly opaque.
            let center = pixels[12 * src_w as usize + 4];
            assert!((center >> 24) & 0xff >= 250, "center alpha too low");
            assert_eq!(center & 0x00FF_FFFF, DEFAULT_COLOR & 0x00FF_FFFF);
            // A padding corner (far from the line) is fully transparent.
            let corner = pixels[0];
            assert_eq!((corner >> 24) & 0xff, 0);
        }
        _ => panic!("an Image was expected"),
    }
}

#[test]
fn merge_images_composites_non_overlapping_items_at_their_own_positions() {
    let red: Ann = Annotation::Image {
        r: (0.0, 0.0, 10.0, 10.0),
        src_w: 1,
        src_h: 1,
        pixels: Rc::new(vec![0xFFFF_0000]),
        rot: 0.0,
    };
    let green: Ann = Annotation::Image {
        r: (20.0, 0.0, 30.0, 10.0),
        src_w: 1,
        src_h: 1,
        pixels: Rc::new(vec![0xFF00_FF00]),
        rot: 0.0,
    };
    let merged = merge(vec![red, green]);
    match merged {
        Annotation::Image {
            r,
            src_w,
            src_h,
            pixels,
            rot,
        } => {
            assert_eq!(r, (0.0, 0.0, 30.0, 10.0));
            assert_eq!(src_w, 30);
            assert_eq!(src_h, 10);
            assert_eq!(rot, 0.0);
            // Inside the red item's area.
            assert_eq!(pixels[5 * src_w as usize + 5], 0xFFFF_0000);
            // Inside the green item's area.
            assert_eq!(pixels[5 * src_w as usize + 25], 0xFF00_FF00);
            // A gap belonging to neither area stays transparent.
            assert_eq!((pixels[5 * src_w as usize + 15] >> 24) & 0xff, 0);
        }
        _ => panic!("an Image was expected"),
    }
}
