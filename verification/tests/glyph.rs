use session_signals::glyph::{encode_png, render_glyph_rgba, shape_for_rollup, Shape};
use session_signals::session::Rollup;

fn dist_segment(px: f32, py: f32, ax: f32, ay: f32, bx: f32, by: f32) -> f32 {
    let (vx, vy) = (bx - ax, by - ay);
    let (wx, wy) = (px - ax, py - ay);
    let t = ((wx * vx + wy * vy) / (vx * vx + vy * vy)).clamp(0.0, 1.0);
    let (dx, dy) = (px - (ax + t * vx), py - (ay + t * vy));
    (dx * dx + dy * dy).sqrt()
}

/// Distance from a point to the edge of a silhouette, negative inside.
fn distance(shape: Shape, px: f32, py: f32, k: f32) -> f32 {
    let (rx, ry) = (px - 12.0 * k, py - 12.0 * k);
    let r = (rx * rx + ry * ry).sqrt();
    match shape {
        Shape::Dot => r - 5.4 * k,
        Shape::Ring => (r - 7.4 * k).abs() - 1.3 * k,
        Shape::Square => {
            let (qx, qy) = (rx.abs() - 3.8 * k, ry.abs() - 3.8 * k);
            let outside = (qx.max(0.0).powi(2) + qy.max(0.0).powi(2)).sqrt();
            qx.max(qy).min(0.0) + outside - 3.6 * k
        }
        Shape::Check => {
            let down = dist_segment(px, py, 5.0 * k, 12.6 * k, 10.0 * k, 17.4 * k);
            let up = dist_segment(px, py, 10.0 * k, 17.4 * k, 19.3 * k, 6.8 * k);
            down.min(up) - 1.6 * k
        }
        Shape::Triangle => {
            let (a, b, c) = ((12.0, 4.6), (4.2, 18.4), (19.8, 18.4));
            let edge = |p: (f32, f32), q: (f32, f32)| {
                dist_segment(px, py, p.0 * k, p.1 * k, q.0 * k, q.1 * k)
            };
            let side = |p: (f32, f32), q: (f32, f32)| {
                (px - p.0 * k) * (q.1 - p.1) * k - (py - p.1 * k) * (q.0 - p.0) * k
            };
            let d = edge(a, b).min(edge(b, c)).min(edge(c, a));
            let s = [side(a, b), side(b, c), side(c, a)];
            let inside = s.iter().all(|v| *v >= 0.0) || s.iter().all(|v| *v <= 0.0);
            (if inside { -d } else { d }) - 1.2 * k
        }
    }
}

/// How much of each pixel a silhouette covers.
fn coverage(shape: Shape, size: u32) -> Vec<u8> {
    let k = size as f32 / 24.0;
    let mut out = Vec::new();
    for y in 0..size {
        for x in 0..size {
            let d = distance(shape, x as f32 + 0.5, y as f32 + 0.5, k);
            out.push(((0.5 - d).clamp(0.0, 1.0) * 255.0).round() as u8);
        }
    }
    out
}

fn draw(shape: Shape, rgb: [u8; 3], size: u32) -> Vec<u8> {
    render_glyph_rgba(&coverage(shape, size), rgb)
}

fn alpha_at(buf: &[u8], size: u32, x: u32, y: u32) -> u8 {
    buf[((y * size + x) * 4 + 3) as usize]
}

#[test]
fn filled_dot_is_opaque_center_clear_corner() {
    let size = 32;
    let buf = draw(Shape::Dot, [10, 20, 30], size);
    let c = ((size / 2 * size + size / 2) * 4) as usize;
    assert_eq!(alpha_at(&buf, size, size / 2, size / 2), 255);
    assert_eq!(&buf[c..c + 3], &[10, 20, 30]);
    assert_eq!(alpha_at(&buf, size, 0, 0), 0);
}

#[test]
fn ring_is_hollow_in_the_middle() {
    let size = 32;
    let buf = draw(Shape::Ring, [200, 100, 50], size);
    assert_eq!(alpha_at(&buf, size, size / 2, size / 2), 0);
    let band_x = (size as f32 / 2.0 + 7.4 * (size as f32 / 24.0)).round() as u32 - 1;
    assert!(alpha_at(&buf, size, band_x, size / 2) > 0);
}

#[test]
fn square_fills_its_center_and_each_shape_differs() {
    let size = 32;
    let sq = draw(Shape::Square, [1, 2, 3], size);
    assert_eq!(alpha_at(&sq, size, size / 2, size / 2), 255);
    let total = |b: &[u8]| b.iter().skip(3).step_by(4).map(|&a| a as u64).sum::<u64>();
    let ck = draw(Shape::Check, [1, 2, 3], size);
    assert!(total(&sq) > total(&ck));
}

#[test]
fn triangle_is_opaque_inside_clear_outside() {
    let size = 24;
    let buf = draw(Shape::Triangle, [5, 6, 7], size);
    assert_eq!(alpha_at(&buf, size, 12, 15), 255);
    assert_eq!(alpha_at(&buf, size, 2, 2), 0);
}

#[test]
fn png_encodes_nonempty() {
    let buf = draw(Shape::Dot, [1, 2, 3], 16);
    let png = encode_png(&buf, 16).expect("encodes");
    assert_eq!(&png[..8], &[137, 80, 78, 71, 13, 10, 26, 10]);
}

#[test]
fn a_png_file_decodes_to_the_same_pixels() {
    let buf = draw(Shape::Ring, [9, 8, 7], 24);
    let file = encode_png(&buf, 24).expect("encodes");
    let mut reader = png::Decoder::new(std::io::Cursor::new(file))
        .read_info()
        .expect("has a header");
    let mut pixels = vec![0; reader.output_buffer_size().expect("a size")];
    let frame = reader.next_frame(&mut pixels).expect("has a picture");
    assert_eq!((frame.width, frame.height), (24, 24));
    assert_eq!(&pixels[..frame.buffer_size()], &buf[..]);
}

#[test]
fn a_png_file_needs_pixels_and_their_data() {
    assert!(encode_png(&[], 0).is_none());
    assert!(encode_png(&[1, 2, 3], 1).is_none());
    assert!(encode_png(&[1, 2, 3, 4, 5], 1).is_none());
    assert!(encode_png(&[1, 2, 3, 4], 1).is_some());
    assert!(encode_png(&[1, 2, 3, 4], 2).is_none());
}

#[test]
fn painting_repeats_the_color_and_keeps_the_coverage() {
    assert_eq!(
        render_glyph_rgba(&vec![0, 128], [1, 2, 3]),
        vec![1, 2, 3, 0, 1, 2, 3, 128]
    );
    assert!(render_glyph_rgba(&vec![], [1, 2, 3]).is_empty());
}

#[test]
fn each_color_has_a_shape() {
    assert_eq!(shape_for_rollup(Rollup::Red), Shape::Square);
    assert_eq!(shape_for_rollup(Rollup::Review), Shape::Triangle);
    assert_eq!(shape_for_rollup(Rollup::Orange), Shape::Dot);
    assert_eq!(shape_for_rollup(Rollup::Green), Shape::Check);
    assert_eq!(shape_for_rollup(Rollup::Grey), Shape::Ring);
}
