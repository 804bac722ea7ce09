use sketch_layer::{
    decode_image, edit_modes, encode_image, Bitmap, EncodeError, LoadError, Mode, Painter, Point,
    CANVAS_UNIT,
};

fn pt(x: i32, y: i32) -> Point {
    Point { x, y }
}

fn blank(width: u32, height: u32) -> Bitmap {
    let mut pixels = Vec::new();
    for i in 0..(width * height) {
        pixels.push((i % 251) as u8);
        pixels.push(10);
        pixels.push(200);
        pixels.push(255);
    }
    Bitmap { width, height, pixels }
}

fn png(width: u32, height: u32) -> Vec<u8> {
    encode_image(&blank(width, height)).unwrap()
}

fn loaded() -> Painter {
    let mut p = Painter::new();
    p.load(&png(4, 4)).unwrap();
    p.take_changed();
    p
}

fn draw(p: &mut Painter, points: &[Point]) {
    for q in points {
        p.track_pointer(Some(*q));
    }
    p.track_pointer(None);
}

fn point_counts(p: &Painter) -> Vec<usize> {
    p.lines().iter().map(|l| l.points.len()).collect()
}

#[test]
fn new_painter_has_no_lines() {
    let p = Painter::new();
    assert_eq!(point_counts(&p), Vec::<usize>::new());
    assert_eq!(p.redo_len(), 0);
    assert!(!p.is_active());
    assert!(p.image().is_none());
    assert!(p.export_base().is_none());
    let d = Painter::default();
    assert_eq!(point_counts(&d), Vec::<usize>::new());
}

#[test]
fn consecutive_duplicates_are_dropped() {
    let mut p = loaded();
    p.set_active(true);
    let feed = [pt(1, 1), pt(1, 1), pt(2, 2), pt(2, 2), pt(2, 2), pt(1, 1), pt(3, 0)];
    let mut grew = Vec::new();
    for q in feed {
        grew.push(p.track_pointer(Some(q)));
    }
    assert_eq!(grew, vec![true, false, true, false, false, true, true]);
    assert_eq!(p.lines()[0].points, vec![pt(1, 1), pt(2, 2), pt(1, 1), pt(3, 0)]);
}

#[test]
fn inactive_painter_ignores_pointer() {
    let mut p = loaded();
    assert!(!p.track_pointer(Some(pt(5, 5))));
    assert!(!p.track_pointer(None));
    assert_eq!(point_counts(&p), vec![0]);
}

#[test]
fn release_seals_line_and_starts_new_one() {
    let mut p = loaded();
    p.set_active(true);
    assert!(!p.track_pointer(None));
    assert_eq!(point_counts(&p), vec![0]);
    draw(&mut p, &[pt(0, 0), pt(4, 4)]);
    assert_eq!(point_counts(&p), vec![2, 0]);
    assert_eq!(p.drawn_lines(), vec![0]);
}

#[test]
fn undo_then_redo_restores_history() {
    let mut p = loaded();
    p.set_active(true);
    draw(&mut p, &[pt(0, 0), pt(1, 0)]);
    draw(&mut p, &[pt(5, 5), pt(6, 6), pt(7, 7)]);
    let before: Vec<Vec<Point>> = p.lines().iter().map(|l| l.points.clone()).collect();
    p.undo();
    assert_eq!(point_counts(&p), vec![2, 0]);
    assert_eq!(p.redo_len(), 1);
    p.redo();
    let after: Vec<Vec<Point>> = p.lines().iter().map(|l| l.points.clone()).collect();
    assert_eq!(before, after);
    assert_eq!(p.redo_len(), 0);
}

#[test]
fn undo_and_redo_do_nothing_when_nothing_to_move() {
    let mut p = Painter::new();
    p.undo();
    p.redo();
    assert_eq!(point_counts(&p), Vec::<usize>::new());
    assert_eq!(p.redo_len(), 0);
    assert!(!p.take_changed());
    let mut q = loaded();
    q.undo();
    q.redo();
    assert_eq!(point_counts(&q), vec![0]);
    assert_eq!(q.redo_len(), 0);
    assert!(!q.take_changed());
}

#[test]
fn painter_without_image_ignores_pointer() {
    let mut p = Painter::new();
    p.set_active(true);
    p.set_stroke(egui::Stroke::new(4.0, egui::Color32::RED));
    assert!(!p.track_pointer(Some(pt(5, 5))));
    assert!(!p.track_pointer(None));
    assert_eq!(point_counts(&p), Vec::<usize>::new());
    assert!(p.drawn_lines().is_empty());
}

#[test]
fn new_drawing_clears_redo() {
    let mut p = loaded();
    p.set_active(true);
    draw(&mut p, &[pt(0, 0), pt(1, 0)]);
    draw(&mut p, &[pt(2, 0), pt(3, 0)]);
    p.undo();
    p.undo();
    p.redo();
    assert_eq!(p.redo_len(), 1);
    p.track_pointer(Some(pt(9, 9)));
    assert_eq!(p.redo_len(), 1);
    p.track_pointer(None);
    assert_eq!(p.redo_len(), 0);
    p.redo();
    assert_eq!(point_counts(&p), vec![2, 1, 0]);
}

#[test]
fn undo_and_redo_mark_a_change() {
    let mut p = loaded();
    p.set_active(true);
    draw(&mut p, &[pt(0, 0), pt(1, 0)]);
    assert!(!p.take_changed());
    p.undo();
    assert!(p.take_changed());
    assert!(!p.take_changed());
    p.redo();
    assert!(p.take_changed());
}

#[test]
fn set_stroke_styles_only_the_line_in_progress() {
    let red = egui::Stroke::new(4.0, egui::Color32::RED);
    let blue = egui::Stroke::new(2.0, egui::Color32::BLUE);
    let mut p = loaded();
    p.set_active(true);
    p.set_stroke(red);
    draw(&mut p, &[pt(0, 0), pt(1, 1)]);
    p.set_stroke(blue);
    assert_eq!(p.lines()[0].style, red);
    assert_eq!(p.lines()[1].style, blue);
}

#[test]
fn load_resets_history_and_redo() {
    let mut p = loaded();
    p.set_active(true);
    draw(&mut p, &[pt(0, 0), pt(1, 0)]);
    draw(&mut p, &[pt(2, 0), pt(3, 0)]);
    p.undo();
    p.track_pointer(Some(pt(8, 8)));
    assert_eq!(p.load(&png(3, 2)), Ok(()));
    assert_eq!(point_counts(&p), vec![0]);
    assert_eq!(p.redo_len(), 0);
    assert!(p.is_active());
    let img = p.image().unwrap();
    assert_eq!((img.width, img.height), (3, 2));
    assert_eq!(img.pixels, blank(3, 2).pixels);
}

#[test]
fn load_of_bad_bytes_keeps_state() {
    let mut p = loaded();
    p.set_active(true);
    draw(&mut p, &[pt(0, 0), pt(1, 0)]);
    p.undo();
    assert_eq!(p.load(&[1, 2, 3, 4, 5]), Err(LoadError::Decode));
    assert_eq!(point_counts(&p), vec![0]);
    assert_eq!(p.redo_len(), 1);
    assert_eq!(p.image().unwrap().width, 4);
    let mut q = Painter::new();
    assert_eq!(q.load(b"GIF89a"), Err(LoadError::Decode));
    assert!(q.image().is_none());
    assert_eq!(point_counts(&q), Vec::<usize>::new());
}

#[test]
fn export_of_empty_history_is_the_image() {
    let mut p = Painter::new();
    p.load(&png(4, 4)).unwrap();
    assert!(p.drawn_lines().is_empty());
    let out = p.export_base().unwrap();
    assert_eq!((out.width, out.height), (4, 4));
    assert_eq!(out.pixels, blank(4, 4).pixels);
}

#[test]
fn red_stroke_undo_redo_export() {
    let mut p = Painter::new();
    p.load(&png(100, 100)).unwrap();
    let red = egui::Stroke::new(4.0, egui::Color32::RED);
    p.set_active(true);
    p.set_stroke(red);
    let a = pt(CANVAS_UNIT / 10, CANVAS_UNIT / 10);
    let b = pt(CANVAS_UNIT / 2, CANVAS_UNIT / 2);
    draw(&mut p, &[a, b]);
    p.undo();
    assert_eq!(point_counts(&p), vec![0]);
    assert_eq!(p.redo_len(), 1);
    p.redo();
    assert_eq!(p.lines()[0].points, vec![a, b]);
    assert_eq!(p.lines()[0].style, red);
    assert_eq!(p.drawn_lines(), vec![0]);
    let base = p.export_base().unwrap();
    assert_eq!(base.pixels, blank(100, 100).pixels);
}

#[test]
fn png_round_trip() {
    let b = blank(5, 3);
    let bytes = encode_image(&b).unwrap();
    assert_eq!(&bytes[1..4], b"PNG");
    let back = decode_image(&bytes).unwrap();
    assert_eq!((back.width, back.height), (5, 3));
    assert_eq!(back.pixels, b.pixels);
}

#[test]
fn decode_rejects_garbage() {
    assert_eq!(decode_image(b"not an image").unwrap_err(), LoadError::Decode);
    assert_eq!(decode_image(&[]).unwrap_err(), LoadError::Decode);
}

#[test]
fn encode_rejects_short_buffer() {
    let b = Bitmap { width: 2, height: 2, pixels: vec![0; 15] };
    assert_eq!(encode_image(&b).unwrap_err(), EncodeError::Malformed);
}

#[test]
fn encode_rejects_image_without_pixels() {
    let b = Bitmap { width: 0, height: 3, pixels: vec![] };
    assert_eq!(encode_image(&b).unwrap_err(), EncodeError::Encode);
    let c = Bitmap { width: 3, height: 0, pixels: vec![] };
    assert_eq!(encode_image(&c).unwrap_err(), EncodeError::Encode);
}

#[test]
fn modes_and_labels() {
    assert_eq!(edit_modes(), vec![Mode::Select, Mode::Brush]);
    assert_eq!(Mode::Select.label(), "select");
    assert_eq!(Mode::Brush.label(), "brush");
    assert_eq!(Mode::Eraser.label(), "eraser");
    assert!(Mode::Brush.draws());
    assert!(!Mode::Select.draws());
}
