use face_loop::frame::ColorFrame;
use face_loop::region::Region;

fn black(width: usize, height: usize) -> ColorFrame {
    ColorFrame::from_raw(width, height, vec![0u8; width * height * 3]).unwrap()
}

fn idx(width: usize, x: usize, y: usize, c: usize) -> usize {
    3 * (y * width + x) + c
}

#[test]
fn from_raw_accepts_exact_length() {
    let f = ColorFrame::from_raw(2, 3, vec![9u8; 18]).unwrap();
    assert_eq!(f.width, 2);
    assert_eq!(f.height, 3);
    assert_eq!(f.data.len(), 18);
}

#[test]
fn from_raw_rejects_wrong_length() {
    assert!(ColorFrame::from_raw(2, 2, vec![0u8; 11]).is_none());
    assert!(ColorFrame::from_raw(2, 2, vec![0u8; 13]).is_none());
    assert!(ColorFrame::from_raw(2, 2, vec![]).is_none());
}

#[test]
fn gray_keeps_dimensions_single_channel() {
    let f = black(4, 3);
    let g = f.to_gray();
    assert_eq!(g.width, 4);
    assert_eq!(g.height, 3);
    assert_eq!(g.data.len(), 12);
}

#[test]
fn gray_luminance_formula_exact() {
    let f = ColorFrame::from_raw(1, 1, vec![10, 20, 30]).unwrap();
    let g = f.to_gray();
    assert_eq!(g.data[0], 21);
}

#[test]
fn gray_white_stays_white() {
    let f = ColorFrame::from_raw(1, 1, vec![255, 255, 255]).unwrap();
    assert_eq!(f.to_gray().data[0], 255);
}

#[test]
fn gray_uniform_black_stays_black() {
    let g = black(8, 8).to_gray();
    assert!(g.data.iter().all(|&v| v == 0));
}

#[test]
fn draw_marks_exact_boundary() {
    let mut f = black(8, 8);
    f.draw_region(Region { x: 1, y: 1, width: 5, height: 5 });
    assert_eq!(f.data[idx(8, 1, 1, 0)], 0);
    assert_eq!(f.data[idx(8, 1, 1, 1)], 255);
    assert_eq!(f.data[idx(8, 1, 1, 2)], 0);
    assert_eq!(f.data[idx(8, 5, 1, 1)], 255);
    assert_eq!(f.data[idx(8, 1, 5, 1)], 255);
    assert_eq!(f.data[idx(8, 5, 5, 1)], 255);
    assert_eq!(f.data[idx(8, 3, 3, 1)], 0);
    assert_eq!(f.data[idx(8, 0, 0, 1)], 0);
    assert_eq!(f.data[idx(8, 6, 3, 1)], 0);
}

#[test]
fn draw_out_of_frame_region_unclamped() {
    let mut f = black(8, 8);
    f.draw_region(Region { x: -5, y: -5, width: 10, height: 10 });
    assert_eq!(f.data[idx(8, 0, 0, 1)], 0);
    assert_eq!(f.data[idx(8, 2, 2, 1)], 0);
    assert_eq!(f.data[idx(8, 3, 0, 1)], 255);
    assert_eq!(f.data[idx(8, 0, 4, 1)], 255);
    assert_eq!(f.data[idx(8, 4, 4, 1)], 255);
    assert_eq!(f.data[idx(8, 5, 5, 1)], 0);
    assert_eq!(f.data[idx(8, 6, 3, 1)], 0);
}

#[test]
fn draw_region_fully_outside_changes_nothing() {
    let mut f = black(8, 8);
    f.draw_region(Region { x: 100, y: 100, width: 10, height: 10 });
    assert!(f.data.iter().all(|&v| v == 0));
}

#[test]
fn annotate_empty_list_changes_nothing() {
    let bytes: Vec<u8> = (0..48).map(|i| i as u8).collect();
    let mut f = ColorFrame::from_raw(4, 4, bytes.clone()).unwrap();
    f.annotate(&vec![]);
    assert_eq!(f.data, bytes);
}

#[test]
fn annotate_paints_every_region() {
    let mut f = black(16, 16);
    f.annotate(&vec![
        Region { x: 1, y: 1, width: 4, height: 4 },
        Region { x: 8, y: 8, width: 5, height: 5 },
    ]);
    assert_eq!(f.data[idx(16, 1, 1, 1)], 255);
    assert_eq!(f.data[idx(16, 4, 4, 1)], 255);
    assert_eq!(f.data[idx(16, 8, 8, 1)], 255);
    assert_eq!(f.data[idx(16, 12, 12, 1)], 255);
    assert_eq!(f.data[idx(16, 6, 6, 1)], 0);
    assert_eq!(f.data[idx(16, 15, 15, 1)], 0);
}
