use a2d::g2d::frame::plan_frame;
use a2d::g2d::frame::DrawCall;
use a2d::g2d::frame::VERTICES_PER_SPRITE;
use a2d::g2d::sprite::sheet::Raster;
use a2d::Graphics2D;
use a2d::Instance;
use a2d::Rect;
use a2d::SpriteBatch;
use a2d::SpriteSheet;
use std::rc::Rc;

fn bits(x: f32) -> u32 {
    x.to_bits()
}

fn rect(x1: f32, y1: f32, x2: f32, y2: f32) -> Rect {
    Rect::new(bits(x1), bits(y1), bits(x2), bits(y2)).unwrap()
}

fn white_sheet() -> Rc<SpriteSheet> {
    SpriteSheet::from_raster(Raster { width: 1, height: 1, pixels: vec![255, 255, 255, 255] })
        .unwrap()
}

fn numbered(i: u32) -> Instance {
    Instance::new(rect(0.0, 0.0, 1.0 + i as f32, 1.0), rect(0.0, 0.0, 1.0, 1.0), bits(i as f32))
}

/// The bytes of single-precision numbers as they lie in memory.
fn float_bytes(values: &[f32]) -> Vec<u8> {
    let mut out = Vec::new();
    for v in values {
        out.extend_from_slice(&v.to_ne_bytes());
    }
    out
}

fn batch_of(sheet: &Rc<SpriteSheet>, numbers: &[u32]) -> SpriteBatch {
    let mut batch = SpriteBatch::new(sheet.clone());
    for i in numbers {
        batch.add(numbered(*i));
    }
    batch
}

fn record(i: u32) -> Vec<u8> {
    float_bytes(&[
        0.0,
        0.0,
        1.0 + i as f32,
        1.0,
        0.0,
        0.0,
        1.0,
        1.0,
        i as f32,
        1.0,
        1.0,
        1.0,
        1.0,
    ])
}

#[test]
fn full_screen_quad() {
    // One instance over a one-pixel sheet, destination and source the unit
    // square, no rotation, default scale: one draw of one quad.
    let context = Graphics2D::new(800, 800);
    let mut batch = SpriteBatch::new(white_sheet());
    batch.add(Instance::new(rect(0.0, 0.0, 1.0, 1.0), rect(0.0, 0.0, 1.0, 1.0), bits(0.0)));
    let frame = context.render(&[&batch]).unwrap();
    assert_eq!(frame.scale, [bits(1.0), bits(1.0)]);
    assert_eq!(frame.clear, [bits(0.0); 4]);
    assert_eq!(
        frame.draws,
        vec![DrawCall {
            batch: 0,
            instance_data: float_bytes(&[
                0.0, 0.0, 1.0, 1.0, 0.0, 0.0, 1.0, 1.0, 0.0, 1.0, 1.0, 1.0, 1.0
            ]),
            translation_data: float_bytes(&[0.0, 0.0]),
            vertices: 6,
            instances: 1,
        }]
    );
    assert_eq!(frame.draws[0].instance_data.len(), 52);
    assert_eq!(VERTICES_PER_SPRITE, 6);
}

#[test]
fn two_batches_second_empty() {
    let sheet = white_sheet();
    let first = batch_of(&sheet, &[4, 5]);
    let second = batch_of(&sheet, &[]);
    let context = Graphics2D::new(640, 480);
    let frame = context.render(&[&first, &second]).unwrap();
    assert_eq!(frame.draws.len(), 1);
    assert_eq!(frame.draws[0].batch, 0);
    assert_eq!(frame.draws[0].instances, 2);
    assert_eq!(frame.draws[0].vertices, 6);
    let mut expected = record(4);
    expected.extend(record(5));
    assert_eq!(frame.draws[0].instance_data, expected);
    let sprites: u32 = frame.draws.iter().map(|d| d.instances).sum();
    assert_eq!(sprites, 2);
}

#[test]
fn empty_batches_leave_the_other_draws_alone() {
    let sheet = white_sheet();
    let a = batch_of(&sheet, &[1]);
    let mut b = batch_of(&sheet, &[2, 3, 4]);
    b.set_translation([bits(0.5), bits(0.25)]);
    let empty = batch_of(&sheet, &[]);
    let context = Graphics2D::new(640, 480);
    let plain = context.render(&[&a, &b]).unwrap();
    let mixed = context.render(&[&empty, &a, &empty, &empty, &b, &empty]).unwrap();
    assert_eq!(plain.draws.len(), 2);
    assert_eq!(mixed.draws.len(), 2);
    assert_eq!(plain.draws[0].batch, 0);
    assert_eq!(plain.draws[1].batch, 1);
    assert_eq!(mixed.draws[0].batch, 1);
    assert_eq!(mixed.draws[1].batch, 4);
    for k in 0..2 {
        assert_eq!(plain.draws[k].instance_data, mixed.draws[k].instance_data);
        assert_eq!(plain.draws[k].translation_data, mixed.draws[k].translation_data);
        assert_eq!(plain.draws[k].instances, mixed.draws[k].instances);
        assert_eq!(plain.draws[k].vertices, mixed.draws[k].vertices);
    }
    assert_eq!(mixed.draws[1].translation_data, float_bytes(&[0.5, 0.25]));
    assert_eq!(mixed.draws[1].instances, 3);
}

#[test]
fn no_batches_no_draws() {
    let context = Graphics2D::new(1, 1);
    let frame = context.render(&[]).unwrap();
    assert!(frame.draws.is_empty());
    let sheet = white_sheet();
    let empty = batch_of(&sheet, &[]);
    assert!(context.render(&[&empty, &empty]).unwrap().draws.is_empty());
}

#[test]
fn batches_are_drawn_in_the_order_given() {
    let sheet = white_sheet();
    let a = batch_of(&sheet, &[1, 2]);
    let b = batch_of(&sheet, &[3]);
    let frame = plan_frame([bits(1.0), bits(1.0)], &[&b, &a, &b]).unwrap();
    let order: Vec<usize> = frame.draws.iter().map(|d| d.batch).collect();
    assert_eq!(order, vec![0, 1, 2]);
    assert_eq!(frame.draws[0].instance_data, record(3));
    let mut both = record(1);
    both.extend(record(2));
    assert_eq!(frame.draws[1].instance_data, both);
    assert_eq!(frame.draws[2].instance_data, record(3));
    let counts: Vec<u32> = frame.draws.iter().map(|d| d.instances).collect();
    assert_eq!(counts, vec![1, 2, 1]);
}

#[test]
fn set_scale_takes_effect_on_the_next_frame() {
    let sheet = white_sheet();
    let batch = batch_of(&sheet, &[0]);
    let mut context = Graphics2D::new(800, 600);
    assert_eq!(context.scale(), [bits(1.0), bits(1.0)]);
    assert_eq!(context.scale_data(), float_bytes(&[1.0, 1.0]));
    let before = context.render(&[&batch]).unwrap();
    let uniform = context.set_scale([bits(2.0), bits(2.0)]);
    let after = context.render(&[&batch]).unwrap();
    assert_eq!(before.scale, [bits(1.0), bits(1.0)]);
    assert_eq!(after.scale, [bits(2.0), bits(2.0)]);
    assert_eq!(uniform, float_bytes(&[2.0, 2.0]));
    assert_eq!(context.scale(), [bits(2.0), bits(2.0)]);
    assert_eq!(context.scale_data(), float_bytes(&[2.0, 2.0]));
    assert_eq!(before.draws, after.draws);
}

#[test]
fn uniform_bytes_are_not_the_words_themselves() {
    // 1.0 is 0x3f800000: four bytes, not one value per byte
    let context = Graphics2D::new(1, 1);
    let data = context.scale_data();
    assert_eq!(data.len(), 8);
    assert_eq!(u32::from_ne_bytes([data[0], data[1], data[2], data[3]]), 0x3f80_0000);
    assert_eq!(u32::from_ne_bytes([data[4], data[5], data[6], data[7]]), 0x3f80_0000);
}
