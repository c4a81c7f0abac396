use a2d::g2d::instance::ONE;
use a2d::g2d::sprite::sheet::Raster;
use a2d::Instance;
use a2d::Rect;
use a2d::SpriteBatch;
use a2d::SpriteSheet;
use std::rc::Rc;

fn bits(x: f32) -> u32 {
    x.to_bits()
}

fn rect(x1: f32, y1: f32, x2: f32, y2: f32) -> Rect {
    Rect::new(bits(x1), bits(y1), bits(x2), bits(y2)).unwrap()
}

fn white_sheet() -> Rc<SpriteSheet> {
    SpriteSheet::from_raster(Raster { width: 1, height: 1, pixels: vec![255, 255, 255, 255] })
        .unwrap()
}

fn numbered(i: u32) -> Instance {
    Instance::new(rect(0.0, 0.0, 1.0 + i as f32, 1.0), rect(0.0, 0.0, 1.0, 1.0), bits(i as f32))
}

#[test]
fn instance_new_has_no_tint() {
    let d = rect(0.0, 0.0, 0.75, 0.75);
    let s = rect(0.25, 0.25, 0.75, 0.75);
    let inst = Instance::new(d, s, bits(1.5));
    assert_eq!(inst.destination(), d);
    assert_eq!(inst.source(), s);
    assert_eq!(inst.rotation(), bits(1.5));
    assert_eq!(inst.tint(), [ONE, ONE, ONE, ONE]);
    assert_eq!(ONE, bits(1.0));
}

#[test]
fn instance_setters_change_one_field() {
    let d = rect(0.0, 0.0, 0.75, 0.75);
    let s = rect(0.25, 0.25, 0.75, 0.75);
    let mut inst = Instance::new(d, s, bits(0.0));
    inst.set_rotation(bits(2.0));
    assert_eq!(inst, Instance::new(d, s, bits(2.0)));
    let d2 = rect(1.0, 1.0, 2.0, 2.0);
    inst.set_destination(d2);
    assert_eq!(inst, Instance::new(d2, s, bits(2.0)));
    let s2 = rect(0.0, 0.0, 0.5, 0.5);
    inst.set_source(s2);
    assert_eq!(inst, Instance::new(d2, s2, bits(2.0)));
    let tint = [bits(1.0), bits(0.5), bits(0.25), bits(0.75)];
    inst.set_tint(tint);
    assert_eq!(inst.tint(), tint);
    assert_eq!(inst.destination(), d2);
    assert_eq!(inst.source(), s2);
    assert_eq!(inst.rotation(), bits(2.0));
}

#[test]
fn instance_words_are_the_fields_in_order() {
    let mut inst = Instance::new(rect(1.0, 2.0, 3.0, 4.0), rect(0.0, 0.25, 0.5, 1.0), bits(0.5));
    inst.set_tint([bits(0.1), bits(0.2), bits(0.3), bits(0.4)]);
    let expected: Vec<u32> = [1.0f32, 2.0, 3.0, 4.0, 0.0, 0.25, 0.5, 1.0, 0.5, 0.1, 0.2, 0.3, 0.4]
        .iter()
        .map(|x| x.to_bits())
        .collect();
    assert_eq!(inst.to_words().to_vec(), expected);
}

#[test]
fn instance_layout_covers_the_record() {
    let layout = Instance::desc();
    assert_eq!(layout.stride, 52);
    assert!(layout.per_instance);
    let found: Vec<(u64, u32, u32)> =
        layout.attributes.iter().map(|a| (a.offset, a.shader_location, a.words)).collect();
    assert_eq!(found, vec![(0, 0, 4), (16, 1, 4), (32, 2, 1), (36, 3, 4)]);
    let words: u32 = layout.attributes.iter().map(|a| a.words).sum();
    assert_eq!(words as usize, a2d::g2d::instance::WORDS_PER_INSTANCE);
    assert_eq!(4 * words as u64, a2d::g2d::instance::BYTES_PER_INSTANCE);
}

#[test]
fn new_batch_is_empty() {
    let sheet = white_sheet();
    let batch = SpriteBatch::new(sheet.clone());
    assert!(batch.instances().is_empty());
    assert_eq!(batch.len(), 0);
    assert_eq!(batch.last(), None);
    assert_eq!(batch.translation(), [0, 0]);
    assert_eq!(batch.translation(), [bits(0.0), bits(0.0)]);
    assert_eq!(batch.sheet(), &*sheet);
}

#[test]
fn instances_come_out_in_append_order() {
    let mut batch = SpriteBatch::new(white_sheet());
    let n = 25;
    for i in 0..n {
        batch.add(numbered(i));
        assert_eq!(batch.len(), i as usize + 1);
        assert_eq!(batch.last(), Some(&numbered(i)));
    }
    let expected: Vec<Instance> = (0..n).map(numbered).collect();
    assert_eq!(batch.instances(), &expected[..]);
    for i in 0..n {
        assert_eq!(batch.get(i as usize), &numbered(i));
    }
    for i in (0..n).rev() {
        batch.pop();
        assert_eq!(batch.len(), i as usize);
        assert_eq!(batch.instances(), &expected[..i as usize]);
    }
    assert!(batch.instances().is_empty());
}

#[test]
fn pop_on_empty_changes_nothing() {
    let mut batch = SpriteBatch::new(white_sheet());
    batch.set_translation([bits(2.0), bits(3.0)]);
    batch.pop();
    batch.pop();
    assert!(batch.instances().is_empty());
    assert_eq!(batch.last(), None);
    assert_eq!(batch.translation(), [bits(2.0), bits(3.0)]);
    batch.add(numbered(1));
    assert_eq!(batch.instances(), &[numbered(1)][..]);
}

#[test]
fn set_and_get_mut_change_one_instance() {
    let mut batch = SpriteBatch::new(white_sheet());
    for i in 0..4 {
        batch.add(numbered(i));
    }
    batch.set(1, numbered(10));
    assert_eq!(batch.instances(), &[numbered(0), numbered(10), numbered(2), numbered(3)][..]);
    batch.get_mut(3).set_rotation(bits(9.0));
    let mut changed = numbered(3);
    changed.set_rotation(bits(9.0));
    assert_eq!(batch.instances(), &[numbered(0), numbered(10), numbered(2), changed][..]);
    *batch.get_mut(0) = numbered(7);
    assert_eq!(batch.get(0), &numbered(7));
    assert_eq!(batch.last(), Some(&changed));
    assert_eq!(batch.len(), 4);
}

#[test]
fn translation_is_kept_apart_from_the_instances() {
    let mut batch = SpriteBatch::new(white_sheet());
    batch.add(numbered(0));
    batch.set_translation([bits(0.5), bits(-0.25)]);
    assert_eq!(batch.translation(), [bits(0.5), bits(-0.25)]);
    assert_eq!(batch.instances(), &[numbered(0)][..]);
}
