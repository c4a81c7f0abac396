use crate::g2d::instance::Instance;
use crate::g2d::sprite::sheet::SpriteSheet;
use std::rc::Rc;
use vstd::prelude::*;

verus! {

/// What a batch holds, as a value of the specification.
pub struct BatchView {
    pub sheet: SpriteSheet,
    /// The instances in draw order: a later one is drawn over an earlier one.
    pub instances: Seq<Instance>,
    pub translation: Seq<u32>,
}

/// The translation of a new batch: none.
pub open spec fn no_translation() -> Seq<u32> {
    seq![0u32, 0u32]
}

/// `b` with `inst` appended.
pub open spec fn added(b: BatchView, inst: Instance) -> BatchView {
    BatchView { instances: b.instances.push(inst), ..b }
}

/// `b` without its last instance; `b` itself where it has none.
pub open spec fn popped(b: BatchView) -> BatchView {
    BatchView {
        instances: if b.instances.len() > 0 {
            b.instances.drop_last()
        } else {
            b.instances
        },
        ..b
    }
}

/// `b` with the instances of `s` appended one after the other.
pub open spec fn added_all(b: BatchView, s: Seq<Instance>) -> BatchView
    decreases s.len(),
{
    if s.len() == 0 {
        b
    } else {
        added(added_all(b, s.drop_last()), s.last())
    }
}

/// `b` after `n` times `pop`.
pub open spec fn popped_times(b: BatchView, n: nat) -> BatchView
    decreases n,
{
    if n == 0 {
        b
    } else {
        popped(popped_times(b, (n - 1) as nat))
    }
}

/// Sprites of one sheet, drawn together in the order they were added, all
/// moved by one translation.
pub struct SpriteBatch {
    sheet: Rc<SpriteSheet>,
    instances: Vec<Instance>,
    translation: [u32; 2],
}

impl View for SpriteBatch {
    type V = BatchView;

    closed spec fn view(&self) -> BatchView {
        BatchView {
            sheet: *self.sheet,
            instances: self.instances@,
            translation: self.translation@,
        }
    }
}

impl SpriteBatch {
    /// An empty batch over `sheet`.
    pub fn new(sheet: Rc<SpriteSheet>) -> (r: SpriteBatch)
        ensures
            r@ == (BatchView {
                sheet: *sheet,
                instances: Seq::empty(),
                translation: no_translation(),
            }),
    {
        let r = SpriteBatch { sheet, instances: Vec::new(), translation: [0, 0] };
        assert(r.translation@ =~= no_translation());
        r
    }

    pub fn sheet(&self) -> (r: &SpriteSheet)
        ensures
            *r == self@.sheet,
    {
        &self.sheet
    }

    /// All instances, in draw order.
    pub fn instances(&self) -> (r: &[Instance])
        ensures
            r@ == self@.instances,
    {
        self.instances.as_slice()
    }

    pub fn get(&self, i: usize) -> (r: &Instance)
        requires
            i < self@.instances.len(),
        ensures
            *r == self@.instances[i as int],
    {
        &self.instances[i]
    }

    /// The instance at `i`, to change in place.
    pub fn get_mut(&mut self, i: usize) -> (r: &mut Instance)
        requires
            i < old(self)@.instances.len(),
        ensures
            *r == old(self)@.instances[i as int],
            final(self)@ == (BatchView {
                instances: old(self)@.instances.update(i as int, *final(r)),
                ..old(self)@
            }),
    {
        &mut self.instances[i]
    }

    pub fn set(&mut self, i: usize, inst: Instance)
        requires
            i < old(self)@.instances.len(),
        ensures
            final(self)@ == (BatchView {
                instances: old(self)@.instances.update(i as int, inst),
                ..old(self)@
            }),
    {
        self.instances[i] = inst;
    }

    /// Appends `inst`; it is drawn last.
    pub fn add(&mut self, inst: Instance)
        ensures
            final(self)@ == added(old(self)@, inst),
    {
        self.instances.push(inst);
    }

    pub fn last(&self) -> (r: Option<&Instance>)
        ensures
            match r {
                Some(inst) => self@.instances.len() > 0 && *inst == self@.instances.last(),
                None => self@.instances.len() == 0,
            },
    {
        let n: usize = self.instances.len();
        if n == 0 {
            None
        } else {
            Some(&self.instances[n - 1])
        }
    }

    /// Removes the last instance, if there is one.
    pub fn pop(&mut self)
        ensures
            final(self)@ == popped(old(self)@),
    {
        self.instances.pop();
    }

    pub fn len(&self) -> (r: usize)
        ensures
            r == self@.instances.len(),
    {
        self.instances.len()
    }

    /// What is added to every destination when the batch is drawn.
    pub fn translation(&self) -> (r: [u32; 2])
        ensures
            r@ == self@.translation,
    {
        self.translation
    }

    pub fn set_translation(&mut self, translation: [u32; 2])
        ensures
            final(self)@ == (BatchView { translation: translation@, ..old(self)@ }),
    {
        self.translation = translation;
    }
}

proof fn lemma_pop_first(b: BatchView, n: nat)
    ensures
        popped_times(b, n + 1) == popped_times(popped(b), n),
    decreases n,
{
    if n > 0 {
        lemma_pop_first(b, (n - 1) as nat);
    } else {
        reveal_with_fuel(popped_times, 2);
    }
}

/// Instances come out as they went in: after appending the instances of
/// `s`, the batch holds what it held followed by `s` in order; as many pops
/// then give the batch back as it was; and a pop on an empty batch changes
/// nothing.
pub proof fn lemma_add_then_pop(b: BatchView, s: Seq<Instance>)
    ensures
        added_all(b, s).instances == b.instances + s,
        added_all(b, s).sheet == b.sheet,
        added_all(b, s).translation == b.translation,
        popped_times(added_all(b, s), s.len()) == b,
        b.instances.len() == 0 ==> popped(b) == b,
    decreases s.len(),
{
    if s.len() > 0 {
        let front = s.drop_last();
        lemma_add_then_pop(b, front);
        let mid = added_all(b, front);
        assert(added_all(b, s).instances =~= b.instances + s);
        assert(popped(added(mid, s.last())).instances =~= mid.instances);
        assert(popped(added(mid, s.last())) == mid);
        lemma_pop_first(added_all(b, s), front.len());
    } else {
        assert(b.instances + s =~= b.instances);
    }
}

} // verus!
