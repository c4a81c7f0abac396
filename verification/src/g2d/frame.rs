//! What one frame draws: one instanced draw for each batch that holds
//! sprites, in the order the batches were handed over.

use crate::g2d::instance::Instance;
use crate::g2d::instance::WORDS_PER_INSTANCE;
use crate::g2d::sprite::batch::BatchView;
use crate::g2d::sprite::batch::SpriteBatch;
use crate::g2d::sprite::sheet::SpriteSheet;
use crate::g2d::wire::is_memory_image;
use crate::g2d::wire::memory_image;
use vstd::prelude::*;

verus! {

/// Vertices of one sprite: two triangles that make a quad.
pub const VERTICES_PER_SPRITE: u32 = 6;

/// The instance records of a batch laid end to end, as words.
pub open spec fn instance_words(instances: Seq<Instance>) -> Seq<u32> {
    Seq::new(
        (WORDS_PER_INSTANCE * instances.len()) as nat,
        |i: int| instances[i / WORDS_PER_INSTANCE as int]@.words()[i % WORDS_PER_INSTANCE as int],
    )
}

/// The batches that are drawn, by their positions: those that hold at least
/// one instance, in rising order.
pub open spec fn drawn(batches: Seq<BatchView>) -> Seq<int>
    decreases batches.len(),
{
    if batches.len() == 0 {
        Seq::empty()
    } else {
        let before = drawn(batches.drop_last());
        if batches.last().instances.len() > 0 {
            before.push(batches.len() - 1)
        } else {
            before
        }
    }
}

/// One draw, without the position of its batch.
pub struct DrawModel {
    /// The sheet whose texture is bound.
    pub sheet: SpriteSheet,
    /// The contents of the instance buffer.
    pub words: Seq<u32>,
    /// The contents of the translation uniform.
    pub translation: Seq<u32>,
    pub vertices: nat,
    pub instances: nat,
}

/// The draw that a batch with instances gives rise to.
pub open spec fn draw_of(batch: BatchView) -> DrawModel {
    DrawModel {
        sheet: batch.sheet,
        words: instance_words(batch.instances),
        translation: batch.translation,
        vertices: VERTICES_PER_SPRITE as nat,
        instances: batch.instances.len(),
    }
}

/// The draws of a frame, in order: one for each batch that holds at least
/// one instance.
pub open spec fn draws_of(batches: Seq<BatchView>) -> Seq<DrawModel>
    decreases batches.len(),
{
    if batches.len() == 0 {
        Seq::empty()
    } else {
        let before = draws_of(batches.drop_last());
        if batches.last().instances.len() > 0 {
            before.push(draw_of(batches.last()))
        } else {
            before
        }
    }
}

/// One instanced draw. The back end binds the texture group of the sheet of
/// batch `batch` at slot 0, the scale group at slot 1 and a group over
/// `translation_data` at slot 2, sets `instance_data` as the vertex buffer
/// and draws `vertices` vertices for each of `instances` instances.
#[derive(Clone, Debug, PartialEq, Eq)]
pub struct DrawCall {
    /// Position of the batch in the list that was handed to `render`.
    pub batch: usize,
    pub instance_data: Vec<u8>,
    pub translation_data: Vec<u8>,
    pub vertices: u32,
    pub instances: u32,
}

impl DrawCall {
    /// This draw is `model` carried out for the batch at `batch`.
    pub open spec fn carries(&self, batch: int, model: DrawModel) -> bool {
        &&& self.batch == batch
        &&& is_memory_image(model.words, self.instance_data@)
        &&& is_memory_image(model.translation, self.translation_data@)
        &&& self.vertices == model.vertices
        &&& self.instances == model.instances
    }
}

/// A frame to record and submit: one render pass that clears to `clear` and
/// then makes the draws in order, all under `scale`.
#[derive(Clone, Debug, PartialEq, Eq)]
pub struct Frame {
    /// Red, green, blue, alpha of the colour that the pass clears to.
    pub clear: [u32; 4],
    /// The screen scale in force.
    pub scale: [u32; 2],
    pub draws: Vec<DrawCall>,
}

/// Why a frame cannot be drawn.
#[derive(Clone, Copy, Debug, PartialEq, Eq, Structural)]
pub enum RenderError {
    /// The batch at this position holds more instances than one draw can
    /// count.
    TooManyInstances { batch: usize },
}

/// The first batch too large for one draw, if there is one.
pub open spec fn first_oversized(batches: Seq<BatchView>) -> Option<int>
    decreases batches.len(),
{
    if batches.len() == 0 {
        None
    } else {
        match first_oversized(batches.drop_last()) {
            Some(i) => Some(i),
            None => if batches.last().instances.len() > u32::MAX {
                Some(batches.len() - 1)
            } else {
                None
            },
        }
    }
}

/// The views of the batches in a list.
pub open spec fn views(batches: Seq<&SpriteBatch>) -> Seq<BatchView> {
    Seq::new(batches.len(), |i: int| batches[i]@)
}

/// The words of all instances of a batch, in order.
fn flatten(instances: &[Instance]) -> (words: Vec<u32>)
    ensures
        words@ == instance_words(instances@),
{
    let mut words: Vec<u32> = Vec::new();
    let mut i: usize = 0;
    while i < instances.len()
        invariant
            i <= instances.len(),
            words@.len() == WORDS_PER_INSTANCE * i,
            forall|j: int|
                0 <= j < words@.len() ==> words@[j] == #[trigger] instance_words(instances@)[j],
        decreases instances.len() - i,
    {
        let record: [u32; 13] = instances[i].to_words();
        let ghost before = words@;
        let mut k: usize = 0;
        while k < 13
            invariant
                k <= 13,
                i < instances.len(),
                before.len() == WORDS_PER_INSTANCE * i,
                record@ == instances@[i as int]@.words(),
                words@ == before + record@.subrange(0, k as int),
            decreases 13 - k,
        {
            words.push(record[k]);
            assert(words@ =~= before + record@.subrange(0, k as int + 1));
            k += 1;
        }
        assert forall|j: int| 0 <= j < words@.len() implies words@[j] == #[trigger] instance_words(
            instances@,
        )[j] by {
            if j >= before.len() {
                let off = j - before.len();
                assert(j == 13 * i + off);
                assert(j / 13 == i as int && j % 13 == off) by (nonlinear_arith)
                    requires
                        j == 13 * i + off,
                        0 <= off < 13,
                ;
                assert(words@[j] == record@[off]);
            }
        }
        i += 1;
    }
    assert(words@ =~= instance_words(instances@));
    words
}

/// The frame that draws `batches` under `scale`.
pub fn plan_frame(scale: [u32; 2], batches: &[&SpriteBatch]) -> (r: Result<Frame, RenderError>)
    ensures
        match r {
            Ok(frame) => {
                &&& first_oversized(views(batches@)) is None
                &&& frame.clear@ == seq![0u32, 0u32, 0u32, 0u32]
                &&& frame.scale == scale
                &&& frame.draws@.len() == draws_of(views(batches@)).len()
                &&& forall|k: int|
                    0 <= k < frame.draws@.len() ==> (#[trigger] frame.draws@[k]).carries(
                        drawn(views(batches@))[k],
                        draws_of(views(batches@))[k],
                    )
            },
            Err(RenderError::TooManyInstances { batch }) => first_oversized(views(batches@))
                == Some(batch as int),
        },
{
    let mut draws: Vec<DrawCall> = Vec::new();
    let mut i: usize = 0;
    while i < batches.len()
        invariant
            i <= batches.len(),
            first_oversized(views(batches@).take(i as int)) is None,
            draws@.len() == drawn(views(batches@).take(i as int)).len(),
            draws@.len() == draws_of(views(batches@).take(i as int)).len(),
            forall|k: int|
                0 <= k < draws@.len() ==> (#[trigger] draws@[k]).carries(
                    drawn(views(batches@).take(i as int))[k],
                    draws_of(views(batches@).take(i as int))[k],
                ),
        decreases batches.len() - i,
    {
        let batch: &SpriteBatch = batches[i];
        let ghost all = views(batches@);
        proof {
            assert(all.take(i as int + 1).drop_last() =~= all.take(i as int));
            assert(all.take(i as int + 1).last() == batch@);
        }
        let count: usize = batch.len();
        if count > u32::MAX as usize {
            proof {
                lemma_first_oversized_prefix(all, i as int + 1);
            }
            return Err(RenderError::TooManyInstances { batch: i });
        }
        if count > 0 {
            let words: Vec<u32> = flatten(batch.instances());
            let translation: [u32; 2] = batch.translation();
            let instance_data: Vec<u8> = memory_image(words.as_slice());
            let translation_data: Vec<u8> = memory_image(translation.as_slice());
            draws.push(
                DrawCall {
                    batch: i,
                    instance_data,
                    translation_data,
                    vertices: VERTICES_PER_SPRITE,
                    instances: count as u32,
                },
            );
        }
        i += 1;
    }
    proof {
        assert(views(batches@).take(i as int) =~= views(batches@));
    }
    Ok(Frame { clear: [0, 0, 0, 0], scale, draws })
}

/// A batch that is too large in a prefix is the first too large batch of
/// the whole list as well, if none came before it.
proof fn lemma_first_oversized_prefix(batches: Seq<BatchView>, n: int)
    requires
        0 <= n <= batches.len(),
        first_oversized(batches.take(n)) is Some,
    ensures
        first_oversized(batches) == first_oversized(batches.take(n)),
    decreases batches.len() - n,
{
    if n < batches.len() {
        assert(batches.take(n + 1).drop_last() =~= batches.take(n));
        lemma_first_oversized_prefix(batches, n + 1);
    } else {
        assert(batches.take(n) =~= batches);
    }
}

/// The draws of a frame are those of the batches that hold instances, and
/// of no others: draw `k` is the draw of the batch at `drawn(batches)[k]`,
/// that batch is not empty, and the positions rise.
pub proof fn lemma_draws_follow_batches(batches: Seq<BatchView>)
    ensures
        draws_of(batches).len() == drawn(batches).len(),
        drawn(batches).len() <= batches.len(),
        forall|k: int|
            0 <= k < drawn(batches).len() ==> {
                &&& 0 <= (#[trigger] drawn(batches)[k]) < batches.len()
                &&& batches[drawn(batches)[k]].instances.len() > 0
                &&& draws_of(batches)[k] == draw_of(batches[drawn(batches)[k]])
            },
        forall|j: int, k: int|
            0 <= j < k < drawn(batches).len() ==> drawn(batches)[j] < drawn(batches)[k],
        forall|i: int|
            0 <= i < batches.len() && batches[i].instances.len() > 0 ==> drawn(batches).contains(i),
    decreases batches.len(),
{
    if batches.len() > 0 {
        let before = batches.drop_last();
        lemma_draws_follow_batches(before);
        let n = batches.len() - 1;
        assert forall|i: int|
            0 <= i < batches.len() && batches[i].instances.len() > 0 implies drawn(
            batches,
        ).contains(i) by {
            if i < n {
                assert(before[i] == batches[i]);
                assert(drawn(before).contains(i));
                let k = choose|k: int| 0 <= k < drawn(before).len() && drawn(before)[k] == i;
                assert(drawn(batches)[k] == i);
            } else {
                assert(drawn(batches)[drawn(batches).len() - 1] == i);
            }
        }
    }
}

/// A batch without instances has no draw of its own, and the draws of the
/// other batches are what they would be without it.
pub proof fn lemma_empty_batch_is_skipped(batches: Seq<BatchView>, i: int)
    requires
        0 <= i < batches.len(),
        batches[i].instances.len() == 0,
    ensures
        !drawn(batches).contains(i),
        draws_of(batches.remove(i)) == draws_of(batches),
    decreases batches.len(),
{
    lemma_draws_follow_batches(batches);
    let without = batches.remove(i);
    if i == batches.len() - 1 {
        assert(without =~= batches.drop_last());
    } else {
        lemma_empty_batch_is_skipped(batches.drop_last(), i);
        assert(without.drop_last() =~= batches.drop_last().remove(i));
        assert(without.last() == batches.last());
    }
}

} // verus!
