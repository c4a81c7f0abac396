use crate::g2d::pipeline::instance_attributes;
use crate::g2d::pipeline::tiles;
use crate::g2d::pipeline::VertexAttribute;
use crate::g2d::pipeline::VertexLayout;
use crate::geo::rect::Rect;
use vstd::prelude::*;

verus! {

/// Words in one instance record.
pub const WORDS_PER_INSTANCE: usize = 13;

/// Bytes in one instance record.
pub const BYTES_PER_INSTANCE: u64 = 52;

/// The bit pattern of `1.0`.
pub const ONE: u32 = 0x3f80_0000;

/// What an instance holds, as a value of the specification.
pub struct InstanceView {
    pub destination: Rect,
    pub source: Rect,
    pub rotation: u32,
    pub tint: Seq<u32>,
}

impl InstanceView {
    /// The record as the GPU reads it: destination corners, source corners,
    /// rotation, tint.
    pub open spec fn words(self) -> Seq<u32> {
        self.destination.corners() + self.source.corners() + seq![self.rotation] + self.tint
    }
}

/// The tint that leaves a sprite's colours as they are: opaque white.
pub open spec fn no_tint() -> Seq<u32> {
    seq![ONE, ONE, ONE, ONE]
}

/// One sprite to draw: where on the screen, which part of the sheet, turned
/// by which angle about the centre of the destination, and tinted how.
#[derive(Clone, Copy, Debug, PartialEq, Eq)]
pub struct Instance {
    destination: Rect,
    source: Rect,
    rotation: u32,
    tint: [u32; 4],
}

impl View for Instance {
    type V = InstanceView;

    closed spec fn view(&self) -> InstanceView {
        InstanceView {
            destination: self.destination,
            source: self.source,
            rotation: self.rotation,
            tint: self.tint@,
        }
    }
}

impl Instance {
    /// An untinted instance.
    pub fn new(destination: Rect, source: Rect, rotation: u32) -> (r: Instance)
        ensures
            r@ == (InstanceView { destination, source, rotation, tint: no_tint() }),
    {
        let r = Instance { destination, source, rotation, tint: [ONE, ONE, ONE, ONE] };
        assert(r.tint@ =~= no_tint());
        r
    }

    pub fn destination(&self) -> (r: Rect)
        ensures
            r == self@.destination,
    {
        self.destination
    }

    pub fn source(&self) -> (r: Rect)
        ensures
            r == self@.source,
    {
        self.source
    }

    pub fn rotation(&self) -> (r: u32)
        ensures
            r == self@.rotation,
    {
        self.rotation
    }

    pub fn tint(&self) -> (r: [u32; 4])
        ensures
            r@ == self@.tint,
    {
        self.tint
    }

    pub fn set_destination(&mut self, destination: Rect)
        ensures
            final(self)@ == (InstanceView { destination, ..old(self)@ }),
    {
        self.destination = destination;
    }

    pub fn set_source(&mut self, source: Rect)
        ensures
            final(self)@ == (InstanceView { source, ..old(self)@ }),
    {
        self.source = source;
    }

    pub fn set_rotation(&mut self, rotation: u32)
        ensures
            final(self)@ == (InstanceView { rotation, ..old(self)@ }),
    {
        self.rotation = rotation;
    }

    pub fn set_tint(&mut self, tint: [u32; 4])
        ensures
            final(self)@ == (InstanceView { tint: tint@, ..old(self)@ }),
    {
        self.tint = tint;
    }

    /// How the vertex stage reads a buffer of records: one record for each
    /// instance, and in each the fields in order and without gaps.
    pub fn desc() -> (r: VertexLayout)
        ensures
            r.stride == BYTES_PER_INSTANCE,
            r.per_instance,
            r.attributes@ == instance_attributes(),
            tiles(r.attributes@, BYTES_PER_INSTANCE as int),
    {
        let mut attributes: Vec<VertexAttribute> = Vec::new();
        attributes.push(VertexAttribute { offset: 0, shader_location: 0, words: 4 });
        attributes.push(VertexAttribute { offset: 16, shader_location: 1, words: 4 });
        attributes.push(VertexAttribute { offset: 32, shader_location: 2, words: 1 });
        attributes.push(VertexAttribute { offset: 36, shader_location: 3, words: 4 });
        assert(attributes@ =~= instance_attributes());
        VertexLayout { stride: BYTES_PER_INSTANCE, per_instance: true, attributes }
    }

    /// The record as the GPU reads it.
    pub fn to_words(&self) -> (r: [u32; 13])
        ensures
            r@ == self@.words(),
    {
        let d: [u32; 4] = self.destination.to_array();
        let s: [u32; 4] = self.source.to_array();
        let r: [u32; 13] = [
            d[0], d[1], d[2], d[3],
            s[0], s[1], s[2], s[3],
            self.rotation,
            self.tint[0], self.tint[1], self.tint[2], self.tint[3],
        ];
        assert(r@ =~= self@.words());
        r
    }
}

} // verus!
