use vstd::prelude::*;

use crate::frame::{slot_for_frame, slot_of_frame, Slot};
use crate::uniform::{uniform_bytes, uniform_of_bytes, lemma_uniform_round_trip, UniformData};
use crate::utils::number_bindings;

verus! {

/// Number of indices drawn for the full-screen quad: two triangles.
pub const QUAD_INDEX_COUNT: u32 = 6;

/// Corners of the full-screen quad as two triangles, in the order the index buffer
/// holds them.
pub open spec fn quad_index_seq() -> Seq<u16> {
    seq![0, 1, 2, 2, 1, 3]
}

/// The byte at `k` of the little-endian encoding of `indices`.
pub open spec fn index_byte(indices: Seq<u16>, k: int) -> u8 {
    if k % 2 == 0 {
        (indices[k / 2] & 0xff) as u8
    } else {
        (indices[k / 2] >> 8) as u8
    }
}

/// The indices of the full-screen quad.
pub fn quad_indices() -> (r: Vec<u16>)
    ensures
        r@ == quad_index_seq(),
        r@.len() == QUAD_INDEX_COUNT,
{
    let r: Vec<u16> = vec![0, 1, 2, 2, 1, 3];
    assert(r@ =~= quad_index_seq());
    r
}

/// The contents of an index buffer of 16-bit indices: each index as two
/// little-endian bytes.
pub fn index_bytes(indices: &Vec<u16>) -> (r: Vec<u8>)
    requires
        indices@.len() * 2 <= usize::MAX,
    ensures
        r@.len() == 2 * indices@.len(),
        forall|k: int| 0 <= k < r@.len() ==> #[trigger] r@[k] == index_byte(indices@, k),
{
    let mut out: Vec<u8> = Vec::new();
    let mut i: usize = 0;
    while i < indices.len()
        invariant
            i <= indices@.len(),
            out@.len() == 2 * i,
            forall|k: int| 0 <= k < out@.len() ==> #[trigger] out@[k] == index_byte(indices@, k),
        decreases indices@.len() - i,
    {
        let x = indices[i];
        out.push((x & 0xff) as u8);
        out.push((x >> 8) as u8);
        assert forall|k: int| 0 <= k < out@.len() implies #[trigger] out@[k] == index_byte(
            indices@,
            k,
        ) by {
            if k >= 2 * i {
                assert(k / 2 == i);
            }
        }
        i = i + 1;
    }
    out
}

/// A resource that the composite shader reads.
#[derive(Clone, Copy, Debug, PartialEq, Eq, Structural)]
pub enum CompositeBinding {
    /// The uniform buffer with the full output size.
    Uniform,
    /// The view of a slot texture.
    SlotView(Slot),
}

/// The binding set's resources in binding order: the shader expects the uniform buffer
/// at 0, the first slot at 1 and the second slot at 2.
pub open spec fn binding_order() -> Seq<CompositeBinding> {
    seq![
        CompositeBinding::Uniform,
        CompositeBinding::SlotView(Slot::First),
        CompositeBinding::SlotView(Slot::Second),
    ]
}

/// The binding set's resources, each with its binding index.
pub fn composite_bindings() -> (r: Vec<(u32, CompositeBinding)>)
    ensures
        r@.len() == binding_order().len(),
        forall|i: int| 0 <= i < r@.len() ==> #[trigger] r@[i] == (i as u32, binding_order()[i]),
{
    let order = vec![
        CompositeBinding::Uniform,
        CompositeBinding::SlotView(Slot::First),
        CompositeBinding::SlotView(Slot::Second),
    ];
    assert(order@ =~= binding_order());
    number_bindings(order)
}

/// The frame counter after one more composite; it wraps, which keeps the
/// alternation since the counter's range has an even size.
pub open spec fn next_frame(frame: u64) -> u64 {
    if frame == u64::MAX {
        0
    } else {
        (frame + 1) as u64
    }
}

/// What a renderer is, in the terms its contracts use.
pub ghost struct RendererModel {
    /// Full width of the composited frame.
    pub width: u32,
    /// Full height of the composited frame; each slot holds half of it.
    pub height: u32,
    /// Frame counter; its parity picks the slot written this frame.
    pub frame: u64,
    /// The uniform buffer and the binding set lag behind the size.
    pub dirty: bool,
    /// What the uniform buffer holds once the uploads issued so far have landed.
    pub uploaded: UniformData,
}

/// A full size that the renderer accepts: nothing empty, and an even height so that
/// the two halves cover it.
pub open spec fn valid_size(width: u32, height: u32) -> bool {
    width > 0 && height > 0 && height % 2 == 0
}

/// Whether the renderer accepts a full size of `width` × `height`.
pub fn is_valid_size(width: u32, height: u32) -> (r: bool)
    ensures
        r == valid_size(width, height),
{
    width > 0 && height > 0 && height % 2 == 0
}

impl RendererModel {
    /// Just built: the first slot is written first, and the uniform buffer was
    /// created with the size.
    pub open spec fn initial(width: u32, height: u32) -> RendererModel {
        RendererModel {
            width,
            height,
            frame: 0,
            dirty: false,
            uploaded: UniformData { width, height },
        }
    }

    /// The size is one the renderer accepts, and when nothing is pending the uniform
    /// buffer holds that size.
    pub open spec fn wf(self) -> bool {
        &&& valid_size(self.width, self.height)
        &&& !self.dirty ==> self.uploaded == self.payload()
    }

    /// The uniform payload that matches the current size.
    pub open spec fn payload(self) -> UniformData {
        UniformData { width: self.width, height: self.height }
    }

    /// Width and height of each slot texture.
    pub open spec fn slot_extent(self) -> (u32, u32) {
        (self.width, (self.height / 2) as u32)
    }

    /// The slot that receives this frame's new half-frame.
    pub open spec fn current_slot(self) -> Slot {
        slot_for_frame(self.frame)
    }

    /// What a flush hands out: the payload to upload, after which the binding set is
    /// rebuilt, or nothing when both are current.
    pub open spec fn flush_action(self) -> Option<UniformData> {
        if self.dirty {
            Some(self.payload())
        } else {
            None
        }
    }

    /// After a flush: nothing pending, the uniform buffer holds the current size.
    pub open spec fn flushed(self) -> RendererModel {
        if self.dirty {
            RendererModel { dirty: false, uploaded: self.payload(), ..self }
        } else {
            self
        }
    }

    /// After a resize: the new size, with the upload and the rebuild pending.
    pub open spec fn resized(self, width: u32, height: u32) -> RendererModel {
        RendererModel { width, height, dirty: true, ..self }
    }

    /// After a composite: flushed, and the frame counter one further.
    pub open spec fn drawn(self) -> RendererModel {
        RendererModel { frame: next_frame(self.frame), ..self.flushed() }
    }

    /// The renderer after `n` composites.
    pub open spec fn drawn_times(self, n: nat) -> RendererModel
        decreases n,
    {
        if n == 0 {
            self
        } else {
            self.drawn_times((n - 1) as nat).drawn()
        }
    }
}

/// A new renderer is current, about to write the first slot, and its slots are
/// `width` × `height / 2`.
pub proof fn lemma_initial(width: u32, height: u32)
    requires
        valid_size(width, height),
    ensures
        RendererModel::initial(width, height).wf(),
        RendererModel::initial(width, height).slot_extent() == (width, (height / 2) as u32),
        RendererModel::initial(width, height).current_slot() == Slot::First,
        RendererModel::initial(width, height).flush_action().is_none(),
{
}

/// Each composite moves the write target to the other slot, including when the
/// frame counter wraps.
pub proof fn lemma_draw_switches_slot(m: RendererModel)
    ensures
        m.drawn().current_slot() == m.current_slot().other(),
        m.drawn().width == m.width && m.drawn().height == m.height,
        m.wf() ==> m.drawn().wf(),
        !m.drawn().dirty,
{
}

/// Over any run of composites the write target alternates, one switch per composite.
pub proof fn lemma_slots_alternate(m: RendererModel, n: nat)
    requires
        m.wf(),
    ensures
        m.drawn_times(n).wf(),
        m.drawn_times(n).current_slot() == (if n % 2 == 0 {
            m.current_slot()
        } else {
            m.current_slot().other()
        }),
    decreases n,
{
    if n > 0 {
        lemma_slots_alternate(m, (n - 1) as nat);
        lemma_draw_switches_slot(m.drawn_times((n - 1) as nat));
    }
}

/// From construction, the slot written before composite `n + 1` is the first one
/// exactly when `n` is even.
pub proof fn lemma_initial_slot_sequence(width: u32, height: u32, n: nat)
    requires
        valid_size(width, height),
    ensures
        RendererModel::initial(width, height).drawn_times(n).current_slot() == (if n % 2 == 0 {
            Slot::First
        } else {
            Slot::Second
        }),
{
    lemma_slots_alternate(RendererModel::initial(width, height), n);
}

/// A second flush with nothing changed in between hands out nothing and changes
/// nothing.
pub proof fn lemma_flush_idempotent(m: RendererModel)
    ensures
        m.flushed().flush_action().is_none(),
        m.flushed().flushed() == m.flushed(),
{
}

/// After a resize both slots have the new extent at once; the next composite uploads
/// the new size exactly once and rebuilds the bindings, and the composites after it
/// upload nothing until the size changes again.
pub proof fn lemma_resize_then_draw(m: RendererModel, width: u32, height: u32, n: nat)
    requires
        m.wf(),
        valid_size(width, height),
    ensures
        m.resized(width, height).wf(),
        m.resized(width, height).slot_extent() == (width, (height / 2) as u32),
        m.resized(width, height).current_slot() == m.current_slot(),
        m.resized(width, height).flush_action() == Some((UniformData { width, height })),
        m.resized(width, height).drawn().drawn_times(n).flush_action().is_none(),
        m.resized(width, height).drawn().drawn_times(n).uploaded == (UniformData { width, height }),
    decreases n,
{
    if n > 0 {
        lemma_resize_then_draw(m, width, height, (n - 1) as nat);
    }
}

/// Once flushed, the uniform buffer holds the size of the last construction or
/// resize, and reading its bytes back gives that size.
pub proof fn lemma_flush_uploads_current(m: RendererModel)
    requires
        m.wf(),
    ensures
        m.flushed().uploaded == m.payload(),
        m.drawn().uploaded == m.payload(),
        uniform_of_bytes(uniform_bytes(m.flushed().uploaded)) == (UniformData {
            width: m.width,
            height: m.height,
        }),
{
    lemma_uniform_round_trip(m.payload());
}

/// What one composite asks of the graphics backend, in order.
#[derive(Clone, Copy, Debug, PartialEq, Eq, Structural)]
pub struct CompositePass {
    /// When present: write this payload into the uniform buffer, then rebuild the
    /// binding set over the uniform buffer and the current views of both slots.
    pub refresh: Option<UniformData>,
    /// The slot that received this frame's half-frame.
    pub written: Slot,
    /// Indices of the full-screen quad to draw into the output.
    pub index_count: u32,
}

/// Extent of each slot for a full frame of `width` × `height`.
pub fn slot_extent(width: u32, height: u32) -> (r: (u32, u32))
    ensures
        r == (width, (height / 2) as u32),
{
    (width, height / 2)
}

/// Double-buffered half-height render targets, composited into a full frame by
/// interleaving the newest half-frame with the one before it. `T` is the backend's
/// texture; the renderer holds both slots and replaces them only together.
pub struct InterlacedRendererState<T> {
    width: u32,
    height: u32,
    render_texture1: T,
    render_texture2: T,
    uploaded: UniformData,
    need_write_data: bool,
    frame_number: u64,
}

impl<T> View for InterlacedRendererState<T> {
    type V = RendererModel;

    closed spec fn view(&self) -> RendererModel {
        RendererModel {
            width: self.width,
            height: self.height,
            frame: self.frame_number,
            dirty: self.need_write_data,
            uploaded: self.uploaded,
        }
    }
}

impl<T> InterlacedRendererState<T> {
    pub open spec fn wf(&self) -> bool {
        self@.wf()
    }

    /// The texture held in `slot`.
    pub closed spec fn slot_texture(&self, slot: Slot) -> T {
        match slot {
            Slot::First => self.render_texture1,
            Slot::Second => self.render_texture2,
        }
    }

    /// Both slots hold the same textures in `self` and `other`.
    pub open spec fn same_textures(&self, other: &Self) -> bool {
        &&& self.slot_texture(Slot::First) == other.slot_texture(Slot::First)
        &&& self.slot_texture(Slot::Second) == other.slot_texture(Slot::Second)
    }

    /// A renderer for frames of `width` × `height` over two slot textures that the
    /// backend created at `slot_extent(width, height)`; the uniform buffer starts
    /// with `uniform_data()`.
    pub fn new(width: u32, height: u32, render_texture1: T, render_texture2: T) -> (r: Self)
        requires
            valid_size(width, height),
        ensures
            r@ == RendererModel::initial(width, height),
            r.slot_texture(Slot::First) == render_texture1,
            r.slot_texture(Slot::Second) == render_texture2,
            r.wf(),
    {
        InterlacedRendererState {
            width,
            height,
            render_texture1,
            render_texture2,
            uploaded: UniformData { width, height },
            need_write_data: false,
            frame_number: 0,
        }
    }

    /// Takes a new full size and both slots, recreated at `slot_extent(width, height)`.
    /// The uniform upload and the binding rebuild wait for the next flush.
    pub fn resize(&mut self, width: u32, height: u32, render_texture1: T, render_texture2: T)
        requires
            old(self).wf(),
            valid_size(width, height),
        ensures
            final(self)@ == old(self)@.resized(width, height),
            final(self).slot_texture(Slot::First) == render_texture1,
            final(self).slot_texture(Slot::Second) == render_texture2,
            final(self).wf(),
    {
        self.width = width;
        self.height = height;
        self.render_texture1 = render_texture1;
        self.render_texture2 = render_texture2;
        self.need_write_data = true;
    }

    /// Hands out the pending uniform upload, if any, and marks the uniform buffer and
    /// the binding set current.
    pub fn write_needed_data(&mut self) -> (r: Option<UniformData>)
        requires
            old(self).wf(),
        ensures
            r == old(self)@.flush_action(),
            final(self)@ == old(self)@.flushed(),
            final(self).same_textures(old(self)),
            final(self).wf(),
    {
        if self.need_write_data {
            let data = UniformData { width: self.width, height: self.height };
            self.uploaded = data;
            self.need_write_data = false;
            Some(data)
        } else {
            None
        }
    }

    /// The slot to render this frame's half-frame into.
    pub fn current_slot(&self) -> (r: Slot)
        ensures
            r == self@.current_slot(),
    {
        slot_of_frame(self.frame_number)
    }

    /// The texture to render this frame's half-frame into.
    pub fn get_render_texture(&self) -> (r: &T)
        ensures
            *r == self.slot_texture(self@.current_slot()),
    {
        if self.frame_number % 2 == 0 {
            &self.render_texture1
        } else {
            &self.render_texture2
        }
    }

    /// The texture held in `slot`.
    pub fn texture(&self, slot: Slot) -> (r: &T)
        ensures
            *r == self.slot_texture(slot),
    {
        match slot {
            Slot::First => &self.render_texture1,
            Slot::Second => &self.render_texture2,
        }
    }

    /// Composites the two slots into the output: flushes first, so the pass never
    /// samples a stale view, then moves on to the other slot.
    pub fn draw(&mut self) -> (r: CompositePass)
        requires
            old(self).wf(),
        ensures
            r.refresh == old(self)@.flush_action(),
            r.written == old(self)@.current_slot(),
            r.index_count == QUAD_INDEX_COUNT,
            final(self)@ == old(self)@.drawn(),
            final(self).same_textures(old(self)),
            final(self).wf(),
    {
        let refresh = self.write_needed_data();
        let written = self.current_slot();
        self.frame_number = if self.frame_number == u64::MAX {
            0
        } else {
            self.frame_number + 1
        };
        CompositePass { refresh, written, index_count: QUAD_INDEX_COUNT }
    }

    /// Width and height of each slot texture.
    pub fn slot_size(&self) -> (r: (u32, u32))
        ensures
            r == self@.slot_extent(),
    {
        slot_extent(self.width, self.height)
    }

    /// The payload that matches the current size.
    pub fn uniform_data(&self) -> (r: UniformData)
        ensures
            r == self@.payload(),
    {
        UniformData { width: self.width, height: self.height }
    }

    /// What the uniform buffer holds once the uploads handed out so far have landed.
    pub fn uniform_payload(&self) -> (r: UniformData)
        ensures
            r == self@.uploaded,
    {
        self.uploaded
    }

    /// Whether an upload and a binding rebuild are pending.
    pub fn needs_write(&self) -> (r: bool)
        ensures
            r == self@.dirty,
    {
        self.need_write_data
    }

    /// Number of composites so far, wrapping at the end of its range.
    pub fn frame_number(&self) -> (r: u64)
        ensures
            r == self@.frame,
    {
        self.frame_number
    }
}

} // verus!
