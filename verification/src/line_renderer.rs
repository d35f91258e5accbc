use vstd::prelude::*;
use crate::bytes::{is_memory_image, words_as_bytes};
use crate::error::Resource;
use crate::vector::{Mat4, Vec3};

verus! {

/// Components per vertex: three of position, three of colour.
pub const FLOATS: usize = 6;

/// Bytes per component.
pub const FLOAT_SIZE: usize = 4;

/// One line segment: two end points, each with its own colour.
#[derive(Copy, Clone, PartialEq, Eq, Structural, Debug)]
pub struct Segment {
    pub pos1: Vec3,
    pub color1: Vec3,
    pub pos2: Vec3,
    pub color2: Vec3,
}

impl Segment {
    /// The interleaved record that a segment contributes to a batch.
    pub open spec fn words(self) -> Seq<u32> {
        seq![
            self.pos1.x, self.pos1.y, self.pos1.z,
            self.color1.x, self.color1.y, self.color1.z,
            self.pos2.x, self.pos2.y, self.pos2.z,
            self.color2.x, self.color2.y, self.color2.z,
        ]
    }
}

/// The records of `segs`, one after another in the order given.
pub open spec fn flatten(segs: Seq<Segment>) -> Seq<u32>
    decreases segs.len(),
{
    if segs.len() == 0 {
        Seq::empty()
    } else {
        flatten(segs.drop_last()) + segs.last().words()
    }
}

/// How a batch reaches the vertex buffer.
#[derive(Copy, Clone, PartialEq, Eq, Structural, Debug)]
pub enum UploadMode {
    /// Allocate the buffer anew with the batch as its contents.
    Reallocate,
    /// Overwrite the front of the existing buffer with the batch.
    Update,
}

/// Where a batch stands in its life.
#[derive(Copy, Clone, PartialEq, Eq, Structural, Debug)]
pub enum Phase {
    /// Nothing is pending.
    Idle,
    /// Segments are pending for the next flush.
    Accumulating,
    /// The graphics objects were given up; nothing comes after.
    Destroyed,
}

/// What a flush asks of the graphics context, over plain words.
pub struct DrawPlan {
    pub matrix: Mat4,
    pub upload: UploadMode,
    pub words: Seq<u32>,
    pub vertex_count: nat,
}

/// What a flush asks of the graphics context: bind the line shader, set its
/// view-projection uniform to `matrix`, upload `bytes` as `upload` says, bind
/// the vertex array and draw `vertexCount` vertices as a line list.
#[derive(Debug)]
pub struct DrawCommand {
    pub matrix: Mat4,
    pub upload: UploadMode,
    pub bytes: Vec<u8>,
    pub vertexCount: usize,
}

impl DrawCommand {
    /// The command carries out `plan`: same matrix, same upload mode, same
    /// vertex count, and the plan's words as they lie in memory.
    pub open spec fn realizes(self, plan: DrawPlan) -> bool {
        &&& self.matrix == plan.matrix
        &&& self.upload == plan.upload
        &&& is_memory_image(plan.words, self.bytes@)
        &&& self.vertexCount == plan.vertex_count
    }
}

/// Where each vertex attribute lies within a vertex, in bytes.
#[derive(Copy, Clone, PartialEq, Eq, Structural, Debug)]
pub struct VertexLayout {
    /// Distance from one vertex to the next.
    pub stride: usize,
    /// Components of the position attribute.
    pub positionComponents: usize,
    /// Offset of the position attribute.
    pub positionOffset: usize,
    /// Components of the colour attribute.
    pub colorComponents: usize,
    /// Offset of the colour attribute.
    pub colorOffset: usize,
}

/// The state of a line batch as contracts see it.
pub struct LineRendererView {
    /// The vertex data appended since the last draw.
    pub pending: Seq<u32>,
    /// How many components were appended since the last draw.
    pub pushed: nat,
    /// How many components the last draw left in the vertex buffer.
    pub retained: nat,
    pub enabled: bool,
    pub destroyed: bool,
}

impl LineRendererView {
    /// The two counts of pending data agree, and the data is whole segments.
    pub open spec fn wf(self) -> bool {
        &&& self.pushed == self.pending.len()
        &&& self.pending.len() % 12 == 0
    }

    /// A fresh batch: nothing pending, nothing in the vertex buffer.
    pub open spec fn fresh() -> Self {
        LineRendererView {
            pending: Seq::empty(),
            pushed: 0,
            retained: 0,
            enabled: true,
            destroyed: false,
        }
    }

    /// The batch after one segment is submitted.
    pub open spec fn push_line(self, seg: Segment) -> Self {
        if self.enabled {
            LineRendererView {
                pending: self.pending + seg.words(),
                pushed: self.pushed + 12,
                ..self
            }
        } else {
            self
        }
    }

    /// The batch after each of `segs` is submitted in turn.
    pub open spec fn push_all(self, segs: Seq<Segment>) -> Self
        decreases segs.len(),
    {
        if segs.len() == 0 {
            self
        } else {
            self.push_all(segs.drop_last()).push_line(segs.last())
        }
    }

    /// Whether a flush draws: at least one whole segment is pending, by
    /// both counts.
    pub open spec fn draws(self) -> bool {
        self.pending.len() >= 12 && self.pushed >= 12
    }

    /// How a flush uploads: anew if the batch outgrew what the last draw
    /// left in the buffer, in place otherwise.
    pub open spec fn upload_mode(self) -> UploadMode {
        if self.pushed > self.retained {
            UploadMode::Reallocate
        } else {
            UploadMode::Update
        }
    }

    /// What a flush with `matrix` asks of the graphics context, if anything.
    pub open spec fn plan(self, matrix: Mat4) -> Option<DrawPlan> {
        if self.draws() {
            Some(
                DrawPlan {
                    matrix,
                    upload: self.upload_mode(),
                    words: self.pending,
                    vertex_count: self.pending.len() / 6,
                },
            )
        } else {
            None
        }
    }

    /// The batch after a flush.
    pub open spec fn flush(self) -> Self {
        if self.draws() {
            LineRendererView {
                pending: Seq::empty(),
                pushed: 0,
                retained: self.pushed,
                ..self
            }
        } else {
            self
        }
    }

    /// Where the batch stands in its life.
    pub open spec fn phase(self) -> Phase {
        if self.destroyed {
            Phase::Destroyed
        } else if self.pending.len() == 0 {
            Phase::Idle
        } else {
            Phase::Accumulating
        }
    }

    /// What `destroy` has to release, in the order of release: the shader
    /// program, then the vertex buffer, then the vertex array, unless they
    /// were released before.
    pub open spec fn releases(self) -> Seq<Resource> {
        if self.destroyed {
            Seq::empty()
        } else {
            seq![Resource::Program, Resource::Buffer, Resource::VertexArray]
        }
    }

    /// The batch after `destroy`.
    pub open spec fn destroy(self) -> Self {
        LineRendererView { destroyed: true, ..self }
    }
}

/// How many components the vertex buffer holds once `plan` is carried out on
/// a buffer that held `allocated`.
pub open spec fn allocated_after(allocated: nat, plan: Option<DrawPlan>) -> nat {
    match plan {
        Some(p) => if p.upload == UploadMode::Reallocate {
            p.words.len()
        } else {
            allocated
        },
        None => allocated,
    }
}

/// The client side of a batched line renderer: it gathers the vertex data of
/// the segments submitted during a frame and decides, at each flush, what is
/// uploaded, how, and how many vertices are drawn. The owner of the graphics
/// context carries out what `drawFlush` and `destroy` return.
pub struct LineRenderer {
    vec: Vec<u32>,
    floatsPushed: usize,
    lastFloatsPushed: usize,
    enabled: bool,
    destroyed: bool,
}

impl View for LineRenderer {
    type V = LineRendererView;

    closed spec fn view(&self) -> LineRendererView {
        LineRendererView {
            pending: self.vec@,
            pushed: self.floatsPushed as nat,
            retained: self.lastFloatsPushed as nat,
            enabled: self.enabled,
            destroyed: self.destroyed,
        }
    }
}

impl LineRenderer {
    /// A fresh, enabled batch with room reserved for `capacity` components.
    /// The reservation is a hint: it is not a limit, and it puts nothing in
    /// the vertex buffer.
    pub fn new(capacity: usize) -> (r: Self)
        requires
            capacity * FLOAT_SIZE <= isize::MAX,
        ensures
            r@ == LineRendererView::fresh(),
            r@.wf(),
    {
        LineRenderer {
            vec: Vec::with_capacity(capacity),
            floatsPushed: 0,
            lastFloatsPushed: 0,
            enabled: true,
            destroyed: false,
        }
    }

    /// The layout of one vertex in the buffer: position in the first three
    /// components, colour in the next three, vertices packed back to back.
    pub fn vertexLayout() -> (layout: VertexLayout)
        ensures
            layout.stride == 24,
            layout.positionComponents == 3,
            layout.positionOffset == 0,
            layout.colorComponents == 3,
            layout.colorOffset == 12,
    {
        let positionOffset: usize = 0;
        let colorOffset: usize = positionOffset + 3 * FLOAT_SIZE;
        VertexLayout {
            stride: FLOATS * FLOAT_SIZE,
            positionComponents: 3,
            positionOffset,
            colorComponents: 3,
            colorOffset,
        }
    }

    /// The name under which the line shader declares the position attribute.
    pub fn positionAttribute() -> (name: &'static str)
        ensures
            name@ == "i_position"@,
    {
        "i_position"
    }

    /// The name under which the line shader declares the colour attribute.
    pub fn colorAttribute() -> (name: &'static str)
        ensures
            name@ == "i_color"@,
    {
        "i_color"
    }

    /// The name of the line shader's view-projection uniform.
    pub fn matrixUniform() -> (name: &'static str)
        ensures
            name@ == "u_pvm"@,
    {
        "u_pvm"
    }

    /// Submits one segment. A disabled batch ignores it.
    pub fn pushLine(&mut self, pos1: Vec3, color1: Vec3, pos2: Vec3, color2: Vec3)
        requires
            old(self)@.wf(),
        ensures
            final(self)@ == old(self)@.push_line((Segment { pos1, color1, pos2, color2 })),
            final(self)@.wf(),
    {
        if !self.enabled {
            return;
        }
        self.vec.push(pos1.x);
        self.vec.push(pos1.y);
        self.vec.push(pos1.z);
        self.vec.push(color1.x);
        self.vec.push(color1.y);
        self.vec.push(color1.z);

        self.vec.push(pos2.x);
        self.vec.push(pos2.y);
        self.vec.push(pos2.z);
        self.vec.push(color2.x);
        self.vec.push(color2.y);
        self.vec.push(color2.z);

        proof {
            let seg = Segment { pos1, color1, pos2, color2 };
            assert(self.vec@ =~= old(self).vec@ + seg.words());
            assert(self.vec@.len() == self.vec.len());
        }
        self.floatsPushed += FLOATS * 2;
    }

    /// Ends the frame's batch. Returns the draw to carry out, or `None` when
    /// no whole segment is pending; either way nothing is pending afterwards.
    pub fn drawFlush(&mut self, pvMatrix: &Mat4) -> (cmd: Option<DrawCommand>)
        requires
            old(self)@.wf(),
        ensures
            final(self)@ == old(self)@.flush(),
            final(self)@.wf(),
            final(self)@.pending.len() == 0,
            cmd.is_some() == old(self)@.plan(*pvMatrix).is_some(),
            cmd.is_some() ==> cmd.unwrap().realizes(old(self)@.plan(*pvMatrix).unwrap()),
    {
        if self.vec.len() < FLOATS * 2 || self.floatsPushed < FLOATS * 2 {
            return None;
        }
        let upload = if self.floatsPushed > self.lastFloatsPushed {
            UploadMode::Reallocate
        } else {
            UploadMode::Update
        };
        let bytes = words_as_bytes(&self.vec);
        let drawCount: usize = self.vec.len() / FLOATS;

        self.vec.clear();
        self.lastFloatsPushed = self.floatsPushed;
        self.floatsPushed = 0;
        Some(DrawCommand { matrix: *pvMatrix, upload, bytes, vertexCount: drawCount })
    }

    /// Gates new submissions. Data already pending is still drawn by the next
    /// flush.
    pub fn setEnabled(&mut self, enabled: bool)
        ensures
            final(self)@ == (LineRendererView { enabled, ..old(self)@ }),
    {
        self.enabled = enabled;
    }

    /// Marks the batch destroyed. Returns what the owner has to release, in
    /// the order of release: the first time the shader program, the vertex
    /// buffer and the vertex array; on every later call nothing.
    pub fn destroy(&mut self) -> (release: Vec<Resource>)
        ensures
            release@ == old(self)@.releases(),
            final(self)@ == old(self)@.destroy(),
    {
        if self.destroyed {
            return Vec::new();
        }
        self.destroyed = true;
        let release = vec![Resource::Program, Resource::Buffer, Resource::VertexArray];
        assert(release@ =~= seq![Resource::Program, Resource::Buffer, Resource::VertexArray]);
        release
    }

    /// Where the batch stands in its life.
    pub fn phase(&self) -> (p: Phase)
        ensures
            p == self@.phase(),
    {
        if self.destroyed {
            Phase::Destroyed
        } else if self.vec.len() == 0 {
            Phase::Idle
        } else {
            Phase::Accumulating
        }
    }

    /// Whether submissions are accepted.
    pub fn isEnabled(&self) -> (b: bool)
        ensures
            b == self@.enabled,
    {
        self.enabled
    }

    /// Whether `destroy` has been called.
    pub fn isDestroyed(&self) -> (b: bool)
        ensures
            b == self@.destroyed,
    {
        self.destroyed
    }

    /// How many components are pending.
    pub fn pendingFloats(&self) -> (n: usize)
        ensures
            n == self@.pending.len(),
    {
        self.vec.len()
    }
}

} // verus!
