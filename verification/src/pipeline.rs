//! The draw programs of the engine, each with the buffers it needs.
//!
//! A pipeline here is the ledger of a GPU pipeline: it knows the capacity
//! and content length of its buffers and says which commands a render pass
//! holds. The host owns the GPU objects and replays the commands.

use crate::buffer::{BufferCommand, CapacityAllocationError, ManagedBuffer, ManagedBufferView};
use crate::payload::{camera_payload, index_payload, instance_payload, vertex_payload};
use crate::types::{
    CameraUniform, InstanceData, MeshVertex, INDEX_SIZE, INSTANCE_SIZE, VERTEX_SIZE,
};
use vstd::prelude::*;

verus! {

/// The draw programs that the engine knows.
#[derive(Clone, Copy, Debug, PartialEq, Eq, Structural)]
pub enum PipelineKind {
    /// Instanced quads, one for each instance record.
    Quad,
    /// An indexed mesh under a camera.
    Gui,
}

/// One command of a render pass.
#[derive(Clone, Copy, Debug, PartialEq, Eq, Structural)]
pub enum PassCommand {
    /// Select the draw program.
    SetPipeline(PipelineKind),
    /// Bind, at `index`, the bind group of the buffer allocation
    /// `generation`.
    SetBindGroup { index: u32, generation: u64 },
    /// Bind, at `slot`, the whole vertex buffer allocation `generation`.
    SetVertexBuffer { slot: u32, generation: u64 },
    /// Bind the whole index buffer allocation `generation`, with 32-bit
    /// indices.
    SetIndexBuffer { generation: u64 },
    /// Draw `instance_count` instances of the program's own vertices.
    Draw { instance_count: u32 },
    /// Draw `instance_count` instances of the first `index_count` indices,
    /// with base vertex 0.
    DrawIndexed { index_count: u32, instance_count: u32 },
}

/// A payload to write, with the command that writes it.
#[derive(Debug)]
pub struct Upload {
    pub command: BufferCommand,
    pub payload: Vec<u8>,
}

/// The number of bytes that `count` records of `record_size` bytes take,
/// capped at the largest 64-bit number.
pub open spec fn payload_bytes(count: nat, record_size: nat) -> nat {
    if count * record_size <= u64::MAX {
        count * record_size
    } else {
        u64::MAX as nat
    }
}

/// Computes the number of bytes that `count` records of `record_size` bytes
/// take, or `None` where that number does not fit in 64 bits.
pub fn payload_size(count: usize, record_size: u64) -> (r: Option<u64>)
    ensures
        r == (if count * record_size <= u64::MAX {
            Some((count * record_size) as u64)
        } else {
            None::<u64>
        }),
{
    (count as u64).checked_mul(record_size)
}

/// The commands of the render pass of a quad pipeline.
pub open spec fn quad_pass(instances: ManagedBufferView, instance_count: u32) -> Seq<PassCommand> {
    seq![
        PassCommand::SetPipeline(PipelineKind::Quad),
        PassCommand::SetBindGroup { index: 0, generation: instances.handle as u64 },
        PassCommand::Draw { instance_count },
    ]
}

/// The pipeline that draws one quad for each instance record. Its instance
/// buffer is bound to the program through a bind group.
#[derive(Debug)]
pub struct QuadPipeline {
    instances: ManagedBuffer,
}

impl View for QuadPipeline {
    type V = ManagedBufferView;

    closed spec fn view(&self) -> ManagedBufferView {
        self.instances@
    }
}

impl QuadPipeline {
    #[verifier::type_invariant]
    closed spec fn inv(&self) -> bool {
        self.instances.wf() && self.instances@.record_size == 64 && self.instances@.bound
    }

    /// What holds of the instance buffer of every quad pipeline: its
    /// records have 64 bytes, it has a bind group, and the records in use
    /// fit in it.
    pub open spec fn wf(&self) -> bool {
        &&& self@.record_size == 64
        &&& self@.bound
        &&& self@.logical_length * 64 <= self@.capacity_bytes
        &&& self@.capacity_bytes <= u64::MAX
        &&& self@.handle < 59
    }

    /// A quad pipeline whose instance buffer is created holding the byte
    /// image of `instances`.
    pub fn new(instances: &Vec<InstanceData>) -> (r: QuadPipeline)
        ensures
            r.wf(),
            r@ == (ManagedBufferView {
                capacity_bytes: 64 * instances@.len(),
                logical_length: instances@.len(),
                record_size: 64,
                handle: 0,
                bound: true,
            }),
    {
        let payload = instance_payload(instances);
        let buffer = ManagedBuffer::holding(INSTANCE_SIZE, payload.as_slice(), true).unwrap();
        proof {
            buffer.lemma_wf_bounds();
        }
        QuadPipeline { instances: buffer }
    }

    /// A second ledger with the same entries, for an owner that rebuilds
    /// itself around the changed ledger.
    pub(crate) fn snapshot(&self) -> (r: QuadPipeline)
        ensures
            r == *self,
            r@ == self@,
            r.wf(),
    {
        proof {
            use_type_invariant(self);
            self.instances.lemma_wf_bounds();
        }
        QuadPipeline { instances: self.instances.snapshot() }
    }

    /// The number of bytes that the instance buffer holds.
    pub fn capacity_bytes(&self) -> (r: u64)
        ensures
            r == self@.capacity_bytes,
            self.wf(),
    {
        proof {
            use_type_invariant(self);
            self.instances.lemma_wf_bounds();
        }
        self.instances.capacity_bytes()
    }

    /// The number of instance records that were written last.
    pub fn instance_count(&self) -> (r: u64)
        ensures
            r == self@.logical_length,
            self.wf(),
    {
        proof {
            use_type_invariant(self);
            self.instances.lemma_wf_bounds();
        }
        self.instances.logical_length()
    }

    /// The generation of the current allocation of the instance buffer,
    /// which its bind group references.
    pub fn handle(&self) -> (r: u64)
        ensures
            r == self@.handle,
            self.wf(),
    {
        proof {
            use_type_invariant(self);
            self.instances.lemma_wf_bounds();
        }
        self.instances.handle()
    }

    /// Makes room in the instance buffer for `instances`, 64 bytes each. See
    /// [`ManagedBuffer::ensure_capacity`].
    pub fn ensure_capacity(&mut self, instances: &Vec<InstanceData>) -> (r: Result<
        Vec<BufferCommand>,
        CapacityAllocationError,
    >)
        ensures
            final(self).wf(),
            r is Ok <==> old(self)@.can_hold(64 * instances@.len()),
            r matches Ok(commands) ==> {
                &&& commands@ == old(self)@.ensure_commands(64 * instances@.len())
                &&& final(self)@ == old(self)@.ensured(64 * instances@.len())
                &&& final(self)@.capacity_bytes >= 64 * instances@.len()
            },
            r matches Err(error) ==> {
                &&& final(self)@ == old(self)@
                &&& error == old(self)@.refusal(payload_bytes(instances@.len(), 64))
            },
    {
        proof {
            use_type_invariant(&*self);
            self.instances.lemma_wf_bounds();
            crate::buffer::lemma_capacity_after_covers(
                self.instances@.capacity_bytes as int,
                (64 * instances@.len()) as int,
            );
        }
        let needed: u64 = match payload_size(instances.len(), INSTANCE_SIZE) {
            Some(needed) => needed,
            None => {
                return Err(
                    CapacityAllocationError {
                        capacity_bytes: self.instances.capacity_bytes(),
                        needed_bytes: u64::MAX,
                    },
                );
            },
        };
        let mut ledger = self.instances.snapshot();
        let r = ledger.ensure_capacity(needed);
        proof {
            ledger.lemma_wf_bounds();
        }
        *self = QuadPipeline { instances: ledger };
        r
    }

    /// Records that the byte image of `instances` is written to the instance
    /// buffer, and hands it back with the command that writes it. Instances
    /// that do not fit in the buffer are refused and nothing changes: room
    /// has to be made with [`QuadPipeline::ensure_capacity`] first.
    pub fn update_instances(&mut self, instances: &Vec<InstanceData>) -> (r: Result<
        Upload,
        CapacityAllocationError,
    >)
        ensures
            final(self).wf(),
            r is Ok <==> 64 * instances@.len() <= old(self)@.capacity_bytes,
            r matches Ok(upload) ==> {
                &&& upload.command == old(self)@.write_command(64 * instances@.len())
                &&& crate::payload::is_payload_of(
                    upload.payload@,
                    crate::payload::instance_words(instances@),
                )
                &&& final(self)@ == (ManagedBufferView {
                    logical_length: instances@.len(),
                    ..old(self)@
                })
            },
            r matches Err(error) ==> {
                &&& final(self)@ == old(self)@
                &&& error == old(self)@.refusal(64 * instances@.len())
            },
    {
        proof {
            use_type_invariant(&*self);
        }
        let payload = instance_payload(instances);
        let mut ledger = self.instances.snapshot();
        let r = ledger.update(payload.as_slice());
        proof {
            ledger.lemma_wf_bounds();
        }
        *self = QuadPipeline { instances: ledger };
        match r {
            Ok(command) => Ok(Upload { command, payload }),
            Err(error) => Err(error),
        }
    }

    /// The commands of the render pass that draws `instance_count` quads:
    /// the program is selected, the bind group of the instance buffer is
    /// bound at index 0, and one draw call is made. A count of zero is in
    /// order and draws nothing.
    pub fn draw(&self, instance_count: u32) -> (r: Vec<PassCommand>)
        ensures
            r@ == quad_pass(self@, instance_count),
    {
        let mut commands: Vec<PassCommand> = Vec::new();
        commands.push(PassCommand::SetPipeline(PipelineKind::Quad));
        commands.push(PassCommand::SetBindGroup { index: 0, generation: self.instances.handle() });
        commands.push(PassCommand::Draw { instance_count });
        proof {
            assert(commands@ =~= quad_pass(self@, instance_count));
        }
        commands
    }
}

/// The aspect ratio under which the camera projects when the target's size
/// is not known, as width to height.
pub const DEFAULT_ASPECT: (u32, u32) = (16, 9);

/// The aspect ratio of a target of the given size, as width to height: the
/// size itself where neither dimension is zero, 16 to 9 otherwise.
pub open spec fn aspect_of(width: u32, height: u32) -> (u32, u32) {
    if width > 0 && height > 0 {
        (width, height)
    } else {
        (16u32, 9u32)
    }
}

/// Computes the aspect ratio of a target of the given size.
pub fn camera_aspect(width: u32, height: u32) -> (r: (u32, u32))
    ensures
        r == aspect_of(width, height),
{
    if width > 0 && height > 0 {
        (width, height)
    } else {
        DEFAULT_ASPECT
    }
}

/// What a [`GUIPipeline`] records: its three buffers and the number of
/// indices that it draws.
pub struct GUIPipelineView {
    pub vertex_buffer: ManagedBufferView,
    pub index_buffer: ManagedBufferView,
    pub camera_buffer: ManagedBufferView,
    pub index_count: u32,
}

impl GUIPipelineView {
    /// What holds of every such pipeline: vertices have 32 bytes and indices
    /// 4, neither buffer has a bind group, and the camera buffer holds one
    /// matrix of 64 bytes behind a bind group.
    pub open spec fn wf(self) -> bool {
        &&& self.vertex_buffer.record_size == 32 && !self.vertex_buffer.bound
        &&& self.index_buffer.record_size == 4 && !self.index_buffer.bound
        &&& self.camera_buffer == (ManagedBufferView {
            capacity_bytes: 64,
            logical_length: 1,
            record_size: 64,
            handle: 0,
            bound: true,
        })
    }

    /// The commands of the render pass that draws `instance_count`
    /// instances of the mesh: the program is selected, the camera is bound
    /// at index 0, the vertex buffer at slot 0 and the index buffer are
    /// bound, and one indexed draw call is made over all indices.
    pub open spec fn pass(self, instance_count: u32) -> Seq<PassCommand> {
        seq![
            PassCommand::SetPipeline(PipelineKind::Gui),
            PassCommand::SetBindGroup { index: 0, generation: self.camera_buffer.handle as u64 },
            PassCommand::SetVertexBuffer { slot: 0, generation: self.vertex_buffer.handle as u64 },
            PassCommand::SetIndexBuffer { generation: self.index_buffer.handle as u64 },
            PassCommand::DrawIndexed { index_count: self.index_count, instance_count },
        ]
    }
}

/// The pipeline that draws one indexed mesh under a camera.
#[derive(Debug)]
pub struct GUIPipeline {
    vertex_buffer: ManagedBuffer,
    index_buffer: ManagedBuffer,
    camera_buffer: ManagedBuffer,
    index_count: u32,
}

impl View for GUIPipeline {
    type V = GUIPipelineView;

    closed spec fn view(&self) -> GUIPipelineView {
        GUIPipelineView {
            vertex_buffer: self.vertex_buffer@,
            index_buffer: self.index_buffer@,
            camera_buffer: self.camera_buffer@,
            index_count: self.index_count,
        }
    }
}

impl GUIPipeline {
    #[verifier::type_invariant]
    closed spec fn inv(&self) -> bool {
        &&& self.vertex_buffer.wf()
        &&& self.index_buffer.wf()
        &&& self.camera_buffer.wf()
        &&& self@.wf()
    }

    /// A pipeline whose buffers are created holding the byte images of
    /// `vertices`, of `indices`, and of the camera that `perspective` makes
    /// for the default aspect ratio. The number of indices to draw is the
    /// number of `indices`, reduced to 32 bits.
    pub fn new<F: FnOnce(u32, u32) -> CameraUniform>(
        vertices: &[MeshVertex],
        indices: &[u32],
        perspective: F,
    ) -> (r: GUIPipeline)
        requires
            call_requires(perspective, (16u32, 9u32)),
        ensures
            r@.wf(),
            r@.vertex_buffer == (ManagedBufferView {
                capacity_bytes: 32 * vertices@.len(),
                logical_length: vertices@.len(),
                record_size: 32,
                handle: 0,
                bound: false,
            }),
            r@.index_buffer == (ManagedBufferView {
                capacity_bytes: 4 * indices@.len(),
                logical_length: indices@.len(),
                record_size: 4,
                handle: 0,
                bound: false,
            }),
            r@.index_count == indices@.len() % 0x1_0000_0000,
    {
        let camera = perspective(DEFAULT_ASPECT.0, DEFAULT_ASPECT.1);
        let vertex_bytes = vertex_payload(vertices);
        let index_bytes = index_payload(indices);
        let camera_bytes = camera_payload(&camera);
        let vertex_buffer = ManagedBuffer::holding(VERTEX_SIZE, vertex_bytes.as_slice(), false).unwrap();
        let index_buffer = ManagedBuffer::holding(INDEX_SIZE, index_bytes.as_slice(), false).unwrap();
        let camera_buffer = ManagedBuffer::holding(64, camera_bytes.as_slice(), true).unwrap();
        let index_count: u32 = ((indices.len() as u64) % 0x1_0000_0000) as u32;
        GUIPipeline { vertex_buffer, index_buffer, camera_buffer, index_count }
    }

    /// The number of indices that a draw call covers.
    pub fn index_count(&self) -> (r: u32)
        ensures
            r == self@.index_count,
            self@.wf(),
    {
        proof {
            use_type_invariant(self);
        }
        self.index_count
    }

    /// The number of bytes that the vertex buffer holds.
    pub fn vertex_capacity(&self) -> (r: u64)
        ensures
            r == self@.vertex_buffer.capacity_bytes,
    {
        self.vertex_buffer.capacity_bytes()
    }

    /// The number of bytes that the index buffer holds.
    pub fn index_capacity(&self) -> (r: u64)
        ensures
            r == self@.index_buffer.capacity_bytes,
    {
        self.index_buffer.capacity_bytes()
    }

    /// The commands of the render pass that draws `instance_count`
    /// instances of the mesh. A count of zero is in order and draws nothing.
    pub fn draw(&self, instance_count: u32) -> (r: Vec<PassCommand>)
        ensures
            r@ == self@.pass(instance_count),
    {
        let mut commands: Vec<PassCommand> = Vec::new();
        commands.push(PassCommand::SetPipeline(PipelineKind::Gui));
        commands.push(
            PassCommand::SetBindGroup { index: 0, generation: self.camera_buffer.handle() },
        );
        commands.push(
            PassCommand::SetVertexBuffer { slot: 0, generation: self.vertex_buffer.handle() },
        );
        commands.push(PassCommand::SetIndexBuffer { generation: self.index_buffer.handle() });
        commands.push(
            PassCommand::DrawIndexed { index_count: self.index_count, instance_count },
        );
        proof {
            assert(commands@ =~= self@.pass(instance_count));
        }
        commands
    }

    /// Fits the camera to a target of the given size: `perspective` makes
    /// the camera for the target's aspect ratio, or for 16 to 9 where a
    /// dimension is zero, and its byte image is handed back with the command
    /// that writes it to the camera buffer. The ledger does not change.
    pub fn update_camera<F: FnOnce(u32, u32) -> CameraUniform>(
        &self,
        width: u32,
        height: u32,
        perspective: F,
    ) -> (r: Upload)
        requires
            call_requires(perspective, aspect_of(width, height)),
        ensures
            r.command == self@.camera_buffer.write_command(64),
            exists|camera: CameraUniform|
                {
                    &&& call_ensures(perspective, aspect_of(width, height), camera)
                    &&& crate::payload::is_payload_of(r.payload@, camera.view_proj@)
                },
    {
        let (numerator, denominator) = camera_aspect(width, height);
        let camera = perspective(numerator, denominator);
        let payload = camera_payload(&camera);
        let mut ledger = self.camera_buffer.snapshot();
        proof {
            use_type_invariant(self);
        }
        let command = ledger.update(payload.as_slice()).unwrap();
        Upload { command, payload }
    }

    /// Makes room in the vertex buffer for `vertices`, 32 bytes each. See
    /// [`ManagedBuffer::ensure_capacity`].
    pub fn ensure_vertex_capacity(&mut self, vertices: &[MeshVertex]) -> (r: Result<
        Vec<BufferCommand>,
        CapacityAllocationError,
    >)
        ensures
            final(self)@.wf(),
            final(self)@.index_buffer == old(self)@.index_buffer,
            final(self)@.camera_buffer == old(self)@.camera_buffer,
            final(self)@.index_count == old(self)@.index_count,
            r is Ok <==> old(self)@.vertex_buffer.can_hold(32 * vertices@.len()),
            r matches Ok(commands) ==> {
                &&& commands@ == old(self)@.vertex_buffer.ensure_commands(32 * vertices@.len())
                &&& final(self)@.vertex_buffer == old(self)@.vertex_buffer.ensured(
                    32 * vertices@.len(),
                )
            },
            r matches Err(error) ==> {
                &&& final(self)@ == old(self)@
                &&& error == old(self)@.vertex_buffer.refusal(payload_bytes(vertices@.len(), 32))
            },
    {
        proof {
            use_type_invariant(&*self);
            self.vertex_buffer.lemma_wf_bounds();
            crate::buffer::lemma_capacity_after_covers(
                self.vertex_buffer@.capacity_bytes as int,
                (32 * vertices@.len()) as int,
            );
        }
        let needed: u64 = match payload_size(vertices.len(), VERTEX_SIZE) {
            Some(needed) => needed,
            None => {
                return Err(
                    CapacityAllocationError {
                        capacity_bytes: self.vertex_buffer.capacity_bytes(),
                        needed_bytes: u64::MAX,
                    },
                );
            },
        };
        let mut ledger = self.vertex_buffer.snapshot();
        let r = ledger.ensure_capacity(needed);
        *self = GUIPipeline {
            vertex_buffer: ledger,
            index_buffer: self.index_buffer.snapshot(),
            camera_buffer: self.camera_buffer.snapshot(),
            index_count: self.index_count,
        };
        r
    }

    /// Makes room in the index buffer for `indices`, 4 bytes each. See
    /// [`ManagedBuffer::ensure_capacity`].
    pub fn ensure_index_capacity(&mut self, indices: &[u32]) -> (r: Result<
        Vec<BufferCommand>,
        CapacityAllocationError,
    >)
        ensures
            final(self)@.wf(),
            final(self)@.vertex_buffer == old(self)@.vertex_buffer,
            final(self)@.camera_buffer == old(self)@.camera_buffer,
            final(self)@.index_count == old(self)@.index_count,
            r is Ok <==> old(self)@.index_buffer.can_hold(4 * indices@.len()),
            r matches Ok(commands) ==> {
                &&& commands@ == old(self)@.index_buffer.ensure_commands(4 * indices@.len())
                &&& final(self)@.index_buffer == old(self)@.index_buffer.ensured(
                    4 * indices@.len(),
                )
            },
            r matches Err(error) ==> {
                &&& final(self)@ == old(self)@
                &&& error == old(self)@.index_buffer.refusal(payload_bytes(indices@.len(), 4))
            },
    {
        proof {
            use_type_invariant(&*self);
            self.index_buffer.lemma_wf_bounds();
            crate::buffer::lemma_capacity_after_covers(
                self.index_buffer@.capacity_bytes as int,
                (4 * indices@.len()) as int,
            );
        }
        let needed: u64 = match payload_size(indices.len(), INDEX_SIZE) {
            Some(needed) => needed,
            None => {
                return Err(
                    CapacityAllocationError {
                        capacity_bytes: self.index_buffer.capacity_bytes(),
                        needed_bytes: u64::MAX,
                    },
                );
            },
        };
        let mut ledger = self.index_buffer.snapshot();
        let r = ledger.ensure_capacity(needed);
        *self = GUIPipeline {
            vertex_buffer: self.vertex_buffer.snapshot(),
            index_buffer: ledger,
            camera_buffer: self.camera_buffer.snapshot(),
            index_count: self.index_count,
        };
        r
    }
}

} // verus!
