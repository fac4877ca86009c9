//! Capacity management for GPU buffers.
//!
//! A [`ManagedBuffer`] is the engine's ledger for one GPU buffer and for the
//! bind group that may reference it. The ledger decides; the host carries the
//! decisions out on the device by executing the [`BufferCommand`]s that each
//! operation hands back, in the order given.

use vstd::arithmetic::power2::{
    lemma2_to64, lemma2_to64_rest, lemma_pow2_pos, lemma_pow2_strictly_increases,
    lemma_pow2_unfold, pow2,
};
use vstd::prelude::*;

verus! {

/// The smallest capacity, in bytes, that a grown buffer is given.
pub const MIN_CAPACITY: u64 = 64;

/// The capacity from which doubling starts: the current one, but at least
/// [`MIN_CAPACITY`].
pub open spec fn growth_floor(capacity: int) -> int {
    if capacity >= 64 {
        capacity
    } else {
        64
    }
}

/// How often `from` has to be doubled until it reaches `needed`.
pub open spec fn doublings(from: int, needed: int) -> nat
    decreases
        (if needed > from {
            needed - from
        } else {
            0
        }),
{
    if 1 <= from < needed {
        1 + doublings(2 * from, needed)
    } else {
        0
    }
}

/// The capacity that growth from `capacity` arrives at for `needed` bytes.
pub open spec fn growth_target(capacity: int, needed: int) -> int {
    growth_floor(capacity) * pow2(doublings(growth_floor(capacity), needed))
}

/// The capacity of a buffer after one request for `needed` bytes: unchanged
/// where it suffices, grown otherwise.
pub open spec fn capacity_after(capacity: int, needed: int) -> int {
    if needed <= capacity {
        capacity
    } else {
        growth_target(capacity, needed)
    }
}

proof fn lemma_doubling_reaches(from: int, needed: int)
    requires
        from >= 1,
    ensures
        from * pow2(doublings(from, needed)) >= needed,
        from * pow2(doublings(from, needed)) >= from,
        doublings(from, needed) > 0 ==> from * pow2((doublings(from, needed) - 1) as nat) < needed,
        from < needed ==> doublings(from, needed) >= 1,
    decreases
        (if needed > from {
            needed - from
        } else {
            0
        }),
{
    lemma2_to64();
    if from < needed {
        let rest = doublings(2 * from, needed);
        lemma_doubling_reaches(2 * from, needed);
        lemma_pow2_unfold(rest + 1);
        lemma_pow2_pos(rest);
        assert(from * pow2(rest + 1) == (2 * from) * pow2(rest)) by (nonlinear_arith)
            requires
                pow2(rest + 1) == 2 * pow2(rest),
        ;
        if rest > 0 {
            lemma_pow2_unfold(rest);
            assert(from * pow2(rest) == (2 * from) * pow2((rest - 1) as nat)) by (nonlinear_arith)
                requires
                    pow2(rest) == 2 * pow2((rest - 1) as nat),
            ;
        } else {
            assert(from * pow2(0) == from) by (nonlinear_arith)
                requires
                    pow2(0) == 1,
            ;
        }
    } else {
        assert(from * pow2(0) == from) by (nonlinear_arith)
            requires
                pow2(0) == 1,
        ;
    }
}

proof fn lemma_scaled_pow2_increases(base: int, j: nat, k: nat)
    requires
        base >= 1,
        j < k,
    ensures
        base * pow2(j) < base * pow2(k),
{
    lemma_pow2_strictly_increases(j, k);
    assert(base * pow2(j) < base * pow2(k)) by (nonlinear_arith)
        requires
            base >= 1,
            pow2(j) < pow2(k),
    ;
}

/// Growth law. Where a request makes the buffer grow, or the buffer already
/// holds at least [`MIN_CAPACITY`] bytes, the capacity after the request is
/// `max(capacity, 64) * 2^k` for the smallest `k >= 0` that makes this value
/// reach `needed`.
pub proof fn lemma_growth_law(capacity: int, needed: int)
    requires
        0 <= capacity,
        needed > capacity || capacity >= 64,
    ensures
        ({
            let k = doublings(growth_floor(capacity), needed);
            &&& capacity_after(capacity, needed) == growth_floor(capacity) * pow2(k)
            &&& growth_floor(capacity) * pow2(k) >= needed
            &&& forall|j: nat| j < k ==> growth_floor(capacity) * #[trigger] pow2(j) < needed
        }),
{
    let floor = growth_floor(capacity);
    let k = doublings(floor, needed);
    lemma_doubling_reaches(floor, needed);
    lemma2_to64();
    if needed <= capacity {
        assert(floor * pow2(0) == floor) by (nonlinear_arith)
            requires
                pow2(0) == 1,
        ;
    }
    assert forall|j: nat| j < k implies floor * #[trigger] pow2(j) < needed by {
        if j < k - 1 {
            lemma_scaled_pow2_increases(floor, j, (k - 1) as nat);
        }
    }
}

/// A request never shrinks a buffer, and leaves it large enough for what was
/// asked.
pub proof fn lemma_capacity_after_covers(capacity: int, needed: int)
    requires
        0 <= capacity,
    ensures
        capacity_after(capacity, needed) >= capacity,
        capacity_after(capacity, needed) >= needed,
{
    if needed > capacity {
        lemma_doubling_reaches(growth_floor(capacity), needed);
    }
}

/// Computes the capacity that growth from `capacity` arrives at for `needed`
/// bytes: `capacity`, but at least 64, doubled until it reaches `needed`.
/// Returns `None` where that capacity does not fit in 64 bits.
pub fn grown_capacity(capacity: u64, needed: u64) -> (r: Option<u64>)
    ensures
        r == (if growth_target(capacity as int, needed as int) <= u64::MAX {
            Some(growth_target(capacity as int, needed as int) as u64)
        } else {
            None::<u64>
        }),
{
    let mut reached: u64 = if capacity >= MIN_CAPACITY {
        capacity
    } else {
        MIN_CAPACITY
    };
    proof {
        lemma2_to64();
    }
    while reached < needed
        invariant
            reached >= 64,
            growth_target(capacity as int, needed as int) == reached * pow2(
                doublings(reached as int, needed as int),
            ),
        decreases
            (if needed > reached {
                needed - reached
            } else {
                0
            }),
    {
        let ghost rest = doublings(2 * reached, needed as int);
        proof {
            lemma_pow2_unfold(rest + 1);
            lemma_pow2_pos(rest);
            assert(reached * pow2(rest + 1) == (2 * reached) * pow2(rest)) by (nonlinear_arith)
                requires
                    pow2(rest + 1) == 2 * pow2(rest),
            ;
            assert((2 * reached) * pow2(rest) >= 2 * reached) by (nonlinear_arith)
                requires
                    pow2(rest) >= 1,
                    reached >= 0,
            ;
        }
        if reached > u64::MAX / 2 {
            return None;
        }
        reached = 2 * reached;
    }
    proof {
        assert(reached * pow2(0) == reached) by (nonlinear_arith)
            requires
                pow2(0) == 1,
        ;
    }
    Some(reached)
}

/// Growth of a buffer was asked for that no allocation can satisfy.
#[derive(Clone, Copy, Debug, PartialEq, Eq, Structural)]
pub struct CapacityAllocationError {
    /// The capacity of the buffer when the request was made.
    pub capacity_bytes: u64,
    /// The number of bytes that was asked for.
    pub needed_bytes: u64,
}

/// One step that the host performs on the device for a managed buffer.
///
/// Allocations of one buffer are told apart by their generation: the first
/// has generation 0, and each replacement has the next one.
#[derive(Clone, Copy, Debug, PartialEq, Eq, Structural)]
pub enum BufferCommand {
    /// Create the allocation `generation` with room for `size` bytes.
    Allocate { generation: u64, size: u64 },
    /// Point the bind group at the allocation `generation`.
    Bind { generation: u64 },
    /// Give the allocation `generation` back to the device.
    Release { generation: u64 },
    /// Write the first `len` bytes of the payload to the allocation
    /// `generation`, starting at offset 0.
    Write { generation: u64, len: u64 },
}

/// What a [`ManagedBuffer`] records, as mathematical values.
pub struct ManagedBufferView {
    pub capacity_bytes: nat,
    pub logical_length: nat,
    pub record_size: nat,
    pub handle: nat,
    pub bound: bool,
}

/// The part of the device that one managed buffer touches: the allocations
/// that exist, each with its size, and the allocation that the bind group
/// points at.
pub struct DeviceView {
    pub allocations: Map<nat, nat>,
    pub bound_to: Option<nat>,
}

impl DeviceView {
    /// The device as a managed buffer expects it: exactly the current
    /// allocation exists, and the bind group, if there is one, points at it.
    pub open spec fn of(buffer: ManagedBufferView) -> DeviceView {
        DeviceView {
            allocations: Map::empty().insert(buffer.handle, buffer.capacity_bytes),
            bound_to: if buffer.bound {
                Some(buffer.handle)
            } else {
                None
            },
        }
    }

    /// No bind group points at an allocation that is gone.
    pub open spec fn sound(self) -> bool {
        self.bound_to matches Some(generation) ==> self.allocations.dom().contains(generation)
    }

    /// Whether the device can carry `command` out without touching an
    /// allocation that does not exist, creating one twice, writing past the
    /// end of one, or releasing the one that the bind group points at.
    pub open spec fn accepts(self, command: BufferCommand) -> bool {
        match command {
            BufferCommand::Allocate { generation, size } => !self.allocations.dom().contains(
                generation as nat,
            ),
            BufferCommand::Bind { generation } => self.allocations.dom().contains(generation as nat),
            BufferCommand::Release { generation } => {
                &&& self.allocations.dom().contains(generation as nat)
                &&& self.bound_to != Some(generation as nat)
            },
            BufferCommand::Write { generation, len } => {
                &&& self.allocations.dom().contains(generation as nat)
                &&& len <= self.allocations[generation as nat]
            },
        }
    }

    /// The device after `command`.
    pub open spec fn apply(self, command: BufferCommand) -> DeviceView {
        match command {
            BufferCommand::Allocate { generation, size } => DeviceView {
                allocations: self.allocations.insert(generation as nat, size as nat),
                ..self
            },
            BufferCommand::Bind { generation } => DeviceView {
                bound_to: Some(generation as nat),
                ..self
            },
            BufferCommand::Release { generation } => DeviceView {
                allocations: self.allocations.remove(generation as nat),
                ..self
            },
            BufferCommand::Write { generation, len } => self,
        }
    }

    /// Whether the device can carry out `commands` one after another, each on
    /// the device that the ones before it left, and stays sound after each.
    pub open spec fn accepts_all(self, commands: Seq<BufferCommand>) -> bool
        decreases commands.len(),
    {
        commands.len() == 0 || {
            &&& self.accepts(commands[0])
            &&& self.apply(commands[0]).sound()
            &&& self.apply(commands[0]).accepts_all(commands.skip(1))
        }
    }

    /// The device after `commands`.
    pub open spec fn apply_all(self, commands: Seq<BufferCommand>) -> DeviceView
        decreases commands.len(),
    {
        if commands.len() == 0 {
            self
        } else {
            self.apply(commands[0]).apply_all(commands.skip(1))
        }
    }
}

/// A command that a sound device accepts leaves it sound.
pub proof fn lemma_accepted_command_keeps_sound(device: DeviceView, command: BufferCommand)
    requires
        device.sound(),
        device.accepts(command),
    ensures
        device.apply(command).sound(),
{
}

/// The commands that replace the allocation of `buffer` by one of
/// `new_capacity` bytes: the new allocation is created first, then the bind
/// group, where there is one, is pointed at it, and only then is the old
/// allocation released.
pub open spec fn growth_commands(buffer: ManagedBufferView, new_capacity: nat) -> Seq<
    BufferCommand,
> {
    let allocate = BufferCommand::Allocate {
        generation: (buffer.handle + 1) as u64,
        size: new_capacity as u64,
    };
    let release = BufferCommand::Release { generation: buffer.handle as u64 };
    if buffer.bound {
        seq![allocate, BufferCommand::Bind { generation: (buffer.handle + 1) as u64 }, release]
    } else {
        seq![allocate, release]
    }
}

/// The buffer after its allocation was replaced by one of `new_capacity`
/// bytes.
pub open spec fn regrown(buffer: ManagedBufferView, new_capacity: nat) -> ManagedBufferView {
    ManagedBufferView { capacity_bytes: new_capacity, handle: buffer.handle + 1, ..buffer }
}

impl ManagedBufferView {
    /// Whether room for `needed` bytes can be made: the capacity that the
    /// request leads to fits in 64 bits.
    pub open spec fn can_hold(self, needed: nat) -> bool {
        capacity_after(self.capacity_bytes as int, needed as int) <= u64::MAX
    }

    /// The buffer after room for `needed` bytes was made.
    pub open spec fn ensured(self, needed: nat) -> ManagedBufferView {
        if needed <= self.capacity_bytes {
            self
        } else {
            regrown(self, growth_target(self.capacity_bytes as int, needed as int) as nat)
        }
    }

    /// The commands that make room for `needed` bytes: none where the
    /// capacity suffices, the growth commands otherwise.
    pub open spec fn ensure_commands(self, needed: nat) -> Seq<BufferCommand> {
        if needed <= self.capacity_bytes {
            Seq::empty()
        } else {
            growth_commands(self, growth_target(self.capacity_bytes as int, needed as int) as nat)
        }
    }

    /// The buffer after a payload of `len` bytes, which fits, was written to
    /// it: the records in use are the whole records of the payload.
    pub open spec fn updated(self, len: nat) -> ManagedBufferView {
        ManagedBufferView { logical_length: len / self.record_size, ..self }
    }

    /// The command that writes a payload of `len` bytes.
    pub open spec fn write_command(self, len: nat) -> BufferCommand {
        BufferCommand::Write { generation: self.handle as u64, len: len as u64 }
    }

    /// The buffer after room was made for a payload of `len` bytes and the
    /// payload was written.
    pub open spec fn uploaded(self, len: nat) -> ManagedBufferView {
        self.ensured(len).updated(len)
    }

    /// The commands that make room for a payload of `len` bytes and write
    /// it, in this order.
    pub open spec fn upload_commands(self, len: nat) -> Seq<BufferCommand> {
        self.ensure_commands(len).push(self.ensured(len).write_command(len))
    }

    /// The error of a request for `needed` bytes that cannot be served.
    pub open spec fn refusal(self, needed: nat) -> CapacityAllocationError {
        CapacityAllocationError {
            capacity_bytes: self.capacity_bytes as u64,
            needed_bytes: needed as u64,
        }
    }
}

impl ManagedBufferView {
    /// The buffer after a run of requests for room, made one after another:
    /// a request that can be served is, and one that cannot changes
    /// nothing.
    pub open spec fn after_requests(self, requests: Seq<nat>) -> ManagedBufferView
        decreases requests.len(),
    {
        if requests.len() == 0 {
            self
        } else {
            let before = self.after_requests(requests.drop_last());
            if before.can_hold(requests.last()) {
                before.ensured(requests.last())
            } else {
                before
            }
        }
    }

    /// Whether every request of a run can be served when its turn comes.
    pub open spec fn all_served(self, requests: Seq<nat>) -> bool {
        forall|n: int|
            0 <= n < requests.len() ==> (#[trigger] self.after_requests(requests.take(n))).can_hold(
                requests[n],
            )
    }
}

/// Over any run of requests for room the capacity never decreases. Where
/// every request of the run is served, the capacity after each request is at
/// least as large as every request made so far. This holds in particular of
/// runs whose requests never decrease.
pub proof fn lemma_requests_never_shrink(buffer: ManagedBufferView, requests: Seq<nat>)
    ensures
        forall|m: int, n: int|
            0 <= m <= n <= requests.len() ==> (#[trigger] buffer.after_requests(
                requests.take(n),
            )).capacity_bytes >= (#[trigger] buffer.after_requests(requests.take(m))).capacity_bytes,
        buffer.all_served(requests) ==> forall|n: int, j: int|
            0 <= j < n <= requests.len() ==> (#[trigger] buffer.after_requests(
                requests.take(n),
            )).capacity_bytes >= #[trigger] requests[j],
    decreases requests.len(),
{
    let len = requests.len() as int;
    assert(requests.take(len) == requests);
    if len > 0 {
        let front = requests.drop_last();
        let before = buffer.after_requests(front);
        lemma_requests_never_shrink(buffer, front);
        lemma_capacity_after_covers(before.capacity_bytes as int, requests.last() as int);
        assert(requests.take(len - 1) == front);
        assert(front.take(len - 1) == front);
        assert forall|m: int, n: int| 0 <= m <= n <= requests.len() implies (
        #[trigger] buffer.after_requests(requests.take(n))).capacity_bytes >= (
        #[trigger] buffer.after_requests(requests.take(m))).capacity_bytes by {
            if m < len {
                assert(requests.take(m) == front.take(m));
            }
            if n < len {
                assert(requests.take(n) == front.take(n));
            } else if m < len {
                assert(buffer.after_requests(front.take(len - 1)).capacity_bytes
                    >= buffer.after_requests(front.take(m)).capacity_bytes);
            }
        }
        if buffer.all_served(requests) {
            assert(buffer.all_served(front)) by {
                assert forall|n: int| 0 <= n < front.len() implies (
                #[trigger] buffer.after_requests(front.take(n))).can_hold(front[n]) by {
                    assert(requests.take(n) == front.take(n));
                    assert(buffer.after_requests(requests.take(n)).can_hold(requests[n]));
                }
            }
            assert(buffer.after_requests(requests.take(len - 1)).can_hold(requests[len - 1]));
            assert forall|n: int, j: int| 0 <= j < n <= requests.len() implies (
            #[trigger] buffer.after_requests(requests.take(n))).capacity_bytes
                >= #[trigger] requests[j] by {
                if n < len {
                    assert(requests.take(n) == front.take(n));
                    assert(front[j] == requests[j]);
                } else if j < len - 1 {
                    assert(front[j] == requests[j]);
                    assert(buffer.after_requests(front.take(len - 1)).capacity_bytes >= front[j]);
                }
            }
        }
    }
}

/// Replacing an allocation never leaves the bind group pointing at an
/// allocation that is gone: the device accepts the growth commands in their
/// order, is sound after each of them, and ends as the grown buffer expects
/// it.
pub proof fn lemma_growth_never_stale(buffer: ManagedBufferView, new_capacity: nat)
    requires
        buffer.handle + 1 <= u64::MAX,
        new_capacity <= u64::MAX,
    ensures
        DeviceView::of(buffer).sound(),
        DeviceView::of(buffer).accepts_all(growth_commands(buffer, new_capacity)),
        DeviceView::of(buffer).apply_all(growth_commands(buffer, new_capacity)) == DeviceView::of(
            regrown(buffer, new_capacity),
        ),
{
    let commands = growth_commands(buffer, new_capacity);
    let d0 = DeviceView::of(buffer);
    let d1 = d0.apply(commands[0]);
    let rest1 = commands.skip(1);
    assert(d0.accepts(commands[0]));
    assert(d1.sound());
    if buffer.bound {
        let d2 = d1.apply(rest1[0]);
        let rest2 = rest1.skip(1);
        let d3 = d2.apply(rest2[0]);
        let rest3 = rest2.skip(1);
        assert(rest3.len() == 0);
        assert(d3.accepts_all(rest3));
        assert(d2.accepts(rest2[0]));
        assert(d2.accepts_all(rest2));
        assert(d1.accepts_all(rest1));
        assert(d3.apply_all(rest3) == d3);
        assert(d2.apply_all(rest2) == d3);
        assert(d1.apply_all(rest1) == d3);
        assert(d3.allocations =~= DeviceView::of(regrown(buffer, new_capacity)).allocations);
    } else {
        let d2 = d1.apply(rest1[0]);
        let rest2 = rest1.skip(1);
        assert(rest2.len() == 0);
        assert(d2.accepts_all(rest2));
        assert(d1.accepts_all(rest1));
        assert(d2.apply_all(rest2) == d2);
        assert(d1.apply_all(rest1) == d2);
        assert(d2.allocations =~= DeviceView::of(regrown(buffer, new_capacity)).allocations);
    }
}

/// An upload never writes past the end of an allocation or to one that is
/// gone: the device accepts the commands of an upload that can be served in
/// their order, is sound after each of them, and ends as the buffer after
/// the upload expects it.
pub proof fn lemma_upload_accepted(buffer: ManagedBufferView, len: nat)
    requires
        buffer.capacity_bytes <= u64::MAX,
        buffer.handle + 1 <= u64::MAX,
        buffer.can_hold(len),
    ensures
        DeviceView::of(buffer).accepts_all(buffer.upload_commands(len)),
        DeviceView::of(buffer).apply_all(buffer.upload_commands(len)) == DeviceView::of(
            buffer.uploaded(len),
        ),
{
    let prepared = buffer.ensured(len);
    let write = prepared.write_command(len);
    let growth = buffer.ensure_commands(len);
    let commands = buffer.upload_commands(len);
    lemma_capacity_after_covers(buffer.capacity_bytes as int, len as int);
    let settled = DeviceView::of(prepared);
    assert(settled.sound() && settled.accepts(write) && settled.apply(write) == settled);
    assert(DeviceView::of(buffer.uploaded(len)) == settled);
    if len > buffer.capacity_bytes {
        lemma_growth_never_stale(buffer, prepared.capacity_bytes);
    }
    lemma_accepts_then(DeviceView::of(buffer), growth, write);
}

/// A device that accepts a run of commands, and one more command after
/// them, accepts the run with that command at its end.
proof fn lemma_accepts_then(device: DeviceView, commands: Seq<BufferCommand>, last: BufferCommand)
    requires
        device.accepts_all(commands),
        device.apply_all(commands).accepts(last),
        device.apply_all(commands).apply(last).sound(),
    ensures
        device.accepts_all(commands.push(last)),
        device.apply_all(commands.push(last)) == device.apply_all(commands).apply(last),
    decreases commands.len(),
{
    let extended = commands.push(last);
    if commands.len() == 0 {
        assert(extended.skip(1).len() == 0);
        assert(extended[0] == last);
        assert(device.apply(last).accepts_all(extended.skip(1)));
        assert(device.apply(last).apply_all(extended.skip(1)) == device.apply(last));
    } else {
        assert(extended[0] == commands[0]);
        assert(extended.skip(1) == commands.skip(1).push(last));
        lemma_accepts_then(device.apply(commands[0]), commands.skip(1), last);
    }
}

/// The ledger of one GPU buffer: how many bytes its allocation holds, how
/// many records of the payload are in use, which allocation is the current
/// one, and whether a bind group references it.
///
/// The allocation and the bind group form one unit. The only operation that
/// replaces the allocation, [`ManagedBuffer::ensure_capacity`], moves the
/// bind group along with it.
#[derive(Debug)]
pub struct ManagedBuffer {
    capacity_bytes: u64,
    logical_length: u64,
    record_size: u64,
    handle: u64,
    bound_group: Option<u64>,
}

impl View for ManagedBuffer {
    type V = ManagedBufferView;

    closed spec fn view(&self) -> ManagedBufferView {
        ManagedBufferView {
            capacity_bytes: self.capacity_bytes as nat,
            logical_length: self.logical_length as nat,
            record_size: self.record_size as nat,
            handle: self.handle as nat,
            bound: self.bound_group is Some,
        }
    }
}

impl ManagedBuffer {
    /// What holds of every managed buffer: the records in use fit in the
    /// allocation, a record has at least one byte, the bind group refers to
    /// the current allocation, and an allocation of generation `n` above
    /// zero holds at least `32 * 2^n` bytes.
    #[verifier::type_invariant]
    pub closed spec fn wf(&self) -> bool {
        &&& self.record_size >= 1
        &&& self.logical_length * self.record_size <= self.capacity_bytes
        &&& self.bound_group matches Some(generation) ==> generation == self.handle
        &&& self.handle == 0 || self.capacity_bytes >= 32 * pow2(self.handle as nat)
    }

    /// A well-formed buffer keeps the records in use within its capacity,
    /// and has been replaced fewer than 59 times.
    pub proof fn lemma_wf_bounds(&self)
        requires
            self.wf(),
        ensures
            self@.record_size >= 1,
            self@.logical_length * self@.record_size <= self@.capacity_bytes,
            self@.capacity_bytes <= u64::MAX,
            self@.handle < 59,
    {
        lemma2_to64();
        lemma2_to64_rest();
        if self.handle >= 59 {
            if self.handle > 59 {
                lemma_pow2_strictly_increases(59, self.handle as nat);
            }
            assert(32 * pow2(self.handle as nat) >= 32 * pow2(59));
        }
    }

    /// Starts the ledger of a buffer whose first allocation holds
    /// `capacity_bytes` bytes, for records of `record_size` bytes each, with
    /// or without a bind group. No record is in use yet. Returns `None` for a
    /// record size of zero.
    pub fn new(record_size: u64, capacity_bytes: u64, bound: bool) -> (r: Option<ManagedBuffer>)
        ensures
            r is Some <==> record_size >= 1,
            r matches Some(buffer) ==> buffer.wf() && buffer@ == (ManagedBufferView {
                capacity_bytes: capacity_bytes as nat,
                logical_length: 0,
                record_size: record_size as nat,
                handle: 0,
                bound,
            }),
    {
        if record_size == 0 {
            return None;
        }
        Some(
            ManagedBuffer {
                capacity_bytes,
                logical_length: 0,
                record_size,
                handle: 0,
                bound_group: if bound {
                    Some(0)
                } else {
                    None
                },
            },
        )
    }

    /// Starts the ledger of a buffer that was created holding `payload`: its
    /// first allocation has the payload's length, and the records in use are
    /// the whole records of the payload. Returns `None` for a record size of
    /// zero.
    pub fn holding(record_size: u64, payload: &[u8], bound: bool) -> (r: Option<ManagedBuffer>)
        ensures
            r is Some <==> record_size >= 1,
            r matches Some(buffer) ==> buffer.wf() && buffer@ == (ManagedBufferView {
                capacity_bytes: payload@.len(),
                logical_length: payload@.len() / (record_size as nat),
                record_size: record_size as nat,
                handle: 0,
                bound,
            }),
    {
        if record_size == 0 {
            return None;
        }
        let len: u64 = payload.len() as u64;
        let records: u64 = len / record_size;
        proof {
            assert(records * record_size <= len) by (nonlinear_arith)
                requires
                    records == len / record_size,
                    record_size >= 1,
            ;
        }
        Some(
            ManagedBuffer {
                capacity_bytes: len,
                logical_length: records,
                record_size,
                handle: 0,
                bound_group: if bound {
                    Some(0)
                } else {
                    None
                },
            },
        )
    }

    /// A second ledger with the same entries, for an owner that rebuilds
    /// itself around the changed ledger.
    pub(crate) fn snapshot(&self) -> (r: ManagedBuffer)
        ensures
            r == *self,
            r.wf(),
    {
        proof {
            use_type_invariant(self);
        }
        ManagedBuffer {
            capacity_bytes: self.capacity_bytes,
            logical_length: self.logical_length,
            record_size: self.record_size,
            handle: self.handle,
            bound_group: self.bound_group,
        }
    }

    /// The number of bytes that the current allocation holds.
    pub fn capacity_bytes(&self) -> (r: u64)
        ensures
            r == self@.capacity_bytes,
    {
        self.capacity_bytes
    }

    /// The number of records of the last payload.
    pub fn logical_length(&self) -> (r: u64)
        ensures
            r == self@.logical_length,
    {
        self.logical_length
    }

    /// The number of bytes of one record.
    pub fn record_size(&self) -> (r: u64)
        ensures
            r == self@.record_size,
    {
        self.record_size
    }

    /// The generation of the current allocation.
    pub fn handle(&self) -> (r: u64)
        ensures
            r == self@.handle,
    {
        self.handle
    }

    /// The generation of the allocation that the bind group references, or
    /// `None` where the buffer has no bind group. It is always the current
    /// allocation.
    pub fn bound_group(&self) -> (r: Option<u64>)
        ensures
            r == (if self@.bound {
                Some(self@.handle as u64)
            } else {
                None::<u64>
            }),
    {
        proof {
            use_type_invariant(self);
        }
        self.bound_group
    }

    /// Makes room for `needed_bytes` bytes.
    ///
    /// Where the capacity suffices nothing changes and no command is handed
    /// back. Otherwise the capacity becomes `max(capacity, 64)` doubled until
    /// it reaches `needed_bytes`, the allocation is replaced, and the commands
    /// that perform the replacement on the device are handed back in the
    /// order in which the host must execute them. Where the new capacity does
    /// not fit in 64 bits the request fails and nothing changes.
    pub fn ensure_capacity(&mut self, needed_bytes: u64) -> (r: Result<
        Vec<BufferCommand>,
        CapacityAllocationError,
    >)
        ensures
            final(self).wf(),
            r is Ok <==> old(self)@.can_hold(needed_bytes as nat),
            r matches Ok(commands) ==> {
                &&& commands@ == old(self)@.ensure_commands(needed_bytes as nat)
                &&& final(self)@ == old(self)@.ensured(needed_bytes as nat)
                &&& final(self)@.capacity_bytes == capacity_after(
                    old(self)@.capacity_bytes as int,
                    needed_bytes as int,
                )
                &&& final(self)@.capacity_bytes >= needed_bytes
                &&& final(self)@.capacity_bytes >= old(self)@.capacity_bytes
                &&& needed_bytes <= old(self)@.capacity_bytes ==> *final(self) == *old(self)
            },
            r matches Err(error) ==> {
                &&& *final(self) == *old(self)
                &&& error == old(self)@.refusal(needed_bytes as nat)
            },
    {
        proof {
            use_type_invariant(&*self);
            self.lemma_wf_bounds();
            lemma_capacity_after_covers(self.capacity_bytes as int, needed_bytes as int);
        }
        if needed_bytes <= self.capacity_bytes {
            return Ok(Vec::new());
        }
        let target: u64 = match grown_capacity(self.capacity_bytes, needed_bytes) {
            Some(target) => target,
            None => {
                return Err(
                    CapacityAllocationError { capacity_bytes: self.capacity_bytes, needed_bytes },
                );
            },
        };
        let released: u64 = self.handle;
        let fresh: u64 = released + 1;
        let mut commands: Vec<BufferCommand> = Vec::new();
        commands.push(BufferCommand::Allocate { generation: fresh, size: target });
        if self.bound_group.is_some() {
            commands.push(BufferCommand::Bind { generation: fresh });
        }
        commands.push(BufferCommand::Release { generation: released });
        proof {
            let floor = growth_floor(self.capacity_bytes as int);
            lemma_doubling_reaches(floor, needed_bytes as int);
            lemma_growth_doubles(self.capacity_bytes as int, needed_bytes as int);
            lemma_pow2_unfold(fresh as nat);
            lemma2_to64();
            assert(commands@ =~= growth_commands(self@, target as nat));
        }
        let bound_group: Option<u64> = if self.bound_group.is_some() {
            Some(fresh)
        } else {
            None
        };
        *self = ManagedBuffer {
            capacity_bytes: target,
            logical_length: self.logical_length,
            record_size: self.record_size,
            handle: fresh,
            bound_group,
        };
        Ok(commands)
    }

    /// Records that `payload` is written to the buffer from offset 0 on, and
    /// hands back the command that writes it. The number of records in use
    /// becomes the number of whole records in the payload. A payload that
    /// does not fit in the allocation is refused and nothing changes: room
    /// has to be made with [`ManagedBuffer::ensure_capacity`] first.
    pub fn update(&mut self, payload: &[u8]) -> (r: Result<BufferCommand, CapacityAllocationError>)
        ensures
            final(self).wf(),
            r is Ok <==> payload@.len() <= old(self)@.capacity_bytes,
            r matches Ok(command) ==> {
                &&& command == old(self)@.write_command(payload@.len())
                &&& final(self)@ == old(self)@.updated(payload@.len())
            },
            r matches Err(error) ==> {
                &&& *final(self) == *old(self)
                &&& error == old(self)@.refusal(payload@.len())
            },
    {
        proof {
            use_type_invariant(&*self);
        }
        let len: u64 = payload.len() as u64;
        if len > self.capacity_bytes {
            return Err(
                CapacityAllocationError { capacity_bytes: self.capacity_bytes, needed_bytes: len },
            );
        }
        let records: u64 = len / self.record_size;
        proof {
            assert(records * self.record_size <= len) by (nonlinear_arith)
                requires
                    records == len / self.record_size,
                    self.record_size >= 1,
            ;
        }
        *self = ManagedBuffer {
            capacity_bytes: self.capacity_bytes,
            logical_length: records,
            record_size: self.record_size,
            handle: self.handle,
            bound_group: self.bound_group,
        };
        Ok(BufferCommand::Write { generation: self.handle, len })
    }

    /// Makes room for `payload` and records that it is written: the commands
    /// of [`ManagedBuffer::ensure_capacity`] for the payload's length,
    /// followed by the write of [`ManagedBuffer::update`]. Where no room can
    /// be made nothing changes.
    pub fn upload(&mut self, payload: &[u8]) -> (r: Result<
        Vec<BufferCommand>,
        CapacityAllocationError,
    >)
        ensures
            final(self).wf(),
            r is Ok <==> old(self)@.can_hold(payload@.len()),
            r matches Ok(commands) ==> {
                &&& commands@ == old(self)@.upload_commands(payload@.len())
                &&& final(self)@ == old(self)@.uploaded(payload@.len())
            },
            r matches Err(error) ==> {
                &&& *final(self) == *old(self)
                &&& error == old(self)@.refusal(payload@.len())
            },
    {
        let len: u64 = payload.len() as u64;
        let mut commands: Vec<BufferCommand> = match self.ensure_capacity(len) {
            Ok(commands) => commands,
            Err(error) => {
                return Err(error);
            },
        };
        match self.update(payload) {
            Ok(write) => {
                commands.push(write);
                Ok(commands)
            },
            Err(error) => {
                proof {
                    assert(false);
                }
                Err(error)
            },
        }
    }
}

/// Where a request makes a buffer grow, the new capacity is at least 64
/// bytes, and at least twice the old one where that held 64 bytes or more.
proof fn lemma_growth_doubles(capacity: int, needed: int)
    requires
        0 <= capacity < needed,
    ensures
        growth_target(capacity, needed) >= 64,
        capacity >= 64 ==> growth_target(capacity, needed) >= 2 * capacity,
{
    let floor = growth_floor(capacity);
    let k = doublings(floor, needed);
    lemma_doubling_reaches(floor, needed);
    lemma_pow2_pos(k);
    assert(floor * pow2(k) >= floor) by (nonlinear_arith)
        requires
            pow2(k) >= 1,
            floor >= 0,
    ;
    if capacity >= 64 {
        lemma_pow2_unfold(k);
        lemma_pow2_pos((k - 1) as nat);
        assert(floor * pow2(k) >= 2 * floor) by (nonlinear_arith)
            requires
                pow2(k) == 2 * pow2((k - 1) as nat),
                pow2((k - 1) as nat) >= 1,
                floor >= 0,
        ;
    }
}

} // verus!
