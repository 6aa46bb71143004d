//! The allocator bridge: the memory provider that the foreign engine drives
//! through its two callback slots.
//!
//! Every block handed to the engine is preceded by a fixed-width header that
//! records the size obtained from the host allocator, so that freeing needs no
//! bookkeeping table: `dealloc` walks back to the header and releases exactly
//! the recorded size.  The bridge is modelled over an explicit address space:
//! headers are placed at 16-byte aligned addresses handed out by a monotone
//! bump pointer, which means addresses are never reused and a stale or foreign
//! pointer is always recognised.  Instrumentation counters (allocations,
//! frees, bytes ever allocated, bytes currently live) support leak detection.

use vstd::prelude::*;

verus! {

/// Width in bytes of the size header that precedes every block.
pub const HEADER_WIDTH: u64 = 8;

/// Alignment in bytes of every header address; the alignment the engine
/// assumes for the memory it is given.
pub const ALIGNMENT: u64 = 16;

/// Errors reported by the allocator bridge.
#[derive(Debug, Clone, Copy, PartialEq, Eq, Structural)]
pub enum Error {
    /// An unclassified host-allocator failure.
    Unknown,
    /// A null or unrecognised pointer was handed to `dealloc`.
    InvalidAddress,
    /// The size arithmetic would overflow, or the host allocator rejected the
    /// requested layout.
    InvalidSize,
}

impl Error {
    /// A human-readable description of the error.
    pub fn message(&self) -> (r: &'static str)
        ensures
            r@ == match self {
                Error::Unknown => "an unknown allocator error occurred"@,
                Error::InvalidAddress => "an invalid address was provided to the allocator"@,
                Error::InvalidSize => "an invalid size was provided to the allocator"@,
            },
    {
        match self {
            Error::Unknown => "an unknown allocator error occurred",
            Error::InvalidAddress => "an invalid address was provided to the allocator",
            Error::InvalidSize => "an invalid size was provided to the allocator",
        }
    }
}

/// Instrumentation counters kept by the bridge for leak detection.
#[derive(Debug, Clone, Copy, PartialEq, Eq, Structural)]
pub struct Counters {
    /// Number of successful allocations ever made.
    pub alloc_count: u64,
    /// Number of successful frees ever made.
    pub free_count: u64,
    /// Total bytes ever obtained from the host allocator, headers included.
    pub total_allocated_bytes: u64,
    /// Bytes currently live, headers included.
    pub current_allocated_bytes: u64,
}

impl Default for Counters {
    fn default() -> (r: Self)
        ensures
            r == (Counters {
                alloc_count: 0,
                free_count: 0,
                total_allocated_bytes: 0,
                current_allocated_bytes: 0,
            }),
    {
        Counters { alloc_count: 0, free_count: 0, total_allocated_bytes: 0, current_allocated_bytes: 0 }
    }
}

/// The mathematical state of an [`Allocator`]: the live blocks, each as a
/// pair of user address and header-recorded size, the bump pointer for the
/// next header, and the counters.
pub struct AllocState {
    /// Live blocks in allocation order: `(user address, recorded size)`.
    pub blocks: Seq<(u64, u64)>,
    /// The aligned address at which the next header will be placed.
    pub next_base: u64,
    /// The instrumentation counters.
    pub counters: Counters,
}

/// The bridging record the foreign engine allocates through.
///
/// Shared by every atlas and context of a session.  Its published handle must
/// stay valid for as long as any allocation made through it is live; the host
/// chooses the handle value when it installs the bridge.
pub struct Allocator {
    /// Live blocks in allocation order: `(user address, recorded size)`.
    pub blocks: Vec<(u64, u64)>,
    /// The aligned address at which the next header will be placed.
    pub next_base: u64,
    /// The instrumentation counters.
    pub counters: Counters,
}

impl View for Allocator {
    type V = AllocState;

    open spec fn view(&self) -> AllocState {
        AllocState { blocks: self.blocks@, next_base: self.next_base, counters: self.counters }
    }
}

/// Sum of the recorded sizes of a block sequence.
pub open spec fn sum_sizes(blocks: Seq<(u64, u64)>) -> int
    decreases blocks.len(),
{
    if blocks.len() == 0 {
        0
    } else {
        blocks[0].1 + sum_sizes(blocks.skip(1))
    }
}

/// Whether some live block has the given user address.
pub open spec fn has_block(blocks: Seq<(u64, u64)>, addr: u64) -> bool {
    exists|i: int| 0 <= i < blocks.len() && blocks[i].0 == addr
}

/// The index of the live block with the given user address.
pub open spec fn block_index(blocks: Seq<(u64, u64)>, addr: u64) -> int {
    choose|i: int| 0 <= i < blocks.len() && blocks[i].0 == addr
}

/// `n` rounded up to the next multiple of the allocator alignment.
pub open spec fn round_up_to_alignment(n: int) -> int {
    ((n + ALIGNMENT - 1) / (ALIGNMENT as int)) * (ALIGNMENT as int)
}

/// A single live block is consistent with the bump pointer: a nonzero user
/// address past its header, not beyond the next free base, and a recorded
/// size that covers at least the header.
pub open spec fn block_ok(b: (u64, u64), next_base: u64) -> bool {
    &&& HEADER_WIDTH < b.0 <= next_base
    &&& HEADER_WIDTH <= b.1
}

/// Well-formedness of an allocator state: blocks are consistent and have
/// distinct addresses, and the counters agree with the live blocks.
pub open spec fn wf_state(s: AllocState) -> bool {
    &&& ALIGNMENT <= s.next_base
    &&& forall|i: int| 0 <= i < s.blocks.len() ==> block_ok(#[trigger] s.blocks[i], s.next_base)
    &&& forall|i: int, j: int|
        0 <= i < j < s.blocks.len() ==> (#[trigger] s.blocks[i]).0 != (#[trigger] s.blocks[j]).0
    &&& s.counters.alloc_count == s.counters.free_count + s.blocks.len()
    &&& s.counters.current_allocated_bytes == sum_sizes(s.blocks)
    &&& s.counters.current_allocated_bytes <= s.counters.total_allocated_bytes
    &&& s.counters.total_allocated_bytes + ALIGNMENT <= s.next_base
    &&& ALIGNMENT * s.counters.alloc_count <= s.next_base
}

/// The state of a freshly created allocator: no blocks, zeroed counters, and
/// the bump pointer at the first aligned address.
pub open spec fn init_state() -> AllocState {
    AllocState {
        blocks: Seq::empty(),
        next_base: ALIGNMENT,
        counters: Counters {
            alloc_count: 0,
            free_count: 0,
            total_allocated_bytes: 0,
            current_allocated_bytes: 0,
        },
    }
}

/// Whether an allocation of `size` user bytes can be served: the size
/// arithmetic must not overflow and the address space must not be exhausted.
pub open spec fn can_alloc(s: AllocState, size: u64) -> bool {
    &&& size + HEADER_WIDTH + ALIGNMENT - 1 <= u64::MAX
    &&& s.next_base + round_up_to_alignment(size + HEADER_WIDTH) <= u64::MAX
}

/// The allocation transition: on success the new block sits just past a
/// header at the old bump pointer, records `size + HEADER_WIDTH` bytes, and
/// every counter advances; on failure the state is unchanged and the caller
/// sees `InvalidSize`.
pub open spec fn spec_alloc(s: AllocState, size: u64) -> (AllocState, Result<u64, Error>) {
    if !can_alloc(s, size) {
        (s, Err(Error::InvalidSize))
    } else {
        let total = (size + HEADER_WIDTH) as u64;
        let addr = (s.next_base + HEADER_WIDTH) as u64;
        (
            AllocState {
                blocks: s.blocks.push((addr, total)),
                next_base: (s.next_base + round_up_to_alignment(total as int)) as u64,
                counters: Counters {
                    alloc_count: (s.counters.alloc_count + 1) as u64,
                    free_count: s.counters.free_count,
                    total_allocated_bytes: (s.counters.total_allocated_bytes + total) as u64,
                    current_allocated_bytes: (s.counters.current_allocated_bytes + total) as u64,
                },
            },
            Ok(addr),
        )
    }
}

/// The deallocation transition: a null pointer and an unrecognised pointer
/// fail with `InvalidAddress` and change nothing; a live pointer releases its
/// block and returns exactly the recorded size to the counters.
pub open spec fn spec_dealloc(s: AllocState, ptr: u64) -> (AllocState, Result<(), Error>) {
    if ptr == 0 {
        (s, Err(Error::InvalidAddress))
    } else if !has_block(s.blocks, ptr) {
        (s, Err(Error::InvalidAddress))
    } else {
        let i = block_index(s.blocks, ptr);
        let sz = s.blocks[i].1;
        (
            AllocState {
                blocks: s.blocks.remove(i),
                next_base: s.next_base,
                counters: Counters {
                    alloc_count: s.counters.alloc_count,
                    free_count: (s.counters.free_count + 1) as u64,
                    total_allocated_bytes: s.counters.total_allocated_bytes,
                    current_allocated_bytes: (s.counters.current_allocated_bytes - sz) as u64,
                },
            },
            Ok(()),
        )
    }
}

proof fn lemma_sum_sizes_nonneg(blocks: Seq<(u64, u64)>)
    ensures
        sum_sizes(blocks) >= 0,
    decreases blocks.len(),
{
    if blocks.len() > 0 {
        lemma_sum_sizes_nonneg(blocks.skip(1));
    }
}

proof fn lemma_sum_sizes_push(blocks: Seq<(u64, u64)>, b: (u64, u64))
    ensures
        sum_sizes(blocks.push(b)) == sum_sizes(blocks) + b.1,
    decreases blocks.len(),
{
    if blocks.len() == 0 {
        assert(blocks.push(b)[0] == b);
        assert(blocks.push(b).skip(1) =~= Seq::<(u64, u64)>::empty());
        assert(sum_sizes(blocks.push(b).skip(1)) == 0);
    } else {
        assert(blocks.push(b)[0] == blocks[0]);
        assert(blocks.push(b).skip(1) =~= blocks.skip(1).push(b));
        lemma_sum_sizes_push(blocks.skip(1), b);
    }
}

proof fn lemma_sum_sizes_remove(blocks: Seq<(u64, u64)>, i: int)
    requires
        0 <= i < blocks.len(),
    ensures
        sum_sizes(blocks) == sum_sizes(blocks.remove(i)) + blocks[i].1,
    decreases blocks.len(),
{
    if i == 0 {
        assert(blocks.remove(0) =~= blocks.skip(1));
    } else {
        assert(blocks.remove(i).skip(1) =~= blocks.skip(1).remove(i - 1));
        lemma_sum_sizes_remove(blocks.skip(1), i - 1);
    }
}

/// Every sequence of `alloc` calls preserves well-formedness.
pub proof fn lemma_alloc_preserves_wf(s: AllocState, size: u64)
    requires
        wf_state(s),
    ensures
        wf_state(spec_alloc(s, size).0),
{
    if can_alloc(s, size) {
        let total = (size + HEADER_WIDTH) as u64;
        let rounded = round_up_to_alignment(total as int);
        assert(total <= rounded < total + ALIGNMENT);
        let s2 = spec_alloc(s, size).0;
        lemma_sum_sizes_push(s.blocks, ((s.next_base + HEADER_WIDTH) as u64, total));
        lemma_sum_sizes_nonneg(s.blocks);
        assert(forall|i: int|
            0 <= i < s2.blocks.len() ==> block_ok(#[trigger] s2.blocks[i], s2.next_base));
    }
}

/// Every sequence of `dealloc` calls preserves well-formedness.
pub proof fn lemma_dealloc_preserves_wf(s: AllocState, ptr: u64)
    requires
        wf_state(s),
    ensures
        wf_state(spec_dealloc(s, ptr).0),
{
    if ptr != 0 && has_block(s.blocks, ptr) {
        let i = block_index(s.blocks, ptr);
        lemma_sum_sizes_remove(s.blocks, i);
        lemma_sum_sizes_nonneg(s.blocks.remove(i));
        let s2 = spec_dealloc(s, ptr).0;
        assert(forall|k: int|
            0 <= k < s2.blocks.len() ==> block_ok(#[trigger] s2.blocks[k], s2.next_base));
        assert(forall|k: int, l: int|
            0 <= k < l < s2.blocks.len()
                ==> (#[trigger] s2.blocks[k]).0 != (#[trigger] s2.blocks[l]).0);
    }
}

/// In every well-formed state, `alloc_count - free_count` is exactly the
/// number of live blocks, and once no block is live the counter of currently
/// allocated bytes is back to zero.
pub proof fn lemma_counter_balance(s: AllocState)
    requires
        wf_state(s),
    ensures
        s.counters.alloc_count - s.counters.free_count == s.blocks.len(),
        s.blocks.len() == 0 ==> s.counters.current_allocated_bytes == 0,
{
}

/// One bridge call, for stating laws over whole call sequences.
pub enum AllocOp {
    /// An `allocate` call with the requested size.
    Allocate(u64),
    /// A `dealloc` call with the pointer to release.
    Dealloc(u64),
}

/// The state a bridge call leaves behind.
pub open spec fn apply_op(s: AllocState, op: AllocOp) -> AllocState {
    match op {
        AllocOp::Allocate(size) => spec_alloc(s, size).0,
        AllocOp::Dealloc(ptr) => spec_dealloc(s, ptr).0,
    }
}

/// The state a sequence of bridge calls leaves behind.
pub open spec fn apply_ops(s: AllocState, ops: Seq<AllocOp>) -> AllocState
    decreases ops.len(),
{
    if ops.len() == 0 {
        s
    } else {
        apply_ops(apply_op(s, ops[0]), ops.skip(1))
    }
}

/// A fresh bridge is well formed.
pub proof fn lemma_init_wf()
    ensures
        wf_state(init_state()),
{
    assert(sum_sizes(init_state().blocks) == 0);
}

proof fn lemma_apply_ops_preserve_wf(s: AllocState, ops: Seq<AllocOp>)
    requires
        wf_state(s),
    ensures
        wf_state(apply_ops(s, ops)),
    decreases ops.len(),
{
    if ops.len() > 0 {
        match ops[0] {
            AllocOp::Allocate(size) => lemma_alloc_preserves_wf(s, size),
            AllocOp::Dealloc(ptr) => lemma_dealloc_preserves_wf(s, ptr),
        }
        lemma_apply_ops_preserve_wf(apply_op(s, ops[0]), ops.skip(1));
    }
}

/// For any sequence of `allocate` and `dealloc` calls made on a fresh
/// bridge, `alloc_count - free_count` equals the number of currently live
/// blocks, and the counter of currently allocated bytes returns to zero once
/// every allocated block has been freed.
pub proof fn lemma_trace_counter_balance(ops: Seq<AllocOp>)
    ensures
        ({
            let s = apply_ops(init_state(), ops);
            &&& wf_state(s)
            &&& s.counters.alloc_count - s.counters.free_count == s.blocks.len()
            &&& s.blocks.len() == 0 ==> s.counters.current_allocated_bytes == 0
        }),
{
    lemma_init_wf();
    lemma_apply_ops_preserve_wf(init_state(), ops);
}

/// A successful `alloc(size)` records at least `size` bytes in the block
/// header, and deallocating the returned pointer right away succeeds,
/// releases exactly the recorded size, and brings the live-byte counter back
/// to its value before the allocation.
pub proof fn lemma_alloc_then_dealloc(s: AllocState, size: u64, mid: AllocState, addr: u64)
    requires
        wf_state(s),
        spec_alloc(s, size) == (mid, Ok::<u64, Error>(addr)),
    ensures
        has_block(mid.blocks, addr),
        mid.blocks[block_index(mid.blocks, addr)].1 == size + HEADER_WIDTH,
        size <= mid.blocks[block_index(mid.blocks, addr)].1,
        spec_dealloc(mid, addr).1 == Ok::<(), Error>(()),
        spec_dealloc(mid, addr).0.counters.current_allocated_bytes
            == s.counters.current_allocated_bytes,
        spec_dealloc(mid, addr).0.counters.free_count == s.counters.free_count + 1,
{
    let n = s.blocks.len() as int;
    assert(mid.blocks[n].0 == addr);
    assert(has_block(mid.blocks, addr));
    let i = block_index(mid.blocks, addr);
    assert(0 <= i < mid.blocks.len() && mid.blocks[i].0 == addr);
    // the address is fresh, so only the pushed block can carry it
    assert forall|k: int| 0 <= k < n implies (#[trigger] mid.blocks[k]).0 != addr by {
        assert(block_ok(s.blocks[k], s.next_base));
    }
    assert(i == n);
    assert(addr != 0);
    lemma_sum_sizes_remove(mid.blocks, i);
    assert(mid.blocks.remove(i) =~= s.blocks);
}

impl Allocator {
    /// Whether the bridge is in a reachable, consistent state.
    pub open spec fn wf(&self) -> bool {
        wf_state(self@)
    }

    /// Creates a fresh bridge with zeroed counters and no live blocks.
    pub fn new() -> (r: Self)
        ensures
            r.wf(),
            r@ == init_state(),
    {
        Allocator {
            blocks: Vec::new(),
            next_base: ALIGNMENT,
            counters: Counters {
                alloc_count: 0,
                free_count: 0,
                total_allocated_bytes: 0,
                current_allocated_bytes: 0,
            },
        }
    }

    /// The current instrumentation counters.
    pub fn counters(&self) -> (r: Counters)
        ensures
            r == self@.counters,
    {
        self.counters
    }

    /// The number of currently live blocks.
    pub fn live_blocks(&self) -> (r: usize)
        ensures
            r == self@.blocks.len(),
    {
        self.blocks.len()
    }

    /// Allocates a block of at least `size` user bytes.
    ///
    /// The block is preceded by a header recording the size obtained from the
    /// host allocator (`size` plus the header width), and the returned
    /// address points just past the header.
    pub fn allocate(&mut self, size: u64) -> (r: Result<u64, Error>)
        requires
            old(self).wf(),
        ensures
            final(self).wf(),
            (final(self)@, r) == spec_alloc(old(self)@, size),
    {
        proof {
            lemma_alloc_preserves_wf(old(self)@, size);
        }
        let total = match size.checked_add(HEADER_WIDTH) {
            Some(t) => t,
            None => {
                return Err(Error::InvalidSize);
            },
        };
        let reach = match total.checked_add(ALIGNMENT - 1) {
            Some(t) => t,
            None => {
                return Err(Error::InvalidSize);
            },
        };
        let rounded = (reach / ALIGNMENT) * ALIGNMENT;
        assert(rounded == round_up_to_alignment(total as int));
        assert(total <= rounded < total + ALIGNMENT);
        let new_base = match self.next_base.checked_add(rounded) {
            Some(nb) => nb,
            None => {
                return Err(Error::InvalidSize);
            },
        };
        let addr = self.next_base + HEADER_WIDTH;
        self.blocks.push((addr, total));
        self.next_base = new_base;
        self.counters.alloc_count = self.counters.alloc_count + 1;
        self.counters.total_allocated_bytes = self.counters.total_allocated_bytes + total;
        self.counters.current_allocated_bytes = self.counters.current_allocated_bytes + total;
        Ok(addr)
    }

    /// Releases the block at `ptr`, recovering its size from the header.
    ///
    /// A null pointer and a pointer that no live block carries fail with
    /// `InvalidAddress` and leave the state, counters included, unchanged.
    pub fn dealloc(&mut self, ptr: u64) -> (r: Result<(), Error>)
        requires
            old(self).wf(),
        ensures
            final(self).wf(),
            (final(self)@, r) == spec_dealloc(old(self)@, ptr),
    {
        proof {
            lemma_dealloc_preserves_wf(old(self)@, ptr);
        }
        if ptr == 0 {
            return Err(Error::InvalidAddress);
        }
        let n = self.blocks.len();
        let mut i: usize = 0;
        while i < n && self.blocks[i].0 != ptr
            invariant
                self == old(self),
                n == self.blocks@.len(),
                0 <= i <= n,
                forall|k: int| 0 <= k < i ==> (#[trigger] self.blocks@[k]).0 != ptr,
            decreases n - i,
        {
            i = i + 1;
        }
        if i == n {
            assert(!has_block(self.blocks@, ptr));
            return Err(Error::InvalidAddress);
        }
        assert(has_block(self.blocks@, ptr));
        proof {
            let j = block_index(old(self).blocks@, ptr);
            assert(old(self).blocks@[j].0 == ptr);
            assert(j == i);
            lemma_sum_sizes_remove(self.blocks@, i as int);
            lemma_sum_sizes_nonneg(self.blocks@.remove(i as int));
        }
        let sz = self.blocks[i].1;
        self.blocks.remove(i);
        self.counters.free_count = self.counters.free_count + 1;
        self.counters.current_allocated_bytes = self.counters.current_allocated_bytes - sz;
        Ok(())
    }

    /// Boundary trampoline for the engine's allocation callback.
    ///
    /// `userdata` is the opaque handle the host published for this bridge; a
    /// null handle means the bridge is not installed.  Any internal fault is
    /// converted to the null-pointer sentinel the engine expects — it never
    /// propagates across the foreign boundary.
    pub fn alloc_proxy(&mut self, userdata: u64, size: u64) -> (r: u64)
        requires
            old(self).wf(),
        ensures
            final(self).wf(),
            userdata == 0 ==> r == 0 && final(self)@ == old(self)@,
            userdata != 0 ==> final(self)@ == spec_alloc(old(self)@, size).0
                && (match spec_alloc(old(self)@, size).1 {
                    Ok(addr) => r == addr && r != 0,
                    Err(_) => r == 0,
                }),
    {
        if userdata == 0 {
            return 0;
        }
        match self.allocate(size) {
            Ok(addr) => addr,
            Err(_) => 0,
        }
    }

    /// Boundary trampoline for the engine's free callback.
    ///
    /// A null handle means the bridge is not installed; any internal fault
    /// degrades to a silent no-op rather than propagating across the foreign
    /// boundary.
    pub fn free_proxy(&mut self, userdata: u64, ptr: u64)
        requires
            old(self).wf(),
        ensures
            final(self).wf(),
            userdata == 0 ==> final(self)@ == old(self)@,
            userdata != 0 ==> final(self)@ == spec_dealloc(old(self)@, ptr).0,
    {
        if userdata != 0 {
            let _ = self.dealloc(ptr);
        }
    }
}

/// Creates a fresh allocator bridge; the host then publishes a handle for it
/// and installs the callback pair with the engine.
pub fn create() -> (r: Allocator)
    ensures
        r.wf(),
        r@ == init_state(),
{
    Allocator::new()
}

} // verus!
