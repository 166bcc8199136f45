//! A fixed pool of reusable pixel buffers.
//!
//! Every slot owns its bytes behind an `Arc`. A slot may be written only while
//! the pool holds the single reference to it; a consumer that still holds a
//! clone keeps the slot busy, and the producer passes over it instead of
//! waiting. When every slot is busy the producer gets nothing and drops its
//! frame: the pool size bounds both memory and latency.
//!
//! An acquisition has three steps. The pool looks at its slots (`probe`):
//! which of them nobody else holds is for `Arc` to say. It picks the first
//! free slot from the cursor on (`select_slot`): a slot is found exactly if
//! one is free. It takes what it picked, which cannot fail. `acquire_among`
//! is the last two steps, for what a look has found; `acquire_for_write` is
//! the look and then `acquire_among`.

use crate::geometry::{checked_frame_bytes, frame_bytes, valid_dims};
use std::sync::Arc;
use vstd::prelude::*;

verus! {

/// Number of buffers in the pool.
pub const BUFFER_COUNT: usize = 3;

/// One buffer of the pool with the dimensions of the frame last written to it.
pub struct PoolEntry {
    /// The bytes, shared by reference with the frames that carry them.
    pub data: Arc<Vec<u8>>,
    /// Width of the frame in this buffer.
    pub width: i32,
    /// Height of the frame in this buffer.
    pub height: i32,
}

/// What a slot holds.
pub struct SlotView {
    pub data: Seq<u8>,
    pub width: int,
    pub height: int,
}

impl View for PoolEntry {
    type V = SlotView;

    open spec fn view(&self) -> SlotView {
        SlotView { data: self.data@, width: self.width as int, height: self.height as int }
    }
}

impl Default for PoolEntry {
    fn default() -> (entry: Self)
        ensures
            entry@ == (SlotView { data: Seq::empty(), width: 0, height: 0 }),
    {
        PoolEntry { data: Arc::new(Vec::new()), width: 0, height: 0 }
    }
}

/// The pool: `BUFFER_COUNT` slots and the round-robin write cursor.
pub struct BufferPool {
    buffers: [PoolEntry; BUFFER_COUNT],
    write_index: usize,
}

/// What a pool holds: its slots in order, and the slot at which the next
/// acquisition starts to look.
pub struct PoolView {
    pub slots: Seq<SlotView>,
    pub cursor: int,
}

impl View for BufferPool {
    type V = PoolView;

    closed spec fn view(&self) -> PoolView {
        PoolView {
            slots: Seq::new(BUFFER_COUNT as nat, |i: int| self.buffers[i]@),
            cursor: (self.write_index % BUFFER_COUNT) as int,
        }
    }
}

/// `Arc::get_mut` on a buffer: unique access to the bytes, if no other
/// reference to them exists. Whether one exists is not for this library to
/// know, so the contract speaks of both outcomes: with access, the bytes are
/// those of the buffer, and what the caller leaves in them is what the buffer
/// holds afterwards; without, the buffer is as it was.
#[verifier::external_body]
fn arc_get_mut(arc: &mut Arc<Vec<u8>>) -> (unique: Option<&mut Vec<u8>>)
    ensures
        match unique {
            Some(inner) => inner@ == old(arc)@ && final(arc)@ == final(inner)@,
            None => final(arc)@ == old(arc)@,
        },
{
    Arc::get_mut(arc)
}

/// `Arc::make_mut` on a buffer: access to bytes that nobody else sees. Where
/// the buffer is the only reference to its bytes, these are its own bytes, in
/// place. Where somebody else holds a reference too, std gives the buffer a
/// copy of its own and leaves the holder's bytes alone. Either way the caller
/// finds what the buffer held, and what the caller leaves is what the buffer
/// holds afterwards.
#[verifier::external_body]
fn arc_make_mut(arc: &mut Arc<Vec<u8>>) -> (inner: &mut Vec<u8>)
    ensures
        inner@ == old(arc)@,
        final(arc)@ == final(inner)@,
{
    Arc::make_mut(arc)
}

/// `Arc::clone` on a buffer: a further reference to the same bytes.
#[verifier::external_body]
fn arc_clone(arc: &Arc<Vec<u8>>) -> (shared: Arc<Vec<u8>>)
    ensures
        shared@ == arc@,
{
    Arc::clone(arc)
}

/// A buffer after it has been made to hold at least `required` bytes: it never
/// shrinks, and what is added is zero.
pub open spec fn grown(data: Seq<u8>, required: int) -> Seq<u8> {
    if data.len() >= required {
        data
    } else {
        data + Seq::new((required - data.len()) as nat, |i: int| 0u8)
    }
}

/// Makes a buffer that the pool may write hold at least `required` bytes:
/// one that is smaller grows in place, and what is added is zero; one that is
/// large enough stays as it is.
pub fn grow(buffer: &mut Vec<u8>, required: usize)
    ensures
        final(buffer)@ == grown(old(buffer)@, required as int),
{
    if buffer.len() < required {
        let ghost small = buffer@;
        buffer.resize(required, 0);
        assert(buffer@ =~= grown(small, required as int));
    }
}

/// The slot that the `attempt`-th try of an acquisition looks at.
pub open spec fn slot_at(cursor: int, attempt: int) -> int {
    (cursor + attempt) % (BUFFER_COUNT as int)
}

/// The first free slot among the tries `from..BUFFER_COUNT`, in the order in
/// which an acquisition starting at `cursor` looks at them.
pub open spec fn first_free_from(cursor: int, free: Seq<bool>, from: int) -> Option<int>
    decreases BUFFER_COUNT - from,
{
    if from < 0 || from >= BUFFER_COUNT {
        None
    } else if free[slot_at(cursor, from)] {
        Some(slot_at(cursor, from))
    } else {
        first_free_from(cursor, free, from + 1)
    }
}

/// The slot that an acquisition starting at `cursor` takes when `free` tells
/// which slots nobody else holds.
pub open spec fn first_free(cursor: int, free: Seq<bool>) -> Option<int> {
    first_free_from(cursor, free, 0)
}

/// Number of slots that somebody else holds.
pub open spec fn held_count(free: Seq<bool>) -> nat
    decreases free.len(),
{
    if free.len() == 0 {
        0
    } else {
        held_count(free.drop_last()) + if free.last() {
            0nat
        } else {
            1nat
        }
    }
}

/// Picks the slot to write: the first free one, starting at the slot that
/// `cursor` stands for and wrapping round. A cursor beyond the last slot
/// stands for the slot that it wraps round to.
pub fn select_slot(cursor: usize, free: &[bool; BUFFER_COUNT]) -> (chosen: Option<usize>)
    ensures
        chosen is Some <==> exists|i: int| 0 <= i < BUFFER_COUNT && free@[i],
        match chosen {
            Some(idx) => first_free(slot_at(cursor as int, 0), free@) == Some(idx as int) && idx
                < BUFFER_COUNT && free@[idx as int],
            None => first_free(slot_at(cursor as int, 0), free@) is None,
        },
{
    let start = cursor % BUFFER_COUNT;
    let mut attempt: usize = 0;
    while attempt < BUFFER_COUNT
        invariant
            attempt <= BUFFER_COUNT,
            start < BUFFER_COUNT,
            start as int == slot_at(cursor as int, 0),
            first_free(start as int, free@) == first_free_from(start as int, free@, attempt as int),
            forall|a: int| 0 <= a < attempt ==> !free@[#[trigger] slot_at(start as int, a)],
        decreases BUFFER_COUNT - attempt,
    {
        let idx = (start + attempt) % BUFFER_COUNT;
        if free[idx] {
            return Some(idx);
        }
        attempt += 1;
    }
    proof {
        assert forall|i: int| 0 <= i < BUFFER_COUNT implies !free@[i] by {
            let a = (i - start + BUFFER_COUNT) % (BUFFER_COUNT as int);
            assert(slot_at(start as int, a) == i);
        }
    }
    None
}

/// Every slot is held exactly when as many are held as there are slots.
pub proof fn lemma_held_count(free: Seq<bool>)
    ensures
        held_count(free) <= free.len(),
        held_count(free) == free.len() <==> forall|i: int| 0 <= i < free.len() ==> !free[i],
    decreases free.len(),
{
    if free.len() > 0 {
        let front = free.drop_last();
        lemma_held_count(front);
        if held_count(free) == free.len() {
            assert forall|i: int| 0 <= i < free.len() implies !free[i] by {
                if i < front.len() {
                    assert(front[i] == free[i]);
                }
            }
        }
        if forall|i: int| 0 <= i < free.len() ==> !free[i] {
            assert forall|i: int| 0 <= i < front.len() implies !front[i] by {
                assert(front[i] == free[i]);
            }
        }
    }
}

/// What `first_free_from` finds is a free slot, and it finds none only if
/// every slot from `from` on is held.
pub proof fn lemma_first_free_from(cursor: int, free: Seq<bool>, from: int)
    requires
        0 <= cursor < BUFFER_COUNT,
        free.len() == BUFFER_COUNT,
        0 <= from <= BUFFER_COUNT,
    ensures
        match first_free_from(cursor, free, from) {
            Some(idx) => 0 <= idx < BUFFER_COUNT && free[idx],
            None => forall|a: int| from <= a < BUFFER_COUNT ==> !free[#[trigger] slot_at(cursor, a)],
        },
    decreases BUFFER_COUNT - from,
{
    if from < BUFFER_COUNT && !free[slot_at(cursor, from)] {
        lemma_first_free_from(cursor, free, from + 1);
    }
}

/// While at most `BUFFER_COUNT - 1` buffers are held, an acquisition finds a
/// slot, whatever the cursor, and the slot it finds is free.
pub proof fn lemma_spare_slot_is_found(cursor: int, free: Seq<bool>)
    requires
        0 <= cursor < BUFFER_COUNT,
        free.len() == BUFFER_COUNT,
        held_count(free) <= BUFFER_COUNT - 1,
    ensures
        first_free(cursor, free) matches Some(idx) && 0 <= idx < BUFFER_COUNT && free[idx],
{
    lemma_held_count(free);
    lemma_first_free_from(cursor, free, 0);
    if first_free(cursor, free) is None {
        assert forall|i: int| 0 <= i < BUFFER_COUNT implies !free[i] by {
            let a = (i - cursor + BUFFER_COUNT) % (BUFFER_COUNT as int);
            assert(slot_at(cursor, a) == i);
        }
    }
}

/// While every buffer is held, an acquisition finds no slot.
pub proof fn lemma_full_pool_gives_nothing(cursor: int, free: Seq<bool>)
    requires
        0 <= cursor < BUFFER_COUNT,
        free.len() == BUFFER_COUNT,
        held_count(free) == BUFFER_COUNT,
    ensures
        first_free(cursor, free) is None,
{
    lemma_held_count(free);
    lemma_first_free_from(cursor, free, 0);
}

/// A buffer that was handed out and is still held is not handed out again:
/// the next acquisition, which starts behind the slot just taken, finds a
/// different slot, one that was free before, or none.
pub proof fn lemma_held_slot_is_passed_over(cursor: int, free: Seq<bool>, taken: int)
    requires
        0 <= cursor < BUFFER_COUNT,
        free.len() == BUFFER_COUNT,
        first_free(cursor, free) == Some(taken),
    ensures
        first_free(slot_at(taken, 1), free.update(taken, false)) matches Some(next) ==> next
            != taken && free[next],
{
    lemma_first_free_from(cursor, free, 0);
    lemma_first_free_from(slot_at(taken, 1), free.update(taken, false), 0);
}

/// Writing to one slot leaves every other slot as it was: whoever holds the
/// buffer of another slot still reads the bytes that were written there.
pub proof fn lemma_write_leaves_other_slots(slots: Seq<SlotView>, idx: int, written: SlotView, other: int)
    requires
        0 <= idx < slots.len(),
        0 <= other < slots.len(),
        other != idx,
    ensures
        slots.update(idx, written)[other] == slots[other],
        slots.update(idx, written)[idx] == written,
{
}

impl BufferPool {
    /// A pool of empty buffers with the cursor on the first slot.
    pub fn new() -> (pool: Self)
        ensures
            pool@.cursor == 0,
            pool@.slots.len() == BUFFER_COUNT,
            forall|i: int|
                0 <= i < BUFFER_COUNT ==> pool@.slots[i] == (SlotView {
                    data: Seq::empty(),
                    width: 0,
                    height: 0,
                }),
    {
        BufferPool {
            buffers: [PoolEntry::default(), PoolEntry::default(), PoolEntry::default()],
            write_index: 0,
        }
    }

    /// The pool always has `BUFFER_COUNT` slots and its cursor is on one of them.
    pub proof fn lemma_shape(&self)
        ensures
            self@.slots.len() == BUFFER_COUNT,
            0 <= self@.cursor < BUFFER_COUNT,
    {
    }

    /// The slot at which the next acquisition starts to look.
    pub fn cursor(&self) -> (slot: usize)
        ensures
            slot as int == self@.cursor,
            slot < BUFFER_COUNT,
    {
        self.write_index % BUFFER_COUNT
    }

    /// The entry of slot `idx`, if there is such a slot.
    pub fn entry(&self, idx: usize) -> (entry: Option<&PoolEntry>)
        ensures
            entry is Some <==> idx < BUFFER_COUNT,
            entry matches Some(e) ==> e@ == self@.slots[idx as int],
    {
        if idx >= BUFFER_COUNT {
            return None;
        }
        Some(&self.buffers[idx])
    }

    /// Looks at every slot and tells which of them nobody else holds. The
    /// pool is left as it was. What comes back depends on the references that
    /// consumers hold at this moment.
    pub fn probe(&mut self) -> (free: [bool; BUFFER_COUNT])
        ensures
            final(self)@ == old(self)@,
    {
        let mut free = [false; BUFFER_COUNT];
        let mut idx: usize = 0;
        while idx < BUFFER_COUNT
            invariant
                idx <= BUFFER_COUNT,
                self@ == old(self)@,
            decreases BUFFER_COUNT - idx,
        {
            let ghost before = self@;
            let unique = arc_get_mut(&mut self.buffers[idx].data).is_some();
            free[idx] = unique;
            assert(self@.slots =~= before.slots);
            idx += 1;
        }
        free
    }

    /// Takes slot `idx` for writing a frame of `width` by `height`, if nobody
    /// else holds it: the buffer is grown to the frame's size where it is
    /// smaller, the dimensions are recorded, the cursor moves past the slot,
    /// and the caller gets the bytes to fill. Where somebody else holds the
    /// slot, nothing changes and nothing is returned; nor where there is no
    /// such slot, or no frame of such dimensions.
    pub fn claim(&mut self, idx: usize, width: i32, height: i32) -> (bytes: Option<&mut Vec<u8>>)
        ensures
            idx >= BUFFER_COUNT || !valid_dims(width as int, height as int) ==> bytes is None,
            match bytes {
                Some(buf) => {
                    &&& buf@ == grown(
                        old(self)@.slots[idx as int].data,
                        frame_bytes(width as int, height as int),
                    )
                    &&& final(self)@.slots == old(self)@.slots.update(
                        idx as int,
                        SlotView { data: final(buf)@, width: width as int, height: height as int },
                    )
                    &&& final(self)@.cursor == slot_at(idx as int, 1)
                },
                None => final(self)@.slots == old(self)@.slots && final(self)@.cursor == old(
                    self,
                )@.cursor,
            },
    {
        if idx >= BUFFER_COUNT {
            return None;
        }
        let required = match checked_frame_bytes(width, height) {
            Some(n) => n,
            None => { return None; },
        };
        let entry = &mut self.buffers[idx];
        match arc_get_mut(&mut entry.data) {
            Some(vec) => {
                grow(vec, required);
                entry.width = width;
                entry.height = height;
                self.write_index = (idx + 1) % BUFFER_COUNT;
                Some(vec)
            },
            None => None,
        }
    }

    /// Takes slot `idx`, which its caller found free, for writing a frame of
    /// `required` bytes: the buffer is grown to that size where it is
    /// smaller, the dimensions are recorded, and the cursor moves past the
    /// slot. The bytes are the slot's own, in place, as long as the slot is
    /// as free as it was found.
    fn take(&mut self, idx: usize, width: i32, height: i32, required: usize) -> (bytes: &mut Vec<u8>)
        requires
            idx < BUFFER_COUNT,
            required as int == frame_bytes(width as int, height as int),
        ensures
            bytes@ == grown(old(self)@.slots[idx as int].data, required as int),
            final(self)@.slots == old(self)@.slots.update(
                idx as int,
                SlotView { data: final(bytes)@, width: width as int, height: height as int },
            ),
            final(self)@.cursor == slot_at(idx as int, 1),
    {
        let entry = &mut self.buffers[idx];
        let bytes = arc_make_mut(&mut entry.data);
        grow(bytes, required);
        entry.width = width;
        entry.height = height;
        self.write_index = (idx + 1) % BUFFER_COUNT;
        bytes
    }

    /// Acquires a buffer for writing a frame of `width` by `height`, for a
    /// caller that has looked at the slots: `free` tells which of them nobody
    /// else holds.
    ///
    /// The first free slot from the cursor on is taken: its buffer is grown
    /// to the frame's size where it is smaller, the dimensions are recorded,
    /// the cursor moves past the slot, and its index comes back with the
    /// bytes. Nothing changes and nothing comes back where no slot is free,
    /// or where no frame has such dimensions. A slot that `free` calls free
    /// while somebody still holds its buffer is taken all the same: the
    /// holder keeps the bytes it holds and the slot gets a copy of its own.
    pub fn acquire_among(
        &mut self,
        free: &[bool; BUFFER_COUNT],
        width: i32,
        height: i32,
    ) -> (acquired: Option<(usize, &mut Vec<u8>)>)
        ensures
            acquired is Some <==> first_free(old(self)@.cursor, free@) is Some && valid_dims(
                width as int,
                height as int,
            ),
            match acquired {
                Some((idx, buf)) => {
                    &&& first_free(old(self)@.cursor, free@) == Some(idx as int)
                    &&& idx < BUFFER_COUNT
                    &&& free@[idx as int]
                    &&& buf@ == grown(
                        old(self)@.slots[idx as int].data,
                        frame_bytes(width as int, height as int),
                    )
                    &&& final(self)@.slots == old(self)@.slots.update(
                        idx as int,
                        SlotView { data: final(buf)@, width: width as int, height: height as int },
                    )
                    &&& final(self)@.cursor == slot_at(idx as int, 1)
                },
                None => final(self)@ == old(self)@,
            },
    {
        let required = match checked_frame_bytes(width, height) {
            Some(required) => required,
            None => { return None; },
        };
        match select_slot(self.cursor(), free) {
            Some(idx) => Some((idx, self.take(idx, width, height, required))),
            None => None,
        }
    }

    /// Acquires a buffer for writing a frame of `width` by `height`.
    ///
    /// The pool looks at its slots as `probe` does and acquires among those
    /// that it found free as `acquire_among` says: the slots
    /// are tried from the cursor on, the first that nobody else holds is
    /// taken, and its index comes back with the bytes. If every slot is held,
    /// nothing changes and nothing comes back: the caller drops its frame.
    /// Nothing comes back either where no frame has such dimensions.
    pub fn acquire_for_write(&mut self, width: i32, height: i32) -> (acquired: Option<
        (usize, &mut Vec<u8>),
    >)
        ensures
            !valid_dims(width as int, height as int) ==> acquired is None,
            match acquired {
                Some((idx, buf)) => {
                    &&& idx < BUFFER_COUNT
                    &&& buf@ == grown(
                        old(self)@.slots[idx as int].data,
                        frame_bytes(width as int, height as int),
                    )
                    &&& final(self)@.slots == old(self)@.slots.update(
                        idx as int,
                        SlotView { data: final(buf)@, width: width as int, height: height as int },
                    )
                    &&& final(self)@.cursor == slot_at(idx as int, 1)
                },
                None => final(self)@ == old(self)@,
            },
    {
        let free = self.probe();
        self.acquire_among(&free, width, height)
    }

    /// A further shared reference to the buffer of slot `idx`. While the
    /// caller keeps it, the slot is not written again.
    pub fn get_buffer_arc(&self, idx: usize) -> (shared: Option<Arc<Vec<u8>>>)
        ensures
            shared is Some <==> idx < BUFFER_COUNT,
            shared matches Some(buf) ==> buf@ == self@.slots[idx as int].data,
    {
        if idx >= BUFFER_COUNT {
            return None;
        }
        Some(arc_clone(&self.buffers[idx].data))
    }
}

impl Default for BufferPool {
    fn default() -> (pool: Self)
        ensures
            pool@.cursor == 0,
            pool@.slots.len() == BUFFER_COUNT,
            forall|i: int|
                0 <= i < BUFFER_COUNT ==> pool@.slots[i] == (SlotView {
                    data: Seq::empty(),
                    width: 0,
                    height: 0,
                }),
    {
        BufferPool::new()
    }
}

} // verus!
