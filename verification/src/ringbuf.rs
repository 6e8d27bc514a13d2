//! Fixed-capacity single-producer / single-consumer ring buffer.
//!
//! The buffer stores interleaved stereo samples as 4-byte words over a
//! caller-sized region of `total_slots` cells, of which `total_slots - 1`
//! are usable: the spare slot is what distinguishes a full buffer from an
//! empty one. Two wrapping indices delimit the unread region; the producer
//! (the render engine) advances only `write_index`, the playback consumer
//! advances only `read_index`.

use vstd::prelude::*;

verus! {

/// Circular store of sample words with a write cursor owned by the producer
/// and a read cursor owned by the consumer.
pub struct RingBuffer {
    storage: Vec<u32>,
    write_index: usize,
    read_index: usize,
}

impl RingBuffer {
    /// Total number of slots in the storage region, one more than the
    /// usable capacity.
    pub closed spec fn total_slots(self) -> int {
        self.storage@.len() as int
    }

    /// Position of the producer's write cursor.
    pub closed spec fn write_at(self) -> int {
        self.write_index as int
    }

    /// Position of the consumer's read cursor.
    pub closed spec fn read_at(self) -> int {
        self.read_index as int
    }

    /// At least one slot exists and both cursors lie inside the storage.
    pub closed spec fn well_formed(self) -> bool {
        &&& self.total_slots() >= 1
        &&& self.write_at() < self.total_slots()
        &&& self.read_at() < self.total_slots()
    }

    /// Number of samples written but not yet consumed.
    pub closed spec fn buffered(self) -> int {
        if self.write_at() >= self.read_at() {
            self.write_at() - self.read_at()
        } else {
            self.write_at() + self.total_slots() - self.read_at()
        }
    }

    /// Usable capacity: every slot but the spare one.
    pub open spec fn usable_capacity(self) -> int {
        self.total_slots() - 1
    }

    /// Free usable capacity: how many samples a write can still accept.
    pub open spec fn available_space(self) -> int {
        self.usable_capacity() - self.buffered()
    }

    /// Physical slot holding the `logical`-th unread sample.
    spec fn slot_index(self, logical: int) -> int {
        if self.read_at() + logical < self.total_slots() {
            self.read_at() + logical
        } else {
            self.read_at() + logical - self.total_slots()
        }
    }

    /// The unread samples, oldest first.
    pub closed spec fn contents(self) -> Seq<u32> {
        Seq::new(self.buffered() as nat, |i: int| self.storage@[self.slot_index(i)])
    }

    /// The unread region and the free space partition the usable capacity.
    pub proof fn lemma_capacity_conservation(self)
        requires
            self.well_formed(),
        ensures
            self.available_space() + self.contents().len() == self.usable_capacity(),
            0 <= self.buffered() <= self.usable_capacity(),
            self.contents().len() == self.buffered(),
    {
    }

    /// Builds an empty buffer over a zeroed region of `total_slots` cells.
    pub fn new(total_slots: usize) -> (rb: RingBuffer)
        requires
            total_slots >= 1,
        ensures
            rb.well_formed(),
            rb.total_slots() == total_slots,
            rb.write_at() == 0,
            rb.read_at() == 0,
            rb.contents() == Seq::<u32>::empty(),
            rb.available_space() == total_slots - 1,
    {
        let mut storage: Vec<u32> = Vec::new();
        while storage.len() < total_slots
            invariant
                storage@.len() <= total_slots,
            decreases total_slots - storage.len(),
        {
            storage.push(0);
        }
        let rb = RingBuffer { storage, write_index: 0, read_index: 0 };
        proof {
            assert(rb.contents() =~= Seq::<u32>::empty());
        }
        rb
    }

    /// Usable capacity of the buffer.
    pub fn capacity(&self) -> (c: usize)
        requires
            self.well_formed(),
        ensures
            c == self.usable_capacity(),
    {
        self.storage.len() - 1
    }

    /// Snapshot of the free usable capacity, as seen by the producer.
    pub fn available_to_write(&self) -> (a: usize)
        requires
            self.well_formed(),
        ensures
            a == self.available_space(),
    {
        let n = self.storage.len();
        let b = if self.write_index >= self.read_index {
            self.write_index - self.read_index
        } else {
            self.write_index + (n - self.read_index)
        };
        n - 1 - b
    }

    /// Copies as many leading samples of `data` as fit into the free space
    /// (`min(data.len(), available_space)`), wrapping past the end of
    /// storage in two contiguous passes, then publishes the new write
    /// cursor. Returns the number of samples copied; a full buffer accepts
    /// none and is left entirely untouched. Buffer-full is backpressure,
    /// not an error: the caller retries later.
    #[verifier::loop_isolation(false)]
    pub fn write(&mut self, data: &[u32]) -> (written: usize)
        requires
            old(self).well_formed(),
        ensures
            final(self).well_formed(),
            final(self).total_slots() == old(self).total_slots(),
            final(self).read_at() == old(self).read_at(),
            written as int == if data@.len() as int <= old(self).available_space() {
                data@.len() as int
            } else {
                old(self).available_space()
            },
            final(self).contents() == old(self).contents() + data@.take(written as int),
            final(self).available_space() == old(self).available_space() - written,
            old(self).available_space() == 0 ==> written == 0 && *final(self) == *old(self),
    {
        let n = self.storage.len();
        let wr = self.write_index;
        let rd = self.read_index;

        let b = if wr >= rd { wr - rd } else { wr + (n - rd) };
        let available = n - 1 - b;
        if available == 0 {
            proof {
                assert(self.contents() =~= old(self).contents() + data@.take(0));
            }
            return 0;
        }

        let to_write = if data.len() < available { data.len() } else { available };
        let room = n - wr;
        let first_part = if room < to_write { room } else { to_write };
        let second_part = to_write - first_part;

        let mut i: usize = 0;
        while i < first_part
            invariant
                i <= first_part,
                self.storage@.len() == old(self).storage@.len(),
                self.write_index == old(self).write_index,
                self.read_index == old(self).read_index,
                forall|k: int| 0 <= k < i ==> self.storage@[wr + k] == data@[k],
                forall|k: int|
                    0 <= k < n && !(wr <= k < wr + i)
                        ==> self.storage@[k] == old(self).storage@[k],
            decreases first_part - i,
        {
            self.storage[wr + i] = data[i];
            i += 1;
        }

        let mut j: usize = 0;
        while j < second_part
            invariant
                j <= second_part,
                self.storage@.len() == old(self).storage@.len(),
                self.write_index == old(self).write_index,
                self.read_index == old(self).read_index,
                forall|k: int| 0 <= k < first_part ==> self.storage@[wr + k] == data@[k],
                forall|k: int| 0 <= k < j ==> self.storage@[k] == data@[first_part + k],
                forall|k: int|
                    (j <= k < wr || wr + first_part <= k < n)
                        ==> self.storage@[k] == old(self).storage@[k],
            decreases second_part - j,
        {
            self.storage[j] = data[first_part + j];
            j += 1;
        }

        let new_wr = if to_write < room {
            wr + to_write
        } else {
            to_write - room
        };
        self.write_index = new_wr;

        proof {
            self.lemma_write_contents(*old(self), data@, to_write as int, first_part as int);
        }
        to_write
    }

    /// After the two copy passes of `write` the unread region has grown by
    /// exactly the copied prefix of `data`, in order.
    proof fn lemma_write_contents(self, pre: RingBuffer, data: Seq<u32>, w: int, fp: int)
        requires
            pre.well_formed(),
            self.total_slots() == pre.total_slots(),
            self.read_at() == pre.read_at(),
            0 <= w <= data.len(),
            w <= pre.available_space(),
            fp == if pre.total_slots() - pre.write_at() < w {
                pre.total_slots() - pre.write_at()
            } else {
                w
            },
            self.write_at() == if w < pre.total_slots() - pre.write_at() {
                pre.write_at() + w
            } else {
                w - (pre.total_slots() - pre.write_at())
            },
            self.storage@.len() == pre.storage@.len(),
            forall|k: int| 0 <= k < fp ==> self.storage@[pre.write_at() + k] == data[k],
            forall|k: int| 0 <= k < w - fp ==> self.storage@[k] == data[fp + k],
            forall|k: int|
                (w - fp <= k < pre.write_at() || pre.write_at() + fp <= k < pre.total_slots())
                    ==> self.storage@[k] == pre.storage@[k],
        ensures
            self.well_formed(),
            self.buffered() == pre.buffered() + w,
            self.contents() == pre.contents() + data.take(w),
    {
        let n = pre.total_slots();
        let wr = pre.write_at();
        let rd = pre.read_at();
        let b = pre.buffered();
        assert(self.buffered() == b + w);
        assert forall|idx: int| 0 <= idx < b + w implies self.storage@[self.slot_index(idx)]
            == (pre.contents() + data.take(w))[idx] by {
            if idx < b {
                assert(pre.contents()[idx] == pre.storage@[pre.slot_index(idx)]);
                assert(self.slot_index(idx) == pre.slot_index(idx));
                assert(self.storage@[pre.slot_index(idx)] == pre.storage@[pre.slot_index(idx)]);
            } else {
                let k = idx - b;
                if wr + k < n {
                    assert(self.slot_index(idx) == wr + k);
                } else {
                    assert(self.slot_index(idx) == wr + k - n);
                }
            }
        }
        assert(self.contents() =~= pre.contents() + data.take(w));
    }

    /// How many samples a peek or read into a target of length `target_len`
    /// returns: all of the unread samples that fit.
    pub open spec fn peek_count(self, target_len: int) -> int {
        if target_len <= self.buffered() {
            target_len
        } else {
            self.buffered()
        }
    }

    /// Reads up to `target.len()` buffered samples, oldest first, into the
    /// front of `target` without consuming them: a non-destructive peek.
    /// Slots of `target` beyond the buffered samples are left as they were.
    #[verifier::loop_isolation(false)]
    pub fn copy_data(&self, target: &mut Vec<u32>)
        requires
            self.well_formed(),
        ensures
            final(target)@.len() == old(target)@.len(),
            forall|i: int|
                0 <= i < self.peek_count(old(target)@.len() as int) ==> final(target)@[i]
                    == self.contents()[i],
            forall|i: int|
                self.peek_count(old(target)@.len() as int) <= i < old(target)@.len()
                    ==> final(target)@[i] == old(target)@[i],
    {
        let n = self.storage.len();
        let rd = self.read_index;
        let wr = self.write_index;

        let b = if wr >= rd { wr - rd } else { wr + (n - rd) };
        let to_copy = if target.len() < b { target.len() } else { b };
        let room = n - rd;
        let first_part = if room < to_copy { room } else { to_copy };

        let mut i: usize = 0;
        while i < first_part
            invariant
                i <= first_part,
                target@.len() == old(target)@.len(),
                forall|k: int| 0 <= k < i ==> target@[k] == self.contents()[k],
                forall|k: int| i <= k < target@.len() ==> target@[k] == old(target)@[k],
            decreases first_part - i,
        {
            let v = self.storage[rd + i];
            proof {
                assert(self.slot_index(i as int) == rd + i);
            }
            target[i] = v;
            i += 1;
        }

        let second_part = to_copy - first_part;
        let mut j: usize = 0;
        while j < second_part
            invariant
                j <= second_part,
                target@.len() == old(target)@.len(),
                forall|k: int| 0 <= k < first_part + j ==> target@[k] == self.contents()[k],
                forall|k: int|
                    first_part + j <= k < target@.len() ==> target@[k] == old(target)@[k],
            decreases second_part - j,
        {
            let v = self.storage[j];
            proof {
                assert(self.slot_index(first_part + j) == j);
            }
            target[first_part + j] = v;
            j += 1;
        }
    }

    /// Consumer-side read cursor advance: releases the oldest `count`
    /// buffered samples back to the producer as free space. The render
    /// engine itself never calls this; it models the playback consumer on
    /// the other side of the shared region.
    pub fn advance_read(&mut self, count: usize)
        requires
            old(self).well_formed(),
            count as int <= old(self).buffered(),
        ensures
            final(self).well_formed(),
            final(self).total_slots() == old(self).total_slots(),
            final(self).write_at() == old(self).write_at(),
            final(self).buffered() == old(self).buffered() - count,
            final(self).contents() == old(self).contents().skip(count as int),
            final(self).available_space() == old(self).available_space() + count,
    {
        let n = self.storage.len();
        let rd = self.read_index;
        let room = n - rd;
        let new_rd = if count < room {
            rd + count
        } else {
            count - room
        };
        self.read_index = new_rd;
        proof {
            assert forall|i: int|
                0 <= i < self.buffered() implies self.storage@[self.slot_index(i)] == old(
                self,
            ).contents()[count + i] by {
                assert(self.slot_index(i) == old(self).slot_index(count + i));
            }
            assert(self.contents() =~= old(self).contents().skip(count as int));
        }
    }

    /// Number of samples currently buffered and not yet consumed.
    pub fn buffered_unread_count(&self) -> (b: usize)
        requires
            self.well_formed(),
        ensures
            b == self.buffered(),
            b == self.contents().len(),
    {
        let n = self.storage.len();
        if self.write_index >= self.read_index {
            self.write_index - self.read_index
        } else {
            self.write_index + (n - self.read_index)
        }
    }
}

/// Read-after-write: samples appended by a write within the free space are
/// read back exactly and in order once the consumer has drained whatever
/// was buffered ahead of them. The statement is over the logical unread
/// sequence, so it covers writes that wrapped around the end of storage.
pub proof fn lemma_read_after_write(pre: RingBuffer, post: RingBuffer, data: Seq<u32>)
    requires
        pre.well_formed(),
        post.well_formed(),
        data.len() <= pre.available_space(),
        post.contents() == pre.contents() + data,
    ensures
        post.contents().skip(pre.contents().len() as int) == data,
        post.contents().take(pre.contents().len() as int) == pre.contents(),
{
    assert(post.contents().skip(pre.contents().len() as int) =~= data);
    assert(post.contents().take(pre.contents().len() as int) =~= pre.contents());
}

} // verus!
