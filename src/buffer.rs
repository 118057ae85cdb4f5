//! CPU-side mirror of a GPU buffer that changes often.
//!
//! The mirror keeps the bytes that the buffer should hold and records how they
//! changed since the last upload, so that the upload can do as little as
//! possible: nothing, an overwrite in place, a grow-and-copy, or a new buffer.
use vstd::prelude::*;

verus! {

/// How the bytes of a buffer changed since they were last uploaded.
#[derive(Clone, Copy, Debug, PartialEq, Eq, Structural)]
pub enum BufferChangeState {
    /// Nothing changed.
    Unchanged,
    /// The bytes changed and their length may have changed too.
    Changed,
    /// The bytes changed in place; the length is the uploaded one.
    ChangedOnly,
    /// Bytes were only added at the end.
    Appended,
}

impl BufferChangeState {
    /// Whether the length of the bytes may differ from the uploaded one.
    pub open spec fn resized(self) -> bool {
        self is Changed || self is Appended
    }

    pub fn got_resized(&self) -> (r: bool)
        ensures
            r == self.resized(),
    {
        match self {
            BufferChangeState::Unchanged => false,
            BufferChangeState::ChangedOnly => false,
            BufferChangeState::Changed => true,
            BufferChangeState::Appended => true,
        }
    }
}

/// What an upload has to do to bring the GPU buffer up to date.
#[derive(Clone, Copy, Debug, PartialEq, Eq, Structural)]
pub enum BufferUpdate {
    /// The GPU buffer is current.
    Keep,
    /// Make a new GPU buffer holding all the bytes.
    Recreate,
    /// Write all the bytes over the GPU buffer, whose size is right.
    Rewrite,
    /// Make a larger GPU buffer, copy the old contents into it and write the
    /// bytes that follow them.
    Grow,
}

/// The upload that a change state calls for.
pub open spec fn update_for(state: BufferChangeState) -> BufferUpdate {
    match state {
        BufferChangeState::Unchanged => BufferUpdate::Keep,
        BufferChangeState::Changed => BufferUpdate::Recreate,
        BufferChangeState::ChangedOnly => BufferUpdate::Rewrite,
        BufferChangeState::Appended => BufferUpdate::Grow,
    }
}

/// `old` with `data` written from `start` on, grown with zero bytes where the
/// write reaches past its end.
pub open spec fn spliced(old: Seq<u8>, start: int, data: Seq<u8>) -> Seq<u8> {
    let end = start + data.len();
    let len = if end > old.len() { end } else { old.len() as int };
    Seq::new(
        len as nat,
        |i: int|
            if start <= i < end {
                data[i - start]
            } else if i < old.len() {
                old[i]
            } else {
                0u8
            },
    )
}

/// The bytes that a GPU buffer should hold, and how they changed since the
/// last upload.
pub struct FrequentlyChangedBuffer {
    data: Vec<u8>,
    state: BufferChangeState,
}

impl FrequentlyChangedBuffer {
    /// The bytes that the buffer should hold.
    pub closed spec fn contents(&self) -> Seq<u8> {
        self.data@
    }

    /// How the bytes changed since the last upload.
    pub closed spec fn change(&self) -> BufferChangeState {
        self.state
    }

    /// An empty buffer, uploaded as such.
    pub fn new() -> (r: Self)
        ensures
            r.contents() == Seq::<u8>::empty(),
            r.change() == BufferChangeState::Unchanged,
    {
        FrequentlyChangedBuffer { data: Vec::new(), state: BufferChangeState::Unchanged }
    }

    /// A buffer whose GPU side was made from `data`.
    pub fn new_init(data: Vec<u8>) -> (r: Self)
        ensures
            r.contents() == data@,
            r.change() == BufferChangeState::Unchanged,
    {
        FrequentlyChangedBuffer { data, state: BufferChangeState::Unchanged }
    }

    /// The bytes that the buffer should hold.
    pub fn data(&self) -> (r: &Vec<u8>)
        ensures
            r@ == self.contents(),
    {
        &self.data
    }

    /// How the bytes changed since the last upload.
    pub fn state(&self) -> (r: BufferChangeState)
        ensures
            r == self.change(),
    {
        self.state
    }

    /// Says what the upload must do, and marks the bytes as uploaded.
    pub fn get_updated_buffer(&mut self) -> (r: BufferUpdate)
        ensures
            r == update_for(old(self).change()),
            final(self).contents() == old(self).contents(),
            final(self).change() == BufferChangeState::Unchanged,
    {
        let r = match self.state {
            BufferChangeState::Unchanged => BufferUpdate::Keep,
            BufferChangeState::Changed => BufferUpdate::Recreate,
            BufferChangeState::ChangedOnly => BufferUpdate::Rewrite,
            BufferChangeState::Appended => BufferUpdate::Grow,
        };
        self.state = BufferChangeState::Unchanged;
        r
    }

    /// Adds bytes at the end.
    pub fn append(&mut self, data: Vec<u8>)
        ensures
            final(self).contents() == old(self).contents() + data@,
            final(self).change() == (if old(self).change() is Unchanged {
                BufferChangeState::Appended
            } else {
                old(self).change()
            }),
    {
        let mut data = data;
        self.data.append(&mut data);
        if self.state == BufferChangeState::Unchanged {
            self.state = BufferChangeState::Appended;
        }
    }

    /// Replaces all the bytes.
    pub fn set_data(&mut self, data: Vec<u8>)
        ensures
            final(self).contents() == data@,
            final(self).change() == (if old(self).contents().len() == data@.len()
                && !old(self).change().resized() {
                BufferChangeState::ChangedOnly
            } else {
                BufferChangeState::Changed
            }),
    {
        if self.data.len() == data.len() && !self.state.got_resized() {
            self.state = BufferChangeState::ChangedOnly;
        } else {
            self.state = BufferChangeState::Changed;
        }
        self.data = data;
    }

    /// Writes `data` from `start_index` on, growing the bytes with zeros
    /// where the write reaches past their end.
    pub fn change_data(&mut self, data: Vec<u8>, start_index: usize)
        requires
            start_index + data@.len() <= usize::MAX,
        ensures
            final(self).contents() == spliced(old(self).contents(), start_index as int, data@),
            final(self).change() == (if start_index + data@.len() <= old(self).contents().len()
                && !old(self).change().resized() {
                BufferChangeState::ChangedOnly
            } else {
                BufferChangeState::Changed
            }),
    {
        let end = start_index + data.len();
        if end > self.data.len() {
            let old_len = self.data.len();
            while self.data.len() < end
                invariant
                    old_len <= self.data@.len() <= end,
                    forall|i: int| 0 <= i < old_len ==> self.data@[i] == old(self).data@[i],
                    forall|i: int| old_len <= i < self.data@.len() ==> self.data@[i] == 0u8,
                    old_len == old(self).data@.len(),
                decreases end - self.data@.len(),
            {
                self.data.push(0u8);
            }
            self.state = BufferChangeState::Changed;
        } else if !self.state.got_resized() {
            self.state = BufferChangeState::ChangedOnly;
        } else {
            self.state = BufferChangeState::Changed;
        }
        let ghost grown = self.data@;
        let ghost state = self.state;
        let mut j: usize = 0;
        while j < data.len()
            invariant
                j <= data@.len(),
                self.state == state,
                grown.len() == (if end > old(self).data@.len() {
                    end as int
                } else {
                    old(self).data@.len() as int
                }),
                forall|i: int| 0 <= i < old(self).data@.len() ==> grown[i] == old(self).data@[i],
                forall|i: int| old(self).data@.len() <= i < grown.len() ==> grown[i] == 0u8,
                end == start_index + data@.len(),
                self.data@.len() == grown.len(),
                end <= grown.len(),
                forall|i: int| 0 <= i < j ==> self.data@[start_index + i] == data@[i],
                forall|i: int|
                    0 <= i < grown.len() && !(start_index <= i < start_index + j)
                        ==> self.data@[i] == grown[i],
            decreases data@.len() - j,
        {
            self.data.set(start_index + j, data[j]);
            j = j + 1;
        }
        let ghost expected = spliced(old(self).data@, start_index as int, data@);
        assert(expected.len() == self.data@.len());
        assert forall|i: int| 0 <= i < self.data@.len() implies self.data@[i] == expected[i] by {
            if start_index <= i < end {
            } else {
                assert(self.data@[i] == grown[i]);
            }
        }
        assert(self.data@ =~= expected);
    }
}

} // verus!
