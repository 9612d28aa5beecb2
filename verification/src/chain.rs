//! Pointer chains through another process's memory, as a state machine: the
//! walk names the address it needs read next, the caller reads a
//! pointer-sized value there and supplies it, and the walk moves on.
use vstd::prelude::*;

verus! {

/// How a chain combines its reads with its offsets.
#[derive(Clone, Copy, PartialEq, Eq, Structural, Debug)]
pub enum WalkStyle {
    /// Read the pointer at the current address, then add the next offset to
    /// it. With no offsets at all, the start address is still read once.
    ReadThenAdd,
    /// Add the next offset to the current address, then read the pointer
    /// stored there. With no offsets, nothing is read.
    AddThenRead,
}

/// Number of reads a walk of the given style makes over `n` offsets.
pub open spec fn reads_needed(style: WalkStyle, n: nat) -> nat {
    match style {
        WalkStyle::ReadThenAdd => if n == 0 { 1 } else { n },
        WalkStyle::AddThenRead => n,
    }
}

/// The current address of a walk once the values `values` have been read.
pub open spec fn address_after(
    style: WalkStyle,
    start: int,
    offsets: Seq<usize>,
    values: Seq<usize>,
) -> int {
    let k = values.len() as int;
    if k == 0 {
        start
    } else {
        match style {
            WalkStyle::ReadThenAdd => if offsets.len() == 0 {
                values[0] as int
            } else {
                values[k - 1] + offsets[k - 1]
            },
            WalkStyle::AddThenRead => values[k - 1] as int,
        }
    }
}

/// The address that a walk reads next, once the values `values` have been
/// read (meaningful while fewer than `reads_needed` values were read).
pub open spec fn read_target(
    style: WalkStyle,
    start: int,
    offsets: Seq<usize>,
    values: Seq<usize>,
) -> int {
    match style {
        WalkStyle::ReadThenAdd => address_after(style, start, offsets, values),
        WalkStyle::AddThenRead => address_after(style, start, offsets, values)
            + offsets[values.len() as int],
    }
}

/// Whether the arithmetic that follows the read of `value`, as the read
/// number `k` of a walk, stays within `usize`.
pub open spec fn value_fits(style: WalkStyle, offsets: Seq<usize>, k: int, value: usize) -> bool {
    match style {
        WalkStyle::ReadThenAdd => offsets.len() == 0 || value + offsets[k] <= usize::MAX,
        WalkStyle::AddThenRead => k + 1 >= offsets.len() || value + offsets[k + 1] <= usize::MAX,
    }
}

/// The chain "read, then add" over memory `mem`: starting at `start`, each
/// offset in turn is added to the value read at the current address.
pub open spec fn pointer_path(mem: spec_fn(int) -> usize, start: int, offsets: Seq<usize>) -> int
    decreases offsets.len(),
{
    if offsets.len() == 0 {
        start
    } else {
        mem(pointer_path(mem, start, offsets.drop_last())) + offsets.last()
    }
}

/// The chain "add, then read" over memory `mem`: starting at `start`, each
/// offset in turn is added to the current address and the value stored there
/// becomes the current address.
pub open spec fn offset_path(mem: spec_fn(int) -> usize, start: int, offsets: Seq<usize>) -> int
    decreases offsets.len(),
{
    if offsets.len() == 0 {
        start
    } else {
        mem(offset_path(mem, start, offsets.drop_last()) + offsets.last()) as int
    }
}

/// The address a chain of the given style ends at over memory `mem`.
pub open spec fn chain_result(
    style: WalkStyle,
    mem: spec_fn(int) -> usize,
    start: int,
    offsets: Seq<usize>,
) -> int {
    match style {
        WalkStyle::ReadThenAdd => if offsets.len() == 0 {
            mem(start) as int
        } else {
            pointer_path(mem, start, offsets)
        },
        WalkStyle::AddThenRead => offset_path(mem, start, offsets),
    }
}

/// The first `k` values a walk gets when every read is answered from `mem`.
pub open spec fn answers_from(
    style: WalkStyle,
    mem: spec_fn(int) -> usize,
    start: int,
    offsets: Seq<usize>,
    k: nat,
) -> Seq<usize>
    decreases k,
{
    if k == 0 {
        Seq::empty()
    } else {
        let earlier = answers_from(style, mem, start, offsets, (k - 1) as nat);
        earlier.push(mem(read_target(style, start, offsets, earlier)))
    }
}

proof fn lemma_answers_len(
    style: WalkStyle,
    mem: spec_fn(int) -> usize,
    start: int,
    offsets: Seq<usize>,
    k: nat,
)
    ensures
        answers_from(style, mem, start, offsets, k).len() == k,
    decreases k,
{
    if k > 0 {
        lemma_answers_len(style, mem, start, offsets, (k - 1) as nat);
    }
}

proof fn lemma_answers_prefix_path(
    style: WalkStyle,
    mem: spec_fn(int) -> usize,
    start: int,
    offsets: Seq<usize>,
    k: nat,
)
    requires
        1 <= k <= offsets.len(),
    ensures
        address_after(style, start, offsets, answers_from(style, mem, start, offsets, k)) == (
        match style {
            WalkStyle::ReadThenAdd => pointer_path(mem, start, offsets.take(k as int)),
            WalkStyle::AddThenRead => offset_path(mem, start, offsets.take(k as int)),
        }),
    decreases k,
{
    let earlier = answers_from(style, mem, start, offsets, (k - 1) as nat);
    lemma_answers_len(style, mem, start, offsets, (k - 1) as nat);
    lemma_answers_len(style, mem, start, offsets, k);
    assert(offsets.take(k as int).drop_last() =~= offsets.take(k - 1));
    assert(offsets.take(k as int).last() == offsets[k - 1]);
    let values = answers_from(style, mem, start, offsets, k);
    assert(values == earlier.push(mem(read_target(style, start, offsets, earlier))));
    assert(values[k - 1] == mem(read_target(style, start, offsets, earlier)));
    let prev = offsets.take(k - 1);
    if k > 1 {
        lemma_answers_prefix_path(style, mem, start, offsets, (k - 1) as nat);
    } else {
        assert(prev =~= Seq::<usize>::empty());
        assert(earlier =~= Seq::<usize>::empty());
    }
    match style {
        WalkStyle::ReadThenAdd => {
            assert(read_target(style, start, offsets, earlier) == pointer_path(mem, start, prev));
            assert(pointer_path(mem, start, offsets.take(k as int)) == mem(
                pointer_path(mem, start, prev),
            ) + offsets[k - 1]);
        },
        WalkStyle::AddThenRead => {
            assert(read_target(style, start, offsets, earlier) == offset_path(mem, start, prev)
                + offsets[k - 1]);
            assert(offset_path(mem, start, offsets.take(k as int)) == mem(
                offset_path(mem, start, prev) + offsets[k - 1],
            ) as int);
        },
    }
}

/// A walk whose every read is answered from memory `mem` ends, after its
/// last read, at the address of the chain over `mem`: "read, then add" walks
/// follow `pointer_path` (one plain read of the start when there are no
/// offsets), "add, then read" walks follow `offset_path`.
pub proof fn lemma_walk_follows_chain(
    style: WalkStyle,
    mem: spec_fn(int) -> usize,
    start: int,
    offsets: Seq<usize>,
)
    ensures
        ({
            let values = answers_from(
                style,
                mem,
                start,
                offsets,
                reads_needed(style, offsets.len()),
            );
            &&& values.len() == reads_needed(style, offsets.len())
            &&& address_after(style, start, offsets, values) == chain_result(
                style,
                mem,
                start,
                offsets,
            )
        }),
{
    let n = reads_needed(style, offsets.len());
    lemma_answers_len(style, mem, start, offsets, n);
    if offsets.len() == 0 {
        if style == WalkStyle::ReadThenAdd {
            assert(answers_from(style, mem, start, offsets, 0) =~= Seq::<usize>::empty());
        }
    } else {
        lemma_answers_prefix_path(style, mem, start, offsets, offsets.len());
        assert(offsets.take(offsets.len() as int) =~= offsets);
    }
}

/// A pointer chain in progress.
pub struct PointerWalk {
    style: WalkStyle,
    start: usize,
    offsets: Vec<usize>,
    reads: usize,
    current: usize,
    history: Ghost<Seq<usize>>,
}

impl PointerWalk {
    /// How the walk combines reads and offsets.
    pub closed spec fn walk_style(self) -> WalkStyle {
        self.style
    }

    /// The address the walk started from.
    pub closed spec fn origin(self) -> usize {
        self.start
    }

    /// The offsets of the chain.
    pub closed spec fn offset_list(self) -> Seq<usize> {
        self.offsets@
    }

    /// The values supplied so far, in order.
    pub closed spec fn values(self) -> Seq<usize> {
        self.history@
    }

    /// The walk still needs a read.
    pub open spec fn pending(self) -> bool {
        self.values().len() < reads_needed(self.walk_style(), self.offset_list().len())
    }

    /// The current address of the walk.
    pub open spec fn address(self) -> int {
        address_after(self.walk_style(), self.origin() as int, self.offset_list(), self.values())
    }

    /// The address the walk reads next.
    pub open spec fn target(self) -> int {
        read_target(self.walk_style(), self.origin() as int, self.offset_list(), self.values())
    }

    /// Whether supplying `value` keeps the walk's arithmetic within `usize`.
    pub open spec fn fits(self, value: usize) -> bool {
        value_fits(self.walk_style(), self.offset_list(), self.values().len() as int, value)
    }

    /// Well-formedness: the stored address is the one the supplied values
    /// lead to, and a pending read has an address that fits in `usize`.
    pub closed spec fn wf(self) -> bool {
        &&& self.reads == self.history@.len()
        &&& self.history@.len() <= reads_needed(self.style, self.offsets@.len())
        &&& self.current as int == address_after(
            self.style,
            self.start as int,
            self.offsets@,
            self.history@,
        )
        &&& self.pending() ==> 0 <= self.target() <= usize::MAX
    }

    /// A chain that reads the pointer at `start`, adds the first offset,
    /// reads the pointer there, adds the next offset, and so on; with no
    /// offsets it reads the pointer at `start` once.
    pub fn read_then_add(start: usize, offsets: Vec<usize>) -> (walk: PointerWalk)
        ensures
            walk.wf(),
            walk.walk_style() == WalkStyle::ReadThenAdd,
            walk.origin() == start,
            walk.offset_list() == offsets@,
            walk.values() == Seq::<usize>::empty(),
    {
        PointerWalk {
            style: WalkStyle::ReadThenAdd,
            start,
            offsets,
            reads: 0,
            current: start,
            history: Ghost(Seq::empty()),
        }
    }

    /// A chain that adds the first offset to `start`, reads the pointer
    /// there, adds the next offset, and so on; with no offsets it reads
    /// nothing and ends at `start`.
    pub fn add_then_read(start: usize, offsets: Vec<usize>) -> (walk: PointerWalk)
        requires
            offsets@.len() > 0 ==> start + offsets@[0] <= usize::MAX,
        ensures
            walk.wf(),
            walk.walk_style() == WalkStyle::AddThenRead,
            walk.origin() == start,
            walk.offset_list() == offsets@,
            walk.values() == Seq::<usize>::empty(),
    {
        PointerWalk {
            style: WalkStyle::AddThenRead,
            start,
            offsets,
            reads: 0,
            current: start,
            history: Ghost(Seq::empty()),
        }
    }

    /// The address to read next, or `None` once the chain is complete.
    pub fn next_read(&self) -> (r: Option<usize>)
        requires
            self.wf(),
        ensures
            self.pending() ==> r == Some(self.target() as usize),
            !self.pending() ==> r is None,
    {
        let needed: usize = match self.style {
            WalkStyle::ReadThenAdd => if self.offsets.len() == 0 { 1 } else { self.offsets.len() },
            WalkStyle::AddThenRead => self.offsets.len(),
        };
        if self.reads < needed {
            match self.style {
                WalkStyle::ReadThenAdd => Some(self.current),
                WalkStyle::AddThenRead => Some(self.current + self.offsets[self.reads]),
            }
        } else {
            None
        }
    }

    /// The offset that is added around the next read, if the chain has one.
    pub fn next_offset(&self) -> (r: Option<usize>)
        requires
            self.wf(),
        ensures
            self.values().len() < self.offset_list().len() ==> r == Some(
                self.offset_list()[self.values().len() as int],
            ),
            self.values().len() >= self.offset_list().len() ==> r is None,
    {
        if self.reads < self.offsets.len() {
            Some(self.offsets[self.reads])
        } else {
            None
        }
    }

    /// The address the walk started from.
    pub fn start(&self) -> (r: usize)
        ensures
            r == self.origin(),
    {
        self.start
    }

    /// Whether `value`, read at the pending address, can be supplied without
    /// the chain's next addition leaving `usize`.
    pub fn accepts(&self, value: usize) -> (r: bool)
        requires
            self.wf(),
            self.pending(),
        ensures
            r == self.fits(value),
    {
        match self.style {
            WalkStyle::ReadThenAdd => self.offsets.len() == 0 || value <= usize::MAX
                - self.offsets[self.reads],
            WalkStyle::AddThenRead => {
                let n = self.offsets.len();
                self.reads + 1 >= n || value <= usize::MAX - self.offsets[self.reads + 1]
            },
        }
    }

    /// Hands the walk the value read at its pending address.
    pub fn supply(&mut self, value: usize)
        requires
            old(self).wf(),
            old(self).pending(),
            old(self).fits(value),
        ensures
            final(self).wf(),
            final(self).walk_style() == old(self).walk_style(),
            final(self).origin() == old(self).origin(),
            final(self).offset_list() == old(self).offset_list(),
            final(self).values() == old(self).values().push(value),
    {
        let k = self.reads;
        let n = self.offsets.len();
        assert(k < n || n == 0);
        let ghost before = self.history@;
        match self.style {
            WalkStyle::ReadThenAdd => {
                if self.offsets.len() == 0 {
                    self.current = value;
                } else {
                    self.current = value + self.offsets[k];
                }
            },
            WalkStyle::AddThenRead => {
                self.current = value;
            },
        }
        self.reads = k + 1;
        self.history = Ghost(before.push(value));
        proof {
            let after = before.push(value);
            assert(after[after.len() - 1] == value);
            if self.style == WalkStyle::ReadThenAdd && self.offsets@.len() == 0 {
                assert(after[0] == value);
            }
        }
    }

    /// The current address: where the chain ends once no read is pending.
    pub fn current(&self) -> (r: usize)
        requires
            self.wf(),
        ensures
            r == self.address(),
    {
        self.current
    }
}

} // verus!
