//! Lists of borrowed byte slices for vectored writes.

use smallvec::SmallVec;
use std::io::IoSlice;
use vstd::prelude::*;
use vstd::slice::slice_subrange;

verus! {

/// Inline capacity of the list that a limited vectored write is built in. A larger one saves heap
/// traffic for writes of many small slices and costs stack space.
pub const INLINE_IOVEC: usize = 16;

#[verifier::external_type_specification]
#[verifier::external_body]
pub struct ExIoSlice<'a>(IoSlice<'a>);

/// The bytes that an `IoSlice` borrows.
pub uninterp spec fn io_slice_bytes(slice: IoSlice<'_>) -> Seq<u8>;

/// A list of slices that holds the first few inline.
#[verifier::external_body]
pub struct IoVecs<'a> {
    items: SmallVec<[IoSlice<'a>; INLINE_IOVEC]>,
}

/// The bytes of each slice of the list, in order.
pub uninterp spec fn io_vecs_contents(list: IoVecs<'_>) -> Seq<Seq<u8>>;

impl<'a> View for IoVecs<'a> {
    type V = Seq<Seq<u8>>;

    open spec fn view(&self) -> Seq<Seq<u8>> {
        io_vecs_contents(*self)
    }
}

/// `IoSlice::new`: the slice borrows exactly `bytes`.
#[verifier::external_body]
fn io_slice<'a>(bytes: &'a [u8]) -> (slice: IoSlice<'a>)
    ensures
        io_slice_bytes(slice) == bytes@,
{
    IoSlice::new(bytes)
}

/// `IoSlice::deref`: hands out the bytes that the slice borrows.
#[verifier::external_body]
fn io_slice_as_bytes<'b, 'a>(slice: &'b IoSlice<'a>) -> (bytes: &'b [u8])
    ensures
        bytes@ == io_slice_bytes(*slice),
{
    slice
}

/// `SmallVec::new`: the list is empty.
#[verifier::external_body]
fn empty_io_vecs<'a>() -> (list: IoVecs<'a>)
    ensures
        io_vecs_contents(list) == Seq::<Seq<u8>>::empty(),
{
    IoVecs { items: SmallVec::new() }
}

/// `SmallVec::push`: `slice` comes after what the list held.
#[verifier::external_body]
fn push_io_slice<'a>(list: &mut IoVecs<'a>, slice: IoSlice<'a>)
    ensures
        io_vecs_contents(*final(list)) == io_vecs_contents(*old(list)).push(io_slice_bytes(slice)),
{
    list.items.push(slice)
}

/// `SmallVec::as_slice`: hands out the slices of the list, in order.
#[verifier::external_body]
fn io_vecs_slices<'b, 'a>(list: &'b IoVecs<'a>) -> (slices: &'b [IoSlice<'a>])
    ensures
        slice_bytes(slices@) == io_vecs_contents(*list),
{
    list.items.as_slice()
}

/// The bytes of each of `slices`.
pub open spec fn slice_bytes(slices: Seq<IoSlice<'_>>) -> Seq<Seq<u8>> {
    Seq::new(slices.len(), |i: int| io_slice_bytes(slices[i]))
}

/// How many bytes come before slice `i` of `bufs`.
pub open spec fn bytes_before(bufs: Seq<Seq<u8>>, i: int) -> nat {
    bufs.take(i).flatten().len()
}

/// How many bytes of slice `i` still fit into a budget that is spent from the front.
pub open spec fn share_of(bufs: Seq<Seq<u8>>, budget: nat, i: int) -> int {
    if bytes_before(bufs, i) + bufs[i].len() <= budget {
        bufs[i].len() as int
    } else {
        budget - bytes_before(bufs, i)
    }
}

/// `out` is `bufs` cut off after `budget` bytes: slice by slice from the front for as long as
/// budget is left, each slice shortened to what is left of it.
pub open spec fn is_limited(bufs: Seq<Seq<u8>>, budget: nat, out: Seq<Seq<u8>>) -> bool {
    &&& out.len() <= bufs.len()
    &&& forall|i: int|
        #![trigger out[i]]
        #![trigger bytes_before(bufs, i)]
        0 <= i < out.len() ==> bytes_before(bufs, i) < budget && out[i] == bufs[i].take(
            share_of(bufs, budget, i),
        )
    &&& out.len() < bufs.len() ==> bytes_before(bufs, out.len() as int) >= budget
}

/// Appending the next slice appends its bytes.
proof fn lemma_flatten_next(bufs: Seq<Seq<u8>>, i: int)
    requires
        0 <= i < bufs.len(),
    ensures
        bufs.take(i + 1).flatten() == bufs.take(i).flatten() + bufs[i],
{
    let shorter = bufs.take(i);
    let longer = bufs.take(i + 1);
    assert(longer.drop_last() =~= shorter);
    longer.lemma_flatten_and_flatten_alt_are_equivalent();
    shorter.lemma_flatten_and_flatten_alt_are_equivalent();
}

/// The bytes of the first `i` slices come first among all the bytes.
proof fn lemma_flatten_is_prefix(bufs: Seq<Seq<u8>>, i: int)
    requires
        0 <= i <= bufs.len(),
    ensures
        bufs.take(i).flatten().len() <= bufs.flatten().len(),
        bufs.flatten().take(bytes_before(bufs, i) as int) == bufs.take(i).flatten(),
    decreases bufs.len() - i,
{
    if i == bufs.len() {
        assert(bufs.take(i) =~= bufs);
        assert(bufs.flatten().take(bufs.flatten().len() as int) =~= bufs.flatten());
    } else {
        lemma_flatten_next(bufs, i);
        lemma_flatten_is_prefix(bufs, i + 1);
        let shorter = bufs.take(i).flatten();
        let longer = bufs.take(i + 1).flatten();
        assert(longer.take(shorter.len() as int) =~= shorter);
        assert(bufs.flatten().take(shorter.len() as int) =~= longer.take(shorter.len() as int));
    }
}

/// A limited list of slices agrees with the whole list for as long as the budget has not run
/// out.
proof fn lemma_limited_agrees(bufs: Seq<Seq<u8>>, budget: nat, out: Seq<Seq<u8>>, i: int)
    requires
        is_limited(bufs, budget, out),
        0 <= i < out.len(),
    ensures
        out.take(i) == bufs.take(i),
{
    assert forall|j: int| 0 <= j < i implies #[trigger] out.take(i)[j] == bufs.take(i)[j] by {
        lemma_flatten_next(bufs, j);
        assert(bytes_before(bufs, j + 1) < budget);
        assert(out[j] == bufs[j].take(share_of(bufs, budget, j)));
        assert(bufs[j].take(bufs[j].len() as int) =~= bufs[j]);
    }
    assert(out.take(i) =~= bufs.take(i));
}

/// Whatever the sizes of the slices, limiting a vectored write keeps the first bytes of the
/// message, in order, up to the budget: nothing is lost before the cut, reordered or repeated, and
/// never more than the budget goes out.
pub proof fn law_limited_bytes_are_the_first_bytes(
    bufs: Seq<Seq<u8>>,
    budget: nat,
    out: Seq<Seq<u8>>,
)
    requires
        is_limited(bufs, budget, out),
    ensures
        out.flatten() == bufs.flatten().take(
            if bufs.flatten().len() <= budget {
                bufs.flatten().len() as int
            } else {
                budget as int
            },
        ),
{
    let all = bufs.flatten();
    if out.len() == 0 {
        assert(out =~= Seq::<Seq<u8>>::empty());
        if bufs.len() == 0 {
            assert(bufs =~= Seq::<Seq<u8>>::empty());
        } else {
            assert(bufs.take(0) =~= Seq::<Seq<u8>>::empty());
            assert(bytes_before(bufs, 0) >= budget);
        }
        assert(all.take(0) =~= Seq::<u8>::empty());
    } else {
        let k = out.len() - 1;
        lemma_limited_agrees(bufs, budget, out, k);
        lemma_flatten_next(bufs, k);
        lemma_flatten_next(out, k);
        lemma_flatten_is_prefix(bufs, k + 1);
        assert(out.take(k + 1) =~= out);
        assert(out[k] == bufs[k].take(share_of(bufs, budget, k)));
        assert(bytes_before(bufs, k) < budget);
        let before = bufs.take(k).flatten();
        let through = bufs.take(k + 1).flatten();
        assert(out.flatten() =~= through.take(before.len() + share_of(bufs, budget, k)));
        if k + 1 == bufs.len() {
            assert(bufs.take(k + 1) =~= bufs);
            assert(all.take(all.len() as int) =~= all);
        } else {
            assert(bytes_before(bufs, k + 1) >= budget);
        }
        assert(out.flatten() =~= all.take(before.len() + share_of(bufs, budget, k)));
    }
}

impl<'a> IoVecs<'a> {
    /// The slices to hand to a vectored write.
    pub fn as_slices(&self) -> (slices: &[IoSlice<'a>])
        ensures
            slice_bytes(slices@) == self@,
    {
        io_vecs_slices(self)
    }
}

/// Cuts a vectored write off after `size` bytes.
pub fn limit_io_slices<'b>(bufs: &'b [IoSlice<'_>], size: usize) -> (list: IoVecs<'b>)
    ensures
        is_limited(slice_bytes(bufs@), size as nat, list@),
        list@.flatten() == slice_bytes(bufs@).flatten().take(
            if slice_bytes(bufs@).flatten().len() <= size {
                slice_bytes(bufs@).flatten().len() as int
            } else {
                size as int
            },
        ),
        list@.len() <= bufs@.len(),
        forall|i: int|
            0 <= i < list@.len() ==> (#[trigger] list@[i]) == slice_bytes(bufs@)[i].take(
                list@[i].len() as int,
            ),
{
    let mut remaining: usize = size;
    let mut list = empty_io_vecs();
    let mut i: usize = 0;
    let ghost all = slice_bytes(bufs@);
    while i < bufs.len() && remaining > 0
        invariant
            all == slice_bytes(bufs@),
            i <= bufs.len(),
            list@.len() == i,
            remaining == if bytes_before(all, i as int) <= size {
                size - bytes_before(all, i as int)
            } else {
                0
            },
            forall|j: int|
                #![trigger list@[j]]
                #![trigger bytes_before(all, j)]
                0 <= j < i ==> bytes_before(all, j) < size && list@[j] == all[j].take(
                    share_of(all, size as nat, j),
                ),
        decreases bufs.len() - i,
    {
        let bytes = io_slice_as_bytes(&bufs[i]);
        proof {
            lemma_flatten_next(all, i as int);
        }
        let taken: usize = if bytes.len() <= remaining {
            bytes.len()
        } else {
            remaining
        };
        let piece = slice_subrange(bytes, 0, taken);
        proof {
            assert(piece@ =~= all[i as int].take(share_of(all, size as nat, i as int)));
        }
        remaining = remaining - taken;
        push_io_slice(&mut list, io_slice(piece));
        i = i + 1;
    }
    proof {
        law_limited_bytes_are_the_first_bytes(all, size as nat, list@);
    }
    list
}

/// The bytes of a list of slices are the bytes of each of them, in order.
pub proof fn law_slices_are_told_one_by_one(slices: Seq<IoSlice<'_>>)
    ensures
        slice_bytes(slices).len() == slices.len(),
        forall|i: int|
            0 <= i < slices.len() ==> (#[trigger] slice_bytes(slices)[i]) == io_slice_bytes(
                slices[i],
            ),
{
}

} // verus!
