use vstd::prelude::*;

verus! {

/// Total number of bytes across a sequence of spans.
pub open spec fn total_len(spans: Seq<Seq<u8>>) -> nat
    decreases spans.len(),
{
    if spans.len() == 0 {
        0
    } else {
        spans[0].len() + total_len(spans.skip(1))
    }
}

/// The spans that remain after `n` bytes are consumed from the front of the
/// list: fully consumed leading spans are dropped — including the
/// zero-length spans reached when the count runs out exactly at a span
/// boundary, so that a count that drains the last bytes leaves the empty
/// list — and a partially consumed first span is truncated by the remaining
/// partial count. Consuming zero bytes leaves the list unchanged.
pub open spec fn advance_spec(spans: Seq<Seq<u8>>, n: nat) -> Seq<Seq<u8>>
    recommends
        n <= total_len(spans),
    decreases spans.len(),
{
    if n == 0 || spans.len() == 0 {
        spans
    } else if spans[0].len() < n {
        advance_spec(spans.skip(1), (n - spans[0].len()) as nat)
    } else if spans[0].len() == n {
        skip_empties_spec(spans.skip(1))
    } else {
        spans.update(0, spans[0].skip(n as int))
    }
}

/// The spans that remain after leading empty spans are dropped.
pub open spec fn skip_empties_spec(spans: Seq<Seq<u8>>) -> Seq<Seq<u8>>
    decreases spans.len(),
{
    if spans.len() == 0 {
        spans
    } else if spans[0].len() == 0 {
        skip_empties_spec(spans.skip(1))
    } else {
        spans
    }
}

/// An ordered list of byte spans for one vectored transfer, tracking how far
/// the front of the list has been consumed.
///
/// Consumption never reorders or copies the underlying buffers: it only moves
/// the start index forward and records how many bytes of the first remaining
/// span are already done, exactly as a transfer over borrowed system I/O
/// slices would.
pub struct BufferList {
    pub(crate) bufs: Vec<Vec<u8>>,
    pub(crate) start: usize,
    pub(crate) skip: usize,
}

impl View for BufferList {
    type V = Seq<Seq<u8>>;

    /// The spans that remain to be transferred.
    closed spec fn view(&self) -> Seq<Seq<u8>> {
        Seq::new(
            (self.bufs@.len() - self.start) as nat,
            |i: int|
                if i == 0 {
                    self.bufs@[self.start as int]@.skip(self.skip as int)
                } else {
                    self.bufs@[self.start + i]@
                },
        )
    }
}

impl BufferList {
    /// The consumption marks lie within the underlying buffers.
    pub closed spec fn wf(&self) -> bool {
        &&& self.start <= self.bufs@.len()
        &&& self.start < self.bufs@.len() ==> self.skip <= self.bufs@[self.start as int]@.len()
        &&& self.start == self.bufs@.len() ==> self.skip == 0
    }

    /// All underlying buffers, including any already consumed, in order.
    pub closed spec fn full_view(&self) -> Seq<Seq<u8>> {
        self.bufs@.map_values(|b: Vec<u8>| b@)
    }

    /// Wrap a list of buffers with nothing consumed yet.
    pub fn new(bufs: Vec<Vec<u8>>) -> (r: BufferList)
        ensures
            r.wf(),
            r@ == bufs@.map_values(|b: Vec<u8>| b@),
            r.full_view() == bufs@.map_values(|b: Vec<u8>| b@),
    {
        let r = BufferList { bufs, start: 0, skip: 0 };
        proof {
            assert(r@ =~= r.bufs@.map_values(|b: Vec<u8>| b@)) by {
                assert forall|i: int| 0 <= i < r.bufs@.len() implies r@[i]
                    == r.bufs@.map_values(|b: Vec<u8>| b@)[i] by {
                    if i == 0 {
                        assert(r.bufs@[0]@.skip(0) =~= r.bufs@[0]@);
                    }
                }
            }
        }
        r
    }

    /// Take the underlying buffers back out, in their original order and
    /// with whatever contents transfers have left in them.
    pub fn into_bufs(self) -> (r: Vec<Vec<u8>>)
        ensures
            r@.map_values(|b: Vec<u8>| b@) == self.full_view(),
    {
        self.bufs
    }

    /// How many spans remain.
    pub fn span_count(&self) -> (n: usize)
        requires
            self.wf(),
        ensures
            n == self@.len(),
    {
        self.bufs.len() - self.start
    }

    /// Whether no spans remain.
    pub fn is_empty(&self) -> (b: bool)
        requires
            self.wf(),
        ensures
            b <==> self@.len() == 0,
    {
        self.start == self.bufs.len()
    }

    /// Consume `n` bytes from the front of the list: drop the spans that are
    /// now fully consumed — including any zero-length spans reached when the
    /// count runs out exactly at a span boundary — and truncate the
    /// partially consumed one. Consuming zero bytes leaves the list
    /// unchanged.
    pub fn advance(&mut self, n: usize)
        requires
            old(self).wf(),
            n as nat <= total_len(old(self)@),
        ensures
            final(self).wf(),
            final(self)@ == advance_spec(old(self)@, n as nat),
            final(self).full_view() == old(self).full_view(),
    {
        if n == 0 {
            return;
        }
        let mut rem: usize = n;
        loop
            invariant
                self.wf(),
                0 < rem,
                rem as nat <= total_len(self@),
                advance_spec(old(self)@, n as nat) == advance_spec(self@, rem as nat),
                self.full_view() == old(self).full_view(),
            decreases self@.len(),
        {
            let ghost pre = self@;
            assert(pre.len() > 0);
            assert(self.start < self.bufs@.len());
            let nbufs = self.bufs.len();
            assert(self.start < nbufs);
            let avail = self.bufs[self.start].len() - self.skip;
            assert(avail == pre[0].len());
            if avail < rem {
                self.start = self.start + 1;
                self.skip = 0;
                rem = rem - avail;
                proof {
                    assert(self@ =~= pre.skip(1)) by {
                        assert forall|i: int| 0 <= i < self@.len() implies self@[i] == pre.skip(
                            1,
                        )[i] by {
                            if i == 0 {
                                assert(self.bufs@[self.start as int]@.skip(0)
                                    =~= self.bufs@[self.start as int]@);
                            }
                        }
                    }
                    assert(advance_spec(pre, (rem + avail) as nat) == advance_spec(
                        self@,
                        rem as nat,
                    ));
                }
            } else if avail == rem {
                // The count runs out exactly at this span's end: drop it,
                // and the zero-length spans that follow it, so that a fully
                // drained list is the empty list.
                self.start = self.start + 1;
                self.skip = 0;
                proof {
                    assert(self@ =~= pre.skip(1)) by {
                        assert forall|i: int| 0 <= i < self@.len() implies self@[i] == pre.skip(
                            1,
                        )[i] by {
                            if i == 0 {
                                assert(self.bufs@[self.start as int]@.skip(0)
                                    =~= self.bufs@[self.start as int]@);
                            }
                        }
                    }
                    assert(advance_spec(pre, rem as nat) == skip_empties_spec(self@));
                }
                self.skip_leading_empties();
                return;
            } else {
                let ghost old_skip = self.skip as int;
                self.skip = self.skip + rem;
                proof {
                    let ghost b = self.bufs@[self.start as int]@;
                    assert(b.skip(old_skip).skip(rem as int) =~= b.skip(old_skip + rem));
                    assert(self@ =~= pre.update(0, pre[0].skip(rem as int)));
                    assert(advance_spec(pre, rem as nat) == self@);
                }
                return;
            }
        }
    }

    /// Drop any leading spans that are empty, so that an empty list means no
    /// bytes remain anywhere. Zero-length leading spans must be skippable
    /// without being mistaken for the end of the list.
    pub fn skip_leading_empties(&mut self)
        requires
            old(self).wf(),
        ensures
            final(self).wf(),
            final(self)@ == skip_empties_spec(old(self)@),
            final(self).full_view() == old(self).full_view(),
            final(self)@.len() > 0 ==> final(self)@[0].len() > 0,
    {
        let ghost orig = self@;
        loop
            invariant
                self.wf(),
                skip_empties_spec(orig) == skip_empties_spec(self@),
                self.full_view() == old(self).full_view(),
            ensures
                self.wf(),
                self@ == skip_empties_spec(orig),
                self.full_view() == old(self).full_view(),
                self@.len() > 0 ==> self@[0].len() > 0,
            decreases self@.len(),
        {
            if self.start == self.bufs.len() {
                break;
            }
            let ghost pre = self@;
            if self.bufs[self.start].len() - self.skip > 0 {
                assert(pre[0].len() > 0);
                break;
            }
            assert(pre[0].len() == 0);
            self.start = self.start + 1;
            self.skip = 0;
            proof {
                assert(self@ =~= pre.skip(1)) by {
                    assert forall|i: int| 0 <= i < self@.len() implies self@[i] == pre.skip(
                        1,
                    )[i] by {
                        if i == 0 {
                            assert(self.bufs@[self.start as int]@.skip(0)
                                =~= self.bufs@[self.start as int]@);
                        }
                    }
                }
            }
        }
    }
}

/// Advancing reduces the total remaining length by exactly the count
/// consumed.
pub proof fn lemma_total_len_advance(spans: Seq<Seq<u8>>, n: nat)
    requires
        n <= total_len(spans),
    ensures
        total_len(advance_spec(spans, n)) == total_len(spans) - n,
    decreases spans.len(),
{
    if n == 0 || spans.len() == 0 {
    } else if spans[0].len() < n {
        lemma_total_len_advance(spans.skip(1), (n - spans[0].len()) as nat);
    } else if spans[0].len() == n {
        lemma_total_len_skip_empties(spans.skip(1));
    } else {
        let u = spans.update(0, spans[0].skip(n as int));
        assert(u.skip(1) =~= spans.skip(1));
        assert(total_len(u) == u[0].len() + total_len(u.skip(1)));
    }
}

/// Two span lists with the same shape have the same total length.
pub proof fn lemma_total_len_congruent(a: Seq<Seq<u8>>, b: Seq<Seq<u8>>)
    requires
        a.len() == b.len(),
        forall|i: int| 0 <= i < a.len() ==> a[i].len() == b[i].len(),
    ensures
        total_len(a) == total_len(b),
    decreases a.len(),
{
    if a.len() > 0 {
        assert forall|i: int| 0 <= i < a.skip(1).len() implies a.skip(1)[i].len() == b.skip(
            1,
        )[i].len() by {
            assert(a.skip(1)[i] == a[i + 1]);
        }
        lemma_total_len_congruent(a.skip(1), b.skip(1));
    }
}

/// Dropping leading empty spans does not change the total remaining length.
pub proof fn lemma_total_len_skip_empties(spans: Seq<Seq<u8>>)
    ensures
        total_len(skip_empties_spec(spans)) == total_len(spans),
    decreases spans.len(),
{
    if spans.len() > 0 && spans[0].len() == 0 {
        lemma_total_len_skip_empties(spans.skip(1));
    }
}

/// The total remaining length is the length of the flattened content.
pub proof fn lemma_total_len_is_flatten_len(spans: Seq<Seq<u8>>)
    ensures
        total_len(spans) == spans.flatten().len(),
    decreases spans.len(),
{
    if spans.len() == 0 {
        assert(spans.flatten() =~= Seq::<u8>::empty());
    } else {
        lemma_total_len_is_flatten_len(spans.skip(1));
        assert(spans.drop_first() =~= spans.skip(1));
        assert(spans.flatten() == spans[0] + spans.skip(1).flatten());
    }
}

/// Law: consuming `n` bytes from the front of a buffer list removes exactly
/// the first `n` bytes of its flattened content, and nothing else; it works
/// the same however the bytes are split into spans.
pub proof fn lemma_advance_flatten(spans: Seq<Seq<u8>>, n: nat)
    requires
        n <= total_len(spans),
    ensures
        advance_spec(spans, n).flatten() == spans.flatten().skip(n as int),
    decreases spans.len(),
{
    if n == 0 {
        assert(spans.flatten().skip(0) =~= spans.flatten());
    } else if spans[0].len() < n {
        lemma_advance_flatten(spans.skip(1), (n - spans[0].len()) as nat);
        assert(spans.drop_first() =~= spans.skip(1));
        assert(spans.flatten() == spans[0] + spans.skip(1).flatten());
        assert((spans[0] + spans.skip(1).flatten()).skip(n as int) =~= spans.skip(
            1,
        ).flatten().skip(n - spans[0].len())) by {
            lemma_total_len_is_flatten_len(spans.skip(1));
        }
    } else if spans[0].len() == n {
        lemma_skip_empties_flatten(spans.skip(1));
        assert(spans.drop_first() =~= spans.skip(1));
        assert(spans.flatten() == spans[0] + spans.skip(1).flatten());
        assert((spans[0] + spans.skip(1).flatten()).skip(n as int) =~= spans.skip(1).flatten());
    } else {
        let u = spans.update(0, spans[0].skip(n as int));
        assert(u.drop_first() =~= spans.skip(1));
        assert(u.flatten() == spans[0].skip(n as int) + spans.skip(1).flatten());
        assert(spans.drop_first() =~= spans.skip(1));
        assert(spans.flatten() == spans[0] + spans.skip(1).flatten());
        assert((spans[0] + spans.skip(1).flatten()).skip(n as int) =~= spans[0].skip(n as int)
            + spans.skip(1).flatten());
    }
}

/// Law: dropping leading empty spans does not change the flattened
/// content.
pub proof fn lemma_skip_empties_flatten(spans: Seq<Seq<u8>>)
    ensures
        skip_empties_spec(spans).flatten() == spans.flatten(),
    decreases spans.len(),
{
    if spans.len() > 0 && spans[0].len() == 0 {
        lemma_skip_empties_flatten(spans.skip(1));
        assert(spans.drop_first() =~= spans.skip(1));
        assert(spans.flatten() == spans[0] + spans.skip(1).flatten());
        assert(spans[0] + spans.skip(1).flatten() =~= spans.skip(1).flatten());
    }
}

/// A list with no bytes left holds only empty spans.
pub proof fn lemma_total_len_zero_all_empty(spans: Seq<Seq<u8>>)
    requires
        total_len(spans) == 0,
    ensures
        forall|i: int| 0 <= i < spans.len() ==> spans[i].len() == 0,
    decreases spans.len(),
{
    if spans.len() > 0 {
        lemma_total_len_zero_all_empty(spans.skip(1));
        assert forall|i: int| 0 <= i < spans.len() implies spans[i].len() == 0 by {
            if i > 0 {
                assert(spans[i] == spans.skip(1)[i - 1]);
            }
        }
    }
}

/// Dropping leading empty spans from a list that holds no bytes at all
/// leaves the empty list.
pub proof fn lemma_skip_empties_no_bytes(spans: Seq<Seq<u8>>)
    requires
        total_len(spans) == 0,
    ensures
        skip_empties_spec(spans) == Seq::<Seq<u8>>::empty(),
    decreases spans.len(),
{
    if spans.len() > 0 {
        lemma_skip_empties_no_bytes(spans.skip(1));
    } else {
        assert(spans =~= Seq::<Seq<u8>>::empty());
    }
}

/// Advancing by the full remaining count, when there is anything at all to
/// consume, leaves the empty list.
pub proof fn lemma_advance_full_drain(spans: Seq<Seq<u8>>)
    requires
        total_len(spans) > 0,
    ensures
        advance_spec(spans, total_len(spans)) == Seq::<Seq<u8>>::empty(),
    decreases spans.len(),
{
    let n = total_len(spans);
    if spans[0].len() < n {
        lemma_advance_full_drain(spans.skip(1));
    } else if spans[0].len() == n {
        lemma_skip_empties_no_bytes(spans.skip(1));
    }
}

/// Law: advancing a buffer list by any valid `n` and then by all the bytes
/// that remain drains it — no bytes are left in any span, and whenever the
/// list held any bytes at all, what remains is the empty list itself; and
/// advancing by zero leaves the list unchanged.
pub proof fn lemma_advance_round_trip(spans: Seq<Seq<u8>>, n: nat)
    requires
        n <= total_len(spans),
    ensures
        advance_spec(spans, 0) == spans,
        total_len(advance_spec(advance_spec(spans, n), (total_len(spans) - n) as nat)) == 0,
        forall|i: int|
            0 <= i < advance_spec(advance_spec(spans, n), (total_len(spans) - n) as nat).len()
                ==> #[trigger] advance_spec(advance_spec(spans, n), (total_len(spans) - n) as nat)[i].len()
                == 0,
        total_len(spans) > 0 ==> advance_spec(
            advance_spec(spans, n),
            (total_len(spans) - n) as nat,
        ) == Seq::<Seq<u8>>::empty(),
{
    lemma_total_len_advance(spans, n);
    let a1 = advance_spec(spans, n);
    let m = (total_len(spans) - n) as nat;
    lemma_total_len_advance(a1, m);
    lemma_total_len_zero_all_empty(advance_spec(a1, m));
    if total_len(spans) > 0 {
        if m > 0 {
            lemma_advance_full_drain(a1);
        } else {
            lemma_advance_full_drain(spans);
        }
    }
}

} // verus!
