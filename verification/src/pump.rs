use vstd::prelude::*;

verus! {

/// The bytes that a sequence of chunks carries, in order.
pub open spec fn concat_of(chunks: Seq<Seq<u8>>) -> Seq<u8>
    decreases chunks.len(),
{
    if chunks.len() == 0 {
        Seq::empty()
    } else {
        chunks[0] + concat_of(chunks.drop_first())
    }
}

/// Appending one more chunk appends exactly its bytes.
pub proof fn lemma_concat_snoc(chunks: Seq<Seq<u8>>, last: Seq<u8>)
    ensures
        concat_of(chunks.push(last)) == concat_of(chunks) + last,
    decreases chunks.len(),
{
    if chunks.len() == 0 {
        assert(chunks.push(last).drop_first() =~= Seq::<Seq<u8>>::empty());
        assert(chunks.push(last)[0] == last);
        assert(concat_of(Seq::<Seq<u8>>::empty()) == Seq::<u8>::empty());
        assert(concat_of(chunks) == Seq::<u8>::empty());
        assert(concat_of(chunks.push(last)) == last + Seq::<u8>::empty());
        assert(last + Seq::<u8>::empty() =~= Seq::<u8>::empty() + last);
    } else {
        assert(chunks.push(last).drop_first() =~= chunks.drop_first().push(last));
        lemma_concat_snoc(chunks.drop_first(), last);
        assert(chunks.push(last)[0] == chunks[0]);
        assert(concat_of(chunks.push(last)) == chunks[0] + (concat_of(chunks.drop_first())
            + last));
        assert(chunks[0] + (concat_of(chunks.drop_first()) + last) =~= (chunks[0] + concat_of(
            chunks.drop_first(),
        )) + last);
    }
}

/// Splits the input into chunks of at most `cap` bytes, every chunk full
/// except possibly the last, exactly as the sending pump consumes its
/// source.  The chunks carry the input verbatim, and their number is the
/// input length divided by `cap`, rounded up.
#[verifier::loop_isolation(false)]
pub fn split_chunks(input: &Vec<u8>, cap: usize) -> (chunks: Vec<Vec<u8>>)
    requires
        cap >= 1,
    ensures
        concat_of(chunks@.map_values(|c: Vec<u8>| c@)) == input@,
        forall|i: int| 0 <= i < chunks@.len() ==> 1 <= (#[trigger] chunks@[i])@.len() <= cap,
        forall|i: int| 0 <= i < chunks@.len() - 1 ==> (#[trigger] chunks@[i])@.len() == cap,
        input@.len() == 0 ==> chunks@.len() == 0,
        input@.len() > 0 ==> (chunks@.len() - 1) * (cap as int) < input@.len() <= chunks@.len() * (
        cap as int),
{
    let mut chunks: Vec<Vec<u8>> = Vec::new();
    let mut pos: usize = 0;
    proof {
        assert(concat_of(chunks@.map_values(|c: Vec<u8>| c@)) =~= input@.take(0));
    }
    while pos < input.len()
        invariant
            pos <= input@.len(),
            concat_of(chunks@.map_values(|c: Vec<u8>| c@)) == input@.take(pos as int),
            forall|i: int| 0 <= i < chunks@.len() ==> 1 <= (#[trigger] chunks@[i])@.len() <= cap,
            forall|i: int|
                0 <= i < chunks@.len() ==> ((#[trigger] chunks@[i])@.len() == cap || (i == chunks@.len()
                    - 1 && pos == input@.len())),
            pos == input@.len() || pos as int == chunks@.len() * (cap as int),
            pos as int <= chunks@.len() * (cap as int),
            chunks@.len() * (cap as int) < pos + cap,
        decreases input@.len() - pos,
    {
        let remaining = input.len() - pos;
        let take = if remaining < cap {
            remaining
        } else {
            cap
        };
        let mut chunk: Vec<u8> = Vec::new();
        let mut j: usize = 0;
        while j < take
            invariant
                j <= take,
                pos + take <= input@.len(),
                chunk@ == input@.subrange(pos as int, pos as int + j as int),
            decreases take - j,
        {
            chunk.push(input[pos + j]);
            proof {
                assert(chunk@ =~= input@.subrange(pos as int, pos as int + j as int + 1));
            }
            j = j + 1;
        }
        proof {
            let ghost old_views = chunks@.map_values(|c: Vec<u8>| c@);
            lemma_concat_snoc(old_views, chunk@);
            assert(chunks@.push(chunk).map_values(|c: Vec<u8>| c@) =~= old_views.push(chunk@));
            assert(input@.take(pos as int) + input@.subrange(
                pos as int,
                pos as int + take as int,
            ) =~= input@.take(pos as int + take as int));
            assert((chunks@.len() + 1) * (cap as int) == chunks@.len() * (cap as int) + cap) by (nonlinear_arith);
        }
        chunks.push(chunk);
        pos = pos + take;
    }
    proof {
        assert(input@.take(pos as int) =~= input@);
        if input@.len() > 0 {
            assert(chunks@.len() >= 1);
            assert((chunks@.len() - 1) * (cap as int) == chunks@.len() * (cap as int) - cap) by (nonlinear_arith);
        }
    }
    chunks
}

/// Concatenates received chunks into the sink's output, in arrival order,
/// exactly as the receiving pump writes them.
#[verifier::loop_isolation(false)]
pub fn concat_chunks(chunks: &Vec<Vec<u8>>) -> (out: Vec<u8>)
    ensures
        out@ == concat_of(chunks@.map_values(|c: Vec<u8>| c@)),
{
    let mut out: Vec<u8> = Vec::new();
    let mut i: usize = 0;
    proof {
        assert(out@ =~= concat_of(chunks@.take(0).map_values(|c: Vec<u8>| c@)));
    }
    while i < chunks.len()
        invariant
            i <= chunks@.len(),
            out@ == concat_of(chunks@.take(i as int).map_values(|c: Vec<u8>| c@)),
        decreases chunks@.len() - i,
    {
        let chunk = &chunks[i];
        let ghost prefix = concat_of(chunks@.take(i as int).map_values(|c: Vec<u8>| c@));
        let mut j: usize = 0;
        while j < chunk.len()
            invariant
                j <= chunk@.len(),
                out@ == prefix + chunk@.take(j as int),
            decreases chunk@.len() - j,
        {
            out.push(chunk[j]);
            proof {
                assert(prefix + chunk@.take(j as int + 1) =~= (prefix + chunk@.take(j as int)).push(
                    chunk@[j as int],
                ));
            }
            j = j + 1;
        }
        proof {
            lemma_concat_snoc(chunks@.take(i as int).map_values(|c: Vec<u8>| c@), chunk@);
            assert(chunks@.take(i as int + 1).map_values(|c: Vec<u8>| c@) =~= chunks@.take(
                i as int,
            ).map_values(|c: Vec<u8>| c@).push(chunk@));
            assert(chunk@.take(chunk@.len() as int) =~= chunk@);
        }
        i = i + 1;
    }
    proof {
        assert(chunks@.take(i as int) =~= chunks@);
    }
    out
}

/// The whole data path of one transfer, end to end: the source bytes are
/// split into bounded chunks by the sending pump and concatenated again by
/// the receiving pump.  For any finite input and any chunk size of at least
/// one, the output equals the input byte for byte, in order.
pub fn pump_transfer(input: &Vec<u8>, cap: usize) -> (out: Vec<u8>)
    requires
        cap >= 1,
    ensures
        out@ == input@,
{
    let chunks = split_chunks(input, cap);
    concat_chunks(&chunks)
}

/// The sending pump's bookkeeping: which bytes have been handed to the
/// channel, and whether the end-of-source signal has been seen.  The driving
/// loop reads one chunk from the source, records it here, and acts on the
/// decision: a zero-length read means the source is exhausted and the
/// channel must be finished; nothing may be recorded after that.
pub struct SendPump {
    /// True once the end of the source was seen; the channel is finished
    /// then and no further chunk may be written.
    pub finished: bool,
    /// The bytes handed to the channel so far, in order.
    pub sent: Ghost<Seq<u8>>,
}

impl SendPump {
    /// Starts a transfer: channel open, nothing sent.
    pub fn new() -> (p: SendPump)
        ensures
            !p.finished,
            p.sent@ == Seq::<u8>::empty(),
    {
        SendPump { finished: false, sent: Ghost(Seq::empty()) }
    }

    /// One pump iteration on the sending side: the chunk just read from the
    /// source is written to the channel, and a zero-length read ends the
    /// transfer.  Returns true exactly when the transfer is over.
    pub fn push_chunk(&mut self, chunk: &Vec<u8>) -> (done: bool)
        requires
            !old(self).finished,
        ensures
            done <==> chunk@.len() == 0,
            final (self).finished == done,
            final (self).sent@ == old(self).sent@ + chunk@,
    {
        self.sent = Ghost(self.sent@ + chunk@);
        if chunk.len() == 0 {
            self.finished = true;
            true
        } else {
            false
        }
    }
}

/// The receiving pump's bookkeeping, mirroring `SendPump`: which bytes have
/// arrived from the channel, and whether the peer's finish signal has been
/// seen.  The driving loop reads the next chunk from the channel, records it
/// here, and flushes the sink once the channel reports end of stream.
pub struct RecvPump {
    /// True once the peer finished the stream; the sink is flushed then.
    pub done: bool,
    /// The bytes written to the sink so far, in order.
    pub received: Ghost<Seq<u8>>,
}

impl RecvPump {
    /// Starts a transfer: nothing received yet.
    pub fn new() -> (p: RecvPump)
        ensures
            !p.done,
            p.received@ == Seq::<u8>::empty(),
    {
        RecvPump { done: false, received: Ghost(Seq::empty()) }
    }

    /// One pump iteration on the receiving side: a chunk read from the
    /// channel is written to the sink, and the channel reporting no more
    /// data ends the transfer.  Returns true exactly when the transfer is
    /// over.
    pub fn take_chunk(&mut self, chunk: &Option<Vec<u8>>) -> (done: bool)
        requires
            !old(self).done,
        ensures
            done <==> chunk is None,
            final (self).done == done,
            chunk matches Some(c) ==> final (self).received@ == old(self).received@ + c@,
            chunk is None ==> final (self).received@ == old(self).received@,
    {
        match chunk {
            Option::Some(c) => {
                self.received = Ghost(self.received@ + c@);
                false
            },
            Option::None => {
                self.done = true;
                true
            },
        }
    }
}

} // verus!
