//! Reassembles an event stream into messages: a message ends at the first
//! blank line ("\n\n"), and only messages that start with the data prefix
//! "data: " carry a payload, which is the rest of the message.

use vstd::prelude::*;

verus! {

/// The bytes of the data prefix, "data: ".
pub open spec fn data_prefix() -> Seq<u8> {
    seq![100u8, 97u8, 116u8, 97u8, 58u8, 32u8]
}

/// A blank line starts at `i`: two newlines in a row.
pub open spec fn delim_at(s: Seq<u8>, i: int) -> bool {
    0 <= i && i + 1 < s.len() && s[i] == 10u8 && s[i + 1] == 10u8
}

/// The first blank line at or after `i`.
pub open spec fn first_delim_from(s: Seq<u8>, i: int) -> Option<int>
    decreases s.len() - i,
{
    if i < 0 || i + 1 >= s.len() {
        None
    } else if delim_at(s, i) {
        Some(i)
    } else {
        first_delim_from(s, i + 1)
    }
}

/// The complete messages of `s` from position `start` on, and what is left
/// after the last blank line.
pub open spec fn split_from(s: Seq<u8>, start: int) -> (Seq<Seq<u8>>, Seq<u8>)
    decreases s.len() - start,
{
    match first_delim_from(s, start) {
        Some(i) => if 0 <= start <= i && i + 2 <= s.len() {
            let (ms, rest) = split_from(s, i + 2);
            (seq![s.subrange(start, i)] + ms, rest)
        } else {
            (seq![], s.subrange(start, s.len() as int))
        },
        None => (seq![], s.subrange(start, s.len() as int)),
    }
}

/// The complete messages of a buffer and its unfinished tail.
pub open spec fn split_frames(s: Seq<u8>) -> (Seq<Seq<u8>>, Seq<u8>) {
    split_from(s, 0)
}

/// The payload of a message that starts with the data prefix.
pub open spec fn data_payload(m: Seq<u8>) -> Option<Seq<u8>> {
    if m.len() >= 6 && m.subrange(0, 6) == data_prefix() {
        Some(m.subrange(6, m.len() as int))
    } else {
        None
    }
}

/// The payloads of a list of messages, in order.
pub open spec fn payloads(ms: Seq<Seq<u8>>) -> Seq<Seq<u8>>
    decreases ms.len(),
{
    if ms.len() == 0 {
        seq![]
    } else {
        let init = payloads(ms.drop_last());
        match data_payload(ms.last()) {
            Some(p) => init.push(p),
            None => init,
        }
    }
}

/// The payloads produced, and the buffer left, by feeding `chunks` in order
/// to a decoder whose buffer holds `buf`.
pub open spec fn feed(buf: Seq<u8>, chunks: Seq<Seq<u8>>) -> (Seq<Seq<u8>>, Seq<u8>)
    decreases chunks.len(),
{
    if chunks.len() == 0 {
        (seq![], buf)
    } else {
        let (ms, rest) = split_frames(buf + chunks[0]);
        let (ps, left) = feed(rest, chunks.drop_first());
        (payloads(ms) + ps, left)
    }
}

pub open spec fn views_of_bytes(v: Seq<Vec<u8>>) -> Seq<Seq<u8>> {
    v.map_values(|b: Vec<u8>| b@)
}

/// An event-stream decoder; a fresh one is made for each connection.
pub struct FrameDecoder {
    buffer: Vec<u8>,
}

impl View for FrameDecoder {
    type V = Seq<u8>;

    closed spec fn view(&self) -> Seq<u8> {
        self.buffer@
    }
}

fn first_delim_exec(s: &Vec<u8>, from: usize) -> (r: Option<usize>)
    requires
        from <= s@.len(),
    ensures
        match r {
            Some(i) => first_delim_from(s@, from as int) == Some(i as int) && from <= i && i + 2
                <= s@.len(),
            None => first_delim_from(s@, from as int) is None,
        },
{
    let n = s.len();
    let mut k: usize = from;
    while n - k >= 2
        invariant
            n == s@.len(),
            from <= k <= n,
            first_delim_from(s@, from as int) == first_delim_from(s@, k as int),
        decreases n - k,
    {
        if s[k] == 10u8 && s[k + 1] == 10u8 {
            return Some(k);
        }
        k = k + 1;
    }
    None
}

fn slice_of(s: &Vec<u8>, from: usize, to: usize) -> (r: Vec<u8>)
    requires
        from <= to <= s@.len(),
    ensures
        r@ == s@.subrange(from as int, to as int),
{
    let mut r: Vec<u8> = Vec::new();
    let mut k: usize = from;
    while k < to
        invariant
            from <= k <= to <= s@.len(),
            r@ == s@.subrange(from as int, k as int),
        decreases to - k,
    {
        r.push(s[k]);
        k = k + 1;
    }
    r
}

fn payload_of(s: &Vec<u8>, from: usize, to: usize) -> (r: Option<Vec<u8>>)
    requires
        from <= to <= s@.len(),
    ensures
        match r {
            Some(p) => data_payload(s@.subrange(from as int, to as int)) == Some(p@),
            None => data_payload(s@.subrange(from as int, to as int)) is None,
        },
{
    let ghost m = s@.subrange(from as int, to as int);
    if to - from < 6 {
        return None;
    }
    let prefix: [u8; 6] = [100u8, 97u8, 116u8, 97u8, 58u8, 32u8];
    let mut k: usize = 0;
    while k < 6
        invariant
            from + 6 <= to <= s@.len(),
            m == s@.subrange(from as int, to as int),
            k <= 6,
            prefix@ == data_prefix(),
            forall|j: int| 0 <= j < k ==> m[j] == data_prefix()[j],
        decreases 6 - k,
    {
        if s[from + k] != prefix[k] {
            assert(m.subrange(0, 6)[k as int] != data_prefix()[k as int]);
            return None;
        }
        k = k + 1;
    }
    assert(m.subrange(0, 6) =~= data_prefix());
    let p = slice_of(s, from + 6, to);
    assert(p@ =~= m.subrange(6, m.len() as int));
    Some(p)
}

impl FrameDecoder {
    /// A decoder with an empty buffer.
    pub fn new() -> (r: FrameDecoder)
        ensures
            r@ == Seq::<u8>::empty(),
    {
        FrameDecoder { buffer: Vec::new() }
    }

    /// The bytes received and not yet part of a complete message.
    pub fn pending(&self) -> (r: &Vec<u8>)
        ensures
            r@ == self@,
    {
        &self.buffer
    }

    /// Appends a chunk and hands out the payloads of the messages that it
    /// completes, in order; the unfinished tail stays buffered.
    pub fn push(&mut self, chunk: &[u8]) -> (r: Vec<Vec<u8>>)
        ensures
            views_of_bytes(r@) == payloads(split_frames(old(self)@ + chunk@).0),
            final(self)@ == split_frames(old(self)@ + chunk@).1,
    {
        let mut all: Vec<u8> = Vec::new();
        std::mem::swap(&mut all, &mut self.buffer);
        let mut k: usize = 0;
        while k < chunk.len()
            invariant
                k <= chunk@.len(),
                all@ == old(self)@ + chunk@.subrange(0, k as int),
            decreases chunk.len() - k,
        {
            all.push(chunk[k]);
            k = k + 1;
        }
        assert(chunk@.subrange(0, chunk@.len() as int) =~= chunk@);
        let ghost total = all@;
        let mut out: Vec<Vec<u8>> = Vec::new();
        let n = all.len();
        let mut start: usize = 0;
        let ghost mut msgs: Seq<Seq<u8>> = seq![];
        loop
            invariant
                all@ == total,
                n == total.len(),
                total == old(self)@ + chunk@,
                start <= total.len(),
                split_frames(total).0 == msgs + split_from(total, start as int).0,
                split_frames(total).1 == split_from(total, start as int).1,
                views_of_bytes(out@) == payloads(msgs),
            decreases total.len() - start,
        {
            match first_delim_exec(&all, start) {
                Some(i) => {
                    let ghost m = total.subrange(start as int, i as int);
                    let p = payload_of(&all, start, i);
                    proof {
                        assert(split_from(total, start as int).0 == seq![m] + split_from(
                            total,
                            i + 2,
                        ).0);
                        assert(msgs + (seq![m] + split_from(total, i + 2).0) =~= msgs.push(m)
                            + split_from(total, i + 2).0);
                        assert(msgs.push(m).drop_last() =~= msgs);
                    }
                    match p {
                        Some(p) => {
                            out.push(p);
                            assert(views_of_bytes(out@) =~= payloads(msgs.push(m)));
                        },
                        None => {},
                    }
                    proof {
                        msgs = msgs.push(m);
                    }
                    start = i + 2;
                },
                None => {
                    let rest = slice_of(&all, start, all.len());
                    self.buffer = rest;
                    assert(msgs + seq![] =~= msgs);
                    return out;
                },
            }
        }
    }
}

} // verus!
