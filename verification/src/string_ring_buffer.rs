//! A bounded first-in, first-out buffer of messages.

use std::collections::VecDeque;
use vstd::prelude::*;
use vstd::string::StringExecFns;

verus! {

/// The last `n` elements of `s`, or all of `s` when it holds no more than `n`.
pub open spec fn keep_last<A>(s: Seq<A>, n: nat) -> Seq<A> {
    if s.len() <= n {
        s
    } else {
        s.subrange(s.len() - n, s.len() as int)
    }
}

/// The lines of `lines` joined by single newline characters.
pub open spec fn join_lines(lines: Seq<Seq<char>>) -> Seq<char>
    decreases lines.len(),
{
    if lines.len() == 0 {
        Seq::empty()
    } else if lines.len() == 1 {
        lines[0]
    } else {
        join_lines(lines.drop_last()) + seq!['\n'] + lines.last()
    }
}

/// What a buffer of capacity `capacity` holds after the messages of `incoming`
/// were pushed onto `held`, one after the other.
pub open spec fn push_all(held: Seq<Seq<char>>, incoming: Seq<Seq<char>>, capacity: nat) -> Seq<
    Seq<char>,
>
    decreases incoming.len(),
{
    if incoming.len() == 0 {
        held
    } else {
        keep_last(push_all(held, incoming.drop_last(), capacity).push(incoming.last()), capacity)
    }
}

/// The texts of a sequence of strings, in the same order.
pub open spec fn texts(strings: Seq<String>) -> Seq<Seq<char>> {
    strings.map_values(|s: String| s@)
}

/// A buffer that keeps the most recent messages, up to a capacity fixed when it
/// is made. A push onto a full buffer evicts the oldest message. Messages are kept
/// exactly as given: nothing is numbered or prefixed.
pub struct StringRingBuffer {
    buffer: VecDeque<String>,
    capacity: usize,
}

impl View for StringRingBuffer {
    type V = Seq<Seq<char>>;

    /// The messages held, oldest first.
    closed spec fn view(&self) -> Seq<Seq<char>> {
        self.buffer@.map_values(|s: String| s@)
    }
}

impl StringRingBuffer {
    /// The most messages the buffer will hold.
    pub closed spec fn spec_capacity(&self) -> nat {
        self.capacity as nat
    }

    /// The buffer never holds more than its capacity.
    pub closed spec fn wf(&self) -> bool {
        self.buffer@.len() <= self.capacity
    }

    /// A well-formed buffer holds no more messages than its capacity.
    pub proof fn lemma_wf_bounds(&self)
        requires
            self.wf(),
        ensures
            self@.len() <= self.spec_capacity(),
            self.spec_capacity() <= usize::MAX,
    {
    }

    /// An empty buffer that will hold up to `capacity` messages.
    pub fn with_capacity(capacity: usize) -> (r: StringRingBuffer)
        ensures
            r.wf(),
            r@ == Seq::<Seq<char>>::empty(),
            r.spec_capacity() == capacity,
    {
        let r = StringRingBuffer { buffer: VecDeque::with_capacity(capacity), capacity };
        assert(r@ =~= Seq::<Seq<char>>::empty());
        r
    }

    /// The capacity that the buffer was made with.
    pub fn capacity(&self) -> (r: usize)
        ensures
            r == self.spec_capacity(),
    {
        self.capacity
    }

    /// The number of messages held.
    pub fn len(&self) -> (r: usize)
        ensures
            r == self@.len(),
    {
        self.buffer.len()
    }

    /// Takes the message `s` in as the newest. Where the buffer is full, the
    /// oldest message makes room for it; a buffer of capacity 0 keeps nothing.
    pub fn push(&mut self, s: String)
        requires
            old(self).wf(),
        ensures
            final(self).wf(),
            final(self).spec_capacity() == old(self).spec_capacity(),
            final(self)@ == keep_last(old(self)@.push(s@), old(self).spec_capacity()),
    {
        if self.capacity == 0 {
            assert(self@ =~= keep_last(self@.push(s@), 0));
            return ;
        }
        if self.buffer.len() >= self.capacity {
            self.buffer.pop_front();
        }
        self.buffer.push_back(s);
        assert(self@ =~= keep_last(old(self)@.push(s@), old(self).spec_capacity()));
    }

    /// Forgets every message.
    pub fn clear(&mut self)
        ensures
            final(self).wf(),
            final(self).spec_capacity() == old(self).spec_capacity(),
            final(self)@ == Seq::<Seq<char>>::empty(),
    {
        self.buffer.clear();
        assert(self@ =~= Seq::<Seq<char>>::empty());
    }

    /// Removes every message and hands them out, oldest first.
    pub fn drain(&mut self) -> (out: Vec<String>)
        ensures
            final(self).wf(),
            final(self).spec_capacity() == old(self).spec_capacity(),
            final(self)@ == Seq::<Seq<char>>::empty(),
            texts(out@) == old(self)@,
    {
        let mut out: Vec<String> = Vec::new();
        assert(texts(out@) + self@ =~= old(self)@);
        loop
            invariant
                self.capacity == old(self).capacity,
                texts(out@) + self@ == old(self)@,
            ensures
                self.buffer@.len() == 0,
            decreases self.buffer@.len(),
        {
            let ghost held = self@;
            let ghost taken = texts(out@);
            match self.buffer.pop_front() {
                Some(s) => {
                    out.push(s);
                    assert(texts(out@) =~= taken.push(s@));
                    assert(self@ =~= held.subrange(1, held.len() as int));
                    assert(texts(out@) + self@ =~= taken + held);
                },
                None => {
                    break ;
                },
            }
        }
        assert(self@ =~= Seq::<Seq<char>>::empty());
        assert(texts(out@) =~= texts(out@) + self@);
        out
    }

    /// The messages held, oldest first, one per line.
    pub fn to_string(&self) -> (r: String)
        ensures
            r@ == join_lines(self@),
    {
        let mut out = String::new();
        proof {
            reveal_strlit("\n");
            assert(self@.take(0) =~= Seq::<Seq<char>>::empty());
        }
        for i in 0..self.buffer.len()
            invariant
                "\n"@ == seq!['\n'],
                out@ == join_lines(self@.take(i as int)),
        {
            let ghost lines = self@.take(i + 1);
            assert(lines.drop_last() =~= self@.take(i as int));
            assert(lines.last() == self.buffer@[i as int]@);
            if i > 0 {
                out.append("\n");
            }
            out.append(self.buffer[i].as_str());
            assert(out@ =~= join_lines(lines));
        }
        assert(self@.take(self.buffer@.len() as int) =~= self@);
        out
    }
}

/// Cutting to the last `n` before a push changes nothing of what the last
/// `n` are after it.
proof fn lemma_keep_last_push<A>(s: Seq<A>, a: A, n: nat)
    ensures
        keep_last(keep_last(s, n).push(a), n) == keep_last(s.push(a), n),
{
    assert(keep_last(keep_last(s, n).push(a), n) =~= keep_last(s.push(a), n));
}

/// A full log holds the most recent messages. After any messages were pushed
/// onto a buffer that held no more than its capacity, it holds the last
/// `capacity` of all it was ever given, in arrival order; where at least
/// `capacity` messages were pushed, exactly the last `capacity` of those, and
/// nothing older.
pub proof fn lemma_push_all_keeps_most_recent(
    held: Seq<Seq<char>>,
    incoming: Seq<Seq<char>>,
    capacity: nat,
)
    requires
        held.len() <= capacity,
    ensures
        push_all(held, incoming, capacity) == keep_last(held + incoming, capacity),
        incoming.len() >= capacity ==> push_all(held, incoming, capacity) == keep_last(
            incoming,
            capacity,
        ),
        push_all(held, incoming, capacity).len() <= capacity,
    decreases incoming.len(),
{
    if incoming.len() == 0 {
        assert(held + incoming =~= held);
    } else {
        let earlier = incoming.drop_last();
        lemma_push_all_keeps_most_recent(held, earlier, capacity);
        lemma_keep_last_push(held + earlier, incoming.last(), capacity);
        assert((held + earlier).push(incoming.last()) =~= held + incoming);
    }
    if incoming.len() >= capacity {
        assert(keep_last(held + incoming, capacity) =~= keep_last(incoming, capacity));
    }
}

} // verus!
