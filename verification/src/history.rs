//! The bounded rolling history of settled bets and its feature encoding.

use vstd::prelude::*;
use vstd::utf8::encode_utf8;

use crate::sites::BetResult;
use crate::util::{
    hex_bits_of, hex_string_to_binary_vec, resize_bits, resized_bits, u32_bits_le, u32_to_bits_le,
    CLIENT_SEED_SIZE, FINAL_FEATURE_SIZE, HASH_NEXT_ROLL_SIZE, HASH_PREVIOUS_ROLL_SIZE,
};

verus! {

/// The window after one push: the item is appended, and when the window is
/// already full the oldest entry leaves first.
pub open spec fn pushed(s: Seq<BetResult>, x: BetResult, cap: nat) -> Seq<BetResult> {
    if s.len() < cap {
        s.push(x)
    } else {
        s.drop_first().push(x)
    }
}

/// The window after pushing a whole sequence of items, oldest first.
pub open spec fn pushed_all(s: Seq<BetResult>, items: Seq<BetResult>, cap: nat) -> Seq<BetResult>
    decreases items.len(),
{
    if items.len() == 0 {
        s
    } else {
        pushed_all(pushed(s, items.first(), cap), items.drop_first(), cap)
    }
}

/// The fixed-width encoding of one settled bet: the bits of
/// `hash_next_roll`, `hash_previous_roll` and `client_seed`, each slot
/// brought to its cumulative width, then the 32 nonce bits least
/// significant first, padded to the final width.
pub open spec fn encoded_entry(b: BetResult) -> Seq<u8> {
    resized_bits(
        resized_bits(
            resized_bits(
                resized_bits(hex_bits_of(encode_utf8(b.hash_next_roll@)), HASH_NEXT_ROLL_SIZE as nat)
                    + hex_bits_of(encode_utf8(b.hash_previous_roll@)),
                HASH_PREVIOUS_ROLL_SIZE as nat,
            ) + hex_bits_of(encode_utf8(b.client_seed@)),
            CLIENT_SEED_SIZE as nat,
        ) + u32_bits_le(b.nonce),
        FINAL_FEATURE_SIZE as nat,
    )
}

/// The concatenated encodings of a whole history, oldest entry first.
pub open spec fn encoded_history(s: Seq<BetResult>) -> Seq<u8>
    decreases s.len(),
{
    if s.len() == 0 {
        Seq::<u8>::empty()
    } else {
        encoded_entry(s.first()) + encoded_history(s.drop_first())
    }
}

/// A fixed-capacity FIFO sequence of settled bets, insertion order
/// significant, oldest entry evicted once the length would exceed the
/// capacity.
pub struct HistoryWindow {
    items: Vec<BetResult>,
    capacity: usize,
}

impl HistoryWindow {
    /// The history this window holds, oldest first.
    pub closed spec fn view(&self) -> Seq<BetResult> {
        self.items@
    }

    pub closed spec fn spec_capacity(&self) -> nat {
        self.capacity as nat
    }

    /// The window never exceeds its capacity, and the capacity is positive.
    pub closed spec fn wf(&self) -> bool {
        self.items@.len() <= self.capacity && self.capacity >= 1
    }

    /// An empty window with the given capacity.
    pub fn new(capacity: usize) -> (w: Self)
        requires
            capacity >= 1,
        ensures
            w.wf(),
            w@ =~= Seq::<BetResult>::empty(),
            w.spec_capacity() == capacity,
    {
        HistoryWindow { items: Vec::new(), capacity }
    }

    pub fn len(&self) -> (r: usize)
        ensures
            r == self@.len(),
    {
        self.items.len()
    }

    pub fn capacity(&self) -> (r: usize)
        ensures
            r == self.spec_capacity(),
    {
        self.capacity
    }

    pub fn get(&self, i: usize) -> (r: &BetResult)
        requires
            i < self@.len(),
        ensures
            *r == self@[i as int],
    {
        &self.items[i]
    }

    /// A copy of the whole window, oldest entry first.
    pub fn to_vec(&self) -> (r: Vec<BetResult>)
        ensures
            r@ == self@,
    {
        let r = self.items.clone();
        assert(r@ =~= self.items@);
        r
    }

    /// Appends one settled bet; when the window is full the oldest entry
    /// leaves first, so the length never exceeds the capacity.
    pub fn push(&mut self, b: BetResult)
        requires
            old(self).wf(),
        ensures
            final(self).wf(),
            final(self)@ == pushed(old(self)@, b, old(self).spec_capacity()),
            final(self).spec_capacity() == old(self).spec_capacity(),
    {
        if self.items.len() == self.capacity {
            self.items.remove(0);
            assert(self.items@ =~= old(self).items@.drop_first());
        }
        self.items.push(b);
    }

    /// The fixed-width feature encoding of the whole window: exactly
    /// `FINAL_FEATURE_SIZE` bits for each entry, oldest entry first.
    pub fn encode(&self) -> (r: Vec<u8>)
        ensures
            r@ == encoded_history(self@),
            r@.len() == FINAL_FEATURE_SIZE * self@.len(),
    {
        let n = self.items.len();
        let mut r: Vec<u8> = Vec::new();
        for i in 0..n
            invariant
                n == self.items@.len(),
                r@ =~= encoded_history(self.items@.take(i as int)),
                r@.len() == FINAL_FEATURE_SIZE * i,
        {
            let mut entry = encode_bet_result(&self.items[i]);
            r.append(&mut entry);
            proof {
                lemma_encoded_history_take_step(self.items@, i as int);
            }
        }
        assert(self.items@.take(n as int) =~= self.items@);
        r
    }
}

/// Encodes one settled bet into its fixed-width slot of
/// `FINAL_FEATURE_SIZE` bits.
pub fn encode_bet_result(b: &BetResult) -> (r: Vec<u8>)
    ensures
        r@ == encoded_entry(*b),
        r@.len() == FINAL_FEATURE_SIZE,
{
    let mut vals = hex_string_to_binary_vec(b.hash_next_roll.as_str());
    resize_bits(&mut vals, HASH_NEXT_ROLL_SIZE);
    let mut prev = hex_string_to_binary_vec(b.hash_previous_roll.as_str());
    vals.append(&mut prev);
    resize_bits(&mut vals, HASH_PREVIOUS_ROLL_SIZE);
    let mut seed = hex_string_to_binary_vec(b.client_seed.as_str());
    vals.append(&mut seed);
    resize_bits(&mut vals, CLIENT_SEED_SIZE);
    let mut nonce_bits = u32_to_bits_le(b.nonce);
    vals.append(&mut nonce_bits);
    resize_bits(&mut vals, FINAL_FEATURE_SIZE);
    vals
}

/// Extending the history by one entry appends that entry's slot.
proof fn lemma_encoded_history_take_step(s: Seq<BetResult>, i: int)
    requires
        0 <= i < s.len(),
    ensures
        encoded_history(s.take(i + 1)) =~= encoded_history(s.take(i)) + encoded_entry(s[i]),
    decreases i,
{
    if i == 0 {
        reveal_with_fuel(encoded_history, 3);
        assert(s.take(1).drop_first() =~= Seq::<BetResult>::empty());
        assert(s.take(1).first() == s[0]);
        assert(encoded_history(s.take(1)) =~= encoded_entry(s[0]));
    } else {
        assert(s.take(i + 1).drop_first() =~= s.drop_first().take(i));
        assert(s.take(i).drop_first() =~= s.drop_first().take(i - 1));
        lemma_encoded_history_take_step(s.drop_first(), i - 1);
        assert(s.drop_first()[i - 1] == s[i]);
    }
}

/// History bound law: pushing a sequence of items into a well-formed
/// window leaves exactly the last `cap` of all items seen, in their
/// original relative order, whenever at least `cap` items have been seen
/// in total.
pub proof fn lemma_history_bound(s: Seq<BetResult>, items: Seq<BetResult>, cap: nat)
    requires
        cap >= 1,
        s.len() <= cap,
        s.len() + items.len() >= cap,
    ensures
        pushed_all(s, items, cap) =~= (s + items).skip(s.len() + items.len() - cap),
        pushed_all(s, items, cap).len() == cap,
    decreases items.len(),
{
    if items.len() == 0 {
        assert((s + items).skip(s.len() + items.len() - cap) =~= s);
    } else {
        let x = items.first();
        let rest = items.drop_first();
        let s2 = pushed(s, x, cap);
        if s.len() < cap {
            assert(s2 + rest =~= s + items);
        } else {
            assert(s2 + rest =~= (s.drop_first()).push(x) + rest);
            assert(s.drop_first().push(x) + rest =~= s.drop_first() + items);
        }
        lemma_history_bound(s2, rest, cap);
        if s.len() == cap {
            assert((s.drop_first() + items).skip(s2.len() + rest.len() - cap) =~= (s + items).skip(
                s.len() + items.len() - cap,
            ));
        }
    }
}

} // verus!
