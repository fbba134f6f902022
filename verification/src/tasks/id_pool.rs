//! The pool of free packet identifiers: a ring buffer of the `ringbuf`
//! crate, first in first out, split into the end that puts identifiers back
//! and the end that hands them out.
use ringbuf::{HeapConsumer, HeapProducer, HeapRb};
use vstd::prelude::*;

verus! {

/// Both ends of one ring buffer of `u16`s. Verus is not shown the fields: the
/// two ends share one buffer, which no declaration of their types could
/// state.
#[verifier::external_body]
pub struct IdPool {
    producer: HeapProducer<u16>,
    consumer: HeapConsumer<u16>,
}

/// The identifiers in the pool, oldest first.
pub uninterp spec fn id_pool_items(pool: IdPool) -> Seq<u16>;

/// How many identifiers the pool was made to hold.
pub uninterp spec fn id_pool_capacity(pool: IdPool) -> nat;

impl IdPool {
    /// `HeapRb::new` and `split`: an empty ring buffer of the given capacity.
    /// It panics on a capacity of zero.
    #[verifier::external_body]
    pub(crate) fn new(capacity: usize) -> (r: IdPool)
        requires
            capacity > 0,
        ensures
            id_pool_items(r) == Seq::<u16>::empty(),
            id_pool_capacity(r) == capacity,
    {
        let (producer, consumer) = HeapRb::<u16>::new(capacity).split();
        IdPool { producer, consumer }
    }

    /// `Producer::push`: puts an identifier at the back unless the buffer is
    /// full; says whether it did.
    #[verifier::external_body]
    pub(crate) fn push(&mut self, id: u16) -> (r: bool)
        ensures
            id_pool_capacity(*final(self)) == id_pool_capacity(*old(self)),
            r == (id_pool_items(*old(self)).len() < id_pool_capacity(*old(self))),
            r ==> id_pool_items(*final(self)) == id_pool_items(*old(self)).push(id),
            !r ==> id_pool_items(*final(self)) == id_pool_items(*old(self)),
    {
        self.producer.push(id).is_ok()
    }

    /// `Consumer::pop`: takes the identifier at the front, if any.
    #[verifier::external_body]
    pub(crate) fn pop(&mut self) -> (r: Option<u16>)
        ensures
            id_pool_capacity(*final(self)) == id_pool_capacity(*old(self)),
            id_pool_items(*old(self)).len() == 0 ==> r is None && id_pool_items(*final(self))
                == id_pool_items(*old(self)),
            id_pool_items(*old(self)).len() > 0 ==> r == Some(id_pool_items(*old(self))[0])
                && id_pool_items(*final(self)) == id_pool_items(*old(self)).skip(1),
    {
        self.consumer.pop()
    }
}

/// The identifiers `1..=n`, in order.
pub open spec fn ids_up_to(n: nat) -> Seq<u16> {
    Seq::new(n, |i: int| (i + 1) as u16)
}

/// The pool with every packet identifier, `1` to `65535`, in order.
pub fn full_id_pool() -> (r: IdPool)
    ensures
        id_pool_items(r) == ids_up_to(65535),
        id_pool_capacity(r) == 65535,
{
    let mut pool = IdPool::new(65535);
    let mut i: u16 = 1;
    loop
        invariant_except_break
            1 <= i,
            id_pool_capacity(pool) == 65535,
            id_pool_items(pool) == ids_up_to((i - 1) as nat),
        ensures
            id_pool_capacity(pool) == 65535,
            id_pool_items(pool) == ids_up_to(65535),
        decreases 65536 - i,
    {
        let pushed = pool.push(i);
        assert(pushed);
        assert(id_pool_items(pool) =~= ids_up_to(i as nat));
        if i == 65535 {
            break;
        }
        i = i + 1;
    }
    pool
}

} // verus!
