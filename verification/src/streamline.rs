//! A chain of handlers through which each message passes in turn.
use vstd::prelude::*;

verus! {

/// A step of the chain: it takes a message and gives back the message to
/// pass on.
pub trait Handler<T> {
    /// Whether the handler may turn `msg` into `out`. By default it may turn
    /// a message into any message: a handler that reads outside state, or
    /// that is not verified, promises nothing more. A handler that states
    /// more overrides this, and `handle` is then held to it.
    open spec fn handles(&self, msg: T, out: T) -> bool {
        true
    }

    /// Handles one message.
    fn handle(&self, msg: T) -> (out: T)
        ensures
            self.handles(msg, out),
    ;
}

/// A boxed handler handles a message as the handler in the box does.
impl<T> Handler<T> for Box<dyn Handler<T>> {
    open spec fn handles(&self, msg: T, out: T) -> bool {
        (**self).handles(msg, out)
    }

    fn handle(&self, msg: T) -> (out: T) {
        (**self).handle(msg)
    }
}

/// Whether a chain of handlers may turn `msg` into `out`: with no handler,
/// only into `msg` itself; else the last handler may turn into `out` some
/// message that the handlers before it may make of `msg`.
pub open spec fn chain_yields<T, H: Handler<T>>(handlers: Seq<H>, msg: T, out: T) -> bool
    decreases handlers.len(),
{
    if handlers.len() == 0 {
        out == msg
    } else {
        exists|mid: T|
            chain_yields(handlers.drop_last(), msg, mid) && #[trigger] handlers.last().handles(
                mid,
                out,
            )
    }
}

/// Handlers in the order in which they were added; by default, boxed
/// handlers of any kind.
pub struct Streamline<T, H = Box<dyn Handler<T>>> {
    handlers: Vec<H>,
    message: std::marker::PhantomData<T>,
}

impl<T, H: Handler<T>> Streamline<T, H> {
    /// The handlers, in the order in which they run.
    pub closed spec fn chain(&self) -> Seq<H> {
        self.handlers@
    }

    /// Adds a handler at the end of the chain.
    pub fn add_handler(&mut self, handler: H)
        ensures
            final(self).chain() == old(self).chain().push(handler),
    {
        self.handlers.push(handler);
    }

    /// Passes `msg` through every handler, in order: the first handler gets
    /// `msg`, each later one what the one before gave back.
    pub fn process(&self, msg: T) -> (out: T)
        ensures
            chain_yields(self.chain(), msg, out),
    {
        let mut cur = msg;
        let mut i: usize = 0;
        assert(self.handlers@.take(0).len() == 0);
        while i < self.handlers.len()
            invariant
                i <= self.handlers@.len(),
                chain_yields(self.handlers@.take(i as int), msg, cur),
            decreases self.handlers@.len() - i,
        {
            let ghost prev = cur;
            cur = self.handlers[i].handle(cur);
            proof {
                let next = self.handlers@.take(i as int + 1);
                assert(next.drop_last() =~= self.handlers@.take(i as int));
                assert(next.last() == self.handlers@[i as int]);
                assert(chain_yields(next.drop_last(), msg, prev));
                assert(next.last().handles(prev, cur));
                assert(next.len() > 0);
                assert(chain_yields(next, msg, cur));
            }
            i = i + 1;
        }
        assert(self.handlers@.take(i as int) =~= self.handlers@);
        cur
    }
}

impl<T, H: Handler<T>> Default for Streamline<T, H> {
    /// A chain with no handler.
    fn default() -> (s: Self)
        ensures
            s.chain() == Seq::<H>::empty(),
    {
        Streamline { handlers: Vec::new(), message: std::marker::PhantomData }
    }
}

/// A chain with no handler gives every message back unchanged, and nothing else.
pub proof fn lemma_empty_chain_is_identity<T, H: Handler<T>>(msg: T, out: T)
    ensures
        chain_yields(Seq::<H>::empty(), msg, out) <==> out == msg,
{
}

/// A handler added at the end runs last, on what the handlers before it made.
pub proof fn lemma_added_handler_runs_last<T, H: Handler<T>>(
    handlers: Seq<H>,
    handler: H,
    msg: T,
    out: T,
)
    ensures
        chain_yields(handlers.push(handler), msg, out) <==> exists|mid: T|
            chain_yields(handlers, msg, mid) && #[trigger] handler.handles(mid, out),
{
    assert(handlers.push(handler).drop_last() =~= handlers);
    assert(handlers.push(handler).last() == handler);
}

/// Running two chains one after the other is running their concatenation.
pub proof fn lemma_chains_compose<T, H: Handler<T>>(first: Seq<H>, second: Seq<H>, msg: T, out: T)
    ensures
        chain_yields(first + second, msg, out) <==> exists|mid: T|
            #[trigger] chain_yields(first, msg, mid) && chain_yields(second, mid, out),
    decreases second.len(),
{
    if second.len() == 0 {
        assert(first + second =~= first);
        if chain_yields(first, msg, out) {
            assert(chain_yields(first, msg, out) && chain_yields(second, out, out));
        }
    } else {
        let rest = second.drop_last();
        let h = second.last();
        assert((first + second).drop_last() =~= first + rest);
        assert((first + second).last() == h);
        if chain_yields(first + second, msg, out) {
            let m2 = choose|m2: T| chain_yields(first + rest, msg, m2) && h.handles(m2, out);
            lemma_chains_compose(first, rest, msg, m2);
            let mid = choose|mid: T| chain_yields(first, msg, mid) && chain_yields(rest, mid, m2);
            assert(chain_yields(rest, mid, m2) && h.handles(m2, out));
            assert(chain_yields(second, mid, out));
            assert(chain_yields(first, msg, mid) && chain_yields(second, mid, out));
        }
        if exists|mid: T| #[trigger]
            chain_yields(first, msg, mid) && chain_yields(second, mid, out) {
            let mid = choose|mid: T| chain_yields(first, msg, mid) && chain_yields(second, mid, out);
            let m2 = choose|m2: T| chain_yields(rest, mid, m2) && h.handles(m2, out);
            lemma_chains_compose(first, rest, msg, m2);
            assert(chain_yields(first, msg, mid) && chain_yields(rest, mid, m2));
            assert(chain_yields(first + rest, msg, m2) && h.handles(m2, out));
        }
    }
}

} // verus!
