//! Race of three futures: resolves with whichever is ready first, in the
//! fixed order A, then B, then C, and hands the other two back unresolved.

use vstd::prelude::*;
use crate::fib::{Poll, Pollable};

verus! {

/// Result of a three-way race: the value of the winner and the two other
/// futures, as they stood when the race resolved.
pub enum Output3<A: Pollable<E>, B: Pollable<E>, C: Pollable<E>, E> {
    A(A::Output, B, C),
    B(A, B::Output, C),
    C(A, B, C::Output),
}

/// Future for the first of three futures to resolve. It holds the three
/// until it resolves, and nothing after.
#[derive(Debug)]
pub struct Select3<A, B, C>(pub Option<(A, B, C)>);

impl<A, B, C> Select3<A, B, C> {
    /// The race still holds its futures.
    pub open spec fn armed(&self) -> bool {
        self.0 is Some
    }

    /// Creates a race of three futures. It is live when all three are.
    pub fn new(a: A, b: B, c: C) -> (r: Self)
        ensures
            r.0 == Some((a, b, c)),
    {
        Select3(Some((a, b, c)))
    }

    /// The race still holds its futures.
    pub fn is_armed(&self) -> (r: bool)
        ensures
            r == self.armed(),
    {
        self.0.is_some()
    }
}

impl<E, A: Pollable<E>, B: Pollable<E>, C: Pollable<E>> Pollable<E> for Select3<A, B, C> {
    type Output = Output3<A, B, C, E>;

    open spec fn live(&self) -> bool {
        match self.0 {
            Some((a, b, c)) => a.live() && b.live() && c.live(),
            None => false,
        }
    }

    /// Polls A; if it is ready the race resolves with A's value and B and C
    /// untouched. Else polls B, then C, in the same way. If none is ready the
    /// race keeps the three futures as their polls left them.
    open spec fn poll_spec(self, env: E) -> (Self, E, Poll<Self::Output>) {
        match self.0 {
            Some((a, b, c)) => {
                let (a1, e1, ra) = a.poll_spec(env);
                match ra {
                    Poll::Ready(va) => (Select3(None), e1, Poll::Ready(Output3::A(va, b, c))),
                    Poll::Pending => {
                        let (b1, e2, rb) = b.poll_spec(e1);
                        match rb {
                            Poll::Ready(vb) => (
                                Select3(None),
                                e2,
                                Poll::Ready(Output3::B(a1, vb, c)),
                            ),
                            Poll::Pending => {
                                let (c1, e3, rc) = c.poll_spec(e2);
                                match rc {
                                    Poll::Ready(vc) => (
                                        Select3(None),
                                        e3,
                                        Poll::Ready(Output3::C(a1, b1, vc)),
                                    ),
                                    Poll::Pending => (
                                        Select3(Some((a1, b1, c1))),
                                        e3,
                                        Poll::Pending,
                                    ),
                                }
                            },
                        }
                    },
                }
            },
            None => (self, env, Poll::Pending),
        }
    }

    proof fn lemma_resolves_once(self, env: E) {
        let (a, b, c) = self.0.unwrap();
        a.lemma_resolves_once(env);
        let (a1, e1, ra) = a.poll_spec(env);
        if ra is Pending {
            b.lemma_resolves_once(e1);
            let (b1, e2, rb) = b.poll_spec(e1);
            if rb is Pending {
                c.lemma_resolves_once(e2);
            }
        }
    }

    fn poll(&mut self, env: &mut E) -> (r: Poll<Output3<A, B, C, E>>) {
        let taken = self.0.take();
        match taken {
            Some((mut a, mut b, mut c)) => {
                match a.poll(env) {
                    Poll::Ready(va) => Poll::Ready(Output3::A(va, b, c)),
                    Poll::Pending => {
                        proof {
                            old(self).0.unwrap().0.lemma_resolves_once(*old(env));
                        }
                        match b.poll(env) {
                            Poll::Ready(vb) => Poll::Ready(Output3::B(a, vb, c)),
                            Poll::Pending => {
                                match c.poll(env) {
                                    Poll::Ready(vc) => Poll::Ready(Output3::C(a, b, vc)),
                                    Poll::Pending => {
                                        self.0 = Some((a, b, c));
                                        Poll::Pending
                                    },
                                }
                            },
                        }
                    },
                }
            },
            None => Poll::Pending,
        }
    }
}

} // verus!

verus! {

/// A resolved race reports exactly one winner and hands the two other
/// futures back live: those after the winner in the order A, B, C exactly as
/// they were, those before it as their pending poll left them. An unresolved
/// race stays live.
pub proof fn lemma_race_hands_back<E, A: Pollable<E>, B: Pollable<E>, C: Pollable<E>>(
    s: Select3<A, B, C>,
    env: E,
)
    requires
        s.live(),
    ensures
        match s.poll_spec(env).2 {
            Poll::Ready(Output3::A(_, b, c)) => {
                &&& b == s.0.unwrap().1 && b.live()
                &&& c == s.0.unwrap().2 && c.live()
            },
            Poll::Ready(Output3::B(a, _, c)) => {
                &&& s.0.unwrap().0.poll_spec(env).2 is Pending
                &&& a == s.0.unwrap().0.poll_spec(env).0 && a.live()
                &&& c == s.0.unwrap().2 && c.live()
            },
            Poll::Ready(Output3::C(a, b, _)) => {
                &&& s.0.unwrap().0.poll_spec(env).2 is Pending
                &&& s.0.unwrap().1.poll_spec(s.0.unwrap().0.poll_spec(env).1).2 is Pending
                &&& a == s.0.unwrap().0.poll_spec(env).0 && a.live()
                &&& b == s.0.unwrap().1.poll_spec(s.0.unwrap().0.poll_spec(env).1).0 && b.live()
            },
            Poll::Pending => s.poll_spec(env).0.live(),
        },
{
    s.lemma_resolves_once(env);
    let (a, b, c) = s.0.unwrap();
    a.lemma_resolves_once(env);
    let (a1, e1, ra) = a.poll_spec(env);
    if ra is Pending {
        b.lemma_resolves_once(e1);
    }
}

} // verus!
