//! The queue of received packets, on an Embassy channel.

use embassy_sync::blocking_mutex::raw::CriticalSectionRawMutex;
use embassy_sync::channel::Channel;
use vstd::prelude::*;

verus! {

/// An `embassy_sync::channel::Channel` of `N` indices.
#[verifier::external_body]
struct IndexChannel<const N: usize> {
    channel: Channel<CriticalSectionRawMutex, usize, N>,
}

/// A first-in, first-out queue of at most `N` pool indices.
///
/// The channel is reached through the methods of this type alone; `contents`
/// says what it holds, oldest first.
pub struct RxQueue<const N: usize> {
    inner: IndexChannel<N>,
    contents: Ghost<Seq<usize>>,
}

impl<const N: usize> View for RxQueue<N> {
    type V = Seq<usize>;

    closed spec fn view(&self) -> Seq<usize> {
        self.contents@
    }
}

impl<const N: usize> RxQueue<N> {
    /// `Channel::new`: the channel starts out empty. A channel without room does not
    /// compile, so `N` is positive.
    #[verifier::external_body]
    pub(crate) fn new() -> (q: Self)
        ensures
            q@ == Seq::<usize>::empty(),
    {
        RxQueue { inner: IndexChannel { channel: Channel::new() }, contents: Ghost(Seq::empty()) }
    }

    /// `Channel::try_send`: an index is appended, and accepted, exactly when
    /// fewer than `N` are waiting.
    #[verifier::external_body]
    pub(crate) fn try_send(&mut self, index: usize) -> (accepted: bool)
        ensures
            accepted == (old(self)@.len() < N),
            final(self)@ == (if accepted {
                old(self)@.push(index)
            } else {
                old(self)@
            }),
    {
        self.inner.channel.try_send(index).is_ok()
    }

    /// `Channel::try_receive`: the index that has waited longest is taken out,
    /// if any is waiting.
    #[verifier::external_body]
    pub(crate) fn try_receive(&mut self) -> (index: Option<usize>)
        ensures
            index == (if old(self)@.len() > 0 {
                Some(old(self)@[0])
            } else {
                None
            }),
            final(self)@ == (if old(self)@.len() > 0 {
                old(self)@.skip(1)
            } else {
                old(self)@
            }),
    {
        self.inner.channel.try_receive().ok()
    }
}

} // verus!
