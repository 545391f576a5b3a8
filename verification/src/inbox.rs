//! The receiving end of a channel, together with the answers that it has given.

use crossbeam_channel::Receiver;
use vstd::prelude::*;

verus! {

/// The receiving side of a channel of `crossbeam_channel`. What is in the
/// channel is out of sight here: another thread fills it.
#[verifier::external_type_specification]
#[verifier::external_body]
#[verifier::reject_recursive_types(T)]
pub struct ExReceiver<T>(crossbeam_channel::Receiver<T>);

/// The receiving end of a channel. It can be asked only through `try_recv`, and
/// every answer is on record.
#[verifier::reject_recursive_types(T)]
pub struct Inbox<T> {
    rx: Receiver<T>,
    given: Ghost<Seq<Option<T>>>,
}

impl<T> Inbox<T> {
    /// All answers so far, in order: a message, or nothing where none was there.
    pub closed spec fn given(&self) -> Seq<Option<T>> {
        self.given@
    }

    /// An end that has not been asked yet.
    pub fn new(rx: Receiver<T>) -> (r: Inbox<T>)
        ensures
            r.given() == Seq::<Option<T>>::empty(),
    {
        Inbox { rx, given: Ghost(Seq::empty()) }
    }

    /// `crossbeam_channel::Receiver::try_recv`: takes the next message out of
    /// the channel, where one is there. The answer goes on record. Which message
    /// it is, and whether there is one, is up to the sending thread; nothing is
    /// claimed of it.
    #[verifier::external_body]
    pub(crate) fn try_recv(&mut self) -> (r: Option<T>)
        ensures
            final(self).given() == old(self).given().push(r),
    {
        self.rx.try_recv().ok()
    }
}

} // verus!
