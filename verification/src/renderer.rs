//! The render loop on a channel of captured textures: which texture is drawn,
//! and when a view on it has to be made.

use vstd::prelude::*;

use crate::capture::{recovery, Recovery, DXGI_ERROR_DEVICE_REMOVED};
use crate::inbox::Inbox;

verus! {

/// What one round of the render loop draws.
#[derive(Debug, Clone, Copy, PartialEq, Eq, Structural)]
pub enum Round {
    /// The magnifier is off: an empty picture.
    Clear,
    /// The latest texture, where there is one. `make_view` says that a view on
    /// it has to be made first.
    Draw { make_view: bool },
}

/// The answers that the channel has given between two moments.
pub open spec fn since<T>(before: Inbox<T>, after: Inbox<T>) -> Seq<Option<T>> {
    after.given().skip(before.given().len() as int)
}

/// The textures among the answers, in order.
pub open spec fn textures<T>(replies: Seq<Option<T>>) -> Seq<T>
    decreases replies.len(),
{
    if replies.len() == 0 {
        seq![]
    } else {
        match replies.last() {
            Some(texture) => textures(replies.drop_last()).push(texture),
            None => textures(replies.drop_last()),
        }
    }
}

/// Every answer is a texture.
pub open spec fn all_given<T>(replies: Seq<Option<T>>) -> bool {
    forall|i: int| 0 <= i < replies.len() ==> (#[trigger] replies[i]) is Some
}

/// The channel was asked until it had nothing more, and no longer.
pub open spec fn emptied<T>(replies: Seq<Option<T>>) -> bool {
    &&& replies.len() > 0
    &&& replies.last() is None
    &&& all_given(replies.drop_last())
}

/// The freshest texture, and whether there is a view on it.
pub struct LatestFrame<T> {
    pub texture: Option<T>,
    pub view_ready: bool,
}

impl<T> LatestFrame<T> {
    /// The state after textures have arrived: the last one counts, and a view
    /// on an earlier one is of no use.
    pub open spec fn after(self, arrived: Seq<T>) -> LatestFrame<T> {
        if arrived.len() == 0 {
            self
        } else {
            LatestFrame { texture: Some(arrived.last()), view_ready: false }
        }
    }

    /// What a round draws.
    pub open spec fn round_of(self, enabled: bool) -> Round {
        if enabled {
            Round::Draw { make_view: self.texture is Some && !self.view_ready }
        } else {
            Round::Clear
        }
    }

    /// There is a view only on a texture.
    pub open spec fn wf(self) -> bool {
        self.view_ready ==> self.texture is Some
    }

    /// Starts without a texture.
    pub fn new() -> (r: LatestFrame<T>)
        ensures
            r.texture is None,
            !r.view_ready,
            r.wf(),
    {
        LatestFrame { texture: None, view_ready: false }
    }

    /// Takes a texture.
    pub fn receive(&mut self, texture: T)
        ensures
            *final(self) == old(self).after(seq![texture]),
            final(self).texture == Some(texture),
            !final(self).view_ready,
    {
        self.texture = Some(texture);
        self.view_ready = false;
    }

    /// Drains the channel and keeps only the freshest texture: asks until there
    /// is nothing more. Returns how many have arrived; at most `u64::MAX` are
    /// taken at a time.
    pub fn drain(&mut self, rx: &mut Inbox<T>) -> (count: u64)
        ensures
            old(rx).given().is_prefix_of(final(rx).given()),
            ({
                let replies = since(*old(rx), *final(rx));
                &&& *final(self) == old(self).after(textures(replies))
                &&& count == textures(replies).len()
                &&& count < u64::MAX ==> emptied(replies)
                &&& count == u64::MAX ==> replies.len() == count
            }),
            old(self).wf() ==> final(self).wf(),
    {
        let mut count: u64 = 0;
        proof {
            assert(since(*old(rx), *rx) =~= Seq::<Option<T>>::empty());
        }
        while count < u64::MAX
            invariant
                old(rx).given().is_prefix_of(rx.given()),
                since(*old(rx), *rx).len() == count,
                all_given(since(*old(rx), *rx)),
                textures(since(*old(rx), *rx)).len() == count,
                *self == old(self).after(textures(since(*old(rx), *rx))),
            decreases u64::MAX - count,
        {
            let ghost before = since(*old(rx), *rx);
            let reply = rx.try_recv();
            proof {
                assert(since(*old(rx), *rx) =~= before.push(reply));
                assert(before.push(reply).drop_last() =~= before);
            }
            match reply {
                Some(texture) => {
                    self.receive(texture);
                    count = count + 1;
                },
                None => {
                    return count;
                },
            }
        }
        count
    }

    /// What this round draws.
    pub fn begin_round(&self, enabled: bool) -> (r: Round)
        ensures
            r == self.round_of(enabled),
    {
        if enabled {
            Round::Draw { make_view: self.texture.is_some() && !self.view_ready }
        } else {
            Round::Clear
        }
    }

    /// Notes that a view on the texture has been made.
    pub fn view_made(&mut self)
        requires
            old(self).texture is Some,
        ensures
            *final(self) == (LatestFrame { view_ready: true, ..*old(self) }),
            final(self).wf(),
    {
        self.view_ready = true;
    }
}

/// Only the freshest texture counts: textures that arrive in two batches leave
/// the same as if they had arrived in one.
pub proof fn law_freshest_wins<T>(latest: LatestFrame<T>, first: Seq<T>, second: Seq<T>)
    ensures
        latest.after(first).after(second) == latest.after(first + second),
{
    if second.len() > 0 {
        assert((first + second).last() == second.last());
    } else {
        assert(first + second =~= first);
    }
}

/// The answers of a channel in which `waiting` textures wait and none arrives
/// meanwhile.
pub open spec fn replies_of<T>(waiting: Seq<T>) -> Seq<Option<T>> {
    Seq::new(waiting.len() + 1, |i: int| if i < waiting.len() { Some(waiting[i]) } else { None })
}

/// Draining takes every texture that waits. The last one is drawn, with a view
/// of its own, and none of the earlier ones; where none waits, the texture of
/// the round before is drawn again, with the view that it has.
pub proof fn law_last_waiting_is_drawn<T>(latest: LatestFrame<T>, waiting: Seq<T>)
    ensures
        emptied(replies_of(waiting)),
        textures(replies_of(waiting)) == waiting,
        ({
            let drained = latest.after(textures(replies_of(waiting)));
            if waiting.len() > 0 {
                &&& drained.texture == Some(waiting.last())
                &&& drained.round_of(true) == Round::Draw { make_view: true }
            } else {
                drained == latest
            }
        }),
{
    let replies = replies_of(waiting);
    assert(replies.drop_last() =~= waiting.map_values(|t: T| Some(t)));
    lemma_textures_of_given(waiting);
}

proof fn lemma_textures_of_given<T>(waiting: Seq<T>)
    ensures
        textures(waiting.map_values(|t: T| Some(t))) == waiting,
    decreases waiting.len(),
{
    let given = waiting.map_values(|t: T| Some(t));
    if waiting.len() > 0 {
        lemma_textures_of_given(waiting.drop_last());
        assert(given.drop_last() =~= waiting.drop_last().map_values(|t: T| Some(t)));
        assert(waiting.drop_last().push(waiting.last()) =~= waiting);
    } else {
        assert(textures(given) =~= waiting);
    }
}

/// What is done after a picture could not be presented.
#[derive(Debug, Clone, Copy, PartialEq, Eq, Structural)]
pub enum PresentRecovery {
    /// Make the buffers of the window anew: the resolution may have changed.
    RecreateSwapChain,
    /// Wait for a new device.
    AwaitDevice,
}

/// What is done after presenting a picture failed with the error `code`.
pub fn present_recovery(code: i32) -> (r: PresentRecovery)
    ensures
        r == if code == DXGI_ERROR_DEVICE_REMOVED {
            PresentRecovery::AwaitDevice
        } else {
            PresentRecovery::RecreateSwapChain
        },
{
    match recovery(code) {
        Recovery::RecreateDevice => PresentRecovery::AwaitDevice,
        _ => PresentRecovery::RecreateSwapChain,
    }
}

/// A view is made once per texture: after it was made, rounds make none until
/// another texture arrives.
pub proof fn law_view_made_once<T>(latest: LatestFrame<T>, arrived: Seq<T>)
    requires
        latest.texture is Some,
    ensures
        ({
            let ready = LatestFrame { view_ready: true, ..latest };
            ready.after(arrived).round_of(true) == Round::Draw { make_view: arrived.len() > 0 }
        }),
{
}

/// A texture that arrives is the one that is kept, without a view; where none
/// arrives everything stays. A round draws exactly while the magnifier is on,
/// and makes a view first exactly where there is a texture without one.
pub proof fn law_arrivals_and_rounds<T>(latest: LatestFrame<T>, arrived: Seq<T>, texture: T)
    ensures
        ({
            let after = latest.after(arrived.push(texture));
            &&& after.texture == Some(texture)
            &&& !after.view_ready
        }),
        latest.after(Seq::empty()) == latest,
        latest.round_of(false) == Round::Clear,
        latest.round_of(true) matches Round::Draw { make_view } && (make_view
            <==> latest.texture is Some && !latest.view_ready),
        latest.wf() <==> latest.texture is Some || !latest.view_ready,
{
}

/// A channel was emptied exactly where it gave textures and then, once, nothing;
/// the textures are those that it gave, in that order.
pub proof fn law_emptied_channel<T>(replies: Seq<Option<T>>, i: int)
    requires
        emptied(replies),
    ensures
        replies == replies_of(textures(replies)),
        textures(replies).len() == replies.len() - 1,
        0 <= i < replies.len() - 1 ==> replies[i] == Some(textures(replies)[i]),
        replies.last() is None,
{
    let given = replies.drop_last();
    let waiting = Seq::new(given.len(), |j: int| given[j]->0);
    assert forall|j: int| 0 <= j < given.len() implies #[trigger] given[j] == Some(waiting[j]) by {
        assert(given[j] is Some);
    }
    assert(given =~= waiting.map_values(|t: T| Some(t)));
    lemma_textures_of_given(waiting);
    assert(replies =~= replies_of(waiting));
}

/// What was given before, followed by what was given since, is all that was
/// given.
pub proof fn law_since<T>(before: Inbox<T>, after: Inbox<T>)
    requires
        before.given().is_prefix_of(after.given()),
    ensures
        before.given() + since(before, after) == after.given(),
{
    assert(before.given() + since(before, after) =~= after.given());
}

} // verus!
