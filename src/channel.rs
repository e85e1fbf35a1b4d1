//! The bounded FIFO channel between the producer side and the consumer task.

use futures::channel::mpsc;
use vstd::prelude::*;

use crate::items::StreamItem;

verus! {

/// Both halves of a bounded futures channel with a single sender.
///
/// The halves are kept together: what the channel holds is shared between
/// them, so it is a function of the pair and not of either half alone.
#[verifier::external_body]
pub struct ItemChannel {
    tx: mpsc::Sender<StreamItem>,
    rx: mpsc::Receiver<StreamItem>,
}

/// The items queued in the channel, oldest first.
pub uninterp spec fn channel_items(c: ItemChannel) -> Seq<StreamItem>;

/// How many items the channel can hold at once.
pub uninterp spec fn channel_bound(c: ItemChannel) -> nat;

/// Relies on `futures::channel::mpsc::channel`: the new channel is empty; with
/// its single sender it holds `buffer + 1` items; it panics unless `buffer`
/// is below `usize::MAX >> 2`.
#[verifier::external_body]
pub(crate) fn open_channel(buffer: usize) -> (r: ItemChannel)
    requires
        buffer < usize::MAX / 4,
    ensures
        channel_items(r) == Seq::<StreamItem>::empty(),
        channel_bound(r) == buffer + 1,
{
    let (tx, rx) = mpsc::channel(buffer);
    ItemChannel { tx, rx }
}

/// Relies on `futures::channel::mpsc::Sender::try_send`: while the receiver
/// is alive, the one sender is refused only once `buffer + 1` items are
/// queued; an accepted item goes to the back of the queue.
#[verifier::external_body]
pub(crate) fn channel_try_send(c: &mut ItemChannel, item: StreamItem) -> (r: bool)
    ensures
        r == (channel_items(*old(c)).len() < channel_bound(*old(c))),
        r ==> channel_items(*final(c)) == channel_items(*old(c)).push(item),
        !r ==> channel_items(*final(c)) == channel_items(*old(c)),
        channel_bound(*final(c)) == channel_bound(*old(c)),
{
    c.tx.try_send(item).is_ok()
}

/// Relies on `futures::channel::mpsc::Receiver::try_recv`: while the sender is
/// alive, it takes the oldest queued item, or reports an empty channel.
#[verifier::external_body]
pub(crate) fn channel_try_recv(c: &mut ItemChannel) -> (r: Option<StreamItem>)
    ensures
        channel_items(*old(c)).len() == 0 ==> r.is_none() && channel_items(*final(c))
            == channel_items(*old(c)),
        channel_items(*old(c)).len() > 0 ==> r == Some(channel_items(*old(c))[0])
            && channel_items(*final(c)) == channel_items(*old(c)).drop_first(),
        channel_bound(*final(c)) == channel_bound(*old(c)),
{
    c.rx.try_recv().ok()
}

} // verus!
