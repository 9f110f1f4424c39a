//! The channels that carry pane output from the server's store to the
//! clients: tokio's unbounded channels, each end labelled with the name of
//! its channel. Only this module makes the ends or sends on them: both
//! ends of a channel carry the label it was opened with, and a caller
//! that moves on to a new label before each opening gives no two channels
//! the same one.

use vstd::prelude::*;

use crate::ipc::PaneId;

verus! {

/// A piece of pane output: the pane and the bytes it wrote.
pub type OutputItem = (PaneId, Vec<u8>);

/// The sending end of tokio's unbounded channel.
#[verifier::external_type_specification]
#[verifier::external_body]
#[verifier::reject_recursive_types(T)]
pub struct ExUnboundedSender<T>(tokio::sync::mpsc::UnboundedSender<T>);

/// The receiving end of tokio's unbounded channel.
#[verifier::external_type_specification]
#[verifier::external_body]
#[verifier::reject_recursive_types(T)]
pub struct ExUnboundedReceiver<T>(tokio::sync::mpsc::UnboundedReceiver<T>);

/// The labels given to channels: the next one to give out.
pub struct ChannelLabels {
    next: Ghost<nat>,
}

impl ChannelLabels {
    /// The label the next channel gets.
    pub closed spec fn next(&self) -> nat {
        self.next@
    }

    /// Labels that start from 0.
    pub fn new() -> (l: Self)
        ensures
            l.next() == 0,
    {
        ChannelLabels { next: Ghost(0) }
    }

    /// Moves on to the next label.
    pub fn advance(&mut self)
        ensures
            final(self).next() == old(self).next() + 1,
    {
        self.next = Ghost(self.next@ + 1);
    }
}

/// The sending end of an output channel.
pub struct OutputSender {
    tx: tokio::sync::mpsc::UnboundedSender<OutputItem>,
    label: Ghost<nat>,
}

impl OutputSender {
    /// The label of this end's channel.
    pub closed spec fn channel(&self) -> nat {
        self.label@
    }
}

/// The receiving end of an output channel, for the caller to read from.
pub struct OutputReceiver {
    pub rx: tokio::sync::mpsc::UnboundedReceiver<OutputItem>,
    label: Ghost<nat>,
}

impl OutputReceiver {
    /// The label of this end's channel.
    pub closed spec fn channel(&self) -> nat {
        self.label@
    }
}

/// Calls `tokio::sync::mpsc::unbounded_channel`, which makes one new
/// channel and hands back its two ends, and labels both ends with the next
/// label. That the two ends belong to one channel is what tokio's
/// documentation says of the call; nothing else is claimed of them.
#[verifier::external_body]
pub fn open_channel(labels: &ChannelLabels) -> (pair: (OutputSender, OutputReceiver))
    ensures
        pair.0.channel() == labels.next(),
        pair.1.channel() == labels.next(),
{
    let (tx, rx) = tokio::sync::mpsc::unbounded_channel();
    (OutputSender { tx: tx, label: labels.next }, OutputReceiver { rx: rx, label: labels.next })
}

/// Calls `UnboundedSender::send` with `item` and reports whether it
/// succeeded, which depends on whether the receiving end still exists;
/// nothing is claimed of the outcome. Beside it comes back a record of
/// the item handed to the call: its pane and bytes.
#[verifier::external_body]
pub fn send_output(sender: &OutputSender, item: OutputItem) -> (r: (bool, Ghost<(PaneId, Seq<u8>)>))
    ensures
        r.1@ == (item.0, item.1@),
{
    let handed = Ghost((item.0, item.1@));
    (sender.tx.send(item).is_ok(), handed)
}

} // verus!
