//! Event channel bank: a fixed set of logical channels, each bound to a
//! physical edge-detector line with a chosen polarity, and latched when
//! a matching edge arrives.
//!
//! A latch, once set, stays set until software explicitly acknowledges
//! it — it never auto-clears on read.  Several channels may latch
//! between two dispatches of the handling task; one pass must drain them
//! all.  Two edges on the same channel before an acknowledge coalesce
//! into one latched trigger: at least one is detected, by design.

use vstd::prelude::*;

verus! {

/// Number of logical event channels (fixed by the edge-detector block).
pub const CHANNEL_COUNT: usize = 8;

/// Which transition of the physical line latches the channel.
#[derive(Clone, Copy, PartialEq, Eq, Structural, Debug)]
pub enum Polarity {
    /// Low-to-high transition.
    Rising,
    /// High-to-low transition.
    Falling,
}

/// A channel's binding to a physical line and polarity.
#[derive(Clone, Copy, PartialEq, Eq, Structural, Debug)]
pub struct Binding {
    pub line: u8,
    pub polarity: Polarity,
}

/// One logical event channel.
#[derive(Clone, Copy, PartialEq, Eq, Structural, Debug)]
pub struct Channel {
    /// The edge this channel watches; `None` until configured.
    pub binding: Option<Binding>,
    /// Latched flag: set by a matching edge, held until acknowledged.
    pub triggered: bool,
}

/// Whether an edge on `line` with the given `polarity` is the edge
/// `channel` watches.
pub open spec fn channel_matches(channel: Channel, line: u8, polarity: Polarity) -> bool {
    match channel.binding {
        Some(b) => b.line == line && b.polarity == polarity,
        None => false,
    }
}

/// The bank of all logical event channels.
pub struct ChannelBank {
    channels: [Channel; 8],
}

impl ChannelBank {
    /// The channels, in index order.
    pub closed spec fn channels_spec(self) -> Seq<Channel> {
        self.channels@
    }

    /// One slot per channel, and only a configured channel can be
    /// latched.
    pub open spec fn wf(self) -> bool {
        &&& self.channels_spec().len() == CHANNEL_COUNT
        &&& forall|j: int| 0 <= j < CHANNEL_COUNT ==> ((#[trigger] self.channels_spec()[j]).triggered
            ==> self.channels_spec()[j].binding is Some)
    }

    /// A bank with every channel unconfigured and unlatched.
    pub fn new() -> (r: Self)
        ensures
            r.wf(),
            forall|j: int| 0 <= j < CHANNEL_COUNT ==> (#[trigger] r.channels_spec()[j]).binding
                is None && !r.channels_spec()[j].triggered,
    {
        let empty = Channel { binding: None, triggered: false };
        ChannelBank { channels: [empty; 8] }
    }

    /// Binds channel `index` to the given line and polarity.  Any stale
    /// latch on the channel is dropped: an event can only be latched
    /// after its binding stands.
    pub fn configure(&mut self, index: usize, line: u8, polarity: Polarity)
        requires
            old(self).wf(),
            index < CHANNEL_COUNT,
        ensures
            final(self).wf(),
            final(self).channels_spec() == old(self).channels_spec().update(
                index as int,
                Channel { binding: Some(Binding { line, polarity }), triggered: false },
            ),
    {
        self.channels[index] = Channel {
            binding: Some(Binding { line, polarity }),
            triggered: false,
        };
    }

    /// Latches every configured channel whose binding matches this edge;
    /// all other channels, and every binding, stay as they were.  A
    /// channel already latched stays latched (coalescing).
    pub fn on_edge(&mut self, line: u8, polarity: Polarity)
        requires
            old(self).wf(),
        ensures
            final(self).wf(),
            forall|j: int| 0 <= j < CHANNEL_COUNT ==> (#[trigger] final(self).channels_spec()[j]).binding
                == old(self).channels_spec()[j].binding,
            forall|j: int| 0 <= j < CHANNEL_COUNT ==> ((#[trigger] final(self).channels_spec()[j]).triggered
                <==> (old(self).channels_spec()[j].triggered || channel_matches(
                old(self).channels_spec()[j],
                line,
                polarity,
            ))),
    {
        let mut i: usize = 0;
        while i < CHANNEL_COUNT
            invariant
                i <= CHANNEL_COUNT,
                self.channels_spec().len() == CHANNEL_COUNT,
                forall|j: int| 0 <= j < CHANNEL_COUNT ==> (#[trigger] self.channels_spec()[j]).binding
                    == old(self).channels_spec()[j].binding,
                forall|j: int| i <= j < CHANNEL_COUNT ==> (#[trigger] self.channels_spec()[j]).triggered
                    == old(self).channels_spec()[j].triggered,
                forall|j: int| 0 <= j < i ==> ((#[trigger] self.channels_spec()[j]).triggered
                    <==> (old(self).channels_spec()[j].triggered || channel_matches(
                    old(self).channels_spec()[j],
                    line,
                    polarity,
                ))),
                old(self).wf(),
            decreases CHANNEL_COUNT - i,
        {
            let channel = self.channels[i];
            let hit = match channel.binding {
                Some(b) => b.line == line && b.polarity == polarity,
                None => false,
            };
            if hit {
                self.channels[i] = Channel { binding: channel.binding, triggered: true };
            }
            i = i + 1;
        }
    }

    /// Whether channel `index` is currently latched.
    pub fn is_triggered(&self, index: usize) -> (r: bool)
        requires
            index < CHANNEL_COUNT,
        ensures
            r == self.channels_spec()[index as int].triggered,
    {
        self.channels[index].triggered
    }

    /// The indices of all currently latched channels, in ascending
    /// order.
    pub fn poll(&self) -> (r: Vec<usize>)
        ensures
            forall|k: int| 0 <= k < r@.len() ==> #[trigger] r@[k] < CHANNEL_COUNT
                && self.channels_spec()[r@[k] as int].triggered,
            forall|j: int| 0 <= j < CHANNEL_COUNT && (#[trigger] self.channels_spec()[j]).triggered
                ==> r@.contains(j as usize),
            forall|k1: int, k2: int| 0 <= k1 < k2 < r@.len() ==> #[trigger] r@[k1] < #[trigger] r@[k2],
    {
        let mut out: Vec<usize> = Vec::new();
        let mut i: usize = 0;
        while i < CHANNEL_COUNT
            invariant
                i <= CHANNEL_COUNT,
                self.channels_spec().len() == CHANNEL_COUNT,
                forall|k: int| 0 <= k < out@.len() ==> #[trigger] out@[k] < i
                    && self.channels_spec()[out@[k] as int].triggered,
                forall|j: int| 0 <= j < i && (#[trigger] self.channels_spec()[j]).triggered
                    ==> out@.contains(j as usize),
                forall|k1: int, k2: int| 0 <= k1 < k2 < out@.len() ==> #[trigger] out@[k1]
                    < #[trigger] out@[k2],
            decreases CHANNEL_COUNT - i,
        {
            if self.channels[i].triggered {
                let ghost prev = out@;
                out.push(i);
                proof {
                    assert forall|j: int|
                        0 <= j < i + 1 && (#[trigger] self.channels_spec()[j]).triggered implies out@.contains(
                        j as usize,
                    ) by {
                        if j < i {
                            let k = choose|k: int| 0 <= k < prev.len() && prev[k] == j as usize;
                            assert(out@[k] == j as usize);
                        } else {
                            assert(out@[out@.len() - 1] == i);
                        }
                    }
                }
            }
            i = i + 1;
        }
        out
    }

    /// Clears channel `index`'s latch; its binding and every other
    /// channel stay as they were.  Acknowledging before re-reading the
    /// hardware is what lets a subsequent edge latch afresh.
    pub fn acknowledge(&mut self, index: usize)
        requires
            old(self).wf(),
            index < CHANNEL_COUNT,
        ensures
            final(self).wf(),
            final(self).channels_spec() == old(self).channels_spec().update(
                index as int,
                Channel {
                    binding: old(self).channels_spec()[index as int].binding,
                    triggered: false,
                },
            ),
    {
        let channel = self.channels[index];
        self.channels[index] = Channel { binding: channel.binding, triggered: false };
    }
}

} // verus!
