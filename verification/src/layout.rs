//! The fixed mapping from a channel count to an ordered sequence of speaker
//! positions, as the FLAC channel assignment rules lay the channels out.

use vstd::prelude::*;

verus! {

/// A standard speaker position label.
#[derive(Debug, Clone, Copy, PartialEq, Eq, Structural)]
pub enum ChannelPosition {
    Mono,
    FrontLeft,
    FrontCenter,
    FrontRight,
    RearLeft,
    RearRight,
    SideLeft,
    SideRight,
    RearCenter,
    LowFrequencyEffects,
    Invalid,
}

/// The layout row for a channel count between 1 and 8: exactly
/// `channel_count` positions, in the order the interleaved output carries
/// them. The 7- and 8-channel rows carry a de-facto assignment, kept for
/// compatibility, that the FLAC specification leaves undefined. Any other count gives
/// the empty sequence.
pub open spec fn spec_channel_layout(channel_count: int) -> Seq<ChannelPosition> {
    if channel_count == 1 {
        seq![ChannelPosition::Mono]
    } else if channel_count == 2 {
        seq![ChannelPosition::FrontLeft, ChannelPosition::FrontRight]
    } else if channel_count == 3 {
        seq![
            ChannelPosition::FrontLeft,
            ChannelPosition::FrontCenter,
            ChannelPosition::FrontRight,
        ]
    } else if channel_count == 4 {
        seq![
            ChannelPosition::FrontLeft,
            ChannelPosition::FrontRight,
            ChannelPosition::RearLeft,
            ChannelPosition::RearRight,
        ]
    } else if channel_count == 5 {
        seq![
            ChannelPosition::FrontLeft,
            ChannelPosition::FrontCenter,
            ChannelPosition::FrontRight,
            ChannelPosition::RearLeft,
            ChannelPosition::RearRight,
        ]
    } else if channel_count == 6 {
        seq![
            ChannelPosition::FrontLeft,
            ChannelPosition::FrontCenter,
            ChannelPosition::FrontRight,
            ChannelPosition::RearLeft,
            ChannelPosition::RearRight,
            ChannelPosition::LowFrequencyEffects,
        ]
    } else if channel_count == 7 {
        seq![
            ChannelPosition::FrontLeft,
            ChannelPosition::FrontCenter,
            ChannelPosition::FrontRight,
            ChannelPosition::SideLeft,
            ChannelPosition::SideRight,
            ChannelPosition::RearCenter,
            ChannelPosition::LowFrequencyEffects,
        ]
    } else if channel_count == 8 {
        seq![
            ChannelPosition::FrontLeft,
            ChannelPosition::FrontCenter,
            ChannelPosition::FrontRight,
            ChannelPosition::SideLeft,
            ChannelPosition::SideRight,
            ChannelPosition::RearLeft,
            ChannelPosition::RearRight,
            ChannelPosition::LowFrequencyEffects,
        ]
    } else {
        Seq::empty()
    }
}

/// Looks the layout row up for a channel count between 1 and 8.
pub fn channel_layout(channel_count: u32) -> (r: Vec<ChannelPosition>)
    requires
        1 <= channel_count <= 8,
    ensures
        r@ == spec_channel_layout(channel_count as int),
{
    let mut v: Vec<ChannelPosition> = Vec::new();
    if channel_count == 1 {
        v.push(ChannelPosition::Mono);
    } else if channel_count == 2 {
        v.push(ChannelPosition::FrontLeft);
        v.push(ChannelPosition::FrontRight);
    } else if channel_count == 3 {
        v.push(ChannelPosition::FrontLeft);
        v.push(ChannelPosition::FrontCenter);
        v.push(ChannelPosition::FrontRight);
    } else if channel_count == 4 {
        v.push(ChannelPosition::FrontLeft);
        v.push(ChannelPosition::FrontRight);
        v.push(ChannelPosition::RearLeft);
        v.push(ChannelPosition::RearRight);
    } else if channel_count == 5 {
        v.push(ChannelPosition::FrontLeft);
        v.push(ChannelPosition::FrontCenter);
        v.push(ChannelPosition::FrontRight);
        v.push(ChannelPosition::RearLeft);
        v.push(ChannelPosition::RearRight);
    } else if channel_count == 6 {
        v.push(ChannelPosition::FrontLeft);
        v.push(ChannelPosition::FrontCenter);
        v.push(ChannelPosition::FrontRight);
        v.push(ChannelPosition::RearLeft);
        v.push(ChannelPosition::RearRight);
        v.push(ChannelPosition::LowFrequencyEffects);
    } else if channel_count == 7 {
        v.push(ChannelPosition::FrontLeft);
        v.push(ChannelPosition::FrontCenter);
        v.push(ChannelPosition::FrontRight);
        v.push(ChannelPosition::SideLeft);
        v.push(ChannelPosition::SideRight);
        v.push(ChannelPosition::RearCenter);
        v.push(ChannelPosition::LowFrequencyEffects);
    } else {
        v.push(ChannelPosition::FrontLeft);
        v.push(ChannelPosition::FrontCenter);
        v.push(ChannelPosition::FrontRight);
        v.push(ChannelPosition::SideLeft);
        v.push(ChannelPosition::SideRight);
        v.push(ChannelPosition::RearLeft);
        v.push(ChannelPosition::RearRight);
        v.push(ChannelPosition::LowFrequencyEffects);
    }
    proof {
        assert(v@ =~= spec_channel_layout(channel_count as int));
    }
    v
}

/// Every layout row for a channel count between 1 and 8 holds exactly
/// `channel_count` positions, and none of them is `Invalid`.
pub proof fn lemma_layout_complete(channel_count: int)
    requires
        1 <= channel_count <= 8,
    ensures
        spec_channel_layout(channel_count).len() == channel_count,
        forall|i: int|
            0 <= i < channel_count ==> spec_channel_layout(channel_count)[i]
                != ChannelPosition::Invalid,
{
    let row = spec_channel_layout(channel_count);
    assert forall|i: int| 0 <= i < channel_count implies row[i] != ChannelPosition::Invalid by {
        if channel_count == 1 {
            assert(row[i] != ChannelPosition::Invalid);
        } else if channel_count == 2 {
            assert(row[i] != ChannelPosition::Invalid);
        } else if channel_count == 3 {
            assert(row[i] != ChannelPosition::Invalid);
        } else if channel_count == 4 {
            assert(row[i] != ChannelPosition::Invalid);
        } else if channel_count == 5 {
            assert(row[i] != ChannelPosition::Invalid);
        } else if channel_count == 6 {
            assert(row[i] != ChannelPosition::Invalid);
        } else if channel_count == 7 {
            assert(row[i] != ChannelPosition::Invalid);
        } else {
            assert(row[i] != ChannelPosition::Invalid);
        }
    }
}

} // verus!
