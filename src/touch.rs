use vstd::prelude::*;

use crate::config::{Config, SCALE};

verus! {

/// One finger's sample in one frame. Position and pressure are in units of
/// [`SCALE`]: a position on the trackpad runs from 0 to `SCALE` on each axis.
#[derive(Debug, Clone, Copy, PartialEq, Eq, Structural)]
pub struct Contact {
    /// Stays the same while a finger keeps touching.
    pub finger_id: i32,
    pub x: i32,
    pub y: i32,
    pub pressure: i32,
}

/// Whether a contact is dropped: it presses too lightly, or, when the margin
/// is positive, it lies within the margin of some edge.
pub open spec fn is_filtered(c: Contact, config: Config) -> bool {
    c.pressure < config.min_pressure || (config.edge_margin > 0 && (c.x < config.edge_margin || c.x
        > SCALE - config.edge_margin || c.y < config.edge_margin || c.y > SCALE
        - config.edge_margin))
}

/// The contacts of a frame that survive the filter, in their order.
pub open spec fn kept_touches(frame: Seq<Contact>, config: Config) -> Seq<Contact> {
    frame.filter(|c: Contact| !is_filtered(c, config))
}

/// Whether a contact is to be ignored by the tracker.
pub fn should_filter_touch(touch: &Contact, config: &Config) -> (r: bool)
    ensures
        r == is_filtered(*touch, *config),
{
    if (touch.pressure as i64) < config.min_pressure {
        return true;
    }
    let margin = config.edge_margin;
    if margin > 0 {
        let x = touch.x as i64;
        let y = touch.y as i64;
        if x < margin || x > SCALE - margin || y < margin || y > SCALE - margin {
            return true;
        }
    }
    false
}

/// The contacts of a frame that the tracker is to see.
pub fn filter_touches(frame: &Vec<Contact>, config: &Config) -> (r: Vec<Contact>)
    ensures
        r@ == kept_touches(frame@, *config),
{
    let mut kept: Vec<Contact> = Vec::new();
    let mut i: usize = 0;
    while i < frame.len()
        invariant
            i <= frame.len(),
            kept@ == kept_touches(frame@.subrange(0, i as int), *config),
        decreases frame.len() - i,
    {
        let touch = frame[i];
        proof {
            let pre = frame@.subrange(0, i as int);
            let next = frame@.subrange(0, i + 1);
            assert(next.drop_last() =~= pre);
            reveal(Seq::filter);
        }
        if !should_filter_touch(&touch, config) {
            kept.push(touch);
        }
        i = i + 1;
    }
    assert(frame@.subrange(0, frame.len() as int) =~= frame@);
    kept
}

} // verus!
