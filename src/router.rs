//! The decisions of a router that hands each received frame to the
//! subscriptions whose filters accept it.

use vstd::prelude::*;
use crate::filter::CanFilter;
use crate::frame::CanFrame;

verus! {

/// What the router knows of a subscription when a frame comes in.
#[derive(Debug, Clone, Copy)]
pub struct RouteEntry {
    /// Which frames the subscription wants.
    pub filter: CanFilter,
    /// Whether its consumer has gone (dropped or cancelled).
    pub closed: bool,
}

/// What happens to a subscription for one received frame.
#[derive(Debug, Clone, Copy, PartialEq, Eq, Structural)]
pub enum Route {
    /// Remove the subscription: its consumer has gone.
    Remove,
    /// Keep the subscription; the frame is not for it.
    Skip,
    /// Hand the frame to the subscription; remove it where that fails.
    Deliver,
}

/// The route of one subscription for a received frame, or for a receive
/// error (`word` is `None`), which every open subscription gets.
pub open spec fn spec_route(entry: RouteEntry, word: Option<u32>) -> Route {
    if entry.closed {
        Route::Remove
    } else {
        match word {
            None => Route::Deliver,
            Some(w) => if entry.filter@.accepts(w) {
                Route::Deliver
            } else {
                Route::Skip
            },
        }
    }
}

/// The route of each subscription, in order, for a received frame or for a
/// receive error (`frame` is `None`).
pub fn route_frame(entries: &Vec<RouteEntry>, frame: Option<&CanFrame>) -> (r: Vec<Route>)
    ensures
        r@.len() == entries@.len(),
        forall|i: int| 0 <= i < entries@.len() ==> #[trigger] r@[i] == spec_route(
            entries@[i],
            match frame {
                Some(f) => Some(f@.can_id_word()),
                None => None,
            },
        ),
{
    let ghost word = match frame {
        Some(f) => Some(f@.can_id_word()),
        None => None,
    };
    let mut r: Vec<Route> = Vec::new();
    let mut i: usize = 0;
    while i < entries.len()
        invariant
            i <= entries@.len(),
            r@.len() == i,
            word == match frame {
                Some(f) => Some(f@.can_id_word()),
                None => None,
            },
            forall|j: int| 0 <= j < i ==> #[trigger] r@[j] == spec_route(entries@[j], word),
        decreases entries@.len() - i,
    {
        let entry = entries[i];
        let route = if entry.closed {
            Route::Remove
        } else {
            match frame {
                None => Route::Deliver,
                Some(f) => if entry.filter.test(f) {
                    Route::Deliver
                } else {
                    Route::Skip
                },
            }
        };
        r.push(route);
        i = i + 1;
    }
    r
}

/// Whether a subscription stays after a route: a skipped one stays, a
/// delivered one stays where the delivery succeeded and it takes more
/// frames (a one-shot subscription is done after one).
pub fn keeps_subscription(route: Route, delivered: bool, one_shot: bool) -> (r: bool)
    ensures
        r == match route {
            Route::Remove => false,
            Route::Skip => true,
            Route::Deliver => delivered && !one_shot,
        },
{
    match route {
        Route::Remove => false,
        Route::Skip => true,
        Route::Deliver => delivered && !one_shot,
    }
}

} // verus!
