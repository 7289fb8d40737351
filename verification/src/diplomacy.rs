//! Trade ties between nations, as diplomacy counts them.
use vstd::prelude::*;

verus! {

/// A trade route joins the two nations: its ends belong to them, one to each
/// (in either direction).
pub open spec fn links(route: (u64, u64), a: u64, b: u64) -> bool {
    a != b && ((route.0 == a && route.1 == b) || (route.0 == b && route.1 == a))
}

/// Number of the first `n` routes that join nations `a` and `b`.
pub open spec fn link_count(routes: Seq<(u64, u64)>, n: int, a: u64, b: u64) -> nat
    decreases n,
{
    if n <= 0 {
        0
    } else {
        link_count(routes, n - 1, a, b) + if links(routes[n - 1], a, b) { 1nat } else { 0nat }
    }
}

proof fn lemma_link_count_bound(routes: Seq<(u64, u64)>, n: int, a: u64, b: u64)
    requires
        0 <= n,
    ensures
        link_count(routes, n, a, b) <= n,
    decreases n,
{
    if n > 0 {
        lemma_link_count_bound(routes, n - 1, a, b);
    }
}

/// How many trade routes join nations `a` and `b`, given for each route the
/// nations that its origin and destination planets belong to. Routes within
/// one nation do not count.
pub fn trade_links(route_nations: &Vec<(u64, u64)>, a: u64, b: u64) -> (count: usize)
    ensures
        count == link_count(route_nations@, route_nations@.len() as int, a, b),
{
    let mut count: usize = 0;
    let mut i: usize = 0;
    while i < route_nations.len()
        invariant
            0 <= i <= route_nations@.len(),
            count == link_count(route_nations@, i as int, a, b),
        decreases route_nations@.len() - i,
    {
        proof {
            lemma_link_count_bound(route_nations@, i as int, a, b);
        }
        let (x, y) = route_nations[i];
        if a != b && ((x == a && y == b) || (x == b && y == a)) {
            count = count + 1;
        }
        i = i + 1;
    }
    count
}

/// Trade ties are mutual: the routes joining `a` to `b` are those joining `b` to `a`.
pub proof fn lemma_trade_links_symmetric(routes: Seq<(u64, u64)>, n: int, a: u64, b: u64)
    ensures
        link_count(routes, n, a, b) == link_count(routes, n, b, a),
    decreases n,
{
    if n > 0 {
        lemma_trade_links_symmetric(routes, n - 1, a, b);
    }
}

} // verus!
