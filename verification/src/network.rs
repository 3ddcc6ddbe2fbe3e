//! Network interface aggregation: cumulative received/transmitted counters
//! are summed across every enumerated interface with no filtering —
//! loopback and virtual interfaces are intentionally included.

use vstd::prelude::*;
use crate::disks::sat64;

verus! {

/// One interface reading: the interface name and its cumulative traffic
/// counters since reset.
pub struct InterfaceReading {
    pub name: String,
    pub received: u64,
    pub transmitted: u64,
}

/// Mathematical image of an [`InterfaceReading`].
pub struct InterfaceView {
    pub name: Seq<char>,
    pub received: u64,
    pub transmitted: u64,
}

impl View for InterfaceReading {
    type V = InterfaceView;

    open spec fn view(&self) -> InterfaceView {
        InterfaceView { name: self.name@, received: self.received, transmitted: self.transmitted }
    }
}

impl Clone for InterfaceReading {
    fn clone(&self) -> (r: Self)
        ensures
            r@ == self@,
    {
        InterfaceReading {
            name: self.name.clone(),
            received: self.received,
            transmitted: self.transmitted,
        }
    }
}

/// The views of a sequence of interface readings.
pub open spec fn net_views_of(s: Seq<InterfaceReading>) -> Seq<InterfaceView> {
    s.map_values(|n: InterfaceReading| n@)
}

/// The exact sum of the received counters of the readings in `s`.
pub open spec fn sum_received(s: Seq<InterfaceView>) -> int
    decreases s.len(),
{
    if s.len() == 0 {
        0
    } else {
        sum_received(s.drop_last()) + s.last().received
    }
}

/// The exact sum of the transmitted counters of the readings in `s`.
pub open spec fn sum_transmitted(s: Seq<InterfaceView>) -> int
    decreases s.len(),
{
    if s.len() == 0 {
        0
    } else {
        sum_transmitted(s.drop_last()) + s.last().transmitted
    }
}

proof fn lemma_net_sums_nonneg(s: Seq<InterfaceView>)
    ensures
        sum_received(s) >= 0,
        sum_transmitted(s) >= 0,
    decreases s.len(),
{
    if s.len() > 0 {
        lemma_net_sums_nonneg(s.drop_last());
    }
}

/// Adds up the received and transmitted counters of every interface, with
/// no filtering, saturating at the largest 64-bit value instead of
/// overflowing. Returns `(total_received, total_transmitted)`.
pub fn network_totals(nets: &Vec<InterfaceReading>) -> (r: (u64, u64))
    ensures
        r.0 == sat64(sum_received(net_views_of(nets@))),
        r.1 == sat64(sum_transmitted(net_views_of(nets@))),
{
    let mut received: u64 = 0;
    let mut transmitted: u64 = 0;
    let n = nets.len();
    let mut i: usize = 0;
    while i < n
        invariant
            n == nets@.len(),
            i <= n,
            received == sat64(sum_received(net_views_of(nets@.take(i as int)))),
            transmitted == sat64(sum_transmitted(net_views_of(nets@.take(i as int)))),
        decreases n - i,
    {
        let ghost taken = net_views_of(nets@.take(i as int));
        received = received.saturating_add(nets[i].received);
        transmitted = transmitted.saturating_add(nets[i].transmitted);
        proof {
            assert(nets@.take(i as int + 1) =~= nets@.take(i as int).push(nets@[i as int]));
            let taken1 = net_views_of(nets@.take(i as int + 1));
            assert(taken1 =~= taken.push(nets@[i as int]@));
            assert(taken1.drop_last() =~= taken);
            lemma_net_sums_nonneg(taken);
        }
        i += 1;
    }
    proof {
        assert(nets@.take(n as int) =~= nets@);
    }
    (received, transmitted)
}

/// Law: whenever the exact sums fit the counter width, the reported totals
/// are exactly the sums of the per-interface values — interfaces with zero
/// traffic included, since adding them leaves both sums unchanged.
pub proof fn lemma_network_totals_exact(s: Seq<InterfaceView>, quiet: InterfaceView)
    requires
        quiet.received == 0,
        quiet.transmitted == 0,
    ensures
        sum_received(s) <= u64::MAX ==> sat64(sum_received(s)) == sum_received(s),
        sum_transmitted(s) <= u64::MAX ==> sat64(sum_transmitted(s)) == sum_transmitted(s),
        sum_received(s.push(quiet)) == sum_received(s),
        sum_transmitted(s.push(quiet)) == sum_transmitted(s),
{
    assert(s.push(quiet).drop_last() =~= s);
}

} // verus!
