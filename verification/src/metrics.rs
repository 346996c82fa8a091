//! Per-cycle derivations: RAM percentage, network byte deltas and rates,
//! and VRAM unit conversion.
//!
//! Every function here is pure arithmetic over raw counters handed in by the
//! metric-source adapters; all of it is verified, including absence of
//! overflow (wide intermediates, results clamped to the machine word).

use vstd::prelude::*;

use vstd::arithmetic::div_mod::lemma_div_is_ordered;
use vstd::arithmetic::div_mod::lemma_div_pos_is_pos;

verus! {

/// The memory percentage for the given byte counters: used over total,
/// scaled to 100 and truncated; swap counters join in only when the toggle
/// is set.  A reported total of zero yields the defined fallback 0 rather
/// than an arithmetic fault.
pub open spec fn ram_pct_spec(
    used_mem: u64,
    total_mem: u64,
    used_swap: u64,
    total_swap: u64,
    include_swap: bool,
) -> int {
    let used = if include_swap {
        used_mem + used_swap
    } else {
        used_mem as int
    };
    let total = if include_swap {
        total_mem + total_swap
    } else {
        total_mem as int
    };
    if total == 0 {
        0
    } else {
        used * 100 / total
    }
}

/// Clamp a mathematical value into the `u64` range from above.
pub open spec fn clamp_u64(v: int) -> int {
    if v > u64::MAX {
        u64::MAX as int
    } else {
        v
    }
}

/// Compute the RAM usage percentage from the raw memory and swap counters.
/// The result is exactly `ram_pct_spec` (clamped to the machine word, which
/// only matters for nonsensical counters with used far above total), it is
/// 0 when the relevant total is zero, and it stays within `[0, 100]`
/// whenever used does not exceed total.
pub fn ram_usage_pct(
    used_mem: u64,
    total_mem: u64,
    used_swap: u64,
    total_swap: u64,
    include_swap: bool,
) -> (r: u64)
    ensures
        r == clamp_u64(ram_pct_spec(used_mem, total_mem, used_swap, total_swap, include_swap)),
        (if include_swap {
            total_mem + total_swap
        } else {
            total_mem as int
        }) == 0 ==> r == 0,
        (if include_swap {
            used_mem + used_swap <= total_mem + total_swap
        } else {
            used_mem <= total_mem
        }) ==> 0 <= r <= 100,
{
    let used: u128 = if include_swap {
        used_mem as u128 + used_swap as u128
    } else {
        used_mem as u128
    };
    let total: u128 = if include_swap {
        total_mem as u128 + total_swap as u128
    } else {
        total_mem as u128
    };
    if total == 0 {
        0
    } else {
        let pct: u128 = used * 100 / total;
        proof {
            if used <= total {
                assert(used * 100 <= total * 100) by (nonlinear_arith)
                    requires
                        used <= total,
                ;
                lemma_div_is_ordered(used * 100, total * 100, total as int);
                assert(total * 100 / (total as int) == 100) by (nonlinear_arith)
                    requires
                        total > 0,
                ;
            }
        }
        if pct > u64::MAX as u128 {
            u64::MAX
        } else {
            pct as u64
        }
    }
}

/// The percentage depends only on the current cycle's toggle value: with
/// the toggle set it is the swap-inclusive ratio, without it the RAM-only
/// ratio, whatever the toggle held on any earlier cycle.  Flipping the
/// toggle therefore changes which counters feed the percentage on the very
/// next computation, with no carry-over of state.
pub proof fn lemma_swap_toggle_feeds_ram(used_mem: u64, total_mem: u64, used_swap: u64, total_swap: u64)
    ensures
        ram_pct_spec(used_mem, total_mem, used_swap, total_swap, true) == (if total_mem + total_swap
            == 0 {
            0int
        } else {
            (used_mem + used_swap) * 100 / (total_mem + total_swap)
        }),
        ram_pct_spec(used_mem, total_mem, used_swap, total_swap, false) == (if total_mem == 0 {
            0int
        } else {
            used_mem * 100 / (total_mem as int)
        }),
{
}

/// On a sane host each used counter stays below its total, and then the
/// percentage needs no clamping at all: it is the plain truncated ratio,
/// within `[0, 100]`, under whichever toggle value the cycle reads.
pub proof fn lemma_sane_counters_need_no_clamp(
    used_mem: u64,
    total_mem: u64,
    used_swap: u64,
    total_swap: u64,
    include_swap: bool,
)
    requires
        if include_swap {
            used_mem + used_swap <= total_mem + total_swap
        } else {
            used_mem <= total_mem
        },
    ensures
        0 <= ram_pct_spec(used_mem, total_mem, used_swap, total_swap, include_swap) <= 100,
        clamp_u64(ram_pct_spec(used_mem, total_mem, used_swap, total_swap, include_swap))
            == ram_pct_spec(used_mem, total_mem, used_swap, total_swap, include_swap),
{
    let used: int = if include_swap {
        used_mem + used_swap
    } else {
        used_mem as int
    };
    let total: int = if include_swap {
        total_mem + total_swap
    } else {
        total_mem as int
    };
    if total != 0 {
        lemma_div_pos_is_pos(used * 100, total);
        assert(used * 100 <= total * 100) by (nonlinear_arith)
            requires
                used <= total,
        ;
        lemma_div_is_ordered(used * 100, total * 100, total);
        assert(total * 100 / total == 100) by (nonlinear_arith)
            requires
                total > 0,
        ;
    }
}

/// Cumulative per-interface transmit/receive counters, as read in one cycle.
pub struct NetCounters {
    /// The interface name.
    pub name: String,
    /// Bytes transmitted since the counters began, cumulative.
    pub total_tx: u64,
    /// Bytes received since the counters began, cumulative.
    pub total_rx: u64,
}

/// The previous cycle's cumulative counters for `name`: the first matching
/// entry, or `(0, 0)` for an interface seen for the first time.
pub open spec fn prev_counters_for(prev: Seq<NetCounters>, name: Seq<char>) -> (u64, u64)
    decreases prev.len(),
{
    if prev.len() == 0 {
        (0u64, 0u64)
    } else if prev[0].name@ == name {
        (prev[0].total_tx, prev[0].total_rx)
    } else {
        prev_counters_for(prev.drop_first(), name)
    }
}

/// The forward movement of one cumulative counter: current minus previous,
/// clamped to zero when the counter moved backwards (counter reset or
/// interface replug).
pub open spec fn counter_delta(current: u64, previous: u64) -> int {
    if current >= previous {
        current - previous
    } else {
        0
    }
}

/// Whether `name` occurs in the catalog.
pub open spec fn in_catalog(catalog: Seq<String>, name: Seq<char>) -> bool {
    exists|i: int| 0 <= i < catalog.len() && catalog[i]@ == name
}

/// The transmit deltas of all current readings whose interface is in the
/// catalog, summed.
pub open spec fn tx_delta_sum(
    cur: Seq<NetCounters>,
    prev: Seq<NetCounters>,
    catalog: Seq<String>,
) -> int
    decreases cur.len(),
{
    if cur.len() == 0 {
        0
    } else {
        let rest = tx_delta_sum(cur.drop_last(), prev, catalog);
        if in_catalog(catalog, cur.last().name@) {
            rest + counter_delta(cur.last().total_tx, prev_counters_for(prev, cur.last().name@).0)
        } else {
            rest
        }
    }
}

/// The receive deltas of all current readings whose interface is in the
/// catalog, summed.
pub open spec fn rx_delta_sum(
    cur: Seq<NetCounters>,
    prev: Seq<NetCounters>,
    catalog: Seq<String>,
) -> int
    decreases cur.len(),
{
    if cur.len() == 0 {
        0
    } else {
        let rest = rx_delta_sum(cur.drop_last(), prev, catalog);
        if in_catalog(catalog, cur.last().name@) {
            rest + counter_delta(cur.last().total_rx, prev_counters_for(prev, cur.last().name@).1)
        } else {
            rest
        }
    }
}

/// Look up the previous cycle's counters for `name`, executably.
fn lookup_prev(prev: &Vec<NetCounters>, name: &String) -> (r: (u64, u64))
    ensures
        r == prev_counters_for(prev@, name@),
{
    let mut i: usize = 0;
    proof {
        assert(prev@.subrange(0, prev@.len() as int) =~= prev@);
    }
    while i < prev.len()
        invariant
            i <= prev@.len(),
            prev_counters_for(prev@, name@) == prev_counters_for(
                prev@.subrange(i as int, prev@.len() as int),
                name@,
            ),
        decreases prev@.len() - i,
    {
        proof {
            let tail = prev@.subrange(i as int, prev@.len() as int);
            assert(tail[0] == prev@[i as int]);
            assert(tail.drop_first() =~= prev@.subrange(i as int + 1, prev@.len() as int));
        }
        if prev[i].name.eq(name) {
            return (prev[i].total_tx, prev[i].total_rx);
        }
        i += 1;
    }
    proof {
        assert(prev@.subrange(prev@.len() as int, prev@.len() as int) =~= Seq::<
            NetCounters,
        >::empty());
    }
    (0, 0)
}

/// Whether `name` occurs in the catalog, executably.
fn catalog_contains(catalog: &Vec<String>, name: &String) -> (r: bool)
    ensures
        r == in_catalog(catalog@, name@),
{
    let mut i: usize = 0;
    while i < catalog.len()
        invariant
            i <= catalog@.len(),
            forall|j: int| 0 <= j < i ==> catalog@[j]@ != name@,
        decreases catalog@.len() - i,
    {
        if catalog[i].eq(name) {
            return true;
        }
        i += 1;
    }
    false
}

/// Sum, over all current readings whose interface is in the catalog, the
/// forward movement of the transmit and receive counters since the previous
/// cycle.  Counter resets clamp to zero per interface; the sums are exact
/// up to the machine word and clamp there.
pub fn sum_interface_deltas(
    cur: &Vec<NetCounters>,
    prev: &Vec<NetCounters>,
    catalog: &Vec<String>,
) -> (r: (u64, u64))
    ensures
        r.0 == clamp_u64(tx_delta_sum(cur@, prev@, catalog@)),
        r.1 == clamp_u64(rx_delta_sum(cur@, prev@, catalog@)),
{
    let mut tx: u128 = 0;
    let mut rx: u128 = 0;
    let mut i: usize = 0;
    while i < cur.len()
        invariant
            i <= cur@.len(),
            tx == tx_delta_sum(cur@.take(i as int), prev@, catalog@),
            rx == rx_delta_sum(cur@.take(i as int), prev@, catalog@),
            tx <= i * (u64::MAX as int),
            rx <= i * (u64::MAX as int),
        decreases cur@.len() - i,
    {
        let c = &cur[i];
        if catalog_contains(catalog, &c.name) {
            let (ptx, prx) = lookup_prev(prev, &c.name);
            let dtx: u64 = if c.total_tx >= ptx {
                c.total_tx - ptx
            } else {
                0
            };
            let drx: u64 = if c.total_rx >= prx {
                c.total_rx - prx
            } else {
                0
            };
            proof {
                assert(i * (u64::MAX as int) + (u64::MAX as int) == (i + 1) * (u64::MAX as int))
                    by (nonlinear_arith);
                assert((i + 1) * (u64::MAX as int) < u128::MAX) by (nonlinear_arith)
                    requires
                        i < u64::MAX,
                ;
            }
            tx = tx + dtx as u128;
            rx = rx + drx as u128;
        }
        i += 1;
        proof {
            let taken = cur@.take(i as int);
            assert(taken.drop_last() =~= cur@.take(i as int - 1));
            assert(taken.last() == cur@[i as int - 1]);
            assert(i * (u64::MAX as int) >= (i - 1) * (u64::MAX as int)) by (nonlinear_arith);
        }
    }
    proof {
        assert(cur@.take(cur@.len() as int) =~= cur@);
    }
    let tx64: u64 = if tx > u64::MAX as u128 {
        u64::MAX
    } else {
        tx as u64
    };
    let rx64: u64 = if rx > u64::MAX as u128 {
        u64::MAX
    } else {
        rx as u64
    };
    (tx64, rx64)
}

/// The display rate for one direction: bytes moved in the window over the
/// window's length, in bytes per second.  A zero-length window yields the
/// fallback 0 rather than an arithmetic fault.
pub open spec fn rate_bytes_per_sec(delta_bytes: u64, elapsed_ms: u64) -> int {
    if elapsed_ms == 0 {
        0
    } else {
        delta_bytes * 1000 / (elapsed_ms as int)
    }
}

/// The length of the sampling window, in milliseconds: how far the clock
/// moved since the previous cycle, or 0 under a clock that jumped backwards.
pub open spec fn elapsed_window(now_ms: u64, prev_ms: u64) -> u64 {
    if now_ms >= prev_ms {
        (now_ms - prev_ms) as u64
    } else {
        0u64
    }
}

/// The published rate for one direction of a whole cycle: the summed
/// per-interface deltas (clamped to the machine word) over the window, as
/// `rate_bytes_per_sec`, again clamped.
pub open spec fn window_rate_spec(delta_sum: int, elapsed_ms: u64) -> int {
    let d = clamp_u64(delta_sum);
    if elapsed_ms == 0 {
        0
    } else {
        clamp_u64(d * 1000 / (elapsed_ms as int))
    }
}

/// An empty interface catalog yields zero network throughput, whatever the
/// adapter's readings hold: no reading is in the catalog, so both delta
/// sums, and with them both published rates, are zero.
pub proof fn lemma_empty_catalog_zero_throughput(
    cur: Seq<NetCounters>,
    prev: Seq<NetCounters>,
    catalog: Seq<String>,
    elapsed_ms: u64,
)
    requires
        catalog.len() == 0,
    ensures
        tx_delta_sum(cur, prev, catalog) == 0,
        rx_delta_sum(cur, prev, catalog) == 0,
        window_rate_spec(0, elapsed_ms) == 0,
    decreases cur.len(),
{
    if cur.len() > 0 {
        lemma_empty_catalog_zero_throughput(cur.drop_last(), prev, catalog, elapsed_ms);
    }
    if elapsed_ms != 0 {
        vstd::arithmetic::div_mod::lemma_div_of0(elapsed_ms as int);
    }
}

/// Convert a byte delta and a wall-clock window into a bytes-per-second
/// rate, exactly as `rate_bytes_per_sec` (clamped to the machine word).
/// The presentation layer divides by 1,000,000 to show megabytes per
/// second.
pub fn network_rate(delta_bytes: u64, elapsed_ms: u64) -> (r: u64)
    ensures
        r == clamp_u64(rate_bytes_per_sec(delta_bytes, elapsed_ms)),
        elapsed_ms == 0 ==> r == 0,
{
    if elapsed_ms == 0 {
        0
    } else {
        let scaled: u128 = delta_bytes as u128 * 1000;
        let rate: u128 = scaled / elapsed_ms as u128;
        if rate > u64::MAX as u128 {
            u64::MAX
        } else {
            rate as u64
        }
    }
}

/// Convert a VRAM byte count to whole megabytes (1 MB = 1,048,576 bytes),
/// truncating.
pub fn vram_mb(bytes: u64) -> (r: u64)
    ensures
        r == bytes as int / 1048576,
{
    bytes / 1048576
}

} // verus!
