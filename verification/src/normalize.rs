//! Value normalization: fixed per-field scale factors and the derived
//! efficiency metric.
//!
//! Registers scaled by one tenth (power, voltage, temperature) or one
//! hundredth (current, frequency) are held as integer counts of hundredths
//! of the display unit, so "raw 500 at one tenth" is 5000 hundredths and
//! renders as "50.00".  Energy and yield registers pass through unscaled.
//! Efficiency is aggregate power over the summed port powers, in
//! hundredths of a percent, and zero when the ports are idle.

use vstd::prelude::*;

use crate::codec::empty_inverter;
use crate::codec::empty_port;
use crate::telemetry::HMSStateResponse;
use crate::telemetry::InverterModel;
use crate::telemetry::InverterState;
use crate::telemetry::PortModel;
use crate::telemetry::PortState;
use crate::text::two_dec;
use crate::text::two_dec_string;

verus! {

/// A register scaled by one tenth, as hundredths of the display unit.
pub open spec fn deci(raw: u32) -> Seq<char> {
    two_dec((raw * 10) as nat)
}

/// A register scaled by one hundredth, as hundredths of the display unit.
pub open spec fn centi(raw: u32) -> Seq<char> {
    two_dec(raw as nat)
}

/// Renders a register scaled by one tenth ("50.00" for raw 500).
pub fn deci_display(raw: u32) -> (r: String)
    ensures
        r@ == deci(raw),
{
    two_dec_string((raw as u64) * 10)
}

/// Renders a register scaled by one hundredth ("1.23" for raw 123).
pub fn centi_display(raw: u32) -> (r: String)
    ensures
        r@ == centi(raw),
{
    two_dec_string(raw as u64)
}

/// The summed raw instantaneous power of all ports.
pub open spec fn spec_total_port_power(ports: Seq<PortModel>) -> nat
    decreases ports.len(),
{
    if ports.len() == 0 {
        0
    } else {
        (spec_total_port_power(ports.drop_last()) + ports.last().pv_power) as nat
    }
}

/// Efficiency in hundredths of a percent: aggregate power divided by total
/// port power, times one hundred, rounded toward zero; zero when the ports
/// report no power at all.
pub open spec fn spec_efficiency_h(aggregate: u32, total: nat) -> nat {
    if total == 0 {
        0
    } else {
        ((aggregate * 10000) as int / total as int) as nat
    }
}

/// Sums the raw port powers.
pub fn total_port_power(ports: &Vec<PortState>) -> (r: u64)
    requires
        ports@.len() < 0x1_0000_0000,
    ensures
        r == spec_total_port_power(ports@.map_values(|p: PortState| p.model())),
{
    let ghost models = ports@.map_values(|p: PortState| p.model());
    let mut sum: u64 = 0;
    let mut i: usize = 0;
    proof {
        assert(models.take(0) =~= Seq::<PortModel>::empty());
    }
    while i < ports.len()
        invariant
            i <= ports@.len() < 0x1_0000_0000,
            models == ports@.map_values(|p: PortState| p.model()),
            sum == spec_total_port_power(models.take(i as int)),
            sum <= i * 0xFFFF_FFFF,
        decreases ports@.len() - i,
    {
        proof {
            assert(models.take(i + 1).drop_last() =~= models.take(i as int));
            assert(models.take(i + 1).last() == models[i as int]);
        }
        sum = sum + (ports[i].pv_power as u64);
        i = i + 1;
    }
    proof {
        assert(models.take(ports@.len() as int) =~= models);
    }
    sum
}

/// The port reading at an index, or an all-zero reading where the record
/// has none: a missing reading reads as zero.
pub open spec fn spec_port_at(ports: Seq<PortModel>, i: int) -> PortModel {
    if 0 <= i < ports.len() {
        ports[i]
    } else {
        empty_port()
    }
}

/// The inverter reading at an index, or an all-zero reading.
pub open spec fn spec_inverter_at(inverters: Seq<InverterModel>, i: int) -> InverterModel {
    if 0 <= i < inverters.len() {
        inverters[i]
    } else {
        empty_inverter()
    }
}

/// Reads the port at `i`, substituting zeros when the record has fewer
/// ports.
pub fn port_at(ports: &Vec<PortState>, i: usize) -> (r: PortState)
    ensures
        r.model() == spec_port_at(ports@.map_values(|p: PortState| p.model()), i as int),
{
    if i < ports.len() {
        ports[i]
    } else {
        PortState {
            pv_port: 0,
            pv_vol: 0,
            pv_cur: 0,
            pv_power: 0,
            pv_energy_total: 0,
            pv_daily_yield: 0,
        }
    }
}

/// Reads the inverter at `i`, substituting zeros when the record has fewer
/// inverters.
pub fn inverter_at(inverters: &Vec<InverterState>, i: usize) -> (r: InverterState)
    ensures
        r.model() == spec_inverter_at(
            inverters@.map_values(|v: InverterState| v.model()),
            i as int,
        ),
{
    if i < inverters.len() {
        inverters[i]
    } else {
        InverterState { port_id: 0, grid_voltage: 0, grid_freq: 0, pv_current_power: 0, temperature: 0 }
    }
}

/// Idle ports give zero efficiency: whenever the summed port power is
/// zero, the derived efficiency is zero, whatever the aggregate power.
pub proof fn lemma_efficiency_idle_ports(aggregate: u32)
    ensures
        spec_efficiency_h(aggregate, 0) == 0,
{
}

impl HMSStateResponse {
    /// Efficiency of the whole record, in hundredths of a percent.
    pub fn get_total_efficiency(&self) -> (r: u64)
        requires
            self.wf(),
        ensures
            r == spec_efficiency_h(
                self.model().pv_current_power,
                spec_total_port_power(self.model().ports),
            ),
    {
        let total = total_port_power(&self.port_state);
        if total == 0 {
            0
        } else {
            (self.pv_current_power as u64) * 10000 / total
        }
    }
}

} // verus!
