//! The telemetry record decoded from one inverter response, and its
//! mathematical model.
//!
//! Raw register values are fixed-point integers; applying the per-field
//! scale factors is the normalizer's job, never the record's.

use vstd::prelude::*;

verus! {

/// Raw readings of one photovoltaic input port.
#[derive(Clone, Copy)]
pub struct PortState {
    /// Port index; unique within a record.
    pub pv_port: u32,
    /// Voltage, tenths of a volt.
    pub pv_vol: u32,
    /// Current, hundredths of an ampere.
    pub pv_cur: u32,
    /// Instantaneous power, tenths of a watt.
    pub pv_power: u32,
    /// Lifetime energy, watt-hours (unscaled).
    pub pv_energy_total: u32,
    /// Energy produced today, watt-hours (unscaled).
    pub pv_daily_yield: u32,
}

/// Raw readings of one inverter unit.
#[derive(Clone, Copy)]
pub struct InverterState {
    /// Port index; correlates with `PortState::pv_port`.
    pub port_id: u32,
    /// Grid voltage, tenths of a volt.
    pub grid_voltage: u32,
    /// Grid frequency, hundredths of a hertz.
    pub grid_freq: u32,
    /// Instantaneous power, tenths of a watt.
    pub pv_current_power: u32,
    /// Temperature, tenths of a degree Celsius.
    pub temperature: u32,
}

/// One successful poll's worth of telemetry.
pub struct HMSStateResponse {
    /// Device serial number.
    pub dtu_sn: String,
    /// Aggregate instantaneous power, tenths of a watt.
    pub pv_current_power: u32,
    /// Aggregate energy produced today, watt-hours (unscaled).
    pub pv_daily_yield: u32,
    /// Per-port readings, in wire order.
    pub port_state: Vec<PortState>,
    /// Per-inverter readings, in wire order.
    pub inverter_state: Vec<InverterState>,
}

/// Model of a port reading: the same registers, as mathematical values.
#[verifier::ext_equal]
pub ghost struct PortModel {
    pub pv_port: u32,
    pub pv_vol: u32,
    pub pv_cur: u32,
    pub pv_power: u32,
    pub pv_energy_total: u32,
    pub pv_daily_yield: u32,
}

/// Model of an inverter reading.
#[verifier::ext_equal]
pub ghost struct InverterModel {
    pub port_id: u32,
    pub grid_voltage: u32,
    pub grid_freq: u32,
    pub pv_current_power: u32,
    pub temperature: u32,
}

/// Model of a whole telemetry record.
#[verifier::ext_equal]
pub ghost struct ResponseModel {
    pub dtu_sn: Seq<char>,
    pub pv_current_power: u32,
    pub pv_daily_yield: u32,
    pub ports: Seq<PortModel>,
    pub inverters: Seq<InverterModel>,
}

impl PortState {
    pub open spec fn model(self) -> PortModel {
        PortModel {
            pv_port: self.pv_port,
            pv_vol: self.pv_vol,
            pv_cur: self.pv_cur,
            pv_power: self.pv_power,
            pv_energy_total: self.pv_energy_total,
            pv_daily_yield: self.pv_daily_yield,
        }
    }
}

impl InverterState {
    pub open spec fn model(self) -> InverterModel {
        InverterModel {
            port_id: self.port_id,
            grid_voltage: self.grid_voltage,
            grid_freq: self.grid_freq,
            pv_current_power: self.pv_current_power,
            temperature: self.temperature,
        }
    }
}

impl HMSStateResponse {
    pub open spec fn model(self) -> ResponseModel {
        ResponseModel {
            dtu_sn: self.dtu_sn@,
            pv_current_power: self.pv_current_power,
            pv_daily_yield: self.pv_daily_yield,
            ports: self.port_state@.map_values(|p: PortState| p.model()),
            inverters: self.inverter_state@.map_values(|v: InverterState| v.model()),
        }
    }

    /// A record the publish sinks can work on: the serial is long enough to
    /// take its eight-character prefix from, and the reading counts stay far
    /// below anything that could overflow an aggregate sum.
    pub open spec fn wf(self) -> bool {
        self.dtu_sn@.len() >= 8 && self.port_state@.len() < 0x1_0000_0000
            && self.inverter_state@.len() < 0x1_0000_0000
    }
}

} // verus!
