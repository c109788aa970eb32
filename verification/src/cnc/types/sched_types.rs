//! Types of the scheduled-traffic model of a Bridge port (IEEE 802.1Qbv).

use vstd::prelude::*;

verus! {

/// What a gate control entry does when it is executed.
#[derive(Clone, Copy, Debug, PartialEq, Eq, Structural)]
pub enum GateControlOperation {
    /// Set the gates to the entry's gate states.
    SetGateStates,
    /// Set the gates and hold the MAC, so that preemptable frames stop.
    SetAndHoldMAC,
    /// Set the gates and release the MAC.
    SetAndReleaseMAC,
}

impl DeepView for GateControlOperation {
    type V = GateControlOperation;

    open spec fn deep_view(&self) -> GateControlOperation {
        *self
    }
}

/// One entry of a gate control list.
#[derive(Clone, Copy, Debug)]
pub struct GateControlEntry {
    pub operation_name: GateControlOperation,
    /// How long the entry stays in force, in nanoseconds.
    pub time_interval_value: u32,
    /// One bit per traffic class, least significant bit for class 0; 1 is open.
    pub gate_state_value: u8,
}

impl DeepView for GateControlEntry {
    type V = GateControlEntry;

    open spec fn deep_view(&self) -> GateControlEntry {
        *self
    }
}

/// Largest service data unit that one traffic class may send.
#[derive(Clone, Copy, Debug)]
pub struct QueueMaxSduEntry {
    pub traffic_class: u8,
    pub queue_max_sdu: u32,
    /// Frames whose transmission ran into a closed gate.
    pub transmission_overrun: u64,
}

impl DeepView for QueueMaxSduEntry {
    type V = QueueMaxSduEntry;

    open spec fn deep_view(&self) -> QueueMaxSduEntry {
        *self
    }
}

/// A point in PTP time: seconds and the fraction of a second in nanoseconds.
pub type PtpTimeScale = (u64, u32);

/// A rational number: numerator and denominator.
pub type RationalGrouping = (i32, i32);

/// Gate parameter tables of all ports of a Bridge.
pub type SchedParameters = Vec<GateParameterTableEntry>;

/// The complete gate parameter table of one port: administrative values, operational
/// values and what the port supports.
#[derive(Debug)]
pub struct GateParameterTableEntry {
    pub queue_max_sdu_table: Vec<QueueMaxSduEntry>,
    pub gate_enable: bool,
    pub admin_gate_states: u8,
    pub oper_gate_states: u8,
    pub admin_control_list: Vec<GateControlEntry>,
    pub oper_control_list: Vec<GateControlEntry>,
    pub admin_cycle_time: RationalGrouping,
    pub oper_cycle_time: RationalGrouping,
    pub admin_cycle_time_extension: u32,
    pub oper_cycle_time_extension: u32,
    pub admin_base_time: PtpTimeScale,
    pub oper_base_time: PtpTimeScale,
    pub config_change: bool,
    pub config_time_change_time: PtpTimeScale,
    pub tick_granularity: u32,
    pub current_time: PtpTimeScale,
    pub config_pending: bool,
    pub config_change_error: u64,
    pub supported_list_max: u32,
    pub supported_cycle_max: RationalGrouping,
    pub supported_interval_max: u32,
}

/// What a [`GateParameterTableEntry`] holds, as a mathematical value.
pub struct GateParameterTableEntryModel {
    pub queue_max_sdu_table: Seq<QueueMaxSduEntry>,
    pub gate_enable: bool,
    pub admin_gate_states: u8,
    pub oper_gate_states: u8,
    pub admin_control_list: Seq<GateControlEntry>,
    pub oper_control_list: Seq<GateControlEntry>,
    pub admin_cycle_time: RationalGrouping,
    pub oper_cycle_time: RationalGrouping,
    pub admin_cycle_time_extension: u32,
    pub oper_cycle_time_extension: u32,
    pub admin_base_time: PtpTimeScale,
    pub oper_base_time: PtpTimeScale,
    pub config_change: bool,
    pub config_time_change_time: PtpTimeScale,
    pub tick_granularity: u32,
    pub current_time: PtpTimeScale,
    pub config_pending: bool,
    pub config_change_error: u64,
    pub supported_list_max: u32,
    pub supported_cycle_max: RationalGrouping,
    pub supported_interval_max: u32,
}

impl DeepView for GateParameterTableEntry {
    type V = GateParameterTableEntryModel;

    open spec fn deep_view(&self) -> GateParameterTableEntryModel {
        GateParameterTableEntryModel {
            queue_max_sdu_table: self.queue_max_sdu_table.deep_view(),
            gate_enable: self.gate_enable.deep_view(),
            admin_gate_states: self.admin_gate_states.deep_view(),
            oper_gate_states: self.oper_gate_states.deep_view(),
            admin_control_list: self.admin_control_list.deep_view(),
            oper_control_list: self.oper_control_list.deep_view(),
            admin_cycle_time: self.admin_cycle_time.deep_view(),
            oper_cycle_time: self.oper_cycle_time.deep_view(),
            admin_cycle_time_extension: self.admin_cycle_time_extension.deep_view(),
            oper_cycle_time_extension: self.oper_cycle_time_extension.deep_view(),
            admin_base_time: self.admin_base_time.deep_view(),
            oper_base_time: self.oper_base_time.deep_view(),
            config_change: self.config_change.deep_view(),
            config_time_change_time: self.config_time_change_time.deep_view(),
            tick_granularity: self.tick_granularity.deep_view(),
            current_time: self.current_time.deep_view(),
            config_pending: self.config_pending.deep_view(),
            config_change_error: self.config_change_error.deep_view(),
            supported_list_max: self.supported_list_max.deep_view(),
            supported_cycle_max: self.supported_cycle_max.deep_view(),
            supported_interval_max: self.supported_interval_max.deep_view(),
        }
    }
}

impl Clone for GateParameterTableEntry {
    fn clone(&self) -> (r: Self)
        ensures
            r.deep_view() == self.deep_view(),
    {
        let queue_max_sdu_table = self.queue_max_sdu_table.clone();
        let admin_control_list = self.admin_control_list.clone();
        let oper_control_list = self.oper_control_list.clone();
        proof {
            assert(queue_max_sdu_table.deep_view() =~= self.queue_max_sdu_table.deep_view());
            assert(admin_control_list.deep_view() =~= self.admin_control_list.deep_view());
            assert(oper_control_list.deep_view() =~= self.oper_control_list.deep_view());
        }
        GateParameterTableEntry {
            queue_max_sdu_table,
            gate_enable: self.gate_enable,
            admin_gate_states: self.admin_gate_states,
            oper_gate_states: self.oper_gate_states,
            admin_control_list,
            oper_control_list,
            admin_cycle_time: self.admin_cycle_time,
            oper_cycle_time: self.oper_cycle_time,
            admin_cycle_time_extension: self.admin_cycle_time_extension,
            oper_cycle_time_extension: self.oper_cycle_time_extension,
            admin_base_time: self.admin_base_time,
            oper_base_time: self.oper_base_time,
            config_change: self.config_change,
            config_time_change_time: self.config_time_change_time,
            tick_granularity: self.tick_granularity,
            current_time: self.current_time,
            config_pending: self.config_pending,
            config_change_error: self.config_change_error,
            supported_list_max: self.supported_list_max,
            supported_cycle_max: self.supported_cycle_max,
            supported_interval_max: self.supported_interval_max,
        }
    }
}

/// The part of a port's gate parameter table that the CNC writes.
#[derive(Debug)]
pub struct ConfigurableGateParameterTableEntry {
    /// Whether the time-aware shaper is active on the port.
    pub gate_enable: bool,
    /// Gate states in force while no list is running; least significant bit for class 0.
    pub admin_gate_states: u8,
    /// Gate control list, executed in order once per cycle.
    pub admin_control_list: Vec<GateControlEntry>,
    /// Length of one cycle in seconds.
    pub admin_cycle_time: RationalGrouping,
    /// By how much a cycle may be stretched when the configuration changes, in nanoseconds.
    pub admin_cycle_time_extension: u32,
    /// When the first cycle starts.
    pub admin_base_time: PtpTimeScale,
    /// Set to make the port take the administrative values into operation.
    pub config_change: bool,
}

/// What a [`ConfigurableGateParameterTableEntry`] holds, as a mathematical value.
pub struct ConfigurableGateParameterTableEntryModel {
    pub gate_enable: bool,
    pub admin_gate_states: u8,
    pub admin_control_list: Seq<GateControlEntry>,
    pub admin_cycle_time: RationalGrouping,
    pub admin_cycle_time_extension: u32,
    pub admin_base_time: PtpTimeScale,
    pub config_change: bool,
}

impl DeepView for ConfigurableGateParameterTableEntry {
    type V = ConfigurableGateParameterTableEntryModel;

    open spec fn deep_view(&self) -> ConfigurableGateParameterTableEntryModel {
        ConfigurableGateParameterTableEntryModel {
            gate_enable: self.gate_enable.deep_view(),
            admin_gate_states: self.admin_gate_states.deep_view(),
            admin_control_list: self.admin_control_list.deep_view(),
            admin_cycle_time: self.admin_cycle_time.deep_view(),
            admin_cycle_time_extension: self.admin_cycle_time_extension.deep_view(),
            admin_base_time: self.admin_base_time.deep_view(),
            config_change: self.config_change.deep_view(),
        }
    }
}

impl Clone for ConfigurableGateParameterTableEntry {
    fn clone(&self) -> (r: Self)
        ensures
            r.deep_view() == self.deep_view(),
    {
        let admin_control_list = self.admin_control_list.clone();
        proof {
            assert(admin_control_list.deep_view() =~= self.admin_control_list.deep_view());
        }
        ConfigurableGateParameterTableEntry {
            gate_enable: self.gate_enable,
            admin_gate_states: self.admin_gate_states,
            admin_control_list,
            admin_cycle_time: self.admin_cycle_time,
            admin_cycle_time_extension: self.admin_cycle_time_extension,
            admin_base_time: self.admin_base_time,
            config_change: self.config_change,
        }
    }
}

} // verus!
