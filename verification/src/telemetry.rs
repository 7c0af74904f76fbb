//! Telemetry of an implant and the series and plans built on readings.
//! Real-valued quantities are in millionths of their unit.

use vstd::prelude::*;

verus! {

/// The sharpness of edges in a percept.
#[derive(Clone, Copy, Debug)]
pub struct EdgeSharpness {
    pub mean: i64,
    pub variance: i64,
}

/// Markers of inflammation.
#[derive(Clone, Copy, Debug)]
pub struct InflammationMarkers {
    pub il6_pg_ml: i64,
    pub crp_mg_l: Option<i64>,
}

/// The autonomic state of the host.
#[derive(Clone, Copy, Debug)]
pub struct AutonomicState {
    pub hr_bpm: i64,
    pub hrv_rmssd_ms: i64,
}

/// Coherence and the tightness of the safety boundary.
#[derive(Clone, Copy, Debug)]
pub struct TreeEnvelopeState {
    pub tree_score: i64,
    pub envelope_score: i64,
}

/// What the host reports, and how strongly.
#[derive(Clone, Debug)]
pub struct SubjectiveLabel {
    pub label: String,
    pub intensity_0_1: i64,
}

/// One frame of telemetry.
#[derive(Clone, Debug)]
pub struct ImplantTelemetry {
    pub timestamp_ns: u128,
    pub edge: EdgeSharpness,
    pub inflammation: InflammationMarkers,
    pub autonomic: AutonomicState,
    pub tree_envelope: TreeEnvelopeState,
    pub subjective: Option<SubjectiveLabel>,
}

/// One hourly point of an intake series.
#[derive(Clone, Copy, Debug)]
pub struct TimeSeriesPoint {
    pub hour: u32,
    pub tds: i64,
    pub nitrate: i64,
    pub flow_q: i64,
}

/// A recharge basin.
#[derive(Clone, Debug)]
pub struct Basin {
    pub id: String,
    pub area_ha: i64,
    pub energy_kwh_per_day: i64,
}

/// A window in which a basin may run.
#[derive(Clone, Debug)]
pub struct ScheduleOption {
    pub basin_id: String,
    pub start_hour: u32,
    pub end_hour: u32,
}

/// A window with the yield it was ranked by.
#[derive(Clone, Debug)]
pub struct RankedSchedule {
    pub basin_id: String,
    pub start_hour: u32,
    pub end_hour: u32,
    pub k_n_per_kwh: i64,
    pub k_n_per_hectare: i64,
}

/// The configuration of the bridge to the water-quality feed.
#[derive(Clone, Debug)]
pub struct Config {
    pub poll_interval_seconds: u64,
    pub water_quality_feed_url: String,
    pub output_dir: String,
}

/// The state of one node, as last seen. The instant is in RFC 3339.
#[derive(Clone, Debug)]
pub struct CeimNodeState {
    pub node_id: String,
    pub contaminant: String,
    pub k_n: i64,
    pub last_updated: String,
}

} // verus!
