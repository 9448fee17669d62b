//! The enumerations that entity records hold: statuses, types, categories
//! and verdicts.

use vstd::prelude::*;

verus! {

/// Lifecycle status shared by all entities.
#[derive(Debug, Clone, Copy, PartialEq, Eq, Structural)]
pub enum Status {
    Draft,
    Review,
    Approved,
    Released,
    Obsolete,
}

/// State of a production lot.
#[derive(Debug, Clone, Copy, PartialEq, Eq, Structural)]
pub enum LotStatus {
    InProgress,
    OnHold,
    Completed,
    Scrapped,
}

/// State of one process step of a lot.
#[derive(Debug, Clone, Copy, PartialEq, Eq, Structural)]
pub enum ExecutionStatus {
    Pending,
    InProgress,
    Completed,
    Skipped,
}

/// Origin of a non-conformance.
#[derive(Debug, Clone, Copy, PartialEq, Eq, Structural)]
pub enum NcrType {
    Internal,
    Supplier,
    Customer,
}

/// Severity of a non-conformance.
#[derive(Debug, Clone, Copy, PartialEq, Eq, Structural)]
pub enum NcrSeverity {
    Minor,
    Major,
    Critical,
}

/// Category of a non-conformance.
#[derive(Debug, Clone, Copy, PartialEq, Eq, Structural)]
pub enum NcrCategory {
    Dimensional,
    Cosmetic,
    Material,
    Functional,
    Documentation,
    Process,
    Packaging,
}

/// Workflow state of a non-conformance report.
#[derive(Debug, Clone, Copy, PartialEq, Eq, Structural)]
pub enum NcrStatus {
    Open,
    Containment,
    Investigation,
    Disposition,
    Closed,
}

/// Kind of corrective/preventive action.
#[derive(Debug, Clone, Copy, PartialEq, Eq, Structural)]
pub enum CapaType {
    Corrective,
    Preventive,
}

/// Workflow state of a CAPA.
#[derive(Debug, Clone, Copy, PartialEq, Eq, Structural)]
pub enum CapaStatus {
    Initiation,
    Investigation,
    Implementation,
    Verification,
    Closed,
}

/// Outcome of a CAPA effectiveness check.
#[derive(Debug, Clone, Copy, PartialEq, Eq, Structural)]
pub enum EffectivenessResult {
    Effective,
    PartiallyEffective,
    Ineffective,
}

/// Kind of manufacturing process.
#[derive(Debug, Clone, Copy, PartialEq, Eq, Structural)]
pub enum ProcessType {
    Machining,
    Assembly,
    Inspection,
    Test,
    Finishing,
    Packaging,
    Handling,
    HeatTreat,
    Welding,
    Coating,
}

/// Whether a feature is internal (a hole) or external (a shaft).
#[derive(Debug, Clone, Copy, PartialEq, Eq, Structural)]
pub enum FeatureType {
    Internal,
    External,
}

/// Kind of contact between two features.
#[derive(Debug, Clone, Copy, PartialEq, Eq, Structural)]
pub enum MateType {
    ClearanceFit,
    InterferenceFit,
    TransitionFit,
    PlanarContact,
    ThreadEngagement,
}

/// Kind of control plan item.
#[derive(Debug, Clone, Copy, PartialEq, Eq, Structural)]
pub enum ControlType {
    Spc,
    Inspection,
    PokaYoke,
    Visual,
    FunctionalTest,
    Attribute,
}

/// State of a supplier quotation.
#[derive(Debug, Clone, Copy, PartialEq, Eq, Structural)]
pub enum QuoteStatus {
    Pending,
    Received,
    Accepted,
    Rejected,
    Expired,
}

/// Whether a component is made in house or bought.
#[derive(Debug, Clone, Copy, PartialEq, Eq, Structural)]
pub enum MakeBuy {
    Make,
    Buy,
}

/// Category of a component.
#[derive(Debug, Clone, Copy, PartialEq, Eq, Structural)]
pub enum ComponentCategory {
    Mechanical,
    Electrical,
    Software,
    Fastener,
    Consumable,
}

/// Verdict of a test result.
#[derive(Debug, Clone, Copy, PartialEq, Eq, Structural)]
pub enum Verdict {
    Pass,
    Fail,
    Conditional,
    Incomplete,
    NotApplicable,
}

/// Whether a risk concerns the design or the process.
#[derive(Debug, Clone, Copy, PartialEq, Eq, Structural)]
pub enum RiskType {
    Design,
    Process,
}

/// Risk level derived from the risk priority number.
#[derive(Debug, Clone, Copy, PartialEq, Eq, Structural)]
pub enum RiskLevel {
    Low,
    Medium,
    High,
    Critical,
}

} // verus!
