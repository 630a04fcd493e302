use vstd::prelude::*;

verus! {

/// Where an automated valuation pipeline stands in its lifecycle.
#[derive(Debug, Clone, Copy, PartialEq, Eq, Structural)]
pub enum PipelineStatus {
    Created,
    Training,
    Validating,
    Testing,
    Deploying,
    Active,
    Failed,
    Deprecated,
}

/// Regularization applied while training a valuation model.
#[derive(Debug, Clone, Copy, PartialEq, Eq, Structural)]
pub enum RegularizationType {
    NoRegularization,
    L1,
    L2,
    ElasticNet,
    Dropout,
}

/// How input features are selected for a valuation model.
#[derive(Debug, Clone, Copy, PartialEq, Eq, Structural)]
pub enum FeatureSelectionMethod {
    All,
    Correlation,
    MutualInformation,
    RecursiveElimination,
    LassoRegularization,
}

/// A metric a trained model is validated against.
#[derive(Debug, Clone, Copy, PartialEq, Eq, Structural)]
pub enum ValidationMetric {
    MeanAbsoluteError,
    RootMeanSquareError,
    MeanAbsolutePercentageError,
    RSquared,
    AdjustedRSquared,
    MedianAbsoluteError,
}

/// A bias test a trained model is checked with.
#[derive(Debug, Clone, Copy, PartialEq, Eq, Structural)]
pub enum BiasTest {
    GeographicBias,
    PropertyTypeBias,
    PriceBias,
    TemporalBias,
    OwnershipBias,
}

/// Kinds of fairness constraints on a valuation model.
#[derive(Debug, Clone, Copy, PartialEq, Eq, Structural)]
pub enum FairnessType {
    DemographicParity,
    EqualizedOdds,
    CalibrationParity,
    IndividualFairness,
}

/// What happens when a fairness constraint is violated.
#[derive(Debug, Clone, Copy, PartialEq, Eq, Structural)]
pub enum EnforcementLevel {
    Warning,
    Block,
    Adjust,
}

/// Training parameters of a valuation model. Rates and splits are stored as
/// scaled integers.
#[derive(Debug, Clone, Copy, PartialEq, Eq, Structural)]
pub struct TrainingConfig {
    /// Learning rate times 10000.
    pub learning_rate: u32,
    pub batch_size: u32,
    pub epochs: u32,
    /// Validation split percentage times 100.
    pub validation_split: u32,
    pub early_stopping: bool,
    pub regularization: RegularizationType,
    pub feature_selection: FeatureSelectionMethod,
}

/// What a deployed model falls back on when it degrades.
#[derive(Debug, Clone, Copy, PartialEq, Eq, Structural)]
pub enum RollbackType {
    AccuracyDrop,
    BiasIncrease,
    ConfidenceDrop,
    ErrorRateIncrease,
    PredictionVolatility,
}

/// The reaction to a triggered rollback condition.
#[derive(Debug, Clone, Copy, PartialEq, Eq, Structural)]
pub enum RollbackAction {
    Alert,
    Pause,
    Rollback,
    Retrain,
}

/// When and how a deployed model is rolled back.
#[derive(Debug, Clone, Copy, PartialEq, Eq, Structural)]
pub struct RollbackCondition {
    pub condition_type: RollbackType,
    pub threshold: u32,
    /// Observation window, in seconds.
    pub time_window: u64,
    pub action: RollbackAction,
}

/// A metric watched while a model is deployed.
#[derive(Debug, Clone, Copy, PartialEq, Eq, Structural)]
pub enum MonitoringMetric {
    Accuracy,
    Bias,
    Confidence,
    PredictionLatency,
    DataDrift,
    ConceptDrift,
}

/// How loud an alert is.
#[derive(Debug, Clone, Copy, PartialEq, Eq, Structural)]
pub enum AlertSeverity {
    Info,
    Warning,
    Critical,
    Emergency,
}

/// When a monitored metric raises an alert.
#[derive(Debug, Clone, Copy, PartialEq, Eq, Structural)]
pub struct AlertThreshold {
    pub metric: MonitoringMetric,
    pub threshold: u32,
    pub severity: AlertSeverity,
}

/// Performance scores of a trained model, as scaled integers.
#[derive(Debug, Clone, Copy, PartialEq, Eq, Structural)]
pub struct ModelMetrics {
    /// Percentage times 100.
    pub accuracy: u32,
    /// Percentage times 100.
    pub precision: u32,
    /// Percentage times 100.
    pub recall: u32,
    /// Percentage times 100.
    pub f1_score: u32,
    /// Mean absolute error.
    pub mae: u128,
    /// Root mean square error.
    pub rmse: u128,
    /// R-squared times 10000.
    pub r_squared: u32,
    /// Bias score times 100.
    pub bias_score: u32,
    /// Fairness score times 100.
    pub fairness_score: u32,
}

/// Where a model version stands between development and retirement.
#[derive(Debug, Clone, Copy, PartialEq, Eq, Structural)]
pub enum DeploymentStatus {
    Development,
    Testing,
    Staging,
    Production,
    Deprecated,
    Archived,
}

/// A statistical method for detecting data drift.
#[derive(Debug, Clone, Copy, PartialEq, Eq, Structural)]
pub enum DriftDetectionMethod {
    KolmogorovSmirnov,
    ChiSquare,
    PopulationStabilityIndex,
    JensenShannonDivergence,
    WassersteinDistance,
}

/// What to do about detected drift.
#[derive(Debug, Clone, Copy, PartialEq, Eq, Structural)]
pub enum DriftRecommendation {
    NoAction,
    MonitorClosely,
    UpdateFeatures,
    RetrainModel,
    ReplaceModel,
}

/// The verdict of a model comparison test.
#[derive(Debug, Clone, Copy, PartialEq, Eq, Structural)]
pub enum TestRecommendation {
    ContinueTest,
    DeployTreatment,
    KeepControl,
    ExtendTest,
}

} // verus!
