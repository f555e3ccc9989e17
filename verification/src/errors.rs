//! Error types and the configurable handling of Curve keys that resolve to no Curve.

use vstd::prelude::*;

verus! {

/// A failure to resolve a name against a type or function registry.
#[derive(Debug, Clone)]
pub enum DynResolutionError {
    UnexpectedType(String),
    NotInRegistry(String),
}

/// A fallback mapping from an unresolvable Curve key to a Curve.
pub trait CurveResolverFn<C>: Fn(&String) -> C {}

impl<C, F: Fn(&String) -> C> CurveResolverFn<C> for F {}

/// How the library handles Curve keys that do not correspond to any known Curve
/// (dynamically registered or built in).
///
/// By default the AI code panics, to avoid either running Actions in unexpected
/// and potentially harmful ways or silently skipping bad inputs; users may opt in
/// to alternative behaviors (skip/default) at their own responsibility.
/// `R` is the fallback resolver held by the defaulting strategies.
pub enum NoCurveMatchStrategy<R> {
    Panic,
    SkipConsiderationWithLog,
    SkipActionWithLog,
    DefaultCurveWithLog(R),
    DefaultCurveWithoutLog(R),
}

impl<R> NoCurveMatchStrategy<R> {
    pub fn panic() -> (r: Self)
        ensures r is Panic,
    {
        Self::Panic
    }

    pub fn skip_consideration() -> (r: Self)
        ensures r is SkipConsiderationWithLog,
    {
        Self::SkipConsiderationWithLog
    }

    pub fn skip_action() -> (r: Self)
        ensures r is SkipActionWithLog,
    {
        Self::SkipActionWithLog
    }

    pub fn log_and_default_to(curve_fn: R) -> (r: Self)
        ensures r == Self::DefaultCurveWithLog(curve_fn),
    {
        Self::DefaultCurveWithLog(curve_fn)
    }

    pub fn quietly_default_to(curve_fn: R) -> (r: Self)
        ensures r == Self::DefaultCurveWithoutLog(curve_fn),
    {
        Self::DefaultCurveWithoutLog(curve_fn)
    }
}

impl<R> Default for NoCurveMatchStrategy<R> {
    fn default() -> (r: Self)
        ensures r is Panic,
    {
        Self::Panic
    }
}

/// App-wide configuration for how to handle bad Curve keys.
pub struct NoCurveMatchStrategyConfig<R>(pub NoCurveMatchStrategy<R>);

impl<R> Default for NoCurveMatchStrategyConfig<R> {
    fn default() -> (r: Self)
        ensures r.0 is Panic,
    {
        Self(NoCurveMatchStrategy::Panic)
    }
}

impl<R> NoCurveMatchStrategyConfig<R> {
    /// Sets the handler to one of the supported strategies (panic, skip, default, etc.).
    pub fn set(&mut self, strategy: NoCurveMatchStrategy<R>) -> (r: &mut Self)
        ensures
            r.0 == strategy,
            *final(self) == *final(r),
    {
        self.0 = strategy;
        self
    }

    /// Configures the app to panic if a Curve key cannot be resolved to a Curve.
    pub fn set_panic(&mut self) -> (r: &mut Self)
        ensures
            r.0 is Panic,
            *final(self) == *final(r),
    {
        self.set(NoCurveMatchStrategy::panic())
    }

    /// Configures the app to ignore the Consideration and log a warning
    /// if its associated Curve key cannot be resolved to a Curve.
    pub fn set_skip_consideration(&mut self) -> (r: &mut Self)
        ensures
            r.0 is SkipConsiderationWithLog,
            *final(self) == *final(r),
    {
        self.set(NoCurveMatchStrategy::skip_consideration())
    }

    /// Configures the app to discard the whole Action and log a warning
    /// if any of its Considerations' Curve keys cannot be resolved to a Curve.
    pub fn set_skip_action(&mut self) -> (r: &mut Self)
        ensures
            r.0 is SkipActionWithLog,
            *final(self) == *final(r),
    {
        self.set(NoCurveMatchStrategy::skip_action())
    }

    /// Configures the app to log a warning and use the fallback `curve_resolver`
    /// if a Curve key cannot be resolved to a Curve.
    pub fn set_log_and_use_default(&mut self, curve_resolver: R) -> (r: &mut Self)
        ensures
            r.0 == NoCurveMatchStrategy::DefaultCurveWithLog(curve_resolver),
            *final(self) == *final(r),
    {
        self.set(NoCurveMatchStrategy::log_and_default_to(curve_resolver))
    }

    /// Configures the app to use the fallback `curve_resolver`, without a warning,
    /// if a Curve key cannot be resolved to a Curve.
    pub fn set_silently_use_default(&mut self, curve_resolver: R) -> (r: &mut Self)
        ensures
            r.0 == NoCurveMatchStrategy::DefaultCurveWithoutLog(curve_resolver),
            *final(self) == *final(r),
    {
        self.set(NoCurveMatchStrategy::quietly_default_to(curve_resolver))
    }
}

/// What the decision engine does with a Consideration whose Curve key resolved to nothing.
#[derive(Debug, Clone, Copy, PartialEq, Eq, Structural)]
pub enum CurveMissResolution {
    /// Stop the decision with a panic.
    Abort,
    /// Ignore this Consideration (with a warning).
    SkipConsideration,
    /// Discard the whole ActionTemplate (with a warning).
    SkipAction,
    /// Use the configured fallback resolver, warning about it if `log` is set.
    Fallback { log: bool },
}

/// The resolution a strategy prescribes.
pub open spec fn spec_curve_miss_resolution<R>(config: Option<&NoCurveMatchStrategyConfig<R>>) -> CurveMissResolution {
    match config {
        None => CurveMissResolution::Abort,
        Some(c) => match c.0 {
            NoCurveMatchStrategy::Panic => CurveMissResolution::Abort,
            NoCurveMatchStrategy::SkipConsiderationWithLog => CurveMissResolution::SkipConsideration,
            NoCurveMatchStrategy::SkipActionWithLog => CurveMissResolution::SkipAction,
            NoCurveMatchStrategy::DefaultCurveWithLog(_) => CurveMissResolution::Fallback { log: true },
            NoCurveMatchStrategy::DefaultCurveWithoutLog(_) => CurveMissResolution::Fallback { log: false },
        },
    }
}

/// Decides how an unresolvable Curve key is handled; with no configuration installed
/// the default strategy (panic) applies.
pub fn curve_miss_resolution<R>(config: Option<&NoCurveMatchStrategyConfig<R>>) -> (r: CurveMissResolution)
    ensures
        r == spec_curve_miss_resolution(config),
{
    match config {
        None => CurveMissResolution::Abort,
        Some(c) => match &c.0 {
            NoCurveMatchStrategy::Panic => CurveMissResolution::Abort,
            NoCurveMatchStrategy::SkipConsiderationWithLog => CurveMissResolution::SkipConsideration,
            NoCurveMatchStrategy::SkipActionWithLog => CurveMissResolution::SkipAction,
            NoCurveMatchStrategy::DefaultCurveWithLog(_) => CurveMissResolution::Fallback { log: true },
            NoCurveMatchStrategy::DefaultCurveWithoutLog(_) => CurveMissResolution::Fallback { log: false },
        },
    }
}

/// By default an unresolvable Curve key aborts the decision, whether no configuration
/// is installed or the default one is.
pub proof fn law_default_strategy_aborts<R>(config: NoCurveMatchStrategyConfig<R>)
    requires
        config.0 is Panic,
    ensures
        spec_curve_miss_resolution::<R>(None) == CurveMissResolution::Abort,
        spec_curve_miss_resolution(Some(&config)) == CurveMissResolution::Abort,
{
}

/// Only the defaulting strategies consult the fallback resolver, and only the
/// quiet one does so without a warning.
pub proof fn law_fallback_only_when_defaulting<R>(config: NoCurveMatchStrategyConfig<R>)
    ensures
        spec_curve_miss_resolution(Some(&config)) is Fallback <==> (config.0 is DefaultCurveWithLog
            || config.0 is DefaultCurveWithoutLog),
        spec_curve_miss_resolution(Some(&config)) == (CurveMissResolution::Fallback { log: false })
            <==> config.0 is DefaultCurveWithoutLog,
{
}

/// Setting the panic strategy is idempotent: whatever strategy a configuration held,
/// after `set_panic` it holds the panic strategy, and setting it again leaves the
/// configuration as it was.
pub proof fn law_set_panic_idempotent<R>(once: NoCurveMatchStrategyConfig<R>, twice: NoCurveMatchStrategyConfig<R>)
    requires
        once.0 is Panic,
        twice.0 is Panic,
    ensures
        once == twice,
        spec_curve_miss_resolution(Some(&once)) == CurveMissResolution::Abort,
{
}

} // verus!
