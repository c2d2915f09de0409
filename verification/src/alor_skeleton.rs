use vstd::prelude::*;

verus! {

broadcast use vstd::string::group_string_axioms;

/// Settings of the skeleton strategy.
#[derive(Debug, Clone)]
pub struct AlorSkeletonConfig {
    pub symbol: String,
}

/// What the skeleton strategy records about its own lifecycle.
#[derive(Debug, Clone)]
pub struct AlorSkeletonState {
    pub lifecycle_stage: String,
    pub last_bar_ts: Option<i64>,
    pub bootstrap_seen: bool,
    pub runtime_state_restored: bool,
}

/// A strategy that only follows the host's lifecycle events and never trades.
#[derive(Debug)]
pub struct AlorSkeletonStrategy {
    config: AlorSkeletonConfig,
    state: AlorSkeletonState,
}

impl AlorSkeletonStrategy {
    pub closed spec fn symbol(&self) -> Seq<char> {
        self.config.symbol@
    }

    pub closed spec fn spec_state(&self) -> AlorSkeletonState {
        self.state
    }

    /// A strategy in the `created` stage that has seen nothing yet.
    pub fn new(config: AlorSkeletonConfig) -> (s: Self)
        ensures
            s.symbol() == config.symbol@,
            s.spec_state().lifecycle_stage@ == "created"@,
            s.spec_state().last_bar_ts is None,
            !s.spec_state().bootstrap_seen,
            !s.spec_state().runtime_state_restored,
    {
        AlorSkeletonStrategy {
            config,
            state: AlorSkeletonState {
                lifecycle_stage: String::from_str("created"),
                last_bar_ts: None,
                bootstrap_seen: false,
                runtime_state_restored: false,
            },
        }
    }

    /// A bar of the configured symbol moves the strategy to `live` and records the bar's
    /// close time; a bar of another symbol changes nothing.
    pub fn on_bar(&mut self, bar_symbol: &str, close_time_utc: i64)
        ensures
            final(self).symbol() == old(self).symbol(),
            bar_symbol@ != old(self).symbol() ==> final(self).spec_state() == old(self).spec_state(),
            bar_symbol@ == old(self).symbol() ==> {
                &&& final(self).spec_state().lifecycle_stage@ == "live"@
                &&& final(self).spec_state().last_bar_ts == Some(close_time_utc)
                &&& final(self).spec_state().bootstrap_seen == old(self).spec_state().bootstrap_seen
                &&& final(self).spec_state().runtime_state_restored == old(
                    self,
                ).spec_state().runtime_state_restored
            },
    {
        if !crate::text::str_eq(bar_symbol, self.config.symbol.as_str()) {
            return;
        }
        self.state.lifecycle_stage = String::from_str("live");
        self.state.last_bar_ts = Some(close_time_utc);
    }

    /// A stop-order update moves the strategy to `stop_order_observed`.
    pub fn on_stop_order(&mut self)
        ensures
            final(self).symbol() == old(self).symbol(),
            final(self).spec_state().lifecycle_stage@ == "stop_order_observed"@,
            final(self).spec_state().last_bar_ts == old(self).spec_state().last_bar_ts,
            final(self).spec_state().bootstrap_seen == old(self).spec_state().bootstrap_seen,
            final(self).spec_state().runtime_state_restored == old(
                self,
            ).spec_state().runtime_state_restored,
    {
        self.state.lifecycle_stage = String::from_str("stop_order_observed");
    }

    /// The bootstrap snapshot moves the strategy to `bootstrapped` and marks it seen.
    pub fn on_bootstrap_snapshot(&mut self)
        ensures
            final(self).symbol() == old(self).symbol(),
            final(self).spec_state().lifecycle_stage@ == "bootstrapped"@,
            final(self).spec_state().bootstrap_seen,
            final(self).spec_state().last_bar_ts == old(self).spec_state().last_bar_ts,
            final(self).spec_state().runtime_state_restored == old(
                self,
            ).spec_state().runtime_state_restored,
    {
        self.state.lifecycle_stage = String::from_str("bootstrapped");
        self.state.bootstrap_seen = true;
    }

    /// The restored runtime state moves the strategy to `runtime_state_restored` and marks
    /// it restored.
    pub fn on_runtime_state_restored(&mut self)
        ensures
            final(self).symbol() == old(self).symbol(),
            final(self).spec_state().lifecycle_stage@ == "runtime_state_restored"@,
            final(self).spec_state().runtime_state_restored,
            final(self).spec_state().last_bar_ts == old(self).spec_state().last_bar_ts,
            final(self).spec_state().bootstrap_seen == old(self).spec_state().bootstrap_seen,
    {
        self.state.lifecycle_stage = String::from_str("runtime_state_restored");
        self.state.runtime_state_restored = true;
    }

    /// The recorded lifecycle state.
    pub fn state(&self) -> (s: &AlorSkeletonState)
        ensures
            *s == self.spec_state(),
    {
        &self.state
    }

    /// Replaces the recorded lifecycle state.
    pub fn set_state(&mut self, state: AlorSkeletonState)
        ensures
            final(self).symbol() == old(self).symbol(),
            final(self).spec_state() == state,
    {
        self.state = state;
    }
}

} // verus!
