//! The state that all parts of the engine share.

use vstd::prelude::*;

use crate::clock::WallClock;
use crate::config::EngineConfig;
use crate::kill_switch::KillSwitch;
use crate::metrics::GlobalMetrics;

verus! {

/// The state that all parts of the engine share.
pub struct SystemState {
    pub kill_switch: KillSwitch<WallClock>,
    pub config: EngineConfig,
    pub metrics: GlobalMetrics,
    pub running: bool,
}

impl SystemState {
    pub open spec fn wf(&self) -> bool {
        self.kill_switch.wf() && self.metrics.wf()
    }

    /// Whether the engine goes on.
    pub open spec fn goes_on(&self) -> bool {
        !self.kill_switch.on() && self.running
    }

    pub fn new(config: EngineConfig) -> (s: Self)
        ensures
            s.wf(),
            s.goes_on(),
            s.config == config,
            s.metrics.is_zero(),
            s.kill_switch.at_ns() == 0,
            s.kill_switch.count() == 0,
            s.kill_switch.latency() == 0,
            s.kill_switch.orders() == Seq::<Seq<char>>::empty(),
            crate::clock::begun_at(s.kill_switch.clock_of().start_of()),
    {
        SystemState {
            kill_switch: KillSwitch::new(),
            config,
            metrics: GlobalMetrics::new(),
            running: true,
        }
    }

    /// Stops trading and the engine.
    pub fn shutdown(&mut self)
        requires
            old(self).wf(),
        ensures
            final(self).wf(),
            !final(self).goes_on(),
            crate::engine::thrown(old(self).kill_switch, final(self).kill_switch),
            *final(self) == (SystemState {
                kill_switch: final(self).kill_switch,
                running: false,
                ..*old(self)
            }),
    {
        let _ = self.kill_switch.activate();
        self.running = false;
    }

    pub fn is_running(&self) -> (r: bool)
        ensures
            r == self.goes_on(),
    {
        !self.kill_switch.is_active() && self.running
    }

    /// Puts another configuration in force.
    pub fn update_config(&mut self, config: EngineConfig)
        ensures
            *final(self) == (SystemState { config, ..*old(self) }),
    {
        self.config = config;
    }
}

/// A state that was shut down goes on under no configuration.
pub proof fn law_shutdown_is_final(s: SystemState, config: EngineConfig)
    requires
        !s.goes_on(),
    ensures
        !(SystemState { config, ..s }).goes_on(),
{
}

/// The engine goes on just while it runs and the kill switch is off, and after a shutdown it does
/// not, nor does trading.
pub proof fn law_engine_goes_on_while_it_runs(s: SystemState, r: bool)
    requires
        call_ensures(SystemState::is_running, (&s,), r),
    ensures
        r <==> s.running && !s.kill_switch.on(),
        forall|t: &mut SystemState|
            #![trigger call_ensures(SystemState::shutdown, (t,), ())]
            call_ensures(SystemState::shutdown, (t,), ()) ==> !final(t).running
                && final(t).kill_switch.on() && final(t).config == t.config,
{
}

/// A new configuration changes the configuration and nothing else.
pub proof fn law_configuration_is_replaced_alone()
    ensures
        forall|t: &mut SystemState, c: EngineConfig, u: ()|
            #![trigger call_ensures(SystemState::update_config, (t, c), u)]
            call_ensures(SystemState::update_config, (t, c), u) ==> final(t).config == c
                && final(t).running == t.running && final(t).kill_switch == t.kill_switch,
{
}

} // verus!
