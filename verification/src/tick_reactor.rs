//! The reactor that hands each tick to the channel of its symbol.

use crossbeam_channel::{Receiver, Sender};
use vstd::prelude::*;

use crate::channel_utils::{
    bounded_channel, recv_within, take_in, try_recv, try_send, SendOutcome,
};
use crate::clock::wall_time_ns;
use crate::metrics::GlobalMetrics;
use crate::quantity::Real;
use crate::symbol_registry::{
    next_trace_id, IdCounters, SymbolId, SymbolIdArray, SymbolRegistry, MAX_SYMBOLS,
};

verus! {

/// What a tick reports.
#[derive(Debug, Clone, Copy, PartialEq, Eq, Structural)]
pub enum TickType {
    Quote,
    Trade,
}

/// A tick as the market sent it.
#[derive(Debug, Clone)]
pub struct RawTick {
    pub symbol_id: SymbolId,
    pub symbol: String,
    pub tick_type: TickType,
    pub timestamp_ns: u64,
    pub bid: Real,
    pub ask: Real,
    pub bid_size: u64,
    pub ask_size: u64,
    pub last_price: Real,
    pub last_size: u64,
    pub exchange: String,
    pub trace_id: u64,
    pub symbol_name: Option<String>,
}

impl RawTick {
    /// The name of the symbol: the long one where there is one.
    pub open spec fn name(self) -> Seq<char> {
        match self.symbol_name {
            Some(n) => if n@.len() > 0 {
                n@
            } else {
                self.symbol@
            },
            None => self.symbol@,
        }
    }

    /// The name of the symbol.
    fn name_text(&self) -> (s: &str)
        ensures
            s@ == self.name(),
    {
        match &self.symbol_name {
            Some(n) => {
                if crate::text::str_eq(n.as_str(), "") {
                    proof {
                        reveal_strlit("");
                    }
                    self.symbol.as_str()
                } else {
                    proof {
                        reveal_strlit("");
                        assert(n@.len() == 0 ==> n@ =~= ""@);
                    }
                    n.as_str()
                }
            },
            None => self.symbol.as_str(),
        }
    }
}

/// What the reactor is told to do.
#[derive(Debug, Clone)]
pub enum ReactorCommand {
    Subscribe { symbol: String, tx: Sender<RawTick> },
    Unsubscribe { symbol: String },
    Shutdown,
}

/// What came of the ticks of one symbol.
#[derive(Debug, Clone, Copy, PartialEq, Eq, Structural)]
pub struct SymbolHandler {
    pub tick_count: u64,
    pub last_tick_ns: u64,
    pub dropped_count: u64,
}

/// The numbers of the symbols, the subscribed symbols with their counts, and the channels.
#[verifier::ext_equal]
pub ghost struct Subscriptions {
    pub names: Seq<Seq<char>>,
    pub handlers: Seq<Option<SymbolHandler>>,
    pub channels: Seq<Option<Sender<RawTick>>>,
}

impl Subscriptions {
    /// The number of a symbol, which is the next free one where the symbol has none yet.
    pub open spec fn number(self, symbol: Seq<char>) -> int {
        if self.names.contains(symbol) {
            self.names.index_of(symbol)
        } else {
            self.names.len() as int
        }
    }

    /// After a subscription. A new symbol does not fit in where the registry is full.
    pub open spec fn subscribed(self, symbol: Seq<char>, tx: Sender<RawTick>) -> Subscriptions {
        let i = self.number(symbol);
        if i >= MAX_SYMBOLS {
            self
        } else {
            Subscriptions {
                names: if self.names.contains(symbol) {
                    self.names
                } else {
                    self.names.push(symbol)
                },
                handlers: self.handlers.update(
                    i,
                    Some(SymbolHandler { tick_count: 0, last_tick_ns: 0, dropped_count: 0 }),
                ),
                channels: self.channels.update(i, Some(tx)),
            }
        }
    }

    /// After the end of a subscription: the channel stays open for ticks on their way.
    pub open spec fn unsubscribed(self, symbol: Seq<char>) -> Subscriptions {
        if self.names.contains(symbol) {
            Subscriptions {
                handlers: self.handlers.update(self.names.index_of(symbol), None),
                ..self
            }
        } else {
            self
        }
    }

    /// After a command.
    pub open spec fn commanded(self, command: ReactorCommand) -> Subscriptions {
        match command {
            ReactorCommand::Subscribe { symbol, tx } => self.subscribed(symbol@, tx),
            ReactorCommand::Unsubscribe { symbol } => self.unsubscribed(symbol@),
            ReactorCommand::Shutdown => self,
        }
    }

    /// After commands in turn.
    pub open spec fn commanded_all(self, commands: Seq<ReactorCommand>) -> Subscriptions
        decreases commands.len(),
    {
        if commands.len() == 0 {
            self
        } else {
            self.commanded_all(commands.drop_last()).commanded(commands.last())
        }
    }
}

/// What was done with a tick. A tick that could not be handed on is in `outcome`; there is no
/// outcome where no channel takes ticks of the symbol.
#[derive(Debug)]
pub struct Dispatched {
    pub symbol_id: SymbolId,
    pub trace_id: u64,
    pub outcome: Option<SendOutcome<RawTick>>,
    /// Whether back-pressure is to be reported.
    pub report: bool,
}

/// The counts that ticks change.
pub ghost struct TickCounts {
    pub handlers: Seq<Option<SymbolHandler>>,
    pub total_ticks: u64,
    pub total_dropped: u64,
    pub dropped_intents: u64,
    pub next_trace: u64,
}

/// A handler after an attempt to send.
pub open spec fn handler_after(
    h: SymbolHandler,
    outcome: SendOutcome<RawTick>,
    now: u64,
) -> SymbolHandler {
    match outcome {
        SendOutcome::Sent => SymbolHandler {
            tick_count: crate::metrics::wrap_u64(h.tick_count, 1),
            last_tick_ns: now,
            ..h
        },
        SendOutcome::Full(_) => SymbolHandler {
            dropped_count: crate::metrics::wrap_u64(h.dropped_count, 1),
            ..h
        },
        SendOutcome::Disconnected(_) => h,
    }
}

/// Whether an attempt to send found the channel full.
pub open spec fn found_full(outcome: Option<SendOutcome<RawTick>>) -> bool {
    outcome matches Some(SendOutcome::Full(_))
}

impl TickCounts {
    /// After a tick for symbol number `id`.
    pub open spec fn after(
        self,
        id: int,
        outcome: Option<SendOutcome<RawTick>>,
        now: u64,
    ) -> TickCounts {
        let drops: u64 = if found_full(outcome) {
            1
        } else {
            0
        };
        TickCounts {
            handlers: match outcome {
                Some(o) => if 0 <= id < self.handlers.len() && self.handlers[id] is Some {
                    self.handlers.update(id, Some(handler_after(self.handlers[id]->0, o, now)))
                } else {
                    self.handlers
                },
                None => self.handlers,
            },
            total_ticks: crate::metrics::wrap_u64(self.total_ticks, 1),
            total_dropped: crate::metrics::wrap_u64(self.total_dropped, drops),
            dropped_intents: crate::metrics::wrap_u64(self.dropped_intents, drops),
            next_trace: crate::symbol_registry::wrapping_next(self.next_trace),
        }
    }

    /// After ticks in turn.
    pub open spec fn after_all(self, done: Seq<Dispatched>, now: u64) -> TickCounts
        decreases done.len(),
    {
        if done.len() == 0 {
            self
        } else {
            self.after_all(done.drop_last(), now).after(
                done.last().symbol_id.raw() as int,
                done.last().outcome,
                now,
            )
        }
    }
}

/// Whether `id` is the symbol number of a tick: the one that the tick carries, or, where that is
/// zero, the one under which its name is known.
pub open spec fn routed(names: Seq<Seq<char>>, tick: RawTick, id: SymbolId) -> bool {
    if tick.symbol_id.raw() == 0 && names.contains(tick.name()) {
        id.raw() == names.index_of(tick.name())
    } else {
        id == tick.symbol_id
    }
}

/// Whether `d` is what becomes of `tick` with the trace number `trace`.
pub open spec fn dispatched_as(
    names: Seq<Seq<char>>,
    channels: Seq<Option<Sender<RawTick>>>,
    tick: RawTick,
    trace: u64,
    d: Dispatched,
) -> bool {
    let sent = RawTick { trace_id: trace, ..tick };
    &&& routed(names, tick, d.symbol_id)
    &&& d.trace_id == trace
    &&& d.outcome is None <==> !(d.symbol_id.raw() < channels.len()
        && channels[d.symbol_id.raw() as int] is Some)
    &&& d.outcome matches Some(SendOutcome::Full(m)) ==> m == sent
    &&& d.outcome matches Some(SendOutcome::Disconnected(m)) ==> m == sent
    &&& d.outcome matches Some(o) ==> crate::channel_utils::tried(
        &channels[d.symbol_id.raw() as int]->0,
        sent,
        o,
    )
}

/// The trace number after `n` more.
pub open spec fn trace_after(trace: u64, n: nat) -> u64
    decreases n,
{
    if n == 0 {
        trace
    } else {
        crate::symbol_registry::wrapping_next(trace_after(trace, (n - 1) as nat))
    }
}

/// Whether `done` is what becomes of the ticks of `batch`, with trace numbers from `trace` on.
pub open spec fn all_dispatched_as(
    names: Seq<Seq<char>>,
    channels: Seq<Option<Sender<RawTick>>>,
    batch: Seq<RawTick>,
    trace: u64,
    done: Seq<Dispatched>,
) -> bool {
    &&& done.len() == batch.len()
    &&& forall|i: int|
        0 <= i < batch.len() ==> dispatched_as(
            names,
            channels,
            batch[i],
            trace_after(trace, i as nat),
            #[trigger] done[i],
        )
}

/// Whether `batch` holds `first` and the ticks that came out of `rx` after it, without waiting: as
/// many as there were, up to `max`, and one in any case where there was one.
pub open spec fn batch_taken(
    rx: &Receiver<RawTick>,
    max: usize,
    first: RawTick,
    batch: Seq<RawTick>,
) -> bool {
    &&& batch.len() >= 1
    &&& batch[0] == first
    &&& batch.len() <= 2 || batch.len() <= max
    &&& forall|i: int|
        1 <= i < batch.len() ==> crate::channel_utils::took(rx, Some(#[trigger] batch[i]))
    &&& batch.len() < 2 || batch.len() < max ==> crate::channel_utils::took(rx, None)
}

/// Whether `commands` are those that came out of `rx` without waiting: as many as there were, up to
/// `max`, and none after a shutdown.
pub open spec fn commands_taken(
    rx: &Receiver<ReactorCommand>,
    max: usize,
    commands: Seq<ReactorCommand>,
) -> bool {
    &&& commands.len() <= max
    &&& forall|i: int|
        0 <= i < commands.len() ==> crate::channel_utils::took(rx, Some(#[trigger] commands[i]))
    &&& forall|i: int| 0 <= i < commands.len() - 1 ==> !((#[trigger] commands[i]) is Shutdown)
    &&& commands.len() == max || (commands.len() > 0 && commands.last() is Shutdown)
        || crate::channel_utils::took(rx, None)
}

/// What a batch of ticks came to, and when.
#[derive(Debug)]
pub struct BatchReport {
    pub now: u64,
    pub done: Vec<Dispatched>,
}

/// Hands each tick to the channel of its symbol.
pub struct TickReactor {
    pub tick_rx: Receiver<RawTick>,
    pub control_rx: Receiver<ReactorCommand>,
    pub control_tx: Sender<ReactorCommand>,
    pub handlers: SymbolIdArray<SymbolHandler>,
    pub registry: SymbolRegistry,
    pub handler_array: SymbolIdArray<Sender<RawTick>>,
    pub running: bool,
    pub total_ticks: u64,
    pub total_dropped: u64,
    pub max_batch_size: usize,
    pub control_batch_size: usize,
    pub sleep_on_empty_us: u64,
    pub backpressure_log_interval: u64,
}

impl View for TickReactor {
    type V = Subscriptions;

    open spec fn view(&self) -> Subscriptions {
        Subscriptions {
            names: self.registry@,
            handlers: self.handlers@,
            channels: self.handler_array@,
        }
    }
}

/// The counts of a reactor, with the counts that it shares with others.
pub open spec fn counts(r: TickReactor, metrics: GlobalMetrics, ids: IdCounters) -> TickCounts {
    TickCounts {
        handlers: r.handlers@,
        total_ticks: r.total_ticks,
        total_dropped: r.total_dropped,
        dropped_intents: metrics.dropped_intents@,
        next_trace: ids.upcoming().2,
    }
}

/// Whether nothing but the counts differs.
pub open spec fn only_counts_differ(a: TickReactor, b: TickReactor) -> bool {
    b == (TickReactor {
        handlers: b.handlers,
        total_ticks: b.total_ticks,
        total_dropped: b.total_dropped,
        ..a
    })
}

/// Whether only the drops of `metrics` and the trace numbers of `ids` differ.
pub open spec fn only_shared_counts_differ(
    m: GlobalMetrics,
    n: GlobalMetrics,
    ids: IdCounters,
    jds: IdCounters,
) -> bool {
    &&& n == (GlobalMetrics { dropped_intents: n.dropped_intents, ..m })
    &&& ids.upcoming().0 == jds.upcoming().0
    &&& ids.upcoming().1 == jds.upcoming().1
}

/// The counts of the subscribed symbols, by number: ticks handed on, and ticks dropped.
pub open spec fn stats(handlers: Seq<Option<SymbolHandler>>) -> Seq<(int, (u64, u64))>
    decreases handlers.len(),
{
    if handlers.len() == 0 {
        Seq::empty()
    } else {
        let front = stats(handlers.drop_last());
        match handlers.last() {
            Some(h) => front.push((handlers.len() - 1, (h.tick_count, h.dropped_count))),
            None => front,
        }
    }
}

/// Statistics over plain numbers.
pub open spec fn plain_stats(v: Seq<(SymbolId, (u64, u64))>) -> Seq<(int, (u64, u64))> {
    v.map_values(|e: (SymbolId, (u64, u64))| (e.0.raw() as int, e.1))
}

/// The names of the subscribed symbols, by number.
pub open spec fn active_names(
    names: Seq<Seq<char>>,
    handlers: Seq<Option<SymbolHandler>>,
    n: nat,
) -> Seq<Seq<char>>
    decreases n,
{
    if n == 0 {
        Seq::empty()
    } else {
        let front = active_names(names, handlers, (n - 1) as nat);
        if handlers[n - 1] is Some {
            front.push(names[n - 1])
        } else {
            front
        }
    }
}

impl TickReactor {
    /// The tables have a place for each symbol, and only known symbols have one that is taken.
    pub open spec fn wf(&self) -> bool {
        &&& self.registry.wf()
        &&& self@.names.no_duplicates()
        &&& self@.handlers.len() == MAX_SYMBOLS
        &&& self@.channels.len() == MAX_SYMBOLS
        &&& forall|i: int|
            self@.names.len() <= i < MAX_SYMBOLS ==> (#[trigger] self@.handlers[i]) is None
        &&& forall|i: int|
            self@.names.len() <= i < MAX_SYMBOLS ==> (#[trigger] self@.channels[i]) is None
    }

    /// A reactor for the ticks of `tick_rx`, and an end of the channel of its commands.
    pub fn new(
        tick_rx: Receiver<RawTick>,
        max_batch_size: usize,
        control_batch_size: usize,
        sleep_on_empty_us: u64,
        backpressure_log_interval: u64,
    ) -> (r: (Self, Sender<ReactorCommand>))
        ensures
            r.0.wf(),
            r.0.tick_rx == tick_rx,
            r.0@.names == Seq::<Seq<char>>::empty(),
            r.0@.handlers == Seq::new(MAX_SYMBOLS as nat, |i: int| None::<SymbolHandler>),
            r.0@.channels == Seq::new(MAX_SYMBOLS as nat, |i: int| None::<Sender<RawTick>>),
            r.0.running,
            r.0.total_ticks == 0,
            r.0.total_dropped == 0,
            r.0.max_batch_size == max_batch_size,
            r.0.control_batch_size == control_batch_size,
            r.0.sleep_on_empty_us == sleep_on_empty_us,
            r.0.backpressure_log_interval == backpressure_log_interval,
            crate::channel_utils::opened(256, r.0.control_tx, r.0.control_rx),
            cloned(r.0.control_tx, r.1),
    {
        let (control_tx, control_rx) = bounded_channel::<ReactorCommand>(256);
        proof {
            crate::channel_utils::lemma_opened(256, control_tx, control_rx);
        }
        let outer = control_tx.clone();
        let reactor = TickReactor {
            tick_rx,
            control_rx,
            control_tx,
            handlers: SymbolIdArray::new(),
            registry: SymbolRegistry::new(),
            handler_array: SymbolIdArray::new(),
            running: true,
            total_ticks: 0,
            total_dropped: 0,
            max_batch_size,
            control_batch_size,
            sleep_on_empty_us,
            backpressure_log_interval,
        };
        (reactor, outer)
    }

    /// Hands the ticks of `symbol` to `tx` from now on.
    pub fn subscribe(&mut self, symbol: String, tx: Sender<RawTick>)
        requires
            old(self).wf(),
        ensures
            final(self).wf(),
            final(self)@ == old(self)@.subscribed(symbol@, tx),
            *final(self) == (TickReactor {
                handlers: final(self).handlers,
                registry: final(self).registry,
                handler_array: final(self).handler_array,
                ..*old(self)
            }),
    {
        let ghost before = self@;
        match self.registry.register(symbol.as_str()) {
            Some(id) => {
                proof {
                    let i = id.raw() as int;
                    if before.names.contains(symbol@) {
                        assert(before.names[before.names.index_of(symbol@)] == symbol@);
                        assert(i == before.names.index_of(symbol@));
                    } else {
                        assert(i == before.names.len()) by {
                            if i < before.names.len() {
                                assert(before.names[i] == symbol@);
                            }
                        }
                    }
                }
                self.handler_array.set(id, tx);
                self.handlers.set(
                    id,
                    SymbolHandler { tick_count: 0, last_tick_ns: 0, dropped_count: 0 },
                );
            },
            None => {},
        }
    }

    /// Ends the subscription of `symbol`: its counts are gone and it is listed no more. The channel
    /// stays, so ticks of the symbol still go out through it.
    pub fn unsubscribe(&mut self, symbol: &str)
        requires
            old(self).wf(),
        ensures
            final(self).wf(),
            final(self)@ == old(self)@.unsubscribed(symbol@),
            *final(self) == (TickReactor { handlers: final(self).handlers, ..*old(self) }),
    {
        match self.registry.lookup(symbol) {
            Some(id) => {
                let ghost before = self@;
                let _ = self.handlers.remove(id);
                proof {
                    assert(before.names[id.raw() as int] == symbol@);
                    assert(before.names.contains(symbol@));
                    assert(before.names[before.names.index_of(symbol@)] == symbol@);
                    assert(id.raw() == before.names.index_of(symbol@));
                }
            },
            None => {},
        }
    }

    /// Whether the reactor goes on.
    pub fn goes_on(&self, kill_switch_active: bool) -> (r: bool)
        ensures
            r == (self.running && !kill_switch_active),
    {
        self.running && !kill_switch_active
    }

    /// Obeys a command. The result is whether more commands are to be taken.
    pub fn obey(&mut self, command: ReactorCommand) -> (more: bool)
        requires
            old(self).wf(),
        ensures
            final(self).wf(),
            final(self)@ == old(self)@.commanded(command),
            more == !(command is Shutdown),
            *final(self) == (TickReactor {
                handlers: final(self).handlers,
                registry: final(self).registry,
                handler_array: final(self).handler_array,
                running: old(self).running && more,
                ..*old(self)
            }),
    {
        match command {
            ReactorCommand::Subscribe { symbol, tx } => {
                self.subscribe(symbol, tx);
                true
            },
            ReactorCommand::Unsubscribe { symbol } => {
                self.unsubscribe(symbol.as_str());
                true
            },
            ReactorCommand::Shutdown => {
                self.running = false;
                false
            },
        }
    }

    /// Obeys the commands that are waiting, up to a number of them, and none after a shutdown.
    pub fn process_control_batch(&mut self)
        requires
            old(self).wf(),
        ensures
            final(self).wf(),
            exists|commands: Seq<ReactorCommand>|
                {
                    &&& commands_taken(
                        &old(self).control_rx,
                        old(self).control_batch_size,
                        commands,
                    )
                    &&& final(self)@ == #[trigger] old(self)@.commanded_all(commands)
                    &&& final(self).running == (old(self).running && !commands.contains(
                        ReactorCommand::Shutdown,
                    ))
                },
            *final(self) == (TickReactor {
                handlers: final(self).handlers,
                registry: final(self).registry,
                handler_array: final(self).handler_array,
                running: final(self).running,
                ..*old(self)
            }),
    {
        let ghost mut commands: Seq<ReactorCommand> = Seq::empty();
        let mut i: usize = 0;
        let mut more = true;
        assert(old(self)@.commanded_all(commands) == self@);
        while more && i < self.control_batch_size
            invariant
                self.wf(),
                i <= self.control_batch_size,
                commands.len() <= i,
                more ==> commands.len() == i,
                !more ==> (commands.len() > 0 && commands.last() is Shutdown)
                    || crate::channel_utils::took(&old(self).control_rx, None),
                forall|j: int|
                    0 <= j < commands.len() ==> crate::channel_utils::took(
                        &old(self).control_rx,
                        Some(#[trigger] commands[j]),
                    ),
                self@ == old(self)@.commanded_all(commands),
                self.running == (old(self).running && !commands.contains(ReactorCommand::Shutdown)),
                forall|j: int|
                    0 <= j < commands.len() - 1 ==> !((#[trigger] commands[j]) is Shutdown),
                more ==> forall|j: int|
                    0 <= j < commands.len() ==> !((#[trigger] commands[j]) is Shutdown),
                *self == (TickReactor {
                    handlers: self.handlers,
                    registry: self.registry,
                    handler_array: self.handler_array,
                    running: self.running,
                    ..*old(self)
                }),
            decreases self.control_batch_size - i,
        {
            i += 1;
            let next = try_recv(&self.control_rx);
            proof {
                crate::channel_utils::lemma_took(&self.control_rx, next);
            }
            match next {
                Some(command) => {
                    let ghost before = commands;
                    proof {
                        commands = commands.push(command);
                        assert(commands.drop_last() =~= before);
                    }
                    more = self.obey(command);
                    proof {
                        if command is Shutdown {
                            assert(commands[commands.len() - 1] == ReactorCommand::Shutdown);
                        }
                        assert forall|c: ReactorCommand| commands.contains(c) implies
                            before.contains(c) || c == command by {
                            let k = choose|k: int| 0 <= k < commands.len() && commands[k] == c;
                            if k < before.len() {
                                assert(before[k] == c);
                            }
                        }
                        assert forall|c: ReactorCommand| before.contains(c) implies
                            commands.contains(c) by {
                            let k = choose|k: int| 0 <= k < before.len() && before[k] == c;
                            assert(commands[k] == c);
                        }
                    }
                },
                None => {
                    more = false;
                },
            }
        }
        assert(commands_taken(&old(self).control_rx, old(self).control_batch_size, commands));
    }

    /// The symbol number of a tick.
    pub fn route(&self, tick: &RawTick) -> (id: SymbolId)
        requires
            self.wf(),
        ensures
            routed(self@.names, *tick, id),
    {
        if tick.symbol_id.as_u16() == 0 {
            match self.registry.lookup(tick.name_text()) {
                Some(id) => {
                    proof {
                        let names = self@.names;
                        assert(names[id.raw() as int] == tick.name());
                        assert(names.contains(tick.name()));
                        assert(names[names.index_of(tick.name())] == tick.name());
                    }
                    id
                },
                None => tick.symbol_id,
            }
        } else {
            tick.symbol_id
        }
    }

    /// Counts what came of a tick for `id`. The result is whether back-pressure is to be reported.
    pub fn settle(
        &mut self,
        id: SymbolId,
        outcome: &Option<SendOutcome<RawTick>>,
        now: u64,
        metrics: &mut GlobalMetrics,
        ids: &mut IdCounters,
    ) -> (report: bool)
        requires
            old(self).wf(),
            found_full(*outcome) && id.raw() < MAX_SYMBOLS && old(self)@.handlers[id.raw() as int] is Some
                ==> old(self).backpressure_log_interval > 0,
        ensures
            final(self).wf(),
            counts(*final(self), *final(metrics), *final(ids)) == counts(
                *old(self),
                *old(metrics),
                *old(ids),
            ).after(id.raw() as int, *outcome, now),
            only_counts_differ(*old(self), *final(self)),
            only_shared_counts_differ(*old(metrics), *final(metrics), *old(ids), *final(ids)),
            report == {
                &&& found_full(*outcome)
                &&& id.raw() < MAX_SYMBOLS
                &&& final(self)@.handlers[id.raw() as int] matches Some(h)
                &&& h.dropped_count % old(self).backpressure_log_interval == 0
            },
    {
        let _ = next_trace_id(ids);
        self.total_ticks = self.total_ticks.wrapping_add(1);
        let mut report = false;
        match outcome {
            Some(o) => {
                let full = matches!(o, SendOutcome::Full(_));
                if full {
                    self.total_dropped = self.total_dropped.wrapping_add(1);
                    metrics.dropped_intents.fetch_add(1);
                }
                let found: Option<SymbolHandler> = match self.handlers.get(id) {
                    Some(h) => Some(*h),
                    None => None,
                };
                match found {
                    Some(h) => {
                        let mut h = h;
                        match o {
                            SendOutcome::Sent => {
                                h.tick_count = h.tick_count.wrapping_add(1);
                                h.last_tick_ns = now;
                            },
                            SendOutcome::Full(_) => {
                                h.dropped_count = h.dropped_count.wrapping_add(1);
                                report = h.dropped_count % self.backpressure_log_interval == 0;
                            },
                            SendOutcome::Disconnected(_) => {},
                        }
                        self.handlers.set(id, h);
                    },
                    None => {},
                }
            },
            None => {},
        }
        assert(self.handlers@ =~= counts(*old(self), *old(metrics), *old(ids)).after(
            id.raw() as int,
            *outcome,
            now,
        ).handlers);
        report
    }

    /// Hands a tick to the channel of its symbol, under a fresh trace number.
    pub fn dispatch(
        &mut self,
        tick: RawTick,
        now: u64,
        metrics: &mut GlobalMetrics,
        ids: &mut IdCounters,
    ) -> (d: Dispatched)
        requires
            old(self).wf(),
            old(self).backpressure_log_interval > 0,
        ensures
            final(self).wf(),
            dispatched_as(
                old(self)@.names,
                old(self)@.channels,
                tick,
                old(ids).upcoming().2,
                d,
            ),
            counts(*final(self), *final(metrics), *final(ids)) == counts(
                *old(self),
                *old(metrics),
                *old(ids),
            ).after(d.symbol_id.raw() as int, d.outcome, now),
            only_counts_differ(*old(self), *final(self)),
            only_shared_counts_differ(*old(metrics), *final(metrics), *old(ids), *final(ids)),
            d.report == {
                &&& found_full(d.outcome)
                &&& d.symbol_id.raw() < MAX_SYMBOLS
                &&& final(self)@.handlers[d.symbol_id.raw() as int] matches Some(h)
                &&& h.dropped_count % old(self).backpressure_log_interval == 0
            },
    {
        let symbol_id = self.route(&tick);
        let trace_id: u64 = ids.next_trace();
        let outcome: Option<SendOutcome<RawTick>> = match self.handler_array.get(symbol_id) {
            Some(tx) => {
                let mut tick = tick;
                tick.trace_id = trace_id;
                let o = try_send(tx, tick);
                proof {
                    crate::channel_utils::lemma_tried(tx, tick, o);
                }
                Some(o)
            },
            None => None,
        };
        let report = self.settle(symbol_id, &outcome, now, metrics, ids);
        Dispatched { symbol_id, trace_id, outcome, report }
    }

    /// Hands ticks to the channels of their symbols, in turn.
    pub fn dispatch_batch(
        &mut self,
        batch: Vec<RawTick>,
        now: u64,
        metrics: &mut GlobalMetrics,
        ids: &mut IdCounters,
    ) -> (done: Vec<Dispatched>)
        requires
            old(self).wf(),
            old(self).backpressure_log_interval > 0,
        ensures
            final(self).wf(),
            all_dispatched_as(
                old(self)@.names,
                old(self)@.channels,
                batch@,
                old(ids).upcoming().2,
                done@,
            ),
            counts(*final(self), *final(metrics), *final(ids)) == counts(
                *old(self),
                *old(metrics),
                *old(ids),
            ).after_all(done@, now),
            only_counts_differ(*old(self), *final(self)),
            only_shared_counts_differ(*old(metrics), *final(metrics), *old(ids), *final(ids)),
    {
        let mut done: Vec<Dispatched> = Vec::new();
        let ghost start = counts(*self, *metrics, *ids);
        for tick in it: batch
            invariant
                self.wf(),
                self.backpressure_log_interval > 0,
                it.seq() == batch@,
                done@.len() == it.index(),
                start == counts(*old(self), *old(metrics), *old(ids)),
                forall|i: int|
                    0 <= i < it.index() ==> dispatched_as(
                        old(self)@.names,
                        old(self)@.channels,
                        batch@[i],
                        trace_after(old(ids).upcoming().2, i as nat),
                        #[trigger] done@[i],
                    ),
                ids.upcoming().2 == trace_after(old(ids).upcoming().2, it.index() as nat),
                counts(*self, *metrics, *ids) == start.after_all(done@, now),
                only_counts_differ(*old(self), *self),
                only_shared_counts_differ(*old(metrics), *metrics, *old(ids), *ids),
        {
            let ghost before = done@;
            let d = self.dispatch(tick, now, metrics, ids);
            done.push(d);
            assert(done@.drop_last() =~= before);
        }
        done
    }

    /// Takes the ticks that follow `first`, each behind the one before it, as many as a batch takes.
    fn fill_batch(&self, first: RawTick) -> (batch: Vec<RawTick>)
        ensures
            batch_taken(&self.tick_rx, self.max_batch_size, first, batch@),
    {
        let mut batch: Vec<RawTick> = Vec::new();
        batch.push(first);
        let mut more = true;
        while more
            invariant
                batch@.len() >= 1,
                batch@[0] == first,
                batch@.len() <= 2 || batch@.len() <= self.max_batch_size,
                more ==> batch@.len() == 1 || batch@.len() < self.max_batch_size,
                forall|i: int|
                    1 <= i < batch@.len() ==> crate::channel_utils::took(
                        &self.tick_rx,
                        Some(#[trigger] batch@[i]),
                    ),
                !more ==> (batch@.len() >= 2 && batch@.len() >= self.max_batch_size)
                    || crate::channel_utils::took(&self.tick_rx, None),
            decreases (if self.max_batch_size > batch@.len() {
                self.max_batch_size - batch@.len()
            } else {
                0
            }), (if more {
                1int
            } else {
                0
            }),
        {
            let next = try_recv(&self.tick_rx);
            proof {
                crate::channel_utils::lemma_took(&self.tick_rx, next);
            }
            more = take_in(&mut batch, next) && batch.len() < self.max_batch_size;
        }
        batch
    }

    /// Whether `after`, `n`, `jds` and `r` follow where `got` came in: nothing happened where no
    /// tick came, else that tick and those that followed it were handed on.
    pub open spec fn batch_processed(
        &self,
        m: GlobalMetrics,
        ids: IdCounters,
        got: Option<RawTick>,
        after: &Self,
        n: GlobalMetrics,
        jds: IdCounters,
        r: Option<BatchReport>,
    ) -> bool {
        match got {
            None => r is None && *after == *self && n == m && jds == ids,
            Some(first) => {
                &&& r matches Some(b)
                &&& crate::clock::epoch_read(b.now)
                &&& counts(*after, n, jds) == counts(*self, m, ids).after_all(b.done@, b.now)
                &&& only_counts_differ(*self, *after)
                &&& only_shared_counts_differ(m, n, ids, jds)
                &&& exists|batch: Seq<RawTick>|
                    {
                        &&& #[trigger] all_dispatched_as(
                            self@.names,
                            self@.channels,
                            batch,
                            ids.upcoming().2,
                            b.done@,
                        )
                        &&& batch_taken(&self.tick_rx, self.max_batch_size, first, batch)
                    }
            },
        }
    }

    /// Takes the ticks that follow the one that came in, and hands all to the channels of their
    /// symbols. There is no report where no tick came.
    pub fn process_received(
        &mut self,
        got: Option<RawTick>,
        metrics: &mut GlobalMetrics,
        ids: &mut IdCounters,
    ) -> (r: Option<BatchReport>)
        requires
            old(self).wf(),
            old(self).backpressure_log_interval > 0,
        ensures
            final(self).wf(),
            old(self).batch_processed(
                *old(metrics),
                *old(ids),
                got,
                final(self),
                *final(metrics),
                *final(ids),
                r,
            ),
    {
        match got {
            Some(first) => {
                let batch = self.fill_batch(first);
                let ghost ticks = batch@;
                let now: u64 = wall_time_ns();
                let done = self.dispatch_batch(batch, now, metrics, ids);
                assert(all_dispatched_as(
                    old(self)@.names,
                    old(self)@.channels,
                    ticks,
                    old(ids).upcoming().2,
                    done@,
                ));
                Some(BatchReport { now, done })
            },
            None => None,
        }
    }

    /// Waits for a tick for a short time, takes those that follow it, and hands all to the channels
    /// of their symbols. There is no report where no tick came.
    pub fn process_tick_batch(
        &mut self,
        metrics: &mut GlobalMetrics,
        ids: &mut IdCounters,
    ) -> (r: Option<BatchReport>)
        requires
            old(self).wf(),
            old(self).backpressure_log_interval > 0,
        ensures
            final(self).wf(),
            exists|got: Option<RawTick>|
                {
                    &&& #[trigger] crate::channel_utils::waited(
                        &old(self).tick_rx,
                        old(self).sleep_on_empty_us,
                        got,
                    )
                    &&& old(self).batch_processed(
                        *old(metrics),
                        *old(ids),
                        got,
                        final(self),
                        *final(metrics),
                        *final(ids),
                        r,
                    )
                },
    {
        let got = recv_within(&self.tick_rx, self.sleep_on_empty_us);
        proof {
            crate::channel_utils::lemma_waited(&self.tick_rx, self.sleep_on_empty_us, got);
        }
        self.process_received(got, metrics, ids)
    }

    /// The counts of the subscribed symbols: ticks handed on, and ticks dropped.
    pub fn get_handler_stats(&self) -> (out: Vec<(SymbolId, (u64, u64))>)
        requires
            self.wf(),
        ensures
            plain_stats(out@) == stats(self@.handlers),
    {
        let mut out: Vec<(SymbolId, (u64, u64))> = Vec::new();
        let mut i: usize = 0;
        let ghost all = self@.handlers;
        assert(plain_stats(out@) =~= stats(all.take(0)));
        while i < MAX_SYMBOLS
            invariant
                self.wf(),
                i <= MAX_SYMBOLS,
                all == self@.handlers,
                plain_stats(out@) == stats(all.take(i as int)),
            decreases MAX_SYMBOLS - i,
        {
            let id = SymbolId::from_raw(i as u16);
            let ghost before = out@;
            assert(all.take(i + 1).drop_last() =~= all.take(i as int));
            match self.handlers.get(id) {
                Some(h) => {
                    out.push((id, (h.tick_count, h.dropped_count)));
                    assert(plain_stats(out@) =~= plain_stats(before).push(
                        (i as int, (h.tick_count, h.dropped_count)),
                    ));
                },
                None => {},
            }
            i += 1;
        }
        assert(all.take(MAX_SYMBOLS as int) =~= all);
        out
    }

    /// The subscribed symbols.
    pub fn subscribed_symbols(&self) -> (out: Vec<String>)
        requires
            self.wf(),
        ensures
            crate::text::views(out@) == active_names(
                self@.names,
                self@.handlers,
                self@.names.len(),
            ),
    {
        broadcast use crate::text::lemma_views_push;

        let mut out: Vec<String> = Vec::new();
        let n: usize = self.registry.count();
        let mut i: usize = 0;
        assert(crate::text::views(out@) =~= Seq::<Seq<char>>::empty());
        while i < n
            invariant
                self.wf(),
                n == self@.names.len(),
                n <= MAX_SYMBOLS,
                i <= n,
                crate::text::views(out@) == active_names(self@.names, self@.handlers, i as nat),
            decreases n - i,
        {
            let id = SymbolId::from_raw(i as u16);
            if self.handlers.get(id).is_some() {
                match self.registry.get_symbol(id) {
                    Some(s) => {
                        out.push(s.to_owned());
                    },
                    None => {},
                }
            }
            i += 1;
        }
        out
    }

    /// An end of the channel of the commands.
    pub fn control_tx(&self) -> (tx: Sender<ReactorCommand>)
        ensures
            cloned(self.control_tx, tx),
    {
        self.control_tx.clone()
    }

    pub fn total_ticks(&self) -> (n: u64)
        ensures
            n == self.total_ticks,
    {
        self.total_ticks
    }

    pub fn total_dropped(&self) -> (n: u64)
        ensures
            n == self.total_dropped,
    {
        self.total_dropped
    }

    /// The number of a symbol.
    pub fn symbol_id(&self, symbol: &str) -> (r: Option<SymbolId>)
        requires
            self.wf(),
        ensures
            match r {
                Some(id) => id.raw() < self@.names.len() && self@.names[id.raw() as int] == symbol@,
                None => !self@.names.contains(symbol@),
            },
    {
        self.registry.lookup(symbol)
    }
}

/// How many of the ticks were dropped.
pub open spec fn full_count(done: Seq<Dispatched>) -> nat
    decreases done.len(),
{
    if done.len() == 0 {
        0
    } else {
        full_count(done.drop_last()) + if found_full(done.last().outcome) {
            1nat
        } else {
            0nat
        }
    }
}

proof fn lemma_trace_after(trace: u64, n: nat)
    ensures
        trace_after(trace, n) == (trace + n) % 0x1_0000_0000_0000_0000,
    decreases n,
{
    if n > 0 {
        lemma_trace_after(trace, (n - 1) as nat);
    }
}

/// Ticks get trace identifiers that differ, up to the number of identifiers that there are.
pub proof fn law_traces_differ(trace: u64, i: nat, j: nat)
    requires
        i < j,
        j - i <= u64::MAX,
    ensures
        trace_after(trace, i) != trace_after(trace, j),
{
    lemma_trace_after(trace, i);
    lemma_trace_after(trace, j);
    let size: int = 0x1_0000_0000_0000_0000;
    if trace_after(trace, i) == trace_after(trace, j) {
        vstd::arithmetic::div_mod::lemma_mod_equivalence(trace + j, trace + i, size);
        vstd::arithmetic::div_mod::lemma_small_mod((j - i) as nat, size as nat);
        assert(false);
    }
}

/// Every tick is counted once, and the dropped ones are those that found a channel full, as long
/// as the counts fit.
pub proof fn law_ticks_are_counted(c: TickCounts, done: Seq<Dispatched>, now: u64)
    requires
        c.total_ticks + done.len() <= u64::MAX,
        c.total_dropped + done.len() <= u64::MAX,
    ensures
        full_count(done) <= done.len(),
        c.after_all(done, now).total_ticks == c.total_ticks + done.len(),
        c.after_all(done, now).total_dropped == c.total_dropped + full_count(done),
    decreases done.len(),
{
    if done.len() > 0 {
        law_ticks_are_counted(c, done.drop_last(), now);
    }
}

/// A symbol that was subscribed and then unsubscribed is not subscribed, and the other symbols are
/// as they were before.
pub proof fn law_unsubscribe_ends_subscription(
    s: Subscriptions,
    symbol: Seq<char>,
    tx: Sender<RawTick>,
)
    requires
        s.names.no_duplicates(),
        s.handlers.len() == MAX_SYMBOLS,
        s.number(symbol) < MAX_SYMBOLS,
    ensures
        s.subscribed(symbol, tx).unsubscribed(symbol).handlers == s.handlers.update(
            s.number(symbol),
            None,
        ),
{
    let after = s.subscribed(symbol, tx);
    let i = s.number(symbol);
    if s.names.contains(symbol) {
        assert(s.names[s.names.index_of(symbol)] == symbol);
    } else {
        assert(after.names[i] == symbol);
        assert(after.names.contains(symbol));
        let j = after.names.index_of(symbol);
        assert(after.names[j] == symbol);
        if j < i {
            assert(s.names[j] == symbol);
        }
    }
    assert(after.unsubscribed(symbol).handlers =~= s.handlers.update(i, None));
}

/// A tick without a number of its own is tried on the channel of the symbol that it names, and on
/// no other: the symbol at place `k` of the list has channel `k`. The long name counts where there
/// is one.
pub proof fn law_tick_goes_to_the_symbol_it_names(
    names: Seq<Seq<char>>,
    channels: Seq<Option<Sender<RawTick>>>,
    tick: RawTick,
    trace: u64,
    d: Dispatched,
    k: int,
)
    requires
        names.no_duplicates(),
        0 <= k < names.len(),
        tick.symbol_id.raw() == 0,
        names[k] == (if tick.symbol_name is Some && tick.symbol_name->0@.len() > 0 {
            tick.symbol_name->0@
        } else {
            tick.symbol@
        }),
        dispatched_as(names, channels, tick, trace, d),
    ensures
        d.symbol_id.raw() == k,
        k < channels.len() && channels[k] is Some ==> d.outcome is Some
            && crate::channel_utils::tried(
            &channels[k]->0,
            (RawTick { trace_id: trace, ..tick }),
            d.outcome->0,
        ),
        !(k < channels.len() && channels[k] is Some) ==> d.outcome is None,
{
    assert(names.contains(tick.name()));
    let i = names.index_of(tick.name());
    assert(names[i] == tick.name());
    assert(i == k);
}

/// A tick with a number of its own goes to the channel of that number, whatever it is named; so
/// does one without where nobody knows its name.
pub proof fn law_tick_keeps_its_number(
    names: Seq<Seq<char>>,
    channels: Seq<Option<Sender<RawTick>>>,
    tick: RawTick,
    trace: u64,
    d: Dispatched,
)
    requires
        tick.symbol_id.raw() != 0 || (!names.contains(tick.symbol@) && (
        tick.symbol_name matches Some(n) ==> !names.contains(n@))),
        dispatched_as(names, channels, tick, trace, d),
    ensures
        d.symbol_id == tick.symbol_id,
        d.trace_id == trace,
        d.outcome is Some <==> tick.symbol_id.raw() < channels.len()
            && channels[tick.symbol_id.raw() as int] is Some,
        d.outcome is Some ==> crate::channel_utils::tried(
            &channels[tick.symbol_id.raw() as int]->0,
            (RawTick { trace_id: trace, ..tick }),
            d.outcome->0,
        ),
{
}

/// After a subscription a tick that names the symbol, and has no number of its own, is tried on the
/// subscriber's channel.
pub proof fn law_subscriber_gets_its_ticks(
    s: Subscriptions,
    symbol: Seq<char>,
    tx: Sender<RawTick>,
    tick: RawTick,
    trace: u64,
    d: Dispatched,
)
    requires
        s.names.no_duplicates(),
        s.channels.len() == MAX_SYMBOLS,
        s.names.len() < MAX_SYMBOLS || s.names.contains(symbol),
        s.names.len() <= MAX_SYMBOLS,
        tick.symbol_id.raw() == 0,
        tick.symbol_name is None || tick.symbol_name->0@ == symbol,
        tick.symbol@ == symbol,
        dispatched_as(
            s.subscribed(symbol, tx).names,
            s.subscribed(symbol, tx).channels,
            tick,
            trace,
            d,
        ),
    ensures
        d.outcome is Some,
        crate::channel_utils::tried(
            &tx,
            (RawTick { trace_id: trace, ..tick }),
            d.outcome->0,
        ),
{
    let after = s.subscribed(symbol, tx);
    let k = s.number(symbol);
    if s.names.contains(symbol) {
        assert(s.names[s.names.index_of(symbol)] == symbol);
    } else {
        assert(after.names[k] == symbol);
        assert forall|i: int, j: int|
            0 <= i < after.names.len() && 0 <= j < after.names.len() && i != j implies after.names[i]
            != after.names[j] by {
            if i < s.names.len() {
                assert(s.names.contains(s.names[i]));
            }
            if j < s.names.len() {
                assert(s.names.contains(s.names[j]));
            }
        }
    }
    assert(after.names.no_duplicates());
    law_tick_goes_to_the_symbol_it_names(after.names, after.channels, tick, trace, d, k);
}

/// A subscription starts the counts of its symbol at zero and changes nothing of the others: they
/// keep their names, their numbers, their counts and their channels.
pub proof fn law_subscription_leaves_the_others(
    s: Subscriptions,
    symbol: Seq<char>,
    tx: Sender<RawTick>,
    j: int,
)
    requires
        s.handlers.len() == MAX_SYMBOLS,
        s.channels.len() == MAX_SYMBOLS,
        s.names.len() <= MAX_SYMBOLS,
        0 <= j < s.names.len(),
    ensures
        ({
            let after = s.subscribed(symbol, tx);
            &&& after.names[j] == s.names[j]
            &&& after.names.len() <= MAX_SYMBOLS
            &&& s.names.contains(symbol) ==> after.names == s.names
            &&& s.names[j] != symbol ==> after.handlers[j] == s.handlers[j] && after.channels[j]
                == s.channels[j]
            &&& s.names[j] == symbol && s.names.no_duplicates() ==> after.channels[j] == Some(tx)
                && after.handlers[j] is Some && after.handlers[j]->0.tick_count == 0
                && after.handlers[j]->0.dropped_count == 0 && after.handlers[j]->0.last_tick_ns == 0
            &&& !s.names.contains(symbol) && s.names.len() < MAX_SYMBOLS ==> {
                &&& after.names == s.names.push(symbol)
                &&& after.channels[s.names.len() as int] == Some(tx)
                &&& after.handlers[s.names.len() as int] is Some
                &&& after.handlers[s.names.len() as int]->0.tick_count == 0
                &&& after.handlers[s.names.len() as int]->0.dropped_count == 0
                &&& after.handlers[s.names.len() as int]->0.last_tick_ns == 0
            }
            &&& !s.names.contains(symbol) && s.names.len() == MAX_SYMBOLS ==> after == s
        }),
{
    if s.names.contains(symbol) {
        assert(s.names[s.names.index_of(symbol)] == symbol);
    }
}

/// The end of a subscription takes the counts of its symbol and nothing else; one of an unknown
/// symbol changes nothing.
pub proof fn law_unsubscription_leaves_the_others(s: Subscriptions, symbol: Seq<char>, j: int)
    requires
        s.names.no_duplicates(),
        s.handlers.len() == MAX_SYMBOLS,
        s.names.len() <= MAX_SYMBOLS,
        0 <= j < MAX_SYMBOLS,
    ensures
        ({
            let after = s.unsubscribed(symbol);
            &&& after.names == s.names
            &&& after.channels == s.channels
            &&& after.handlers.len() == s.handlers.len()
            &&& after.handlers[j] == (if j < s.names.len() && s.names[j] == symbol {
                None
            } else {
                s.handlers[j]
            })
        }),
{
    if s.names.contains(symbol) {
        assert(s.names[s.names.index_of(symbol)] == symbol);
    }
    if j < s.names.len() && s.names[j] == symbol {
        assert(s.names.contains(symbol));
    }
}

/// Commands are obeyed in the order in which they came, each by what it says.
pub proof fn law_commands_are_obeyed_in_turn(
    s: Subscriptions,
    commands: Seq<ReactorCommand>,
    symbol: String,
    tx: Sender<RawTick>,
)
    ensures
        s.commanded_all(Seq::empty()) == s,
        s.commanded_all(commands.push(ReactorCommand::Subscribe { symbol, tx }))
            == s.commanded_all(commands).subscribed(symbol@, tx),
        s.commanded_all(commands.push(ReactorCommand::Unsubscribe { symbol })) == s.commanded_all(
            commands,
        ).unsubscribed(symbol@),
        s.commanded_all(commands.push(ReactorCommand::Shutdown)) == s.commanded_all(commands),
{
    assert(commands.push(ReactorCommand::Subscribe { symbol, tx }).drop_last() =~= commands);
    assert(commands.push(ReactorCommand::Unsubscribe { symbol }).drop_last() =~= commands);
    assert(commands.push(ReactorCommand::Shutdown).drop_last() =~= commands);
}

/// A tick is counted for the symbol that it was tried for and for no other: as handed on where the
/// channel took it, as dropped where the channel was full, and as neither where nobody listens. In
/// each case it is one tick more for the reactor. Counts start over once they are used up.
pub proof fn law_tick_counts_for_its_symbol(
    c: TickCounts,
    id: int,
    outcome: Option<SendOutcome<RawTick>>,
    now: u64,
    j: int,
)
    requires
        0 <= id < c.handlers.len(),
        0 <= j < c.handlers.len(),
    ensures
        ({
            let after = c.after(id, outcome, now);
            let full = outcome is Some && outcome->0 is Full;
            let drop: int = if full {
                1
            } else {
                0
            };
            &&& after.handlers.len() == c.handlers.len()
            &&& j != id ==> after.handlers[j] == c.handlers[j]
            &&& c.handlers[id] is None || outcome is None ==> after.handlers[id] == c.handlers[id]
            &&& c.handlers[id] is Some && outcome is Some ==> {
                let h = c.handlers[id]->0;
                let g = after.handlers[id]->0;
                &&& after.handlers[id] is Some
                &&& g.tick_count == (h.tick_count + if outcome->0 is Sent {
                    1int
                } else {
                    0int
                }) % 0x1_0000_0000_0000_0000
                &&& g.last_tick_ns == (if outcome->0 is Sent {
                    now
                } else {
                    h.last_tick_ns
                })
                &&& g.dropped_count == (h.dropped_count + drop) % 0x1_0000_0000_0000_0000
            }
            &&& after.total_ticks == (c.total_ticks + 1) % 0x1_0000_0000_0000_0000
            &&& after.total_dropped == (c.total_dropped + drop) % 0x1_0000_0000_0000_0000
            &&& after.dropped_intents == (c.dropped_intents + drop) % 0x1_0000_0000_0000_0000
            &&& after.next_trace == (c.next_trace + 1) % 0x1_0000_0000_0000_0000
        }),
{
}

/// A reactor that is handed a tick without a number tries it on the channel of the symbol that it
/// names, under the next trace number, and counts it there: the counts of the other symbols, and
/// all channels, are as they were.
pub proof fn law_dispatch_reaches_the_symbol_named(k: int)
    ensures
        forall|
            r: &mut TickReactor,
            tick: RawTick,
            now: u64,
            m: &mut GlobalMetrics,
            ids: &mut IdCounters,
            d: Dispatched,
        |
            #![trigger call_ensures(TickReactor::dispatch, (r, tick, now, m, ids), d)]
            call_ensures(TickReactor::dispatch, (r, tick, now, m, ids), d) && r.wf() && 0 <= k
                < r.registry@.len() && tick.symbol_id.raw() == 0 && tick.symbol_name is None
                && r.registry@[k] == tick.symbol@ ==> {
                &&& d.symbol_id.raw() == k
                &&& d.trace_id == ids.upcoming().2
                &&& r.handler_array@[k] is Some ==> d.outcome is Some
                    && crate::channel_utils::tried(
                    &r.handler_array@[k]->0,
                    (RawTick { trace_id: ids.upcoming().2, ..tick }),
                    d.outcome->0,
                )
                &&& r.handler_array@[k] is None ==> d.outcome is None
                &&& final(r).handler_array@ == r.handler_array@
                &&& final(r).registry@ == r.registry@
                &&& final(r).total_ticks == (r.total_ticks + 1) % 0x1_0000_0000_0000_0000
                &&& forall|j: int|
                    0 <= j < MAX_SYMBOLS && j != k ==> final(r).handlers@[j] == r.handlers@[j]
            },
{
    assert forall|
        r: &mut TickReactor,
        tick: RawTick,
        now: u64,
        m: &mut GlobalMetrics,
        ids: &mut IdCounters,
        d: Dispatched,
    |
        #![trigger call_ensures(TickReactor::dispatch, (r, tick, now, m, ids), d)]
        call_ensures(TickReactor::dispatch, (r, tick, now, m, ids), d) && r.wf() && 0 <= k
            < r.registry@.len() && tick.symbol_id.raw() == 0 && tick.symbol_name is None
            && r.registry@[k] == tick.symbol@ implies {
        &&& d.symbol_id.raw() == k
        &&& d.trace_id == ids.upcoming().2
        &&& r.handler_array@[k] is Some ==> d.outcome is Some && crate::channel_utils::tried(
            &r.handler_array@[k]->0,
            (RawTick { trace_id: ids.upcoming().2, ..tick }),
            d.outcome->0,
        )
        &&& r.handler_array@[k] is None ==> d.outcome is None
        &&& final(r).handler_array@ == r.handler_array@
        &&& final(r).registry@ == r.registry@
        &&& final(r).total_ticks == (r.total_ticks + 1) % 0x1_0000_0000_0000_0000
        &&& forall|j: int|
            0 <= j < MAX_SYMBOLS && j != k ==> final(r).handlers@[j] == r.handlers@[j]
    } by {
        law_tick_goes_to_the_symbol_it_names(
            r@.names,
            r@.channels,
            tick,
            ids.upcoming().2,
            d,
            k,
        );
        let c = counts(*r, *m, *ids);
        let e = counts(*final(r), *final(m), *final(ids));
        assert forall|j: int| 0 <= j < MAX_SYMBOLS && j != k implies final(r).handlers@[j]
            == r.handlers@[j] by {
            law_tick_counts_for_its_symbol(c, k, d.outcome, now, j);
            assert(e.handlers[j] == c.handlers[j]);
        }
        law_tick_counts_for_its_symbol(c, k, d.outcome, now, k);
        assert(e.total_ticks == final(r).total_ticks);
    }
}

/// The statistics list each subscribed symbol once, by its number, with its own counts, and no
/// other symbol.
pub proof fn law_statistics_list_the_subscribed(handlers: Seq<Option<SymbolHandler>>, id: int)
    ensures
        stats(handlers).len() <= handlers.len(),
        forall|i: int, j: int|
            0 <= i < j < stats(handlers).len() ==> stats(handlers)[i].0 < stats(handlers)[j].0,
        forall|i: int|
            0 <= i < stats(handlers).len() ==> 0 <= (#[trigger] stats(handlers)[i]).0
                < handlers.len() && handlers[stats(handlers)[i].0] is Some
                && stats(handlers)[i].1.0 == handlers[stats(handlers)[i].0]->0.tick_count
                && stats(handlers)[i].1.1 == handlers[stats(handlers)[i].0]->0.dropped_count,
        0 <= id < handlers.len() && handlers[id] is Some ==> stats(handlers).contains(
            (id, (handlers[id]->0.tick_count, handlers[id]->0.dropped_count)),
        ),
    decreases handlers.len(),
{
    if handlers.len() > 0 {
        let front = handlers.drop_last();
        law_statistics_list_the_subscribed(front, id);
        let s = stats(handlers);
        let n = handlers.len() - 1;
        if handlers.last() is Some {
            assert(s[s.len() - 1].0 == n);
            assert(forall|i: int| 0 <= i < s.len() - 1 ==> s[i] == stats(front)[i]);
        }
        if 0 <= id < n && handlers[id] is Some {
            let e = (id, (handlers[id]->0.tick_count, handlers[id]->0.dropped_count));
            let k = choose|k: int| 0 <= k < stats(front).len() && stats(front)[k] == e;
            assert(s[k] == e);
        }
        if id == n && handlers[id] is Some {
            assert(s[s.len() - 1] == (
                id,
                (handlers[id]->0.tick_count, handlers[id]->0.dropped_count),
            ));
        }
    }
}

/// The subscribed symbols are those that have counts, each named once, where no name stands for two
/// symbols.
pub proof fn law_subscribed_are_named(
    names: Seq<Seq<char>>,
    handlers: Seq<Option<SymbolHandler>>,
    n: nat,
    name: Seq<char>,
)
    requires
        n <= names.len(),
        n <= handlers.len(),
    ensures
        active_names(names, handlers, n).contains(name) <==> exists|i: int|
            0 <= i < n && handlers[i] is Some && #[trigger] names[i] == name,
        names.no_duplicates() ==> active_names(names, handlers, n).no_duplicates(),
    decreases n,
{
    if n > 0 {
        let m = (n - 1) as nat;
        let front = active_names(names, handlers, m);
        let all = active_names(names, handlers, n);
        law_subscribed_are_named(names, handlers, m, name);
        law_subscribed_are_named(names, handlers, m, names[n - 1]);
        if handlers[n - 1] is Some {
            assert(all[all.len() - 1] == names[n - 1]);
            assert(forall|i: int| 0 <= i < front.len() ==> all[i] == front[i]);
            if all.contains(name) && name != names[n - 1] {
                let k = choose|k: int| 0 <= k < all.len() && all[k] == name;
                assert(front[k] == name);
            }
            if front.contains(name) {
                let k = choose|k: int| 0 <= k < front.len() && front[k] == name;
                assert(all[k] == name);
            }
            if name == names[n - 1] {
                assert(all.contains(name));
            }
            if names.no_duplicates() {
                assert(!front.contains(names[n - 1]));
                assert forall|i: int, j: int|
                    0 <= i < all.len() && 0 <= j < all.len() && i != j implies all[i] != all[j] by {
                    if i < front.len() {
                        assert(front.contains(front[i]));
                    }
                    if j < front.len() {
                        assert(front.contains(front[j]));
                    }
                }
            }
        }
    }
}

/// A batch starts with the tick that came first. All that follow it came out of the channel of the
/// ticks, and the batch ends only where the channel had nothing more or the batch was full.
pub proof fn law_batch_takes_what_is_there(
    rx: &Receiver<RawTick>,
    max: usize,
    first: RawTick,
    batch: Seq<RawTick>,
)
    requires
        batch_taken(rx, max, first, batch),
    ensures
        batch.len() > 0,
        batch[0] == first,
        forall|i: int|
            0 < i < batch.len() ==> crate::channel_utils::took(rx, Some(#[trigger] batch[i])),
        max >= 2 ==> batch.len() <= max,
        crate::channel_utils::took(rx, None) || (batch.len() >= max && batch.len() >= 2),
{
}

/// Every command that is taken came out of the channel of the commands, and none follows a
/// shutdown. No more are taken only where the channel had none, a shutdown came, or as many were
/// taken as are to be taken at once.
pub proof fn law_commands_are_taken_as_they_are(
    rx: &Receiver<ReactorCommand>,
    max: usize,
    commands: Seq<ReactorCommand>,
    i: int,
)
    requires
        commands_taken(rx, max, commands),
        0 <= i < commands.len(),
    ensures
        commands.len() <= max,
        crate::channel_utils::took(rx, Some(commands[i])),
        commands[i] is Shutdown ==> i == commands.len() - 1,
        commands.len() < max && !(commands.last() is Shutdown) ==> crate::channel_utils::took(
            rx,
            None,
        ),
{
}

/// Where no command is taken although some may be, the channel had none.
pub proof fn law_no_command_is_passed_over(rx: &Receiver<ReactorCommand>, max: usize)
    requires
        commands_taken(rx, max, Seq::empty()),
        max > 0,
    ensures
        crate::channel_utils::took(rx, None),
{
}

/// Nothing happens where no tick came. Where one came, it and those that followed it are reported
/// one by one, in the order in which they came, each tried on a channel of the reactor as the
/// symbol that it names asks for; the channels, the names and the settings stay as they were.
pub proof fn law_batch_is_handed_on_tick_by_tick()
    ensures
        forall|
            t: &mut TickReactor,
            got: Option<RawTick>,
            m: &mut GlobalMetrics,
            ids: &mut IdCounters,
            r: Option<BatchReport>,
        |
            #![trigger call_ensures(TickReactor::process_received, (t, got, m, ids), r)]
            call_ensures(TickReactor::process_received, (t, got, m, ids), r) ==> {
                &&& r is Some <==> got is Some
                &&& got is None ==> *final(t) == *t && *final(m) == *m && *final(ids) == *ids
                &&& final(t).registry == t.registry
                &&& final(t).handler_array == t.handler_array
                &&& final(t).running == t.running
                &&& final(t).max_batch_size == t.max_batch_size
                &&& final(t).control_batch_size == t.control_batch_size
                &&& final(t).tick_rx == t.tick_rx
                &&& final(t).control_rx == t.control_rx
                &&& final(m).ticks_processed == m.ticks_processed
                &&& final(m).orders_submitted == m.orders_submitted
                &&& final(ids).upcoming().0 == ids.upcoming().0
                &&& final(ids).upcoming().1 == ids.upcoming().1
                &&& (got matches Some(first) ==> r matches Some(b) && exists|batch: Seq<RawTick>|
                    {
                        &&& batch.len() == b.done@.len()
                        &&& batch[0] == first
                        &&& forall|i: int|
                            0 <= i < batch.len() ==> #[trigger] dispatched_as(
                                t@.names,
                                t@.channels,
                                batch[i],
                                trace_after(ids.upcoming().2, i as nat),
                                b.done@[i],
                            )
                        &&& #[trigger] batch_taken(&t.tick_rx, t.max_batch_size, first, batch)
                    })
            },
{
    assert forall|
        t: &mut TickReactor,
        got: Option<RawTick>,
        m: &mut GlobalMetrics,
        ids: &mut IdCounters,
        r: Option<BatchReport>,
    |
        #![trigger call_ensures(TickReactor::process_received, (t, got, m, ids), r)]
        call_ensures(TickReactor::process_received, (t, got, m, ids), r) && got is Some implies (
    got matches Some(first) ==> r matches Some(b) && exists|batch: Seq<RawTick>|
        {
            &&& batch.len() == b.done@.len()
            &&& batch[0] == first
            &&& forall|i: int|
                0 <= i < batch.len() ==> #[trigger] dispatched_as(
                    t@.names,
                    t@.channels,
                    batch[i],
                    trace_after(ids.upcoming().2, i as nat),
                    b.done@[i],
                )
            &&& #[trigger] batch_taken(&t.tick_rx, t.max_batch_size, first, batch)
        }) by {
        let first = got->0;
        let b = r->0;
        let batch = choose|batch: Seq<RawTick>|
            {
                &&& #[trigger] all_dispatched_as(
                    t@.names,
                    t@.channels,
                    batch,
                    ids.upcoming().2,
                    b.done@,
                )
                &&& batch_taken(&t.tick_rx, t.max_batch_size, first, batch)
            };
        assert(batch_taken(&t.tick_rx, t.max_batch_size, first, batch));
        assert forall|i: int| 0 <= i < batch.len() implies #[trigger] dispatched_as(
            t@.names,
            t@.channels,
            batch[i],
            trace_after(ids.upcoming().2, i as nat),
            b.done@[i],
        ) by {
            assert(b.done@[i] == b.done@[i]);
        }
    }
}

} // verus!
