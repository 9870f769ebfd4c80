use vstd::prelude::*;

use crate::context::AppContext;
use crate::context::RenderContext;
use crate::events::Event;
use crate::events::RawHostEvent;
use crate::events::RawPadEvent;
use crate::events::normalize_host;
use crate::events::spec_normalize_host;
use crate::game::Error;
use crate::game::Game;
use crate::game::Options;
use crate::input::Axis;
use crate::input::DeviceId;
use crate::input::GamepadButton;
use crate::input::Key;
use crate::input::MouseButton;
use crate::input::Sample;
use crate::input::Vec2;
use crate::input::spec_gamepad_button_from_code;
use crate::input::spec_axis_from_code;
use crate::input::gamepad_button_from_code;
use crate::input::axis_from_code;
use crate::registry::GamepadRegistry;

verus! {

/// The dispatch loop's lifecycle. The `Starting` work — building the
/// context and registry from the options the game returned, and deciding
/// whether the poller runs — happens inside [`Dispatcher::new`], so a
/// constructed loop is already `Running` and is never observed in
/// `Starting`; the variant names that phase for hosts that track it. The
/// loop turns `Exiting` at the first drain or frame boundary after an
/// exit request, a close request or a callback failure, and `Stopped`
/// when the host shuts it down.
#[derive(Clone, Copy, PartialEq, Eq, Structural, Debug)]
pub enum LoopState {
    Starting,
    Running,
    Exiting,
    Stopped,
}

/// One game callback the loop has invoked, in invocation order, with the
/// arguments it received (besides the context handles). The loop's
/// guarantees about callback ordering and payloads are stated over
/// sequences of these records.
#[derive(Clone, Copy, PartialEq, Eq, Structural, Debug)]
pub enum CallRecord {
    Update,
    Render,
    Resize(u32, u32),
    CharTyped(char),
    KeyPressed(Key),
    KeyReleased(Key),
    MouseMoved(Vec2),
    MouseButtonPressed(Vec2, MouseButton),
    MouseButtonReleased(Vec2, MouseButton),
    Scroll(Vec2, Vec2),
    PadConnected(DeviceId),
    PadDisconnected(DeviceId),
    PadButtonPressed(DeviceId, GamepadButton),
    PadButtonReleased(DeviceId, GamepadButton),
    PadAxisChanged(DeviceId, Axis, Sample),
}

impl CallRecord {
    /// Whether this record is one of the gamepad callbacks.
    pub open spec fn is_pad_record(self) -> bool {
        match self {
            CallRecord::PadConnected(..) => true,
            CallRecord::PadDisconnected(..) => true,
            CallRecord::PadButtonPressed(..) => true,
            CallRecord::PadButtonReleased(..) => true,
            CallRecord::PadAxisChanged(..) => true,
            _ => false,
        }
    }
}

/// The callbacks dispatching one event invokes, with their arguments:
/// none for a close request, which only flags an exit, and exactly one
/// for every other event, carrying the event's own payload unchanged.
pub open spec fn record_of(e: Event) -> Seq<CallRecord> {
    match e {
        Event::Resized { width, height } => seq![CallRecord::Resize(width, height)],
        Event::CloseRequested => Seq::empty(),
        Event::CharTyped { ch } => seq![CallRecord::CharTyped(ch)],
        Event::KeyPressed { key } => seq![CallRecord::KeyPressed(key)],
        Event::KeyReleased { key } => seq![CallRecord::KeyReleased(key)],
        Event::MouseMoved { pos } => seq![CallRecord::MouseMoved(pos)],
        Event::MouseButtonPressed { pos, button } => seq![
            CallRecord::MouseButtonPressed(pos, button),
        ],
        Event::MouseButtonReleased { pos, button } => seq![
            CallRecord::MouseButtonReleased(pos, button),
        ],
        Event::Scroll { pos, delta } => seq![CallRecord::Scroll(pos, delta)],
        Event::PadConnected { dev } => seq![CallRecord::PadConnected(dev)],
        Event::PadDisconnected { dev } => seq![CallRecord::PadDisconnected(dev)],
        Event::PadButtonPressed { dev, button } => seq![
            CallRecord::PadButtonPressed(dev, button),
        ],
        Event::PadButtonReleased { dev, button } => seq![
            CallRecord::PadButtonReleased(dev, button),
        ],
        Event::PadAxisChanged { dev, axis, value } => seq![
            CallRecord::PadAxisChanged(dev, axis, value),
        ],
    }
}

/// The callbacks dispatching a whole batch of events invokes, in order.
pub open spec fn records_of(es: Seq<Event>) -> Seq<CallRecord>
    decreases es.len(),
{
    if es.len() == 0 {
        Seq::empty()
    } else {
        records_of(es.drop_last()) + record_of(es.last())
    }
}

/// How many `update` calls a history holds.
pub open spec fn update_count(h: Seq<CallRecord>) -> nat
    decreases h.len(),
{
    if h.len() == 0 {
        0
    } else {
        update_count(h.drop_last()) + if h.last() == CallRecord::Update {
            1nat
        } else {
            0nat
        }
    }
}

/// How many `render` calls a history holds.
pub open spec fn render_count(h: Seq<CallRecord>) -> nat
    decreases h.len(),
{
    if h.len() == 0 {
        0
    } else {
        render_count(h.drop_last()) + if h.last() == CallRecord::Render {
            1nat
        } else {
            0nat
        }
    }
}

/// No record in the history is a gamepad callback.
pub open spec fn no_pad_records(h: Seq<CallRecord>) -> bool {
    forall|i: int| 0 <= i < h.len() ==> !(#[trigger] h[i]).is_pad_record()
}

/// No queued event would reach a gamepad callback.
pub open spec fn no_pad_events(q: Seq<Event>) -> bool {
    forall|i: int| 0 <= i < q.len() ==> !(#[trigger] q[i]).is_pad_event()
}

/// The orchestrator. It owns the event queue, the game-facing context,
/// and the gamepad registry, and drives the game through the per-frame
/// contract: the host feeds raw events in through `enqueue_host` and
/// `enqueue_pad`, then calls `pump` to drain them into the reactive
/// callbacks and, when a redraw is due, `frame` for one `update`
/// followed by one `render`.
pub struct Dispatcher {
    state: LoopState,
    options: Options,
    queue: Vec<Event>,
    cursor: Vec2,
    ctx: AppContext,
    registry: GamepadRegistry,
    calls: Ghost<Seq<CallRecord>>,
}

impl Dispatcher {
    pub closed spec fn spec_state(self) -> LoopState {
        self.state
    }

    pub closed spec fn spec_options(self) -> Options {
        self.options
    }

    pub closed spec fn spec_queue(self) -> Seq<Event> {
        self.queue@
    }

    pub closed spec fn spec_ctx(self) -> AppContext {
        self.ctx
    }

    /// The most recently reported cursor position, tracked by the loop
    /// itself (independently of the game-mutable context) so that button
    /// and scroll events can bind it when they are normalized.
    pub closed spec fn spec_cursor(self) -> Vec2 {
        self.cursor
    }

    pub closed spec fn spec_registry(self) -> GamepadRegistry {
        self.registry
    }

    /// Every callback invoked so far, in order.
    pub closed spec fn spec_calls(self) -> Seq<CallRecord> {
        self.calls@
    }

    /// The loop's running guarantees: the registry is consistent, no
    /// frame has rendered without a preceding update, and with gamepad
    /// support disabled no gamepad callback was ever invoked nor is one
    /// queued.
    pub closed spec fn wf(self) -> bool {
        &&& self.registry.wf()
        &&& render_count(self.calls@) <= update_count(self.calls@)
        &&& !self.options.enable_gamepad ==> no_pad_records(self.calls@) && no_pad_events(
            self.queue@,
        )
    }

    /// In every state the loop can reach, `render` has been called at
    /// most as often as `update`: no frame renders without its update.
    pub proof fn lemma_render_never_outruns_update(self)
        requires
            self.wf(),
        ensures
            render_count(self.spec_calls()) <= update_count(self.spec_calls()),
    {
    }

    /// With gamepad support disabled, no gamepad callback ever fires:
    /// the call history of a well-formed loop holds no gamepad record.
    pub proof fn lemma_gamepad_disabled_is_silent(self)
        requires
            self.wf(),
            !self.spec_options().enable_gamepad,
        ensures
            no_pad_records(self.spec_calls()),
            no_pad_events(self.spec_queue()),
    {
    }

    /// Builds the loop in its initial `Running` state: empty queue, no
    /// callback yet invoked, fresh context and registry. `options` is
    /// the snapshot obtained from the game's `options` callback; it is
    /// never mutated afterwards.
    pub fn new(options: Options) -> (r: Dispatcher)
        ensures
            r.wf(),
            r.spec_state() == LoopState::Running,
            r.spec_options() == options,
            r.spec_queue() == Seq::<Event>::empty(),
            r.spec_calls() == Seq::<CallRecord>::empty(),
            !r.spec_ctx().spec_exit_requested(),
            r.spec_registry().spec_issued() == Set::<u64>::empty(),
            r.spec_cursor() == (Vec2 { x: Sample { bits: 0 }, y: Sample { bits: 0 } }),
    {
        Dispatcher {
            state: LoopState::Running,
            options,
            queue: Vec::new(),
            cursor: Vec2 { x: Sample { bits: 0 }, y: Sample { bits: 0 } },
            ctx: AppContext::new(),
            registry: GamepadRegistry::new(),
            calls: Ghost(Seq::empty()),
        }
    }

    /// Whether the host should start the background gamepad poller:
    /// exactly when the options ask for gamepad support.
    pub fn should_start_poller(&self) -> (r: bool)
        ensures
            r == self.spec_options().enable_gamepad,
    {
        self.options.enable_gamepad
    }

    /// The loop's current lifecycle state.
    pub fn state(&self) -> (r: LoopState)
        ensures
            r == self.spec_state(),
    {
        self.state
    }

    /// Read access to the game-facing context between callbacks.
    pub fn context(&self) -> (r: &AppContext)
        ensures
            *r == self.spec_ctx(),
    {
        &self.ctx
    }

    /// Queues one raw event from the windowing host. The event is
    /// normalized exactly as [`spec_normalize_host`] says, binding the
    /// cursor position the loop has tracked so far; unrecognized raw
    /// input is dropped without a trace, and a cursor motion updates the
    /// tracked position for the events that follow it.
    pub fn enqueue_host(&mut self, raw: RawHostEvent)
        requires
            old(self).wf(),
        ensures
            final (self).wf(),
            final (self).spec_queue() == match spec_normalize_host(raw, old(self).spec_cursor()) {
                Some(e) => old(self).spec_queue().push(e),
                None => old(self).spec_queue(),
            },
            final (self).spec_cursor() == match raw {
                RawHostEvent::CursorMoved { pos } => pos,
                _ => old(self).spec_cursor(),
            },
            final (self).spec_state() == old(self).spec_state(),
            final (self).spec_options() == old(self).spec_options(),
            final (self).spec_ctx() == old(self).spec_ctx(),
            final (self).spec_registry() == old(self).spec_registry(),
            final (self).spec_calls() == old(self).spec_calls(),
    {
        let normalized = normalize_host(raw, self.cursor);
        match normalized {
            Some(e) => {
                self.queue.push(e);
            },
            None => {},
        }
        match raw {
            RawHostEvent::CursorMoved { pos } => {
                self.cursor = pos;
            },
            _ => {},
        }
    }

    /// Queues one raw gamepad report from the poller. With gamepad
    /// support disabled the report is dropped outright. Otherwise a
    /// connect issues a fresh identifier — never one issued before, and
    /// recorded as issued from then on — a disconnect retires the
    /// handle's identifier while the issued set and the issue counter
    /// stay as they were, so the retired identifier can never come back;
    /// a button or axis report is attributed to the handle's current
    /// identifier; reports for unknown handles or unrecognized codes are
    /// dropped.
    pub fn enqueue_pad(&mut self, raw: RawPadEvent)
        requires
            old(self).wf(),
        ensures
            final (self).wf(),
            final (self).spec_state() == old(self).spec_state(),
            final (self).spec_options() == old(self).spec_options(),
            final (self).spec_ctx() == old(self).spec_ctx(),
            final (self).spec_cursor() == old(self).spec_cursor(),
            final (self).spec_calls() == old(self).spec_calls(),
            !old(self).spec_options().enable_gamepad ==> final (self).spec_queue() == old(self).spec_queue() && final (self).spec_registry() == old(self).spec_registry(),
            old(self).spec_options().enable_gamepad ==> match raw {
                RawPadEvent::Connected { handle } => {
                    if old(self).spec_registry().spec_next_raw() < u64::MAX {
                        &&& final (self).spec_queue() == old(self).spec_queue().push(
                            Event::PadConnected {
                                dev: DeviceId { raw: old(self).spec_registry().spec_next_raw() },
                            },
                        )
                        &&& !old(self).spec_registry().spec_issued().contains(
                            old(self).spec_registry().spec_next_raw(),
                        )
                        &&& final (self).spec_registry().spec_issued() == old(
                            self,
                        ).spec_registry().spec_issued().insert(
                            old(self).spec_registry().spec_next_raw(),
                        )
                        &&& final (self).spec_registry().spec_next_raw() == old(
                            self,
                        ).spec_registry().spec_next_raw() + 1
                        &&& final (self).spec_registry().spec_has(handle)
                    } else {
                        final (self).spec_queue() == old(self).spec_queue() && final (self).spec_registry() == old(self).spec_registry()
                    }
                },
                RawPadEvent::Disconnected { handle } => {
                    &&& final (self).spec_registry().spec_issued() == old(
                        self,
                    ).spec_registry().spec_issued()
                    &&& final (self).spec_registry().spec_next_raw() == old(
                        self,
                    ).spec_registry().spec_next_raw()
                    &&& if old(self).spec_registry().spec_has(handle) {
                        &&& final (self).spec_queue() == old(self).spec_queue().push(
                            Event::PadDisconnected {
                                dev: old(self).spec_registry().spec_id_of(handle),
                            },
                        )
                        &&& old(self).spec_registry().spec_issued().contains(
                            old(self).spec_registry().spec_id_of(handle).raw,
                        )
                        &&& !final (self).spec_registry().spec_has(handle)
                    } else {
                        final (self).spec_queue() == old(self).spec_queue() && final (self).spec_registry() == old(self).spec_registry()
                    }
                },
                RawPadEvent::Button { handle, code, pressed } => {
                    &&& final (self).spec_registry() == old(self).spec_registry()
                    &&& final (self).spec_queue() == {
                        if old(self).spec_registry().spec_has(handle)
                            && spec_gamepad_button_from_code(code) is Some {
                            let dev = old(self).spec_registry().spec_id_of(handle);
                            let button = spec_gamepad_button_from_code(code)->Some_0;
                            if pressed {
                                old(self).spec_queue().push(
                                    Event::PadButtonPressed { dev, button },
                                )
                            } else {
                                old(self).spec_queue().push(
                                    Event::PadButtonReleased { dev, button },
                                )
                            }
                        } else {
                            old(self).spec_queue()
                        }
                    }
                },
                RawPadEvent::Axis { handle, code, value } => {
                    &&& final (self).spec_registry() == old(self).spec_registry()
                    &&& final (self).spec_queue() == {
                        if old(self).spec_registry().spec_has(handle) && spec_axis_from_code(
                            code,
                        ) is Some {
                            old(self).spec_queue().push(
                                Event::PadAxisChanged {
                                    dev: old(self).spec_registry().spec_id_of(handle),
                                    axis: spec_axis_from_code(code)->Some_0,
                                    value,
                                },
                            )
                        } else {
                            old(self).spec_queue()
                        }
                    }
                },
            },
    {
        if !self.options.enable_gamepad {
            return ;
        }
        match raw {
            RawPadEvent::Connected { handle } => {
                if self.registry.next_raw_in_range() {
                    let dev = self.registry.connect(handle);
                    self.queue.push(Event::PadConnected { dev });
                }
            },
            RawPadEvent::Disconnected { handle } => {
                let retired = self.registry.disconnect(handle);
                match retired {
                    Some(dev) => {
                        self.queue.push(Event::PadDisconnected { dev });
                    },
                    None => {},
                }
            },
            RawPadEvent::Button { handle, code, pressed } => {
                let dev = self.registry.lookup(handle);
                let button = gamepad_button_from_code(code);
                match (dev, button) {
                    (Some(dev), Some(button)) => {
                        if pressed {
                            self.queue.push(Event::PadButtonPressed { dev, button });
                        } else {
                            self.queue.push(Event::PadButtonReleased { dev, button });
                        }
                    },
                    _ => {},
                }
            },
            RawPadEvent::Axis { handle, code, value } => {
                let dev = self.registry.lookup(handle);
                let axis = axis_from_code(code);
                match (dev, axis) {
                    (Some(dev), Some(axis)) => {
                        self.queue.push(Event::PadAxisChanged { dev, axis, value });
                    },
                    _ => {},
                }
            },
        }
    }

    /// Dispatches one normalized event: updates the last-known input
    /// state, then invokes the matching callback. A close request only
    /// flags an exit, which the enclosing drain observes at its end.
    fn dispatch_one<G: Game>(&mut self, game: &mut G, e: Event) -> (r: Result<(), Error>)
        requires
            old(self).wf(),
            !old(self).spec_options().enable_gamepad ==> !e.is_pad_event(),
        ensures
            final (self).wf(),
            final (self).spec_calls() == old(self).spec_calls() + record_of(e),
            final (self).spec_state() == old(self).spec_state(),
            final (self).spec_queue() == old(self).spec_queue(),
            final (self).spec_options() == old(self).spec_options(),
            final (self).spec_cursor() == old(self).spec_cursor(),
            final (self).spec_registry() == old(self).spec_registry(),
            e == Event::CloseRequested ==> r is Ok && final (self).spec_ctx().spec_exit_requested(),
    {
        let result: Result<(), Error> = match e {
            Event::Resized { width, height } => game.resize(&mut self.ctx, width, height),
            Event::CloseRequested => {
                self.ctx.exit();
                Ok(())
            },
            Event::CharTyped { ch } => game.char(&mut self.ctx, ch),
            Event::KeyPressed { key } => {
                self.ctx.note_key(key, true);
                game.key_pressed(&mut self.ctx, key)
            },
            Event::KeyReleased { key } => {
                self.ctx.note_key(key, false);
                game.key_released(&mut self.ctx, key)
            },
            Event::MouseMoved { pos } => {
                self.ctx.note_cursor(pos);
                game.mouse_moved(&mut self.ctx, pos)
            },
            Event::MouseButtonPressed { pos, button } => {
                self.ctx.note_mouse(button, true);
                game.mouse_button_pressed(&mut self.ctx, pos, button)
            },
            Event::MouseButtonReleased { pos, button } => {
                self.ctx.note_mouse(button, false);
                game.mouse_button_released(&mut self.ctx, pos, button)
            },
            Event::Scroll { pos, delta } => game.scroll(&mut self.ctx, pos, delta),
            Event::PadConnected { dev } => {
                self.ctx.note_pad_connected(dev);
                game.gamepad_connected(&mut self.ctx, dev)
            },
            Event::PadDisconnected { dev } => {
                self.ctx.note_pad_disconnected(dev);
                game.gamepad_disconnected(&mut self.ctx, dev)
            },
            Event::PadButtonPressed { dev, button } => {
                self.ctx.note_pad_button(dev, button, true);
                game.gamepad_button_pressed(&mut self.ctx, dev, button)
            },
            Event::PadButtonReleased { dev, button } => {
                self.ctx.note_pad_button(dev, button, false);
                game.gamepad_button_released(&mut self.ctx, dev, button)
            },
            Event::PadAxisChanged { dev, axis, value } => {
                self.ctx.note_axis(dev, axis, value);
                game.gamepad_axis_changed(&mut self.ctx, dev, axis, value)
            },
        };
        proof {
            self.calls@ = self.calls@ + record_of(e);
            lemma_record_of_shape(e);
            lemma_counts_append(old(self).calls@, record_of(e));
            if !self.options.enable_gamepad {
                assert forall|i: int| 0 <= i < self.calls@.len() implies !(
                #[trigger] self.calls@[i]).is_pad_record() by {
                    if i < old(self).calls@.len() {
                        assert(self.calls@[i] == old(self).calls@[i]);
                    } else {
                        assert(self.calls@[i] == record_of(e)[i - old(self).calls@.len()]);
                    }
                }
            }
        }
        result
    }

    /// Drains every queued event into its callback, in arrival order,
    /// then observes any exit request. Once the loop is no longer
    /// `Running` no callback fires at all, even for events still queued:
    /// they are discarded. A callback failure stops the batch at once —
    /// later events of the batch are discarded, not dispatched — turns
    /// the loop `Exiting`, and surfaces the failure. On success, with no
    /// exit requested, the loop stays `Running`, ready to accept and
    /// dispatch more events indefinitely.
    pub fn pump<G: Game>(&mut self, game: &mut G) -> (r: Result<(), Error>)
        requires
            old(self).wf(),
        ensures
            final (self).wf(),
            final (self).spec_queue().len() == 0,
            final (self).spec_options() == old(self).spec_options(),
            old(self).spec_state() != LoopState::Running ==> r is Ok && final (self).spec_calls()
                == old(self).spec_calls() && final (self).spec_state() == old(self).spec_state()
                && final (self).spec_ctx() == old(self).spec_ctx(),
            old(self).spec_state() == LoopState::Running ==> {
                &&& r is Ok ==> final (self).spec_calls() == old(self).spec_calls() + records_of(
                    old(self).spec_queue(),
                )
                &&& r is Err ==> exists|k: int|
                    0 <= k <= old(self).spec_queue().len() && final (self).spec_calls() == old(self).spec_calls() + records_of(#[trigger] old(self).spec_queue().take(k))
                &&& r is Err ==> final (self).spec_state() == LoopState::Exiting
                &&& r is Ok ==> final (self).spec_state() == (if final (self).spec_ctx().spec_exit_requested() {
                    LoopState::Exiting
                } else {
                    LoopState::Running
                })
            },
    {
        match self.state {
            LoopState::Running => {},
            _ => {
                self.queue.clear();
                return Ok(());
            },
        }
        let ghost q0 = self.queue@;
        let n = self.queue.len();
        let mut i: usize = 0;
        proof {
            assert(q0.take(0) =~= Seq::<Event>::empty());
        }
        while i < n
            invariant
                self.wf(),
                i <= n,
                n == self.queue@.len(),
                self.queue@ == q0,
                self.spec_state() == LoopState::Running,
                self.spec_options() == old(self).spec_options(),
                self.spec_calls() == old(self).spec_calls() + records_of(q0.take(i as int)),
                old(self).spec_options() == self.spec_options(),
                old(self).wf(),
                old(self).spec_state() == LoopState::Running,
                q0 == old(self).spec_queue(),
                self.spec_registry() == old(self).spec_registry(),
                self.spec_cursor() == old(self).spec_cursor(),
                i > 0 && q0[i - 1] == Event::CloseRequested
                    ==> self.spec_ctx().spec_exit_requested(),
            decreases n - i,
        {
            let e = self.queue[i];
            let step = self.dispatch_one(game, e);
            proof {
                lemma_records_of_take_step(q0, i as int);
                assert(self.spec_calls() == old(self).spec_calls() + records_of(
                    q0.take(i as int),
                ) + record_of(q0[i as int]));
                assert(records_of(q0.take(i as int + 1)) == records_of(q0.take(i as int))
                    + record_of(q0[i as int]));
                assert(old(self).spec_calls() + records_of(q0.take(i as int)) + record_of(
                    q0[i as int],
                ) =~= old(self).spec_calls() + records_of(q0.take(i as int + 1)));
            }
            match step {
                Ok(()) => {},
                Err(err) => {
                    self.state = LoopState::Exiting;
                    self.queue.clear();
                    proof {
                        let k = i as int + 1;
                        assert(0 <= k <= q0.len() && self.spec_calls() == old(self).spec_calls()
                            + records_of(q0.take(k)));
                    }
                    return Err(err);
                },
            }
            i = i + 1;
        }
        self.queue.clear();
        proof {
            assert(q0.take(n as int) =~= q0);
        }
        if self.ctx.exit_requested() {
            self.state = LoopState::Exiting;
        }
        Ok(())
    }

    /// Runs one frame: when the loop is `Running`, calls `update` exactly
    /// once and then, unless `update` failed, `render` exactly once, in
    /// that order — never `render` without the preceding `update`, never
    /// either of them twice. Returns the draw handle the game recorded,
    /// for the host to submit once; a failure turns the loop `Exiting`
    /// and is surfaced. When the loop is not `Running`, no callback
    /// fires and no draw is requested. An exit requested during the
    /// frame is observed at the frame boundary.
    pub fn frame<G: Game>(&mut self, game: &mut G) -> (r: Result<Option<u64>, Error>)
        requires
            old(self).wf(),
        ensures
            final (self).wf(),
            final (self).spec_queue() == old(self).spec_queue(),
            final (self).spec_options() == old(self).spec_options(),
            final (self).spec_registry() == old(self).spec_registry(),
            final (self).spec_cursor() == old(self).spec_cursor(),
            old(self).spec_state() != LoopState::Running ==> r == Ok::<Option<u64>, Error>(None)
                && final (self).spec_calls() == old(self).spec_calls() && final (self).spec_state() == old(self).spec_state() && final (self).spec_ctx() == old(self).spec_ctx(),
            old(self).spec_state() == LoopState::Running ==> {
                &&& r is Ok ==> final (self).spec_calls() == old(self).spec_calls() + seq![
                    CallRecord::Update,
                    CallRecord::Render,
                ]
                &&& r is Err ==> final (self).spec_calls() == old(self).spec_calls() + seq![
                    CallRecord::Update,
                ] || final (self).spec_calls() == old(self).spec_calls() + seq![
                    CallRecord::Update,
                    CallRecord::Render,
                ]
                &&& r is Err ==> final (self).spec_state() == LoopState::Exiting
                &&& r is Ok ==> final (self).spec_state() == (if final (self).spec_ctx().spec_exit_requested() {
                    LoopState::Exiting
                } else {
                    LoopState::Running
                })
            },
    {
        match self.state {
            LoopState::Running => {},
            _ => {
                return Ok(None);
            },
        }
        let update_result = game.update(&mut self.ctx);
        proof {
            self.calls@ = self.calls@.push(CallRecord::Update);
            lemma_counts_push(old(self).calls@, CallRecord::Update);
            if !self.options.enable_gamepad {
                lemma_no_pad_push(old(self).calls@, CallRecord::Update);
            }
            assert(self.calls@ =~= old(self).calls@ + seq![CallRecord::Update]);
        }
        match update_result {
            Ok(()) => {},
            Err(err) => {
                self.state = LoopState::Exiting;
                return Err(err);
            },
        }
        let mut rctx = RenderContext::new();
        let render_result = game.render(&mut self.ctx, &mut rctx);
        proof {
            let h1 = old(self).calls@ + seq![CallRecord::Update];
            self.calls@ = self.calls@.push(CallRecord::Render);
            lemma_counts_push(h1, CallRecord::Render);
            if !self.options.enable_gamepad {
                lemma_no_pad_push(h1, CallRecord::Render);
            }
            assert(self.calls@ =~= old(self).calls@ + seq![
                CallRecord::Update,
                CallRecord::Render,
            ]);
        }
        match render_result {
            Ok(()) => {},
            Err(err) => {
                self.state = LoopState::Exiting;
                return Err(err);
            },
        }
        if self.ctx.exit_requested() {
            self.state = LoopState::Exiting;
        }
        Ok(rctx.pending())
    }

    /// Final transition: the host has left its event loop (and will join
    /// the poller thread, if one was started). No callback fires after
    /// this.
    pub fn shutdown(&mut self)
        requires
            old(self).wf(),
        ensures
            final (self).wf(),
            final (self).spec_state() == LoopState::Stopped,
            final (self).spec_calls() == old(self).spec_calls(),
    {
        self.state = LoopState::Stopped;
    }
}

/// The records of one event are never frame callbacks, and are gamepad
/// records exactly when the event is a gamepad event.
proof fn lemma_record_of_shape(e: Event)
    ensures
        forall|i: int|
            0 <= i < record_of(e).len() ==> !((#[trigger] record_of(e)[i]) == CallRecord::Update)
                && !(record_of(e)[i] == CallRecord::Render),
        !e.is_pad_event() ==> forall|i: int|
            0 <= i < record_of(e).len() ==> !(#[trigger] record_of(e)[i]).is_pad_record(),
{
}

/// Appending frame-free records changes neither frame-callback count.
proof fn lemma_counts_append(h: Seq<CallRecord>, r: Seq<CallRecord>)
    requires
        forall|i: int|
            0 <= i < r.len() ==> !((#[trigger] r[i]) == CallRecord::Update) && !(r[i]
                == CallRecord::Render),
    ensures
        update_count(h + r) == update_count(h),
        render_count(h + r) == render_count(h),
    decreases r.len(),
{
    if r.len() == 0 {
        assert(h + r =~= h);
    } else {
        assert((h + r).drop_last() =~= h + r.drop_last());
        assert((h + r).last() == r.last());
        lemma_counts_append(h, r.drop_last());
    }
}

/// Pushing one record bumps exactly its own count.
proof fn lemma_counts_push(h: Seq<CallRecord>, c: CallRecord)
    ensures
        update_count(h.push(c)) == update_count(h) + if c == CallRecord::Update {
            1nat
        } else {
            0nat
        },
        render_count(h.push(c)) == render_count(h) + if c == CallRecord::Render {
            1nat
        } else {
            0nat
        },
{
    assert(h.push(c).drop_last() =~= h);
    assert(h.push(c).last() == c);
}

/// Pushing a non-gamepad record keeps a history gamepad-free.
proof fn lemma_no_pad_push(h: Seq<CallRecord>, c: CallRecord)
    requires
        no_pad_records(h),
        !c.is_pad_record(),
    ensures
        no_pad_records(h.push(c)),
{
    assert forall|i: int| 0 <= i < h.push(c).len() implies !(
    #[trigger] h.push(c)[i]).is_pad_record() by {
        if i < h.len() {
            assert(h.push(c)[i] == h[i]);
        } else {
            assert(h.push(c)[i] == c);
        }
    }
}

/// One more event in a drained prefix appends exactly its records.
proof fn lemma_records_of_take_step(q: Seq<Event>, i: int)
    requires
        0 <= i < q.len(),
    ensures
        records_of(q.take(i + 1)) == records_of(q.take(i)) + record_of(q[i]),
{
    assert(q.take(i + 1).drop_last() =~= q.take(i));
    assert(q.take(i + 1).last() == q[i]);
}

} // verus!
