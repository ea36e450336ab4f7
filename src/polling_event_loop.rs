use std::collections::{HashMap, VecDeque};
use vstd::prelude::*;

use crate::error::WinitError;
use crate::events::{
    character_event, is_consumed, key_buffer_after_event, translated, EventProcessor,
    NativeEvent, NativeWindowEvent, WinitEvent, WinitEventType,
    winit_event_loop_process_received_character,
};
use crate::window_ref::{initial_window_ref, NativeWindow, PhysicalSize, WindowRef};

verus! {

broadcast use vstd::std_specs::hash::group_hash_axioms;

/// The driver of a polling event loop: the registry of windows and their mirrors, the
/// listeners registered per window, the FIFO queue of translated events that a foreign
/// consumer drains, and the translator's state.
///
/// `W` is the native window handle, `R` a redraw listener and `Z` a resize listener.
/// The driver makes no native call: each dispatch step returns the actions that the
/// thread running the native loop performs.
pub struct PollingEventLoop<W, R, Z> {
    windows: HashMap<u128, W>,
    window_refs: HashMap<u128, WindowRef>,
    events: VecDeque<WinitEvent>,
    window_redraw_listeners: HashMap<u128, R>,
    window_resize_listeners: HashMap<u128, Z>,
    running: bool,
    event_processor: EventProcessor,
}

impl<W, R, Z> PollingEventLoop<W, R, Z> {
    /// The native windows, by identity.
    pub closed spec fn windows(&self) -> Map<u128, W> {
        self.windows@
    }

    /// The mirrored state of each window, by identity.
    pub closed spec fn mirrors(&self) -> Map<u128, WindowRef> {
        self.window_refs@
    }

    /// The translated events waiting to be polled, oldest first.
    pub closed spec fn queue(&self) -> Seq<WinitEvent> {
        self.events@
    }

    pub closed spec fn redraw_listeners(&self) -> Map<u128, R> {
        self.window_redraw_listeners@
    }

    pub closed spec fn resize_listeners(&self) -> Map<u128, Z> {
        self.window_resize_listeners@
    }

    /// Whether the native loop is in the middle of dispatching an event.
    pub closed spec fn is_running(&self) -> bool {
        self.running
    }

    /// The virtual key codes that the translator has recorded per scan code.
    pub closed spec fn key_buffer(&self) -> Map<u32, u32> {
        self.event_processor@
    }

    /// Every registered window has a mirror that carries its identity, and nothing else does.
    pub closed spec fn wf(&self) -> bool {
        &&& self.windows@.dom() == self.window_refs@.dom()
        &&& forall|id: u128| #[trigger]
            self.window_refs@.contains_key(id) ==> self.window_refs@[id].id == id
    }

    /// Everything but the queue is as in `other`.
    pub open spec fn same_but_queue(&self, other: &Self) -> bool {
        &&& self.windows() == other.windows()
        &&& self.mirrors() == other.mirrors()
        &&& self.redraw_listeners() == other.redraw_listeners()
        &&& self.resize_listeners() == other.resize_listeners()
        &&& self.is_running() == other.is_running()
        &&& self.key_buffer() == other.key_buffer()
    }

    /// Everything but the listeners is as in `other`.
    pub open spec fn same_but_listeners(&self, other: &Self) -> bool {
        &&& self.windows() == other.windows()
        &&& self.mirrors() == other.mirrors()
        &&& self.queue() == other.queue()
        &&& self.is_running() == other.is_running()
        &&& self.key_buffer() == other.key_buffer()
    }

    pub fn new() -> (r: Self)
        ensures
            r.wf(),
            r.windows() == Map::<u128, W>::empty(),
            r.mirrors() == Map::<u128, WindowRef>::empty(),
            r.queue() == Seq::<WinitEvent>::empty(),
            r.redraw_listeners() == Map::<u128, R>::empty(),
            r.resize_listeners() == Map::<u128, Z>::empty(),
            !r.is_running(),
            r.key_buffer() == Map::<u32, u32>::empty(),
    {
        let r = PollingEventLoop {
            windows: HashMap::new(),
            window_refs: HashMap::new(),
            events: VecDeque::new(),
            window_redraw_listeners: HashMap::new(),
            window_resize_listeners: HashMap::new(),
            running: false,
            event_processor: EventProcessor::new(),
        };
        proof {
            assert(r.windows@.dom() =~= r.window_refs@.dom());
        }
        r
    }

    /// Registers the redraw listener of a window, replacing any earlier one.
    pub fn add_redraw_listener(&mut self, window_id: u128, listener: R)
        ensures
            final(self).redraw_listeners() == old(self).redraw_listeners().insert(window_id, listener),
            final(self).resize_listeners() == old(self).resize_listeners(),
            final(self).same_but_listeners(old(self)),
            final(self).wf() == old(self).wf(),
    {
        self.window_redraw_listeners.insert(window_id, listener);
    }

    /// Unregisters the redraw listener of a window and returns it; a no-op if there is none.
    pub fn remove_redraw_listener(&mut self, window_id: u128) -> (r: Option<R>)
        ensures
            final(self).redraw_listeners() == old(self).redraw_listeners().remove(window_id),
            r == (if old(self).redraw_listeners().contains_key(window_id) {
                Some(old(self).redraw_listeners()[window_id])
            } else {
                None
            }),
            final(self).resize_listeners() == old(self).resize_listeners(),
            final(self).same_but_listeners(old(self)),
            final(self).wf() == old(self).wf(),
    {
        self.window_redraw_listeners.remove(&window_id)
    }

    pub fn count_redraw_listeners(&self) -> (r: usize)
        ensures
            r == self.redraw_listeners().len(),
    {
        self.window_redraw_listeners.len()
    }

    /// The redraw listener of a window, if one is registered.
    pub fn redraw_listener(&self, window_id: u128) -> (r: Option<&R>)
        ensures
            match r {
                Some(l) => self.redraw_listeners().contains_key(window_id)
                    && *l == self.redraw_listeners()[window_id],
                None => !self.redraw_listeners().contains_key(window_id),
            },
    {
        self.window_redraw_listeners.get(&window_id)
    }

    /// Registers the resize listener of a window, replacing any earlier one.
    pub fn add_resize_listener(&mut self, window_id: u128, listener: Z)
        ensures
            final(self).resize_listeners() == old(self).resize_listeners().insert(window_id, listener),
            final(self).redraw_listeners() == old(self).redraw_listeners(),
            final(self).same_but_listeners(old(self)),
            final(self).wf() == old(self).wf(),
    {
        self.window_resize_listeners.insert(window_id, listener);
    }

    /// Unregisters the resize listener of a window and returns it; a no-op if there is none.
    pub fn remove_resize_listener(&mut self, window_id: u128) -> (r: Option<Z>)
        ensures
            final(self).resize_listeners() == old(self).resize_listeners().remove(window_id),
            r == (if old(self).resize_listeners().contains_key(window_id) {
                Some(old(self).resize_listeners()[window_id])
            } else {
                None
            }),
            final(self).redraw_listeners() == old(self).redraw_listeners(),
            final(self).same_but_listeners(old(self)),
            final(self).wf() == old(self).wf(),
    {
        self.window_resize_listeners.remove(&window_id)
    }

    pub fn count_resize_listeners(&self) -> (r: usize)
        ensures
            r == self.resize_listeners().len(),
    {
        self.window_resize_listeners.len()
    }

    /// The resize listener of a window, if one is registered.
    pub fn resize_listener(&self, window_id: u128) -> (r: Option<&Z>)
        ensures
            match r {
                Some(l) => self.resize_listeners().contains_key(window_id)
                    && *l == self.resize_listeners()[window_id],
                None => !self.resize_listeners().contains_key(window_id),
            },
    {
        self.window_resize_listeners.get(&window_id)
    }

    /// Takes the oldest queued event, if any; never blocks.
    pub fn poll(&mut self) -> (r: Option<WinitEvent>)
        ensures
            r == poll_result(old(self).queue()),
            final(self).queue() == after_poll(old(self).queue()),
            final(self).same_but_queue(old(self)),
            final(self).wf() == old(self).wf(),
    {
        self.events.pop_front()
    }

    /// Appends an event to the queue.
    pub fn push(&mut self, event: WinitEvent)
        ensures
            final(self).queue() == old(self).queue().push(event),
            final(self).same_but_queue(old(self)),
            final(self).wf() == old(self).wf(),
    {
        Self::push_event(&mut self.events, event);
    }

    /// Appends an event to a queue.
    pub fn push_event(events: &mut VecDeque<WinitEvent>, event: WinitEvent)
        ensures
            final(events)@ == old(events)@.push(event),
    {
        events.push_back(event);
    }

    /// Marks the start of the dispatch of one native event: windows can be created.
    pub fn begin_dispatch(&mut self)
        ensures
            final(self).is_running(),
            final(self).windows() == old(self).windows(),
            final(self).mirrors() == old(self).mirrors(),
            final(self).queue() == old(self).queue(),
            final(self).redraw_listeners() == old(self).redraw_listeners(),
            final(self).resize_listeners() == old(self).resize_listeners(),
            final(self).key_buffer() == old(self).key_buffer(),
            final(self).wf() == old(self).wf(),
    {
        self.running = true;
    }

    /// Marks the end of the dispatch of one native event.
    pub fn end_dispatch(&mut self)
        ensures
            !final(self).is_running(),
            final(self).windows() == old(self).windows(),
            final(self).mirrors() == old(self).mirrors(),
            final(self).queue() == old(self).queue(),
            final(self).redraw_listeners() == old(self).redraw_listeners(),
            final(self).resize_listeners() == old(self).resize_listeners(),
            final(self).key_buffer() == old(self).key_buffer(),
            final(self).wf() == old(self).wf(),
    {
        self.running = false;
    }

    /// Whether the native loop is dispatching an event now.
    pub fn is_dispatching(&self) -> (r: bool)
        ensures
            r == self.is_running(),
    {
        self.running
    }
}

impl<W, R, Z> PollingEventLoop<W, R, Z> {
    /// Creates and registers a window. `build` makes the native window; it is called only
    /// while the loop is dispatching, since only then is there a context to build it in.
    /// The new mirror starts from what was read from the built window.
    pub fn create_window<F: FnOnce() -> Result<NativeWindow<W>, WinitError>>(
        &mut self,
        build: F,
    ) -> (r: Result<WindowRef, WinitError>)
        requires
            old(self).wf(),
            build.requires(()),
        ensures
            final(self).wf(),
            !old(self).is_running() ==> r == Err::<WindowRef, WinitError>(
                WinitError::EventLoopNotRunning,
            ),
            r is Err ==> final(self).windows() == old(self).windows() && final(self).mirrors()
                == old(self).mirrors(),
            old(self).is_running() ==> exists|built: Result<NativeWindow<W>, WinitError>|
                #[trigger] build.ensures((), built) && match built {
                    Err(e) => r == Err::<WindowRef, WinitError>(e),
                    Ok(window) => {
                        &&& r == Ok::<WindowRef, WinitError>(initial_window_ref(window))
                        &&& final(self).windows() == old(self).windows().insert(
                            window.id,
                            window.window,
                        )
                        &&& final(self).mirrors() == old(self).mirrors().insert(
                            window.id,
                            initial_window_ref(window),
                        )
                    },
                },
            final(self).queue() == old(self).queue(),
            final(self).redraw_listeners() == old(self).redraw_listeners(),
            final(self).resize_listeners() == old(self).resize_listeners(),
            final(self).is_running() == old(self).is_running(),
            final(self).key_buffer() == old(self).key_buffer(),
    {
        if !self.running {
            return Err(WinitError::EventLoopNotRunning);
        }
        let built = build();
        match built {
            Err(e) => Err(e),
            Ok(window) => {
                let ghost built_window = window;
                let NativeWindow { window, id, scale_factor, inner_size, outer_position } = window;
                let mut window_ref = WindowRef::new(id);
                window_ref.set_scale_factor(scale_factor);
                window_ref.set_inner_size(inner_size);
                if let Some(position) = outer_position {
                    window_ref.set_outer_position(position);
                }
                proof {
                    assert(window_ref == initial_window_ref(built_window));
                }
                self.window_refs.insert(id, window_ref);
                self.windows.insert(id, window);
                proof {
                    assert(self.windows@.dom() =~= self.window_refs@.dom());
                }
                Ok(window_ref)
            },
        }
    }

    /// Calls `callback` on the native window with identity `window_id`.
    pub fn with_window<T, F: FnOnce(&W) -> Result<T, WinitError>>(
        &self,
        window_id: u128,
        callback: F,
    ) -> (r: Result<T, WinitError>)
        requires
            self.windows().contains_key(window_id) ==> callback.requires(
                (&self.windows()[window_id],),
            ),
        ensures
            !self.windows().contains_key(window_id) ==> r == Err::<T, WinitError>(
                WinitError::WindowNotFound(window_id),
            ),
            self.windows().contains_key(window_id) ==> callback.ensures(
                (&self.windows()[window_id],),
                r,
            ),
    {
        match self.windows.get(&window_id) {
            None => Err(WinitError::WindowNotFound(window_id)),
            Some(window) => callback(window),
        }
    }

    /// Calls `callback` on the native window with identity `window_id` and its mirror, and
    /// on success stores the mirror that it returns (with the window's identity kept), so
    /// that the native window and its mirror change together.
    pub fn with_window_mut<T, F: FnOnce(&W, WindowRef) -> Result<(WindowRef, T), WinitError>>(
        &mut self,
        window_id: u128,
        callback: F,
    ) -> (r: Result<T, WinitError>)
        requires
            old(self).wf(),
            old(self).windows().contains_key(window_id) ==> callback.requires(
                (&old(self).windows()[window_id], old(self).mirrors()[window_id]),
            ),
        ensures
            final(self).wf(),
            !old(self).windows().contains_key(window_id) ==> r == Err::<T, WinitError>(
                WinitError::WindowNotFound(window_id),
            ),
            r is Err ==> final(self).mirrors() == old(self).mirrors(),
            old(self).windows().contains_key(window_id) ==> exists|
                out: Result<(WindowRef, T), WinitError>,
            |
                #[trigger] callback.ensures(
                    (&old(self).windows()[window_id], old(self).mirrors()[window_id]),
                    out,
                ) && match out {
                    Err(e) => r == Err::<T, WinitError>(e),
                    Ok((mirror, value)) => {
                        &&& r == Ok::<T, WinitError>(value)
                        &&& final(self).mirrors() == old(self).mirrors().insert(
                            window_id,
                            WindowRef { id: window_id, ..mirror },
                        )
                    },
                },
            final(self).windows() == old(self).windows(),
            final(self).queue() == old(self).queue(),
            final(self).redraw_listeners() == old(self).redraw_listeners(),
            final(self).resize_listeners() == old(self).resize_listeners(),
            final(self).is_running() == old(self).is_running(),
            final(self).key_buffer() == old(self).key_buffer(),
    {
        let current = match self.window_refs.get(&window_id) {
            None => {
                return Err(WinitError::WindowNotFound(window_id));
            },
            Some(mirror) => *mirror,
        };
        let out = match self.windows.get(&window_id) {
            None => {
                return Err(WinitError::WindowNotFound(window_id));
            },
            Some(window) => callback(window, current),
        };
        match out {
            Err(e) => Err(e),
            Ok((mirror, value)) => {
                self.window_refs.insert(window_id, WindowRef { id: window_id, ..mirror });
                proof {
                    assert(self.windows@.dom() =~= self.window_refs@.dom());
                }
                Ok(value)
            },
        }
    }

    /// The mirrored state of a window.
    pub fn window_ref(&self, window_id: u128) -> (r: Result<WindowRef, WinitError>)
        ensures
            r == (if self.mirrors().contains_key(window_id) {
                Ok::<WindowRef, WinitError>(self.mirrors()[window_id])
            } else {
                Err::<WindowRef, WinitError>(WinitError::WindowNotFound(window_id))
            }),
    {
        match self.window_refs.get(&window_id) {
            None => Err(WinitError::WindowNotFound(window_id)),
            Some(mirror) => Ok(*mirror),
        }
    }

    /// Destroys a window: unregisters its listeners, then drops the native window and its
    /// mirror. Fails when no such window is registered; the listeners go either way.
    pub fn destroy_window(&mut self, window_id: u128) -> (r: Result<(), WinitError>)
        requires
            old(self).wf(),
        ensures
            final(self).wf(),
            destroyed(old(self), final(self), window_id),
            r == (if old(self).windows().contains_key(window_id) {
                Ok::<(), WinitError>(())
            } else {
                Err::<(), WinitError>(WinitError::WindowNotFound(window_id))
            }),
    {
        self.window_resize_listeners.remove(&window_id);
        self.window_redraw_listeners.remove(&window_id);
        self.window_refs.remove(&window_id);
        let removed = self.windows.remove(&window_id);
        proof {
            assert(self.windows@.dom() =~= self.window_refs@.dom());
        }
        match removed {
            Some(_window) => Ok(()),
            None => Err(WinitError::WindowNotFound(window_id)),
        }
    }
}

/// `after` is `before` with window `window_id`, its mirror and its listeners gone.
pub open spec fn destroyed<W, R, Z>(
    before: &PollingEventLoop<W, R, Z>,
    after: &PollingEventLoop<W, R, Z>,
    window_id: u128,
) -> bool {
    &&& after.windows() == before.windows().remove(window_id)
    &&& after.mirrors() == before.mirrors().remove(window_id)
    &&& after.redraw_listeners() == before.redraw_listeners().remove(window_id)
    &&& after.resize_listeners() == before.resize_listeners().remove(window_id)
    &&& after.queue() == before.queue()
    &&& after.is_running() == before.is_running()
    &&& after.key_buffer() == before.key_buffer()
}

/// What the thread running the native loop does after a dispatch step, in order.
#[derive(Debug, Copy, Clone, PartialEq, Eq, Structural)]
pub enum LoopAction {
    /// Invoke the redraw listener of the window.
    NotifyRedrawListener { window_id: u128 },
    /// Invoke the resize listener of the window with the new size.
    NotifyResizeListener { window_id: u128, width: u32, height: u32 },
    /// Ask the native window to redraw.
    RequestRedraw { window_id: u128 },
    /// Signal the semaphore, if one is installed: one event more is queued.
    SignalSemaphore,
    /// Signal that a batch of native events was processed, if a signaller is installed.
    SignalMainEventsCleared,
}

/// Whether events of this kind go to the queue; the loop's bookkeeping kinds do not.
pub open spec fn enqueued_kind(kind: WinitEventType) -> bool {
    &&& kind != WinitEventType::MainEventsCleared
    &&& kind != WinitEventType::RedrawEventsCleared
    &&& kind != WinitEventType::NewEvents
    &&& kind != WinitEventType::RedrawRequested
}

/// Whether events of this kind mark the end of a batch.
pub open spec fn batch_boundary(kind: WinitEventType) -> bool {
    kind == WinitEventType::MainEventsCleared || kind == WinitEventType::RedrawEventsCleared
}

/// The records of the characters of a committed input-method text.
pub open spec fn ime_records(window_id: u128, chars: Seq<char>) -> Seq<WinitEvent> {
    chars.map_values(|c: char| character_event(window_id, c))
}

/// The events that a dispatch step appends to the queue, in order.
pub open spec fn queued_by(buffer: Map<u32, u32>, event: NativeEvent) -> Seq<WinitEvent> {
    let from_ime = match event {
        NativeEvent::WindowEvent { window_id, event: NativeWindowEvent::ImeCommit(chars) } => {
            ime_records(window_id, chars@)
        },
        _ => Seq::empty(),
    };
    let record = translated(buffer, event);
    if is_consumed(event) && enqueued_kind(record.event_type) {
        from_ime.push(record)
    } else {
        from_ime
    }
}

/// The mirrors after a dispatch step: a resize or a scale change of a registered window
/// is recorded in its mirror.
pub open spec fn mirrors_after(mirrors: Map<u128, WindowRef>, event: NativeEvent) -> Map<
    u128,
    WindowRef,
> {
    match event {
        NativeEvent::WindowEvent { window_id, event } => match event {
            NativeWindowEvent::Resized { width, height } => if mirrors.contains_key(window_id) {
                mirrors.insert(
                    window_id,
                    WindowRef {
                        inner_size: PhysicalSize { width, height },
                        ..mirrors[window_id]
                    },
                )
            } else {
                mirrors
            },
            NativeWindowEvent::ScaleFactorChanged { scale_factor, width, height } => {
                if mirrors.contains_key(window_id) {
                    mirrors.insert(
                        window_id,
                        WindowRef {
                            scale_factor,
                            inner_size: PhysicalSize { width, height },
                            ..mirrors[window_id]
                        },
                    )
                } else {
                    mirrors
                }
            },
            _ => mirrors,
        },
        _ => mirrors,
    }
}

/// After a window's size changed: its resize listener, if any, then a redraw request.
/// Nothing happens for a window that is not registered.
pub open spec fn resize_actions(
    windows: Set<u128>,
    resize_listeners: Set<u128>,
    window_id: u128,
    width: u32,
    height: u32,
) -> Seq<LoopAction> {
    if windows.contains(window_id) {
        let notify = if resize_listeners.contains(window_id) {
            seq![LoopAction::NotifyResizeListener { window_id, width, height }]
        } else {
            Seq::empty()
        };
        notify.push(LoopAction::RequestRedraw { window_id })
    } else {
        Seq::empty()
    }
}

/// The actions of a dispatch step that come before the translated event is queued.
pub open spec fn handler_actions(
    windows: Set<u128>,
    redraw_listeners: Set<u128>,
    resize_listeners: Set<u128>,
    event: NativeEvent,
) -> Seq<LoopAction> {
    match event {
        NativeEvent::RedrawRequested(window_id) => if redraw_listeners.contains(window_id) {
            seq![LoopAction::NotifyRedrawListener { window_id }]
        } else {
            Seq::empty()
        },
        NativeEvent::WindowEvent { window_id, event } => match event {
            NativeWindowEvent::Resized { width, height } => resize_actions(
                windows,
                resize_listeners,
                window_id,
                width,
                height,
            ),
            NativeWindowEvent::ScaleFactorChanged { width, height, .. } => resize_actions(
                windows,
                resize_listeners,
                window_id,
                width,
                height,
            ),
            NativeWindowEvent::ImeCommit(chars) => Seq::new(
                chars@.len(),
                |i: int| LoopAction::SignalSemaphore,
            ),
            _ => Seq::empty(),
        },
        _ => Seq::empty(),
    }
}

/// The actions of a dispatch step that follow the translation: one semaphore signal for a
/// queued event, one batch signal at the end of a batch.
pub open spec fn signal_actions(buffer: Map<u32, u32>, event: NativeEvent) -> Seq<LoopAction> {
    if is_consumed(event) {
        let kind = translated(buffer, event).event_type;
        let signal = if enqueued_kind(kind) {
            seq![LoopAction::SignalSemaphore]
        } else {
            Seq::empty()
        };
        if batch_boundary(kind) {
            signal.push(LoopAction::SignalMainEventsCleared)
        } else {
            signal
        }
    } else {
        Seq::empty()
    }
}

/// All actions of a dispatch step, in order.
pub open spec fn step_actions<W, R, Z>(
    state: &PollingEventLoop<W, R, Z>,
    event: NativeEvent,
) -> Seq<LoopAction> {
    handler_actions(
        state.mirrors().dom(),
        state.redraw_listeners().dom(),
        state.resize_listeners().dom(),
        event,
    ) + signal_actions(state.key_buffer(), event)
}

impl<W, R, Z> PollingEventLoop<W, R, Z> {
    /// Is called when a window asked to be redrawn.
    fn on_redraw_requested(&self, window_id: u128, actions: &mut Vec<LoopAction>)
        ensures
            final(actions)@ == old(actions)@ + handler_actions(
                self.mirrors().dom(),
                self.redraw_listeners().dom(),
                self.resize_listeners().dom(),
                NativeEvent::RedrawRequested(window_id),
            ),
    {
        if self.window_redraw_listeners.contains_key(&window_id) {
            actions.push(LoopAction::NotifyRedrawListener { window_id });
        }
        proof {
            assert(final(actions)@ =~= old(actions)@ + handler_actions(
                self.mirrors().dom(),
                self.redraw_listeners().dom(),
                self.resize_listeners().dom(),
                NativeEvent::RedrawRequested(window_id),
            ));
        }
    }

    /// Is called when a window was resized: the mirror takes the new size, then the
    /// resize listener is notified and a redraw requested.
    fn on_window_resized(
        &mut self,
        window_id: u128,
        size: PhysicalSize,
        actions: &mut Vec<LoopAction>,
    ) -> (r: Result<(), WinitError>)
        requires
            old(self).wf(),
        ensures
            final(self).wf(),
            final(self).mirrors() == mirrors_after(
                old(self).mirrors(),
                NativeEvent::WindowEvent {
                    window_id,
                    event: NativeWindowEvent::Resized { width: size.width, height: size.height },
                },
            ),
            final(actions)@ == old(actions)@ + resize_actions(
                old(self).mirrors().dom(),
                old(self).resize_listeners().dom(),
                window_id,
                size.width,
                size.height,
            ),
            r is Err <==> !old(self).mirrors().contains_key(window_id),
            final(self).windows() == old(self).windows(),
            final(self).queue() == old(self).queue(),
            final(self).redraw_listeners() == old(self).redraw_listeners(),
            final(self).resize_listeners() == old(self).resize_listeners(),
            final(self).is_running() == old(self).is_running(),
            final(self).key_buffer() == old(self).key_buffer(),
    {
        let mut mirror = match self.window_refs.get(&window_id) {
            None => {
                proof {
                    assert(final(actions)@ =~= old(actions)@ + resize_actions(
                        old(self).mirrors().dom(),
                        old(self).resize_listeners().dom(),
                        window_id,
                        size.width,
                        size.height,
                    ));
                }
                return Err(WinitError::WindowNotFound(window_id));
            },
            Some(mirror) => *mirror,
        };
        mirror.set_inner_size(size);
        self.window_refs.insert(window_id, mirror);
        proof {
            assert(self.windows@.dom() =~= self.window_refs@.dom());
        }
        if self.window_resize_listeners.contains_key(&window_id) {
            actions.push(
                LoopAction::NotifyResizeListener {
                    window_id,
                    width: size.width,
                    height: size.height,
                },
            );
        }
        actions.push(LoopAction::RequestRedraw { window_id });
        proof {
            assert(final(actions)@ =~= old(actions)@ + resize_actions(
                old(self).mirrors().dom(),
                old(self).resize_listeners().dom(),
                window_id,
                size.width,
                size.height,
            ));
        }
        Ok(())
    }

    /// Is called when a window's scale factor changed: the mirror takes the new scale
    /// factor and size, then the resize listener is notified and a redraw requested.
    fn on_window_scale_changed(
        &mut self,
        window_id: u128,
        scale_factor: u64,
        new_inner_size: PhysicalSize,
        actions: &mut Vec<LoopAction>,
    ) -> (r: Result<(), WinitError>)
        requires
            old(self).wf(),
        ensures
            final(self).wf(),
            final(self).mirrors() == mirrors_after(
                old(self).mirrors(),
                NativeEvent::WindowEvent {
                    window_id,
                    event: NativeWindowEvent::ScaleFactorChanged {
                        scale_factor,
                        width: new_inner_size.width,
                        height: new_inner_size.height,
                    },
                },
            ),
            final(actions)@ == old(actions)@ + resize_actions(
                old(self).mirrors().dom(),
                old(self).resize_listeners().dom(),
                window_id,
                new_inner_size.width,
                new_inner_size.height,
            ),
            r is Err <==> !old(self).mirrors().contains_key(window_id),
            final(self).windows() == old(self).windows(),
            final(self).queue() == old(self).queue(),
            final(self).redraw_listeners() == old(self).redraw_listeners(),
            final(self).resize_listeners() == old(self).resize_listeners(),
            final(self).is_running() == old(self).is_running(),
            final(self).key_buffer() == old(self).key_buffer(),
    {
        let mut mirror = match self.window_refs.get(&window_id) {
            None => {
                proof {
                    assert(final(actions)@ =~= old(actions)@ + resize_actions(
                        old(self).mirrors().dom(),
                        old(self).resize_listeners().dom(),
                        window_id,
                        new_inner_size.width,
                        new_inner_size.height,
                    ));
                }
                return Err(WinitError::WindowNotFound(window_id));
            },
            Some(mirror) => *mirror,
        };
        mirror.set_inner_size(new_inner_size);
        mirror.set_scale_factor(scale_factor);
        self.window_refs.insert(window_id, mirror);
        proof {
            assert(self.windows@.dom() =~= self.window_refs@.dom());
        }
        if self.window_resize_listeners.contains_key(&window_id) {
            actions.push(
                LoopAction::NotifyResizeListener {
                    window_id,
                    width: new_inner_size.width,
                    height: new_inner_size.height,
                },
            );
        }
        actions.push(LoopAction::RequestRedraw { window_id });
        proof {
            assert(final(actions)@ =~= old(actions)@ + resize_actions(
                old(self).mirrors().dom(),
                old(self).resize_listeners().dom(),
                window_id,
                new_inner_size.width,
                new_inner_size.height,
            ));
        }
        Ok(())
    }

    /// Queues one received-character event per character of a committed input-method
    /// text, each followed by a semaphore signal.
    fn on_ime_commit(&mut self, window_id: u128, chars: &Vec<char>, actions: &mut Vec<LoopAction>)
        ensures
            final(self).queue() == old(self).queue() + ime_records(window_id, chars@),
            final(actions)@ == old(actions)@ + Seq::new(
                chars@.len(),
                |i: int| LoopAction::SignalSemaphore,
            ),
            final(self).same_but_queue(old(self)),
            final(self).wf() == old(self).wf(),
    {
        let mut i: usize = 0;
        while i < chars.len()
            invariant
                i <= chars@.len(),
                self.queue() == old(self).queue() + ime_records(window_id, chars@.subrange(
                    0,
                    i as int,
                )),
                actions@ == old(actions)@ + Seq::new(
                    i as nat,
                    |k: int| LoopAction::SignalSemaphore,
                ),
                self.same_but_queue(old(self)),
                self.wf() == old(self).wf(),
            decreases chars@.len() - i,
        {
            let mut c_event = WinitEvent::default();
            c_event.window_id = window_id;
            winit_event_loop_process_received_character(&mut c_event, chars[i]);
            self.push(c_event);
            actions.push(LoopAction::SignalSemaphore);
            proof {
                assert(chars@.subrange(0, i + 1) =~= chars@.subrange(0, i as int).push(chars@[i as int]));
                assert(ime_records(window_id, chars@.subrange(0, i + 1)) =~= ime_records(
                    window_id,
                    chars@.subrange(0, i as int),
                ).push(character_event(window_id, chars@[i as int])));
            }
            i = i + 1;
            proof {
                assert(actions@ =~= old(actions)@ + Seq::new(
                    i as nat,
                    |k: int| LoopAction::SignalSemaphore,
                ));
            }
        }
        proof {
            assert(chars@.subrange(0, chars@.len() as int) =~= chars@);
        }
    }

    /// Dispatches one native event: updates the mirrors, queues the translated event when
    /// it is visible to the foreign consumer, and returns what the native thread must do:
    /// notify listeners, request redraws, signal the semaphore and the batch boundary.
    pub fn process_event(&mut self, event: NativeEvent) -> (actions: Vec<LoopAction>)
        requires
            old(self).wf(),
        ensures
            final(self).wf(),
            actions@ == step_actions(old(self), event),
            final(self).queue() == old(self).queue() + queued_by(old(self).key_buffer(), event),
            final(self).mirrors() == mirrors_after(old(self).mirrors(), event),
            final(self).key_buffer() == key_buffer_after_event(old(self).key_buffer(), event),
            final(self).windows() == old(self).windows(),
            final(self).redraw_listeners() == old(self).redraw_listeners(),
            final(self).resize_listeners() == old(self).resize_listeners(),
            final(self).is_running() == old(self).is_running(),
    {
        let mut actions: Vec<LoopAction> = Vec::new();
        match &event {
            NativeEvent::RedrawRequested(window_id) => {
                self.on_redraw_requested(*window_id, &mut actions);
            },
            NativeEvent::WindowEvent { window_id, event: window_event } => match window_event {
                NativeWindowEvent::Resized { width, height } => {
                    let _ = self.on_window_resized(
                        *window_id,
                        PhysicalSize { width: *width, height: *height },
                        &mut actions,
                    );
                },
                NativeWindowEvent::ScaleFactorChanged { scale_factor, width, height } => {
                    let _ = self.on_window_scale_changed(
                        *window_id,
                        *scale_factor,
                        PhysicalSize { width: *width, height: *height },
                        &mut actions,
                    );
                },
                NativeWindowEvent::ImeCommit(chars) => {
                    self.on_ime_commit(*window_id, chars, &mut actions);
                },
                _ => {},
            },
            _ => {},
        }
        proof {
            assert(actions@ =~= handler_actions(
                old(self).mirrors().dom(),
                old(self).redraw_listeners().dom(),
                old(self).resize_listeners().dom(),
                event,
            ));
        }
        let ghost before_translation = self.queue();
        let ghost handled = actions@;

        let mut c_event = WinitEvent::default();
        let processed = self.event_processor.process(event, &mut c_event);
        if processed {
            let event_type = c_event.event_type;
            if event_type != WinitEventType::MainEventsCleared && event_type
                != WinitEventType::RedrawEventsCleared && event_type != WinitEventType::NewEvents
                && event_type != WinitEventType::RedrawRequested {
                self.push(c_event);
                actions.push(LoopAction::SignalSemaphore);
            }
            if event_type == WinitEventType::MainEventsCleared || event_type
                == WinitEventType::RedrawEventsCleared {
                actions.push(LoopAction::SignalMainEventsCleared);
            }
        }
        proof {
            assert(actions@ =~= handled + signal_actions(old(self).key_buffer(), event));
            assert(self.queue() =~= old(self).queue() + queued_by(old(self).key_buffer(), event));
        }
        actions
    }
}

/// The event that a poll of `queue` returns.
pub open spec fn poll_result(queue: Seq<WinitEvent>) -> Option<WinitEvent> {
    if queue.len() == 0 {
        None
    } else {
        Some(queue[0])
    }
}

/// The queue after a poll.
pub open spec fn after_poll(queue: Seq<WinitEvent>) -> Seq<WinitEvent> {
    if queue.len() == 0 {
        queue
    } else {
        queue.subrange(1, queue.len() as int)
    }
}

/// The queue is first in, first out: three events pushed onto an empty queue come out of
/// three polls in the order they went in, and a fourth poll finds the queue empty.
pub proof fn lemma_queue_fifo(queue: Seq<WinitEvent>, e1: WinitEvent, e2: WinitEvent, e3: WinitEvent)
    requires
        queue.len() == 0,
    ensures
        ({
            let filled = queue.push(e1).push(e2).push(e3);
            &&& poll_result(filled) == Some(e1)
            &&& poll_result(after_poll(filled)) == Some(e2)
            &&& poll_result(after_poll(after_poll(filled))) == Some(e3)
            &&& poll_result(after_poll(after_poll(after_poll(filled)))) == None::<WinitEvent>
        }),
{
    let filled = queue.push(e1).push(e2).push(e3);
    assert(after_poll(filled) =~= seq![e2, e3]);
    assert(after_poll(after_poll(filled)) =~= seq![e3]);
}

/// Once a window is destroyed it stays gone: it is not registered, so any access to it
/// fails with `WindowNotFound`, and no later event notifies a listener of it, touches
/// its mirror or asks it to redraw.
pub proof fn lemma_destroyed_window_stays_gone<W, R, Z>(
    before: &PollingEventLoop<W, R, Z>,
    after: &PollingEventLoop<W, R, Z>,
    window_id: u128,
    event: NativeEvent,
)
    requires
        before.wf(),
        after.wf(),
        destroyed(before, after, window_id),
    ensures
        !after.windows().contains_key(window_id),
        !after.mirrors().contains_key(window_id),
        !mirrors_after(after.mirrors(), event).contains_key(window_id),
        forall|i: int|
            0 <= i < step_actions(after, event).len() ==> match #[trigger] step_actions(
                after,
                event,
            )[i] {
                LoopAction::NotifyRedrawListener { window_id: id } => id != window_id,
                LoopAction::NotifyResizeListener { window_id: id, .. } => id != window_id,
                LoopAction::RequestRedraw { window_id: id } => id != window_id,
                _ => true,
            },
{
    let handled = handler_actions(
        after.mirrors().dom(),
        after.redraw_listeners().dom(),
        after.resize_listeners().dom(),
        event,
    );
    let signals = signal_actions(after.key_buffer(), event);
    assert forall|i: int| 0 <= i < signals.len() implies (#[trigger] signals[i] is SignalSemaphore
        || signals[i] is SignalMainEventsCleared) by {}
    assert forall|i: int| 0 <= i < handled.len() implies match #[trigger] handled[i] {
        LoopAction::NotifyRedrawListener { window_id: id } => id != window_id,
        LoopAction::NotifyResizeListener { window_id: id, .. } => id != window_id,
        LoopAction::RequestRedraw { window_id: id } => id != window_id,
        _ => true,
    } by {}
    assert forall|i: int| 0 <= i < step_actions(after, event).len() implies match #[trigger] step_actions(
        after,
        event,
    )[i] {
        LoopAction::NotifyRedrawListener { window_id: id } => id != window_id,
        LoopAction::NotifyResizeListener { window_id: id, .. } => id != window_id,
        LoopAction::RequestRedraw { window_id: id } => id != window_id,
        _ => true,
    } by {
        if i < handled.len() {
            assert(step_actions(after, event)[i] == handled[i]);
        } else {
            assert(step_actions(after, event)[i] == signals[i - handled.len()]);
        }
    }
}

/// The number of semaphore signals among `actions`.
pub open spec fn semaphore_signals(actions: Seq<LoopAction>) -> nat
    decreases actions.len(),
{
    if actions.len() == 0 {
        0
    } else {
        semaphore_signals(actions.drop_last()) + if actions.last() is SignalSemaphore {
            1nat
        } else {
            0nat
        }
    }
}

proof fn lemma_semaphore_signals_concat(a: Seq<LoopAction>, b: Seq<LoopAction>)
    ensures
        semaphore_signals(a + b) == semaphore_signals(a) + semaphore_signals(b),
    decreases b.len(),
{
    if b.len() == 0 {
        assert(a + b =~= a);
    } else {
        lemma_semaphore_signals_concat(a, b.drop_last());
        assert((a + b).drop_last() =~= a + b.drop_last());
    }
}

proof fn lemma_no_semaphore_signals(actions: Seq<LoopAction>)
    requires
        forall|i: int| 0 <= i < actions.len() ==> !(#[trigger] actions[i] is SignalSemaphore),
    ensures
        semaphore_signals(actions) == 0,
    decreases actions.len(),
{
    if actions.len() > 0 {
        lemma_no_semaphore_signals(actions.drop_last());
    }
}

proof fn lemma_only_semaphore_signals(n: nat)
    ensures
        semaphore_signals(Seq::new(n, |i: int| LoopAction::SignalSemaphore)) == n,
    decreases n,
{
    if n > 0 {
        lemma_only_semaphore_signals((n - 1) as nat);
        assert(Seq::new(n, |i: int| LoopAction::SignalSemaphore).drop_last() =~= Seq::new(
            (n - 1) as nat,
            |i: int| LoopAction::SignalSemaphore,
        ));
    }
}

/// Each dispatch step signals the semaphore exactly once per event that it queues, so a
/// consumer that waits on the semaphore finds an event for every signal.
pub proof fn lemma_one_signal_per_queued_event<W, R, Z>(
    state: &PollingEventLoop<W, R, Z>,
    event: NativeEvent,
)
    ensures
        semaphore_signals(step_actions(state, event)) == queued_by(state.key_buffer(), event).len(),
{
    let handled = handler_actions(
        state.mirrors().dom(),
        state.redraw_listeners().dom(),
        state.resize_listeners().dom(),
        event,
    );
    let signals = signal_actions(state.key_buffer(), event);
    lemma_semaphore_signals_concat(handled, signals);

    let ime_count: nat = match event {
        NativeEvent::WindowEvent { event: NativeWindowEvent::ImeCommit(chars), .. } => chars@.len(),
        _ => 0,
    };
    match event {
        NativeEvent::WindowEvent { event: NativeWindowEvent::ImeCommit(chars), .. } => {
            lemma_only_semaphore_signals(chars@.len());
        },
        _ => {
            assert forall|i: int| 0 <= i < handled.len() implies !(
            #[trigger] handled[i] is SignalSemaphore) by {}
            lemma_no_semaphore_signals(handled);
        },
    }
    assert(semaphore_signals(handled) == ime_count);

    let semaphore = seq![LoopAction::SignalSemaphore];
    let boundary = seq![LoopAction::SignalMainEventsCleared];
    assert(semaphore.drop_last() =~= Seq::<LoopAction>::empty());
    assert(boundary.drop_last() =~= Seq::<LoopAction>::empty());
    assert(semaphore_signals(semaphore) == 1);
    assert(semaphore_signals(boundary) == 0);
    assert(semaphore_signals(Seq::<LoopAction>::empty()) == 0);
    if is_consumed(event) {
        let kind = translated(state.key_buffer(), event).event_type;
        let first = if enqueued_kind(kind) {
            semaphore
        } else {
            Seq::empty()
        };
        if batch_boundary(kind) {
            assert(signals =~= first + boundary);
            lemma_semaphore_signals_concat(first, boundary);
        } else {
            assert(signals =~= first);
        }
    } else {
        assert(signals =~= Seq::<LoopAction>::empty());
    }
}

} // verus!
