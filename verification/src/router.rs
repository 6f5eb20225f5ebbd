//! The event router: a pure function from the registry state and one
//! incoming platform event to the next registry state and the actions the
//! application shell must perform. All state lives in the registry and
//! its records; the router itself is stateless between events.

use vstd::prelude::*;
use crate::color::spec_derived_clear_color;
use crate::color::derived_clear_color;
use crate::geom::{CursorPos, Frac, Size};
use crate::record::{Modifiers, Theme, WindowRecord};
use crate::registry::{Registry, RegistryModel};
use crate::surface::SurfaceError;

verus! {

/// The keys the router distinguishes: the designated quit key and
/// everything else.
#[derive(Clone, Copy, Debug, PartialEq, Eq, Structural)]
pub enum Key {
    Escape,
    Other,
}

/// A platform event addressed to one window.
#[derive(Clone, Copy, Debug, PartialEq, Eq, Structural)]
pub enum WindowEventKind {
    RedrawRequested,
    KeyboardInput { key: Key, pressed: bool },
    CursorMoved { pos: CursorPos },
    CursorLeft,
    CloseRequested,
    Resized { size: Size },
    ScaleFactorChanged { scale: Frac },
    Occluded { hidden: bool },
    ThemeChanged { theme: Theme },
    ModifiersChanged { modifiers: Modifiers },
}

/// One event from the platform event stream: either addressed to a
/// window by identity, or the idle tick that carries none.
#[derive(Clone, Copy, Debug, PartialEq, Eq, Structural)]
pub enum PlatformEvent {
    Windowed { id: u64, kind: WindowEventKind },
    AboutToWait,
}

/// A side effect the application shell must perform after a routing
/// step: drive a present cycle, ask the platform for a redraw, hint the
/// IME composition area, or terminate the application.
#[derive(Clone, Copy, Debug, PartialEq, Eq, Structural)]
pub enum Action {
    AcquireFrame { id: u64 },
    RequestRedraw { id: u64 },
    SetImeCursorArea { id: u64, pos: CursorPos },
    Exit,
}

/// Events are well formed when the numeric payloads they carry are: a
/// scale factor is a fraction with a positive denominator.
pub open spec fn event_wf(e: PlatformEvent) -> bool {
    match e {
        PlatformEvent::Windowed { kind: WindowEventKind::ScaleFactorChanged { scale }, .. } =>
            scale.wf(),
        _ => true,
    }
}

/// The effect of one windowed event on its target record, and the
/// actions it gives rise to.
pub open spec fn spec_apply_kind(rec: WindowRecord, id: u64, kind: WindowEventKind) -> (
    WindowRecord,
    Seq<Action>,
) {
    match kind {
        WindowEventKind::RedrawRequested => (
            rec,
            if rec.occluded {
                Seq::<Action>::empty()
            } else {
                seq![Action::AcquireFrame { id }]
            },
        ),
        WindowEventKind::KeyboardInput { key, pressed } => (
            rec,
            if pressed && key is Escape {
                seq![Action::Exit]
            } else {
                Seq::<Action>::empty()
            },
        ),
        WindowEventKind::CursorMoved { pos } => (
            WindowRecord {
                cursor: Some(pos),
                clear_color: spec_derived_clear_color(pos, rec.size),
                ..rec
            },
            if rec.ime {
                seq![Action::SetImeCursorArea { id, pos }]
            } else {
                Seq::<Action>::empty()
            },
        ),
        WindowEventKind::CursorLeft => (WindowRecord { cursor: None, ..rec }, Seq::<Action>::empty()),
        WindowEventKind::CloseRequested => (rec, seq![Action::Exit]),
        WindowEventKind::Resized { size } => (
            rec.spec_resize(size),
            if size.is_nonzero() {
                seq![Action::RequestRedraw { id }]
            } else {
                Seq::<Action>::empty()
            },
        ),
        WindowEventKind::ScaleFactorChanged { scale } => (
            WindowRecord { ui: crate::record::UiSession { scale }, ..rec },
            Seq::<Action>::empty(),
        ),
        WindowEventKind::Occluded { hidden } => (
            WindowRecord { occluded: hidden, ..rec },
            if !hidden {
                seq![Action::RequestRedraw { id }]
            } else {
                Seq::<Action>::empty()
            },
        ),
        WindowEventKind::ThemeChanged { theme } => (
            WindowRecord { theme, ..rec },
            seq![Action::RequestRedraw { id }],
        ),
        WindowEventKind::ModifiersChanged { modifiers } => (
            WindowRecord { modifiers, ..rec },
            Seq::<Action>::empty(),
        ),
    }
}

/// The full effect of routing one platform event: a windowed event whose
/// identity is unknown is dropped; a windowed event whose identity is
/// known first moves the focus pointer, then applies its kind to the
/// target record; the idle tick requests a redraw on the current window.
pub open spec fn spec_step(m: RegistryModel, e: PlatformEvent) -> (RegistryModel, Seq<Action>) {
    match e {
        PlatformEvent::Windowed { id, kind } => {
            if m.contains(id) {
                let applied = spec_apply_kind(m.record_of(id), id, kind);
                (
                    RegistryModel {
                        records: m.records.update(m.index_of(id), applied.0),
                        current: id,
                    },
                    applied.1,
                )
            } else {
                (m, Seq::<Action>::empty())
            }
        },
        PlatformEvent::AboutToWait => (m, seq![Action::RequestRedraw { id: m.current }]),
    }
}

/// Applies one windowed event kind to its target record, performing the
/// state mutation the router decides on and collecting the actions for
/// the application shell.
fn apply_kind(rec: &mut WindowRecord, id: u64, kind: WindowEventKind) -> (actions: Vec<Action>)
    requires
        old(rec).wf(),
        event_wf(PlatformEvent::Windowed { id, kind }),
    ensures
        *final(rec) == spec_apply_kind(*old(rec), id, kind).0,
        actions@ == spec_apply_kind(*old(rec), id, kind).1,
        final(rec).wf(),
        final(rec).id == old(rec).id,
{
    let mut actions: Vec<Action> = Vec::new();
    match kind {
        WindowEventKind::RedrawRequested => {
            if rec.draw() {
                actions.push(Action::AcquireFrame { id });
            }
        },
        WindowEventKind::KeyboardInput { key, pressed } => {
            if pressed && key == Key::Escape {
                actions.push(Action::Exit);
            }
        },
        WindowEventKind::CursorMoved { pos } => {
            let hint = rec.cursor_moved(pos);
            let size = rec.size;
            let color = derived_clear_color(pos, size);
            rec.set_clear_color(color);
            match hint {
                Some(p) => {
                    actions.push(Action::SetImeCursorArea { id, pos: p });
                },
                None => {},
            }
        },
        WindowEventKind::CursorLeft => {
            rec.cursor_left();
        },
        WindowEventKind::CloseRequested => {
            actions.push(Action::Exit);
        },
        WindowEventKind::Resized { size } => {
            let redraw = rec.resize(size);
            if redraw {
                actions.push(Action::RequestRedraw { id });
            }
        },
        WindowEventKind::ScaleFactorChanged { scale } => {
            rec.set_scale_factor(scale);
        },
        WindowEventKind::Occluded { hidden } => {
            let redraw = rec.set_occluded(hidden);
            if redraw {
                actions.push(Action::RequestRedraw { id });
            }
        },
        WindowEventKind::ThemeChanged { theme } => {
            let redraw = rec.set_theme(theme);
            if redraw {
                actions.push(Action::RequestRedraw { id });
            }
        },
        WindowEventKind::ModifiersChanged { modifiers } => {
            rec.set_modifiers(modifiers);
        },
    }
    proof {
        assert(actions@ =~= spec_apply_kind(*old(rec), id, kind).1);
    }
    actions
}

/// Routes one platform event, mutating the registry as `spec_step`
/// describes and returning the actions the application shell must
/// perform.
pub fn process_event(registry: &mut Registry, event: PlatformEvent) -> (actions: Vec<Action>)
    requires
        old(registry)@.wf(),
        event_wf(event),
    ensures
        final(registry)@ == spec_step(old(registry)@, event).0,
        actions@ == spec_step(old(registry)@, event).1,
        final(registry)@.wf(),
{
    match event {
        PlatformEvent::AboutToWait => {
            let id = registry.current;
            let mut actions: Vec<Action> = Vec::new();
            actions.push(Action::RequestRedraw { id });
            proof {
                assert(actions@ =~= spec_step(old(registry)@, event).1);
            }
            actions
        },
        PlatformEvent::Windowed { id, kind } => {
            if !registry.contains(id) {
                let actions: Vec<Action> = Vec::new();
                proof {
                    assert(actions@ =~= Seq::<Action>::empty());
                }
                actions
            } else {
                registry.set_current(id);
                let mut rec = match registry.get(id) {
                    Ok(r) => r,
                    Err(_) => unreached(),
                };
                let actions = apply_kind(&mut rec, id, kind);
                registry.update_record(rec);
                proof {
                    assert(final(registry)@.records == spec_step(old(registry)@, event).0.records);
                }
                actions
            }
        },
    }
}

/// The full effect of routing a sequence of platform events in order:
/// each event steps the registry, and the actions of the steps are
/// concatenated.
pub open spec fn spec_steps(m: RegistryModel, events: Seq<PlatformEvent>) -> (
    RegistryModel,
    Seq<Action>,
)
    decreases events.len(),
{
    if events.len() == 0 {
        (m, Seq::<Action>::empty())
    } else {
        let head = spec_step(m, events[0]);
        let tail = spec_steps(head.0, events.skip(1));
        (tail.0, head.1 + tail.1)
    }
}

/// Routes a sequence of platform events in order, as `spec_steps`
/// describes, concatenating the actions of each step.
pub fn process_events(registry: &mut Registry, events: &Vec<PlatformEvent>) -> (actions: Vec<
    Action,
>)
    requires
        old(registry)@.wf(),
        forall|i: int| 0 <= i < events@.len() ==> event_wf(events@[i]),
    ensures
        final(registry)@ == spec_steps(old(registry)@, events@).0,
        actions@ == spec_steps(old(registry)@, events@).1,
        final(registry)@.wf(),
{
    let mut actions: Vec<Action> = Vec::new();
    let mut k: usize = 0;
    proof {
        assert(events@.skip(0) =~= events@);
        assert(actions@ + spec_steps(registry@, events@).1 =~= spec_steps(registry@, events@).1);
    }
    while k < events.len()
        invariant
            k <= events@.len(),
            registry@.wf(),
            forall|i: int| 0 <= i < events@.len() ==> event_wf(events@[i]),
            spec_steps(old(registry)@, events@).0 == spec_steps(registry@, events@.skip(k as int)).0,
            spec_steps(old(registry)@, events@).1 == actions@ + spec_steps(
                registry@,
                events@.skip(k as int),
            ).1,
        decreases events@.len() - k,
    {
        proof {
            let remaining = events@.skip(k as int);
            assert(remaining[0] == events@[k as int]);
            assert(remaining.skip(1) =~= events@.skip(k as int + 1));
        }
        let ghost mid = registry@;
        let mut step = process_event(registry, events[k]);
        proof {
            assert(spec_steps(mid, events@.skip(k as int)).0 == spec_steps(
                registry@,
                events@.skip(k as int + 1),
            ).0);
            assert(spec_steps(mid, events@.skip(k as int)).1 == step@ + spec_steps(
                registry@,
                events@.skip(k as int + 1),
            ).1);
        }
        actions.append(&mut step);
        proof {
            assert(spec_steps(old(registry)@, events@).1 == actions@ + spec_steps(
                registry@,
                events@.skip(k as int + 1),
            ).1);
        }
        k = k + 1;
    }
    proof {
        assert(events@.skip(events@.len() as int) =~= Seq::<PlatformEvent>::empty());
        assert(actions@ + Seq::<Action>::empty() =~= actions@);
    }
    actions
}

/// A windowed event whose identity the registry does not know.
pub open spec fn spec_unknown_windowed(m: RegistryModel, e: PlatformEvent) -> bool {
    e matches PlatformEvent::Windowed { id, .. } && !m.contains(id)
}

/// Any sequence of windowed events referencing identities not present
/// in the registry leaves the mapping and the focus pointer unchanged
/// and gives rise to no action.
pub proof fn lemma_unknown_sequence_dropped(m: RegistryModel, events: Seq<PlatformEvent>)
    requires
        forall|i: int| 0 <= i < events.len() ==> spec_unknown_windowed(m, #[trigger] events[i]),
    ensures
        spec_steps(m, events).0 == m,
        spec_steps(m, events).1 == Seq::<Action>::empty(),
    decreases events.len(),
{
    if events.len() > 0 {
        lemma_unknown_windowed_dropped(m, events[0]);
        assert(forall|i: int|
            0 <= i < events.skip(1).len() ==> spec_unknown_windowed(
                m,
                #[trigger] events.skip(1)[i],
            ));
        lemma_unknown_sequence_dropped(m, events.skip(1));
        assert(spec_steps(m, events).1 =~= Seq::<Action>::empty());
    }
}

/// Windowed events referencing an identity not present in the registry
/// leave the mapping and the focus pointer unchanged and give rise to no
/// action.
pub proof fn lemma_unknown_windowed_dropped(m: RegistryModel, e: PlatformEvent)
    requires
        spec_unknown_windowed(m, e),
    ensures
        spec_step(m, e).0 == m,
        spec_step(m, e).1 == Seq::<Action>::empty(),
{
}

/// A windowed event for a known identity always moves the focus pointer
/// to that identity, whatever record was current before, and changes no
/// record other than its target.
pub proof fn lemma_focus_follows_windowed(m: RegistryModel, id: u64, kind: WindowEventKind)
    requires
        m.wf(),
        m.contains(id),
    ensures
        spec_step(m, PlatformEvent::Windowed { id, kind }).0.current == id,
        spec_step(m, PlatformEvent::Windowed { id, kind }).0.records == m.records.update(
            m.index_of(id),
            spec_apply_kind(m.record_of(id), id, kind).0,
        ),
        forall|k: int|
            0 <= k < m.records.len() && k != m.index_of(id)
                ==> spec_step(m, PlatformEvent::Windowed { id, kind }).0.records[k] == m.records[k],
{
}

/// A redraw request on an occluded record performs no GPU work at all:
/// the record, and with it every submission counter, is unchanged, and no
/// acquire action is issued.
pub proof fn lemma_occluded_draw_is_noop(rec: WindowRecord, id: u64)
    requires
        rec.occluded,
    ensures
        spec_apply_kind(rec, id, WindowEventKind::RedrawRequested).0 == rec,
        spec_apply_kind(rec, id, WindowEventKind::RedrawRequested).1 == Seq::<Action>::empty(),
{
}

/// What the router does with the outcome of a failed frame acquisition:
/// a lost surface is reconfigured at its last known size and a new
/// redraw is requested; out-of-memory raises the process-termination
/// signal exactly once; the remaining transient errors are left for the
/// next redraw tick to retry.
pub open spec fn spec_redraw_outcome(m: RegistryModel, id: u64, err: SurfaceError) -> (
    RegistryModel,
    Seq<Action>,
) {
    match err {
        SurfaceError::OutOfMemory => (m, seq![Action::Exit]),
        SurfaceError::Lost => (
            RegistryModel {
                records: m.records.update(m.index_of(id), m.record_of(id).spec_restore()),
                ..m
            },
            seq![Action::RequestRedraw { id }],
        ),
        _ => (m, Seq::<Action>::empty()),
    }
}

/// Interprets the error a record's frame acquisition reported, as
/// `spec_redraw_outcome` describes.
pub fn redraw_failed(registry: &mut Registry, id: u64, err: SurfaceError) -> (actions: Vec<Action>)
    requires
        old(registry)@.wf(),
        old(registry)@.contains(id),
    ensures
        final(registry)@ == spec_redraw_outcome(old(registry)@, id, err).0,
        actions@ == spec_redraw_outcome(old(registry)@, id, err).1,
        final(registry)@.wf(),
{
    let mut actions: Vec<Action> = Vec::new();
    match err {
        SurfaceError::OutOfMemory => {
            actions.push(Action::Exit);
            proof {
                assert(actions@ =~= seq![Action::Exit]);
            }
        },
        SurfaceError::Lost => {
            let mut rec = match registry.get(id) {
                Ok(r) => r,
                Err(_) => unreached(),
            };
            rec.restore_after_loss();
            registry.update_record(rec);
            actions.push(Action::RequestRedraw { id });
            proof {
                assert(actions@ =~= seq![Action::RequestRedraw { id }]);
            }
        },
        _ => {},
    }
    actions
}

/// Recovery from a lost surface terminates nothing and touches nothing
/// but the lost record's binding, which keeps its configuration and
/// size, is no longer lost, and has applied exactly one more
/// reconfiguration to the device.
pub proof fn lemma_lost_surface_recovers(m: RegistryModel, id: u64)
    requires
        m.wf(),
        m.contains(id),
    ensures
        !spec_redraw_outcome(m, id, SurfaceError::Lost).1.contains(Action::Exit),
        spec_redraw_outcome(m, id, SurfaceError::Lost).1 =~= seq![Action::RequestRedraw { id }],
        spec_redraw_outcome(m, id, SurfaceError::Lost).0.record_of(id).binding.config
            == m.record_of(id).binding.config,
        spec_redraw_outcome(m, id, SurfaceError::Lost).0.record_of(id).size == m.record_of(id).size,
        !spec_redraw_outcome(m, id, SurfaceError::Lost).0.record_of(id).binding.lost,
        spec_redraw_outcome(m, id, SurfaceError::Lost).0.record_of(id).binding.reconfigure_count
            == crate::surface::spec_bump(m.record_of(id).binding.reconfigure_count),
{
    let w = m.index_of(id);
    assert(m.records[w].id == id);
    let m2 = spec_redraw_outcome(m, id, SurfaceError::Lost).0;
    assert(m2.records[w].id == id);
    assert(m2.contains(id));
    lemma_unique_index_model(m2, id, w);
    crate::record::lemma_restore_reapplies_config(m.record_of(id));
}

/// Out-of-memory on a redraw raises the termination signal exactly once
/// and leaves the registry untouched.
pub proof fn lemma_out_of_memory_terminates(m: RegistryModel, id: u64)
    ensures
        spec_redraw_outcome(m, id, SurfaceError::OutOfMemory).0 == m,
        spec_redraw_outcome(m, id, SurfaceError::OutOfMemory).1 =~= seq![Action::Exit],
        spec_redraw_outcome(m, id, SurfaceError::OutOfMemory).1.len() == 1,
{
}

/// The index chosen for an identity is the only index carrying it.
proof fn lemma_unique_index_model(m: RegistryModel, id: u64, i: int)
    requires
        m.ids_unique(),
        0 <= i < m.records.len(),
        m.records[i].id == id,
        m.contains(id),
    ensures
        m.index_of(id) == i,
{
    crate::registry::lemma_unique_index(m.records, i, m.index_of(id));
}

} // verus!
