//! The decisions of the root component: the render gates of the tabs, the
//! shared connections stream, idle tabs and the global keys.
use vstd::prelude::*;
use crate::action::Action;
use crate::key::{Key, KeyInput, MOD_CONTROL};
use crate::message::AppMessage;
use crate::tabs::{
    COMPONENT_COUNT, ComponentId, TAB_COUNT, component_number, component_of, lemma_component_number,
    spec_component_number, spec_tabs, tab_at,
};

verus! {

/// How a component asks for a redraw: through the shared requester, or
/// through render gate number `n`.
#[derive(Debug, Clone, Copy, PartialEq, Eq, Structural)]
pub enum RenderHandle {
    Shared,
    Gated(usize),
}

/// Why no render handle could be given.
#[derive(Debug, Clone, Copy, PartialEq, Eq, Structural)]
pub enum RenderError {
    /// No requester was registered yet.
    NotInitialized,
}

impl RenderError {
    /// The message of the error.
    pub fn to_string(&self) -> (r: String)
        ensures
            r@ == "render requester is not initialized"@,
    {
        "render requester is not initialized".to_string()
    }
}

/// The live gate of a tab: the last entry for it.
pub open spec fn gate_lookup(gates: Seq<(ComponentId, usize)>, id: ComponentId) -> Option<usize>
    decreases gates.len(),
{
    if gates.len() == 0 {
        None
    } else if gates.last().0 == id {
        Some(gates.last().1)
    } else {
        gate_lookup(gates.drop_last(), id)
    }
}

/// Render gate states after setting the live gate of `id`, if it has one.
pub open spec fn with_gate(states: Seq<bool>, gates: Seq<(ComponentId, usize)>, id: ComponentId, visible: bool) -> Seq<
    bool,
> {
    match gate_lookup(gates, id) {
        Some(s) => states.update(s as int, visible),
        None => states,
    }
}

/// Whether a tab's redraws go through a gate: only tabs with continuously
/// running streams have one.
pub open spec fn spec_uses_render_gate(id: ComponentId) -> bool {
    id == ComponentId::Overview || id == ComponentId::Connections || id == ComponentId::Logs
}

/// The render requesters of the components: a shared one, and for the tabs
/// with running streams a gate that lets redraws through only while the tab
/// is shown.
#[derive(Debug)]
pub struct TabRenderRequesters {
    pub registered: bool,
    /// The state of every gate handed out, by gate number.
    pub gate_states: Vec<bool>,
    /// The gates of the tabs; the last entry of a tab is its live gate.
    pub gates: Vec<(ComponentId, usize)>,
}

impl TabRenderRequesters {
    /// Every gate of a tab was handed out.
    pub open spec fn wf(&self) -> bool {
        forall|i: int| 0 <= i < self.gates@.len() ==> #[trigger] self.gates@[i].1 < self.gate_states@.len()
    }

    /// The live gate of a tab.
    pub open spec fn gate_of(&self, id: ComponentId) -> Option<usize> {
        gate_lookup(self.gates@, id)
    }

    /// Whether a redraw through the handle reaches the screen.
    pub open spec fn spec_delivers(&self, h: RenderHandle) -> bool {
        match h {
            RenderHandle::Shared => true,
            RenderHandle::Gated(s) => s < self.gate_states@.len() && self.gate_states@[s as int],
        }
    }

    /// No requester and no gate.
    pub fn new() -> (r: Self)
        ensures
            r.wf(),
            !r.registered,
            r.gate_states@.len() == 0,
            r.gates@.len() == 0,
    {
        TabRenderRequesters { registered: false, gate_states: Vec::new(), gates: Vec::new() }
    }

    /// Registers the shared requester.
    pub fn register(&mut self)
        ensures
            final(self).registered,
            final(self).gate_states@ == old(self).gate_states@,
            final(self).gates@ == old(self).gates@,
    {
        self.registered = true;
    }

    /// Whether a tab's redraws go through a gate.
    pub fn uses_render_gate(id: ComponentId) -> (r: bool)
        ensures
            r == spec_uses_render_gate(id),
    {
        match id {
            ComponentId::Overview | ComponentId::Connections | ComponentId::Logs => true,
            _ => false,
        }
    }

    /// The render handle for component `id`: the shared one, or a new gate,
    /// open exactly when `id` is the current tab, that becomes the live gate
    /// of `id`. Refused before a requester is registered.
    pub fn requester_for(&mut self, id: ComponentId, current_tab: ComponentId) -> (r: Result<
        RenderHandle,
        RenderError,
    >)
        requires
            old(self).wf(),
        ensures
            final(self).wf(),
            final(self).registered == old(self).registered,
            !old(self).registered ==> r == Err::<RenderHandle, RenderError>(RenderError::NotInitialized)
                && final(self).gate_states@ == old(self).gate_states@
                && final(self).gates@ == old(self).gates@,
            old(self).registered && !spec_uses_render_gate(id) ==> r == Ok::<RenderHandle, RenderError>(
                RenderHandle::Shared,
            ) && final(self).gate_states@ == old(self).gate_states@ && final(self).gates@
                == old(self).gates@,
            old(self).registered && spec_uses_render_gate(id) ==> {
                &&& r == Ok::<RenderHandle, RenderError>(RenderHandle::Gated(old(self).gate_states@.len() as usize))
                &&& final(self).gate_states@ == old(self).gate_states@.push(id == current_tab)
                &&& final(self).gate_of(id) == Some(old(self).gate_states@.len() as usize)
                &&& forall|o: ComponentId| o != id ==> #[trigger] final(self).gate_of(o) == old(self).gate_of(o)
            },
    {
        if !self.registered {
            return Err(RenderError::NotInitialized);
        }
        if !Self::uses_render_gate(id) {
            return Ok(RenderHandle::Shared);
        }
        let n = self.gate_states.len();
        self.gate_states.push(id == current_tab);
        let ghost before = self.gates@;
        self.gates.push((id, n));
        assert forall|o: ComponentId| o != id implies #[trigger] gate_lookup(self.gates@, o) == gate_lookup(
            before,
            o,
        ) by {
            assert(self.gates@.drop_last() =~= before);
        }
        assert(self.gates@.drop_last() =~= before);
        Ok(RenderHandle::Gated(n))
    }

    /// Opens or closes the live gate of `id`, if it has one.
    pub fn set_render_gate(&mut self, id: ComponentId, visible: bool)
        requires
            old(self).wf(),
        ensures
            final(self).wf(),
            final(self).registered == old(self).registered,
            final(self).gates@ == old(self).gates@,
            final(self).gate_states@ == with_gate(old(self).gate_states@, old(self).gates@, id, visible),
    {
        let mut i: usize = self.gates.len();
        assert(self.gates@.take(i as int) =~= self.gates@);
        while i > 0
            invariant
                i <= self.gates@.len(),
                self.wf(),
                self.gates@ == old(self).gates@,
                self.gate_states@ == old(self).gate_states@,
                self.registered == old(self).registered,
                gate_lookup(self.gates@, id) == gate_lookup(self.gates@.take(i as int), id),
            decreases i,
        {
            let ghost t = self.gates@.take(i as int);
            assert(t.drop_last() =~= self.gates@.take(i - 1));
            if self.gates[i - 1].0 == id {
                let s = self.gates[i - 1].1;
                self.gate_states.set(s, visible);
                return;
            }
            i = i - 1;
        }
        assert(self.gates@.take(0).len() == 0);
    }

    /// Closes the render gate of the tab left and opens that of the tab shown.
    pub fn switch_tab(&mut self, from: ComponentId, to: ComponentId)
        requires
            old(self).wf(),
        ensures
            final(self).wf(),
            final(self).registered == old(self).registered,
            final(self).gates@ == old(self).gates@,
            from == to ==> final(self).gate_states@ == old(self).gate_states@,
            from != to ==> final(self).gate_states@ == with_gate(
                with_gate(old(self).gate_states@, old(self).gates@, from, false),
                old(self).gates@,
                to,
                true,
            ),
    {
        if from != to {
            self.set_render_gate(from, false);
            self.set_render_gate(to, true);
        }
    }

    /// Drops the render gate of a destroyed component.
    pub fn remove(&mut self, id: ComponentId)
        requires
            old(self).wf(),
        ensures
            final(self).wf(),
            final(self).registered == old(self).registered,
            final(self).gate_states@ == old(self).gate_states@,
            final(self).gate_of(id) is None,
            forall|o: ComponentId| o != id ==> #[trigger] final(self).gate_of(o) == old(self).gate_of(o),
    {
        let mut kept: Vec<(ComponentId, usize)> = Vec::new();
        let mut i: usize = 0;
        while i < self.gates.len()
            invariant
                i <= self.gates@.len(),
                self.wf(),
                forall|j: int| 0 <= j < kept@.len() ==> #[trigger] kept@[j].1 < self.gate_states@.len(),
                gate_lookup(kept@, id) is None,
                forall|o: ComponentId| o != id ==> #[trigger] gate_lookup(kept@, o) == gate_lookup(
                    self.gates@.take(i as int),
                    o,
                ),
            decreases self.gates.len() - i,
        {
            let e = self.gates[i];
            let ghost before = kept@;
            assert(self.gates@.take(i + 1).drop_last() =~= self.gates@.take(i as int));
            if e.0 != id {
                kept.push(e);
                assert(kept@.drop_last() =~= before);
            }
            i = i + 1;
        }
        assert(self.gates@.take(self.gates@.len() as int) =~= self.gates@);
        self.gates = kept;
    }

    /// Whether a redraw through the handle reaches the screen.
    pub fn delivers(&self, h: &RenderHandle) -> (r: bool)
        ensures
            r == self.spec_delivers(*h),
    {
        match h {
            RenderHandle::Shared => true,
            RenderHandle::Gated(s) => *s < self.gate_states.len() && self.gate_states[*s],
        }
    }
}

proof fn lemma_with_gate(states: Seq<bool>, gates: Seq<(ComponentId, usize)>, id: ComponentId, v: bool)
    requires
        forall|i: int| 0 <= i < gates.len() ==> #[trigger] gates[i].1 < states.len(),
    ensures
        with_gate(states, gates, id, v).len() == states.len(),
        gate_lookup(gates, id) matches Some(s) ==> s < states.len(),
    decreases gates.len(),
{
    if gates.len() > 0 && gates.last().0 != id {
        lemma_with_gate(states, gates.drop_last(), id, v);
    }
}

/// After switching from one tab to another, the live gate of the tab shown
/// lets redraws through and that of the tab left holds them back, when the
/// two tabs have different gates; shared handles always get through.
pub proof fn law_switch_tab_gates(
    before: TabRenderRequesters,
    after: TabRenderRequesters,
    from: ComponentId,
    to: ComponentId,
)
    requires
        before.wf(),
        from != to,
        after.gates@ == before.gates@,
        after.gate_states@ == with_gate(
            with_gate(before.gate_states@, before.gates@, from, false),
            before.gates@,
            to,
            true,
        ),
    ensures
        before.gate_of(to) matches Some(s) ==> after.spec_delivers(RenderHandle::Gated(s)),
        before.gate_of(from) matches Some(s) ==> (before.gate_of(to) != Some(s) ==> !after.spec_delivers(
            RenderHandle::Gated(s),
        )),
        after.spec_delivers(RenderHandle::Shared),
{
    lemma_with_gate(before.gate_states@, before.gates@, from, false);
    lemma_with_gate(with_gate(before.gate_states@, before.gates@, from, false), before.gates@, to, true);
}

/// Whether a tab reads the shared connections stream.
pub open spec fn spec_needs_stream(id: ComponentId) -> bool {
    id == ComponentId::Overview || id == ComponentId::Connections
}

/// The shared connections stream: whether it runs.
#[derive(Debug, Clone, Copy, PartialEq, Eq, Structural)]
pub struct ConnectionStreamHub {
    pub active: bool,
}

impl ConnectionStreamHub {
    /// A hub whose stream is not running.
    pub fn new() -> (r: Self)
        ensures
            !r.active,
    {
        ConnectionStreamHub { active: false }
    }

    /// Whether the stream runs.
    pub fn is_active(&self) -> (r: bool)
        ensures
            r == self.active,
    {
        self.active
    }

    /// Whether a tab reads the connections stream.
    pub fn needs_stream(component_id: ComponentId) -> (r: bool)
        ensures
            r == spec_needs_stream(component_id),
    {
        match component_id {
            ComponentId::Overview | ComponentId::Connections => true,
            _ => false,
        }
    }

    /// Whether the stream must be started for the current tab: it is needed
    /// and not running. The hub then counts it as running.
    pub fn start_if_needed(&mut self, current_tab: ComponentId) -> (start: bool)
        ensures
            start == (spec_needs_stream(current_tab) && !old(self).active),
            final(self).active == (old(self).active || start),
    {
        if !Self::needs_stream(current_tab) || self.active {
            return false;
        }
        self.active = true;
        true
    }

    /// Stops the stream when neither the current tab nor an idle tab reads
    /// it; tells whether it stopped.
    pub fn stop_if_unused(&mut self, current_tab: ComponentId, has_idle_consumer: bool) -> (stopped: bool)
        ensures
            stopped == (old(self).active && !spec_needs_stream(current_tab) && !has_idle_consumer),
            final(self).active == (old(self).active && !stopped),
    {
        if self.active && !Self::needs_stream(current_tab) && !has_idle_consumer {
            self.stop();
            return true;
        }
        false
    }

    /// Stops the stream.
    pub fn stop(&mut self)
        ensures
            !final(self).active,
    {
        self.active = false;
    }
}

/// Ticks an idle tab is kept before it is destroyed: 120 seconds at four
/// ticks per second.
pub const IDLE_TICKS: u16 = 480;

/// One tick less, stopping at zero.
pub open spec fn dec_tick(t: u16) -> u16 {
    if t > 0 {
        (t - 1) as u16
    } else {
        0
    }
}

/// The idle table as a map from tab to remaining ticks.
pub open spec fn idle_map(t: Seq<Option<u16>>) -> Map<ComponentId, u16> {
    Map::new(
        |x: ComponentId| t[spec_component_number(x) as int] is Some,
        |x: ComponentId| t[spec_component_number(x) as int]->0,
    )
}

/// The table of live components as a set.
pub open spec fn live_set(t: Seq<bool>) -> Set<ComponentId> {
    Set::new(|x: ComponentId| t[spec_component_number(x) as int])
}

proof fn lemma_push_contains<T>(s: Seq<T>, a: T, x: T)
    ensures
        s.push(a).contains(x) == (s.contains(x) || x == a),
{
    if s.contains(x) {
        let w = choose|w: int| 0 <= w < s.len() && s[w] == x;
        assert(s.push(a)[w] == x);
    }
    if x == a {
        assert(s.push(a)[s.len() as int] == x);
    }
    if s.push(a).contains(x) && x != a {
        let w = choose|w: int| 0 <= w < s.push(a).len() && s.push(a)[w] == x;
        assert(s[w] == x);
    }
}

/// The global keys.
#[derive(Debug, Clone, Copy, PartialEq, Eq, Structural)]
pub enum GlobalShortcut {
    /// `Ctrl+c`.
    Quit,
    /// `Ctrl+l`: destroy every idle tab.
    ClearIdle,
    /// `Ctrl+u` alone, when nothing else has the keyboard.
    AppUpdateRequest,
}

/// Where the root sends a key press.
#[derive(Debug, Clone, Copy, PartialEq, Eq, Structural)]
pub enum KeyRoute {
    Global(GlobalShortcut),
    /// The message box takes every key.
    MsgBox,
    /// The focused component takes every key.
    Focused(ComponentId),
    Quit,
    Help,
    /// A number key: switch to this tab.
    SwitchTab(ComponentId),
    /// A number key without a tab.
    Nothing,
    /// The current tab handles the key.
    CurrentTab(ComponentId),
}

/// The global shortcut of a key press, if it is one.
pub open spec fn spec_global_shortcut(key: KeyInput, busy: bool) -> Option<GlobalShortcut> {
    if key.mods.bits & MOD_CONTROL == MOD_CONTROL {
        match key.code {
            Key::Char('c') => Some(GlobalShortcut::Quit),
            Key::Char('l') => Some(GlobalShortcut::ClearIdle),
            Key::Char('u') => if key.mods.bits == MOD_CONTROL && !busy {
                Some(GlobalShortcut::AppUpdateRequest)
            } else {
                None
            },
            _ => None,
        }
    } else {
        None
    }
}

/// The tab of a number key: `1` is the first tab (as is `0`).
pub open spec fn spec_digit_tab(c: char) -> Option<ComponentId> {
    let index = (c as u32 - 48) as int;
    let i = if index > 0 {
        index - 1
    } else {
        0
    };
    if i < TAB_COUNT {
        Some(spec_tabs()[i])
    } else {
        None
    }
}

/// The state of the root component that its decisions depend on.
#[derive(Debug)]
pub struct RootState {
    pub current_tab: ComponentId,
    /// Remaining ticks of each idle tab, by component number.
    pub idle_ticks: Vec<Option<u16>>,
    /// Whether each component exists, by component number.
    pub live: Vec<bool>,
    pub requesters: TabRenderRequesters,
    pub stream: ConnectionStreamHub,
    pub popup: Option<ComponentId>,
    pub focused: Option<ComponentId>,
    pub msg_box_open: bool,
}

/// What switching tabs asks of the caller.
#[derive(Debug, Clone, Copy, PartialEq, Eq, Structural)]
pub struct TabSwitch {
    /// The connections stream must be started.
    pub start_stream: bool,
    /// The filter box must exist.
    pub needs_filter: bool,
}

/// What a tick did.
#[derive(Debug)]
pub struct TickOutcome {
    /// The idle components destroyed.
    pub destroyed: Vec<ComponentId>,
    /// The connections stream was stopped.
    pub stream_stopped: bool,
}

impl RootState {
    /// The invariant of the root state.
    pub open spec fn wf(&self) -> bool {
        &&& self.requesters.wf()
        &&& self.idle_ticks@.len() == COMPONENT_COUNT
        &&& self.live@.len() == COMPONENT_COUNT
        &&& !self.idle().dom().contains(self.current_tab)
    }

    /// The idle tabs with their remaining ticks.
    pub open spec fn idle(&self) -> Map<ComponentId, u16> {
        idle_map(self.idle_ticks@)
    }

    /// The components that exist.
    pub open spec fn live_components(&self) -> Set<ComponentId> {
        live_set(self.live@)
    }

    /// The state before anything is shown: the default tab, nothing idle,
    /// only the header and the footer exist.
    pub fn new() -> (r: Self)
        ensures
            r.wf(),
            r.current_tab == ComponentId::Overview,
            r.idle() == Map::<ComponentId, u16>::empty(),
            r.live_components() == set![ComponentId::Header, ComponentId::Footer],
            !r.stream.active,
            !r.requesters.registered,
            r.popup is None,
            r.focused is None,
            !r.msg_box_open,
    {
        let mut idle: Vec<Option<u16>> = Vec::new();
        let mut live: Vec<bool> = Vec::new();
        let mut i: usize = 0;
        while i < COMPONENT_COUNT
            invariant
                i <= COMPONENT_COUNT,
                idle@.len() == i,
                live@.len() == i,
                forall|j: int| 0 <= j < i ==> #[trigger] idle@[j] is None,
                forall|j: int| 0 <= j < i ==> #[trigger] live@[j] == (j == 2 || j == 3),
            decreases COMPONENT_COUNT - i,
        {
            idle.push(None);
            live.push(i == 2 || i == 3);
            i = i + 1;
        }
        let r = RootState {
            current_tab: ComponentId::Overview,
            idle_ticks: idle,
            live,
            requesters: TabRenderRequesters::new(),
            stream: ConnectionStreamHub::new(),
            popup: None,
            focused: None,
            msg_box_open: false,
        };
        assert(r.idle() =~= Map::<ComponentId, u16>::empty());
        assert forall|x: ComponentId| #[trigger] r.live_components().contains(x) == set![
            ComponentId::Header,
            ComponentId::Footer,
        ].contains(x) by {
            lemma_component_number(x);
        }
        assert(r.live_components() =~= set![ComponentId::Header, ComponentId::Footer]);
        r
    }

    /// Marks the tab left as idle for `IDLE_TICKS` ticks and the tab shown
    /// as no longer idle.
    pub fn renew_idle(&mut self, to: ComponentId)
        requires
            old(self).idle_ticks@.len() == COMPONENT_COUNT,
        ensures
            final(self).idle_ticks@.len() == COMPONENT_COUNT,
            final(self).idle() == (if old(self).current_tab != to {
                old(self).idle().remove(to).insert(old(self).current_tab, IDLE_TICKS)
            } else {
                old(self).idle().remove(to)
            }),
            final(self).current_tab == old(self).current_tab,
            final(self).live == old(self).live,
            final(self).requesters == old(self).requesters,
            final(self).stream == old(self).stream,
            final(self).popup == old(self).popup,
            final(self).focused == old(self).focused,
            final(self).msg_box_open == old(self).msg_box_open,
    {
        let ghost before = self.idle();
        self.idle_ticks.set(component_number(to), None);
        if self.current_tab != to {
            let n = component_number(self.current_tab);
            self.idle_ticks.set(n, Some(IDLE_TICKS));
        }
        proof {
            lemma_component_number(to);
            lemma_component_number(self.current_tab);
            let expected = if self.current_tab != to {
                before.remove(to).insert(self.current_tab, IDLE_TICKS)
            } else {
                before.remove(to)
            };
            assert forall|x: ComponentId| #[trigger] self.idle().dom().contains(x) == expected.dom().contains(x)
                && (self.idle().dom().contains(x) ==> self.idle()[x] == expected[x]) by {
                lemma_component_number(x);
            }
            assert(self.idle() =~= expected);
        }
    }

    /// Shows tab `to`: the tab left becomes idle, the render gates follow,
    /// and the caller learns whether to start the connections stream and
    /// whether the tab shows the filter box.
    pub fn switch_tab(&mut self, to: ComponentId) -> (r: TabSwitch)
        requires
            old(self).wf(),
        ensures
            final(self).wf(),
            final(self).current_tab == to,
            final(self).idle() == (if old(self).current_tab != to {
                old(self).idle().remove(to).insert(old(self).current_tab, IDLE_TICKS)
            } else {
                old(self).idle().remove(to)
            }),
            final(self).requesters.registered == old(self).requesters.registered,
            final(self).requesters.gates@ == old(self).requesters.gates@,
            old(self).current_tab == to ==> final(self).requesters.gate_states@
                == old(self).requesters.gate_states@,
            old(self).current_tab != to ==> final(self).requesters.gate_states@ == with_gate(
                with_gate(old(self).requesters.gate_states@, old(self).requesters.gates@, old(self).current_tab, false),
                old(self).requesters.gates@,
                to,
                true,
            ),
            r.start_stream == (spec_needs_stream(to) && !old(self).stream.active),
            final(self).stream.active == (old(self).stream.active || r.start_stream),
            r.needs_filter == (to == ComponentId::Connections),
            final(self).live == old(self).live,
            final(self).popup == old(self).popup,
            final(self).focused == old(self).focused,
            final(self).msg_box_open == old(self).msg_box_open,
    {
        let from = self.current_tab;
        self.renew_idle(to);
        self.current_tab = to;
        self.requesters.switch_tab(from, to);
        let start_stream = self.stream.start_if_needed(to);
        TabSwitch { start_stream, needs_filter: to.supports_filter() }
    }

    /// The render handle for a component that does not exist yet, which then
    /// exists; nothing for one that exists. Refused before a requester is
    /// registered.
    pub fn get_or_start(&mut self, id: ComponentId) -> (r: Result<Option<RenderHandle>, RenderError>)
        requires
            old(self).wf(),
        ensures
            final(self).wf(),
            final(self).current_tab == old(self).current_tab,
            final(self).idle() == old(self).idle(),
            final(self).stream == old(self).stream,
            old(self).live_components().contains(id) ==> r == Ok::<Option<RenderHandle>, RenderError>(None)
                && final(self).live == old(self).live && final(self).requesters == old(self).requesters,
            !old(self).live_components().contains(id) && !old(self).requesters.registered ==> r == Err::<
                Option<RenderHandle>,
                RenderError,
            >(RenderError::NotInitialized) && final(self).live == old(self).live,
            !old(self).live_components().contains(id) && old(self).requesters.registered ==> {
                &&& final(self).live_components() == old(self).live_components().insert(id)
                &&& !spec_uses_render_gate(id) ==> r == Ok::<Option<RenderHandle>, RenderError>(
                    Some(RenderHandle::Shared),
                )
                &&& spec_uses_render_gate(id) ==> r == Ok::<Option<RenderHandle>, RenderError>(
                    Some(RenderHandle::Gated(old(self).requesters.gate_states@.len() as usize)),
                ) && final(self).requesters.gate_states@ == old(self).requesters.gate_states@.push(
                    id == old(self).current_tab,
                ) && final(self).requesters.gate_of(id) == Some(
                    old(self).requesters.gate_states@.len() as usize,
                )
            },
    {
        let n = component_number(id);
        if self.live[n] {
            return Ok(None);
        }
        let ghost before = self.live_components();
        match self.requesters.requester_for(id, self.current_tab) {
            Ok(h) => {
                self.live.set(n, true);
                proof {
                    lemma_component_number(id);
                    assert forall|x: ComponentId| #[trigger] self.live_components().contains(x)
                        == before.insert(id).contains(x) by {
                        lemma_component_number(x);
                    }
                    assert(self.live_components() =~= before.insert(id));
                }
                Ok(Some(h))
            },
            Err(e) => Err(e),
        }
    }

    /// Destroys a component that exists and is not the current tab: it
    /// stops being idle and loses its render gate. Tells whether it did.
    pub fn destroy_component(&mut self, id: ComponentId) -> (r: bool)
        requires
            old(self).wf(),
        ensures
            final(self).wf(),
            r == (id != old(self).current_tab && old(self).live_components().contains(id)),
            final(self).current_tab == old(self).current_tab,
            final(self).stream == old(self).stream,
            final(self).popup == old(self).popup,
            final(self).focused == old(self).focused,
            final(self).msg_box_open == old(self).msg_box_open,
            r ==> {
                &&& final(self).live_components() == old(self).live_components().remove(id)
                &&& final(self).idle() == old(self).idle().remove(id)
                &&& final(self).requesters.registered == old(self).requesters.registered
                &&& final(self).requesters.gate_states@ == old(self).requesters.gate_states@
                &&& final(self).requesters.gate_of(id) is None
                &&& forall|o: ComponentId| o != id ==> #[trigger] final(self).requesters.gate_of(o)
                    == old(self).requesters.gate_of(o)
            },
            !r ==> final(self).live == old(self).live && final(self).idle_ticks == old(self).idle_ticks
                && final(self).requesters == old(self).requesters,
    {
        if id == self.current_tab {
            return false;
        }
        let n = component_number(id);
        if !self.live[n] {
            return false;
        }
        let ghost live_before = self.live_components();
        let ghost idle_before = self.idle();
        self.live.set(n, false);
        self.idle_ticks.set(n, None);
        self.requesters.remove(id);
        proof {
            lemma_component_number(id);
            assert forall|x: ComponentId| #[trigger] self.live_components().contains(x)
                == live_before.remove(id).contains(x) by {
                lemma_component_number(x);
            }
            assert(self.live_components() =~= live_before.remove(id));
            assert forall|x: ComponentId| #[trigger] self.idle().dom().contains(x) == idle_before.remove(
                id,
            ).dom().contains(x) by {
                lemma_component_number(x);
            }
            assert(self.idle() =~= idle_before.remove(id));
        }
        true
    }

    /// Destroys every idle component whose ticks are at zero, by number
    /// from `n` on; tells which it destroyed.
    fn destroy_expired(&mut self) -> (destroyed: Vec<ComponentId>)
        requires
            old(self).wf(),
        ensures
            final(self).wf(),
            final(self).current_tab == old(self).current_tab,
            final(self).stream == old(self).stream,
            final(self).popup == old(self).popup,
            final(self).focused == old(self).focused,
            final(self).msg_box_open == old(self).msg_box_open,
            final(self).requesters.registered == old(self).requesters.registered,
            final(self).requesters.gate_states@ == old(self).requesters.gate_states@,
            forall|x: ComponentId| #[trigger] destroyed@.contains(x) == (old(self).idle().dom().contains(x)
                && old(self).idle()[x] == 0 && old(self).live_components().contains(x)),
            final(self).live_components() == old(self).live_components().difference(destroyed@.to_set()),
            final(self).idle() == old(self).idle().remove_keys(destroyed@.to_set()),
            forall|x: ComponentId| #[trigger] destroyed@.contains(x) ==> final(self).requesters.gate_of(x) is None,
            forall|x: ComponentId| !(#[trigger] destroyed@.contains(x)) ==> final(self).requesters.gate_of(x)
                == old(self).requesters.gate_of(x),
    {
        let ghost idle0 = self.idle();
        let ghost live0 = self.live_components();
        let ghost gates0 = self.requesters;
        let mut destroyed: Vec<ComponentId> = Vec::new();
        let mut n: usize = 0;
        while n < COMPONENT_COUNT
            invariant
                n <= COMPONENT_COUNT,
                self.wf(),
                self.current_tab == old(self).current_tab,
                self.stream == old(self).stream,
                self.popup == old(self).popup,
                self.focused == old(self).focused,
                self.msg_box_open == old(self).msg_box_open,
                self.requesters.registered == old(self).requesters.registered,
                self.requesters.gate_states@ == old(self).requesters.gate_states@,
                idle0 == old(self).idle(),
                live0 == old(self).live_components(),
                gates0 == old(self).requesters,
                forall|x: ComponentId| #[trigger] destroyed@.contains(x) == (spec_component_number(x) < n
                    && idle0.dom().contains(x) && idle0[x] == 0 && live0.contains(x)),
                forall|x: ComponentId| #[trigger] self.live_components().contains(x) == (live0.contains(x)
                    && !destroyed@.contains(x)),
                forall|x: ComponentId| #[trigger] self.idle().dom().contains(x) == (idle0.dom().contains(x)
                    && !destroyed@.contains(x)),
                forall|x: ComponentId| #[trigger] self.idle().dom().contains(x) ==> self.idle()[x] == idle0[x],
                forall|x: ComponentId| #[trigger] destroyed@.contains(x) ==> self.requesters.gate_of(x) is None,
                forall|x: ComponentId| !(#[trigger] destroyed@.contains(x)) ==> self.requesters.gate_of(x)
                    == gates0.gate_of(x),
            decreases COMPONENT_COUNT - n,
        {
            let id = component_of(n);
            let ghost before = destroyed@;
            proof {
                lemma_component_number(id);
            }
            let ghost idle_b = self.idle();
            let ghost live_b = self.live_components();
            let ghost req_b = self.requesters;
            let expired = match self.idle_ticks[n] {
                Some(t) => t == 0,
                None => false,
            };
            proof {
                assert(idle_b.dom().contains(id) == (self.idle_ticks@[n as int] is Some));
                assert(!before.contains(id));
                assert(expired == (idle0.dom().contains(id) && idle0[id] == 0));
                if expired {
                    assert(id != self.current_tab);
                }
            }
            let mut done = false;
            if expired {
                done = self.destroy_component(id);
                if done {
                    destroyed.push(id);
                }
            }
            proof {
                assert(done == (expired && live0.contains(id)));
                assert forall|x: ComponentId|
                    #[trigger] destroyed@.contains(x) == (spec_component_number(x) < n + 1 && idle0.dom().contains(x)
                        && idle0[x] == 0 && live0.contains(x)) by {
                    lemma_component_number(x);
                    lemma_push_contains(before, id, x);
                }
                assert forall|x: ComponentId|
                    #[trigger] self.live_components().contains(x) == (live0.contains(x) && !destroyed@.contains(x)) by {
                    lemma_component_number(x);
                    lemma_push_contains(before, id, x);
                }
                assert forall|x: ComponentId|
                    #[trigger] self.idle().dom().contains(x) == (idle0.dom().contains(x) && !destroyed@.contains(x)) by {
                    lemma_component_number(x);
                    lemma_push_contains(before, id, x);
                }
                assert forall|x: ComponentId| #[trigger] destroyed@.contains(x) implies self.requesters.gate_of(x) is None by {
                    lemma_push_contains(before, id, x);
                    if x != id {
                        assert(req_b.gate_of(x) is None ==> self.requesters.gate_of(x) is None);
                    }
                }
                assert forall|x: ComponentId| !(#[trigger] destroyed@.contains(x)) implies self.requesters.gate_of(x)
                    == gates0.gate_of(x) by {
                    lemma_push_contains(before, id, x);
                }
            }
            n = n + 1;
        }
        proof {
            assert forall|x: ComponentId| #[trigger] self.live_components().contains(x)
                == live0.difference(destroyed@.to_set()).contains(x) by {}
            assert(self.live_components() =~= live0.difference(destroyed@.to_set()));
            assert(self.idle() =~= idle0.remove_keys(destroyed@.to_set()));
            assert forall|x: ComponentId| #[trigger] destroyed@.contains(x) == (idle0.dom().contains(x)
                && idle0[x] == 0 && live0.contains(x)) by {
                lemma_component_number(x);
            }
        }
        destroyed
    }

    /// One tick: every idle tab has one tick less, those at zero are
    /// destroyed, and the connections stream stops when neither the current
    /// tab nor an idle tab reads it.
    pub fn on_tick(&mut self) -> (r: TickOutcome)
        requires
            old(self).wf(),
        ensures
            final(self).wf(),
            final(self).current_tab == old(self).current_tab,
            forall|x: ComponentId| #[trigger] r.destroyed@.contains(x) == (old(self).idle().dom().contains(x)
                && dec_tick(old(self).idle()[x]) == 0 && old(self).live_components().contains(x)),
            final(self).live_components() == old(self).live_components().difference(r.destroyed@.to_set()),
            final(self).idle() == old(self).idle().map_values(|t: u16| dec_tick(t)).remove_keys(
                r.destroyed@.to_set(),
            ),
            forall|x: ComponentId| #[trigger] r.destroyed@.contains(x) ==> final(self).requesters.gate_of(x) is None,
            forall|x: ComponentId| !(#[trigger] r.destroyed@.contains(x)) ==> final(self).requesters.gate_of(x)
                == old(self).requesters.gate_of(x),
            final(self).requesters.gate_states@ == old(self).requesters.gate_states@,
            r.stream_stopped == (old(self).stream.active && !spec_needs_stream(old(self).current_tab)
                && !(exists|x: ComponentId| #[trigger] final(self).idle().dom().contains(x) && spec_needs_stream(x))),
            final(self).stream.active == (old(self).stream.active && !r.stream_stopped),
    {
        let ghost idle0 = self.idle();
        let mut n: usize = 0;
        while n < COMPONENT_COUNT
            invariant
                n <= COMPONENT_COUNT,
                self.wf(),
                self.current_tab == old(self).current_tab,
                self.live == old(self).live,
                self.requesters == old(self).requesters,
                self.stream == old(self).stream,
                self.popup == old(self).popup,
                self.focused == old(self).focused,
                self.msg_box_open == old(self).msg_box_open,
                idle0 == old(self).idle(),
                forall|j: int| 0 <= j < COMPONENT_COUNT ==> (#[trigger] self.idle_ticks@[j] is Some
                    == old(self).idle_ticks@[j] is Some),
                forall|j: int| 0 <= j < n && self.idle_ticks@[j] is Some ==> #[trigger] self.idle_ticks@[j]->0
                    == dec_tick(old(self).idle_ticks@[j]->0),
                forall|j: int| n <= j < COMPONENT_COUNT ==> #[trigger] self.idle_ticks@[j]
                    == old(self).idle_ticks@[j],
            decreases COMPONENT_COUNT - n,
        {
            match self.idle_ticks[n] {
                Some(t) => {
                    let d: u16 = if t > 0 {
                        t - 1
                    } else {
                        0
                    };
                    self.idle_ticks.set(n, Some(d));
                },
                None => {},
            }
            n = n + 1;
        }
        proof {
            assert forall|x: ComponentId| #[trigger] self.idle().dom().contains(x) == idle0.map_values(
                |t: u16| dec_tick(t),
            ).dom().contains(x) && (self.idle().dom().contains(x) ==> self.idle()[x] == idle0.map_values(
                |t: u16| dec_tick(t),
            )[x]) by {
                lemma_component_number(x);
            }
            assert(self.idle() =~= idle0.map_values(|t: u16| dec_tick(t)));
        }
        let destroyed = self.destroy_expired();
        let mut has_idle_consumer = false;
        let mut k: usize = 0;
        while k < COMPONENT_COUNT
            invariant
                k <= COMPONENT_COUNT,
                self.wf(),
                has_idle_consumer == (exists|x: ComponentId| #[trigger] self.idle().dom().contains(x)
                    && spec_component_number(x) < k && spec_needs_stream(x)),
            decreases COMPONENT_COUNT - k,
        {
            let id = component_of(k);
            proof {
                lemma_component_number(id);
            }
            let ghost had = has_idle_consumer;
            if self.idle_ticks[k].is_some() && ConnectionStreamHub::needs_stream(id) {
                has_idle_consumer = true;
            }
            proof {
                if has_idle_consumer {
                    if had {
                        let w = choose|x: ComponentId| #[trigger] self.idle().dom().contains(x)
                            && spec_component_number(x) < k && spec_needs_stream(x);
                        assert(self.idle().dom().contains(w) && spec_component_number(w) < k + 1
                            && spec_needs_stream(w));
                    } else {
                        assert(self.idle().dom().contains(id) && spec_component_number(id) < k + 1
                            && spec_needs_stream(id));
                    }
                } else {
                    assert forall|x: ComponentId| !(#[trigger] self.idle().dom().contains(x)
                        && spec_component_number(x) < k + 1 && spec_needs_stream(x)) by {
                        lemma_component_number(x);
                    }
                }
            }
            k = k + 1;
        }
        proof {
            if !has_idle_consumer {
                assert forall|x: ComponentId| !(#[trigger] self.idle().dom().contains(x) && spec_needs_stream(x))
                    by {
                    lemma_component_number(x);
                }
            } else {
                let w = choose|x: ComponentId| #[trigger] self.idle().dom().contains(x)
                    && spec_component_number(x) < COMPONENT_COUNT && spec_needs_stream(x);
                assert(self.idle().dom().contains(w) && spec_needs_stream(w));
            }
        }
        let current = self.current_tab;
        let stream_stopped = self.stream.stop_if_unused(current, has_idle_consumer);
        TickOutcome { destroyed, stream_stopped }
    }

    /// Destroys every idle component (`Ctrl+l`); tells which.
    pub fn clear_idle_tabs(&mut self) -> (destroyed: Vec<ComponentId>)
        requires
            old(self).wf(),
        ensures
            final(self).wf(),
            final(self).current_tab == old(self).current_tab,
            final(self).stream == old(self).stream,
            forall|x: ComponentId| #[trigger] destroyed@.contains(x) == (old(self).idle().dom().contains(x)
                && old(self).live_components().contains(x)),
            final(self).live_components() == old(self).live_components().difference(destroyed@.to_set()),
            final(self).idle() == old(self).idle().remove_keys(destroyed@.to_set()),
    {
        let ghost idle0 = self.idle();
        let ghost live0 = self.live_components();
        let mut destroyed: Vec<ComponentId> = Vec::new();
        let mut n: usize = 0;
        while n < COMPONENT_COUNT
            invariant
                n <= COMPONENT_COUNT,
                self.wf(),
                self.current_tab == old(self).current_tab,
                self.stream == old(self).stream,
                idle0 == old(self).idle(),
                live0 == old(self).live_components(),
                forall|x: ComponentId| #[trigger] destroyed@.contains(x) == (spec_component_number(x) < n
                    && idle0.dom().contains(x) && live0.contains(x)),
                forall|x: ComponentId| #[trigger] self.live_components().contains(x) == (live0.contains(x)
                    && !destroyed@.contains(x)),
                forall|x: ComponentId| #[trigger] self.idle().dom().contains(x) == (idle0.dom().contains(x)
                    && !destroyed@.contains(x)),
                forall|x: ComponentId| #[trigger] self.idle().dom().contains(x) ==> self.idle()[x] == idle0[x],
            decreases COMPONENT_COUNT - n,
        {
            let id = component_of(n);
            let ghost before = destroyed@;
            proof {
                lemma_component_number(id);
            }
            let ghost idle_b = self.idle();
            let is_idle = self.idle_ticks[n].is_some();
            proof {
                assert(idle_b.dom().contains(id) == (self.idle_ticks@[n as int] is Some));
                assert(!before.contains(id));
                if is_idle {
                    assert(id != self.current_tab);
                }
            }
            let mut done = false;
            if is_idle {
                done = self.destroy_component(id);
                if done {
                    destroyed.push(id);
                }
            }
            proof {
                assert(done == (idle0.dom().contains(id) && live0.contains(id)));
                assert forall|x: ComponentId|
                    #[trigger] destroyed@.contains(x) == (spec_component_number(x) < n + 1 && idle0.dom().contains(x)
                        && live0.contains(x)) by {
                    lemma_component_number(x);
                    lemma_push_contains(before, id, x);
                }
                assert forall|x: ComponentId|
                    #[trigger] self.live_components().contains(x) == (live0.contains(x) && !destroyed@.contains(x)) by {
                    lemma_component_number(x);
                    lemma_push_contains(before, id, x);
                }
                assert forall|x: ComponentId|
                    #[trigger] self.idle().dom().contains(x) == (idle0.dom().contains(x) && !destroyed@.contains(x)) by {
                    lemma_component_number(x);
                    lemma_push_contains(before, id, x);
                }
            }
            n = n + 1;
        }
        proof {
            assert(self.live_components() =~= live0.difference(destroyed@.to_set()));
            assert(self.idle() =~= idle0.remove_keys(destroyed@.to_set()));
            assert forall|x: ComponentId| #[trigger] destroyed@.contains(x) == (idle0.dom().contains(x)
                && live0.contains(x)) by {
                lemma_component_number(x);
            }
        }
        destroyed
    }

    /// Where a key press goes: global shortcuts first, then the message
    /// box, then the focused component, then the root's own keys, then the
    /// current tab.
    pub fn route_key(&self, key: KeyInput) -> (r: KeyRoute)
        ensures
            r == (match spec_global_shortcut(
                key,
                self.popup is Some || self.focused is Some || self.msg_box_open,
            ) {
                Some(g) => KeyRoute::Global(g),
                None => if self.msg_box_open {
                    KeyRoute::MsgBox
                } else if self.focused is Some {
                    KeyRoute::Focused(self.focused->0)
                } else {
                    match key.code {
                        Key::Char('q') => KeyRoute::Quit,
                        Key::Char('h') => KeyRoute::Help,
                        Key::Char(c) => if '0' <= c <= '9' {
                            match spec_digit_tab(c) {
                                Some(t) => KeyRoute::SwitchTab(t),
                                None => KeyRoute::Nothing,
                            }
                        } else {
                            KeyRoute::CurrentTab(self.current_tab)
                        },
                        _ => KeyRoute::CurrentTab(self.current_tab),
                    }
                },
            }),
    {
        if key.mods.contains(MOD_CONTROL) {
            match key.code {
                Key::Char('c') => {
                    return KeyRoute::Global(GlobalShortcut::Quit);
                },
                Key::Char('l') => {
                    return KeyRoute::Global(GlobalShortcut::ClearIdle);
                },
                Key::Char('u') => {
                    if key.mods.bits == MOD_CONTROL && self.popup.is_none() && self.focused.is_none()
                        && !self.msg_box_open {
                        return KeyRoute::Global(GlobalShortcut::AppUpdateRequest);
                    }
                },
                _ => {},
            }
        }
        if self.msg_box_open {
            return KeyRoute::MsgBox;
        }
        if let Some(f) = self.focused {
            return KeyRoute::Focused(f);
        }
        match key.code {
            Key::Char('q') => KeyRoute::Quit,
            Key::Char('h') => KeyRoute::Help,
            Key::Char(c) => {
                if '0' <= c && c <= '9' {
                    let index: usize = (c as u32 - 48) as usize;
                    let i: usize = if index > 0 {
                        index - 1
                    } else {
                        0
                    };
                    match tab_at(i) {
                        Some(t) => KeyRoute::SwitchTab(t),
                        None => KeyRoute::Nothing,
                    }
                } else {
                    KeyRoute::CurrentTab(self.current_tab)
                }
            },
            _ => KeyRoute::CurrentTab(self.current_tab),
        }
    }
}

/// A tick never destroys the tab shown: the tab shown is never idle, and a
/// tick destroys only idle tabs.
pub proof fn law_tick_spares_current_tab(s: RootState, destroyed: Seq<ComponentId>)
    requires
        s.wf(),
        forall|x: ComponentId| #[trigger] destroyed.contains(x) == (s.idle().dom().contains(x) && dec_tick(
            s.idle()[x],
        ) == 0 && s.live_components().contains(x)),
    ensures
        !destroyed.contains(s.current_tab),
{
}

/// The popup an action opens, if any.
pub open spec fn spec_popup_for(action: Action) -> Option<ComponentId> {
    match action {
        Action::AppUpdateRequest => Some(ComponentId::Updates),
        Action::Help => Some(ComponentId::Help),
        Action::ConnectionDetail(_) => Some(ComponentId::ConnectionDetail),
        Action::ConnectionsSetting(_) => Some(ComponentId::ConnectionsSetting),
        Action::ProxyDetail(_) => Some(ComponentId::ProxyDetail),
        Action::ProxySetting => Some(ComponentId::ProxySetting),
        Action::ProxyProviderDetail(_) => Some(ComponentId::ProxyProviderDetail),
        Action::ConnectionTerminateRequest(_) => Some(ComponentId::ConnectionTerminate),
        Action::ConnectionBatchTerminateRequest(_) => Some(ComponentId::ConnectionBatchTerminate),
        Action::DnsQuery => Some(ComponentId::DnsQuery),
        _ => None,
    }
}

/// The popup an action opens, if any.
pub fn popup_for(action: &Action) -> (r: Option<ComponentId>)
    ensures
        r == spec_popup_for(*action),
{
    match action {
        Action::AppUpdateRequest => Some(ComponentId::Updates),
        Action::Help => Some(ComponentId::Help),
        Action::ConnectionDetail(_) => Some(ComponentId::ConnectionDetail),
        Action::ConnectionsSetting(_) => Some(ComponentId::ConnectionsSetting),
        Action::ProxyDetail(_) => Some(ComponentId::ProxyDetail),
        Action::ProxySetting => Some(ComponentId::ProxySetting),
        Action::ProxyProviderDetail(_) => Some(ComponentId::ProxyProviderDetail),
        Action::ConnectionTerminateRequest(_) => Some(ComponentId::ConnectionTerminate),
        Action::ConnectionBatchTerminateRequest(_) => Some(ComponentId::ConnectionBatchTerminate),
        Action::DnsQuery => Some(ComponentId::DnsQuery),
        _ => None,
    }
}

/// Which kind of message box to show.
#[derive(Debug, Clone, Copy, PartialEq, Eq, Structural)]
pub enum MessageKind {
    Error,
    Info,
}

/// What the application is to do after the root took an action.
#[derive(Debug)]
pub struct RootUpdate {
    /// A message box to show.
    pub message: Option<(MessageKind, AppMessage)>,
    /// The popup opened: it is to be started, its labels sent to the footer
    /// and the focus given to it.
    pub opened_popup: Option<ComponentId>,
    /// The labels of the current tab are to be sent to the footer.
    pub tab_shortcuts: bool,
    /// The action is to be passed on to every component that is not idle.
    pub pass_on: bool,
}

impl RootState {
    /// Takes an action other than a tick or a tab switch (which `on_tick`
    /// and `switch_tab` take): Quit stops the connections stream; an error
    /// or an info opens the message box and goes no further; a popup action
    /// opens its popup; Focus and Unfocus set the focus, and Unfocus closes
    /// an open popup, after which the current tab's labels are sent. Every
    /// action but a message is passed on.
    pub fn apply_action(&mut self, action: Action) -> (r: RootUpdate)
        requires
            old(self).wf(),
        ensures
            final(self).wf(),
            final(self).current_tab == old(self).current_tab,
            final(self).idle_ticks == old(self).idle_ticks,
            final(self).live == old(self).live,
            final(self).requesters == old(self).requesters,
            final(self).stream.active == (old(self).stream.active && !(action is Quit)),
            final(self).msg_box_open == (old(self).msg_box_open || action is Error || action is Info),
            match action {
                Action::Error(m) => r.message == Some((MessageKind::Error, m)),
                Action::Info(m) => r.message == Some((MessageKind::Info, m)),
                _ => r.message is None,
            },
            r.pass_on == !(action is Error || action is Info),
            r.opened_popup == spec_popup_for(action),
            final(self).popup == match spec_popup_for(action) {
                Some(id) => Some(id),
                None => if action is Unfocus {
                    None
                } else {
                    old(self).popup
                },
            },
            final(self).focused == match action {
                Action::Focus(id) => Some(id),
                Action::Unfocus => None,
                _ => old(self).focused,
            },
            r.tab_shortcuts == (action is Unfocus && old(self).popup is Some),
    {
        let popup = popup_for(&action);
        match popup {
            Some(id) => {
                self.popup = Some(id);
                return RootUpdate { message: None, opened_popup: Some(id), tab_shortcuts: false, pass_on: true };
            },
            None => {},
        }
        match action {
            Action::Quit => {
                self.stream.stop();
                RootUpdate { message: None, opened_popup: None, tab_shortcuts: false, pass_on: true }
            },
            Action::Error(m) => {
                self.msg_box_open = true;
                RootUpdate {
                    message: Some((MessageKind::Error, m)),
                    opened_popup: None,
                    tab_shortcuts: false,
                    pass_on: false,
                }
            },
            Action::Info(m) => {
                self.msg_box_open = true;
                RootUpdate {
                    message: Some((MessageKind::Info, m)),
                    opened_popup: None,
                    tab_shortcuts: false,
                    pass_on: false,
                }
            },
            Action::Focus(id) => {
                self.focused = Some(id);
                RootUpdate { message: None, opened_popup: None, tab_shortcuts: false, pass_on: true }
            },
            Action::Unfocus => {
                self.focused = None;
                let had_popup = self.popup.is_some();
                self.popup = None;
                RootUpdate { message: None, opened_popup: None, tab_shortcuts: had_popup, pass_on: true }
            },
            _ => RootUpdate { message: None, opened_popup: None, tab_shortcuts: false, pass_on: true },
        }
    }

    /// The components an action is passed on to: those that exist and are
    /// not idle, by component number.
    pub fn receivers(&self) -> (r: Vec<ComponentId>)
        requires
            self.wf(),
        ensures
            forall|x: ComponentId| r@.contains(x) <==> (self.live_components().contains(x) && !self.idle().dom().contains(
                x,
            )),
            forall|i: int, j: int| 0 <= i < j < r@.len() ==> r@[i] != r@[j],
    {
        let mut r: Vec<ComponentId> = Vec::new();
        let mut n: usize = 0;
        while n < COMPONENT_COUNT
            invariant
                n <= COMPONENT_COUNT,
                self.wf(),
                forall|x: ComponentId| r@.contains(x) <==> (spec_component_number(x) < n
                    && self.live_components().contains(x) && !self.idle().dom().contains(x)),
                forall|i: int, j: int| 0 <= i < j < r@.len() ==> r@[i] != r@[j],
                forall|i: int| 0 <= i < r@.len() ==> spec_component_number(#[trigger] r@[i]) < n,
            decreases COMPONENT_COUNT - n,
        {
            let id = component_of(n);
            if self.live[n] && self.idle_ticks[n].is_none() {
                let ghost before = r@;
                r.push(id);
                proof {
                    assert forall|x: ComponentId| r@.contains(x) <==> (spec_component_number(x) < n + 1
                        && self.live_components().contains(x) && !self.idle().dom().contains(x)) by {
                        lemma_push_contains(before, id, x);
                        lemma_component_number(x);
                    }
                }
            } else {
                proof {
                    assert forall|x: ComponentId| r@.contains(x) <==> (spec_component_number(x) < n + 1
                        && self.live_components().contains(x) && !self.idle().dom().contains(x)) by {
                        lemma_component_number(x);
                    }
                }
            }
            n = n + 1;
        }
        proof {
            assert forall|x: ComponentId| r@.contains(x) <==> (self.live_components().contains(x)
                && !self.idle().dom().contains(x)) by {
                lemma_component_number(x);
            }
        }
        r
    }
}

} // verus!
