//! The widget stack: which information panels are shown, in which order they are
//! drawn, and which one holds the keyboard focus.
use vstd::prelude::*;

verus! {

/// The fixed set of panels.
#[derive(Clone, Copy, Debug, PartialEq, Eq, Hash, Structural)]
pub enum WidgetKind {
    Log,
    Data,
    Inventory,
    Player,
    Shotgun,
}

/// Number of widget kinds.
pub const WIDGET_COUNT: usize = 5;

impl WidgetKind {
    /// Position of the kind in the declared order Log, Data, Inventory, Player, Shotgun.
    pub open spec fn ordinal(self) -> int {
        match self {
            WidgetKind::Log => 0,
            WidgetKind::Data => 1,
            WidgetKind::Inventory => 2,
            WidgetKind::Player => 3,
            WidgetKind::Shotgun => 4,
        }
    }

    pub fn index(self) -> (r: usize)
        ensures
            r == self.ordinal(),
    {
        match self {
            WidgetKind::Log => 0,
            WidgetKind::Data => 1,
            WidgetKind::Inventory => 2,
            WidgetKind::Player => 3,
            WidgetKind::Shotgun => 4,
        }
    }

    /// The kind at position `i` of the declared order.
    pub fn at(i: usize) -> (r: WidgetKind)
        requires
            i < WIDGET_COUNT,
        ensures
            r == kind_at(i as int),
    {
        if i == 0 {
            WidgetKind::Log
        } else if i == 1 {
            WidgetKind::Data
        } else if i == 2 {
            WidgetKind::Inventory
        } else if i == 3 {
            WidgetKind::Player
        } else {
            WidgetKind::Shotgun
        }
    }
}

/// The kind at position `i` (taken modulo the number of kinds) of the declared order.
pub open spec fn kind_at(i: int) -> WidgetKind {
    let j = i % (WIDGET_COUNT as int);
    if j == 0 {
        WidgetKind::Log
    } else if j == 1 {
        WidgetKind::Data
    } else if j == 2 {
        WidgetKind::Inventory
    } else if j == 3 {
        WidgetKind::Player
    } else {
        WidgetKind::Shotgun
    }
}

/// Foreground colour of a panel.
#[derive(Clone, Copy, Debug, PartialEq, Eq, Structural)]
pub enum Color {
    White,
    Green,
    Red,
    LightRed,
}

/// Screen region of a panel, set by the renderer.
#[derive(Clone, Copy, Debug, PartialEq, Eq, Structural)]
pub struct Area {
    pub x: u16,
    pub y: u16,
    pub width: u16,
    pub height: u16,
}

/// Picture shown on the shotgun panel.
pub const SHOTGUN_ART: &'static str = r#"
 ,______________________________________
|_________________,----------._ [____]  ""-,__  __....-----=====
               (_(||||||||||||)___________/   ""                |
                  `----------'        [ ))"-,                   |
                                       ""    `,  _,--....___    |
                                               `/           """"
"#;

/// Display, focus and content of one panel.
#[derive(Debug, Clone)]
pub struct WidgetState {
    pub display: bool,
    pub focus: bool,
    pub area: Option<Area>,
    pub content: Option<String>,
    pub color: Option<Color>,
}

/// `s` with its focus flag set to `focus`.
pub open spec fn with_focus(s: WidgetState, focus: bool) -> WidgetState {
    WidgetState { display: s.display, focus, area: s.area, content: s.content, color: s.color }
}

/// `s` with its display and focus flags set.
pub open spec fn with_flags(s: WidgetState, display: bool, focus: bool) -> WidgetState {
    WidgetState { display, focus, area: s.area, content: s.content, color: s.color }
}

impl WidgetState {
    /// A hidden, unfocused panel without content, in white.
    pub fn new_blank() -> (r: WidgetState)
        ensures
            !r.display,
            !r.focus,
            r.area is None,
            r.content is None,
            r.color == Some(Color::White),
    {
        WidgetState {
            display: false,
            focus: false,
            area: None,
            content: None,
            color: Some(Color::White),
        }
    }

    /// A shown, focused panel holding `content`, in white.
    pub fn new_content(content: &str) -> (r: WidgetState)
        ensures
            r.display,
            r.focus,
            r.area is None,
            r.content matches Some(c) && c@ == content@,
            r.color == Some(Color::White),
    {
        WidgetState {
            display: true,
            focus: true,
            area: None,
            content: Some(content.to_owned()),
            color: Some(Color::White),
        }
    }

    /// A copy of this panel whose content is `content`.
    pub fn change_state_content(&self, content: &str) -> (r: WidgetState)
        ensures
            r.display == self.display,
            r.focus == self.focus,
            r.area == self.area,
            r.content matches Some(c) && c@ == content@,
            r.color == self.color,
    {
        WidgetState {
            display: self.display,
            focus: self.focus,
            area: self.area,
            content: Some(content.to_owned()),
            color: self.color,
        }
    }

    /// A shown, focused panel without content, in `color`.
    pub fn new_color(color: Option<Color>) -> (r: WidgetState)
        ensures
            r.display,
            r.focus,
            r.area is None,
            r.content is None,
            r.color == color,
    {
        WidgetState { display: true, focus: true, area: None, content: None, color }
    }

    /// Flips the focus flag.
    pub fn change_focus(&mut self)
        ensures
            *final(self) == with_focus(*old(self), !old(self).focus),
    {
        self.focus = !self.focus;
    }
}

/// `stack` without any occurrence of `k`, order kept.
pub open spec fn without(stack: Seq<WidgetKind>, k: WidgetKind) -> Seq<WidgetKind>
    decreases stack.len(),
{
    if stack.len() == 0 {
        stack
    } else {
        let rest = without(stack.drop_last(), k);
        if stack.last() == k {
            rest
        } else {
            rest.push(stack.last())
        }
    }
}

proof fn lemma_contains_push(s: Seq<WidgetKind>, v: WidgetKind)
    ensures
        forall|x: WidgetKind| #[trigger] s.push(v).contains(x) <==> (s.contains(x) || x == v),
{
    assert forall|x: WidgetKind| #[trigger] s.push(v).contains(x) <==> (s.contains(x) || x == v) by {
        if s.contains(x) {
            let i = choose|i: int| 0 <= i < s.len() && s[i] == x;
            assert(s.push(v)[i] == x);
        }
        if x == v {
            assert(s.push(v)[s.len() as int] == x);
        }
        if s.push(v).contains(x) && x != v {
            let i = choose|i: int| 0 <= i < s.len() + 1 && s.push(v)[i] == x;
            assert(s[i] == x);
        }
    }
}

proof fn lemma_no_duplicates_push(s: Seq<WidgetKind>, v: WidgetKind)
    requires
        s.no_duplicates(),
        !s.contains(v),
    ensures
        s.push(v).no_duplicates(),
{
    let t = s.push(v);
    assert forall|i: int, j: int| 0 <= i < t.len() && 0 <= j < t.len() && i != j implies t[i]
        != t[j] by {
        if i < s.len() && j < s.len() {
            assert(t[i] == s[i] && t[j] == s[j]);
        } else if i < s.len() {
            assert(t[i] == s[i]);
        } else if j < s.len() {
            assert(t[j] == s[j]);
        }
    }
}

proof fn lemma_without(stack: Seq<WidgetKind>, k: WidgetKind)
    ensures
        forall|x: WidgetKind| #[trigger]
            without(stack, k).contains(x) <==> (stack.contains(x) && x != k),
        stack.no_duplicates() ==> without(stack, k).no_duplicates(),
        !stack.contains(k) ==> without(stack, k) == stack,
    decreases stack.len(),
{
    if stack.len() > 0 {
        let init = stack.drop_last();
        let last = stack.last();
        let rest = without(init, k);
        lemma_without(init, k);
        assert(stack =~= init.push(last));
        lemma_contains_push(init, last);
        lemma_contains_push(rest, last);
        if stack.no_duplicates() {
            assert(init.no_duplicates()) by {
                assert forall|i: int, j: int|
                    0 <= i < init.len() && 0 <= j < init.len() && i != j implies init[i]
                    != init[j] by {
                    assert(init[i] == stack[i] && init[j] == stack[j]);
                }
            }
            assert(!init.contains(last)) by {
                if init.contains(last) {
                    let i = choose|i: int| 0 <= i < init.len() && init[i] == last;
                    assert(stack[i] == stack[stack.len() - 1]);
                }
            }
            if last != k {
                lemma_no_duplicates_push(rest, last);
            }
        }
    } else {
        assert(stack =~= Seq::<WidgetKind>::empty());
    }
}

/// Abstract state of the widget stack: one state per kind, in declared order; the
/// kind recorded as focused; and the render order, drawn first to last.
pub struct WidgetsView {
    pub states: Seq<WidgetState>,
    pub current_focus: Option<WidgetKind>,
    pub render_stack: Seq<WidgetKind>,
}

impl WidgetsView {
    pub open spec fn state(self, k: WidgetKind) -> WidgetState {
        self.states[k.ordinal()]
    }

    pub open spec fn displayed(self, k: WidgetKind) -> bool {
        self.state(k).display
    }

    pub open spec fn focused(self, k: WidgetKind) -> bool {
        self.state(k).focus
    }

    /// One state per kind; each kind at most once in the render order, and only if shown.
    pub open spec fn wf(self) -> bool {
        &&& self.states.len() == WIDGET_COUNT
        &&& self.render_stack.no_duplicates()
        &&& forall|i: int|
            0 <= i < self.render_stack.len() ==> #[trigger] self.displayed(self.render_stack[i])
    }

    /// At most one kind is focused, it is shown, and `current_focus` names it.
    pub open spec fn focus_coherent(self) -> bool {
        &&& forall|k: WidgetKind| #[trigger]
            self.focused(k) ==> self.displayed(k) && self.current_focus == Some(k)
        &&& self.current_focus matches Some(k) ==> self.focused(k)
    }

    /// Exactly `target` focused (nothing if `None`), recorded as the current focus.
    pub open spec fn with_only_focus(self, target: Option<WidgetKind>) -> WidgetsView {
        WidgetsView {
            states: self.states.map(
                |i: int, s: WidgetState| with_focus(s, target == Some(kind_at(i))),
            ),
            current_focus: target,
            render_stack: self.render_stack,
        }
    }

    /// `show_widget(k)`: shown, appended to the render order unless already there, and the
    /// only focused kind.
    pub open spec fn shown(self, k: WidgetKind) -> WidgetsView {
        WidgetsView {
            states: self.states.update(k.ordinal(), with_flags(self.state(k), true, self.focused(k))),
            current_focus: self.current_focus,
            render_stack: if self.render_stack.contains(k) {
                self.render_stack
            } else {
                self.render_stack.push(k)
            },
        }.with_only_focus(Some(k))
    }

    /// `hide_widget(k)`: hidden, unfocused and out of the render order; if it held the focus,
    /// the focus goes to the first kind left in the render order, or to none.
    pub open spec fn hidden(self, k: WidgetKind) -> WidgetsView {
        let rest = WidgetsView {
            states: self.states.update(k.ordinal(), with_flags(self.state(k), false, false)),
            current_focus: self.current_focus,
            render_stack: without(self.render_stack, k),
        };
        if self.focused(k) {
            if rest.render_stack.len() > 0 {
                rest.with_only_focus(Some(rest.render_stack[0]))
            } else {
                rest.with_only_focus(None)
            }
        } else {
            rest
        }
    }

    /// `toggle_widget(k)`: hidden if shown, shown if hidden.
    pub open spec fn display_toggled(self, k: WidgetKind) -> WidgetsView {
        if self.displayed(k) {
            self.hidden(k)
        } else {
            self.shown(k)
        }
    }

    /// `toggle_focus(k)`: only `k`'s focus flag flips; the recorded focus switches
    /// between `k` and none.
    pub open spec fn focus_toggled(self, k: WidgetKind) -> WidgetsView {
        WidgetsView {
            states: self.states.update(k.ordinal(), with_focus(self.state(k), !self.focused(k))),
            current_focus: if self.current_focus == Some(k) {
                None
            } else {
                Some(k)
            },
            render_stack: self.render_stack,
        }
    }

    /// `set_widget(k, display, focus)`.
    pub open spec fn widget_set(self, k: WidgetKind, display: bool, focus: bool) -> WidgetsView {
        let base = if focus {
            self.with_only_focus(None)
        } else {
            self
        };
        WidgetsView {
            states: base.states.update(k.ordinal(), with_flags(base.state(k), display, focus)),
            current_focus: if focus {
                Some(k)
            } else {
                base.current_focus
            },
            render_stack: base.render_stack,
        }
    }

    /// Focus cycling may land on `k`: it is shown, and it is not the shotgun while the
    /// log is shown.
    pub open spec fn eligible(self, k: WidgetKind) -> bool {
        self.displayed(k) && !(k == WidgetKind::Shotgun && self.displayed(WidgetKind::Log))
    }

    /// The first focused kind in declared order, looking from position `i` on.
    pub open spec fn focused_from(self, i: int) -> Option<WidgetKind>
        decreases WIDGET_COUNT - i,
    {
        if i >= WIDGET_COUNT {
            None
        } else if self.focused(kind_at(i)) {
            Some(kind_at(i))
        } else {
            self.focused_from(i + 1)
        }
    }

    /// The first focused kind in declared order.
    pub open spec fn first_focused(self) -> Option<WidgetKind> {
        self.focused_from(0)
    }

    /// The first eligible kind among `n` positions, walking forward from `start`
    /// and wrapping around.
    pub open spec fn scan_forward(self, start: int, n: nat) -> Option<WidgetKind>
        decreases n,
    {
        if n == 0 {
            None
        } else if self.eligible(kind_at(start)) {
            Some(kind_at(start))
        } else {
            self.scan_forward(start + 1, (n - 1) as nat)
        }
    }

    /// The first eligible kind among `n` positions, walking backward from `start`
    /// and wrapping around (`start` is taken in `n..`, so that it stays non-negative).
    pub open spec fn scan_backward(self, start: int, n: nat) -> Option<WidgetKind>
        decreases n,
    {
        if n == 0 {
            None
        } else if self.eligible(kind_at(start)) {
            Some(kind_at(start))
        } else {
            self.scan_backward(start - 1, (n - 1) as nat)
        }
    }

    /// Where the focus goes forward from `cur`: the next eligible kind after it in
    /// declared order, wrapping, or from the first kind when nothing is focused.
    pub open spec fn next_from(self, cur: Option<WidgetKind>) -> Option<WidgetKind> {
        match cur {
            Some(k) => self.scan_forward(k.ordinal() + 1, WIDGET_COUNT as nat),
            None => self.scan_forward(0, WIDGET_COUNT as nat),
        }
    }

    /// Where the focus goes backward from `cur`: the previous eligible kind before it,
    /// wrapping, or from the last kind when nothing is focused.
    pub open spec fn prev_from(self, cur: Option<WidgetKind>) -> Option<WidgetKind> {
        match cur {
            Some(k) => self.scan_backward(k.ordinal() + WIDGET_COUNT - 1, WIDGET_COUNT as nat),
            None => self.scan_backward(2 * WIDGET_COUNT - 1, WIDGET_COUNT as nat),
        }
    }

    /// `focus_next()`.
    pub open spec fn focused_next(self) -> WidgetsView {
        self.with_only_focus(self.next_from(self.first_focused()))
    }

    /// `focus_prev()`.
    pub open spec fn focused_prev(self) -> WidgetsView {
        self.with_only_focus(self.prev_from(self.first_focused()))
    }

    /// The focus after `n` forward steps from `cur`.
    pub open spec fn next_iter(self, cur: Option<WidgetKind>, n: nat) -> Option<WidgetKind>
        decreases n,
    {
        if n == 0 {
            cur
        } else {
            self.next_from(self.next_iter(cur, (n - 1) as nat))
        }
    }

    /// The widget stack after `n` calls of `focus_next`.
    pub open spec fn focused_next_n(self, n: nat) -> WidgetsView
        decreases n,
    {
        if n == 0 {
            self
        } else {
            self.focused_next_n((n - 1) as nat).focused_next()
        }
    }

    /// Number of kinds focus cycling may land on.
    pub open spec fn eligible_count(self) -> nat {
        (if self.eligible(WidgetKind::Log) { 1nat } else { 0nat }) + (if self.eligible(
            WidgetKind::Data,
        ) {
            1nat
        } else {
            0nat
        }) + (if self.eligible(WidgetKind::Inventory) { 1nat } else { 0nat }) + (if self.eligible(
            WidgetKind::Player,
        ) {
            1nat
        } else {
            0nat
        }) + (if self.eligible(WidgetKind::Shotgun) { 1nat } else { 0nat })
    }
}

proof fn lemma_only_focus(v: WidgetsView, target: Option<WidgetKind>)
    requires
        v.states.len() == WIDGET_COUNT,
        target matches Some(k) ==> v.displayed(k),
    ensures
        v.wf() ==> v.with_only_focus(target).wf(),
        v.with_only_focus(target).focus_coherent(),
        v.with_only_focus(target).states.len() == WIDGET_COUNT,
        forall|k: WidgetKind| #[trigger] v.with_only_focus(target).displayed(k) == v.displayed(k),
{
    let w = v.with_only_focus(target);
    assert forall|k: WidgetKind| #[trigger] w.displayed(k) == v.displayed(k) by {
        assert(0 <= k.ordinal() < WIDGET_COUNT);
    }
    assert forall|k: WidgetKind| #[trigger] w.focused(k) implies w.displayed(k) && w.current_focus
        == Some(k) by {
        assert(kind_at(k.ordinal()) == k);
    }
    if target is Some {
        assert(kind_at(target->0.ordinal()) == target->0);
    }
    if v.wf() {
        assert forall|i: int| 0 <= i < w.render_stack.len() implies #[trigger] w.displayed(
            w.render_stack[i],
        ) by {
            assert(v.displayed(v.render_stack[i]));
        }
    }
}

proof fn lemma_scan_forward_eligible(v: WidgetsView, start: int, n: nat)
    ensures
        v.scan_forward(start, n) matches Some(k) ==> v.eligible(k),
    decreases n,
{
    if n > 0 {
        lemma_scan_forward_eligible(v, start + 1, (n - 1) as nat);
    }
}

proof fn lemma_scan_backward_eligible(v: WidgetsView, start: int, n: nat)
    ensures
        v.scan_backward(start, n) matches Some(k) ==> v.eligible(k),
    decreases n,
{
    if n > 0 {
        lemma_scan_backward_eligible(v, start - 1, (n - 1) as nat);
    }
}

#[verifier::spinoff_prover]
#[verifier::rlimit(100)]
proof fn lemma_cycle_core(v: WidgetsView, start: WidgetKind)
    requires
        v.eligible(start),
    ensures
        v.next_iter(Some(start), v.eligible_count()) == Some(start),
{
    reveal_with_fuel(WidgetsView::next_iter, 6);
    reveal_with_fuel(WidgetsView::scan_forward, 6);
}

proof fn lemma_first_focused_coherent(v: WidgetsView)
    requires
        v.states.len() == WIDGET_COUNT,
        v.focus_coherent(),
    ensures
        v.first_focused() == v.current_focus,
{
    reveal_with_fuel(WidgetsView::focused_from, 6);
    if let Some(k) = v.current_focus {
        assert(kind_at(k.ordinal()) == k);
    }
}

proof fn lemma_scan_forward_same_display(v: WidgetsView, w: WidgetsView, start: int, n: nat)
    requires
        forall|k: WidgetKind| #[trigger] v.displayed(k) == w.displayed(k),
    ensures
        v.scan_forward(start, n) == w.scan_forward(start, n),
    decreases n,
{
    if n > 0 {
        assert(v.displayed(kind_at(start)) == w.displayed(kind_at(start)));
        assert(v.displayed(WidgetKind::Log) == w.displayed(WidgetKind::Log));
        lemma_scan_forward_same_display(v, w, start + 1, (n - 1) as nat);
    }
}

proof fn lemma_focused_next_n(v: WidgetsView, start: WidgetKind, n: nat)
    requires
        v.wf(),
        v.focus_coherent(),
        v.current_focus == Some(start),
    ensures
        v.focused_next_n(n).wf(),
        v.focused_next_n(n).focus_coherent(),
        v.focused_next_n(n).current_focus == v.next_iter(Some(start), n),
        forall|k: WidgetKind| #[trigger] v.focused_next_n(n).displayed(k) == v.displayed(k),
    decreases n,
{
    if n > 0 {
        let w = v.focused_next_n((n - 1) as nat);
        lemma_focused_next_n(v, start, (n - 1) as nat);
        lemma_first_focused_coherent(w);
        let cur = w.first_focused();
        let target = w.next_from(cur);
        match cur {
            Some(k) => {
                lemma_scan_forward_eligible(w, k.ordinal() + 1, WIDGET_COUNT as nat);
                lemma_scan_forward_same_display(w, v, k.ordinal() + 1, WIDGET_COUNT as nat);
            },
            None => {
                lemma_scan_forward_eligible(w, 0, WIDGET_COUNT as nat);
                lemma_scan_forward_same_display(w, v, 0, WIDGET_COUNT as nat);
            },
        }
        lemma_only_focus(w, target);
    }
}

/// When the focus sits on a kind that focus cycling may land on, calling `focus_next`
/// once per such kind (the shown kinds, less the shotgun while the log is shown)
/// brings the focus back to where it started.
pub proof fn law_focus_next_cycles(v: WidgetsView, start: WidgetKind)
    requires
        v.wf(),
        v.focus_coherent(),
        v.current_focus == Some(start),
        v.eligible(start),
    ensures
        v.focused_next_n(v.eligible_count()).current_focus == Some(start),
        v.focused_next_n(v.eligible_count()).focused(start),
{
    lemma_cycle_core(v, start);
    lemma_focused_next_n(v, start, v.eligible_count());
}

proof fn lemma_shown(v: WidgetsView, k: WidgetKind)
    requires
        v.states.len() == WIDGET_COUNT,
    ensures
        v.shown(k).focus_coherent(),
        v.shown(k).states.len() == WIDGET_COUNT,
        v.wf() ==> v.shown(k).wf(),
{
    let mid = WidgetsView {
        states: v.states.update(k.ordinal(), with_flags(v.state(k), true, v.focused(k))),
        current_focus: v.current_focus,
        render_stack: if v.render_stack.contains(k) {
            v.render_stack
        } else {
            v.render_stack.push(k)
        },
    };
    if v.wf() {
        if !v.render_stack.contains(k) {
            lemma_no_duplicates_push(v.render_stack, k);
        }
        assert forall|j: int| 0 <= j < mid.render_stack.len() implies #[trigger] mid.displayed(
            mid.render_stack[j],
        ) by {
            if j < v.render_stack.len() {
                assert(v.displayed(v.render_stack[j]));
            }
        }
    }
    lemma_only_focus(mid, Some(k));
}

proof fn lemma_hidden(v: WidgetsView, k: WidgetKind)
    requires
        v.wf(),
    ensures
        v.hidden(k).wf(),
        v.focus_coherent() ==> v.hidden(k).focus_coherent(),
{
    let rest = WidgetsView {
        states: v.states.update(k.ordinal(), with_flags(v.state(k), false, false)),
        current_focus: v.current_focus,
        render_stack: without(v.render_stack, k),
    };
    lemma_without(v.render_stack, k);
    assert forall|n: int| 0 <= n < rest.render_stack.len() implies #[trigger] rest.displayed(
        rest.render_stack[n],
    ) by {
        let x = rest.render_stack[n];
        assert(rest.render_stack.contains(x));
        let m = choose|m: int| 0 <= m < v.render_stack.len() && v.render_stack[m] == x;
        assert(v.displayed(v.render_stack[m]));
    }
    if v.focused(k) {
        if rest.render_stack.len() > 0 {
            lemma_only_focus(rest, Some(rest.render_stack[0]));
        } else {
            lemma_only_focus(rest, None);
        }
    } else if v.focus_coherent() {
        assert forall|x: WidgetKind| #[trigger] rest.focused(x) implies rest.displayed(x)
            && rest.current_focus == Some(x) by {
            assert(v.focused(x));
        }
    }
}

proof fn lemma_focused_next(v: WidgetsView)
    requires
        v.states.len() == WIDGET_COUNT,
    ensures
        v.focused_next().focus_coherent(),
        v.wf() ==> v.focused_next().wf(),
{
    match v.first_focused() {
        Some(k) => lemma_scan_forward_eligible(v, k.ordinal() + 1, WIDGET_COUNT as nat),
        None => lemma_scan_forward_eligible(v, 0, WIDGET_COUNT as nat),
    }
    lemma_only_focus(v, v.next_from(v.first_focused()));
}

proof fn lemma_focused_prev(v: WidgetsView)
    requires
        v.states.len() == WIDGET_COUNT,
    ensures
        v.focused_prev().focus_coherent(),
        v.wf() ==> v.focused_prev().wf(),
{
    match v.first_focused() {
        Some(k) => lemma_scan_backward_eligible(
            v,
            k.ordinal() + WIDGET_COUNT - 1,
            WIDGET_COUNT as nat,
        ),
        None => lemma_scan_backward_eligible(v, 2 * WIDGET_COUNT - 1, WIDGET_COUNT as nat),
    }
    lemma_only_focus(v, v.prev_from(v.first_focused()));
}

/// A call on the widget stack that moves the focus.
pub enum FocusOp {
    Show(WidgetKind),
    Hide(WidgetKind),
    Next,
    Prev,
}

/// The widget stack after `op`.
pub open spec fn apply_op(v: WidgetsView, op: FocusOp) -> WidgetsView {
    match op {
        FocusOp::Show(k) => v.shown(k),
        FocusOp::Hide(k) => v.hidden(k),
        FocusOp::Next => v.focused_next(),
        FocusOp::Prev => v.focused_prev(),
    }
}

/// The widget stack after each of `ops` in turn.
pub open spec fn apply_ops(v: WidgetsView, ops: Seq<FocusOp>) -> WidgetsView
    decreases ops.len(),
{
    if ops.len() == 0 {
        v
    } else {
        apply_op(apply_ops(v, ops.drop_last()), ops.last())
    }
}

/// After any sequence of `show_widget`, `hide_widget`, `focus_next` and `focus_prev`
/// calls from a well-formed stack with coherent focus (as `new` makes it), at most one
/// kind reports focus, it is shown, and `current_focus` names it.
pub proof fn law_focus_stays_single(v: WidgetsView, ops: Seq<FocusOp>)
    requires
        v.wf(),
        v.focus_coherent(),
    ensures
        apply_ops(v, ops).wf(),
        apply_ops(v, ops).focus_coherent(),
        forall|a: WidgetKind, b: WidgetKind|
            #[trigger] apply_ops(v, ops).focused(a) && #[trigger] apply_ops(v, ops).focused(b)
                ==> a == b,
    decreases ops.len(),
{
    if ops.len() > 0 {
        law_focus_stays_single(v, ops.drop_last());
        let w = apply_ops(v, ops.drop_last());
        match ops.last() {
            FocusOp::Show(k) => lemma_shown(w, k),
            FocusOp::Hide(k) => lemma_hidden(w, k),
            FocusOp::Next => lemma_focused_next(w),
            FocusOp::Prev => lemma_focused_prev(w),
        }
    }
}

/// A copy of `stack` with `k` appended.
fn stack_with(stack: &Vec<WidgetKind>, k: WidgetKind) -> (r: Vec<WidgetKind>)
    ensures
        r@ == stack@.push(k),
{
    let mut r: Vec<WidgetKind> = Vec::new();
    let mut i: usize = 0;
    while i < stack.len()
        invariant
            i <= stack@.len(),
            r@ == stack@.take(i as int),
        decreases stack@.len() - i,
    {
        r.push(stack[i]);
        i += 1;
        assert(r@ =~= stack@.take(i as int));
    }
    r.push(k);
    assert(r@ =~= stack@.push(k));
    r
}

/// The panels' states, their render order and the focused kind.
#[derive(Debug)]
pub struct WidgetData {
    states: Vec<WidgetState>,
    current_focus: Option<WidgetKind>,
    render_stack: Vec<WidgetKind>,
}

impl WidgetData {
    /// There is one state per kind.
    #[verifier::type_invariant]
    spec fn one_state_per_kind(self) -> bool {
        self.states@.len() == WIDGET_COUNT
    }

    pub closed spec fn view(&self) -> WidgetsView {
        WidgetsView {
            states: self.states@,
            current_focus: self.current_focus,
            render_stack: self.render_stack@,
        }
    }

    /// The starting layout: every panel hidden but the shotgun, which is shown and
    /// focused; nothing in the render order yet.
    pub fn new() -> (r: WidgetData)
        ensures
            r@.wf(),
            r@.focus_coherent(),
            r@.render_stack == Seq::<WidgetKind>::empty(),
            r@.current_focus == Some(WidgetKind::Shotgun),
            forall|k: WidgetKind| #[trigger] r@.displayed(k) == (k == WidgetKind::Shotgun),
            r@.state(WidgetKind::Shotgun).content matches Some(c) && c@ == SHOTGUN_ART@,
            r@.state(WidgetKind::Data).color == Some(Color::Green),
            r@.state(WidgetKind::Log).color == Some(Color::White),
    {
        let mut data = WidgetState::new_blank();
        data.color = Some(Color::Green);
        let mut states: Vec<WidgetState> = Vec::new();
        states.push(WidgetState::new_blank());
        states.push(data);
        states.push(WidgetState::new_blank());
        states.push(WidgetState::new_blank());
        states.push(WidgetState::new_content(SHOTGUN_ART));
        let r = WidgetData {
            states,
            current_focus: Some(WidgetKind::Shotgun),
            render_stack: Vec::new(),
        };
        assert forall|k: WidgetKind| #[trigger] r@.focused(k) implies r@.displayed(k)
            && r@.current_focus == Some(k) by {
            assert(k.ordinal() == 4);
        }
        r
    }

    /// Leaves exactly `target` focused, and records it as the current focus.
    fn set_only_focus(&mut self, target: Option<WidgetKind>)
        requires
            old(self)@.states.len() == WIDGET_COUNT,
        ensures
            final(self)@ == old(self)@.with_only_focus(target),
            final(self)@.states.len() == WIDGET_COUNT,
    {
        proof {
            use_type_invariant(&*self);
        }
        let ghost before = self.states@;
        let mut i: usize = 0;
        while i < WIDGET_COUNT
            invariant
                0 <= i <= WIDGET_COUNT,
                self.states@.len() == WIDGET_COUNT,
                before.len() == WIDGET_COUNT,
                forall|j: int|
                    0 <= j < i ==> #[trigger] self.states@[j] == with_focus(
                        before[j],
                        target == Some(kind_at(j)),
                    ),
                forall|j: int| i <= j < WIDGET_COUNT ==> #[trigger] self.states@[j] == before[j],
                before == old(self).states@,
                self.render_stack == old(self).render_stack,
            decreases WIDGET_COUNT - i,
        {
            let k = WidgetKind::at(i);
            let on = match target {
                Some(t) => t == k,
                None => false,
            };
            self.states[i].focus = on;
            i += 1;
        }
        self.current_focus = target;
        assert(self@.states =~= old(self)@.with_only_focus(target).states);
    }

    /// The first focused kind in declared order, if any.
    pub fn shown_widgets(&self) -> (r: Option<WidgetKind>)
        ensures
            r == self@.first_focused(),
    {
        proof {
            use_type_invariant(self);
        }
        let mut i: usize = 0;
        while i < WIDGET_COUNT
            invariant
                0 <= i <= WIDGET_COUNT,
                self@.states.len() == WIDGET_COUNT,
                self@.first_focused() == self@.focused_from(i as int),
            decreases WIDGET_COUNT - i,
        {
            let k = WidgetKind::at(i);
            assert(k.ordinal() == i);
            if self.states[i].focus {
                return Some(k);
            }
            i += 1;
        }
        None
    }

    /// Moves the focus to the next eligible kind after the focused one in declared order
    /// (Log, Data, Inventory, Player, Shotgun), wrapping; the shotgun is skipped while
    /// the log is shown. With nothing eligible, nothing stays focused.
    pub fn focus_next(&mut self)
        ensures
            final(self)@ == old(self)@.focused_next(),
            old(self)@.wf() ==> final(self)@.wf(),
            final(self)@.focus_coherent(),
    {
        proof {
            use_type_invariant(&*self);
        }
        let log_displayed = self.states[0].display;
        let start: usize = match self.shown_widgets() {
            Some(k) => (k.index() + 1) % WIDGET_COUNT,
            None => 0,
        };
        let ghost origin: int = match self@.first_focused() {
            Some(k) => k.ordinal() + 1,
            None => 0,
        };
        let mut idx: usize = start;
        let mut steps: usize = 0;
        let mut target: Option<WidgetKind> = None;
        while steps < WIDGET_COUNT
            invariant_except_break
                0 <= steps <= WIDGET_COUNT,
                idx == (origin + steps) % (WIDGET_COUNT as int),
                self@.next_from(self@.first_focused()) == self@.scan_forward(
                    origin + steps,
                    (WIDGET_COUNT - steps) as nat,
                ),
                target is None,
            invariant
                self@.states.len() == WIDGET_COUNT,
                log_displayed == self@.displayed(WidgetKind::Log),
                0 <= origin <= WIDGET_COUNT,
            ensures
                target == self@.next_from(self@.first_focused()),
            decreases WIDGET_COUNT - steps,
        {
            let k = WidgetKind::at(idx);
            assert(k == kind_at(origin + steps));
            let eligible = self.states[idx].display && !(log_displayed && k == WidgetKind::Shotgun);
            if eligible {
                target = Some(k);
                break;
            }
            idx = (idx + 1) % WIDGET_COUNT;
            steps += 1;
        }
        proof {
            lemma_focused_next(self@);
        }
        self.set_only_focus(target);
    }

    /// Moves the focus to the previous eligible kind before the focused one in declared
    /// order, wrapping; the shotgun is skipped while the log is shown. With nothing
    /// eligible, nothing stays focused.
    pub fn focus_prev(&mut self)
        ensures
            final(self)@ == old(self)@.focused_prev(),
            old(self)@.wf() ==> final(self)@.wf(),
            final(self)@.focus_coherent(),
    {
        proof {
            use_type_invariant(&*self);
        }
        let log_displayed = self.states[0].display;
        let start: usize = match self.shown_widgets() {
            Some(k) => (k.index() + WIDGET_COUNT - 1) % WIDGET_COUNT,
            None => WIDGET_COUNT - 1,
        };
        let ghost origin: int = match self@.first_focused() {
            Some(k) => k.ordinal() + WIDGET_COUNT - 1,
            None => 2 * WIDGET_COUNT - 1,
        };
        let mut idx: usize = start;
        let mut steps: usize = 0;
        let mut target: Option<WidgetKind> = None;
        while steps < WIDGET_COUNT
            invariant_except_break
                0 <= steps <= WIDGET_COUNT,
                idx == (origin - steps) % (WIDGET_COUNT as int),
                self@.prev_from(self@.first_focused()) == self@.scan_backward(
                    origin - steps,
                    (WIDGET_COUNT - steps) as nat,
                ),
                target is None,
            invariant
                self@.states.len() == WIDGET_COUNT,
                log_displayed == self@.displayed(WidgetKind::Log),
                WIDGET_COUNT - 1 <= origin < 2 * WIDGET_COUNT,
            ensures
                target == self@.prev_from(self@.first_focused()),
            decreases WIDGET_COUNT - steps,
        {
            let k = WidgetKind::at(idx);
            assert(k == kind_at(origin - steps));
            let eligible = self.states[idx].display && !(log_displayed && k == WidgetKind::Shotgun);
            if eligible {
                target = Some(k);
                break;
            }
            idx = (idx + WIDGET_COUNT - 1) % WIDGET_COUNT;
            steps += 1;
        }
        proof {
            lemma_focused_prev(self@);
        }
        self.set_only_focus(target);
    }

    fn in_render_stack(&self, kind: WidgetKind) -> (r: bool)
        ensures
            r == self@.render_stack.contains(kind),
    {
        let mut i: usize = 0;
        while i < self.render_stack.len()
            invariant
                i <= self.render_stack@.len(),
                forall|j: int| 0 <= j < i ==> self.render_stack@[j] != kind,
            decreases self.render_stack@.len() - i,
        {
            if self.render_stack[i] == kind {
                return true;
            }
            i += 1;
        }
        false
    }

    /// Shows `kind`: it joins the end of the render order unless already in it, and
    /// takes the focus from every other kind.
    pub fn show_widget(&mut self, kind: WidgetKind)
        ensures
            final(self)@ == old(self)@.shown(kind),
            old(self)@.wf() ==> final(self)@.wf(),
            final(self)@.focus_coherent(),
    {
        proof {
            use_type_invariant(&*self);
        }
        let ghost v0 = self@;
        let i = kind.index();
        self.states[i].display = true;
        if !self.in_render_stack(kind) {
            self.render_stack = stack_with(&self.render_stack, kind);
        }
        let ghost mid = WidgetsView {
            states: v0.states.update(kind.ordinal(), with_flags(v0.state(kind), true, v0.focused(kind))),
            current_focus: v0.current_focus,
            render_stack: if v0.render_stack.contains(kind) {
                v0.render_stack
            } else {
                v0.render_stack.push(kind)
            },
        };
        assert(self@.states =~= mid.states);
        assert(self@ == mid);
        proof {
            lemma_shown(v0, kind);
        }
        self.set_only_focus(Some(kind));
    }

    /// Hides `kind`: it leaves the render order and loses the focus. If it held the
    /// focus, the focus goes to the first kind left in the render order, or to none.
    pub fn hide_widget(&mut self, kind: WidgetKind)
        ensures
            final(self)@ == old(self)@.hidden(kind),
            old(self)@.wf() ==> final(self)@.wf(),
            old(self)@.wf() && old(self)@.focus_coherent() ==> final(self)@.focus_coherent(),
    {
        proof {
            use_type_invariant(&*self);
        }
        let ghost v0 = self@;
        let i = kind.index();
        let held = self.states[i].focus;
        self.states[i].display = false;
        self.states[i].focus = false;
        let mut kept: Vec<WidgetKind> = Vec::new();
        let mut j: usize = 0;
        while j < self.render_stack.len()
            invariant
                j <= self.render_stack@.len(),
                kept@ == without(self.render_stack@.take(j as int), kind),
            decreases self.render_stack@.len() - j,
        {
            let x = self.render_stack[j];
            assert(self.render_stack@.take(j + 1).drop_last() =~= self.render_stack@.take(
                j as int,
            ));
            if x != kind {
                kept.push(x);
            }
            j += 1;
        }
        assert(self.render_stack@.take(j as int) =~= self.render_stack@);
        self.render_stack = kept;
        let ghost rest = WidgetsView {
            states: v0.states.update(kind.ordinal(), with_flags(v0.state(kind), false, false)),
            current_focus: v0.current_focus,
            render_stack: without(v0.render_stack, kind),
        };
        assert(self@.states =~= rest.states);
        assert(self@ == rest);
        if held {
            if self.render_stack.len() > 0 {
                let first = self.render_stack[0];
                self.set_only_focus(Some(first));
            } else {
                self.set_only_focus(None);
            }
        }
        proof {
            if v0.wf() {
                lemma_hidden(v0, kind);
            }
        }
    }

    /// Flips the focus flag of `kind` alone, and switches the recorded focus between
    /// `kind` and none. Other kinds keep their focus.
    pub fn toggle_focus(&mut self, kind: WidgetKind)
        ensures
            final(self)@ == old(self)@.focus_toggled(kind),
            old(self)@.wf() ==> final(self)@.wf(),
    {
        proof {
            use_type_invariant(&*self);
        }
        let i = kind.index();
        self.states[i].change_focus();
        let was = match self.current_focus {
            Some(c) => c == kind,
            None => false,
        };
        if was {
            self.current_focus = None;
        } else {
            self.current_focus = Some(kind);
        }
        assert(self@.states =~= old(self)@.focus_toggled(kind).states);
        assert forall|k: WidgetKind| #[trigger] self@.displayed(k) == old(self)@.displayed(k) by {
            assert(0 <= k.ordinal() < WIDGET_COUNT);
        }
        proof {
            if old(self)@.wf() {
                assert forall|j: int| 0 <= j < self@.render_stack.len() implies #[trigger] self@.displayed(
                    self@.render_stack[j],
                ) by {
                    assert(old(self)@.displayed(old(self)@.render_stack[j]));
                }
            }
        }
    }

    /// Hides `kind` if it is shown, shows it otherwise.
    pub fn toggle_widget(&mut self, kind: WidgetKind)
        ensures
            final(self)@ == old(self)@.display_toggled(kind),
            old(self)@.wf() ==> final(self)@.wf(),
            old(self)@.wf() && old(self)@.focus_coherent() ==> final(self)@.focus_coherent(),
    {
        proof {
            use_type_invariant(&*self);
        }
        if self.is_displayed(kind) {
            self.hide_widget(kind);
        } else {
            self.show_widget(kind);
        }
    }

    /// Sets the display and focus flags of `kind`; a focus first clears every other
    /// kind's focus and is recorded as the current focus. The render order is left as is.
    pub fn set_widget(&mut self, kind: WidgetKind, display_b: bool, focus_b: bool)
        ensures
            final(self)@ == old(self)@.widget_set(kind, display_b, focus_b),
    {
        proof {
            use_type_invariant(&*self);
        }
        let ghost v0 = self@;
        if focus_b {
            self.set_only_focus(None);
            self.current_focus = Some(kind);
        }
        let i = kind.index();
        self.states[i].display = display_b;
        self.states[i].focus = focus_b;
        assert(self@.states =~= v0.widget_set(kind, display_b, focus_b).states);
    }

    /// Gives the focus to `kind` alone.
    pub fn kind_focus(&mut self, kind: &WidgetKind)
        ensures
            final(self)@ == old(self)@.with_only_focus(Some(*kind)),
    {
        proof {
            use_type_invariant(&*self);
        }
        self.set_only_focus(Some(*kind));
    }

    /// Replaces the content of `kind`.
    pub fn change_content(&mut self, kind: WidgetKind, content: Option<String>)
        ensures
            final(self)@.states == old(self)@.states.update(
                kind.ordinal(),
                WidgetState { content, ..old(self)@.state(kind) },
            ),
            final(self)@.current_focus == old(self)@.current_focus,
            final(self)@.render_stack == old(self)@.render_stack,
    {
        proof {
            use_type_invariant(&*self);
        }
        let i = kind.index();
        self.states[i].content = content;
        assert(self@.states =~= old(self)@.states.update(
            kind.ordinal(),
            WidgetState { content, ..old(self)@.state(kind) },
        ));
    }

    pub fn is_displayed(&self, kind: WidgetKind) -> (r: bool)
        ensures
            r == self@.displayed(kind),
    {
        proof {
            use_type_invariant(self);
        }
        self.states[kind.index()].display
    }

    pub fn is_focused(&self, kind: WidgetKind) -> (r: bool)
        ensures
            r == self@.focused(kind),
    {
        proof {
            use_type_invariant(self);
        }
        self.states[kind.index()].focus
    }

    pub fn get_state(&self, kind: WidgetKind) -> (r: &WidgetState)
        ensures
            *r == self@.state(kind),
    {
        proof {
            use_type_invariant(self);
        }
        &self.states[kind.index()]
    }

    pub fn get_color(&self, kind: &WidgetKind) -> (r: Option<Color>)
        ensures
            r == self@.state(*kind).color,
    {
        proof {
            use_type_invariant(self);
        }
        self.states[kind.index()].color
    }

    /// The kind recorded as focused.
    pub fn current_focus(&self) -> (r: Option<WidgetKind>)
        ensures
            r == self@.current_focus,
    {
        self.current_focus
    }

    /// The shown kinds in render order, drawn first to last.
    pub fn render_stack(&self) -> (r: &Vec<WidgetKind>)
        ensures
            r@ == self@.render_stack,
    {
        &self.render_stack
    }

    /// Each kind with its state, in declared order.
    pub fn iter(&self) -> (r: Vec<(WidgetKind, &WidgetState)>)
        ensures
            r@.len() == WIDGET_COUNT,
            forall|i: int|
                0 <= i < WIDGET_COUNT ==> (#[trigger] r@[i]).0 == kind_at(i) && *r@[i].1
                    == self@.states[i],
    {
        proof {
            use_type_invariant(self);
        }
        let mut r: Vec<(WidgetKind, &WidgetState)> = Vec::new();
        let mut i: usize = 0;
        while i < WIDGET_COUNT
            invariant
                i <= WIDGET_COUNT,
                self@.states.len() == WIDGET_COUNT,
                r@.len() == i,
                forall|j: int|
                    0 <= j < i ==> (#[trigger] r@[j]).0 == kind_at(j) && *r@[j].1
                        == self@.states[j],
            decreases WIDGET_COUNT - i,
        {
            r.push((WidgetKind::at(i), &self.states[i]));
            i += 1;
        }
        r
    }
}

/// A panel that shows one fixed text.
pub struct MyWidget {
    content: String,
}

impl MyWidget {
    pub fn new(content: String) -> (r: MyWidget)
        ensures
            r.text() == content@,
    {
        MyWidget { content }
    }

    pub closed spec fn text(&self) -> Seq<char> {
        self.content@
    }

    pub fn content(&self) -> (r: &String)
        ensures
            r@ == self.text(),
    {
        &self.content
    }
}

} // verus!
