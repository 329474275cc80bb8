//! Macro trigger table: the listening flag and the bindings from trigger
//! identity to macro definition.
//!
//! The table's invariant is that no two bindings share a trigger identity
//! (structural equality of the trigger), so re-adding a trigger replaces
//! the previous binding: last writer wins, never multi-bind.

use vstd::prelude::*;
use vstd::seq_lib::*;

use crate::script::{
    str_eq, ActionView, KeyView, KeyboardKey, MacroAction, MacroDefView, MacroDefinition,
    MacroTrigger, MouseButton, TriggerView,
};
use crate::Error;

verus! {

/// No two bindings share a trigger identity.
pub open spec fn wf_bindings(b: Seq<MacroDefView>) -> bool {
    forall|i: int, j: int|
        0 <= i < j < b.len() ==> (#[trigger] b[i].trigger) != (#[trigger] b[j].trigger)
}

/// Whether some binding has the given trigger identity.
pub open spec fn has_trigger(b: Seq<MacroDefView>, t: TriggerView) -> bool {
    exists|i: int| 0 <= i < b.len() && (#[trigger] b[i].trigger) == t
}

/// The index of the binding with the given trigger identity; meaningful
/// only when [`has_trigger`] holds, and unique under [`wf_bindings`].
pub open spec fn trigger_index(b: Seq<MacroDefView>, t: TriggerView) -> int {
    choose|i: int| 0 <= i < b.len() && (#[trigger] b[i].trigger) == t
}

/// Adding a binding: replace the binding with the same trigger identity if
/// one exists, else append.
pub open spec fn spec_add(b: Seq<MacroDefView>, d: MacroDefView) -> Seq<MacroDefView> {
    if has_trigger(b, d.trigger) {
        b.update(trigger_index(b, d.trigger), d)
    } else {
        b.push(d)
    }
}

/// The binding bound to a trigger identity, if any.
pub open spec fn spec_lookup(b: Seq<MacroDefView>, t: TriggerView) -> Option<MacroDefView> {
    if has_trigger(b, t) {
        Option::Some(b[trigger_index(b, t)])
    } else {
        Option::None
    }
}

/// The dispatch decision: the action to run, exactly when listening is
/// active and an enabled binding with a non-empty action matches.
pub open spec fn spec_check(s: MacroTableView, t: TriggerView) -> Option<ActionView> {
    if s.active {
        match spec_lookup(s.bindings, t) {
            Option::Some(d) => if d.enabled && d.action.is_nonempty() {
                Option::Some(d.action)
            } else {
                Option::None
            },
            Option::None => Option::None,
        }
    } else {
        Option::None
    }
}

/// Mathematical model of a [`MacroState`].
pub ghost struct MacroTableView {
    pub active: bool,
    pub bindings: Seq<MacroDefView>,
}

impl MacroTableView {
    /// Table validity: one binding per trigger identity.
    pub open spec fn wf(self) -> bool {
        wf_bindings(self.bindings)
    }
}

/// Macro state manager.
pub struct MacroState {
    /// Whether macro listening is active
    pub active: bool,
    /// Registered macros, at most one per trigger identity
    pub macros: Vec<MacroDefinition>,
}

impl View for MacroState {
    type V = MacroTableView;

    open spec fn view(&self) -> MacroTableView {
        MacroTableView { active: self.active, bindings: self.macros.deep_view() }
    }
}

impl MacroState {
    /// A fresh table: not listening, no bindings.
    pub fn new() -> (r: MacroState)
        ensures
            r@.active == false,
            r@.bindings == Seq::<MacroDefView>::empty(),
            r@.wf(),
    {
        let r = MacroState { active: false, macros: Vec::new() };
        proof {
            assert(r@.bindings =~= Seq::<MacroDefView>::empty());
        }
        r
    }

    /// Whether macro listening is active.
    pub fn is_active(&self) -> (r: bool)
        ensures
            r == self@.active,
    {
        self.active
    }

    /// Toggle listening without touching the bindings.
    pub fn set_active(&mut self, active: bool)
        ensures
            final(self)@.active == active,
            final(self)@.bindings == old(self)@.bindings,
    {
        self.active = active;
    }

    /// The index of the binding whose trigger matches, if any.
    fn find_trigger_slot(&self, trigger: &MacroTrigger) -> (r: Option<usize>)
        requires
            self@.wf(),
        ensures
            match r {
                Option::Some(i) => has_trigger(self@.bindings, trigger@) && i == trigger_index(
                    self@.bindings,
                    trigger@,
                ),
                Option::None => !has_trigger(self@.bindings, trigger@),
            },
    {
        let ghost b = self@.bindings;
        let mut i: usize = 0;
        while i < self.macros.len()
            invariant
                i <= self.macros.len(),
                b == self@.bindings,
                self@.wf(),
                forall|j: int| 0 <= j < i ==> (#[trigger] b[j].trigger) != trigger@,
            decreases self.macros.len() - i,
        {
            if self.macros[i].trigger.matches(trigger) {
                proof {
                    assert(b[i as int].trigger == trigger@);
                    let k = trigger_index(b, trigger@);
                    assert(0 <= k < b.len() && b[k].trigger == trigger@);
                    if k != i as int {
                        assert(b[k].trigger != b[i as int].trigger);
                    }
                }
                return Some(i);
            }
            i = i + 1;
        }
        None
    }

    /// Add or update a macro: the binding with the same trigger identity,
    /// if any, is replaced; otherwise the macro is appended.
    pub fn add_macro(&mut self, macro_def: MacroDefinition)
        requires
            old(self)@.wf(),
        ensures
            final(self)@.active == old(self)@.active,
            final(self)@.bindings == spec_add(old(self)@.bindings, macro_def@),
            final(self)@.wf(),
    {
        let ghost b = old(self)@.bindings;
        let ghost dv = macro_def@;
        match self.find_trigger_slot(&macro_def.trigger) {
            Some(i) => {
                let slot = &mut self.macros[i];
                *slot = macro_def;
                proof {
                    assert(self@.bindings =~= b.update(trigger_index(b, dv.trigger), dv));
                    assert forall|p: int, q: int|
                        0 <= p < q < self@.bindings.len() implies (
                    #[trigger] self@.bindings[p].trigger) != (
                    #[trigger] self@.bindings[q].trigger) by {
                        let k = trigger_index(b, dv.trigger);
                        assert(b[p].trigger != b[q].trigger);
                    }
                }
            },
            None => {
                self.macros.push(macro_def);
                proof {
                    assert(self@.bindings =~= b.push(dv));
                    assert forall|p: int, q: int|
                        0 <= p < q < self@.bindings.len() implies (
                    #[trigger] self@.bindings[p].trigger) != (
                    #[trigger] self@.bindings[q].trigger) by {
                        if q < b.len() {
                            assert(b[p].trigger != b[q].trigger);
                        } else {
                            assert(self@.bindings[q] == dv);
                            assert(!has_trigger(b, dv.trigger));
                            assert(b[p].trigger != dv.trigger);
                        }
                    }
                }
            },
        }
    }

    /// All registered macros, in insertion order.
    pub fn get_all_macros(&self) -> (r: Vec<MacroDefinition>)
        ensures
            r.deep_view() == self@.bindings,
    {
        let mut out: Vec<MacroDefinition> = Vec::new();
        let mut i: usize = 0;
        while i < self.macros.len()
            invariant
                i <= self.macros.len(),
                out@.len() == i,
                forall|j: int| 0 <= j < i ==> out.deep_view()[j] == self@.bindings[j],
            decreases self.macros.len() - i,
        {
            let ghost prev = out.deep_view();
            out.push(self.macros[i].clone());
            proof {
                assert(out.deep_view() =~= prev.push(self@.bindings[i as int]));
            }
            i = i + 1;
        }
        proof {
            assert(out.deep_view() =~= self@.bindings);
        }
        out
    }

    /// The macro bound to a trigger, if any (a copy).
    pub fn find_by_trigger(&self, trigger: &MacroTrigger) -> (r: Option<MacroDefinition>)
        requires
            self@.wf(),
        ensures
            r.deep_view() == spec_lookup(self@.bindings, trigger@),
    {
        match self.find_trigger_slot(trigger) {
            Some(i) => Some(self.macros[i].clone()),
            None => None,
        }
    }

    /// Remove every macro with the given definition id.
    pub fn remove_macro(&mut self, id: &str)
        requires
            old(self)@.wf(),
        ensures
            final(self)@.active == old(self)@.active,
            final(self)@.bindings == old(self)@.bindings.filter(
                |d: MacroDefView| d.id != id@,
            ),
            final(self)@.wf(),
    {
        let ghost b = old(self)@.bindings;
        let ghost pred = |d: MacroDefView| d.id != id@;
        let id_owned = id.to_owned();
        let mut out: Vec<MacroDefinition> = Vec::new();
        let mut i: usize = 0;
        while i < self.macros.len()
            invariant
                i <= self.macros.len(),
                b == self@.bindings,
                id_owned@ == id@,
                pred == (|d: MacroDefView| d.id != id@),
                out.deep_view() =~= b.take(i as int).filter(pred),
            decreases self.macros.len() - i,
        {
            proof {
                broadcast use Seq::lemma_filter_push;

                assert(b.take(i + 1 as int) =~= b.take(i as int).push(b[i as int]));
            }
            if !self.macros[i].id.eq(&id_owned) {
                let ghost prev = out.deep_view();
                out.push(self.macros[i].clone());
                proof {
                    assert(out.deep_view() =~= prev.push(b[i as int]));
                }
            }
            i = i + 1;
        }
        proof {
            assert(b.take(b.len() as int) =~= b);
            lemma_wf_filter(b, pred);
        }
        self.macros = out;
    }

    /// Flip the enabled flag of the first macro with the given id, in
    /// place; a no-op if no macro has that id.
    pub fn toggle_macro(&mut self, id: &str, enabled: bool)
        requires
            old(self)@.wf(),
        ensures
            final(self)@.active == old(self)@.active,
            final(self)@.wf(),
            (forall|i: int|
                0 <= i < old(self)@.bindings.len() ==> (#[trigger] old(self)@.bindings[i].id)
                    != id@) ==> final(self)@ == old(self)@,
            forall|i: int|
                (0 <= i < old(self)@.bindings.len() && (#[trigger] old(self)@.bindings[i].id)
                    == id@ && (forall|j: int|
                    0 <= j < i ==> (#[trigger] old(self)@.bindings[j].id) != id@))
                    ==> final(self)@.bindings == old(self)@.bindings.update(
                    i,
                    MacroDefView { enabled, ..old(self)@.bindings[i] },
                ),
    {
        let ghost b = old(self)@.bindings;
        let id_owned = id.to_owned();
        let mut i: usize = 0;
        while i < self.macros.len()
            invariant
                i <= self.macros.len(),
                b == self@.bindings,
                wf_bindings(b),
                id_owned@ == id@,
                self@ == old(self)@,
                forall|j: int| 0 <= j < i ==> (#[trigger] b[j].id) != id@,
            decreases self.macros.len() - i,
        {
            if self.macros[i].id.eq(&id_owned) {
                let mut updated = self.macros[i].clone();
                updated.enabled = enabled;
                let ghost uv = updated@;
                let slot = &mut self.macros[i];
                *slot = updated;
                proof {
                    assert(wf_bindings(b));
                    assert(uv == (MacroDefView { enabled, ..b[i as int] }));
                    assert(self@.bindings =~= b.update(i as int, uv));
                    assert forall|p: int, q: int|
                        0 <= p < q < self@.bindings.len() implies (
                    #[trigger] self@.bindings[p].trigger) != (
                    #[trigger] self@.bindings[q].trigger) by {
                        assert(b[p].trigger != b[q].trigger);
                    }
                }
                return ;
            }
            i = i + 1;
        }
    }

    /// The dispatch decision for an incoming trigger: the bound action,
    /// exactly when listening is active and an enabled, non-empty binding
    /// matches. Running the action (on a separate worker, through the
    /// playback scheduler) is the caller's task.
    pub fn check_and_execute(&self, trigger: &MacroTrigger) -> (r: Option<MacroAction>)
        requires
            self@.wf(),
        ensures
            r.deep_view() == spec_check(self@, trigger@),
    {
        if !self.is_active() {
            return None;
        }
        match self.find_by_trigger(trigger) {
            Some(macro_def) => {
                if macro_def.enabled && macro_def.action.is_nonempty() {
                    Some(macro_def.action)
                } else {
                    None
                }
            },
            None => None,
        }
    }
}

impl Default for MacroState {
    fn default() -> (r: MacroState)
        ensures
            r@.active == false,
            r@.bindings == Seq::<MacroDefView>::empty(),
            r@.wf(),
    {
        MacroState::new()
    }
}

/// Every element of a filtered sequence is an element of the original.
proof fn lemma_filter_in_original(
    b: Seq<MacroDefView>,
    pred: spec_fn(MacroDefView) -> bool,
    i: int,
)
    requires
        0 <= i < b.filter(pred).len(),
    ensures
        exists|j: int| 0 <= j < b.len() && #[trigger] b[j] == b.filter(pred)[i],
    decreases b.len(),
{
    reveal(Seq::filter);
    if b.len() > 0 {
        let f1 = b.drop_last().filter(pred);
        if pred(b.last()) {
            if i < f1.len() {
                lemma_filter_in_original(b.drop_last(), pred, i);
                let j = choose|j: int|
                    0 <= j < b.drop_last().len() && #[trigger] b.drop_last()[j] == f1[i];
                assert(b[j] == b.filter(pred)[i]);
            } else {
                assert(b[b.len() - 1] == b.filter(pred)[i]);
            }
        } else {
            lemma_filter_in_original(b.drop_last(), pred, i);
            let j = choose|j: int|
                0 <= j < b.drop_last().len() && #[trigger] b.drop_last()[j] == f1[i];
            assert(b[j] == b.filter(pred)[i]);
        }
    }
}

/// Filtering preserves the one-binding-per-trigger invariant.
proof fn lemma_wf_filter(b: Seq<MacroDefView>, pred: spec_fn(MacroDefView) -> bool)
    requires
        wf_bindings(b),
    ensures
        wf_bindings(b.filter(pred)),
    decreases b.len(),
{
    reveal(Seq::filter);
    if b.len() > 0 {
        let b1 = b.drop_last();
        assert(wf_bindings(b1)) by {
            assert forall|p: int, q: int|
                0 <= p < q < b1.len() implies (#[trigger] b1[p].trigger) != (
            #[trigger] b1[q].trigger) by {
                assert(b[p].trigger != b[q].trigger);
            }
        }
        lemma_wf_filter(b1, pred);
        let f1 = b1.filter(pred);
        if pred(b.last()) {
            assert forall|p: int, q: int|
                0 <= p < q < b.filter(pred).len() implies (#[trigger] b.filter(pred)[p].trigger)
                != (#[trigger] b.filter(pred)[q].trigger) by {
                if q < f1.len() {
                    assert(f1[p].trigger != f1[q].trigger);
                } else {
                    assert(b.filter(pred)[q] == b.last());
                    assert(b.filter(pred)[p] == f1[p]);
                    lemma_filter_in_original(b1, pred, p);
                    let j = choose|j: int| 0 <= j < b1.len() && #[trigger] b1[j] == f1[p];
                    assert(b[j].trigger != b[b.len() - 1].trigger);
                }
            }
        }
    }
}

/// Last writer wins: under the table invariant, adding two definitions
/// with the same trigger identity leaves exactly one binding for it — the
/// second replaces the first, and the table does not grow.
pub proof fn lemma_macro_single_binding(
    b: Seq<MacroDefView>,
    d1: MacroDefView,
    d2: MacroDefView,
)
    requires
        wf_bindings(b),
        d1.trigger == d2.trigger,
    ensures
        spec_add(spec_add(b, d1), d2).len() == spec_add(b, d1).len(),
        spec_lookup(spec_add(spec_add(b, d1), d2), d1.trigger) == Option::Some(d2),
{
    let b1 = spec_add(b, d1);
    if has_trigger(b, d1.trigger) {
        let k = trigger_index(b, d1.trigger);
        assert(0 <= k < b.len() && b[k].trigger == d1.trigger);
        assert(b1[k].trigger == d1.trigger);
        assert(has_trigger(b1, d2.trigger));
    } else {
        assert(b1[b.len() as int].trigger == d1.trigger);
        assert(has_trigger(b1, d2.trigger));
    }
    lemma_add_preserves_wf(b, d1);
    let k1 = trigger_index(b1, d2.trigger);
    assert(0 <= k1 < b1.len() && b1[k1].trigger == d2.trigger);
    let b2 = spec_add(b1, d2);
    assert(b2 == b1.update(k1, d2));
    assert(b2[k1].trigger == d2.trigger);
    assert(has_trigger(b2, d2.trigger));
    let k2 = trigger_index(b2, d2.trigger);
    assert(0 <= k2 < b2.len() && b2[k2].trigger == d2.trigger);
    lemma_add_preserves_wf(b1, d2);
    if k2 != k1 {
        assert(b2[k1].trigger != b2[k2].trigger);
    }
    assert(spec_lookup(b2, d1.trigger) == Option::Some(d2));
}

/// Adding a binding preserves the one-binding-per-trigger invariant.
pub proof fn lemma_add_preserves_wf(b: Seq<MacroDefView>, d: MacroDefView)
    requires
        wf_bindings(b),
    ensures
        wf_bindings(spec_add(b, d)),
{
    let r = spec_add(b, d);
    if has_trigger(b, d.trigger) {
        let k = trigger_index(b, d.trigger);
        assert(0 <= k < b.len() && b[k].trigger == d.trigger);
        assert forall|p: int, q: int|
            0 <= p < q < r.len() implies (#[trigger] r[p].trigger) != (
        #[trigger] r[q].trigger) by {
            assert(b[p].trigger != b[q].trigger);
        }
    } else {
        assert forall|p: int, q: int|
            0 <= p < q < r.len() implies (#[trigger] r[p].trigger) != (
        #[trigger] r[q].trigger) by {
            if q < b.len() {
                assert(b[p].trigger != b[q].trigger);
            } else {
                assert(r[q] == d);
                assert(b[p].trigger != d.trigger);
            }
        }
    }
}

/// The decimal digit character for a value below ten.
pub open spec fn spec_digit(d: int) -> char {
    if d == 0 {
        '0'
    } else if d == 1 {
        '1'
    } else if d == 2 {
        '2'
    } else if d == 3 {
        '3'
    } else if d == 4 {
        '4'
    } else if d == 5 {
        '5'
    } else if d == 6 {
        '6'
    } else if d == 7 {
        '7'
    } else if d == 8 {
        '8'
    } else {
        '9'
    }
}

/// The decimal spelling of a number, most significant digit first.
pub open spec fn spec_decimal(n: int) -> Seq<char>
    decreases n,
{
    if n < 10 {
        seq![spec_digit(n)]
    } else {
        spec_decimal(n / 10) + seq![spec_digit(n % 10)]
    }
}

/// Append one decimal digit character.
fn push_digit(s: &mut String, d: u64)
    requires
        d < 10,
    ensures
        final(s)@ == old(s)@ + seq![spec_digit(d as int)],
{
    let lit: &str = match d {
        0 => "0",
        1 => "1",
        2 => "2",
        3 => "3",
        4 => "4",
        5 => "5",
        6 => "6",
        7 => "7",
        8 => "8",
        _ => "9",
    };
    proof {
        reveal_strlit("0");
        reveal_strlit("1");
        reveal_strlit("2");
        reveal_strlit("3");
        reveal_strlit("4");
        reveal_strlit("5");
        reveal_strlit("6");
        reveal_strlit("7");
        reveal_strlit("8");
        reveal_strlit("9");
        assert(lit@ =~= seq![spec_digit(d as int)]);
    }
    s.append(lit);
}

/// Append the decimal spelling of a number.
fn push_decimal(s: &mut String, n: u64)
    ensures
        final(s)@ == old(s)@ + spec_decimal(n as int),
    decreases n,
{
    if n >= 10 {
        push_decimal(s, n / 10);
        push_digit(s, n % 10);
        proof {
            assert(s@ =~= old(s)@ + spec_decimal(n as int));
        }
    } else {
        push_digit(s, n);
    }
}

/// Mint a fresh identifier from the current time, as a decimal microsecond
/// count behind a fixed prefix. Two calls in the same microsecond collide,
/// and the clock can move backwards; nothing more than the shape is
/// promised.
fn uuid_simple() -> (r: String)
    ensures
        exists|n: int| 0 <= n && r@ == "macro_"@ + spec_decimal(n),
{
    let now: i64 = crate::clock::utc_now_us();
    let mut id: String = "macro_".to_owned();
    push_decimal(&mut id, now as u64);
    id
}

/// Build a macro definition bound to a persisted script, enabled, with a
/// freshly minted id.
pub fn create_macro_binding(name: String, trigger: MacroTrigger, script_path: String) -> (r:
    MacroDefinition)
    ensures
        r@.name == name@,
        r@.trigger == trigger@,
        r@.action == ActionView::FileRef(script_path@),
        r@.enabled == true,
{
    MacroDefinition {
        id: uuid_simple(),
        name,
        trigger,
        action: MacroAction::FileRef(script_path),
        enabled: true,
    }
}

/// The mouse button a trigger description names, if any.
pub open spec fn spec_parse_button(v: Seq<char>) -> Option<MouseButton> {
    if v == "left"@ {
        Option::Some(MouseButton::Left)
    } else if v == "right"@ {
        Option::Some(MouseButton::Right)
    } else if v == "middle"@ {
        Option::Some(MouseButton::Middle)
    } else if v == "back"@ {
        Option::Some(MouseButton::Back)
    } else if v == "forward"@ {
        Option::Some(MouseButton::Forward)
    } else {
        Option::None
    }
}

/// Parsing a textual trigger description: kind "mouse" takes one of the
/// five button names; kind "key" takes a single character (a `Char` key)
/// or a special-key name; anything else is refused.
pub open spec fn spec_parse_trigger(ty: Seq<char>, v: Seq<char>) -> Result<TriggerView, Error> {
    if ty == "mouse"@ {
        match spec_parse_button(v) {
            Option::Some(b) => Result::Ok(TriggerView::MousePress { button: b }),
            Option::None => Result::Err(Error::InvalidMouseButton),
        }
    } else if ty == "key"@ {
        if v.len() == 1 {
            Result::Ok(TriggerView::KeyPress { key: KeyView::Char(v[0]) })
        } else {
            Result::Ok(TriggerView::KeyPress { key: KeyView::Special(v) })
        }
    } else {
        Result::Err(Error::InvalidTriggerType)
    }
}

/// Parse a textual trigger description (see [`spec_parse_trigger`]).
pub fn parse_trigger(trigger_type: &str, trigger_value: &str) -> (r: Result<MacroTrigger, Error>)
    ensures
        r is Ok <==> spec_parse_trigger(trigger_type@, trigger_value@) is Ok,
        r is Ok ==> (r->Ok_0)@ == spec_parse_trigger(trigger_type@, trigger_value@)->Ok_0,
        r is Err ==> r->Err_0 == spec_parse_trigger(trigger_type@, trigger_value@)->Err_0,
{
    if str_eq(trigger_type, "mouse") {
        let button = if str_eq(trigger_value, "left") {
            MouseButton::Left
        } else if str_eq(trigger_value, "right") {
            MouseButton::Right
        } else if str_eq(trigger_value, "middle") {
            MouseButton::Middle
        } else if str_eq(trigger_value, "back") {
            MouseButton::Back
        } else if str_eq(trigger_value, "forward") {
            MouseButton::Forward
        } else {
            return Err(Error::InvalidMouseButton);
        };
        Ok(MacroTrigger::MousePress { button })
    } else if str_eq(trigger_type, "key") {
        if trigger_value.unicode_len() == 1 {
            let c = trigger_value.get_char(0);
            Ok(MacroTrigger::KeyPress { key: KeyboardKey::Char(c) })
        } else {
            Ok(MacroTrigger::KeyPress { key: KeyboardKey::Special(trigger_value.to_owned()) })
        }
    } else {
        Err(Error::InvalidTriggerType)
    }
}

} // verus!
