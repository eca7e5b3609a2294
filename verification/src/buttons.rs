//! Logical buttons and the button state store.
//!
//! The set of logical buttons is closed: nine named controls, each either
//! pressed or released. The store keeps the latest value written for each of
//! them and nothing else: there is no queue and no history.

use vstd::prelude::*;

verus! {

/// One of the nine named controls that the user interface can press.
#[derive(Clone, Copy, Debug, PartialEq, Eq, Structural)]
pub enum LogicalButton {
    Climb,
    Zero,
    Intake,
    High,
    Mid,
    Low,
    Coral,
    IntakeAlga,
    DropAlga,
}

impl LogicalButton {
    /// The name under which callers address this button.
    pub open spec fn name_spec(self) -> Seq<char> {
        match self {
            LogicalButton::Climb => "climb"@,
            LogicalButton::Zero => "zero"@,
            LogicalButton::Intake => "intake"@,
            LogicalButton::High => "high"@,
            LogicalButton::Mid => "mid"@,
            LogicalButton::Low => "low"@,
            LogicalButton::Coral => "coral"@,
            LogicalButton::IntakeAlga => "intake_alga"@,
            LogicalButton::DropAlga => "drop_alga"@,
        }
    }

    /// The name under which callers address this button.
    pub fn name(self) -> (text: &'static str)
        ensures
            text@ == self.name_spec(),
    {
        match self {
            LogicalButton::Climb => "climb",
            LogicalButton::Zero => "zero",
            LogicalButton::Intake => "intake",
            LogicalButton::High => "high",
            LogicalButton::Mid => "mid",
            LogicalButton::Low => "low",
            LogicalButton::Coral => "coral",
            LogicalButton::IntakeAlga => "intake_alga",
            LogicalButton::DropAlga => "drop_alga",
        }
    }

    /// Looks a button up by name. Names are matched exactly; any other text
    /// is unknown and gives `None`.
    pub fn from_name(name: &str) -> (found: Option<LogicalButton>)
        ensures
            found == button_named(name@),
            found matches Some(button) ==> name@ == button.name_spec(),
            found is None ==> forall|button: LogicalButton| name@ != button.name_spec(),
    {
        let found = if same_text(name, "climb") {
            Some(LogicalButton::Climb)
        } else if same_text(name, "zero") {
            Some(LogicalButton::Zero)
        } else if same_text(name, "intake") {
            Some(LogicalButton::Intake)
        } else if same_text(name, "high") {
            Some(LogicalButton::High)
        } else if same_text(name, "mid") {
            Some(LogicalButton::Mid)
        } else if same_text(name, "low") {
            Some(LogicalButton::Low)
        } else if same_text(name, "coral") {
            Some(LogicalButton::Coral)
        } else if same_text(name, "intake_alga") {
            Some(LogicalButton::IntakeAlga)
        } else if same_text(name, "drop_alga") {
            Some(LogicalButton::DropAlga)
        } else {
            None
        };
        proof {
            lemma_button_named(name@);
        }
        found
    }
}

/// The button that answers to `name`, if there is one.
pub open spec fn button_named(name: Seq<char>) -> Option<LogicalButton> {
    if name == LogicalButton::Climb.name_spec() {
        Some(LogicalButton::Climb)
    } else if name == LogicalButton::Zero.name_spec() {
        Some(LogicalButton::Zero)
    } else if name == LogicalButton::Intake.name_spec() {
        Some(LogicalButton::Intake)
    } else if name == LogicalButton::High.name_spec() {
        Some(LogicalButton::High)
    } else if name == LogicalButton::Mid.name_spec() {
        Some(LogicalButton::Mid)
    } else if name == LogicalButton::Low.name_spec() {
        Some(LogicalButton::Low)
    } else if name == LogicalButton::Coral.name_spec() {
        Some(LogicalButton::Coral)
    } else if name == LogicalButton::IntakeAlga.name_spec() {
        Some(LogicalButton::IntakeAlga)
    } else if name == LogicalButton::DropAlga.name_spec() {
        Some(LogicalButton::DropAlga)
    } else {
        None
    }
}

/// Whether two texts hold the same characters.
fn same_text(a: &str, b: &str) -> (same: bool)
    ensures
        same == (a@ == b@),
{
    let n = a.unicode_len();
    if b.unicode_len() != n {
        return false;
    }
    let mut i: usize = 0;
    while i < n
        invariant
            i <= n,
            n == a@.len(),
            n == b@.len(),
            forall|j: int| 0 <= j < i ==> a@[j] == b@[j],
        decreases n - i,
    {
        if a.get_char(i) != b.get_char(i) {
            return false;
        }
        i += 1;
    }
    proof {
        assert(a@ =~= b@);
    }
    true
}

/// No two buttons share a name.
pub proof fn lemma_names_distinct(a: LogicalButton, b: LogicalButton)
    ensures
        a.name_spec() == b.name_spec() <==> a == b,
{
    reveal_strlit("climb");
    reveal_strlit("zero");
    reveal_strlit("intake");
    reveal_strlit("high");
    reveal_strlit("mid");
    reveal_strlit("low");
    reveal_strlit("coral");
    reveal_strlit("intake_alga");
    reveal_strlit("drop_alga");
    if a != b && a.name_spec() == b.name_spec() {
        let s = a.name_spec();
        let t = b.name_spec();
        assert(s.len() == t.len());
        assert(s[0] == t[0]);
        assert(s[1] == t[1]);
    }
}

/// `button_named` is the inverse of `name_spec`: a name finds a button
/// exactly when it is that button's name.
pub proof fn lemma_button_named(name: Seq<char>)
    ensures
        forall|button: LogicalButton|
            button_named(name) == Some(button) <==> name == #[trigger] button.name_spec(),
        button_named(name) is None <==> forall|button: LogicalButton|
            name != #[trigger] button.name_spec(),
{
    assert forall|button: LogicalButton|
        button_named(name) == Some(button) <==> name == #[trigger] button.name_spec() by {
        lemma_names_distinct(button, LogicalButton::Climb);
        lemma_names_distinct(button, LogicalButton::Zero);
        lemma_names_distinct(button, LogicalButton::Intake);
        lemma_names_distinct(button, LogicalButton::High);
        lemma_names_distinct(button, LogicalButton::Mid);
        lemma_names_distinct(button, LogicalButton::Low);
        lemma_names_distinct(button, LogicalButton::Coral);
        lemma_names_distinct(button, LogicalButton::IntakeAlga);
        lemma_names_distinct(button, LogicalButton::DropAlga);
    }
    if button_named(name) is None {
        assert forall|button: LogicalButton| name != #[trigger] button.name_spec() by {
            if name == button.name_spec() {
                assert(button_named(name) == Some(button));
            }
        }
    } else {
        let button = button_named(name)->0;
        assert(name == button.name_spec());
    }
}

/// Every button is found under its own name.
pub proof fn lemma_name_finds_button(button: LogicalButton)
    ensures
        button_named(button.name_spec()) == Some(button),
{
    lemma_button_named(button.name_spec());
}

/// The state of the nine logical buttons: `true` is pressed, `false` is
/// released.
#[derive(Clone, Copy, Debug, PartialEq, Eq, Structural)]
pub struct ButtonState {
    pub climb: bool,
    pub zero: bool,
    pub intake: bool,
    pub high: bool,
    pub mid: bool,
    pub low: bool,
    pub coral: bool,
    pub intake_alga: bool,
    pub drop_alga: bool,
}

impl ButtonState {
    /// The state in which every button is released.
    pub open spec fn released() -> ButtonState {
        ButtonState {
            climb: false,
            zero: false,
            intake: false,
            high: false,
            mid: false,
            low: false,
            coral: false,
            intake_alga: false,
            drop_alga: false,
        }
    }

    /// Whether `button` is pressed in this state.
    pub open spec fn pressed(self, button: LogicalButton) -> bool {
        match button {
            LogicalButton::Climb => self.climb,
            LogicalButton::Zero => self.zero,
            LogicalButton::Intake => self.intake,
            LogicalButton::High => self.high,
            LogicalButton::Mid => self.mid,
            LogicalButton::Low => self.low,
            LogicalButton::Coral => self.coral,
            LogicalButton::IntakeAlga => self.intake_alga,
            LogicalButton::DropAlga => self.drop_alga,
        }
    }

    /// This state with `button` set to `value` and every other button as it
    /// was.
    pub open spec fn with(self, button: LogicalButton, value: bool) -> ButtonState {
        ButtonState {
            climb: if button == LogicalButton::Climb { value } else { self.climb },
            zero: if button == LogicalButton::Zero { value } else { self.zero },
            intake: if button == LogicalButton::Intake { value } else { self.intake },
            high: if button == LogicalButton::High { value } else { self.high },
            mid: if button == LogicalButton::Mid { value } else { self.mid },
            low: if button == LogicalButton::Low { value } else { self.low },
            coral: if button == LogicalButton::Coral { value } else { self.coral },
            intake_alga: if button == LogicalButton::IntakeAlga { value } else { self.intake_alga },
            drop_alga: if button == LogicalButton::DropAlga { value } else { self.drop_alga },
        }
    }

    /// A store with every button released.
    pub fn new() -> (state: ButtonState)
        ensures
            state == ButtonState::released(),
            forall|button: LogicalButton| !state.pressed(button),
    {
        ButtonState {
            climb: false,
            zero: false,
            intake: false,
            high: false,
            mid: false,
            low: false,
            coral: false,
            intake_alga: false,
            drop_alga: false,
        }
    }

    /// Whether `button` is pressed.
    pub fn is_pressed(&self, button: LogicalButton) -> (held: bool)
        ensures
            held == self.pressed(button),
    {
        match button {
            LogicalButton::Climb => self.climb,
            LogicalButton::Zero => self.zero,
            LogicalButton::Intake => self.intake,
            LogicalButton::High => self.high,
            LogicalButton::Mid => self.mid,
            LogicalButton::Low => self.low,
            LogicalButton::Coral => self.coral,
            LogicalButton::IntakeAlga => self.intake_alga,
            LogicalButton::DropAlga => self.drop_alga,
        }
    }

    /// Writes `value` for `button`. The write replaces whatever was there;
    /// no other button changes.
    pub fn set(&mut self, button: LogicalButton, value: bool)
        ensures
            *final(self) == old(self).with(button, value),
            final(self).pressed(button) == value,
            forall|other: LogicalButton|
                other != button ==> final(self).pressed(other) == old(self).pressed(other),
        no_unwind
    {
        match button {
            LogicalButton::Climb => self.climb = value,
            LogicalButton::Zero => self.zero = value,
            LogicalButton::Intake => self.intake = value,
            LogicalButton::High => self.high = value,
            LogicalButton::Mid => self.mid = value,
            LogicalButton::Low => self.low = value,
            LogicalButton::Coral => self.coral = value,
            LogicalButton::IntakeAlga => self.intake_alga = value,
            LogicalButton::DropAlga => self.drop_alga = value,
        }
    }

    /// A copy of all nine values as they stand at this moment.
    pub fn snapshot(&self) -> (copy: ButtonState)
        ensures
            copy == *self,
    {
        *self
    }
}

impl Default for ButtonState {
    fn default() -> (state: ButtonState)
        ensures
            state == ButtonState::released(),
    {
        ButtonState::new()
    }
}

/// Two states in which every button has the same value are the same state.
pub proof fn lemma_state_extensional(a: ButtonState, b: ButtonState)
    requires
        forall|button: LogicalButton| a.pressed(button) == b.pressed(button),
    ensures
        a == b,
{
    assert(a.pressed(LogicalButton::Climb) == b.pressed(LogicalButton::Climb));
    assert(a.pressed(LogicalButton::Zero) == b.pressed(LogicalButton::Zero));
    assert(a.pressed(LogicalButton::Intake) == b.pressed(LogicalButton::Intake));
    assert(a.pressed(LogicalButton::High) == b.pressed(LogicalButton::High));
    assert(a.pressed(LogicalButton::Mid) == b.pressed(LogicalButton::Mid));
    assert(a.pressed(LogicalButton::Low) == b.pressed(LogicalButton::Low));
    assert(a.pressed(LogicalButton::Coral) == b.pressed(LogicalButton::Coral));
    assert(a.pressed(LogicalButton::IntakeAlga) == b.pressed(LogicalButton::IntakeAlga));
    assert(a.pressed(LogicalButton::DropAlga) == b.pressed(LogicalButton::DropAlga));
}

/// The effect on the store of one write addressed by name: a known name
/// sets that button, an unknown name changes nothing.
pub open spec fn apply_write(state: ButtonState, name: Seq<char>, value: bool) -> ButtonState {
    match button_named(name) {
        Some(button) => state.with(button, value),
        None => state,
    }
}

/// The effect on the store of a sequence of writes by name, first to last.
pub open spec fn apply_writes(state: ButtonState, writes: Seq<(Seq<char>, bool)>) -> ButtonState
    decreases writes.len(),
{
    if writes.len() == 0 {
        state
    } else {
        let write = writes.last();
        apply_write(apply_writes(state, writes.drop_last()), write.0, write.1)
    }
}

/// Last write wins: after any sequence of writes, a button holds the value
/// of the last write that named it, and a button that no write named holds
/// the value it had before.
pub proof fn lemma_last_write_wins(
    state: ButtonState,
    writes: Seq<(Seq<char>, bool)>,
    button: LogicalButton,
)
    ensures
        forall|i: int|
            0 <= i < writes.len() && #[trigger] writes[i].0 == button.name_spec() && (forall|j: int|
                i < j < writes.len() ==> #[trigger] writes[j].0 != button.name_spec())
                ==> apply_writes(state, writes).pressed(button) == writes[i].1,
        (forall|i: int| 0 <= i < writes.len() ==> #[trigger] writes[i].0 != button.name_spec())
            ==> apply_writes(state, writes).pressed(button) == state.pressed(button),
    decreases writes.len(),
{
    if writes.len() > 0 {
        let earlier = writes.drop_last();
        let write = writes.last();
        let last = writes.len() - 1;
        lemma_last_write_wins(state, earlier, button);
        lemma_button_named(write.0);
        assert(writes[last] == write);
        assert forall|i: int|
            0 <= i < writes.len() && #[trigger] writes[i].0 == button.name_spec() && (forall|j: int|
                i < j < writes.len() ==> #[trigger] writes[j].0 != button.name_spec())
            implies apply_writes(state, writes).pressed(button) == writes[i].1 by {
            if i < last {
                assert(writes[last].0 != button.name_spec());
                assert(earlier[i] == writes[i]);
                assert forall|j: int| i < j < earlier.len() implies #[trigger] earlier[j].0
                    != button.name_spec() by {
                    assert(earlier[j] == writes[j]);
                }
            }
        }
        if forall|i: int| 0 <= i < writes.len() ==> #[trigger] writes[i].0 != button.name_spec() {
            assert(writes[last].0 != button.name_spec());
            assert forall|i: int| 0 <= i < earlier.len() implies #[trigger] earlier[i].0
                != button.name_spec() by {
                assert(earlier[i] == writes[i]);
            }
        }
    }
}

/// Writing the same value twice is the same as writing it once.
pub proof fn lemma_write_idempotent(state: ButtonState, name: Seq<char>, value: bool)
    ensures
        apply_write(apply_write(state, name, value), name, value) == apply_write(
            state,
            name,
            value,
        ),
{
}

/// A write under a name that no button has leaves the store as it was.
pub proof fn lemma_unknown_name_ignored(state: ButtonState, name: Seq<char>, value: bool)
    requires
        forall|button: LogicalButton| name != button.name_spec(),
    ensures
        apply_write(state, name, value) == state,
{
    lemma_button_named(name);
}

} // verus!
