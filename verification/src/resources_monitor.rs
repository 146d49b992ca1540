//! The monitor's copy of the resource levels, with its low-stock flags.

use vstd::prelude::*;
use crate::config;
use crate::take_orders::all_digits;
use crate::take_orders::decimal_value;
use crate::take_orders::is_digit;

verus! {

/// What a monitor holds: the four levels as last pushed, and whether each raw
/// resource is below the warning threshold.
pub struct Snapshot {
    pub coffee: u32,
    pub coffee_beans: u32,
    pub foam: u32,
    pub milk: u32,
    pub low_on_coffee_beans: bool,
    pub low_on_milk: bool,
}

/// The level under which a container of the given capacity counts as low: the
/// configured percentage of the capacity.
pub open spec fn threshold(capacity: u32) -> int {
    capacity * config::X / 100
}

impl Snapshot {
    /// Whether each flag says what its level says: a raw resource is flagged
    /// as low exactly when its level is below the threshold of its container.
    pub open spec fn consistent(self) -> bool {
        &&& self.low_on_coffee_beans == (self.coffee_beans < threshold(config::G))
        &&& self.low_on_milk == (self.milk < threshold(config::L))
    }
}

/// Marker that follows the level of a raw resource that is below its threshold.
pub open spec fn warning(low: bool) -> Seq<char> {
    if low {
        "[WARNING: below threshold]"@
    } else {
        ""@
    }
}

/// The character of the decimal digit `digit`.
pub open spec fn digit_char(digit: nat) -> char {
    "0123456789"@[digit as int]
}

/// The decimal digits of `n`, most significant first, with no leading zero:
/// the text that stands for `n` in a report.
pub open spec fn decimal_text(n: nat) -> Seq<char>
    decreases n,
{
    if n < 10 {
        seq![digit_char(n)]
    } else {
        decimal_text(n / 10).push(digit_char(n % 10))
    }
}

/// The text of a report on the given snapshot, one line per resource.
pub open spec fn report_text(s: Snapshot) -> Seq<char> {
    "Coffee: "@ + decimal_text(s.coffee as nat) + " mg\nCoffee Beans: "@ + decimal_text(
        s.coffee_beans as nat,
    ) + " mg "@ + warning(s.low_on_coffee_beans) + "\nFoam: "@ + decimal_text(s.foam as nat)
        + " ml\nMilk: "@ + decimal_text(s.milk as nat) + " ml "@ + warning(s.low_on_milk) + "\n"@
}

/// The bytes of a text of one-byte characters.
pub open spec fn bytes_of(text: Seq<char>) -> Seq<u8> {
    text.map_values(|c: char| c as u8)
}

/// What a report writes for a number reads back as that number: its text is
/// decimal digits only, and they write the number.
pub proof fn law_decimal_text_reads_back(n: nat)
    ensures
        decimal_text(n).len() > 0,
        all_digits(bytes_of(decimal_text(n))),
        decimal_value(bytes_of(decimal_text(n))) == n,
    decreases n,
{
    reveal_strlit("0123456789");
    let bytes = bytes_of(decimal_text(n));
    if n < 10 {
        assert(bytes.drop_last() =~= Seq::<u8>::empty());
        assert(decimal_value(bytes.drop_last()) == 0);
    } else {
        law_decimal_text_reads_back(n / 10);
        assert(bytes.drop_last() =~= bytes_of(decimal_text(n / 10)));
        assert forall|i: int| 0 <= i < bytes.len() implies is_digit(#[trigger] bytes[i]) by {
            if i < bytes.len() - 1 {
                assert(bytes[i] == bytes.drop_last()[i]);
            }
        }
    }
}

/// The text of one decimal digit.
fn digit_text(digit: u32) -> (text: &'static str)
    requires
        digit < 10,
    ensures
        text@ == seq![digit_char(digit as nat)],
{
    proof {
        reveal_strlit("0123456789");
        reveal_strlit("0");
        reveal_strlit("1");
        reveal_strlit("2");
        reveal_strlit("3");
        reveal_strlit("4");
        reveal_strlit("5");
        reveal_strlit("6");
        reveal_strlit("7");
        reveal_strlit("8");
        reveal_strlit("9");
    }
    let text = if digit == 0 {
        "0"
    } else if digit == 1 {
        "1"
    } else if digit == 2 {
        "2"
    } else if digit == 3 {
        "3"
    } else if digit == 4 {
        "4"
    } else if digit == 5 {
        "5"
    } else if digit == 6 {
        "6"
    } else if digit == 7 {
        "7"
    } else if digit == 8 {
        "8"
    } else {
        "9"
    };
    assert(text@ =~= seq![digit_char(digit as nat)]);
    text
}

/// Writes `n` in decimal digits.
pub fn decimal(n: u32) -> (text: String)
    ensures
        text@ == decimal_text(n as nat),
{
    let mut text = digit_text(n % 10).to_string();
    let mut rest: u32 = n / 10;
    while rest > 0
        invariant
            decimal_text(n as nat) == if rest == 0 {
                text@
            } else {
                decimal_text(rest as nat) + text@
            },
        decreases rest,
    {
        let mut longer = digit_text(rest % 10).to_string();
        longer.append(text.as_str());
        proof {
            if rest >= 10 {
                assert(decimal_text(rest as nat) + text@ =~= decimal_text((rest / 10) as nat)
                    + longer@);
            }
        }
        text = longer;
        rest = rest / 10;
    }
    text
}

/// Stores a copy of the resources to keep track of them as well as status flags.
#[derive(Debug, Clone, Copy)]
pub struct ResourcesMonitor {
    coffee: u32,
    coffee_beans: u32,
    foam: u32,
    milk: u32,
    low_on_coffee_beans: bool,
    low_on_milk: bool,
}

impl View for ResourcesMonitor {
    type V = Snapshot;

    closed spec fn view(&self) -> Snapshot {
        Snapshot {
            coffee: self.coffee,
            coffee_beans: self.coffee_beans,
            foam: self.foam,
            milk: self.milk,
            low_on_coffee_beans: self.low_on_coffee_beans,
            low_on_milk: self.low_on_milk,
        }
    }
}

impl ResourcesMonitor {
    /// Each flag says whether its level is below the threshold.
    #[verifier::type_invariant]
    spec fn flags_agree(self) -> bool {
        self@.consistent()
    }

    /// Creates a new ResourcesMonitor instance.
    pub fn new(
        initial_coffee: u32,
        initial_coffee_beans: u32,
        initial_foam: u32,
        initial_milk: u32,
    ) -> (monitor: ResourcesMonitor)
        ensures
            monitor@ == (Snapshot {
                coffee: initial_coffee,
                coffee_beans: initial_coffee_beans,
                foam: initial_foam,
                milk: initial_milk,
                low_on_coffee_beans: initial_coffee_beans < threshold(config::G),
                low_on_milk: initial_milk < threshold(config::L),
            }),
    {
        ResourcesMonitor {
            coffee: initial_coffee,
            coffee_beans: initial_coffee_beans,
            foam: initial_foam,
            milk: initial_milk,
            low_on_coffee_beans: initial_coffee_beans < config::G * config::X / 100,
            low_on_milk: initial_milk < config::L * config::X / 100,
        }
    }

    /// Updates the amount of coffee.
    pub fn update_coffee(&mut self, coffee: u32)
        ensures
            final(self)@ == (Snapshot { coffee, ..old(self)@ }),
    {
        proof {
            use_type_invariant(&*self);
        }
        *self = ResourcesMonitor { coffee, ..*self };
    }

    /// Updates the amount of coffee beans.
    pub fn update_coffee_beans(&mut self, coffee_beans: u32)
        ensures
            final(self)@ == (Snapshot {
                coffee_beans,
                low_on_coffee_beans: coffee_beans < threshold(config::G),
                ..old(self)@
            }),
    {
        proof {
            use_type_invariant(&*self);
        }
        *self = ResourcesMonitor {
            coffee_beans,
            low_on_coffee_beans: coffee_beans < config::G * config::X / 100,
            ..*self
        };
    }

    /// Updates the amount of foam.
    pub fn update_foam(&mut self, foam: u32)
        ensures
            final(self)@ == (Snapshot { foam, ..old(self)@ }),
    {
        proof {
            use_type_invariant(&*self);
        }
        *self = ResourcesMonitor { foam, ..*self };
    }

    /// Updates the amount of milk.
    pub fn update_milk(&mut self, milk: u32)
        ensures
            final(self)@ == (Snapshot {
                milk,
                low_on_milk: milk < threshold(config::L),
                ..old(self)@
            }),
    {
        proof {
            use_type_invariant(&*self);
        }
        *self = ResourcesMonitor {
            milk,
            low_on_milk: milk < config::L * config::X / 100,
            ..*self
        };
    }

    /// The amount of coffee last pushed.
    pub fn coffee(&self) -> (mg: u32)
        ensures
            mg == self@.coffee,
    {
        self.coffee
    }

    /// The amount of coffee beans last pushed.
    pub fn coffee_beans(&self) -> (mg: u32)
        ensures
            mg == self@.coffee_beans,
    {
        self.coffee_beans
    }

    /// The amount of foam last pushed.
    pub fn foam(&self) -> (ml: u32)
        ensures
            ml == self@.foam,
    {
        self.foam
    }

    /// The amount of milk last pushed.
    pub fn milk(&self) -> (ml: u32)
        ensures
            ml == self@.milk,
    {
        self.milk
    }

    /// Whether the coffee beans are below their threshold. The flag always
    /// agrees with the level that the monitor holds.
    pub fn low_on_coffee_beans(&self) -> (low: bool)
        ensures
            low == self@.low_on_coffee_beans,
            low == (self@.coffee_beans < threshold(config::G)),
    {
        proof {
            use_type_invariant(self);
        }
        self.low_on_coffee_beans
    }

    /// Whether the milk is below its threshold. The flag always agrees with the
    /// level that the monitor holds.
    pub fn low_on_milk(&self) -> (low: bool)
        ensures
            low == self@.low_on_milk,
            low == (self@.milk < threshold(config::L)),
    {
        proof {
            use_type_invariant(self);
        }
        self.low_on_milk
    }

    /// Displays the current status of the resources.
    pub fn report(&self) -> (text: String)
        ensures
            text@ == report_text(self@),
    {
        let coffee_beans_warning = if self.low_on_coffee_beans {
            "[WARNING: below threshold]"
        } else {
            ""
        };
        let milk_warning = if self.low_on_milk {
            "[WARNING: below threshold]"
        } else {
            ""
        };
        let mut text = "Coffee: ".to_string();
        text.append(decimal(self.coffee).as_str());
        text.append(" mg\nCoffee Beans: ");
        text.append(decimal(self.coffee_beans).as_str());
        text.append(" mg ");
        text.append(coffee_beans_warning);
        text.append("\nFoam: ");
        text.append(decimal(self.foam).as_str());
        text.append(" ml\nMilk: ");
        text.append(decimal(self.milk).as_str());
        text.append(" ml ");
        text.append(milk_warning);
        text.append("\n");
        text
    }
}

} // verus!
