use vstd::prelude::*;

use crate::config::CommanderType;

verus! {

/// What a commander needs to know of one of its powers.
#[derive(Debug, Clone)]
pub struct CommanderPowerRule {
    pub required_charge: u32,
    /// at the start of the player's turn, this power is switched to if
    /// possible
    pub next_power: u8,
    pub usable_from_power: Vec<u8>,
}

/// A player's commander: its type, the charge it gathered, the power that
/// is active, and the powers of its type.
#[derive(Debug, Clone)]
pub struct Commander {
    typ: CommanderType,
    charge: u32,
    power: usize,
    powers: Vec<CommanderPowerRule>,
}

impl Commander {
    pub closed spec fn spec_typ(&self) -> CommanderType {
        self.typ
    }

    pub closed spec fn spec_charge(&self) -> u32 {
        self.charge
    }

    pub closed spec fn spec_power(&self) -> usize {
        self.power
    }

    pub closed spec fn spec_powers(&self) -> Seq<CommanderPowerRule> {
        self.powers@
    }

    /// The power that is switched to at the start of a turn: the next power
    /// of the active one, or 0 if the active power is unknown.
    pub open spec fn spec_next_power(&self) -> usize {
        if self.spec_power() < self.spec_powers().len() {
            self.spec_powers()[self.spec_power() as int].next_power as usize
        } else {
            0
        }
    }

    /// Whether power `index` can be activated: it must exist and the charge
    /// must cover its cost; automatically only the next power, by choice
    /// only a power usable from the active one.
    pub open spec fn spec_can_activate_power(&self, index: usize, automatic: bool) -> bool {
        &&& index < self.spec_powers().len()
        &&& self.spec_powers()[index as int].required_charge <= self.spec_charge()
        &&& if automatic {
            index == self.spec_next_power()
        } else {
            self.spec_powers()[index as int].usable_from_power@.contains(self.spec_power() as u8)
        }
    }

    /// The charge that power `index` costs, or 0 if there is no such power.
    pub open spec fn spec_power_cost(&self, index: usize) -> u32 {
        if index < self.spec_powers().len() {
            self.spec_powers()[index as int].required_charge
        } else {
            0
        }
    }

    /// A commander of type `typ` without charge, with its first power active.
    pub fn new(typ: CommanderType, powers: Vec<CommanderPowerRule>) -> (r: Self)
        ensures
            r.spec_typ() == typ,
            r.spec_charge() == 0,
            r.spec_power() == 0,
            r.spec_powers() == powers@,
    {
        Commander { typ, charge: 0, power: 0, powers }
    }

    pub fn typ(&self) -> (r: CommanderType)
        ensures
            r == self.spec_typ(),
    {
        self.typ
    }

    pub fn get_charge(&self) -> (r: u32)
        ensures
            r == self.spec_charge(),
    {
        self.charge
    }

    /// Adds `delta` to the charge, read as an `i32`; the charge never drops
    /// below 0.
    pub fn add_charge(&mut self, delta: i32)
        requires
            i32::MIN <= (old(self).spec_charge() as i32) + delta <= i32::MAX,
        ensures
            final(self).spec_charge() == (if (old(self).spec_charge() as i32) + delta < 0 { 0 } else { (old(self).spec_charge() as i32) + delta }) as u32,
            final(self).spec_typ() == old(self).spec_typ(),
            final(self).spec_power() == old(self).spec_power(),
            final(self).spec_powers() == old(self).spec_powers(),
    {
        #[verifier::truncate]
        let c = self.charge as i32;
        let v = c + delta;
        self.charge = if v < 0 { 0 } else { v as u32 };
    }

    pub fn power_count(&self) -> (r: usize)
        ensures
            r == self.spec_powers().len(),
    {
        self.powers.len()
    }

    pub fn get_next_power(&self) -> (r: usize)
        ensures
            r == self.spec_next_power(),
    {
        if self.power < self.powers.len() {
            self.powers[self.power].next_power as usize
        } else {
            0
        }
    }

    pub fn get_active_power(&self) -> (r: usize)
        ensures
            r == self.spec_power(),
    {
        self.power
    }

    pub fn set_active_power(&mut self, index: usize)
        ensures
            final(self).spec_power() == index,
            final(self).spec_charge() == old(self).spec_charge(),
            final(self).spec_typ() == old(self).spec_typ(),
            final(self).spec_powers() == old(self).spec_powers(),
    {
        self.power = index;
    }

    pub fn can_activate_power(&self, index: usize, automatic: bool) -> (r: bool)
        ensures
            r == self.spec_can_activate_power(index, automatic),
    {
        if index >= self.powers.len() {
            return false;
        }
        let power = &self.powers[index];
        if power.required_charge > self.charge {
            return false;
        }
        if automatic {
            index == self.get_next_power()
        } else {
            #[verifier::truncate]
            let active = self.power as u8;
            let mut i: usize = 0;
            while i < power.usable_from_power.len()
                invariant
                    i <= power.usable_from_power@.len(),
                    forall|j: int| 0 <= j < i ==> power.usable_from_power@[j] != active,
                    active == self.spec_power() as u8,
                    index < self.spec_powers().len(),
                    *power == self.spec_powers()[index as int],
                    power.required_charge <= self.spec_charge(),
                    !automatic,
                decreases power.usable_from_power.len() - i,
            {
                if power.usable_from_power[i] == active {
                    assert(power.usable_from_power@[i as int] == active);
                    assert(power.usable_from_power@.contains(active));
                    return true;
                }
                i += 1;
            }
            false
        }
    }

    pub fn power_cost(&self, index: usize) -> (r: u32)
        ensures
            r == self.spec_power_cost(index),
    {
        if index < self.powers.len() {
            self.powers[index].required_charge
        } else {
            0
        }
    }
}

/// A power can only be activated when the charge covers its cost; and
/// automatically only the power that the active one leads to.
pub proof fn lemma_activation_needs_charge(c: Commander, index: usize, automatic: bool)
    requires
        c.spec_can_activate_power(index, automatic),
    ensures
        c.spec_power_cost(index) <= c.spec_charge(),
        automatic ==> index == c.spec_next_power(),
{
}

/// A power that exists, whose cost the charge covers (a charge equal to the
/// cost is enough), and that is the next power (automatically) or usable
/// from the active one (by choice), can be activated; and only such a power.
pub proof fn lemma_activation_when_charge_covers(c: Commander, index: usize, automatic: bool)
    ensures
        c.spec_can_activate_power(index, automatic) <==> {
            &&& index < c.spec_powers().len()
            &&& c.spec_powers()[index as int].required_charge <= c.spec_charge()
            &&& automatic ==> index == c.spec_next_power()
            &&& !automatic ==> c.spec_powers()[index as int].usable_from_power@.contains(c.spec_power() as u8)
        },
{
}

/// A commander whose charge is exactly the cost of a power it may switch
/// to can activate it; one with a smaller charge can't.
pub proof fn lemma_exact_charge_suffices(c: Commander, index: usize, automatic: bool)
    requires
        index < c.spec_powers().len(),
        automatic ==> index == c.spec_next_power(),
        !automatic ==> c.spec_powers()[index as int].usable_from_power@.contains(c.spec_power() as u8),
    ensures
        c.spec_powers()[index as int].required_charge == c.spec_charge() ==> c.spec_can_activate_power(index, automatic),
        c.spec_powers()[index as int].required_charge > c.spec_charge() ==> !c.spec_can_activate_power(index, automatic),
{
}

} // verus!
