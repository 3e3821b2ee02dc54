use vstd::prelude::*;

verus! {

/// A player's hearts, out of a maximum.
#[derive(Clone, Copy, Debug, PartialEq, Eq, Structural)]
pub struct Health {
    pub hearts: u32,
    pub max: u32,
}

/// Which heart images of the interface to show and which to hide, by their
/// number counted from one.
#[derive(Clone, Debug)]
pub struct VisibilityUpdate {
    pub visible: Vec<u32>,
    pub hidden: Vec<u32>,
}

/// The numbers `lo + 1 ..= hi`, in order.
pub open spec fn numbered(lo: int, hi: int) -> Seq<u32> {
    Seq::new(if hi > lo { (hi - lo) as nat } else { 0 }, |i: int| (lo + i + 1) as u32)
}

fn numbers(lo: u32, hi: u32) -> (r: Vec<u32>)
    ensures
        r@ == numbered(lo as int, hi as int),
{
    let mut r: Vec<u32> = Vec::new();
    let mut i: u32 = lo;
    while i < hi
        invariant
            lo <= i,
            lo >= hi ==> i == lo,
            lo < hi ==> i <= hi,
            r@ == numbered(lo as int, i as int),
        decreases hi - i,
    {
        r.push(i + 1);
        assert(r@ =~= numbered(lo as int, i + 1));
        i += 1;
    }
    assert(r@ =~= numbered(lo as int, hi as int));
    r
}

impl Health {
    /// The whole interface: the present hearts shown, the missing ones hidden.
    pub fn build_interface(&self) -> (r: VisibilityUpdate)
        ensures
            r.visible@ == numbered(0, self.hearts as int),
            r.hidden@ == numbered(self.hearts as int, self.max as int),
    {
        VisibilityUpdate { visible: numbers(0, self.hearts), hidden: numbers(self.hearts, self.max) }
    }

    /// Loses `damage` hearts, down to none, and hides the hearts lost.
    pub fn take_damage(&mut self, damage: u32) -> (r: VisibilityUpdate)
        ensures
            final(self).max == old(self).max,
            final(self).hearts == if damage >= old(self).hearts { 0 } else { old(self).hearts - damage },
            r.visible@ == Seq::<u32>::empty(),
            r.hidden@ == numbered(final(self).hearts as int, old(self).hearts as int),
    {
        let old_hearts = self.hearts;
        self.hearts = if damage >= self.hearts { 0 } else { self.hearts - damage };
        VisibilityUpdate { visible: Vec::new(), hidden: numbers(self.hearts, old_hearts) }
    }

    /// Gains `healing` hearts, up to the maximum, and shows the hearts gained.
    pub fn heal(&mut self, healing: u32) -> (r: VisibilityUpdate)
        ensures
            final(self).max == old(self).max,
            final(self).hearts == if old(self).hearts + healing >= old(self).max {
                old(self).max as int
            } else {
                old(self).hearts + healing
            },
            r.visible@ == numbered(old(self).hearts as int, final(self).hearts as int),
            r.hidden@ == Seq::<u32>::empty(),
    {
        let old_hearts = self.hearts;
        let sum: u32 = if self.hearts > u32::MAX - healing { u32::MAX } else { self.hearts + healing };
        self.hearts = if sum >= self.max { self.max } else { sum };
        VisibilityUpdate { visible: numbers(old_hearts, self.hearts), hidden: Vec::new() }
    }

    pub fn is_dead(&self) -> (r: bool)
        ensures
            r == (self.hearts == 0),
    {
        self.hearts == 0
    }
}

impl Default for Health {
    /// Twenty of twenty hearts.
    fn default() -> (r: Health)
        ensures
            r.hearts == 20 && r.max == 20,
    {
        Health { hearts: 20, max: 20 }
    }
}

/// Damage a fall has built up, in hearts.
#[derive(Clone, Copy, Debug, PartialEq, Eq, Structural)]
pub struct FallDamage(pub u32);

/// Fall speed (in blocks per second, rounded down) that a fall may reach
/// without harm.
pub const SAFE_FALL_SPEED: u32 = 20;

/// The damage built up while falling at vertical velocity `vy` (micro-blocks
/// per second, negative downwards): whole blocks per second above the safe
/// speed.
pub open spec fn fall_damage_at(vy: int) -> int {
    let speed = (-vy) / 1_000_000;
    let speed = if speed > u32::MAX { u32::MAX as int } else { speed };
    if speed > SAFE_FALL_SPEED {
        speed - SAFE_FALL_SPEED
    } else {
        0
    }
}

impl FallDamage {
    /// Takes one report of the player's vertical velocity. Once a fall has
    /// built up damage and the player has (nearly) stopped falling, returns
    /// that damage and starts over; while falling, records the damage the
    /// current speed would cause.
    pub fn update(&mut self, velocity_y: i64) -> (r: Option<u32>)
        ensures
            old(self).0 != 0 && velocity_y > -100_000 ==> r == Some(old(self).0) && final(self).0 == 0,
            !(old(self).0 != 0 && velocity_y > -100_000) ==> r is None,
            !(old(self).0 != 0 && velocity_y > -100_000) && velocity_y < 0 ==> final(self).0 == fall_damage_at(velocity_y as int),
            !(old(self).0 != 0 && velocity_y > -100_000) && velocity_y >= 0 ==> final(self).0 == old(self).0,
    {
        if self.0 != 0 && velocity_y > -100_000 {
            let damage = self.0;
            self.0 = 0;
            Some(damage)
        } else {
            if velocity_y < 0 {
                let speed_wide: i128 = -(velocity_y as i128) / 1_000_000;
                let speed: u32 = if speed_wide > u32::MAX as i128 { u32::MAX } else { speed_wide as u32 };
                self.0 = if speed > SAFE_FALL_SPEED { speed - SAFE_FALL_SPEED } else { 0 };
            }
            None
        }
    }
}

/// The components that give a player health.
#[derive(Clone, Copy, Debug, PartialEq, Eq, Structural)]
pub struct HealthBundle {
    pub health: Health,
    pub fall_damage: FallDamage,
}

impl HealthBundle {
    pub fn from_health(health: Health) -> (r: HealthBundle)
        ensures
            r.health == health,
            r.fall_damage == FallDamage(0),
    {
        HealthBundle { health, fall_damage: FallDamage(0) }
    }
}

/// A request to take hearts from a player.
#[derive(Clone, Copy, Debug, PartialEq, Eq, Structural)]
pub struct DamageEvent {
    pub player_entity: u64,
    pub damage: u32,
}

/// A request to give hearts to a player.
#[derive(Clone, Copy, Debug, PartialEq, Eq, Structural)]
pub struct HealEvent {
    pub player_entity: u64,
    pub healing: u32,
}

} // verus!
