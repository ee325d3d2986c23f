//! Role classification: a tag derived once from a unit's body composition,
//! cached by the caller, and consulted when deciding which policy branch a
//! unit follows. A role is not a task.

use vstd::prelude::*;

verus! {

/// A body segment of a unit.
#[derive(Clone, Copy, PartialEq, Eq, Structural, Debug)]
pub enum Part {
    Move,
    Work,
    Carry,
    Attack,
    RangedAttack,
    Tough,
    Heal,
    Claim,
}

/// The classification tag of a unit.
#[derive(Clone, Copy, PartialEq, Eq, Structural, Debug, Hash)]
pub enum Role {
    Harvester,
    Hauler,
    Claimer,
    Warrior,
    Healer,
    Builder,
    Free,
    Tank,
    General,
}

/// How many segments of this kind the body holds.
pub open spec fn count_part_seq(body: Seq<Part>, p: Part) -> nat
    decreases body.len(),
{
    if body.len() == 0 {
        0
    } else {
        count_part_seq(body.drop_last(), p) + if body.last() == p {
            1nat
        } else {
            0nat
        }
    }
}

/// How many units of the roster hold this role.
pub open spec fn count_role_seq(roles: Seq<Role>, r: Role) -> nat
    decreases roles.len(),
{
    if roles.len() == 0 {
        0
    } else {
        count_role_seq(roles.drop_last(), r) + if roles.last() == r {
            1nat
        } else {
            0nat
        }
    }
}

/// Counts the body segments of one kind.
pub fn count_part(body: &Vec<Part>, p: Part) -> (c: usize)
    ensures
        c == count_part_seq(body@, p),
{
    let n = body.len();
    let mut c: usize = 0;
    let mut i: usize = 0;
    while i < n
        invariant
            n == body@.len(),
            0 <= i <= n,
            c <= i,
            c == count_part_seq(body@.take(i as int), p),
        decreases n - i,
    {
        proof {
            assert(body@.take(i as int + 1).drop_last() =~= body@.take(i as int));
            assert(body@.take(i as int + 1).last() == body@[i as int]);
        }
        if body[i] == p {
            c += 1;
        }
        i += 1;
    }
    proof {
        assert(body@.take(n as int) =~= body@);
    }
    c
}

/// Counts the roster entries holding one role.
pub fn count_role(roles: &Vec<Role>, r: Role) -> (c: usize)
    ensures
        c == count_role_seq(roles@, r),
{
    let n = roles.len();
    let mut c: usize = 0;
    let mut i: usize = 0;
    while i < n
        invariant
            n == roles@.len(),
            0 <= i <= n,
            c <= i,
            c == count_role_seq(roles@.take(i as int), r),
        decreases n - i,
    {
        proof {
            assert(roles@.take(i as int + 1).drop_last() =~= roles@.take(i as int));
            assert(roles@.take(i as int + 1).last() == roles@[i as int]);
        }
        if roles[i] == r {
            c += 1;
        }
        i += 1;
    }
    proof {
        assert(roles@.take(n as int) =~= roles@);
    }
    c
}

/// The role a body composition implies: a body with a single movement
/// segment is a stationary harvester; a full fifteen-segment body is split
/// between hauling and building by a weighted draw; several work segments
/// make a builder; anything else hauls.
pub open spec fn spec_find_role(body: Seq<Part>, draw: u32) -> Option<Role> {
    if count_part_seq(body, Part::Move) == 1 {
        Some(Role::Harvester)
    } else if body.len() == 15 {
        if draw < 1 {
            Some(Role::Hauler)
        } else {
            Some(Role::Builder)
        }
    } else if count_part_seq(body, Part::Work) > 1 {
        Some(Role::Builder)
    } else {
        Some(Role::Hauler)
    }
}

/// The next role worth spawning, by fixed precedence over desired head
/// counts: two harvesters (only once the colony exceeds two units), five
/// haulers, one builder. Roles with a desired count of zero (warrior,
/// healer, tank, general, claimer, free) are never asked for.
pub open spec fn spec_find_role_to_spawn(roles: Seq<Role>, num_of_creeps: u32) -> Option<Role> {
    if count_role_seq(roles, Role::Harvester) < 2 && num_of_creeps > 2 {
        Some(Role::Harvester)
    } else if count_role_seq(roles, Role::Hauler) < 5 {
        Some(Role::Hauler)
    } else if count_role_seq(roles, Role::Builder) < 1 {
        Some(Role::Builder)
    } else {
        None
    }
}

impl Role {
    /// The display tag of the role, used to prefix spawned unit names.
    pub fn to_string(&self) -> (r: &'static str)
        ensures
            r@ == spec_role_name(*self),
    {
        match self {
            Role::Harvester => "HARVESTER",
            Role::Hauler => "HAULER",
            Role::Claimer => "CLAIMER",
            Role::Warrior => "WARRIOR",
            Role::Healer => "HEALER",
            Role::Builder => "BUILDER",
            Role::Free => "WILDLING",
            Role::Tank => "TANK",
            Role::General => "GENERAL",
        }
    }

    /// Classifies a unit by its body composition. `draw` is a random draw
    /// below five, injected by the caller for determinism.
    pub fn find_role(body: &Vec<Part>, draw: u32) -> (r: Option<Role>)
        requires
            draw < 5,
        ensures
            r == spec_find_role(body@, draw),
    {
        if count_part(body, Part::Move) == 1 {
            return Some(Role::Harvester);
        }
        if body.len() == 15 {
            if draw < 1 {
                return Some(Role::Hauler);
            } else {
                return Some(Role::Builder);
            }
        }
        if count_part(body, Part::Work) > 1 {
            return Some(Role::Builder);
        }
        Some(Role::Hauler)
    }

    /// Picks the next role to spawn from the live roster, or nothing when
    /// every desired head count is met.
    pub fn find_role_to_spawn(roles: &Vec<Role>, num_of_creeps: u32) -> (r: Option<Role>)
        ensures
            r == spec_find_role_to_spawn(roles@, num_of_creeps),
    {
        if count_role(roles, Role::Harvester) < 2 && num_of_creeps > 2 {
            return Some(Role::Harvester);
        }
        if count_role(roles, Role::Hauler) < 5 {
            return Some(Role::Hauler);
        }
        if count_role(roles, Role::Builder) < 1 {
            return Some(Role::Builder);
        }
        None
    }
}

/// The energy price of one body segment.
pub open spec fn spec_part_cost(p: Part) -> u32 {
    match p {
        Part::Move => 50,
        Part::Work => 100,
        Part::Carry => 50,
        Part::Attack => 80,
        Part::RangedAttack => 150,
        Part::Tough => 10,
        Part::Heal => 250,
        Part::Claim => 600,
    }
}

/// Total energy price of a body, as a mathematical sum.
pub open spec fn spec_body_cost(body: Seq<Part>) -> int
    decreases body.len(),
{
    if body.len() == 0 {
        0
    } else {
        spec_body_cost(body.drop_last()) + spec_part_cost(body.last())
    }
}

impl Part {
    /// The energy price of this segment.
    pub fn cost(&self) -> (c: u32)
        ensures
            c == spec_part_cost(*self),
    {
        match self {
            Part::Move => 50,
            Part::Work => 100,
            Part::Carry => 50,
            Part::Attack => 80,
            Part::RangedAttack => 150,
            Part::Tough => 10,
            Part::Heal => 250,
            Part::Claim => 600,
        }
    }
}

/// Sums the energy price of a body. The sum fits in sixty-four bits because
/// each segment costs at most six hundred.
pub fn body_cost(body: &Vec<Part>) -> (c: u64)
    requires
        body@.len() <= 0x1000_0000,
    ensures
        c == spec_body_cost(body@),
{
    let n = body.len();
    let mut c: u64 = 0;
    let mut i: usize = 0;
    while i < n
        invariant
            n == body@.len(),
            n <= 0x1000_0000,
            0 <= i <= n,
            c == spec_body_cost(body@.take(i as int)),
            c <= 600 * i,
        decreases n - i,
    {
        proof {
            assert(body@.take(i as int + 1).drop_last() =~= body@.take(i as int));
            assert(body@.take(i as int + 1).last() == body@[i as int]);
        }
        c = c + body[i].cost() as u64;
        i += 1;
    }
    proof {
        assert(body@.take(n as int) =~= body@);
    }
    c
}

/// The energy a spawn decision may plan with: the room's present energy, or
/// its full capacity once the colony is large enough to wait for it.
pub open spec fn spec_energy_to_use(energy_available: u32, capacity: u32, num_creeps: u32) -> u32 {
    if capacity > energy_available && num_creeps > 3 {
        capacity
    } else {
        energy_available
    }
}

/// A harvester body: two work segments and one move segment, then one more
/// work segment per hundred energy beyond the base price.
pub open spec fn spec_harvester_body(extra: nat) -> Seq<Part>
    decreases extra,
{
    if extra == 0 {
        seq![Part::Work, Part::Work, Part::Move]
    } else {
        spec_harvester_body((extra - 1) as nat).push(Part::Work)
    }
}

/// A hauler body: one carry and two move segments, repeated once per hundred
/// and fifty energy beyond the base price.
pub open spec fn spec_hauler_body(extra: nat) -> Seq<Part>
    decreases extra,
{
    if extra == 0 {
        seq![Part::Carry, Part::Move, Part::Move]
    } else {
        spec_hauler_body((extra - 1) as nat) + seq![Part::Carry, Part::Move, Part::Move]
    }
}

/// A builder body: carry, move and work, then one carry, work and move
/// group per two hundred energy beyond the base price.
pub open spec fn spec_builder_body(extra: nat) -> Seq<Part>
    decreases extra,
{
    if extra == 0 {
        seq![Part::Carry, Part::Move, Part::Work]
    } else {
        spec_builder_body((extra - 1) as nat) + seq![Part::Carry, Part::Work, Part::Move]
    }
}

/// A harvester body holds three base segments plus the extras.
pub proof fn lemma_harvester_body_len(extra: nat)
    ensures
        spec_harvester_body(extra).len() == 3 + extra,
    decreases extra,
{
    if extra > 0 {
        lemma_harvester_body_len((extra - 1) as nat);
    }
}

/// A hauler body holds one three-segment group per repeat, plus the base.
pub proof fn lemma_hauler_body_len(extra: nat)
    ensures
        spec_hauler_body(extra).len() == 3 * (extra + 1),
    decreases extra,
{
    if extra > 0 {
        lemma_hauler_body_len((extra - 1) as nat);
    }
}

/// A builder body holds one three-segment group per repeat, plus the base.
pub proof fn lemma_builder_body_len(extra: nat)
    ensures
        spec_builder_body(extra).len() == 3 * (extra + 1),
    decreases extra,
{
    if extra > 0 {
        lemma_builder_body_len((extra - 1) as nat);
    }
}

/// The body `Role::get_body` plans for this role and energy budget.
pub open spec fn spec_role_body(r: Role, energy_to_use: u32) -> Seq<Part> {
    match r {
        Role::Harvester => spec_harvester_body(((energy_to_use - 250) / 100) as nat),
        Role::Hauler => spec_hauler_body(((energy_to_use - 150) / 150) as nat),
        _ => spec_builder_body(((energy_to_use - 200) / 200) as nat),
    }
}

impl Role {
    /// Plans a body for spawning a unit of this role. Nothing is planned
    /// below the minimum energy of three hundred; beyond it, the body grows
    /// with the energy budget.
    pub fn get_body(&self, energy_available: u32, capacity: u32, num_creeps: u32) -> (r: Option<
        Vec<Part>,
    >)
        ensures
            energy_available < 300 ==> r is None,
            energy_available >= 300 ==> match r {
                Some(parts) => parts@ == spec_role_body(
                    *self,
                    spec_energy_to_use(energy_available, capacity, num_creeps),
                ),
                None => false,
            },
    {
        if energy_available < 300 {
            return None;
        }
        let mut energy_to_use = energy_available;
        if capacity > energy_available && num_creeps > 3 {
            energy_to_use = capacity;
        }
        match self {
            Role::Harvester => {
                let mut parts: Vec<Part> = Vec::new();
                parts.push(Part::Work);
                parts.push(Part::Work);
                parts.push(Part::Move);
                let missing_parts = (energy_to_use - 250) / 100;
                proof {
                    assert(parts@ =~= spec_harvester_body(0));
                }
                let mut k: u32 = 0;
                while k < missing_parts
                    invariant
                        0 <= k <= missing_parts,
                        parts@ == spec_harvester_body(k as nat),
                    decreases missing_parts - k,
                {
                    parts.push(Part::Work);
                    k += 1;
                }
                Some(parts)
            },
            Role::Hauler => {
                let mut parts: Vec<Part> = Vec::new();
                parts.push(Part::Carry);
                parts.push(Part::Move);
                parts.push(Part::Move);
                let missing_parts = (energy_to_use - 150) / 150;
                proof {
                    assert(parts@ =~= spec_hauler_body(0));
                }
                let mut k: u32 = 0;
                while k < missing_parts
                    invariant
                        0 <= k <= missing_parts,
                        parts@ == spec_hauler_body(k as nat),
                    decreases missing_parts - k,
                {
                    parts.push(Part::Carry);
                    parts.push(Part::Move);
                    parts.push(Part::Move);
                    proof {
                        assert(parts@ =~= spec_hauler_body(k as nat) + seq![
                            Part::Carry,
                            Part::Move,
                            Part::Move,
                        ]);
                    }
                    k += 1;
                }
                Some(parts)
            },
            _ => {
                let mut parts: Vec<Part> = Vec::new();
                parts.push(Part::Carry);
                parts.push(Part::Move);
                parts.push(Part::Work);
                let missing_parts = (energy_to_use - 200) / 200;
                proof {
                    assert(parts@ =~= spec_builder_body(0));
                }
                let mut k: u32 = 0;
                while k < missing_parts
                    invariant
                        0 <= k <= missing_parts,
                        parts@ == spec_builder_body(k as nat),
                    decreases missing_parts - k,
                {
                    parts.push(Part::Carry);
                    parts.push(Part::Work);
                    parts.push(Part::Move);
                    proof {
                        assert(parts@ =~= spec_builder_body(k as nat) + seq![
                            Part::Carry,
                            Part::Work,
                            Part::Move,
                        ]);
                    }
                    k += 1;
                }
                Some(parts)
            },
        }
    }
}

/// The tag `Role::to_string` yields.
pub open spec fn spec_role_name(r: Role) -> Seq<char> {
    match r {
        Role::Harvester => "HARVESTER"@,
        Role::Hauler => "HAULER"@,
        Role::Claimer => "CLAIMER"@,
        Role::Warrior => "WARRIOR"@,
        Role::Healer => "HEALER"@,
        Role::Builder => "BUILDER"@,
        Role::Free => "WILDLING"@,
        Role::Tank => "TANK"@,
        Role::General => "GENERAL"@,
    }
}

} // verus!
