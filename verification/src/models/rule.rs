//! The rule tree: OR of AND-groups (DNF), plus the role link's chosen
//! game mode for per-mode condition targets.
//!
//! Convention 42: an unconfigured role link grants the role to nobody.
//! `grant_on_any_player = false` and no groups means "match nobody".

use crate::models::condition::Condition;
use crate::models::mode::Mode;
use vstd::prelude::*;

verus! {

/// Maximum top-level groups. Fits a tiered hierarchy ("Top 100" OR
/// "Top 1k AND 10k plays" OR ...) without nesting.
pub const MAX_GROUPS: usize = 8;

/// Maximum conditions per group. Real-world rules rarely exceed 3-4.
pub const MAX_CONDITIONS_PER_GROUP: usize = 12;

#[derive(Debug, PartialEq)]
pub struct RuleTree {
    pub grant_on_any_player: bool,
    /// Game mode every per-mode condition target evaluates against.
    /// Mode-independent targets (supporter, country, badges, ...) ignore it.
    pub default_mode: Mode,
    pub groups: Vec<ConditionGroup>,
}

#[derive(Debug, PartialEq)]
pub struct ConditionGroup {
    pub conditions: Vec<Condition>,
}

impl Default for RuleTree {
    fn default() -> (r: Self)
        ensures
            !r.grant_on_any_player,
            r.default_mode == Mode::Osu,
            r.groups@.len() == 0,
    {
        RuleTree { grant_on_any_player: false, default_mode: Mode::Osu, groups: Vec::new() }
    }
}

impl Default for ConditionGroup {
    fn default() -> (r: Self)
        ensures
            r.conditions@.len() == 0,
    {
        ConditionGroup { conditions: Vec::new() }
    }
}

impl ConditionGroup {
    /// The shape of a group that has been validated.
    pub open spec fn well_formed(self) -> bool {
        &&& 1 <= self.conditions@.len() <= MAX_CONDITIONS_PER_GROUP
        &&& forall|i: int|
            0 <= i < self.conditions@.len() ==> (#[trigger] self.conditions@[i]).well_formed()
    }
}

impl RuleTree {
    /// True for a rule that names nobody: no blanket grant and no group.
    pub open spec fn unconfigured(self) -> bool {
        !self.grant_on_any_player && self.groups@.len() == 0
    }

    /// True when every condition is well-formed, however many there are.
    pub open spec fn conditions_well_formed(self) -> bool {
        forall|g: int, k: int|
            0 <= g < self.groups@.len() && 0 <= k < self.groups@[g].conditions@.len() ==> (
            #[trigger] self.groups@[g].conditions@[k]).well_formed()
    }

    /// The shape of a rule that has been validated: it either grants to any
    /// player and holds no groups, or holds from one to [`MAX_GROUPS`] groups of
    /// one to [`MAX_CONDITIONS_PER_GROUP`] well-formed conditions.
    pub open spec fn well_formed(self) -> bool {
        if self.grant_on_any_player {
            self.groups@.len() == 0
        } else {
            &&& 1 <= self.groups@.len() <= MAX_GROUPS
            &&& forall|i: int|
                0 <= i < self.groups@.len() ==> (#[trigger] self.groups@[i]).well_formed()
        }
    }
}

/// The conditions of a well-formed rule are well-formed.
pub proof fn lemma_conditions_well_formed(tree: RuleTree)
    requires
        tree.well_formed(),
    ensures
        tree.conditions_well_formed(),
{
    assert forall|g: int, k: int|
        0 <= g < tree.groups@.len() && 0 <= k < tree.groups@[g].conditions@.len() implies (
    #[trigger] tree.groups@[g].conditions@[k]).well_formed() by {
        assert(tree.groups@[g].well_formed());
    }
}

} // verus!
