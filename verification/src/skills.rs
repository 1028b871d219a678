//! Skill tree: nodes bought with skill points.

use vstd::prelude::*;

verus! {

/// The three branches of the tree.
#[derive(Debug, Clone, Copy, PartialEq, Eq, Structural)]
pub enum SkillBranch {
    Strength,
    Precision,
    Technique,
}

/// The skills that can be unlocked.
#[derive(Debug, Clone, Copy, PartialEq, Eq, Structural)]
pub enum SkillNode {
    StrongArm,
    DoubleThrow,
    Burst,
    EagleEye,
    TrajectoryVision,
    SlowAim,
    CalmWind,
    ControlledBounce,
    SpinMaster,
}

/// Branch of a node.
pub open spec fn spec_branch(node: SkillNode) -> SkillBranch {
    match node {
        SkillNode::StrongArm | SkillNode::DoubleThrow | SkillNode::Burst => SkillBranch::Strength,
        SkillNode::EagleEye | SkillNode::TrajectoryVision | SkillNode::SlowAim => SkillBranch::Precision,
        SkillNode::CalmWind | SkillNode::ControlledBounce | SkillNode::SpinMaster => SkillBranch::Technique,
    }
}

/// Price of a node in skill points.
pub open spec fn spec_cost(node: SkillNode) -> u32 {
    match node {
        SkillNode::StrongArm | SkillNode::EagleEye | SkillNode::CalmWind => 1,
        SkillNode::DoubleThrow | SkillNode::TrajectoryVision | SkillNode::ControlledBounce => 2,
        SkillNode::Burst | SkillNode::SlowAim | SkillNode::SpinMaster => 3,
    }
}

/// Display name of a node.
pub open spec fn spec_skill_name(node: SkillNode) -> Seq<char> {
    match node {
        SkillNode::StrongArm => "Braço Forte"@,
        SkillNode::DoubleThrow => "Arremesso Duplo"@,
        SkillNode::Burst => "Rajada"@,
        SkillNode::EagleEye => "Olho de Águia"@,
        SkillNode::TrajectoryVision => "Visão de Trajetória"@,
        SkillNode::SlowAim => "Mira Lenta"@,
        SkillNode::CalmWind => "Vento Calmo"@,
        SkillNode::ControlledBounce => "Ricochete Controlado"@,
        SkillNode::SpinMaster => "Spin Mestre"@,
    }
}

impl SkillNode {
    /// The branch the node belongs to.
    pub fn branch(self) -> (b: SkillBranch)
        ensures
            b == spec_branch(self),
    {
        match self {
            SkillNode::StrongArm | SkillNode::DoubleThrow | SkillNode::Burst => SkillBranch::Strength,
            SkillNode::EagleEye | SkillNode::TrajectoryVision | SkillNode::SlowAim => {
                SkillBranch::Precision
            },
            SkillNode::CalmWind | SkillNode::ControlledBounce | SkillNode::SpinMaster => {
                SkillBranch::Technique
            },
        }
    }

    /// Price in skill points (1 to 3, rising along each branch).
    pub fn cost(self) -> (c: u32)
        ensures
            c == spec_cost(self),
            1 <= c <= 3,
    {
        match self {
            SkillNode::StrongArm | SkillNode::EagleEye | SkillNode::CalmWind => 1,
            SkillNode::DoubleThrow | SkillNode::TrajectoryVision | SkillNode::ControlledBounce => 2,
            SkillNode::Burst | SkillNode::SlowAim | SkillNode::SpinMaster => 3,
        }
    }

    /// Name shown in menus.
    pub fn display_name(self) -> (name: &'static str)
        ensures
            name@ == spec_skill_name(self),
    {
        match self {
            SkillNode::StrongArm => "Braço Forte",
            SkillNode::DoubleThrow => "Arremesso Duplo",
            SkillNode::Burst => "Rajada",
            SkillNode::EagleEye => "Olho de Águia",
            SkillNode::TrajectoryVision => "Visão de Trajetória",
            SkillNode::SlowAim => "Mira Lenta",
            SkillNode::CalmWind => "Vento Calmo",
            SkillNode::ControlledBounce => "Ricochete Controlado",
            SkillNode::SpinMaster => "Spin Mestre",
        }
    }
}

/// Total price of a sequence of nodes.
pub open spec fn total_cost(nodes: Seq<SkillNode>) -> nat
    decreases nodes.len(),
{
    if nodes.len() == 0 {
        0
    } else {
        total_cost(nodes.drop_last()) + spec_cost(nodes.last()) as nat
    }
}

/// The nodes a player has bought, in the order bought.
#[derive(Debug, Clone)]
pub struct SkillTree {
    pub unlocked: Vec<SkillNode>,
}

impl Default for SkillTree {
    fn default() -> (t: Self)
        ensures
            t.unlocked@ == Seq::<SkillNode>::empty(),
    {
        SkillTree { unlocked: Vec::new() }
    }
}

/// No node occurs twice.
pub open spec fn no_duplicate_nodes(nodes: Seq<SkillNode>) -> bool {
    forall|i: int, j: int| 0 <= i < j < nodes.len() ==> nodes[i] != nodes[j]
}

fn contains_node(nodes: &Vec<SkillNode>, node: SkillNode) -> (b: bool)
    ensures
        b == nodes@.contains(node),
{
    let mut i: usize = 0;
    while i < nodes.len()
        invariant
            i <= nodes@.len(),
            forall|j: int| 0 <= j < i ==> nodes@[j] != node,
        decreases nodes.len() - i,
    {
        if nodes[i] == node {
            return true;
        }
        i = i + 1;
    }
    false
}

impl SkillTree {
    /// Buys `node` with `points`: refused (false, nothing changed) if the node is
    /// already owned or the points do not cover its cost; otherwise the cost is
    /// taken from `points` and the node is appended.
    pub fn unlock(&mut self, node: SkillNode, points: &mut u32) -> (ok: bool)
        ensures
            ok == (!old(self).unlocked@.contains(node) && spec_cost(node) <= *old(points)),
            ok ==> final(self).unlocked@ == old(self).unlocked@.push(node)
                && *final(points) == *old(points) - spec_cost(node),
            !ok ==> final(self).unlocked@ == old(self).unlocked@ && *final(points) == *old(points),
            *final(points) + total_cost(final(self).unlocked@) == *old(points) + total_cost(
                old(self).unlocked@,
            ),
            no_duplicate_nodes(old(self).unlocked@) ==> no_duplicate_nodes(final(self).unlocked@),
    {
        if contains_node(&self.unlocked, node) {
            return false;
        }
        let cost = node.cost();
        if *points < cost {
            return false;
        }
        let ghost before = self.unlocked@;
        *points = *points - cost;
        self.unlocked.push(node);
        proof {
            assert(self.unlocked@.drop_last() =~= before);
            if no_duplicate_nodes(before) {
                lemma_unlock_keeps_distinct(before, node);
            }
        }
        true
    }

    /// Whether `node` has been bought.
    pub fn has(&self, node: SkillNode) -> (b: bool)
        ensures
            b == self.unlocked@.contains(node),
    {
        contains_node(&self.unlocked, node)
    }

    /// Whether the trajectory preview is shown (the Trajectory Vision skill).
    pub fn trajectory_preview(&self) -> (b: bool)
        ensures
            b == self.unlocked@.contains(SkillNode::TrajectoryVision),
    {
        self.has(SkillNode::TrajectoryVision)
    }
}

/// Buying a node keeps the unlocked list free of duplicates.
pub proof fn lemma_unlock_keeps_distinct(before: Seq<SkillNode>, node: SkillNode)
    requires
        no_duplicate_nodes(before),
        !before.contains(node),
    ensures
        no_duplicate_nodes(before.push(node)),
{
    assert forall|i: int, j: int| 0 <= i < j < before.push(node).len() implies before.push(
        node,
    )[i] != before.push(node)[j] by {
        if j == before.len() {
            assert(before[i] == before.push(node)[i]);
        }
    }
}

} // verus!
