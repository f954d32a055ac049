//! Entity categories, derived once from an entity's label.

use vstd::prelude::*;
use vstd::string::StrSliceExecFns;

verus! {

/// What an entity is, which decides how it scrolls and what touching it does.
#[derive(Clone, Copy, Debug, PartialEq, Eq, Structural)]
pub enum Category {
    /// The player's vehicle, labelled exactly `player1`.
    Player,
    /// Road markings (`roadline...`): background that wraps.
    Roadline,
    /// Landscape tiles (`savannah...`): background that wraps.
    Savannah,
    /// Static obstacles (`obstacle...`): they damage but do not scroll.
    Obstacle,
    /// Animals (`animal_obstacle...`).
    AnimalObstacle,
    /// Houses (`house_obstacle...`).
    HouseObstacle,
    /// Plants (`plant_obstacle...`).
    PlantObstacle,
    /// Children to pick up (`children...`): touching one scores.
    Children,
    /// Anything else (buttons, slides, text).
    Scenery,
}

pub open spec fn has_prefix(s: Seq<char>, p: Seq<char>) -> bool {
    p.len() <= s.len() && s.subrange(0, p.len() as int) == p
}

/// The category that a label names: the player by its exact label, the others
/// by the prefix of their label.
#[verifier::opaque]
pub open spec fn category_of(label: Seq<char>) -> Category {
    if label == "player1"@ {
        Category::Player
    } else if has_prefix(label, "roadline"@) {
        Category::Roadline
    } else if has_prefix(label, "savannah"@) {
        Category::Savannah
    } else if has_prefix(label, "obstacle"@) {
        Category::Obstacle
    } else if has_prefix(label, "animal_obstacle"@) {
        Category::AnimalObstacle
    } else if has_prefix(label, "house_obstacle"@) {
        Category::HouseObstacle
    } else if has_prefix(label, "plant_obstacle"@) {
        Category::PlantObstacle
    } else if has_prefix(label, "children"@) {
        Category::Children
    } else {
        Category::Scenery
    }
}

fn starts_with(s: &str, p: &str) -> (r: bool)
    ensures
        r == has_prefix(s@, p@),
{
    let n = p.unicode_len();
    if n > s.unicode_len() {
        return false;
    }
    let mut i: usize = 0;
    while i < n
        invariant
            n == p@.len(),
            p@.len() <= s@.len(),
            i <= n,
            forall|k: int| 0 <= k < i ==> s@[k] == p@[k],
        decreases n - i,
    {
        if s.get_char(i) != p.get_char(i) {
            assert(s@.subrange(0, n as int)[i as int] != p@[i as int]);
            return false;
        }
        i = i + 1;
    }
    assert(s@.subrange(0, n as int) =~= p@);
    true
}

fn same_text(s: &str, p: &str) -> (r: bool)
    ensures
        r == (s@ == p@),
{
    if s.unicode_len() != p.unicode_len() {
        return false;
    }
    let r = starts_with(s, p);
    assert(s@ =~= s@.subrange(0, p@.len() as int));
    r
}

impl Category {
    /// The category named by an entity's label.
    pub fn of_label(label: &str) -> (r: Category)
        ensures
            r == category_of(label@),
    {
        proof {
            reveal(category_of);
        }
        if same_text(label, "player1") {
            Category::Player
        } else if starts_with(label, "roadline") {
            Category::Roadline
        } else if starts_with(label, "savannah") {
            Category::Savannah
        } else if starts_with(label, "obstacle") {
            Category::Obstacle
        } else if starts_with(label, "animal_obstacle") {
            Category::AnimalObstacle
        } else if starts_with(label, "house_obstacle") {
            Category::HouseObstacle
        } else if starts_with(label, "plant_obstacle") {
            Category::PlantObstacle
        } else if starts_with(label, "children") {
            Category::Children
        } else {
            Category::Scenery
        }
    }

    /// Whether entities of this category scroll leftwards every frame.
    pub open spec fn spec_scrolls(self) -> bool {
        match self {
            Category::Roadline | Category::Savannah | Category::AnimalObstacle
            | Category::HouseObstacle | Category::PlantObstacle | Category::Children => true,
            _ => false,
        }
    }

    /// Whether entities of this category wrap (rather than respawn) when recycled.
    pub open spec fn spec_wraps(self) -> bool {
        self == Category::Roadline || self == Category::Savannah
    }
}

} // verus!
