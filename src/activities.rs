use vstd::prelude::*;

verus! {

/// The kind of an activity; it names the classification tag a post receives.
#[derive(Clone, Copy, Debug, PartialEq, Eq, Structural)]
pub enum ActivityCategory {
    Raid,
    Dungeon,
    ExoticMission,
    Vanguard,
    Pvp,
}

/// The display name of a category.
pub open spec fn category_label(c: ActivityCategory) -> Seq<char> {
    match c {
        ActivityCategory::Raid => "Raid"@,
        ActivityCategory::Dungeon => "Dungeon"@,
        ActivityCategory::ExoticMission => "Exotic Mission"@,
        ActivityCategory::Vanguard => "Vanguard"@,
        ActivityCategory::Pvp => "PvP"@,
    }
}

impl ActivityCategory {
    /// The display name of the category.
    pub fn label(&self) -> (r: &'static str)
        ensures
            r@ == category_label(*self),
    {
        match self {
            ActivityCategory::Raid => "Raid",
            ActivityCategory::Dungeon => "Dungeon",
            ActivityCategory::ExoticMission => "Exotic Mission",
            ActivityCategory::Vanguard => "Vanguard",
            ActivityCategory::Pvp => "PvP",
        }
    }
}

/// A known activity: its name, its category and the usual fireteam size.
#[derive(Clone, Copy, Debug)]
pub struct Activity {
    pub name: &'static str,
    pub category: ActivityCategory,
    pub fireteam_size: i16,
}

impl Activity {
    pub fn new(name: &'static str, category: ActivityCategory, fireteam_size: i16) -> (r: Self)
        ensures
            r.name == name,
            r.category == category,
            r.fireteam_size == fireteam_size,
    {
        Activity { name, category, fireteam_size }
    }
}

/// An activity as a value: name, category and fireteam size.
pub type ActivityEntry = (Seq<char>, ActivityCategory, i16);

/// The value of an activity.
pub open spec fn entry_of(a: Activity) -> ActivityEntry {
    (a.name@, a.category, a.fireteam_size)
}

/// The catalogue of known activities, in order.
pub open spec fn activity_table() -> Seq<ActivityEntry> {
    seq![
        ("Salvation's Edge"@, ActivityCategory::Raid, 6i16),
        ("Crota's End"@, ActivityCategory::Raid, 6i16),
        ("Root of Nightmares"@, ActivityCategory::Raid, 6i16),
        ("King's Fall"@, ActivityCategory::Raid, 6i16),
        ("Vow of the Disciple"@, ActivityCategory::Raid, 6i16),
        ("Vault of Glass"@, ActivityCategory::Raid, 6i16),
        ("Deep Stone Crypt"@, ActivityCategory::Raid, 6i16),
        ("Garden of Salvation"@, ActivityCategory::Raid, 6i16),
        ("Last Wish"@, ActivityCategory::Raid, 6i16),
        ("Wrath of the Machine"@, ActivityCategory::Raid, 6i16),
        ("Any Raid"@, ActivityCategory::Raid, 6i16),
        ("Sundered Doctrine"@, ActivityCategory::Dungeon, 3i16),
        ("Vesper's Host"@, ActivityCategory::Dungeon, 3i16),
        ("Warlord's Ruin"@, ActivityCategory::Dungeon, 3i16),
        ("Ghosts of the Deep"@, ActivityCategory::Dungeon, 3i16),
        ("Spire of the Watcher"@, ActivityCategory::Dungeon, 3i16),
        ("Duality"@, ActivityCategory::Dungeon, 3i16),
        ("Grasp of Avarice"@, ActivityCategory::Dungeon, 3i16),
        ("Prophecy"@, ActivityCategory::Dungeon, 3i16),
        ("Pit of Heresy"@, ActivityCategory::Dungeon, 3i16),
        ("Shattered Throne"@, ActivityCategory::Dungeon, 3i16),
        ("Any Dungeon"@, ActivityCategory::Dungeon, 3i16),
        ("Kell's Fall"@, ActivityCategory::ExoticMission, 3i16),
        ("Duel Destiny"@, ActivityCategory::ExoticMission, 2i16),
        ("The Whisper"@, ActivityCategory::ExoticMission, 3i16),
        ("Zero Hour"@, ActivityCategory::ExoticMission, 3i16),
        ("Harbinger"@, ActivityCategory::ExoticMission, 3i16),
        ("Presage"@, ActivityCategory::ExoticMission, 3i16),
        ("Vox Obscura"@, ActivityCategory::ExoticMission, 3i16),
        ("Operation: Seraph's Shield"@, ActivityCategory::ExoticMission, 3i16),
        ("Node.Ovrd.Avalon"@, ActivityCategory::ExoticMission, 3i16),
        ("Starcrossed"@, ActivityCategory::ExoticMission, 3i16),
        ("Vanguard Ops"@, ActivityCategory::Vanguard, 3i16),
        ("Nightfall"@, ActivityCategory::Vanguard, 3i16),
        ("Grandmaster"@, ActivityCategory::Vanguard, 3i16),
        ("Onslaught"@, ActivityCategory::Vanguard, 3i16),
        ("Crucible"@, ActivityCategory::Pvp, 6i16),
        ("Competitive"@, ActivityCategory::Pvp, 6i16),
        ("Iron Banner"@, ActivityCategory::Pvp, 6i16),
        ("Trials of Osiris"@, ActivityCategory::Pvp, 3i16),
    ]
}

/// The catalogue of known activities.
#[verifier::rlimit(50)]
pub fn activities() -> (r: Vec<Activity>)
    ensures
        r@.map_values(|a: Activity| entry_of(a)) == activity_table(),
{
    let mut r: Vec<Activity> = Vec::new();
    r.push(Activity::new("Salvation's Edge", ActivityCategory::Raid, 6));
    r.push(Activity::new("Crota's End", ActivityCategory::Raid, 6));
    r.push(Activity::new("Root of Nightmares", ActivityCategory::Raid, 6));
    r.push(Activity::new("King's Fall", ActivityCategory::Raid, 6));
    r.push(Activity::new("Vow of the Disciple", ActivityCategory::Raid, 6));
    r.push(Activity::new("Vault of Glass", ActivityCategory::Raid, 6));
    r.push(Activity::new("Deep Stone Crypt", ActivityCategory::Raid, 6));
    r.push(Activity::new("Garden of Salvation", ActivityCategory::Raid, 6));
    r.push(Activity::new("Last Wish", ActivityCategory::Raid, 6));
    r.push(Activity::new("Wrath of the Machine", ActivityCategory::Raid, 6));
    r.push(Activity::new("Any Raid", ActivityCategory::Raid, 6));
    r.push(Activity::new("Sundered Doctrine", ActivityCategory::Dungeon, 3));
    r.push(Activity::new("Vesper's Host", ActivityCategory::Dungeon, 3));
    r.push(Activity::new("Warlord's Ruin", ActivityCategory::Dungeon, 3));
    r.push(Activity::new("Ghosts of the Deep", ActivityCategory::Dungeon, 3));
    r.push(Activity::new("Spire of the Watcher", ActivityCategory::Dungeon, 3));
    r.push(Activity::new("Duality", ActivityCategory::Dungeon, 3));
    r.push(Activity::new("Grasp of Avarice", ActivityCategory::Dungeon, 3));
    r.push(Activity::new("Prophecy", ActivityCategory::Dungeon, 3));
    r.push(Activity::new("Pit of Heresy", ActivityCategory::Dungeon, 3));
    r.push(Activity::new("Shattered Throne", ActivityCategory::Dungeon, 3));
    r.push(Activity::new("Any Dungeon", ActivityCategory::Dungeon, 3));
    r.push(Activity::new("Kell's Fall", ActivityCategory::ExoticMission, 3));
    r.push(Activity::new("Duel Destiny", ActivityCategory::ExoticMission, 2));
    r.push(Activity::new("The Whisper", ActivityCategory::ExoticMission, 3));
    r.push(Activity::new("Zero Hour", ActivityCategory::ExoticMission, 3));
    r.push(Activity::new("Harbinger", ActivityCategory::ExoticMission, 3));
    r.push(Activity::new("Presage", ActivityCategory::ExoticMission, 3));
    r.push(Activity::new("Vox Obscura", ActivityCategory::ExoticMission, 3));
    r.push(Activity::new("Operation: Seraph's Shield", ActivityCategory::ExoticMission, 3));
    r.push(Activity::new("Node.Ovrd.Avalon", ActivityCategory::ExoticMission, 3));
    r.push(Activity::new("Starcrossed", ActivityCategory::ExoticMission, 3));
    r.push(Activity::new("Vanguard Ops", ActivityCategory::Vanguard, 3));
    r.push(Activity::new("Nightfall", ActivityCategory::Vanguard, 3));
    r.push(Activity::new("Grandmaster", ActivityCategory::Vanguard, 3));
    r.push(Activity::new("Onslaught", ActivityCategory::Vanguard, 3));
    r.push(Activity::new("Crucible", ActivityCategory::Pvp, 6));
    r.push(Activity::new("Competitive", ActivityCategory::Pvp, 6));
    r.push(Activity::new("Iron Banner", ActivityCategory::Pvp, 6));
    r.push(Activity::new("Trials of Osiris", ActivityCategory::Pvp, 3));
    assert(r@.map_values(|a: Activity| entry_of(a)) =~= activity_table());
    r
}

} // verus!
