//! The state that all tasks share, and the changes that tasks make to it.
use vstd::prelude::*;

verus! {

/// Hit points that the soup and the player each start a round with.
pub const MAX_HP: u32 = 100;

/// How long the player must hold the force inside the zone (in ms) before the
/// soup takes damage and the zone jumps to a new position.
pub const SWEET_SPOT_HOLD_MS: u32 = 1500;

/// Half-width of the sweet spot zone, in raw load-cell counts.
pub const SWEET_SPOT_TOLERANCE: i32 = 100_000;

/// Lowest centre that a sweet spot can have, in raw load-cell counts.
pub const SWEET_SPOT_MIN_CENTER: i32 = 100_000;

/// Every centre of a sweet spot lies below this count.
pub const SWEET_SPOT_MAX_CENTER: i32 = 700_000;

/// Damage dealt to the soup each time a hold completes.
pub const SOUP_DAMAGE: u32 = 10;

/// Visual mood of the soup.
#[derive(Clone, Copy, Debug, PartialEq, Eq, Structural)]
pub enum SoupStatus {
    Angry,
    Sad,
    Neutral,
}

/// Top-level state shared between all tasks.
#[derive(Clone, Copy, Debug, PartialEq, Eq, Structural)]
pub enum AppState {
    Start,
    Rules,
    Game {
        soup_hp: u32,
        player_hp: u32,
        soup_status: SoupStatus,
        /// Lower bound of the current sweet spot zone (load-cell reading).
        sweet_spot_min: i32,
        /// Upper bound of the current sweet spot zone (load-cell reading).
        sweet_spot_max: i32,
        /// How long the player has held the force inside the zone, in ms.
        /// Reset to 0 when the zone moves or the player leaves the zone.
        sweet_spot_progress: u32,
        /// Latest load-cell reading (post-tare).
        loadcell_reading: i32,
    },
    EndScreen { player_won: bool },
}

/// The bounds are those of a sweet spot around some allowed centre.
pub open spec fn is_zone(min: int, max: int) -> bool {
    &&& SWEET_SPOT_MIN_CENTER - SWEET_SPOT_TOLERANCE <= min
    &&& min < SWEET_SPOT_MAX_CENTER - SWEET_SPOT_TOLERANCE
    &&& max == min + 2 * SWEET_SPOT_TOLERANCE
}

impl AppState {
    /// What holds of the shared state at every moment: hit points never exceed
    /// the starting amount, a hold that is complete is never on show, and the
    /// zone is either a sweet spot or not chosen yet.
    pub open spec fn valid(self) -> bool {
        self matches AppState::Game {
            soup_hp,
            player_hp,
            sweet_spot_min,
            sweet_spot_max,
            sweet_spot_progress,
            ..
        } ==> {
            &&& soup_hp <= MAX_HP
            &&& player_hp <= MAX_HP
            &&& sweet_spot_progress < SWEET_SPOT_HOLD_MS
            &&& (sweet_spot_min == 0 && sweet_spot_max == 0) || is_zone(
                sweet_spot_min as int,
                sweet_spot_max as int,
            )
        }
    }

    /// The state that a round starts with.
    pub open spec fn fresh_game() -> AppState {
        AppState::Game {
            soup_hp: MAX_HP,
            player_hp: MAX_HP,
            soup_status: SoupStatus::Neutral,
            sweet_spot_min: 0,
            sweet_spot_max: 0,
            sweet_spot_progress: 0,
            loadcell_reading: 0,
        }
    }

    /// The soup's hit points, on the game screen.
    pub open spec fn soup_hp(self) -> Option<u32> {
        match self {
            AppState::Game { soup_hp, .. } => Some(soup_hp),
            _ => None,
        }
    }

    /// The player's hit points, on the game screen.
    pub open spec fn player_hp(self) -> Option<u32> {
        match self {
            AppState::Game { player_hp, .. } => Some(player_hp),
            _ => None,
        }
    }

    /// The state that a round starts with: full hit points, a neutral soup and
    /// no sweet spot yet.
    pub fn new_game() -> (state: AppState)
        ensures
            state == AppState::fresh_game(),
    {
        AppState::Game {
            soup_hp: MAX_HP,
            player_hp: MAX_HP,
            soup_status: SoupStatus::Neutral,
            sweet_spot_min: 0,
            sweet_spot_max: 0,
            sweet_spot_progress: 0,
            loadcell_reading: 0,
        }
    }

    /// Whether a round is being played.
    pub fn is_game(&self) -> (yes: bool)
        ensures
            yes == (*self is Game),
    {
        matches!(self, AppState::Game { .. })
    }

    /// Whether the end screen is shown.
    pub fn is_end_screen(&self) -> (yes: bool)
        ensures
            yes == (*self is EndScreen),
    {
        matches!(self, AppState::EndScreen { .. })
    }

    /// Whether a round is being played in which the player has no hit points left.
    pub fn is_player_defeated(&self) -> (yes: bool)
        ensures
            yes == (self.player_hp() == Some(0u32)),
    {
        matches!(self, AppState::Game { player_hp: 0, .. })
    }

    /// Whether a round is being played in which the soup has no hit points left.
    pub fn is_soup_defeated(&self) -> (yes: bool)
        ensures
            yes == (self.soup_hp() == Some(0u32)),
    {
        matches!(self, AppState::Game { soup_hp: 0, .. })
    }
}

/// A change that a task makes to a running game. On any other screen it does
/// nothing.
#[derive(Clone, Copy, Debug, PartialEq, Eq, Structural)]
pub enum Change {
    /// The player loses hit points and the soup looks angry.
    DamagePlayer { damage: u32 },
    /// The first sweet spot of a round appears.
    ShowZone { min: i32, max: i32 },
    /// The latest reading and hold time appear.
    ShowReading { min: i32, max: i32, progress: u32, reading: i32 },
    /// A hold completed: the soup loses hit points and looks sad, and the next
    /// sweet spot appears.
    DamageSoup { min: i32, max: i32, reading: i32 },
}

/// `hp` less `damage`, and never below zero.
pub open spec fn hp_after(hp: u32, damage: u32) -> u32 {
    if damage <= hp {
        (hp - damage) as u32
    } else {
        0
    }
}

impl Change {
    /// The change keeps the shared state valid.
    pub open spec fn valid(self) -> bool {
        match self {
            Change::DamagePlayer { .. } => true,
            Change::ShowZone { min, max } => is_zone(min as int, max as int),
            Change::ShowReading { min, max, progress, .. } => {
                &&& is_zone(min as int, max as int)
                &&& progress < SWEET_SPOT_HOLD_MS
            },
            Change::DamageSoup { min, max, .. } => is_zone(min as int, max as int),
        }
    }

    /// The state that the change makes of `state`.
    pub open spec fn applied(self, state: AppState) -> AppState {
        match state {
            AppState::Game {
                soup_hp,
                player_hp,
                soup_status,
                sweet_spot_min,
                sweet_spot_max,
                sweet_spot_progress,
                loadcell_reading,
            } => match self {
                Change::DamagePlayer { damage } => AppState::Game {
                    soup_hp,
                    player_hp: hp_after(player_hp, damage),
                    soup_status: SoupStatus::Angry,
                    sweet_spot_min,
                    sweet_spot_max,
                    sweet_spot_progress,
                    loadcell_reading,
                },
                Change::ShowZone { min, max } => AppState::Game {
                    soup_hp,
                    player_hp,
                    soup_status,
                    sweet_spot_min: min,
                    sweet_spot_max: max,
                    sweet_spot_progress: 0,
                    loadcell_reading: 0,
                },
                Change::ShowReading { min, max, progress, reading } => AppState::Game {
                    soup_hp,
                    player_hp,
                    soup_status,
                    sweet_spot_min: min,
                    sweet_spot_max: max,
                    sweet_spot_progress: progress,
                    loadcell_reading: reading,
                },
                Change::DamageSoup { min, max, reading } => AppState::Game {
                    soup_hp: hp_after(soup_hp, SOUP_DAMAGE),
                    player_hp,
                    soup_status: SoupStatus::Sad,
                    sweet_spot_min: min,
                    sweet_spot_max: max,
                    sweet_spot_progress: 0,
                    loadcell_reading: reading,
                },
            },
            other => other,
        }
    }

    /// The state that the change makes of `state`.
    pub fn apply(&self, state: &AppState) -> (new: AppState)
        ensures
            new == self.applied(*state),
    {
        match *state {
            AppState::Game {
                soup_hp,
                player_hp,
                soup_status,
                sweet_spot_min,
                sweet_spot_max,
                sweet_spot_progress,
                loadcell_reading,
            } => match *self {
                Change::DamagePlayer { damage } => AppState::Game {
                    soup_hp,
                    player_hp: player_hp.saturating_sub(damage),
                    soup_status: SoupStatus::Angry,
                    sweet_spot_min,
                    sweet_spot_max,
                    sweet_spot_progress,
                    loadcell_reading,
                },
                Change::ShowZone { min, max } => AppState::Game {
                    soup_hp,
                    player_hp,
                    soup_status,
                    sweet_spot_min: min,
                    sweet_spot_max: max,
                    sweet_spot_progress: 0,
                    loadcell_reading: 0,
                },
                Change::ShowReading { min, max, progress, reading } => AppState::Game {
                    soup_hp,
                    player_hp,
                    soup_status,
                    sweet_spot_min: min,
                    sweet_spot_max: max,
                    sweet_spot_progress: progress,
                    loadcell_reading: reading,
                },
                Change::DamageSoup { min, max, reading } => AppState::Game {
                    soup_hp: soup_hp.saturating_sub(SOUP_DAMAGE),
                    player_hp,
                    soup_status: SoupStatus::Sad,
                    sweet_spot_min: min,
                    sweet_spot_max: max,
                    sweet_spot_progress: 0,
                    loadcell_reading: reading,
                },
            },
            other => other,
        }
    }
}

/// The state after all of `changes`, first to last.
pub open spec fn after_changes(state: AppState, changes: Seq<Change>) -> AppState
    decreases changes.len(),
{
    if changes.len() == 0 {
        state
    } else {
        changes.last().applied(after_changes(state, changes.drop_last()))
    }
}

/// How many of `changes` are completed holds.
pub open spec fn completed_holds(changes: Seq<Change>) -> nat
    decreases changes.len(),
{
    if changes.len() == 0 {
        0
    } else {
        completed_holds(changes.drop_last()) + if changes.last() is DamageSoup {
            1nat
        } else {
            0nat
        }
    }
}

/// The damage to the player that `changes` add up to.
pub open spec fn damage_dealt(changes: Seq<Change>) -> nat
    decreases changes.len(),
{
    if changes.len() == 0 {
        0
    } else {
        damage_dealt(changes.drop_last()) + match changes.last() {
            Change::DamagePlayer { damage } => damage as nat,
            _ => 0nat,
        }
    }
}

/// `hp` less `damage`, and never below zero.
pub open spec fn hp_left(hp: nat, damage: nat) -> nat {
    if damage <= hp {
        (hp - damage) as nat
    } else {
        0
    }
}

/// A valid change of a valid state gives a valid state.
pub proof fn law_change_keeps_valid(change: Change, state: AppState)
    requires
        change.valid(),
        state.valid(),
    ensures
        change.applied(state).valid(),
{
}

/// A change never switches screens, and touches nothing outside a game.
pub proof fn law_change_stays_on_screen(change: Change, state: AppState)
    ensures
        change.applied(state) is Game <==> state is Game,
        !(state is Game) ==> change.applied(state) == state,
{
}

/// A change only ever lowers hit points, and only the two kinds of damage do.
pub proof fn law_change_never_heals(change: Change, state: AppState)
    requires
        state is Game,
    ensures
        change.applied(state).soup_hp()->0 <= state.soup_hp()->0,
        change.applied(state).player_hp()->0 <= state.player_hp()->0,
        !(change is DamageSoup) ==> change.applied(state).soup_hp() == state.soup_hp(),
        !(change is DamagePlayer) ==> change.applied(state).player_hp() == state.player_hp(),
{
}

/// However the changes of all tasks interleave, the soup's hit points depend
/// only on how many holds completed, and the player's only on the total damage.
pub proof fn law_hit_points_add_up(state: AppState, changes: Seq<Change>)
    requires
        state is Game,
    ensures
        after_changes(state, changes) is Game,
        after_changes(state, changes).soup_hp()->0 == hp_left(
            state.soup_hp()->0 as nat,
            SOUP_DAMAGE as nat * completed_holds(changes),
        ),
        after_changes(state, changes).player_hp()->0 == hp_left(
            state.player_hp()->0 as nat,
            damage_dealt(changes),
        ),
    decreases changes.len(),
{
    if changes.len() > 0 {
        law_hit_points_add_up(state, changes.drop_last());
    }
}

/// Ten completed holds defeat the soup of a fresh round, and nine do not.
pub proof fn law_ten_holds_win(changes: Seq<Change>)
    ensures
        after_changes(AppState::fresh_game(), changes).soup_hp() == Some(0u32) <==> completed_holds(
            changes,
        ) >= 10,
{
    law_hit_points_add_up(AppState::fresh_game(), changes);
}

/// Every state that valid changes make of a fresh round is valid.
pub proof fn law_round_stays_valid(changes: Seq<Change>)
    requires
        forall|i: int| 0 <= i < changes.len() ==> #[trigger] changes[i].valid(),
    ensures
        after_changes(AppState::fresh_game(), changes).valid(),
    decreases changes.len(),
{
    if changes.len() > 0 {
        let before = changes.drop_last();
        assert forall|i: int| 0 <= i < before.len() implies #[trigger] before[i].valid() by {
            assert(changes[i].valid());
        }
        law_round_stays_valid(before);
        assert(changes[changes.len() - 1].valid());
    }
}

/// A round starts with a hundred hit points on either side, a neutral soup, and
/// neither zone, progress nor reading.
pub proof fn law_fresh_round()
    ensures
        AppState::fresh_game() matches AppState::Game {
            soup_hp,
            player_hp,
            soup_status,
            sweet_spot_min,
            sweet_spot_max,
            sweet_spot_progress,
            loadcell_reading,
        } && {
            &&& soup_hp == 100 && player_hp == 100
            &&& soup_status is Neutral
            &&& sweet_spot_min == 0 && sweet_spot_max == 0
            &&& sweet_spot_progress == 0 && loadcell_reading == 0
        },
{
}

/// Hit points are told only of a game, and are those of the game.
pub proof fn law_hit_points_are_those_of_the_game(state: AppState)
    ensures
        match state {
            AppState::Game { soup_hp, player_hp, .. } => {
                &&& state.soup_hp() == Some(soup_hp)
                &&& state.player_hp() == Some(player_hp)
            },
            _ => state.soup_hp() is None && state.player_hp() is None,
        },
{
}

/// Damage to the player takes that many of the player's hit points, or all that
/// there are, makes the soup angry, and leaves everything else of the game alone.
pub proof fn law_damage_to_the_player(before: AppState, damage: u32)
    requires
        before is Game,
    ensures
        ({
            let after = Change::DamagePlayer { damage }.applied(before);
            &&& after is Game
            &&& after->player_hp + damage == before->player_hp || (before->player_hp < damage
                && after->player_hp == 0)
            &&& after->soup_status is Angry
            &&& after->soup_hp == before->soup_hp
            &&& after->sweet_spot_min == before->sweet_spot_min
            &&& after->sweet_spot_max == before->sweet_spot_max
            &&& after->sweet_spot_progress == before->sweet_spot_progress
            &&& after->loadcell_reading == before->loadcell_reading
        }),
{
}

/// The first zone of a round is on show afterwards, with neither progress nor
/// reading, and hit points and mood stay as they were.
pub proof fn law_zone_on_show(before: AppState, min: i32, max: i32)
    requires
        before is Game,
    ensures
        ({
            let after = Change::ShowZone { min, max }.applied(before);
            &&& after is Game
            &&& after->sweet_spot_min == min && after->sweet_spot_max == max
            &&& after->sweet_spot_progress == 0 && after->loadcell_reading == 0
            &&& after->soup_hp == before->soup_hp && after->player_hp == before->player_hp
            &&& after->soup_status == before->soup_status
        }),
{
}

/// The reading, the progress and the zone of a live write are on show afterwards,
/// whatever was on show before, and hit points and mood stay as they were.
pub proof fn law_reading_on_show(
    before: AppState,
    min: i32,
    max: i32,
    progress: u32,
    reading: i32,
)
    requires
        before is Game,
    ensures
        ({
            let after = Change::ShowReading { min, max, progress, reading }.applied(before);
            &&& after is Game
            &&& after->sweet_spot_min == min && after->sweet_spot_max == max
            &&& after->sweet_spot_progress == progress
            &&& after->loadcell_reading == reading
            &&& after->soup_hp == before->soup_hp && after->player_hp == before->player_hp
            &&& after->soup_status == before->soup_status
        }),
{
}

/// A completed hold takes ten of the soup's hit points, or all that there are,
/// makes the soup sad, and shows the next zone without progress. The player keeps
/// every hit point.
pub proof fn law_damage_to_the_soup(before: AppState, min: i32, max: i32, reading: i32)
    requires
        before is Game,
    ensures
        ({
            let after = Change::DamageSoup { min, max, reading }.applied(before);
            &&& after is Game
            &&& after->soup_hp + 10 == before->soup_hp || (before->soup_hp < 10 && after->soup_hp
                == 0)
            &&& after->soup_status is Sad
            &&& after->player_hp == before->player_hp
            &&& after->sweet_spot_min == min && after->sweet_spot_max == max
            &&& after->sweet_spot_progress == 0
            &&& after->loadcell_reading == reading
        }),
{
}

/// Of two changes of a game that both show a zone, the later one decides what is
/// on show: the earlier one might as well not have shown anything.
pub proof fn law_the_latest_reading_is_on_show(
    before: AppState,
    earlier: Change,
    min: i32,
    max: i32,
    progress: u32,
    reading: i32,
)
    requires
        earlier is ShowZone || earlier is ShowReading,
    ensures
        ({
            let later = Change::ShowReading { min, max, progress, reading };
            later.applied(earlier.applied(before)) == later.applied(before)
        }),
{
}

} // verus!
