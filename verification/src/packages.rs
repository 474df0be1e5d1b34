//! Which of the game's installations the packages are read from.

use vstd::prelude::*;

verus! {

/// The id of the game in the Steam store.
pub const STEAM_APP_ID: u64 = 1085660;

/// An installed game, as a scan of the machine's stores reports it.
#[derive(Debug, Clone, PartialEq, Eq)]
pub enum InstalledGame {
    Steam { appid: u64, game_path: String },
    EpicGames { display_name: String, install_location: String },
    MicrosoftStore { app_name: String, path: String },
    /// A game of a store that does not sell the game.
    Other,
}

impl InstalledGame {
    /// Whether this is an installation of the game.
    pub open spec fn is_the_game(&self) -> bool {
        match self {
            InstalledGame::Steam { appid, .. } => *appid == 1085660,
            InstalledGame::EpicGames { display_name, .. } => display_name@ == "Destiny 2"@,
            InstalledGame::MicrosoftStore { app_name, .. } => app_name@ == "Destiny2PCbasegame"@,
            InstalledGame::Other => false,
        }
    }

    /// The rank of the installation's store: Steam comes before Epic Games,
    /// Epic Games before the Microsoft Store.
    pub open spec fn rank(&self) -> int {
        match self {
            InstalledGame::Steam { .. } => 0,
            InstalledGame::EpicGames { .. } => 1,
            InstalledGame::MicrosoftStore { .. } => 2,
            InstalledGame::Other => 3,
        }
    }

    /// Where the installation lies.
    pub open spec fn location(&self) -> Seq<char> {
        match self {
            InstalledGame::Steam { game_path, .. } => game_path@,
            InstalledGame::EpicGames { install_location, .. } => install_location@,
            InstalledGame::MicrosoftStore { path, .. } => path@,
            InstalledGame::Other => Seq::empty(),
        }
    }

    /// Whether this is an installation of the game.
    pub fn matches_the_game(&self) -> (r: bool)
        ensures
            r == self.is_the_game(),
    {
        match self {
            InstalledGame::Steam { appid, .. } => *appid == STEAM_APP_ID,
            InstalledGame::EpicGames { display_name, .. } => {
                let wanted = "Destiny 2".to_owned();
                *display_name == wanted
            },
            InstalledGame::MicrosoftStore { app_name, .. } => {
                let wanted = "Destiny2PCbasegame".to_owned();
                *app_name == wanted
            },
            InstalledGame::Other => false,
        }
    }

    /// The rank of the installation's store.
    pub fn store_rank(&self) -> (r: u8)
        ensures
            r == self.rank(),
    {
        match self {
            InstalledGame::Steam { .. } => 0,
            InstalledGame::EpicGames { .. } => 1,
            InstalledGame::MicrosoftStore { .. } => 2,
            InstalledGame::Other => 3,
        }
    }
}

/// Whether installation `i` is the one to read from: it is an installation
/// of the game, none of the game has a store of lower rank, and none of the
/// same rank comes before it.
pub open spec fn is_preferred(installations: Seq<InstalledGame>, i: int) -> bool {
    &&& 0 <= i < installations.len()
    &&& installations[i].is_the_game()
    &&& forall|j: int|
        0 <= j < installations.len() && (#[trigger] installations[j]).is_the_game()
            ==> installations[i].rank() < installations[j].rank() || (installations[i].rank()
            == installations[j].rank() && i <= j)
}

/// The index of the installation to read from, if the game is installed.
pub fn preferred_installation(installations: &Vec<InstalledGame>) -> (r: Option<usize>)
    ensures
        match r {
            Some(i) => is_preferred(installations@, i as int),
            None => forall|j: int|
                0 <= j < installations@.len() ==> !(#[trigger] installations@[j]).is_the_game(),
        },
{
    let mut best: Option<usize> = None;
    let mut best_rank: u8 = 4;
    let mut i: usize = 0;
    while i < installations.len()
        invariant
            i <= installations@.len(),
            match best {
                Some(b) => {
                    &&& b < i
                    &&& installations@[b as int].is_the_game()
                    &&& best_rank == installations@[b as int].rank()
                    &&& forall|j: int|
                        0 <= j < i && (#[trigger] installations@[j]).is_the_game()
                            ==> best_rank < installations@[j].rank() || (best_rank
                            == installations@[j].rank() && b <= j)
                },
                None => best_rank == 4 && forall|j: int|
                    0 <= j < i ==> !(#[trigger] installations@[j]).is_the_game(),
            },
        decreases installations@.len() - i,
    {
        let candidate = &installations[i];
        if candidate.matches_the_game() {
            let rank: u8 = candidate.store_rank();
            if rank < best_rank {
                best = Some(i);
                best_rank = rank;
            }
        }
        i = i + 1;
    }
    best
}

/// The place of the game's installation to read from: that of the Steam
/// store before that of Epic Games, that before the Microsoft Store's, and
/// among those of one store the first.
pub fn find_d2_packages_path(installations: &Vec<InstalledGame>) -> (r: Option<String>)
    ensures
        match r {
            Some(path) => exists|i: int|
                is_preferred(installations@, i) && path@ == #[trigger] installations@[i].location(),
            None => forall|j: int|
                0 <= j < installations@.len() ==> !(#[trigger] installations@[j]).is_the_game(),
        },
{
    let index = preferred_installation(installations)?;
    let path = match &installations[index] {
        InstalledGame::Steam { game_path, .. } => game_path.clone(),
        InstalledGame::EpicGames { install_location, .. } => install_location.clone(),
        InstalledGame::MicrosoftStore { path, .. } => path.clone(),
        InstalledGame::Other => {
            return None;
        },
    };
    assert(path@ == installations@[index as int].location());
    Some(path)
}

} // verus!
