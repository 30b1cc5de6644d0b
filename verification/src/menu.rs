//! Menu navigation: choosing a star kind and a planet count.
//!
//! The menu is a two-screen selection state machine.  The rendering and
//! key-polling layer samples the pressed keys once per tick and hands
//! them in as booleans; a completed selection is handed back as a value.

use vstd::prelude::*;

use crate::star::StarType;

verus! {

/// Which top-level screen the game shows.
#[derive(Debug, Clone, Copy, PartialEq, Eq, Structural)]
pub enum GameState {
    Menu,
    Playing,
}

/// The two screens of the menu.
#[derive(Debug, Clone, Copy, PartialEq, Eq, Structural)]
pub enum MenuScreen {
    StarSelection,
    PlanetCount,
}

/// A completed menu selection: the star kind and how many planets to
/// generate.
#[derive(Debug, Clone, Copy, PartialEq, Eq, Structural)]
pub struct MenuSelection {
    pub star_type: StarType,
    pub planet_count: usize,
}

/// The index selected by default when the planet-count screen opens
/// (six planets in the list below).
pub const DEFAULT_COUNT_INDEX: usize = 4;

/// The star kinds offered, in display order.
pub open spec fn spec_star_choices() -> Seq<StarType> {
    seq![StarType::YellowDwarf, StarType::RedDwarf, StarType::BlueGiant, StarType::BlackHole]
}

/// The planet counts offered, in display order.
pub open spec fn spec_count_choices() -> Seq<usize> {
    seq![2usize, 3usize, 4usize, 5usize, 6usize, 7usize, 8usize, 9usize]
}

/// One navigation step within a list of `len` entries: an up press
/// moves one entry up unless already at the top, then a down press
/// moves one entry down unless already at the bottom.
pub open spec fn spec_nav(idx: int, len: int, up: bool, down: bool) -> int {
    let after_up = if up && idx > 0 {
        idx - 1
    } else {
        idx
    };
    if down && after_up < len - 1 {
        after_up + 1
    } else {
        after_up
    }
}

/// The menu state machine.
#[derive(Debug, Clone)]
pub struct Menu {
    pub current_screen: MenuScreen,
    pub selected_index: usize,
    pub star_types: Vec<StarType>,
    pub selected_star: Option<StarType>,
    pub planet_counts: Vec<usize>,
}

impl Menu {
    /// The menu invariant: the fixed option lists, a cursor within the
    /// current screen's list, and a star already chosen whenever the
    /// planet-count screen shows.
    pub open spec fn wf(self) -> bool {
        &&& self.star_types@ == spec_star_choices()
        &&& self.planet_counts@ == spec_count_choices()
        &&& match self.current_screen {
            MenuScreen::StarSelection => self.selected_index < spec_star_choices().len(),
            MenuScreen::PlanetCount => self.selected_index < spec_count_choices().len()
                && self.selected_star is Some,
        }
    }

    /// A fresh menu: the star-selection screen with the cursor on the
    /// first entry and no star chosen yet.
    pub fn new() -> (r: Menu)
        ensures
            r.current_screen == MenuScreen::StarSelection,
            r.selected_index == 0,
            r.selected_star is None,
            r.wf(),
    {
        Menu {
            current_screen: MenuScreen::StarSelection,
            selected_index: 0,
            star_types: vec![
                StarType::YellowDwarf,
                StarType::RedDwarf,
                StarType::BlueGiant,
                StarType::BlackHole,
            ],
            selected_star: None,
            planet_counts: vec![2, 3, 4, 5, 6, 7, 8, 9],
        }
    }

    /// The menu and the selection it hands back after one tick of key
    /// presses.  On the star screen, up/down move the cursor and a
    /// confirm captures the star and opens the planet-count screen with
    /// its default cursor.  On the planet-count screen, up/down move the
    /// cursor, a confirm completes the selection, and otherwise a back
    /// press returns to a fresh star screen.
    pub open spec fn spec_step(self, up: bool, down: bool, confirm: bool, back: bool) -> (
        Menu,
        Option<MenuSelection>,
    ) {
        match self.current_screen {
            MenuScreen::StarSelection => {
                let idx = spec_nav(
                    self.selected_index as int,
                    spec_star_choices().len() as int,
                    up,
                    down,
                );
                if confirm {
                    (
                        Menu {
                            current_screen: MenuScreen::PlanetCount,
                            selected_index: DEFAULT_COUNT_INDEX,
                            selected_star: Some(spec_star_choices()[idx]),
                            ..self
                        },
                        None,
                    )
                } else {
                    (Menu { selected_index: idx as usize, ..self }, None)
                }
            },
            MenuScreen::PlanetCount => {
                let idx = spec_nav(
                    self.selected_index as int,
                    spec_count_choices().len() as int,
                    up,
                    down,
                );
                if confirm && self.selected_star is Some {
                    (
                        Menu { selected_index: idx as usize, ..self },
                        Some(
                            MenuSelection {
                                star_type: self.selected_star->0,
                                planet_count: spec_count_choices()[idx],
                            },
                        ),
                    )
                } else if back {
                    (
                        Menu {
                            current_screen: MenuScreen::StarSelection,
                            selected_index: 0,
                            selected_star: None,
                            ..self
                        },
                        None,
                    )
                } else {
                    (Menu { selected_index: idx as usize, ..self }, None)
                }
            },
        }
    }

    /// Samples one tick of menu input: whether the up, down, confirm
    /// and back keys were pressed.  Returns the completed selection, if
    /// this tick completed one.
    pub fn handle_input(&mut self, up: bool, down: bool, confirm: bool, back: bool) -> (r:
        Option<MenuSelection>)
        requires
            old(self).wf(),
        ensures
            *final(self) == old(self).spec_step(up, down, confirm, back).0,
            r == old(self).spec_step(up, down, confirm, back).1,
            final(self).wf(),
    {
        match self.current_screen {
            MenuScreen::StarSelection => {
                if up && self.selected_index > 0 {
                    self.selected_index = self.selected_index - 1;
                }
                if down && self.selected_index < self.star_types.len() - 1 {
                    self.selected_index = self.selected_index + 1;
                }
                if confirm {
                    self.selected_star = Some(self.star_types[self.selected_index]);
                    self.current_screen = MenuScreen::PlanetCount;
                    self.selected_index = DEFAULT_COUNT_INDEX;
                }
                None
            },
            MenuScreen::PlanetCount => {
                if up && self.selected_index > 0 {
                    self.selected_index = self.selected_index - 1;
                }
                if down && self.selected_index < self.planet_counts.len() - 1 {
                    self.selected_index = self.selected_index + 1;
                }
                if confirm {
                    match self.selected_star {
                        Some(star_type) => {
                            return Some(
                                MenuSelection {
                                    star_type,
                                    planet_count: self.planet_counts[self.selected_index],
                                },
                            );
                        },
                        None => {},
                    }
                }
                if back {
                    self.current_screen = MenuScreen::StarSelection;
                    self.selected_index = 0;
                    self.selected_star = None;
                }
                None
            },
        }
    }
}

} // verus!
