use solar_economy::menu::Menu;
use solar_economy::menu::MenuScreen;
use solar_economy::menu::MenuSelection;
use solar_economy::star::StarType;

#[test]
fn new_menu_starts_on_star_selection() {
    let menu = Menu::new();
    assert_eq!(menu.current_screen, MenuScreen::StarSelection);
    assert_eq!(menu.selected_index, 0);
    assert_eq!(menu.selected_star, None);
}

#[test]
fn cursor_stops_at_the_ends() {
    let mut menu = Menu::new();
    assert_eq!(menu.handle_input(true, false, false, false), None);
    assert_eq!(menu.selected_index, 0);
    for _ in 0..10 {
        menu.handle_input(false, true, false, false);
    }
    // Four star kinds: the cursor cannot pass the last one.
    assert_eq!(menu.selected_index, 3);
}

#[test]
fn confirming_a_star_opens_planet_count_with_default() {
    let mut menu = Menu::new();
    menu.handle_input(false, true, false, false);
    assert_eq!(menu.selected_index, 1);
    assert_eq!(menu.handle_input(false, false, true, false), None);
    assert_eq!(menu.current_screen, MenuScreen::PlanetCount);
    assert_eq!(menu.selected_star, Some(StarType::RedDwarf));
    // The planet-count screen opens on its default entry (6 planets).
    assert_eq!(menu.selected_index, 4);
}

#[test]
fn full_selection_round() {
    let mut menu = Menu::new();
    // Down twice to the blue giant, confirm.
    menu.handle_input(false, true, false, false);
    menu.handle_input(false, true, false, false);
    menu.handle_input(false, false, true, false);
    // Up once from the default count (6 -> 5), confirm.
    menu.handle_input(true, false, false, false);
    let selection = menu.handle_input(false, false, true, false);
    assert_eq!(
        selection,
        Some(MenuSelection {
            star_type: StarType::BlueGiant,
            planet_count: 5,
        })
    );
}

#[test]
fn back_returns_to_a_fresh_star_screen() {
    let mut menu = Menu::new();
    menu.handle_input(false, false, true, false);
    assert_eq!(menu.current_screen, MenuScreen::PlanetCount);
    assert_eq!(menu.handle_input(false, false, false, true), None);
    assert_eq!(menu.current_screen, MenuScreen::StarSelection);
    assert_eq!(menu.selected_index, 0);
    assert_eq!(menu.selected_star, None);
}

#[test]
fn up_and_down_in_one_tick_cancel_out() {
    let mut menu = Menu::new();
    menu.handle_input(false, true, false, false);
    assert_eq!(menu.selected_index, 1);
    menu.handle_input(true, true, false, false);
    assert_eq!(menu.selected_index, 1);
}
