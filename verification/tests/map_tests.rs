use galaxy_map::map::interaction::motion_is_read;
use galaxy_map::map::selection::Selection;
use galaxy_map::map::graph::{contains_id, GalaxyGraph};
use galaxy_map::map::interaction::{
    find_first_hit, has_large_motion, node_interaction_step, MouseDragState, PointerFrame,
    SelectionChange,
};
use galaxy_map::map::location::{Building, BuildingType, Planet};
use galaxy_map::map::menu::{format_hundredths, format_number, info_menu_lines};
use galaxy_map::map::stars::{star_catalog, StarNode};
use galaxy_map::map::style::{link_color, node_color, Rgba};

fn idle() -> MouseDragState {
    MouseDragState::default()
}

fn frame() -> PointerFrame {
    PointerFrame {
        left_just_pressed: false,
        left_pressed: false,
        left_just_released: false,
        window_found: true,
        camera_found: true,
        cursor_in_window: true,
        large_motions: vec![],
        world_cursor: true,
        node_hits: vec![],
    }
}

#[test]
fn format_number_groups_by_three_from_the_right() {
    assert_eq!(format_number(0), "0");
    assert_eq!(format_number(7), "7");
    assert_eq!(format_number(999), "999");
    assert_eq!(format_number(1000), "1 000");
    assert_eq!(format_number(12_345), "12 345");
    assert_eq!(format_number(250_000), "250 000");
    assert_eq!(format_number(900_000), "900 000");
    assert_eq!(format_number(3_500_000), "3 500 000");
    assert_eq!(format_number(12_000_000), "12 000 000");
    assert_eq!(format_number(8_000_000_000), "8 000 000 000");
    assert_eq!(format_number(u64::MAX), "18 446 744 073 709 551 615");
}

#[test]
fn format_number_strips_back_to_digits() {
    for n in [0u64, 5, 42, 1_000, 65_536, 1_234_567, 987_654_321_000] {
        let grouped = format_number(n);
        let stripped: String = grouped.chars().filter(|c| *c != ' ').collect();
        assert_eq!(stripped, n.to_string());
    }
}

#[test]
fn format_hundredths_writes_two_decimals() {
    assert_eq!(format_hundredths(437), "4.37");
    assert_eq!(format_hundredths(424), "4.24");
    assert_eq!(format_hundredths(860), "8.60");
    assert_eq!(format_hundredths(2500), "25.00");
    assert_eq!(format_hundredths(5), "0.05");
    assert_eq!(format_hundredths(0), "0.00");
}

#[test]
fn star_catalog_lists_the_five_stars() {
    let stars = star_catalog();
    assert_eq!(stars.len(), 5);
    let names: Vec<&str> = stars.iter().map(|s| s.node.name.as_str()).collect();
    assert_eq!(names, vec!["Sol", "Sirius", "Alpha Centauri", "Vega", "Proxima"]);
    assert_eq!((stars[0].x, stars[0].y), (-200, 150));
    assert_eq!((stars[3].x, stars[3].y), (100, -200));
    assert_eq!(stars[1].node.star_type, "Étoile double");
    assert_eq!(stars[2].node.star_type, "Système triple");
    assert_eq!(stars[2].node.distance_centi_ly, 437);
    assert_eq!(stars[0].node.distance_centi_ly, 0);
    assert_eq!(stars[0].node.population, 8_000_000_000);
    assert_eq!(stars[4].node.population, 250_000);
    assert_eq!(stars[3].node.base_color, Rgba { r: 100, g: 100, b: 440, a: 1000 });
}

#[test]
fn info_menu_of_a_distant_star() {
    let stars = star_catalog();
    let lines = info_menu_lines(&stars[1].node);
    assert_eq!(
        lines,
        vec![
            "★ Sirius".to_string(),
            "Type: Étoile double".to_string(),
            "Distance: 8.60 al".to_string(),
            "Population: 3 500 000 hab.".to_string(),
            "\n[Clic droit pour fermer]".to_string(),
        ]
    );
}

#[test]
fn info_menu_of_the_sun_has_no_distance() {
    let stars = star_catalog();
    let lines = info_menu_lines(&stars[0].node);
    assert_eq!(
        lines,
        vec![
            "★ Sol".to_string(),
            "Type: Naine jaune".to_string(),
            "Population: 8 000 000 000 hab.".to_string(),
            "\n[Clic droit pour fermer]".to_string(),
        ]
    );
}

#[test]
fn info_menu_of_a_custom_star() {
    let star = StarNode {
        name: "Tau Ceti".to_string(),
        base_color: Rgba { r: 0, g: 0, b: 0, a: 1000 },
        star_type: "Naine jaune".to_string(),
        distance_centi_ly: 1191,
        population: 42,
    };
    let lines = info_menu_lines(&star);
    assert_eq!(lines[2], "Distance: 11.91 al");
    assert_eq!(lines[3], "Population: 42 hab.");
}

#[test]
fn catalog_links_form_a_ring_and_a_chord() {
    let mut g = GalaxyGraph::default();
    g.links.push((99, 98));
    let ids = vec![10u64, 11, 12, 13, 14];
    g.link_catalog(&ids);
    assert_eq!(
        g.links,
        vec![(99, 98), (10, 11), (11, 12), (12, 13), (13, 14), (14, 10), (10, 12)]
    );
}

#[test]
fn selecting_a_star_highlights_its_links() {
    let mut g = GalaxyGraph::default();
    g.link_catalog(&vec![10, 11, 12, 13, 14]);
    assert_eq!(g.link_highlights(&vec![10]), vec![true, false, false, false, true, true]);
    assert_eq!(g.link_highlights(&vec![13]), vec![false, false, true, true, false, false]);
    assert_eq!(g.link_highlights(&vec![]), vec![false; 6]);
    assert_eq!(g.link_highlights(&vec![11, 13]), vec![true, true, true, true, false, false]);
}

#[test]
fn contains_id_finds_ids() {
    assert!(contains_id(&vec![3, 4, 5], 4));
    assert!(!contains_id(&vec![3, 4, 5], 6));
    assert!(!contains_id(&vec![], 0));
}

#[test]
fn colors_follow_selection() {
    let base = Rgba { r: 1000, g: 270, b: 0, a: 1000 };
    assert_eq!(node_color(base, false), base);
    assert_eq!(node_color(base, true), Rgba { r: 1000, g: 1000, b: 0, a: 1000 });
    assert_eq!(link_color(true), Rgba { r: 1000, g: 1000, b: 0, a: 1000 });
    assert_eq!(link_color(false), Rgba { r: 500, g: 500, b: 800, a: 500 });
}

#[test]
fn first_hit_is_the_first_node_under_the_cursor() {
    assert_eq!(find_first_hit(&vec![(1, false), (2, true), (3, true)]), Some(2));
    assert_eq!(find_first_hit(&vec![(1, false), (2, false)]), None);
    assert_eq!(find_first_hit(&vec![]), None);
    assert!(has_large_motion(&vec![false, true]));
    assert!(!has_large_motion(&vec![false, false]));
}

#[test]
fn click_on_a_node_selects_it() {
    let mut drag = idle();
    let mut f = frame();
    f.left_just_pressed = true;
    f.left_pressed = true;
    assert_eq!(node_interaction_step(&mut drag, &f), SelectionChange::Keep);
    assert!(drag.has_start && !drag.is_dragging);
    let mut f = frame();
    f.left_just_released = true;
    f.node_hits = vec![(7, false), (8, true)];
    assert_eq!(node_interaction_step(&mut drag, &f), SelectionChange::Select(8));
    assert!(!drag.has_start && !drag.is_dragging);
}

#[test]
fn click_on_empty_space_clears_selection() {
    let mut drag = idle();
    let mut f = frame();
    f.left_just_pressed = true;
    f.left_just_released = true;
    f.node_hits = vec![(7, false)];
    assert_eq!(node_interaction_step(&mut drag, &f), SelectionChange::Clear);
}

#[test]
fn drag_over_empty_space_keeps_selection() {
    let mut drag = idle();
    let mut f = frame();
    f.left_just_pressed = true;
    f.left_pressed = true;
    node_interaction_step(&mut drag, &f);
    let mut f = frame();
    f.left_pressed = true;
    f.large_motions = vec![false, true];
    assert_eq!(node_interaction_step(&mut drag, &f), SelectionChange::Keep);
    assert!(drag.is_dragging);
    let mut f = frame();
    f.left_just_released = true;
    f.node_hits = vec![(7, false)];
    assert_eq!(node_interaction_step(&mut drag, &f), SelectionChange::Keep);
    assert!(!drag.is_dragging);
}

#[test]
fn drag_ending_on_a_node_still_selects_it() {
    let mut drag = MouseDragState { is_dragging: true, has_start: true };
    let mut f = frame();
    f.left_just_released = true;
    f.node_hits = vec![(7, true)];
    assert_eq!(node_interaction_step(&mut drag, &f), SelectionChange::Select(7));
}

#[test]
fn press_without_window_does_nothing() {
    let mut drag = MouseDragState { is_dragging: true, has_start: true };
    let mut f = frame();
    f.left_just_pressed = true;
    f.left_just_released = true;
    f.window_found = false;
    f.node_hits = vec![(7, true)];
    assert_eq!(node_interaction_step(&mut drag, &f), SelectionChange::Keep);
    assert!(drag.is_dragging && drag.has_start);
}

#[test]
fn release_without_camera_keeps_gesture() {
    let mut drag = MouseDragState { is_dragging: true, has_start: true };
    let mut f = frame();
    f.left_just_released = true;
    f.camera_found = false;
    f.node_hits = vec![(7, true)];
    assert_eq!(node_interaction_step(&mut drag, &f), SelectionChange::Keep);
    assert!(drag.is_dragging && drag.has_start);
}

#[test]
fn release_off_world_keeps_selection_and_ends_gesture() {
    let mut drag = idle();
    let mut f = frame();
    f.left_just_released = true;
    f.world_cursor = false;
    f.node_hits = vec![(7, true)];
    assert_eq!(node_interaction_step(&mut drag, &f), SelectionChange::Keep);
    assert!(!drag.is_dragging);
}

#[test]
fn location_types_hold_their_values() {
    let p = Planet { name: "Terre".to_string() };
    let b = Building { kind: BuildingType::Farm };
    let k = b.kind;
    assert_eq!(p.name, "Terre");
    assert_eq!(k, BuildingType::Farm);
    assert_ne!(BuildingType::Mine, BuildingType::Habitat);
}

#[test]
fn grouping_adds_one_space_per_extra_group() {
    for (n, digits) in [(1u64, 1usize), (999, 3), (1_000, 4), (1_000_000, 7), (10_000_000_000, 11)] {
        assert_eq!(format_number(n).chars().count(), digits + (digits - 1) / 3);
    }
}

#[test]
fn decimal_string_writes_plain_decimal() {
    assert_eq!(galaxy_map::map::menu::decimal_string(0), "0");
    assert_eq!(galaxy_map::map::menu::decimal_string(10), "10");
    assert_eq!(galaxy_map::map::menu::decimal_string(1_234_567_890), "1234567890");
    assert_eq!(galaxy_map::map::menu::decimal_string(u64::MAX), u64::MAX.to_string());
}

#[test]
fn motion_is_read_while_held_unless_press_found_no_window() {
    assert!(motion_is_read(false, true, true));
    assert!(motion_is_read(true, true, true));
    assert!(!motion_is_read(true, true, false));
    assert!(motion_is_read(false, true, false));
    assert!(!motion_is_read(false, false, true));
}

#[test]
fn selection_keeps_menu_with_selected_node() {
    let mut s = Selection::default();
    assert_eq!((s.selected, s.menu), (None, None));
    s.apply(SelectionChange::Select(5));
    assert_eq!((s.selected, s.menu), (Some(5), Some(5)));
    assert!(s.is_selected(5) && !s.is_selected(6));
    s.apply(SelectionChange::Keep);
    assert_eq!((s.selected, s.menu), (Some(5), Some(5)));
    s.apply(SelectionChange::Select(6));
    assert_eq!((s.selected, s.menu), (Some(6), Some(6)));
    assert!(!s.close_menu_step(false));
    assert_eq!((s.selected, s.menu), (Some(6), Some(6)));
    assert!(s.close_menu_step(true));
    assert_eq!((s.selected, s.menu), (None, None));
    s.apply(SelectionChange::Select(7));
    s.apply(SelectionChange::Clear);
    assert_eq!((s.selected, s.menu), (None, None));
}
