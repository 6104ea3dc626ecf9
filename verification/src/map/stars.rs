use vstd::prelude::*;
use vstd::string::*;
use crate::map::style::Rgba;

verus! {

/// What the map knows of a star.
pub struct StarNode {
    pub name: String,
    /// Its colour when not selected.
    pub base_color: Rgba,
    pub star_type: String,
    /// Distance in hundredths of a light-year.
    pub distance_centi_ly: u32,
    pub population: u64,
}

/// A star of the initial map with its position on the map, in pixels.
pub struct StarSeed {
    pub x: i32,
    pub y: i32,
    pub node: StarNode,
}

/// The star at `(x, y)` with the given description.
pub open spec fn seed_is(
    s: StarSeed,
    x: int,
    y: int,
    name: Seq<char>,
    color: Rgba,
    star_type: Seq<char>,
    distance_centi_ly: int,
    population: int,
) -> bool {
    &&& s.x == x
    &&& s.y == y
    &&& s.node.name@ == name
    &&& s.node.base_color == color
    &&& s.node.star_type@ == star_type
    &&& s.node.distance_centi_ly == distance_centi_ly
    &&& s.node.population == population
}

fn seed(
    x: i32,
    y: i32,
    name: &str,
    color: Rgba,
    star_type: &str,
    distance_centi_ly: u32,
    population: u64,
) -> (s: StarSeed)
    ensures
        seed_is(s, x as int, y as int, name@, color, star_type@, distance_centi_ly as int, population as int),
{
    StarSeed {
        x,
        y,
        node: StarNode {
            name: String::from_str(name),
            base_color: color,
            star_type: String::from_str(star_type),
            distance_centi_ly,
            population,
        },
    }
}

/// The five stars the map starts with, in the order they are created.
pub fn star_catalog() -> (stars: Vec<StarSeed>)
    ensures
        stars@.len() == 5,
        seed_is(stars@[0], -200, 150, "Sol"@, Rgba { r: 1000, g: 270, b: 0, a: 1000 }, "Naine jaune"@, 0, 8_000_000_000),
        seed_is(stars@[1], 50, 250, "Sirius"@, Rgba { r: 0, g: 1000, b: 1000, a: 1000 }, "Étoile double"@, 860, 3_500_000),
        seed_is(stars@[2], 300, 100, "Alpha Centauri"@, Rgba { r: 1000, g: 1000, b: 1000, a: 1000 }, "Système triple"@, 437, 12_000_000),
        seed_is(stars@[3], 100, -200, "Vega"@, Rgba { r: 100, g: 100, b: 440, a: 1000 }, "Naine bleue"@, 2500, 900_000),
        seed_is(stars@[4], -250, -150, "Proxima"@, Rgba { r: 1000, g: 0, b: 0, a: 1000 }, "Naine rouge"@, 424, 250_000),
{
    let mut stars: Vec<StarSeed> = Vec::new();
    stars.push(seed(-200, 150, "Sol", Rgba { r: 1000, g: 270, b: 0, a: 1000 }, "Naine jaune", 0, 8_000_000_000));
    stars.push(seed(50, 250, "Sirius", Rgba { r: 0, g: 1000, b: 1000, a: 1000 }, "Étoile double", 860, 3_500_000));
    stars.push(seed(300, 100, "Alpha Centauri", Rgba { r: 1000, g: 1000, b: 1000, a: 1000 }, "Système triple", 437, 12_000_000));
    stars.push(seed(100, -200, "Vega", Rgba { r: 100, g: 100, b: 440, a: 1000 }, "Naine bleue", 2500, 900_000));
    stars.push(seed(-250, -150, "Proxima", Rgba { r: 1000, g: 0, b: 0, a: 1000 }, "Naine rouge", 424, 250_000));
    stars
}

} // verus!
