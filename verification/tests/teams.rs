use retro_wicket::teams::{Team, Teams};

#[test]
fn new_names_batting_side_first() {
    let teams = Teams::new(["You", "Opponent"]);
    assert_eq!(teams.batting, Team { name: "You" });
    assert_eq!(teams.fielding, Team { name: "Opponent" });
}

#[test]
fn switch_exchanges_the_roles() {
    let mut teams = Teams::new(["You", "Opponent"]);
    teams.switch();
    assert_eq!(teams, Teams::new(["Opponent", "You"]));
    teams.switch();
    assert_eq!(teams, Teams::new(["You", "Opponent"]));
}
