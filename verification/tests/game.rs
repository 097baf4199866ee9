use std::collections::VecDeque;

use loteria::card::{create_deck, Card};
use loteria::game::{default_prizes, Game, Msg};

fn card(name: &str) -> Card {
    Card { name: name.to_string(), image: format!("/imgs/{}.jpg", name) }
}

fn abc_deck() -> VecDeque<Card> {
    let mut deck = VecDeque::new();
    deck.push_back(card("a"));
    deck.push_back(card("b"));
    deck.push_back(card("c"));
    deck
}

fn current_name(game: &Game) -> Option<String> {
    game.current_card.as_ref().map(|c| c.name.clone())
}

#[test]
fn end_to_end_scenario() {
    let mut game = Game::with_deck(abc_deck(), 5, default_prizes());
    assert_eq!(current_name(&game), None);
    assert!(!game.is_running);
    assert_eq!(game.remaining_time, 5);

    game.update(Msg::Start);
    assert_eq!(current_name(&game), Some("a".to_string()));
    assert_eq!(game.remaining_time, 5);
    assert!(game.is_running);
    assert!(game.timer_pending);

    for expected in [4, 3, 2, 1, 0] {
        game.update(Msg::Tick);
        assert_eq!(game.remaining_time, expected);
        assert_eq!(current_name(&game), Some("a".to_string()));
    }

    game.update(Msg::Tick);
    assert_eq!(current_name(&game), Some("b".to_string()));
    assert_eq!(game.remaining_time, 5);

    game.update(Msg::Pause);
    assert!(!game.is_running);
    assert!(!game.timer_pending);
    assert_eq!(current_name(&game), Some("b".to_string()));
    assert_eq!(game.remaining_time, 5);

    game.update(Msg::Resume);
    assert!(game.is_running);
    assert!(game.timer_pending);
    assert_eq!(current_name(&game), Some("b".to_string()));
    assert_eq!(game.remaining_time, 5);

    game.update(Msg::Cancel);
    assert_eq!(current_name(&game), None);
    assert!(!game.is_running);
    assert!(!game.timer_pending);
    assert_eq!(game.remaining_time, 5);
}

#[test]
fn draws_cycle_round_robin() {
    let mut game = Game::with_deck(abc_deck(), 5, default_prizes());
    let mut seen = Vec::new();
    for _ in 0..3 {
        game.update(Msg::NextCard);
        seen.push(current_name(&game).unwrap());
        assert_eq!(game.deck.len(), 3);
    }
    assert_eq!(seen, vec!["a".to_string(), "b".to_string(), "c".to_string()]);
    game.update(Msg::NextCard);
    assert_eq!(current_name(&game), Some("a".to_string()));
}

#[test]
fn pause_then_resume_preserves_countdown() {
    let mut game = Game::with_deck(abc_deck(), 7, default_prizes());
    game.update(Msg::Start);
    game.update(Msg::Tick);
    game.update(Msg::Tick);
    assert_eq!(game.remaining_time, 5);
    game.update(Msg::Pause);
    game.update(Msg::Resume);
    assert_eq!(game.remaining_time, 5);
    assert_eq!(current_name(&game), Some("a".to_string()));
    assert!(game.is_running);
}

#[test]
fn cancel_resets_fully_from_any_state() {
    let mut game = Game::with_deck(abc_deck(), 5, default_prizes());
    game.update(Msg::Start);
    game.update(Msg::Tick);
    game.update(Msg::AddWinner(0, "Ana".to_string()));
    game.update(Msg::Cancel);
    assert_eq!(current_name(&game), None);
    assert!(!game.is_running);
    assert!(!game.timer_pending);
    assert_eq!(game.remaining_time, 5);
    assert_eq!(game.deck.len(), 3);
    assert_eq!(game.winners[0].name, "Ana");

    game.update(Msg::Cancel);
    assert_eq!(current_name(&game), None);
    assert_eq!(game.remaining_time, 5);
}

#[test]
fn add_winner_updates_only_that_slot() {
    let mut game = Game::with_deck(abc_deck(), 5, default_prizes());
    game.update(Msg::Start);
    game.update(Msg::AddWinner(1, "Maria".to_string()));
    assert_eq!(game.winners[0].name, "");
    assert_eq!(game.winners[1].name, "Maria");
    assert_eq!(game.winners[2].name, "");
    assert_eq!(game.winners[3].name, "");
    assert_eq!(game.winners[1].prize, "Chorro");
    assert_eq!(current_name(&game), Some("a".to_string()));
    assert_eq!(game.remaining_time, 5);
    assert!(game.is_running);
}

#[test]
fn add_winner_out_of_range_is_a_noop() {
    let mut game = Game::with_deck(abc_deck(), 5, default_prizes());
    game.update(Msg::AddWinner(4, "Luis".to_string()));
    for winner in &game.winners {
        assert_eq!(winner.name, "");
    }
    assert_eq!(game.winners.len(), 4);
}

#[test]
fn tick_is_ignored_while_not_running() {
    let mut game = Game::with_deck(abc_deck(), 5, default_prizes());
    game.update(Msg::Tick);
    assert_eq!(game.remaining_time, 5);
    assert!(!game.timer_pending);
    game.update(Msg::Start);
    game.update(Msg::Pause);
    game.update(Msg::Tick);
    assert_eq!(game.remaining_time, 5);
    assert!(!game.timer_pending);
}

#[test]
fn draw_from_an_empty_deck_is_a_noop() {
    let mut game = Game::with_deck(VecDeque::new(), 5, default_prizes());
    game.update(Msg::Start);
    assert_eq!(current_name(&game), None);
    assert!(game.is_running);
    game.update(Msg::NextCard);
    assert_eq!(current_name(&game), None);
}

#[test]
fn start_keeps_an_already_drawn_card() {
    let mut game = Game::with_deck(abc_deck(), 5, default_prizes());
    game.update(Msg::Start);
    game.update(Msg::Tick);
    game.update(Msg::Pause);
    game.update(Msg::Start);
    assert_eq!(current_name(&game), Some("a".to_string()));
    assert_eq!(game.remaining_time, 5);
}

#[test]
fn controls_follow_the_state() {
    let mut game = Game::with_deck(abc_deck(), 5, default_prizes());
    let c = game.controls();
    assert!(c.start_enabled && !c.show_pause && !c.show_resume);
    game.update(Msg::Start);
    let c = game.controls();
    assert!(!c.start_enabled && c.show_pause && !c.show_resume);
    game.update(Msg::Pause);
    let c = game.controls();
    assert!(c.start_enabled && !c.show_pause && c.show_resume);
}

#[test]
fn render_card_mirrors_the_current_card() {
    let mut game = Game::with_deck(abc_deck(), 5, default_prizes());
    assert!(game.render_card().is_none());
    game.update(Msg::Start);
    let shown = game.render_card().unwrap();
    assert_eq!(shown.name, "a");
    assert_eq!(shown.image, "/imgs/a.jpg");
}

#[test]
fn default_prize_labels() {
    let prizes = default_prizes();
    assert_eq!(
        prizes,
        vec!["Cuatro Esquinas", "Chorro", "Centro", "¡Loteria!"]
    );
}

#[test]
fn create_shuffles_the_full_catalog() {
    let game = Game::create(5, default_prizes());
    assert_eq!(game.deck.len(), 54);
    assert_eq!(current_name(&game), None);
    assert!(!game.is_running);
    assert!(!game.timer_pending);
    assert_eq!(game.remaining_time, 5);
    assert_eq!(game.winners.len(), 4);
    for winner in &game.winners {
        assert_eq!(winner.name, "");
    }

    let mut shuffled: Vec<(String, String)> =
        game.deck.iter().map(|c| (c.name.clone(), c.image.clone())).collect();
    let mut unshuffled: Vec<(String, String)> =
        create_deck().iter().map(|c| (c.name.clone(), c.image.clone())).collect();
    shuffled.sort();
    unshuffled.sort();
    assert_eq!(shuffled, unshuffled);
}
