use blackjack::deck::{Card, Deck, DeckError, Rank, Suit};
use blackjack::game::{check_win, dealer_play, handle_distribution, settle, Outcome};
use blackjack::player::{format_card, BetError, Player};

fn card(rank: Rank) -> Card {
    Card { suit: Suit::Diamonds, rank }
}

fn revealed_dealer(ranks: &[Rank]) -> Player {
    Player {
        name: "Dealer".to_string(),
        hand: ranks.iter().map(|r| card(*r)).collect(),
        tokens: None,
        is_dealer: true,
        hidden_card: None,
        is_hidden_card_revealed: true,
    }
}

#[test]
fn hidden_card_lifecycle() {
    let mut dealer = Player::new("Dealer".to_string(), None, true);
    let first = card(Rank::Ace);
    let second = card(Rank::Seven);
    dealer.add_card(first);
    dealer.add_card(second);
    // Exactly one card is hidden (the first), exactly one visible.
    assert_eq!(dealer.hidden_card, Some(first));
    assert_eq!(dealer.hand, vec![second]);
    assert!(!dealer.is_hidden_card_revealed);
    // The reveal moves the hidden card into the visible hand.
    assert_eq!(dealer.reveal_dealer_card(), Some(first));
    assert_eq!(dealer.hidden_card, None);
    assert_eq!(dealer.hand, vec![second, first]);
    assert!(dealer.is_hidden_card_revealed);
    // A second reveal is a no-op.
    assert_eq!(dealer.reveal_dealer_card(), None);
    assert_eq!(dealer.hand, vec![second, first]);
    // After the reveal no later card is ever hidden again.
    dealer.add_card(card(Rank::Two));
    assert_eq!(dealer.hidden_card, None);
    assert_eq!(dealer.hand.len(), 3);
}

#[test]
fn player_cards_are_never_hidden() {
    let mut player = Player::new("Ada".to_string(), Some(100), false);
    player.add_card(card(Rank::Five));
    player.add_card(card(Rank::Jack));
    assert_eq!(player.hidden_card, None);
    assert_eq!(player.hand.len(), 2);
}

#[test]
fn distribution_deals_two_each_and_hides_dealer_first() {
    let mut player = Player::new("Ada".to_string(), Some(100), false);
    let mut dealer = Player::new("Dealer".to_string(), None, true);
    let mut deck = Deck::new();
    let top: Vec<Card> = deck.cards[48..52].to_vec();
    handle_distribution(&mut player, &mut dealer, &mut deck);
    assert_eq!(deck.cards.len(), 48);
    // Cards leave from the top, alternating player, dealer, player, dealer.
    assert_eq!(player.hand, vec![top[3], top[1]]);
    assert_eq!(dealer.hidden_card, Some(top[2]));
    assert_eq!(dealer.hand, vec![top[0]]);
}

#[test]
fn dealer_stands_on_soft_eighteen() {
    let mut dealer = revealed_dealer(&[Rank::Ace, Rank::Seven]);
    let mut deck = Deck::new();
    let r = dealer_play(&mut dealer, &mut deck);
    assert_eq!(r, Ok(()));
    // 18 >= 17: the dealer drew nothing.
    assert_eq!(dealer.hand.len(), 2);
    assert_eq!(deck.cards.len(), 52);
}

#[test]
fn dealer_draws_until_seventeen() {
    let mut dealer = revealed_dealer(&[Rank::Two, Rank::Four]);
    // The deck hands out, from the top: 5, then 10, reaching 21.
    let mut deck = Deck {
        cards: vec![card(Rank::Ten), card(Rank::Five)],
    };
    let r = dealer_play(&mut dealer, &mut deck);
    assert_eq!(r, Ok(()));
    assert_eq!(dealer.hand, vec![card(Rank::Two), card(Rank::Four), card(Rank::Five), card(Rank::Ten)]);
    assert_eq!(deck.cards.len(), 0);
}

#[test]
fn dealer_stops_on_bust() {
    let mut dealer = revealed_dealer(&[Rank::Ten, Rank::Six]);
    // 16, draws a 9 to 25: the bust ends the draw with cards still left.
    let mut deck = Deck {
        cards: vec![card(Rank::Three), card(Rank::Nine)],
    };
    let r = dealer_play(&mut dealer, &mut deck);
    assert_eq!(r, Ok(()));
    assert_eq!(dealer.hand.len(), 3);
    assert_eq!(deck.cards.len(), 1);
}

#[test]
fn dealer_play_reports_deck_exhausted() {
    let mut dealer = revealed_dealer(&[Rank::Two, Rank::Four]);
    let mut deck = Deck { cards: Vec::new() };
    let r = dealer_play(&mut dealer, &mut deck);
    assert_eq!(r, Err(DeckError::DeckExhausted));
    assert_eq!(dealer.hand.len(), 2);
}

#[test]
fn settlement_table_for_bet_ten() {
    assert_eq!(settle(22, 20, 10), (Outcome::PlayerBust, 0));
    assert_eq!(settle(20, 22, 10), (Outcome::DealerBust, 20));
    assert_eq!(settle(19, 19, 10), (Outcome::Push, 10));
    assert_eq!(settle(20, 18, 10), (Outcome::PlayerWin, 20));
    assert_eq!(settle(18, 20, 10), (Outcome::DealerWin, 0));
}

#[test]
fn check_win_pays_the_player() {
    let mut player = Player {
        name: "Ada".to_string(),
        hand: vec![card(Rank::Jack), card(Rank::Ten)],
        tokens: Some(90),
        is_dealer: false,
        hidden_card: None,
        is_hidden_card_revealed: false,
    };
    let dealer = revealed_dealer(&[Rank::Ten, Rank::Eight]);
    let outcome = check_win(&mut player, &dealer, 10);
    assert_eq!(outcome, Outcome::PlayerWin);
    assert_eq!(player.tokens, Some(110));
}

#[test]
fn check_win_on_push_refunds_the_bet() {
    let mut player = Player {
        name: "Ada".to_string(),
        hand: vec![card(Rank::Ten), card(Rank::Nine)],
        tokens: Some(90),
        is_dealer: false,
        hidden_card: None,
        is_hidden_card_revealed: false,
    };
    let dealer = revealed_dealer(&[Rank::Jack, Rank::Nine]);
    let outcome = check_win(&mut player, &dealer, 10);
    assert_eq!(outcome, Outcome::Push);
    assert_eq!(player.tokens, Some(100));
}

#[test]
fn place_bet_deducts_within_balance() {
    let mut player = Player::new("Ada".to_string(), Some(100), false);
    assert_eq!(player.place_bet(30), Ok(()));
    assert_eq!(player.tokens, Some(70));
}

#[test]
fn place_bet_rejects_zero_and_overdraw() {
    let mut player = Player::new("Ada".to_string(), Some(100), false);
    assert_eq!(player.place_bet(0), Err(BetError::InvalidBet));
    assert_eq!(player.place_bet(101), Err(BetError::InvalidBet));
    assert_eq!(player.tokens, Some(100));
}

#[test]
fn place_bet_needs_a_balance() {
    let mut dealer = Player::new("Dealer".to_string(), None, true);
    assert_eq!(dealer.place_bet(10), Err(BetError::NoBalance));
    assert_eq!(dealer.tokens, None);
}

#[test]
fn cards_format_readably() {
    let ace = Card { suit: Suit::Spades, rank: Rank::Ace };
    let four = Card { suit: Suit::Clubs, rank: Rank::Four };
    let ten = Card { suit: Suit::Hearts, rank: Rank::Ten };
    assert_eq!(format_card(&ace), "Ace of Spades");
    assert_eq!(format_card(&four), "4 of Clubs");
    assert_eq!(format_card(&ten), "10 of Hearts");
}

#[test]
fn visible_score_skips_the_hidden_card() {
    let mut dealer = Player::new("Dealer".to_string(), None, true);
    dealer.add_card(card(Rank::King));
    dealer.add_card(card(Rank::Seven));
    // The king is hidden: only the seven counts.
    assert_eq!(dealer.visible_score(), 7);
    dealer.reveal_dealer_card();
    assert_eq!(dealer.visible_score(), 17);
}
