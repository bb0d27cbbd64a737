use blackjack::deck::{Card, Deck, DeckError, Rank, Suit};

#[test]
fn fresh_deck_has_fifty_two_unique_cards() {
    let deck = Deck::new();
    assert_eq!(deck.cards.len(), 52);
    for i in 0..deck.cards.len() {
        for j in 0..i {
            assert_ne!(deck.cards[i], deck.cards[j]);
        }
    }
}

#[test]
fn fresh_deck_is_suit_major_rank_minor() {
    let deck = Deck::new();
    assert_eq!(deck.cards[0], Card { suit: Suit::Spades, rank: Rank::Ace });
    assert_eq!(deck.cards[12], Card { suit: Suit::Spades, rank: Rank::King });
    assert_eq!(deck.cards[13], Card { suit: Suit::Hearts, rank: Rank::Ace });
    assert_eq!(deck.cards[51], Card { suit: Suit::Clubs, rank: Rank::King });
}

#[test]
fn shuffle_preserves_the_multiset_of_cards() {
    let reference = Deck::new();
    let mut deck = Deck::new();
    deck.shuffle();
    assert_eq!(deck.cards.len(), 52);
    // Every card of the unshuffled deck occurs exactly once after the
    // shuffle: none created, destroyed, or duplicated.
    for wanted in &reference.cards {
        let count = deck.cards.iter().filter(|c| *c == wanted).count();
        assert_eq!(count, 1);
    }
}

#[test]
fn draw_takes_from_the_top() {
    let mut deck = Deck {
        cards: vec![
            Card { suit: Suit::Hearts, rank: Rank::Two },
            Card { suit: Suit::Clubs, rank: Rank::Queen },
        ],
    };
    assert_eq!(deck.draw(), Ok(Card { suit: Suit::Clubs, rank: Rank::Queen }));
    assert_eq!(deck.draw(), Ok(Card { suit: Suit::Hearts, rank: Rank::Two }));
    assert_eq!(deck.cards.len(), 0);
}

#[test]
fn draw_from_empty_deck_fails_without_mutating() {
    let mut deck = Deck { cards: Vec::new() };
    assert_eq!(deck.draw(), Err(DeckError::DeckExhausted));
    assert_eq!(deck.cards.len(), 0);
    // Still exhausted, still unchanged.
    assert_eq!(deck.draw(), Err(DeckError::DeckExhausted));
    assert_eq!(deck.cards.len(), 0);
}
