//! The card model and the deck: the 52-card build, the uniform shuffle, and
//! the draw-one operation.
use rand::Rng;
use vstd::prelude::*;

verus! {

use vstd::pervasive::VecAdditionalExecFns;
use vstd::seq_lib::to_multiset_update;
use vstd::seq_lib::to_multiset_contains;

/// One of the four French suits. Suits have no ordering; only equality matters.
#[derive(Debug, Clone, Copy, PartialEq, Eq, Structural)]
pub enum Suit {
    Spades,
    Hearts,
    Diamonds,
    Clubs,
}

/// A card's rank, from Ace down to King. Each rank carries an implicit base
/// point value: Ace counts 11 before any softening, face cards count 10, and
/// numeral ranks count their face value.
#[derive(Debug, Clone, Copy, PartialEq, Eq, Structural)]
pub enum Rank {
    Ace,
    Two,
    Three,
    Four,
    Five,
    Six,
    Seven,
    Eight,
    Nine,
    Ten,
    Jack,
    Queen,
    King,
}

/// An immutable (suit, rank) pair. Equality is structural.
#[derive(Debug, Clone, Copy, PartialEq, Eq, Structural)]
pub struct Card {
    pub suit: Suit,
    pub rank: Rank,
}

/// The suit that stands at position `i` of the fixed suit order used when a
/// deck is built.
pub open spec fn suit_at(i: int) -> Suit {
    if i == 0 {
        Suit::Spades
    } else if i == 1 {
        Suit::Hearts
    } else if i == 2 {
        Suit::Diamonds
    } else {
        Suit::Clubs
    }
}

/// The rank that stands at position `i` of the fixed rank order used when a
/// deck is built.
pub open spec fn rank_at(i: int) -> Rank {
    if i == 0 {
        Rank::Ace
    } else if i == 1 {
        Rank::Two
    } else if i == 2 {
        Rank::Three
    } else if i == 3 {
        Rank::Four
    } else if i == 4 {
        Rank::Five
    } else if i == 5 {
        Rank::Six
    } else if i == 6 {
        Rank::Seven
    } else if i == 7 {
        Rank::Eight
    } else if i == 8 {
        Rank::Nine
    } else if i == 9 {
        Rank::Ten
    } else if i == 10 {
        Rank::Jack
    } else if i == 11 {
        Rank::Queen
    } else {
        Rank::King
    }
}

/// The full 52-card deck in its deterministic pre-shuffle order: suit-major,
/// rank-minor, so position `i` holds suit `i / 13` and rank `i % 13`.
pub open spec fn fresh_deck() -> Seq<Card> {
    Seq::new(52, |i: int| Card { suit: suit_at(i / 13), rank: rank_at(i % 13) })
}

/// The position of a suit in the fixed suit order used when a deck is built.
pub open spec fn suit_index(s: Suit) -> int {
    match s {
        Suit::Spades => 0,
        Suit::Hearts => 1,
        Suit::Diamonds => 2,
        Suit::Clubs => 3,
    }
}

/// The position of a rank in the fixed rank order used when a deck is built.
pub open spec fn rank_index(r: Rank) -> int {
    match r {
        Rank::Ace => 0,
        Rank::Two => 1,
        Rank::Three => 2,
        Rank::Four => 3,
        Rank::Five => 4,
        Rank::Six => 5,
        Rank::Seven => 6,
        Rank::Eight => 7,
        Rank::Nine => 8,
        Rank::Ten => 9,
        Rank::Jack => 10,
        Rank::Queen => 11,
        Rank::King => 12,
    }
}

/// Deck invariant law: a freshly built deck holds exactly 52 pairwise
/// distinct cards, and every (suit, rank) combination is among them.
pub proof fn lemma_fresh_deck_complete()
    ensures
        fresh_deck().len() == 52,
        forall|i: int, j: int|
            0 <= i < j < 52 ==> fresh_deck()[i] != fresh_deck()[j],
        forall|c: Card| fresh_deck().contains(c),
{
    assert forall|i: int, j: int|
        0 <= i < j < 52 implies fresh_deck()[i] != fresh_deck()[j] by {
        assert(i == 13 * (i / 13) + i % 13 && j == 13 * (j / 13) + j % 13) by (nonlinear_arith)
            requires
                0 <= i < 52,
                0 <= j < 52,
        ;
        if i / 13 == j / 13 && i % 13 == j % 13 {
            assert(i == j);
        } else if i / 13 != j / 13 {
            assert(suit_at(i / 13) != suit_at(j / 13));
        } else {
            assert(rank_at(i % 13) != rank_at(j % 13));
        }
    }
    assert forall|c: Card| fresh_deck().contains(c) by {
        let k = 13 * suit_index(c.suit) + rank_index(c.rank);
        assert(k / 13 == suit_index(c.suit) && k % 13 == rank_index(c.rank))
            by (nonlinear_arith)
            requires
                0 <= suit_index(c.suit) < 4,
                0 <= rank_index(c.rank) < 13,
                k == 13 * suit_index(c.suit) + rank_index(c.rank),
        ;
        assert(suit_at(suit_index(c.suit)) == c.suit);
        assert(rank_at(rank_index(c.rank)) == c.rank);
        assert(fresh_deck()[k] == c);
    }
}

/// An ordered sequence of cards. Immediately after construction it holds all
/// 52 (suit, rank) combinations; shuffling permutes it, and drawing removes
/// cards from the end, one at a time.
#[derive(Debug)]
pub struct Deck {
    pub cards: Vec<Card>,
}

impl View for Deck {
    type V = Seq<Card>;

    open spec fn view(&self) -> Seq<Card> {
        self.cards@
    }
}

/// The executable counterpart of [`suit_at`].
fn suit_of(i: usize) -> (s: Suit)
    ensures
        s == suit_at(i as int),
{
    if i == 0 {
        Suit::Spades
    } else if i == 1 {
        Suit::Hearts
    } else if i == 2 {
        Suit::Diamonds
    } else {
        Suit::Clubs
    }
}

/// The executable counterpart of [`rank_at`].
fn rank_of(i: usize) -> (r: Rank)
    ensures
        r == rank_at(i as int),
{
    if i == 0 {
        Rank::Ace
    } else if i == 1 {
        Rank::Two
    } else if i == 2 {
        Rank::Three
    } else if i == 3 {
        Rank::Four
    } else if i == 4 {
        Rank::Five
    } else if i == 5 {
        Rank::Six
    } else if i == 6 {
        Rank::Seven
    } else if i == 7 {
        Rank::Eight
    } else if i == 8 {
        Rank::Nine
    } else if i == 9 {
        Rank::Ten
    } else if i == 10 {
        Rank::Jack
    } else if i == 11 {
        Rank::Queen
    } else {
        Rank::King
    }
}

impl Deck {
    /// Builds the full deck: the Cartesian product of all suits and ranks, in
    /// the fixed suit-major, rank-minor order.
    pub fn new() -> (deck: Deck)
        ensures
            deck@ == fresh_deck(),
    {
        let mut cards: Vec<Card> = Vec::new();
        let mut s: usize = 0;
        while s < 4
            invariant
                s <= 4,
                cards@.len() == 13 * s,
                forall|i: int|
                    0 <= i < cards@.len() ==> cards@[i] == fresh_deck()[i],
            decreases 4 - s,
        {
            let mut r: usize = 0;
            while r < 13
                invariant
                    s < 4,
                    r <= 13,
                    cards@.len() == 13 * s + r,
                    forall|i: int|
                        0 <= i < cards@.len() ==> cards@[i] == fresh_deck()[i],
                decreases 13 - r,
            {
                cards.push(Card { suit: suit_of(s), rank: rank_of(r) });
                proof {
                    let n = cards@.len() - 1;
                    assert(n / 13 == s && n % 13 == r) by (nonlinear_arith)
                        requires
                            n == 13 * s + r,
                            0 <= r < 13,
                            0 <= s < 4,
                    ;
                }
                r = r + 1;
            }
            s = s + 1;
        }
        assert(cards@ =~= fresh_deck());
        Deck { cards }
    }

    /// Performs an in-place uniform Fisher-Yates shuffle: for each index `i`
    /// from the front, the card at `i` is exchanged with the card at a random
    /// index drawn from `0..=i`. The permutation never creates, destroys or
    /// duplicates a card: the multiset of cards is exactly preserved.
    pub fn shuffle(&mut self)
        ensures
            final(self)@.len() == old(self)@.len(),
            final(self)@.to_multiset() == old(self)@.to_multiset(),
    {
        let n = self.cards.len();
        let mut i: usize = 0;
        while i < n
            invariant
                n == self.cards@.len(),
                self.cards@.to_multiset() == old(self).cards@.to_multiset(),
            decreases n - i,
        {
            let j = random_index_upto(i);
            let ghost s = self.cards@;
            let a = self.cards[i];
            let b = self.cards[j];
            self.cards.set(i, b);
            self.cards.set(j, a);
            proof {
                lemma_swap_preserves_multiset(s, i as int, j as int);
            }
            i = i + 1;
        }
        proof {
            vstd::seq_lib::to_multiset_len(self.cards@);
            vstd::seq_lib::to_multiset_len(old(self).cards@);
        }
    }

    /// Removes and returns the card at the top (the end) of the deck. With no
    /// cards left it fails with `DeckExhausted` and leaves the deck unchanged.
    pub fn draw(&mut self) -> (r: Result<Card, DeckError>)
        ensures
            old(self)@.len() == 0 ==> r == Err::<Card, DeckError>(DeckError::DeckExhausted)
                && final(self)@ == old(self)@,
            old(self)@.len() > 0 ==> r == Ok::<Card, DeckError>(old(self)@.last())
                && final(self)@ == old(self)@.drop_last(),
    {
        match self.cards.pop() {
            Some(c) => Ok(c),
            None => Err(DeckError::DeckExhausted),
        }
    }
}

/// The error a deck reports when a draw is attempted with no cards left.
#[derive(Debug, Clone, Copy, PartialEq, Eq, Structural)]
pub enum DeckError {
    DeckExhausted,
}

/// Exchanging the elements at two positions of a sequence leaves its multiset
/// of elements unchanged.
proof fn lemma_swap_preserves_multiset(s: Seq<Card>, i: int, j: int)
    requires
        0 <= i < s.len(),
        0 <= j < s.len(),
    ensures
        s.update(i, s[j]).update(j, s[i]).to_multiset() == s.to_multiset(),
{
    let a = s[i];
    let b = s[j];
    let t = s.update(i, b);
    to_multiset_update(s, i, b);
    to_multiset_update(t, j, a);
    to_multiset_contains(s, a);
    to_multiset_contains(s, b);
    assert(s.contains(a));
    assert(s.contains(b));
    assert(t[j] == b);
    assert(t.update(j, a).to_multiset() =~= s.to_multiset());
}

/// Relies on `rand::thread_rng` and `rand::Rng::gen_range` over the
/// never-empty inclusive range `0..=bound`: the sampled value lies within
/// that range.
#[verifier::external_body]
fn random_index_upto(bound: usize) -> (j: usize)
    ensures
        j <= bound,
{
    let mut rng = rand::thread_rng();
    rng.gen_range(0..=bound)
}

} // verus!
