//! The pure rules of a round: hand scoring with the greedy soft-to-hard ace
//! adjustment, the initial deal, the dealer's fixed hit policy, and round
//! settlement with its payout arithmetic.
use vstd::prelude::*;

verus! {

use crate::deck::Card;
use crate::deck::Deck;
use crate::deck::DeckError;
use crate::deck::Rank;
use crate::player::Player;
use crate::player::PlayerView;
use crate::player::spec_add_card;

/// The base point value a rank contributes before any ace softening: an Ace
/// counts 11, face cards count 10, numeral ranks count their face value.
pub open spec fn base_points(r: Rank) -> int {
    match r {
        Rank::Ace => 11,
        Rank::Two => 2,
        Rank::Three => 3,
        Rank::Four => 4,
        Rank::Five => 5,
        Rank::Six => 6,
        Rank::Seven => 7,
        Rank::Eight => 8,
        Rank::Nine => 9,
        Rank::Ten => 10,
        Rank::Jack => 10,
        Rank::Queen => 10,
        Rank::King => 10,
    }
}

/// The sum of the base point values of a hand.
pub open spec fn base_sum(s: Seq<Card>) -> int
    decreases s.len(),
{
    if s.len() == 0 {
        0
    } else {
        base_sum(s.drop_last()) + base_points(s.last().rank)
    }
}

/// How many cards of a hand are aces (each contributing 11 before softening).
pub open spec fn ace_count(s: Seq<Card>) -> int
    decreases s.len(),
{
    if s.len() == 0 {
        0
    } else {
        ace_count(s.drop_last()) + if s.last().rank is Ace {
            1int
        } else {
            0int
        }
    }
}

/// The greedy softening step: while the total exceeds 21 and an ace still
/// counts 11, one ace's contribution is converted from 11 to 1.
pub open spec fn soften(total: int, aces: int) -> int
    decreases aces,
{
    if total > 21 && aces > 0 {
        soften(total - 10, aces - 1)
    } else {
        total
    }
}

/// The score of a hand: the base sum with as many aces softened as needed to
/// get at or under 21. The result may still exceed 21 - that is a bust,
/// detected by the caller.
pub open spec fn score_spec(s: Seq<Card>) -> int {
    soften(base_sum(s), ace_count(s))
}

/// The base sum and ace count of a hand are bounded by its length.
proof fn lemma_hand_bounds(s: Seq<Card>)
    ensures
        0 <= base_sum(s) <= 11 * s.len(),
        0 <= ace_count(s) <= s.len(),
    decreases s.len(),
{
    if s.len() > 0 {
        lemma_hand_bounds(s.drop_last());
    }
}

/// Calculates the score of a hand: base values summed (Ace 11, faces 10,
/// numerals their face value), then aces softened one at a time while the
/// total exceeds 21.
pub fn calculate_score(hand: &Vec<Card>) -> (score: u32)
    requires
        11 * hand@.len() <= u32::MAX as int,
    ensures
        score == score_spec(hand@),
{
    let n = hand.len();
    let mut score: u32 = 0;
    let mut aces: u32 = 0;
    let mut k: usize = 0;
    while k < n
        invariant
            n == hand@.len(),
            11 * hand@.len() <= u32::MAX as int,
            k <= n,
            score == base_sum(hand@.take(k as int)),
            aces == ace_count(hand@.take(k as int)),
        decreases n - k,
    {
        proof {
            lemma_hand_bounds(hand@.take(k as int));
            assert(hand@.take(k + 1).drop_last() =~= hand@.take(k as int));
            assert(hand@.take(k + 1).last() == hand@[k as int]);
        }
        let points: u32 = match hand[k].rank {
            Rank::Ace => 11,
            Rank::Two => 2,
            Rank::Three => 3,
            Rank::Four => 4,
            Rank::Five => 5,
            Rank::Six => 6,
            Rank::Seven => 7,
            Rank::Eight => 8,
            Rank::Nine => 9,
            Rank::Ten => 10,
            Rank::Jack => 10,
            Rank::Queen => 10,
            Rank::King => 10,
        };
        if matches!(hand[k].rank, Rank::Ace) {
            aces = aces + 1;
        }
        score = score + points;
        k = k + 1;
    }
    proof {
        assert(hand@.take(n as int) =~= hand@);
    }
    while score > 21 && aces > 0
        invariant
            soften(score as int, aces as int) == score_spec(hand@),
            score <= u32::MAX,
        decreases aces,
    {
        score = score - 10;
        aces = aces - 1;
    }
    score
}

/// Deals the opening cards, alternating player and dealer: the player's two
/// cards go to the visible hand, the dealer's first card is stored hidden and
/// its second is visible.
pub fn handle_distribution(player: &mut Player, dealer: &mut Player, deck: &mut Deck)
    requires
        old(deck)@.len() >= 4,
    ensures
        ({
            let d = old(deck)@;
            let n = d.len() as int;
            &&& final(deck)@ == d.take(n - 4)
            &&& final(player)@ == spec_add_card(spec_add_card(old(player)@, d[n - 1]), d[n - 3])
            &&& final(dealer)@ == spec_add_card(spec_add_card(old(dealer)@, d[n - 2]), d[n - 4])
        }),
{
    let ghost d = deck@;
    let c1 = deck.draw().unwrap();
    player.add_card(c1);
    let c2 = deck.draw().unwrap();
    dealer.add_card(c2);
    let c3 = deck.draw().unwrap();
    player.add_card(c3);
    let c4 = deck.draw().unwrap();
    dealer.add_card(c4);
    proof {
        let n = d.len() as int;
        assert(deck@ =~= d.take(n - 4));
        assert(c2 == d[n - 2] && c3 == d[n - 3] && c4 == d[n - 4]);
    }
}

/// The dealer's fixed hit policy, as a relation from the hand and the deck at
/// the moment the dealer starts drawing to both at the moment it stops: while
/// the score is strictly below 17 and the deck still holds a card, the top
/// card moves into the hand; the dealer stands as soon as the score reaches
/// 17 or more (a bust, being above 21, also stops the draw).
pub open spec fn dealer_draws(hand: Seq<Card>, deck: Seq<Card>) -> (Seq<Card>, Seq<Card>)
    decreases deck.len(),
{
    if score_spec(hand) >= 17 || deck.len() == 0 {
        (hand, deck)
    } else {
        dealer_draws(hand.push(deck.last()), deck.drop_last())
    }
}

/// Dealer policy law: when the dealer stops drawing, either its score has
/// reached 17 or the deck is exhausted; and a dealer whose score already
/// stands at 17 or more draws nothing at all.
pub proof fn lemma_dealer_policy(hand: Seq<Card>, deck: Seq<Card>)
    ensures
        score_spec(dealer_draws(hand, deck).0) >= 17 || dealer_draws(hand, deck).1.len() == 0,
        score_spec(hand) >= 17 ==> dealer_draws(hand, deck) == (hand, deck),
    decreases deck.len(),
{
    if score_spec(hand) < 17 && deck.len() > 0 {
        lemma_dealer_policy(hand.push(deck.last()), deck.drop_last());
    }
}

/// Runs the dealer's turn after the reveal: draws cards one at a time while
/// the score is strictly below 17, per [`dealer_draws`]. Fails with
/// `DeckExhausted` only when the deck runs out before the score reaches 17.
pub fn dealer_play(dealer: &mut Player, deck: &mut Deck) -> (r: Result<(), DeckError>)
    requires
        old(dealer)@.hidden_card is None,
        old(dealer)@.is_dealer ==> old(dealer)@.revealed,
        11 * (old(dealer)@.hand.len() + old(deck)@.len()) <= u32::MAX as int,
    ensures
        ({
            let drawn = dealer_draws(old(dealer)@.hand, old(deck)@);
            &&& final(dealer)@ == (PlayerView { hand: drawn.0, ..old(dealer)@ })
            &&& final(deck)@ == drawn.1
            &&& r == (if score_spec(drawn.0) >= 17 {
                Ok::<(), DeckError>(())
            } else {
                Err::<(), DeckError>(DeckError::DeckExhausted)
            })
        }),
{
    let mut score: u32 = calculate_score(&dealer.hand);
    while score < 17
        invariant
            score == score_spec(dealer@.hand),
            dealer@.hidden_card is None,
            dealer@.hidden_card == old(dealer)@.hidden_card,
            dealer@.is_dealer ==> dealer@.revealed,
            dealer@.name == old(dealer)@.name,
            dealer@.tokens == old(dealer)@.tokens,
            dealer@.is_dealer == old(dealer)@.is_dealer,
            dealer@.revealed == old(dealer)@.revealed,
            11 * (dealer@.hand.len() + deck@.len()) <= u32::MAX as int,
            dealer_draws(dealer@.hand, deck@) == dealer_draws(old(dealer)@.hand, old(deck)@),
        decreases deck@.len(),
    {
        let ghost h = dealer@.hand;
        let ghost d = deck@;
        match deck.draw() {
            Ok(c) => {
                dealer.add_card(c);
                proof {
                    assert(dealer@.hand == h.push(d.last()));
                    assert(dealer_draws(h, d) == dealer_draws(h.push(d.last()), d.drop_last()));
                }
                score = calculate_score(&dealer.hand);
            },
            Err(e) => {
                proof {
                    assert(d.len() == 0);
                    assert(dealer_draws(h, d) == (h, d));
                }
                return Err(e);
            },
        }
    }
    proof {
        assert(dealer_draws(dealer@.hand, deck@) == (dealer@.hand, deck@));
    }
    Ok(())
}

/// How a round ended, from the player's side.
#[derive(Debug, Clone, Copy, PartialEq, Eq, Structural)]
pub enum Outcome {
    PlayerBust,
    DealerBust,
    Push,
    PlayerWin,
    DealerWin,
}

/// Classifies a finished round from the two final scores: a player bust loses
/// unconditionally, then a dealer bust wins, then equal scores push, and
/// otherwise the higher score wins.
pub open spec fn settle_outcome(player_score: int, dealer_score: int) -> Outcome {
    if player_score > 21 {
        Outcome::PlayerBust
    } else if dealer_score > 21 {
        Outcome::DealerBust
    } else if player_score == dealer_score {
        Outcome::Push
    } else if player_score > dealer_score {
        Outcome::PlayerWin
    } else {
        Outcome::DealerWin
    }
}

/// The tokens paid back to the player for a finished round: twice the bet for
/// a win (the bet back plus as much again), the bet alone for a push, and
/// nothing for a loss - the bet was already deducted when it was placed.
pub open spec fn settle_delta(player_score: int, dealer_score: int, bet: int) -> int {
    match settle_outcome(player_score, dealer_score) {
        Outcome::PlayerBust => 0,
        Outcome::DealerBust => 2 * bet,
        Outcome::Push => bet,
        Outcome::PlayerWin => 2 * bet,
        Outcome::DealerWin => 0,
    }
}

/// Settles a finished round: compares the two final scores and the bet and
/// returns the outcome classification with the token delta owed the player.
pub fn settle(player_score: u32, dealer_score: u32, bet: u32) -> (r: (Outcome, u32))
    requires
        2 * bet <= u32::MAX as int,
    ensures
        r.0 == settle_outcome(player_score as int, dealer_score as int),
        r.1 == settle_delta(player_score as int, dealer_score as int, bet as int),
{
    if player_score > 21 {
        (Outcome::PlayerBust, 0)
    } else if dealer_score > 21 {
        (Outcome::DealerBust, 2 * bet)
    } else if player_score == dealer_score {
        (Outcome::Push, bet)
    } else if player_score > dealer_score {
        (Outcome::PlayerWin, 2 * bet)
    } else {
        (Outcome::DealerWin, 0)
    }
}

/// Concludes the round: scores both final hands, settles, and pays the token
/// delta into the player's balance.
pub fn check_win(player: &mut Player, dealer: &Player, bet: u32) -> (outcome: Outcome)
    requires
        old(player)@.tokens matches Some(t) && t + 2 * bet <= u32::MAX as int,
        11 * old(player)@.hand.len() <= u32::MAX as int,
        11 * dealer@.hand.len() <= u32::MAX as int,
    ensures
        ({
            let p = score_spec(old(player)@.hand);
            let d = score_spec(dealer@.hand);
            &&& outcome == settle_outcome(p, d)
            &&& old(player)@.tokens matches Some(t) ==> final(player)@ == (PlayerView {
                tokens: Some((t + settle_delta(p, d, bet as int)) as u32),
                ..old(player)@
            })
        }),
{
    let player_score = calculate_score(&player.hand);
    let dealer_score = calculate_score(&dealer.hand);
    let (outcome, delta) = settle(player_score, dealer_score, bet);
    match player.tokens {
        Some(t) => {
            player.tokens = Some(t + delta);
        },
        None => {},
    }
    outcome
}

} // verus!
