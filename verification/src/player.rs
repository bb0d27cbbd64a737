//! A participant in a round: a name, a hand, an optional token balance, a
//! role, and - for the dealer - the hidden-card slot with its revealed flag.
use vstd::prelude::*;

verus! {

use vstd::string::StringExecFns;
use crate::deck::Card;
use crate::deck::Rank;
use crate::deck::Suit;
use crate::game::score_spec;
use crate::game::calculate_score;

/// A participant: the human player (carrying a token balance) or the dealer
/// (carrying the hidden-card slot). The hidden card, while present, is *not*
/// part of the visible hand; revealing moves it there.
#[derive(Debug)]
pub struct Player {
    pub name: String,
    pub hand: Vec<Card>,
    pub tokens: Option<u32>,
    pub is_dealer: bool,
    pub hidden_card: Option<Card>,
    pub is_hidden_card_revealed: bool,
}

/// The mathematical model of a participant, over which the contracts and the
/// state-machine transitions are stated.
pub ghost struct PlayerView {
    pub name: Seq<char>,
    pub hand: Seq<Card>,
    pub tokens: Option<u32>,
    pub is_dealer: bool,
    pub hidden_card: Option<Card>,
    pub revealed: bool,
}

impl View for Player {
    type V = PlayerView;

    open spec fn view(&self) -> PlayerView {
        PlayerView {
            name: self.name@,
            hand: self.hand@,
            tokens: self.tokens,
            is_dealer: self.is_dealer,
            hidden_card: self.hidden_card,
            revealed: self.is_hidden_card_revealed,
        }
    }
}

/// What receiving one card does to a participant: a dealer whose hidden slot
/// is still empty and who has not yet revealed stores the card in the hidden
/// slot; everyone else appends it to the visible hand.
pub open spec fn spec_add_card(p: PlayerView, card: Card) -> PlayerView {
    if p.is_dealer && p.hidden_card is None && !p.revealed {
        PlayerView { hidden_card: Some(card), ..p }
    } else {
        PlayerView { hand: p.hand.push(card), ..p }
    }
}

/// What revealing does to a participant: a dealer holding a hidden card moves
/// it into the visible hand and sets the revealed flag, so that no later card
/// can ever be mis-classified as hidden; in any other state nothing changes.
pub open spec fn spec_reveal(p: PlayerView) -> PlayerView {
    match p.hidden_card {
        Some(c) => if p.is_dealer {
            PlayerView { hand: p.hand.push(c), hidden_card: None, revealed: true, ..p }
        } else {
            p
        },
        None => p,
    }
}

impl Player {
    /// Creates a participant with an empty hand and an empty hidden slot.
    pub fn new(name: String, tokens: Option<u32>, is_dealer: bool) -> (p: Player)
        ensures
            p@ == (PlayerView {
                name: name@,
                hand: Seq::<Card>::empty(),
                tokens: tokens,
                is_dealer: is_dealer,
                hidden_card: None,
                revealed: false,
            }),
    {
        let p = Player {
            name,
            hand: Vec::new(),
            tokens,
            is_dealer,
            hidden_card: None,
            is_hidden_card_revealed: false,
        };
        proof {
            assert(p@.hand =~= Seq::<Card>::empty());
        }
        p
    }

    /// Hands one card to the participant, following the hidden-card state
    /// machine: a dealer's first card of the round is stored hidden, every
    /// other card joins the visible hand.
    pub fn add_card(&mut self, card: Card)
        ensures
            final(self)@ == spec_add_card(old(self)@, card),
    {
        if self.is_dealer {
            if self.hidden_card.is_none() && !self.is_hidden_card_revealed {
                self.hidden_card = Some(card);
            } else {
                self.hand.push(card);
            }
        } else {
            self.hand.push(card);
        }
    }

    /// Moves the dealer's hidden card into the visible hand and reports it so
    /// the caller can announce it. A guarded no-op, returning `None`, for a
    /// participant that is not a dealer holding a hidden card.
    pub fn reveal_dealer_card(&mut self) -> (revealed: Option<Card>)
        ensures
            final(self)@ == spec_reveal(old(self)@),
            revealed == (if old(self)@.is_dealer {
                old(self)@.hidden_card
            } else {
                None::<Card>
            }),
    {
        if self.is_dealer {
            match self.hidden_card {
                Some(card) => {
                    self.hidden_card = None;
                    self.hand.push(card);
                    self.is_hidden_card_revealed = true;
                    Some(card)
                },
                None => None,
            }
        } else {
            None
        }
    }

    /// Scores the participant's visible hand. The hidden card, while one is
    /// held, sits outside the hand, so before a reveal it never counts; after
    /// the reveal it has joined the hand and does.
    pub fn visible_score(&self) -> (score: u32)
        requires
            11 * self@.hand.len() <= u32::MAX as int,
        ensures
            score == score_spec(self@.hand),
    {
        calculate_score(&self.hand)
    }

    /// Validates and places a bet: with a token balance present and
    /// `0 < amount <= balance`, the bet is deducted from the balance;
    /// otherwise nothing changes and the reason is reported.
    pub fn place_bet(&mut self, amount: u32) -> (r: Result<(), BetError>)
        ensures
            match old(self)@.tokens {
                None => r == Err::<(), BetError>(BetError::NoBalance) && final(self)@ == old(
                    self,
                )@,
                Some(t) => if amount == 0 || amount > t {
                    r == Err::<(), BetError>(BetError::InvalidBet) && final(self)@ == old(self)@
                } else {
                    r == Ok::<(), BetError>(()) && final(self)@ == (PlayerView {
                        tokens: Some((t - amount) as u32),
                        ..old(self)@
                    })
                },
            },
    {
        match self.tokens {
            None => Err(BetError::NoBalance),
            Some(t) => {
                if amount == 0 || amount > t {
                    Err(BetError::InvalidBet)
                } else {
                    self.tokens = Some(t - amount);
                    Ok(())
                }
            },
        }
    }
}

/// Why a bet was refused: the participant keeps no token balance at all (the
/// dealer), or the amount is zero or exceeds the current balance.
#[derive(Debug, Clone, Copy, PartialEq, Eq, Structural)]
pub enum BetError {
    NoBalance,
    InvalidBet,
}

/// Hidden-card lifecycle law: after a fresh dealer is dealt two cards, the
/// first sits alone in the hidden slot and only the second is visible; a
/// reveal empties the slot and makes both cards visible; and a second reveal
/// changes nothing.
pub proof fn lemma_hidden_card_lifecycle(d: PlayerView, c1: Card, c2: Card)
    requires
        d.is_dealer,
        !d.revealed,
        d.hand.len() == 0,
        d.hidden_card is None,
    ensures
        ({
            let dealt = spec_add_card(spec_add_card(d, c1), c2);
            &&& dealt.hidden_card == Some(c1)
            &&& dealt.hand =~= seq![c2]
            &&& spec_reveal(dealt).hidden_card is None
            &&& spec_reveal(dealt).hand =~= seq![c2, c1]
            &&& spec_reveal(dealt).revealed
            &&& spec_reveal(spec_reveal(dealt)) == spec_reveal(dealt)
        }),
{
}

/// The display label of a suit.
pub open spec fn suit_label(s: Suit) -> Seq<char> {
    match s {
        Suit::Spades => "Spades"@,
        Suit::Hearts => "Hearts"@,
        Suit::Diamonds => "Diamonds"@,
        Suit::Clubs => "Clubs"@,
    }
}

/// The display label of a rank.
pub open spec fn rank_label(r: Rank) -> Seq<char> {
    match r {
        Rank::Ace => "Ace"@,
        Rank::Two => "2"@,
        Rank::Three => "3"@,
        Rank::Four => "4"@,
        Rank::Five => "5"@,
        Rank::Six => "6"@,
        Rank::Seven => "7"@,
        Rank::Eight => "8"@,
        Rank::Nine => "9"@,
        Rank::Ten => "10"@,
        Rank::Jack => "Jack"@,
        Rank::Queen => "Queen"@,
        Rank::King => "King"@,
    }
}

/// The one-line display text of a card: "<rank> of <suit>".
pub open spec fn card_label(c: Card) -> Seq<char> {
    rank_label(c.rank) + " of "@ + suit_label(c.suit)
}

/// The executable counterpart of [`suit_label`].
fn suit_name(s: &Suit) -> (r: &'static str)
    ensures
        r@ == suit_label(*s),
{
    match s {
        Suit::Spades => "Spades",
        Suit::Hearts => "Hearts",
        Suit::Diamonds => "Diamonds",
        Suit::Clubs => "Clubs",
    }
}

/// The executable counterpart of [`rank_label`].
fn rank_name(r: &Rank) -> (s: &'static str)
    ensures
        s@ == rank_label(*r),
{
    match r {
        Rank::Ace => "Ace",
        Rank::Two => "2",
        Rank::Three => "3",
        Rank::Four => "4",
        Rank::Five => "5",
        Rank::Six => "6",
        Rank::Seven => "7",
        Rank::Eight => "8",
        Rank::Nine => "9",
        Rank::Ten => "10",
        Rank::Jack => "Jack",
        Rank::Queen => "Queen",
        Rank::King => "King",
    }
}

/// Formats a card in a readable way, e.g. "4 of Spades".
pub fn format_card(card: &Card) -> (r: String)
    ensures
        r@ == card_label(*card),
{
    let mut out: String = String::from_str(rank_name(&card.rank));
    out.append(" of ");
    out.append(suit_name(&card.suit));
    out
}

} // verus!
