//! The game controller: a state machine over the current card, the rotating
//! deck, the running flag, the countdown and the winner slots.
//!
//! Every transition is pinned by the spec function [`step`]: the exec
//! [`Game::update`] returns a state whose model is exactly `step` of the old
//! model and the message. The recurring browser timer is modeled by the
//! `timer_pending` flag together with ghost arm/disarm counters; the shell
//! that owns the real timer keeps it in sync with `timer_pending`.

use vstd::prelude::*;
use std::collections::VecDeque;
use crate::card::{Card, CardModel, card_models, catalog, create_deck};

verus! {

broadcast use vstd::string::group_string_axioms;

/// One prize slot: a fixed label and the user-entered winner name.
#[derive(PartialEq, Debug)]
pub struct Winner {
    pub prize: String,
    pub name: String,
}

/// The mathematical value of a `Winner`.
pub ghost struct WinnerModel {
    pub prize: Seq<char>,
    pub name: Seq<char>,
}

impl View for Winner {
    type V = WinnerModel;

    open spec fn view(&self) -> WinnerModel {
        WinnerModel { prize: self.prize@, name: self.name@ }
    }
}

/// The models of a sequence of winner slots.
pub open spec fn winner_models(s: Seq<Winner>) -> Seq<WinnerModel> {
    s.map_values(|w: Winner| w@)
}

/// The commands and signals the controller reacts to: the user controls,
/// the recurring timer signal, and a winner-name edit.
pub enum Msg {
    Start,
    Pause,
    Resume,
    Cancel,
    NextCard,
    Tick,
    AddWinner(usize, String),
}

/// The mathematical value of a `Msg`.
pub ghost enum MsgModel {
    Start,
    Pause,
    Resume,
    Cancel,
    NextCard,
    Tick,
    AddWinner(int, Seq<char>),
}

impl View for Msg {
    type V = MsgModel;

    open spec fn view(&self) -> MsgModel {
        match self {
            Msg::Start => MsgModel::Start,
            Msg::Pause => MsgModel::Pause,
            Msg::Resume => MsgModel::Resume,
            Msg::Cancel => MsgModel::Cancel,
            Msg::NextCard => MsgModel::NextCard,
            Msg::Tick => MsgModel::Tick,
            Msg::AddWinner(index, name) => MsgModel::AddWinner(*index as int, name@),
        }
    }
}

/// The full game state. The real recurring timer lives outside; here it is
/// the `timer_pending` flag, and the ghost counters record how often a timer
/// was armed and disarmed, so that "at most one timer is ever pending" is a
/// provable invariant ([`GameModel::wf`]).
pub struct Game {
    pub current_card: Option<Card>,
    pub deck: VecDeque<Card>,
    pub is_running: bool,
    pub timer_pending: bool,
    pub display_duration: u32,
    pub remaining_time: u32,
    pub winners: Vec<Winner>,
    pub timer_arms: Ghost<nat>,
    pub timer_disarms: Ghost<nat>,
}

/// The mathematical value of the game state.
#[verifier::ext_equal]
pub ghost struct GameModel {
    pub current_card: Option<CardModel>,
    pub deck: Seq<CardModel>,
    pub is_running: bool,
    pub timer_pending: bool,
    pub display_duration: nat,
    pub remaining_time: nat,
    pub winners: Seq<WinnerModel>,
    pub timer_arms: nat,
    pub timer_disarms: nat,
}

impl View for Game {
    type V = GameModel;

    open spec fn view(&self) -> GameModel {
        GameModel {
            current_card: match self.current_card {
                Some(c) => Some(c@),
                None => None,
            },
            deck: card_models(self.deck@),
            is_running: self.is_running,
            timer_pending: self.timer_pending,
            display_duration: self.display_duration as nat,
            remaining_time: self.remaining_time as nat,
            winners: winner_models(self.winners@),
            timer_arms: self.timer_arms@,
            timer_disarms: self.timer_disarms@,
        }
    }
}

impl GameModel {
    /// Well-formedness: the countdown never exceeds the configured duration,
    /// and the timer accounting is sound — arms minus disarms is 0 or 1,
    /// it is 1 exactly when a timer is pending, and a timer is pending
    /// exactly while the game runs.
    pub open spec fn wf(self) -> bool {
        &&& self.remaining_time <= self.display_duration
        &&& self.timer_disarms <= self.timer_arms
        &&& self.timer_arms <= self.timer_disarms + 1
        &&& (self.timer_pending <==> self.timer_arms == self.timer_disarms + 1)
        &&& (self.timer_pending <==> self.is_running)
    }
}

/// One round-robin rotation: the front card moves to the back.
pub open spec fn rotate(s: Seq<CardModel>) -> Seq<CardModel> {
    if s.len() > 0 {
        s.subrange(1, s.len() as int).push(s[0])
    } else {
        s
    }
}

/// Drawing the next card: the front of the deck becomes the current card and
/// is pushed to the back. On an empty deck this is a no-op.
pub open spec fn draw_card(s: GameModel) -> GameModel {
    if s.deck.len() > 0 {
        GameModel { current_card: Some(s.deck[0]), deck: rotate(s.deck), ..s }
    } else {
        s
    }
}

/// Arming the recurring timer; any pending timer is disarmed first, so at
/// most one is ever outstanding.
pub open spec fn arm_timer(s: GameModel) -> GameModel {
    GameModel {
        timer_pending: true,
        timer_arms: s.timer_arms + 1,
        timer_disarms: s.timer_disarms + if s.timer_pending { 1nat } else { 0nat },
        ..s
    }
}

/// Disarming the timer; disarming an already-disarmed timer is a no-op.
pub open spec fn disarm_timer(s: GameModel) -> GameModel {
    GameModel {
        timer_pending: false,
        timer_disarms: s.timer_disarms + if s.timer_pending { 1nat } else { 0nat },
        ..s
    }
}

/// The transition relation of the controller: the state after handling one
/// message. This is the single definition every exec transition is held to.
pub open spec fn step(s: GameModel, msg: MsgModel) -> GameModel {
    match msg {
        MsgModel::Start => {
            let drawn = if s.current_card is None {
                draw_card(s)
            } else {
                s
            };
            arm_timer(
                GameModel { is_running: true, remaining_time: s.display_duration, ..drawn },
            )
        },
        MsgModel::Pause => disarm_timer(GameModel { is_running: false, ..s }),
        MsgModel::Resume => arm_timer(GameModel { is_running: true, ..s }),
        MsgModel::Cancel => disarm_timer(
            GameModel {
                is_running: false,
                current_card: None,
                remaining_time: s.display_duration,
                ..s
            },
        ),
        MsgModel::NextCard => GameModel {
            remaining_time: s.display_duration,
            ..draw_card(s)
        },
        MsgModel::Tick => {
            if s.is_running {
                let counted = if s.remaining_time > 0 {
                    GameModel { remaining_time: (s.remaining_time - 1) as nat, ..s }
                } else {
                    GameModel { remaining_time: s.display_duration, ..draw_card(s) }
                };
                arm_timer(counted)
            } else {
                s
            }
        },
        MsgModel::AddWinner(index, name) => {
            if 0 <= index < s.winners.len() {
                GameModel {
                    winners: s.winners.update(
                        index,
                        WinnerModel { prize: s.winners[index].prize, name },
                    ),
                    ..s
                }
            } else {
                s
            }
        },
    }
}

/// Relies on rand's `SliceRandom::shuffle` (reached through
/// `VecDeque::make_contiguous`): it reorders the cards in place purely by
/// swaps, so the result holds exactly the same cards, in some order.
#[verifier::external_body]
fn shuffle_deck(deck: &mut VecDeque<Card>)
    ensures
        final(deck)@.to_multiset() == old(deck)@.to_multiset(),
        card_models(final(deck)@).to_multiset() == card_models(old(deck)@).to_multiset(),
{
    rand::seq::SliceRandom::shuffle(deck.make_contiguous(), &mut rand::thread_rng());
}

/// The prize labels of a standard session, in display order.
pub fn default_prizes() -> (prizes: Vec<String>)
    ensures
        prizes@.len() == 4,
        prizes@[0]@ == "Cuatro Esquinas"@,
        prizes@[1]@ == "Chorro"@,
        prizes@[2]@ == "Centro"@,
        prizes@[3]@ == "¡Loteria!"@,
{
    let mut prizes: Vec<String> = Vec::new();
    prizes.push("Cuatro Esquinas".to_string());
    prizes.push("Chorro".to_string());
    prizes.push("Centro".to_string());
    prizes.push("¡Loteria!".to_string());
    prizes
}

/// What the control buttons show: a pure projection of the state.
pub struct Controls {
    pub start_enabled: bool,
    pub show_pause: bool,
    pub show_resume: bool,
}

impl Game {
    /// A fresh session over a given deck: no current card, not running, no
    /// timer pending, countdown at the full duration, one empty-named winner
    /// slot per prize label.
    pub fn with_deck(deck: VecDeque<Card>, display_duration: u32, prizes: Vec<String>) -> (g:
        Game)
        ensures
            g@.deck == card_models(deck@),
            g@.current_card is None,
            !g@.is_running,
            !g@.timer_pending,
            g@.timer_arms == 0,
            g@.timer_disarms == 0,
            g@.display_duration == display_duration,
            g@.remaining_time == display_duration,
            g@.winners.len() == prizes@.len(),
            forall|j: int|
                0 <= j < prizes@.len() ==> g@.winners[j] == (WinnerModel {
                    prize: prizes@[j]@,
                    name: Seq::<char>::empty(),
                }),
            g@.wf(),
    {
        let mut winners: Vec<Winner> = Vec::new();
        let mut i: usize = 0;
        while i < prizes.len()
            invariant
                i <= prizes@.len(),
                winners@.len() == i,
                forall|j: int|
                    0 <= j < i ==> winner_models(winners@)[j] == (WinnerModel {
                        prize: prizes@[j]@,
                        name: Seq::<char>::empty(),
                    }),
            decreases prizes@.len() - i,
        {
            let ghost pre = winners@;
            winners.push(Winner { prize: prizes[i].clone(), name: String::new() });
            proof {
                assert(winner_models(winners@) =~= winner_models(pre).push(
                    WinnerModel { prize: prizes@[i as int]@, name: Seq::<char>::empty() },
                ));
            }
            i = i + 1;
        }
        Game {
            current_card: None,
            deck,
            is_running: false,
            timer_pending: false,
            display_duration,
            remaining_time: display_duration,
            winners,
            timer_arms: Ghost(0nat),
            timer_disarms: Ghost(0nat),
        }
    }

    /// A fresh session over the full catalog, shuffled once: the deck holds
    /// exactly the catalog's cards, in some order.
    pub fn create(display_duration: u32, prizes: Vec<String>) -> (g: Game)
        ensures
            g@.deck.to_multiset() == catalog().to_multiset(),
            g@.deck.len() == catalog().len(),
            g@.current_card is None,
            !g@.is_running,
            !g@.timer_pending,
            g@.timer_arms == 0,
            g@.timer_disarms == 0,
            g@.display_duration == display_duration,
            g@.remaining_time == display_duration,
            g@.winners.len() == prizes@.len(),
            forall|j: int|
                0 <= j < prizes@.len() ==> g@.winners[j] == (WinnerModel {
                    prize: prizes@[j]@,
                    name: Seq::<char>::empty(),
                }),
            g@.wf(),
    {
        let mut deck = create_deck();
        shuffle_deck(&mut deck);
        proof {
            broadcast use vstd::seq_lib::group_to_multiset_ensures;

            assert(card_models(deck@).to_multiset().len() == catalog().to_multiset().len());
        }
        Game::with_deck(deck, display_duration, prizes)
    }

    /// Rotates the deck: the front card becomes current and moves to the
    /// back. On an empty deck, a no-op.
    fn select_next_card(&mut self)
        ensures
            final(self)@ == draw_card(old(self)@),
    {
        if let Some(card) = self.deck.pop_front() {
            self.current_card = Some(card.clone());
            self.deck.push_back(card);
            proof {
                assert(card_models(self.deck@) =~= rotate(card_models(old(self).deck@)));
                assert(self@ =~= draw_card(old(self)@));
            }
        }
    }

    /// Arms the recurring one-second timer (the shell owns the real one);
    /// any pending timer is disarmed first.
    fn schedule_tick(&mut self)
        ensures
            final(self)@ == arm_timer(old(self)@),
    {
        self.timer_disarms = Ghost(
            self.timer_disarms@ + if self.timer_pending { 1nat } else { 0nat },
        );
        self.timer_pending = true;
        self.timer_arms = Ghost(self.timer_arms@ + 1);
        proof {
            assert(self@ =~= arm_timer(old(self)@));
        }
    }

    /// Disarms the timer; disarming an already-disarmed timer is a no-op.
    fn clear_timer(&mut self)
        ensures
            final(self)@ == disarm_timer(old(self)@),
    {
        self.timer_disarms = Ghost(
            self.timer_disarms@ + if self.timer_pending { 1nat } else { 0nat },
        );
        self.timer_pending = false;
        proof {
            assert(self@ =~= disarm_timer(old(self)@));
        }
    }

    /// Handles one message: the new state is exactly `step` of the old one.
    /// Always asks for a re-render.
    pub fn update(&mut self, msg: Msg) -> (render: bool)
        ensures
            final(self)@ == step(old(self)@, msg@),
            render,
    {
        match msg {
            Msg::Start => {
                self.is_running = true;
                if self.current_card.is_none() {
                    self.select_next_card();
                }
                self.remaining_time = self.display_duration;
                self.schedule_tick();
                proof {
                    assert(self@ =~= step(old(self)@, MsgModel::Start));
                }
            },
            Msg::Pause => {
                self.is_running = false;
                self.clear_timer();
                proof {
                    assert(self@ =~= step(old(self)@, MsgModel::Pause));
                }
            },
            Msg::Resume => {
                self.is_running = true;
                self.schedule_tick();
                proof {
                    assert(self@ =~= step(old(self)@, MsgModel::Resume));
                }
            },
            Msg::Cancel => {
                self.is_running = false;
                self.clear_timer();
                self.current_card = None;
                self.remaining_time = self.display_duration;
                proof {
                    assert(self@ =~= step(old(self)@, MsgModel::Cancel));
                }
            },
            Msg::NextCard => {
                self.select_next_card();
                self.remaining_time = self.display_duration;
                proof {
                    assert(self@ =~= step(old(self)@, MsgModel::NextCard));
                }
            },
            Msg::Tick => {
                if self.is_running {
                    if self.remaining_time > 0 {
                        self.remaining_time = self.remaining_time - 1;
                    } else {
                        self.select_next_card();
                        self.remaining_time = self.display_duration;
                    }
                    self.schedule_tick();
                }
                proof {
                    assert(self@ =~= step(old(self)@, MsgModel::Tick));
                }
            },
            Msg::AddWinner(index, name) => {
                if index < self.winners.len() {
                    let prize = self.winners[index].prize.clone();
                    self.winners.set(index, Winner { prize, name });
                    proof {
                        assert(winner_models(self.winners@) =~= step(
                            old(self)@,
                            MsgModel::AddWinner(index as int, name@),
                        ).winners);
                    }
                }
                proof {
                    assert(self@ =~= step(old(self)@, msg@));
                }
            },
        }
        true
    }

    /// Which control buttons the presentation layer shows: Start is enabled
    /// while idle or paused, Pause shows while running, Resume shows while
    /// paused with a card on display.
    pub fn controls(&self) -> (c: Controls)
        ensures
            c.start_enabled == !self@.is_running,
            c.show_pause == self@.is_running,
            c.show_resume == (!self@.is_running && self@.current_card is Some),
    {
        Controls {
            start_enabled: !self.is_running,
            show_pause: self.is_running,
            show_resume: !self.is_running && self.current_card.is_some(),
        }
    }

    /// The card on display, if any: what the presentation layer renders.
    pub fn render_card(&self) -> (r: Option<&Card>)
        ensures
            match r {
                Some(c) => self@.current_card == Some(c@),
                None => self@.current_card is None,
            },
    {
        self.current_card.as_ref()
    }
}

} // verus!
