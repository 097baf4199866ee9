//! The laws of the controller, proved once and for all over the transition
//! relation [`step`](crate::game::step): round-robin rotation of the deck,
//! countdown behaviour, pause/resume and cancel guarantees, isolation of
//! winner edits, and soundness of the timer accounting.

use vstd::prelude::*;
use crate::card::CardModel;
use crate::game::{GameModel, MsgModel, draw_card, rotate, step};

verus! {

/// The deck after `n` successive rotations.
pub open spec fn rotate_n(s: Seq<CardModel>, n: nat) -> Seq<CardModel>
    decreases n,
{
    if n == 0 {
        s
    } else {
        rotate(rotate_n(s, (n - 1) as nat))
    }
}

/// The cards shown by `n` successive draws from deck `s`, in order: the
/// `k`-th draw shows the front of the deck rotated `k` times.
pub open spec fn drawn_cards(s: Seq<CardModel>, n: nat) -> Seq<CardModel>
    decreases n,
{
    if n == 0 {
        Seq::empty()
    } else {
        drawn_cards(s, (n - 1) as nat).push(rotate_n(s, (n - 1) as nat)[0])
    }
}

/// `n` draws show `n` cards.
pub proof fn lemma_drawn_cards_len(s: Seq<CardModel>, n: nat)
    ensures
        drawn_cards(s, n).len() == n,
    decreases n,
{
    if n > 0 {
        lemma_drawn_cards_len(s, (n - 1) as nat);
    }
}

/// After `n` rotations the deck is its own tail of length `len - n` followed
/// by its first `n` cards: rotation never drops or duplicates a card.
pub proof fn lemma_rotate_n_splits(s: Seq<CardModel>, n: nat)
    requires
        n <= s.len(),
    ensures
        rotate_n(s, n) == s.subrange(n as int, s.len() as int) + s.subrange(0, n as int),
    decreases n,
{
    if n == 0 {
        assert(rotate_n(s, 0) =~= s.subrange(0, s.len() as int) + s.subrange(0, 0));
    } else {
        lemma_rotate_n_splits(s, (n - 1) as nat);
        let prev = rotate_n(s, (n - 1) as nat);
        assert(prev.len() == s.len());
        assert(prev[0] == s[n - 1]);
        assert(rotate(prev) =~= s.subrange(n as int, s.len() as int) + s.subrange(0, n as int));
    }
}

/// The first `n` draws show exactly the first `n` cards of the deck, in
/// deck order.
pub proof fn lemma_drawn_cards_prefix(s: Seq<CardModel>, n: nat)
    requires
        s.len() > 0,
        n <= s.len(),
    ensures
        drawn_cards(s, n) == s.subrange(0, n as int),
    decreases n,
{
    if n == 0 {
        assert(drawn_cards(s, 0) =~= s.subrange(0, 0));
    } else {
        lemma_drawn_cards_prefix(s, (n - 1) as nat);
        lemma_rotate_n_splits(s, (n - 1) as nat);
        assert(rotate_n(s, (n - 1) as nat)[0] == s[n - 1]);
        assert(drawn_cards(s, n) =~= s.subrange(0, n as int));
    }
}

/// Round-robin law: over a deck of `N` cards, `N` successive draws show
/// every card exactly once, in deck order; the deck is then back in its
/// original order; and the `N + 1`-th draw repeats the first card.
pub proof fn lemma_round_robin(s: Seq<CardModel>)
    requires
        s.len() > 0,
    ensures
        drawn_cards(s, s.len()) == s,
        drawn_cards(s, s.len()).to_multiset() == s.to_multiset(),
        rotate_n(s, s.len()) == s,
        drawn_cards(s, s.len() + 1)[s.len() as int] == s[0],
{
    lemma_drawn_cards_prefix(s, s.len());
    assert(s.subrange(0, s.len() as int) =~= s);
    lemma_rotate_n_splits(s, s.len());
    assert(s.subrange(s.len() as int, s.len() as int) + s.subrange(0, s.len() as int) =~= s);
    assert(drawn_cards(s, s.len() + 1) == drawn_cards(s, s.len()).push(
        rotate_n(s, s.len())[0],
    ));
}

/// The game state after `n` draw commands.
pub open spec fn draw_n(s: GameModel, n: nat) -> GameModel
    decreases n,
{
    if n == 0 {
        s
    } else {
        step(draw_n(s, (n - 1) as nat), MsgModel::NextCard)
    }
}

/// Draws acted out by the controller follow the rotation: after `n` draw
/// commands the deck is the original rotated `n` times, and the card on
/// display is the `n`-th drawn card.
pub proof fn lemma_game_draws(s: GameModel, n: nat)
    requires
        s.deck.len() > 0,
    ensures
        draw_n(s, n).deck == rotate_n(s.deck, n),
        draw_n(s, n).deck.len() == s.deck.len(),
        n > 0 ==> draw_n(s, n).current_card == Some(drawn_cards(s.deck, n)[n - 1]),
    decreases n,
{
    if n > 0 {
        lemma_game_draws(s, (n - 1) as nat);
        let prev = draw_n(s, (n - 1) as nat);
        assert(prev.deck == rotate_n(s.deck, (n - 1) as nat));
        assert(draw_n(s, n) == step(prev, MsgModel::NextCard));
        assert(draw_card(prev).deck == rotate(prev.deck));
        assert(draw_n(s, n).current_card == Some(rotate_n(s.deck, (n - 1) as nat)[0]));
        lemma_drawn_cards_len(s.deck, (n - 1) as nat);
        assert(drawn_cards(s.deck, n)[n - 1] == rotate_n(s.deck, (n - 1) as nat)[0]);
    }
}

/// Round-robin law at the game level: a full pass of `deck.len()` draw
/// commands shows every card of the deck exactly once, in deck order, and
/// leaves the deck in its original order; the next draw shows the first
/// card again.
pub proof fn lemma_game_round_robin(s: GameModel)
    requires
        s.deck.len() > 0,
    ensures
        draw_n(s, s.deck.len()).deck == s.deck,
        forall|k: int|
            1 <= k <= s.deck.len() ==> #[trigger] draw_n(s, k as nat).current_card == Some(
                s.deck[k - 1],
            ),
        draw_n(s, s.deck.len() + 1).current_card == Some(s.deck[0]),
{
    lemma_round_robin(s.deck);
    lemma_game_draws(s, s.deck.len());
    assert forall|k: int| 1 <= k <= s.deck.len() implies #[trigger] draw_n(s, k as nat)
        .current_card == Some(s.deck[k - 1]) by {
        lemma_game_draws(s, k as nat);
        lemma_drawn_cards_prefix(s.deck, k as nat);
    }
    lemma_game_draws(s, (s.deck.len() + 1) as nat);
    lemma_drawn_cards_prefix(s.deck, s.deck.len());
    assert(drawn_cards(s.deck, s.deck.len() + 1)[s.deck.len() as int] == rotate_n(
        s.deck,
        s.deck.len(),
    )[0]);
}

/// One rotation keeps exactly the same cards: the deck stays a permutation
/// of itself, never a subset.
pub proof fn lemma_rotate_multiset(s: Seq<CardModel>)
    ensures
        rotate(s).to_multiset() == s.to_multiset(),
        rotate(s).len() == s.len(),
{
    if s.len() > 0 {
        broadcast use vstd::multiset::group_multiset_axioms;

        let first = s.subrange(0, 1);
        let rest = s.subrange(1, s.len() as int);
        assert(s =~= first + rest);
        assert(rotate(s) =~= rest + first);
        vstd::seq_lib::lemma_multiset_commutative(first, rest);
        vstd::seq_lib::lemma_multiset_commutative(rest, first);
        assert(first.to_multiset().add(rest.to_multiset()) =~= rest.to_multiset().add(
            first.to_multiset(),
        ));
    }
}

/// No transition adds or removes cards, changes the configured duration, or
/// grows or shrinks the winner list.
pub proof fn lemma_step_frame(s: GameModel, msg: MsgModel)
    ensures
        step(s, msg).deck.to_multiset() == s.deck.to_multiset(),
        step(s, msg).deck.len() == s.deck.len(),
        step(s, msg).display_duration == s.display_duration,
        step(s, msg).winners.len() == s.winners.len(),
{
    lemma_rotate_multiset(s.deck);
}

/// Countdown law: while running, a tick at a positive countdown only
/// decrements it — card and deck stay put; a tick at zero draws the next
/// card and resets the countdown to the full duration. The countdown never
/// exceeds the duration, so it never wraps below zero.
pub proof fn lemma_tick_countdown(s: GameModel)
    requires
        s.wf(),
        s.is_running,
    ensures
        s.remaining_time > 0 ==> step(s, MsgModel::Tick).remaining_time == s.remaining_time
            - 1,
        s.remaining_time > 0 ==> step(s, MsgModel::Tick).current_card == s.current_card,
        s.remaining_time > 0 ==> step(s, MsgModel::Tick).deck == s.deck,
        s.remaining_time == 0 ==> step(s, MsgModel::Tick).remaining_time
            == s.display_duration,
        s.remaining_time == 0 && s.deck.len() > 0 ==> step(s, MsgModel::Tick).current_card
            == Some(s.deck[0]),
        step(s, MsgModel::Tick).remaining_time <= s.display_duration,
{
}

/// Pause then Resume, with no tick in between, leaves the countdown, the
/// current card, the deck and the winners exactly as they were, and the
/// game running again.
pub proof fn lemma_pause_resume(s: GameModel)
    ensures
        ({
            let t = step(step(s, MsgModel::Pause), MsgModel::Resume);
            &&& t.remaining_time == s.remaining_time
            &&& t.current_card == s.current_card
            &&& t.deck == s.deck
            &&& t.winners == s.winners
            &&& t.display_duration == s.display_duration
            &&& t.is_running
            &&& t.timer_pending
        }),
{
}

/// Cancel resets fully, from any state: no current card, not running, no
/// timer pending, countdown back at the full duration; deck and winners are
/// untouched.
pub proof fn lemma_cancel(s: GameModel)
    ensures
        step(s, MsgModel::Cancel).current_card is None,
        !step(s, MsgModel::Cancel).is_running,
        !step(s, MsgModel::Cancel).timer_pending,
        step(s, MsgModel::Cancel).remaining_time == s.display_duration,
        step(s, MsgModel::Cancel).deck == s.deck,
        step(s, MsgModel::Cancel).winners == s.winners,
{
}

/// A winner edit is isolated: with a valid index it renames that one slot
/// and nothing else; with an out-of-range index the whole state is
/// unchanged.
pub proof fn lemma_add_winner(s: GameModel, index: int, name: Seq<char>)
    ensures
        0 <= index < s.winners.len() ==> ({
            let t = step(s, MsgModel::AddWinner(index, name));
            &&& t.winners[index].name == name
            &&& t.winners[index].prize == s.winners[index].prize
            &&& t.winners.len() == s.winners.len()
            &&& (forall|j: int|
                0 <= j < s.winners.len() && j != index ==> t.winners[j] == s.winners[j])
            &&& t == (GameModel { winners: t.winners, ..s })
        }),
        !(0 <= index < s.winners.len()) ==> step(s, MsgModel::AddWinner(index, name)) == s,
{
}

/// Timer-accounting law: every transition preserves well-formedness, so in
/// particular at most one timer is ever pending (arms minus disarms stays 0
/// or 1, and is 1 exactly while the game runs).
pub proof fn lemma_step_wf(s: GameModel, msg: MsgModel)
    requires
        s.wf(),
    ensures
        step(s, msg).wf(),
        step(s, msg).timer_disarms <= step(s, msg).timer_arms,
        step(s, msg).timer_arms <= step(s, msg).timer_disarms + 1,
{
}

} // verus!
