//! Validators for caller-supplied instruction arguments.
//!
//! Every validator is total: it returns `Ok(())` or the one failure kind that
//! the first violated rule maps to, and touches nothing.

use vstd::prelude::*;
use vstd::utf8::encode_utf8;
use crate::address::Address;
use crate::errors::WagerError;

verus! {

/// The answer of std's `char::is_alphanumeric` for `c`: whether Unicode classes
/// `c` as alphabetic or numeric. Only the name is given; nothing here says what
/// the answer is for a particular character.
pub uninterp spec fn is_alphanumeric(c: char) -> bool;

/// Specifies std's `char::is_alphanumeric`, without proof: its answer depends
/// on the character alone, and is [`is_alphanumeric`] of that character.
pub assume_specification[ char::is_alphanumeric ](c: char) -> (b: bool)
    ensures
        b == is_alphanumeric(c),
;

/// Longest session identifier accepted, counted in bytes of its UTF-8 encoding.
pub const MAX_SESSION_ID_LEN: usize = 32;

/// Largest bet accepted, in the smallest token unit.
pub const MAX_BET_AMOUNT: u64 = 1_000_000_000_000;

/// Length of a session identifier: the number of bytes of its UTF-8 encoding.
pub open spec fn session_id_len(id: Seq<char>) -> nat {
    encode_utf8(id).len()
}

/// Whether `c` may stand in a session identifier: a letter, a digit, `-` or `_`.
pub open spec fn session_id_char_ok(c: char) -> bool {
    is_alphanumeric(c) || c == '-' || c == '_'
}

/// Decides whether `c` may stand in a session identifier, given whether `c` is
/// alphanumeric: it may if it is, or if it is `-` or `_`.
pub fn session_id_char_allowed(c: char, alphanumeric: bool) -> (allowed: bool)
    ensures
        allowed == (alphanumeric || c == '-' || c == '_'),
{
    alphanumeric || c == '-' || c == '_'
}

/// Whether every character of `id` may stand in a session identifier.
pub open spec fn session_id_chars_ok(id: Seq<char>) -> bool {
    forall|i: int| 0 <= i < id.len() ==> session_id_char_ok(#[trigger] id[i])
}

/// A well-formed session identifier: between 1 and [`MAX_SESSION_ID_LEN`] bytes
/// long, made of letters, digits, `-` and `_` only.
pub open spec fn valid_session_id(id: Seq<char>) -> bool {
    &&& 1 <= session_id_len(id) <= MAX_SESSION_ID_LEN
    &&& session_id_chars_ok(id)
}

/// What [`validate_session_id`] answers for `id`. The rules are tried in this
/// order and the first one broken decides: empty, too long, bad character.
pub open spec fn session_id_verdict(id: Seq<char>) -> Result<(), WagerError> {
    if id.len() == 0 {
        Err(WagerError::InvalidSessionId)
    } else if session_id_len(id) > MAX_SESSION_ID_LEN {
        Err(WagerError::SessionIdTooLong)
    } else if !session_id_chars_ok(id) {
        Err(WagerError::InvalidSessionIdFormat)
    } else {
        Ok(())
    }
}

/// An identifier has no bytes exactly when it has no characters.
pub proof fn lemma_session_id_len_zero(id: Seq<char>)
    ensures
        session_id_len(id) == 0 <==> id.len() == 0,
{
}

/// A session identifier is accepted exactly when it is well formed.
pub proof fn lemma_session_id_accepted_iff_valid(id: Seq<char>)
    ensures
        session_id_verdict(id) is Ok <==> valid_session_id(id),
{
    lemma_session_id_len_zero(id);
}

/// Checks a session identifier: non-empty, at most [`MAX_SESSION_ID_LEN`] bytes,
/// and made of letters, digits, `-` and `_` only.
pub fn validate_session_id(session_id: &str) -> (res: Result<(), WagerError>)
    ensures
        res == session_id_verdict(session_id@),
        res is Ok <==> valid_session_id(session_id@),
{
    broadcast use {vstd::string::group_string_axioms, vstd::slice::group_slice_axioms};

    proof {
        lemma_session_id_accepted_iff_valid(session_id@);
    }
    if session_id.is_empty() {
        return Err(WagerError::InvalidSessionId);
    }
    if session_id.as_bytes().len() > MAX_SESSION_ID_LEN {
        return Err(WagerError::SessionIdTooLong);
    }
    for c in it: session_id.chars()
        invariant
            it.seq() == session_id@,
            session_id@.len() > 0,
            session_id_len(session_id@) <= MAX_SESSION_ID_LEN,
            forall|i: int| 0 <= i < it.index() ==> session_id_char_ok(#[trigger] session_id@[i]),
    {
        if !session_id_char_allowed(c, c.is_alphanumeric()) {
            return Err(WagerError::InvalidSessionIdFormat);
        }
    }
    Ok(())
}

/// Whether `team` names one of the two teams.
pub open spec fn valid_team_number(team: u8) -> bool {
    team == 0 || team == 1
}

/// Checks a team selector: 0 or 1.
pub fn validate_team_number(team: u8) -> (res: Result<(), WagerError>)
    ensures
        valid_team_number(team) ==> res == Ok::<(), WagerError>(()),
        !valid_team_number(team) ==> res == Err::<(), WagerError>(WagerError::InvalidTeamSelection),
{
    if team == 0 || team == 1 {
        Ok(())
    } else {
        Err(WagerError::InvalidTeamSelection)
    }
}

/// Whether `amount` is an acceptable bet: positive and no larger than [`MAX_BET_AMOUNT`].
pub open spec fn valid_bet_amount(amount: u64) -> bool {
    1 <= amount <= MAX_BET_AMOUNT
}

/// Checks a bet: more than zero and at most [`MAX_BET_AMOUNT`]. Both bounds give
/// the same failure kind.
pub fn validate_bet_amount(amount: u64) -> (res: Result<(), WagerError>)
    ensures
        valid_bet_amount(amount) ==> res == Ok::<(), WagerError>(()),
        !valid_bet_amount(amount) ==> res == Err::<(), WagerError>(WagerError::InvalidBetAmount),
{
    if amount == 0 {
        return Err(WagerError::InvalidBetAmount);
    }
    if amount > MAX_BET_AMOUNT {
        return Err(WagerError::InvalidBetAmount);
    }
    Ok(())
}

/// Checks a player address: anything but the sentinel address.
pub fn validate_player_address(player: &Address) -> (res: Result<(), WagerError>)
    ensures
        !player.is_default() ==> res == Ok::<(), WagerError>(()),
        player.is_default() ==> res == Err::<(), WagerError>(WagerError::InvalidPlayer),
{
    if *player == Address::default() {
        Err(WagerError::InvalidPlayer)
    } else {
        Ok(())
    }
}

/// Checks that no more than `max_count` remaining accounts were passed.
pub fn validate_remaining_accounts_count(count: usize, max_count: usize) -> (res: Result<
    (),
    WagerError,
>)
    ensures
        count <= max_count ==> res == Ok::<(), WagerError>(()),
        count > max_count ==> res == Err::<(), WagerError>(
            WagerError::TooManyRemainingAccounts,
        ),
{
    if count <= max_count {
        Ok(())
    } else {
        Err(WagerError::TooManyRemainingAccounts)
    }
}

/// What [`validate_kill_data`] answers. The rules are tried in this order and
/// the first one broken decides: killer and victim differ, their teams differ,
/// the killer is a real player, the victim is a real player.
pub open spec fn kill_data_verdict(
    killer: Address,
    victim: Address,
    killer_team: u8,
    victim_team: u8,
) -> Result<(), WagerError> {
    if killer@ == victim@ {
        Err(WagerError::InvalidKill)
    } else if killer_team == victim_team {
        Err(WagerError::InvalidKill)
    } else if killer.is_default() {
        Err(WagerError::InvalidPlayer)
    } else if victim.is_default() {
        Err(WagerError::InvalidPlayer)
    } else {
        Ok(())
    }
}

/// A kill that can be recorded: two different players on different teams,
/// neither of them the sentinel address.
pub open spec fn valid_kill_data(
    killer: Address,
    victim: Address,
    killer_team: u8,
    victim_team: u8,
) -> bool {
    &&& killer@ != victim@
    &&& killer_team != victim_team
    &&& !killer.is_default()
    &&& !victim.is_default()
}

/// Checks a kill record: killer and victim are different players on different
/// teams, and each address passes [`validate_player_address`], whose failure is
/// handed on unchanged.
pub fn validate_kill_data(
    killer: &Address,
    victim: &Address,
    killer_team: u8,
    victim_team: u8,
) -> (res: Result<(), WagerError>)
    ensures
        res == kill_data_verdict(*killer, *victim, killer_team, victim_team),
        res is Ok <==> valid_kill_data(*killer, *victim, killer_team, victim_team),
{
    if *killer == *victim {
        return Err(WagerError::InvalidKill);
    }
    if killer_team == victim_team {
        return Err(WagerError::InvalidKill);
    }
    match validate_player_address(killer) {
        Ok(()) => {},
        Err(e) => {
            return Err(e);
        },
    }
    validate_player_address(victim)
}

/// A kill record is accepted exactly when it is valid. One whose killer is the
/// victim is refused as `InvalidKill` even when the teams differ, and one whose
/// teams are equal is refused as `InvalidKill` even when the players differ.
pub proof fn lemma_kill_data_rules(
    killer: Address,
    victim: Address,
    killer_team: u8,
    victim_team: u8,
)
    ensures
        kill_data_verdict(killer, victim, killer_team, victim_team) is Ok <==> valid_kill_data(
            killer,
            victim,
            killer_team,
            victim_team,
        ),
        killer@ == victim@ ==> kill_data_verdict(killer, victim, killer_team, victim_team) == Err::<
            (),
            WagerError,
        >(WagerError::InvalidKill),
        killer_team == victim_team ==> kill_data_verdict(killer, victim, killer_team, victim_team)
            == Err::<(), WagerError>(WagerError::InvalidKill),
{
}

} // verus!
