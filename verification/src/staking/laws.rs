//! Laws that relate staking and unstaking.
use vstd::prelude::*;
use crate::staking::attributes::{
    elapsed_days, is_record_key, marked_staked, other_attributes, stake_outcome, staked_at_key, staked_key,
    staking_rewards, unstake_scan, with_stake_record, with_unstake_record,
};
use crate::staking::errors::StakingError;
use crate::staking::instructions::unstake_outcome;
use crate::staking::state::Config;
use crate::staking::timestamp::{i64_decimal, lemma_parse_formatted};

verus! {

/// Whether no attribute of `s` belongs to the staking record.
pub open spec fn free_of_record(s: Seq<(Seq<char>, Seq<char>)>) -> bool {
    forall|i: int| 0 <= i < s.len() ==> !is_record_key(#[trigger] s[i].0)
}

/// The asset's own attributes, as kept when staking from `existing`.
pub open spec fn own_attributes(existing: Option<Seq<(Seq<char>, Seq<char>)>>) -> Seq<(Seq<char>, Seq<char>)> {
    match existing {
        None => Seq::empty(),
        Some(s) => other_attributes(s),
    }
}

proof fn lemma_record_keys_differ()
    ensures
        staked_key() != staked_at_key(),
        "true"@ != "false"@,
{
    reveal_strlit("staked");
    reveal_strlit("staked_at");
    reveal_strlit("true");
    reveal_strlit("false");
    assert(staked_key().len() != staked_at_key().len());
    assert("true"@.len() != "false"@.len());
}

/// The attributes kept apart from the staking record hold no record key.
pub proof fn lemma_other_attributes_free(s: Seq<(Seq<char>, Seq<char>)>)
    ensures
        free_of_record(other_attributes(s)),
    decreases s.len(),
{
    if s.len() > 0 {
        lemma_other_attributes_free(s.drop_last());
    }
}

/// Reading a list free of the staking record keeps it whole and reads no
/// staking time.
proof fn lemma_free_scan(o: Seq<(Seq<char>, Seq<char>)>, now: i64, freeze_period: u32)
    requires
        free_of_record(o),
    ensures
        unstake_scan(o, now, freeze_period) == Ok::<(Seq<(Seq<char>, Seq<char>)>, i64), StakingError>((o, 0)),
        other_attributes(o) == o,
        !marked_staked(o),
    decreases o.len(),
{
    if o.len() > 0 {
        let p = o.drop_last();
        assert(free_of_record(p)) by {
            assert forall|i: int| 0 <= i < p.len() implies !is_record_key(#[trigger] p[i].0) by {
                assert(p[i] == o[i]);
            }
        }
        lemma_free_scan(p, now, freeze_period);
        assert(!is_record_key(o[o.len() - 1].0));
        assert(p.push(o.last()) =~= o);
    } else {
        assert(o =~= Seq::<(Seq<char>, Seq<char>)>::empty());
    }
}

/// Reading back the record that staking at `t` wrote: the asset's own
/// attributes and `t`, or the error of the `staked_at` attribute.
proof fn lemma_scan_stake_record(o: Seq<(Seq<char>, Seq<char>)>, t: i64, now: i64, freeze_period: u32)
    requires
        free_of_record(o),
    ensures
        unstake_scan(with_stake_record(o, t), now, freeze_period) == match elapsed_days(now, t) {
            None => Err(StakingError::InvalidTimestamp),
            Some(d) => if d >= freeze_period {
                Ok((o, t))
            } else {
                Err(StakingError::FreezePeriodNotElapsed)
            },
        },
{
    lemma_free_scan(o, now, freeze_period);
    lemma_record_keys_differ();
    lemma_parse_formatted(t);
    let s1 = o.push((staked_key(), "true"@));
    let s2 = with_stake_record(o, t);
    assert(s2.drop_last() =~= s1);
    assert(s1.drop_last() =~= o);
    assert(unstake_scan(s1, now, freeze_period) == Ok::<(Seq<(Seq<char>, Seq<char>)>, i64), StakingError>((o, 0)));
    assert(s2.last() == (staked_at_key(), i64_decimal(t)));
}

/// What staking from `existing` keeps is free of the staking record.
proof fn lemma_own_attributes_free(existing: Option<Seq<(Seq<char>, Seq<char>)>>)
    ensures
        free_of_record(own_attributes(existing)),
{
    match existing {
        None => {
            assert(own_attributes(existing) =~= Seq::<(Seq<char>, Seq<char>)>::empty());
        },
        Some(s) => lemma_other_attributes_free(s),
    }
}

/// Unstaking, once the freeze period has passed, an asset that staking at
/// `t` recorded gives back its own attributes, marked as not staked, and
/// pays the reward for the days since `t`.
pub proof fn lemma_stake_then_unstake(
    existing: Option<Seq<(Seq<char>, Seq<char>)>>,
    t: i64,
    now: i64,
    config: Config,
)
    requires
        stake_outcome(existing, t) is Ok,
        elapsed_days(now, t) matches Some(d) && d >= config.freeze_period,
    ensures
        unstake_outcome(Some(stake_outcome(existing, t)->Ok_0), now, config) == match staking_rewards(
            now,
            t,
            config.rewards_basis_points,
        ) {
            Ok(amount) => Ok((with_unstake_record(own_attributes(existing)), amount)),
            Err(e) => Err(e),
        },
{
    lemma_own_attributes_free(existing);
    lemma_scan_stake_record(own_attributes(existing), t, now, config.freeze_period);
}

/// Staking an asset that unstaking left behind records the stake after the
/// asset's own attributes.
pub proof fn lemma_unstake_then_stake(o: Seq<(Seq<char>, Seq<char>)>, t: i64)
    requires
        free_of_record(o),
    ensures
        stake_outcome(Some(with_unstake_record(o)), t) == Ok::<Seq<(Seq<char>, Seq<char>)>, StakingError>(
            with_stake_record(o, t),
        ),
{
    lemma_free_scan(o, 0, 0);
    lemma_record_keys_differ();
    let s1 = o.push((staked_key(), "false"@));
    let s2 = with_unstake_record(o);
    assert(s2.drop_last() =~= s1);
    assert(s1.drop_last() =~= o);
    assert(other_attributes(s1) == other_attributes(o));
    assert(other_attributes(s2) == other_attributes(s1));
    assert(!marked_staked(s2)) by {
        assert forall|i: int| 0 <= i < s2.len() implies !(s2[i].0 == staked_key() && s2[i].1 != "false"@) by {
            if i < o.len() {
                assert(s2[i] == o[i]);
                assert(!is_record_key(o[i].0));
            }
        }
    }
}

/// An asset that is staked cannot be staked again.
pub proof fn lemma_stake_twice_refused(o: Seq<(Seq<char>, Seq<char>)>, t: i64, later: i64)
    ensures
        stake_outcome(Some(with_stake_record(o, t)), later) == Err::<Seq<(Seq<char>, Seq<char>)>, StakingError>(
            StakingError::AlreadyStaked,
        ),
{
    lemma_record_keys_differ();
    let s2 = with_stake_record(o, t);
    assert(s2[o.len() as int] == (staked_key(), "true"@));
    assert(marked_staked(s2));
}

/// Unstaking an asset that staking at `t` recorded is refused with
/// `FreezePeriodNotElapsed` while fewer than the freeze period's whole days
/// have passed.
pub proof fn lemma_unstake_too_early(
    existing: Option<Seq<(Seq<char>, Seq<char>)>>,
    t: i64,
    now: i64,
    config: Config,
)
    requires
        stake_outcome(existing, t) is Ok,
        elapsed_days(now, t) matches Some(d) && d < config.freeze_period,
    ensures
        unstake_outcome(Some(stake_outcome(existing, t)->Ok_0), now, config) == Err::<
            (Seq<(Seq<char>, Seq<char>)>, u64),
            StakingError,
        >(StakingError::FreezePeriodNotElapsed),
{
    lemma_own_attributes_free(existing);
    lemma_scan_stake_record(own_attributes(existing), t, now, config.freeze_period);
}

/// An asset that unstaking left behind cannot be unstaked again: no reward
/// is paid twice for one stake.
pub proof fn lemma_unstake_twice_refused(o: Seq<(Seq<char>, Seq<char>)>, now: i64, config: Config)
    requires
        free_of_record(o),
    ensures
        unstake_outcome(Some(with_unstake_record(o)), now, config) == Err::<
            (Seq<(Seq<char>, Seq<char>)>, u64),
            StakingError,
        >(StakingError::NotStaked),
{
    lemma_free_scan(o, now, config.freeze_period);
    lemma_record_keys_differ();
    let s1 = o.push((staked_key(), "false"@));
    let s2 = with_unstake_record(o);
    assert(s2.drop_last() =~= s1);
    assert(s1.drop_last() =~= o);
    assert(s1.last() == (staked_key(), "false"@));
    assert(unstake_scan(s1, now, config.freeze_period) == Err::<(Seq<(Seq<char>, Seq<char>)>, i64), StakingError>(
        StakingError::NotStaked,
    ));
    assert(unstake_scan(s2, now, config.freeze_period) == Err::<(Seq<(Seq<char>, Seq<char>)>, i64), StakingError>(
        StakingError::NotStaked,
    ));
}

/// For a stake read back at `since`, the reward never decreases as time
/// goes on, as long as no day count is negative.
pub proof fn lemma_rewards_grow_with_time(now1: i64, now2: i64, since: i64, rate: u16)
    requires
        now1 <= now2,
        since <= now1,
        staking_rewards(now1, since, rate) is Ok,
        staking_rewards(now2, since, rate) is Ok,
    ensures
        staking_rewards(now1, since, rate)->Ok_0 <= staking_rewards(now2, since, rate)->Ok_0,
{
    let e1 = now1 - since;
    let e2 = now2 - since;
    assert(e1 / 86400 <= e2 / 86400) by (nonlinear_arith)
        requires
            0 <= e1 <= e2,
    ;
    let d1 = e1 / 86400;
    let d2 = e2 / 86400;
    assert(d1 * rate <= d2 * rate) by (nonlinear_arith)
        requires
            0 <= d1 <= d2,
            0 <= rate,
    ;
}

/// An unstake that reads the record through keeps exactly the asset's own
/// attributes, in their order.
pub proof fn lemma_unstake_keeps_own_attributes(s: Seq<(Seq<char>, Seq<char>)>, now: i64, freeze_period: u32)
    ensures
        unstake_scan(s, now, freeze_period) matches Ok((kept, _)) ==> kept == other_attributes(s),
    decreases s.len(),
{
    if s.len() > 0 {
        lemma_unstake_keeps_own_attributes(s.drop_last(), now, freeze_period);
    }
}

/// Two unstakes of the same attributes that both read the record through
/// keep the same attributes and read the same staking time, whenever they
/// run.
proof fn lemma_scan_ignores_time(s: Seq<(Seq<char>, Seq<char>)>, now1: i64, now2: i64, freeze_period: u32)
    requires
        unstake_scan(s, now1, freeze_period) is Ok,
        unstake_scan(s, now2, freeze_period) is Ok,
    ensures
        unstake_scan(s, now1, freeze_period) == unstake_scan(s, now2, freeze_period),
    decreases s.len(),
{
    if s.len() > 0 {
        lemma_scan_ignores_time(s.drop_last(), now1, now2, freeze_period);
    }
}

/// Whatever the asset's attributes, an asset that an unstake just left
/// behind cannot be unstaked again: no reward is paid twice for one stake.
pub proof fn lemma_unstake_then_unstake_refused(
    s: Seq<(Seq<char>, Seq<char>)>,
    now: i64,
    later: i64,
    config: Config,
    later_config: Config,
)
    requires
        unstake_outcome(Some(s), now, config) is Ok,
    ensures
        unstake_outcome(Some(unstake_outcome(Some(s), now, config)->Ok_0.0), later, later_config) == Err::<
            (Seq<(Seq<char>, Seq<char>)>, u64),
            StakingError,
        >(StakingError::NotStaked),
{
    lemma_unstake_keeps_own_attributes(s, now, config.freeze_period);
    lemma_other_attributes_free(s);
    lemma_unstake_twice_refused(other_attributes(s), later, later_config);
}

/// Whatever the asset's attributes, an asset that an unstake just left
/// behind can be staked again, its own attributes kept before the new
/// record.
pub proof fn lemma_unstake_then_restake(s: Seq<(Seq<char>, Seq<char>)>, now: i64, config: Config, t: i64)
    requires
        unstake_outcome(Some(s), now, config) is Ok,
    ensures
        stake_outcome(Some(unstake_outcome(Some(s), now, config)->Ok_0.0), t) == Ok::<
            Seq<(Seq<char>, Seq<char>)>,
            StakingError,
        >(with_stake_record(other_attributes(s), t)),
{
    lemma_unstake_keeps_own_attributes(s, now, config.freeze_period);
    lemma_other_attributes_free(s);
    lemma_unstake_then_stake(other_attributes(s), t);
}

/// For the same attributes and configuration, a later unstake is paid at
/// least as much as an earlier one, as long as the staking time read is not
/// after the earlier one (a negative day count wraps around).
pub proof fn lemma_unstake_rewards_grow_with_time(
    s: Seq<(Seq<char>, Seq<char>)>,
    now1: i64,
    now2: i64,
    config: Config,
)
    requires
        now1 <= now2,
        unstake_outcome(Some(s), now1, config) is Ok,
        unstake_outcome(Some(s), now2, config) is Ok,
        unstake_scan(s, now1, config.freeze_period) matches Ok((_, t)) && t <= now1,
    ensures
        unstake_outcome(Some(s), now1, config)->Ok_0.1 <= unstake_outcome(Some(s), now2, config)->Ok_0.1,
{
    lemma_scan_ignores_time(s, now1, now2, config.freeze_period);
    let t = unstake_scan(s, now1, config.freeze_period)->Ok_0.1;
    lemma_rewards_grow_with_time(now1, now2, t, config.rewards_basis_points);
}

/// The day count is the whole days elapsed: for `now` at or after `since`,
/// the largest `d` with `d` days of 86_400 seconds fitting in `now - since`;
/// before `since`, the same count taken negative (rounded toward zero).
/// Only a difference beyond the 64-bit range has no count.
pub proof fn lemma_elapsed_whole_days(now: i64, since: i64)
    ensures
        (i64::MIN <= now - since <= i64::MAX) <==> elapsed_days(now, since) is Some,
        since <= now && now - since <= i64::MAX ==> (elapsed_days(now, since) matches Some(d) && 0 <= d && d
            * 86400 <= now - since < (d + 1) * 86400),
        now < since && i64::MIN <= now - since ==> (elapsed_days(now, since) matches Some(d) && d <= 0 && (-d)
            * 86400 <= since - now < (-d + 1) * 86400),
{
    let e = now - since;
    if e >= 0 {
        let d = e / 86400;
        assert(0 <= d && d * 86400 <= e < (d + 1) * 86400) by (nonlinear_arith)
            requires
                d == e / 86400,
                e >= 0,
        ;
    } else {
        let q = (-e) / 86400;
        assert(0 <= q && q * 86400 <= -e < (q + 1) * 86400) by (nonlinear_arith)
            requires
                q == (-e) / 86400,
                -e > 0,
        ;
    }
}

/// The reward for a stake read back at `since` and paid at `now`, from
/// `since` on: the whole days `d` elapsed times the rate, refused with
/// `InvalidTimestamp` where that does not fit in 64 bits.
pub proof fn lemma_rewards_are_whole_days(now: i64, since: i64, rate: u16, d: int)
    requires
        since <= now,
        now - since <= i64::MAX,
        0 <= d && d * 86400 <= now - since < (d + 1) * 86400,
    ensures
        staking_rewards(now, since, rate) == if d * rate <= u64::MAX {
            Ok::<u64, StakingError>((d * rate) as u64)
        } else {
            Err(StakingError::InvalidTimestamp)
        },
{
    lemma_elapsed_whole_days(now, since);
    let d0 = elapsed_days(now, since)->Some_0;
    assert(d0 == d) by (nonlinear_arith)
        requires
            0 <= d0,
            d0 * 86400 <= now - since < (d0 + 1) * 86400,
            0 <= d,
            d * 86400 <= now - since < (d + 1) * 86400,
    ;
}

/// Unstaking an asset that staking at `t` recorded is refused with
/// `FreezePeriodNotElapsed` until the freeze period has passed in full:
/// whenever fewer than `freeze_period * 86_400` seconds separate `t` from
/// `now`, a partial day counting for nothing.
pub proof fn lemma_freeze_counts_whole_days(
    existing: Option<Seq<(Seq<char>, Seq<char>)>>,
    t: i64,
    now: i64,
    config: Config,
)
    requires
        stake_outcome(existing, t) is Ok,
        t <= now,
        now - t < config.freeze_period * 86400,
    ensures
        unstake_outcome(Some(stake_outcome(existing, t)->Ok_0), now, config) == Err::<
            (Seq<(Seq<char>, Seq<char>)>, u64),
            StakingError,
        >(StakingError::FreezePeriodNotElapsed),
{
    lemma_elapsed_whole_days(now, t);
    let d = elapsed_days(now, t)->Some_0;
    assert(d < config.freeze_period) by (nonlinear_arith)
        requires
            0 <= d,
            d * 86400 <= now - t,
            now - t < config.freeze_period * 86400,
    ;
    lemma_unstake_too_early(existing, t, now, config);
}

/// Once the freeze period has passed in full, unstaking an asset that
/// staking at `t` recorded gives back its own attributes and pays the whole
/// days since `t` times the rate.
pub proof fn lemma_unstake_after_freeze_pays_whole_days(
    existing: Option<Seq<(Seq<char>, Seq<char>)>>,
    t: i64,
    now: i64,
    config: Config,
    d: int,
)
    requires
        stake_outcome(existing, t) is Ok,
        t <= now,
        now - t <= i64::MAX,
        config.freeze_period * 86400 <= now - t,
        0 <= d && d * 86400 <= now - t < (d + 1) * 86400,
        d * config.rewards_basis_points <= u64::MAX,
    ensures
        unstake_outcome(Some(stake_outcome(existing, t)->Ok_0), now, config) == Ok::<
            (Seq<(Seq<char>, Seq<char>)>, u64),
            StakingError,
        >((with_unstake_record(own_attributes(existing)), (d * config.rewards_basis_points) as u64)),
{
    lemma_rewards_are_whole_days(now, t, config.rewards_basis_points, d);
    lemma_elapsed_whole_days(now, t);
    assert(d >= config.freeze_period) by (nonlinear_arith)
        requires
            config.freeze_period * 86400 <= now - t,
            now - t < (d + 1) * 86400,
            0 <= d,
    ;
    lemma_stake_then_unstake(existing, t, now, config);
}

} // verus!
