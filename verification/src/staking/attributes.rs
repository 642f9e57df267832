//! The staking record kept in an asset's `Attributes` plugin: an attribute
//! `staked` (`true` / `false`) and an attribute `staked_at` (decimal unix
//! timestamp), beside any attributes of the asset's own.
use vstd::prelude::*;
use crate::staking::errors::StakingError;
use crate::staking::state::SECONDS_PER_DAY;
use crate::staking::timestamp::{format_timestamp, i64_decimal, parse_i64, parse_timestamp};

verus! {

/// A key/value attribute of an asset.
#[derive(Debug)]
pub struct Attribute {
    pub key: String,
    pub value: String,
}

impl View for Attribute {
    type V = (Seq<char>, Seq<char>);

    open spec fn view(&self) -> (Seq<char>, Seq<char>) {
        (self.key@, self.value@)
    }
}

impl Attribute {
    fn duplicate(&self) -> (r: Attribute)
        ensures
            r@ == self@,
    {
        Attribute { key: self.key.clone(), value: self.value.clone() }
    }
}

/// The key/value pairs of a list of attributes.
pub open spec fn attrs_view(v: Seq<Attribute>) -> Seq<(Seq<char>, Seq<char>)> {
    v.map_values(|a: Attribute| a@)
}

/// The key of the attribute that says whether the asset is staked.
pub open spec fn staked_key() -> Seq<char> {
    "staked"@
}

/// The key of the attribute that holds when the asset was staked.
pub open spec fn staked_at_key() -> Seq<char> {
    "staked_at"@
}

/// Whether `k` is one of the two keys of the staking record.
pub open spec fn is_record_key(k: Seq<char>) -> bool {
    k == staked_key() || k == staked_at_key()
}

/// The attributes other than the staking record, in their order.
pub open spec fn other_attributes(s: Seq<(Seq<char>, Seq<char>)>) -> Seq<(Seq<char>, Seq<char>)>
    decreases s.len(),
{
    if s.len() == 0 {
        s
    } else if is_record_key(s.last().0) {
        other_attributes(s.drop_last())
    } else {
        other_attributes(s.drop_last()).push(s.last())
    }
}

/// Whether some `staked` attribute holds anything but `false`.
pub open spec fn marked_staked(s: Seq<(Seq<char>, Seq<char>)>) -> bool {
    exists|i: int| 0 <= i < s.len() && s[i].0 == staked_key() && s[i].1 != "false"@
}

/// The key/value pairs of an optional list of attributes.
pub open spec fn opt_attrs_view(v: Option<Vec<Attribute>>) -> Option<Seq<(Seq<char>, Seq<char>)>> {
    match v {
        None => None,
        Some(v) => Some(attrs_view(v@)),
    }
}

/// `others` followed by the record of an asset staked at `t`.
pub open spec fn with_stake_record(others: Seq<(Seq<char>, Seq<char>)>, t: i64) -> Seq<(Seq<char>, Seq<char>)> {
    others.push((staked_key(), "true"@)).push((staked_at_key(), i64_decimal(t)))
}

/// `others` followed by the record of an asset that is not staked.
pub open spec fn with_unstake_record(others: Seq<(Seq<char>, Seq<char>)>) -> Seq<(Seq<char>, Seq<char>)> {
    others.push((staked_key(), "false"@)).push((staked_at_key(), "0"@))
}

/// The attribute list that staking at `now` writes, given the asset's
/// current attributes (`None` where the asset has no `Attributes` plugin).
pub open spec fn stake_outcome(existing: Option<Seq<(Seq<char>, Seq<char>)>>, now: i64) -> Result<
    Seq<(Seq<char>, Seq<char>)>,
    StakingError,
> {
    match existing {
        None => Ok(with_stake_record(Seq::empty(), now)),
        Some(s) => if marked_staked(s) {
            Err(StakingError::AlreadyStaked)
        } else {
            Ok(with_stake_record(other_attributes(s), now))
        },
    }
}

/// Whole days from `since` to `now`, the division rounded toward zero;
/// `None` where `now - since` does not fit in an `i64`.
pub open spec fn elapsed_days(now: i64, since: i64) -> Option<int> {
    let e = now - since;
    if e < i64::MIN || e > i64::MAX {
        None
    } else if e >= 0 {
        Some(e / 86400)
    } else {
        Some(-((-e) / 86400))
    }
}

/// Reading the attributes in order while unstaking at `now`: the attributes
/// to keep and the staking time read so far (0 when none was read), or the
/// error of the first attribute that refuses the unstake.
pub open spec fn unstake_scan(s: Seq<(Seq<char>, Seq<char>)>, now: i64, freeze_period: u32) -> Result<
    (Seq<(Seq<char>, Seq<char>)>, i64),
    StakingError,
>
    decreases s.len(),
{
    if s.len() == 0 {
        Ok((Seq::empty(), 0))
    } else {
        match unstake_scan(s.drop_last(), now, freeze_period) {
            Err(e) => Err(e),
            Ok((kept, ts)) => {
                let a = s.last();
                if a.0 == staked_key() {
                    if a.1 == "true"@ {
                        Ok((kept, ts))
                    } else {
                        Err(StakingError::NotStaked)
                    }
                } else if a.0 == staked_at_key() {
                    match parse_i64(a.1) {
                        None => Err(StakingError::InvalidTimestamp),
                        Some(t) => match elapsed_days(now, t) {
                            None => Err(StakingError::InvalidTimestamp),
                            Some(d) => if d >= freeze_period {
                                Ok((kept, t))
                            } else {
                                Err(StakingError::FreezePeriodNotElapsed)
                            },
                        },
                    }
                } else {
                    Ok((kept.push(a), ts))
                }
            },
        }
    }
}

/// The reward for staking from `since` to `now`: whole days elapsed, taken as
/// an unsigned 64-bit count (a negative count wraps around), times the rate.
pub open spec fn staking_rewards(now: i64, since: i64, rate: u16) -> Result<u64, StakingError> {
    match elapsed_days(now, since) {
        None => Err(StakingError::InvalidTimestamp),
        Some(d) => {
            let days: int = if d >= 0 { d } else { d + 0x1_0000_0000_0000_0000 };
            if days * rate > u64::MAX {
                Err(StakingError::InvalidTimestamp)
            } else {
                Ok((days * rate) as u64)
            }
        },
    }
}

fn new_attribute(key: &str, value: String) -> (r: Attribute)
    ensures
        r@ == (key@, value@),
{
    Attribute { key: key.to_owned(), value }
}

fn has_key(a: &Attribute, key: &str) -> (r: bool)
    ensures
        r == (a.key@ == key@),
{
    a.key == key.to_owned()
}

fn has_value(a: &Attribute, value: &str) -> (r: bool)
    ensures
        r == (a.value@ == value@),
{
    a.value == value.to_owned()
}

/// Whole days from `since` to `now`, as the program computes them.
fn days_between(now: i64, since: i64) -> (r: Option<i64>)
    ensures
        match elapsed_days(now, since) {
            None => r is None,
            Some(d) => r == Some(d as i64),
        },
{
    match now.checked_sub(since) {
        None => None,
        Some(elapsed) => elapsed.checked_div(SECONDS_PER_DAY),
    }
}

/// The attribute list written when the asset is staked at `now`, given its
/// current attributes (`None` where it has no `Attributes` plugin): the
/// asset's own attributes in their order, then `staked = true` and
/// `staked_at = now`; refused with `AlreadyStaked` where a `staked`
/// attribute holds anything but `false`.
pub fn stake_attributes(existing: &Option<Vec<Attribute>>, now: i64) -> (r: Result<Vec<Attribute>, StakingError>)
    ensures
        match stake_outcome(opt_attrs_view(*existing), now) {
            Ok(s) => r matches Ok(v) && attrs_view(v@) == s,
            Err(e) => r == Err::<Vec<Attribute>, StakingError>(e),
        },
{
    let mut list: Vec<Attribute> = Vec::new();
    match existing {
        None => {},
        Some(v) => {
            let ghost s = attrs_view(v@);
            let mut i: usize = 0;
            while i < v.len()
                invariant
                    i <= v.len(),
                    s == attrs_view(v@),
                    opt_attrs_view(*existing) == Some(s),
                    attrs_view(list@) == other_attributes(s.take(i as int)),
                    !marked_staked(s.take(i as int)),
                decreases v.len() - i,
            {
                let a = &v[i];
                proof {
                    assert(s.take(i + 1).drop_last() =~= s.take(i as int));
                    assert(s.take(i + 1).last() == a@);
                }
                if has_key(a, "staked") {
                    if !has_value(a, "false") {
                        assert(s[i as int] == a@);
                        assert(s[i as int].0 == staked_key() && s[i as int].1 != "false"@);
                        assert(marked_staked(s));
                        return Err(StakingError::AlreadyStaked);
                    }
                } else if !has_key(a, "staked_at") {
                    list.push(a.duplicate());
                    assert(attrs_view(list@) =~= other_attributes(s.take(i as int)).push(a@));
                }
                proof {
                    assert forall|j: int| 0 <= j < i + 1 implies !(#[trigger] s.take(i + 1)[j].0 == staked_key()
                        && s.take(i + 1)[j].1 != "false"@) by {
                        if j < i {
                            assert(s.take(i + 1)[j] == s.take(i as int)[j]);
                        }
                    }
                }
                i = i + 1;
            }
            assert(s.take(v.len() as int) =~= s);
        },
    }
    let ghost before = attrs_view(list@);
    list.push(new_attribute("staked", "true".to_owned()));
    list.push(new_attribute("staked_at", format_timestamp(now)));
    assert(attrs_view(list@) =~= before.push((staked_key(), "true"@)).push((staked_at_key(), i64_decimal(now))));
    Ok(list)
}

/// Reads the attributes in order while unstaking at `now`: returns the
/// attributes other than the staking record and the staking time read (0
/// where there is no `staked_at` attribute); refused with `NotStaked` at a
/// `staked` attribute that is not `true`, with `InvalidTimestamp` at a
/// `staked_at` attribute that is not a decimal `i64` or lies too far from
/// `now`, and with `FreezePeriodNotElapsed` where fewer than `freeze_period`
/// whole days have passed since it; the first such attribute decides.
pub fn unstake_attributes(existing: &Vec<Attribute>, now: i64, freeze_period: u32) -> (r: Result<
    (Vec<Attribute>, i64),
    StakingError,
>)
    ensures
        match unstake_scan(attrs_view(existing@), now, freeze_period) {
            Ok((kept, t)) => r matches Ok((v, ts)) && attrs_view(v@) == kept && ts == t,
            Err(e) => r matches Err(e2) && e2 == e,
        },
{
    let ghost s = attrs_view(existing@);
    let mut list: Vec<Attribute> = Vec::new();
    let mut staked_timestamp: i64 = 0;
    let mut i: usize = 0;
    assert(attrs_view(list@) =~= Seq::empty());
    assert(s.take(0) =~= Seq::empty());
    while i < existing.len()
        invariant
            i <= existing.len(),
            s == attrs_view(existing@),
            unstake_scan(s.take(i as int), now, freeze_period) == Ok::<(Seq<(Seq<char>, Seq<char>)>, i64), StakingError>((attrs_view(list@), staked_timestamp)),
        decreases existing.len() - i,
    {
        let a = &existing[i];
        proof {
            assert(s.take(i + 1).drop_last() =~= s.take(i as int));
            assert(s.take(i + 1).last() == a@);
        }
        if has_key(a, "staked") {
            if !has_value(a, "true") {
                proof { lemma_scan_error_stays(s, i as int + 1, now, freeze_period); }
                return Err(StakingError::NotStaked);
            }
        } else if has_key(a, "staked_at") {
            match parse_timestamp(&a.value) {
                None => {
                    proof { lemma_scan_error_stays(s, i as int + 1, now, freeze_period); }
                    return Err(StakingError::InvalidTimestamp);
                },
                Some(t) => {
                    staked_timestamp = t;
                    match days_between(now, t) {
                        None => {
                            proof { lemma_scan_error_stays(s, i as int + 1, now, freeze_period); }
                            return Err(StakingError::InvalidTimestamp);
                        },
                        Some(days) => {
                            if days < freeze_period as i64 {
                                proof { lemma_scan_error_stays(s, i as int + 1, now, freeze_period); }
                                return Err(StakingError::FreezePeriodNotElapsed);
                            }
                        },
                    }
                },
            }
        } else {
            let ghost before = attrs_view(list@);
            list.push(a.duplicate());
            assert(attrs_view(list@) =~= before.push(a@));
        }
        i = i + 1;
    }
    assert(s.take(existing.len() as int) =~= s);
    Ok((list, staked_timestamp))
}

/// Once reading a prefix of the attributes fails, reading the whole list
/// fails with the same error.
proof fn lemma_scan_error_stays(s: Seq<(Seq<char>, Seq<char>)>, i: int, now: i64, freeze_period: u32)
    requires
        0 <= i <= s.len(),
        unstake_scan(s.take(i), now, freeze_period) is Err,
    ensures
        unstake_scan(s, now, freeze_period) == unstake_scan(s.take(i), now, freeze_period),
    decreases s.len() - i,
{
    if i < s.len() {
        assert(s.take(i + 1).drop_last() =~= s.take(i));
        lemma_scan_error_stays(s, i + 1, now, freeze_period);
    } else {
        assert(s.take(i) =~= s);
    }
}

/// The reward for staking from `since` to `now` at `rate` per day:
/// `InvalidTimestamp` where `now - since` or the product overflows.
pub fn rewards(now: i64, since: i64, rate: u16) -> (r: Result<u64, StakingError>)
    ensures
        r == staking_rewards(now, since, rate),
{
    let days = match days_between(now, since) {
        Some(d) => d,
        None => return Err(StakingError::InvalidTimestamp),
    };
    let days_u: u64 = days as u64;
    assert(days < 0 ==> days_u == days + 0x1_0000_0000_0000_0000) by (bit_vector)
        requires
            days_u == days as u64;
    match days_u.checked_mul(rate as u64) {
        Some(v) => Ok(v),
        None => Err(StakingError::InvalidTimestamp),
    }
}

} // verus!
