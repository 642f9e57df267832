//! The staking program's instructions, as decisions: each takes what the
//! instruction reads from its accounts and returns what it writes, or the
//! error that refuses it.
use vstd::prelude::*;
use crate::key::{Key, key_of_bytes};
use crate::staking::asset::{
    AssetRecord, AuthorityRecord, CollectionRecord, asset_record_of, attributes_of, attributes_read_fault,
    attributes_read_faults, collection_record_of, read_asset, read_attributes, read_collection,
};
use crate::staking::attributes::{
    Attribute, attrs_view, rewards, stake_attributes, stake_outcome, staking_rewards, unstake_attributes,
    unstake_scan, with_unstake_record,
};
use crate::staking::errors::StakingError;
use crate::staking::state::Config;

verus! {

/// The bumps found for the accounts that `initialize` creates.
#[derive(Clone, Copy, Debug, PartialEq, Eq, Structural)]
pub struct InitializeBumps {
    pub config: u8,
    pub rewards_mint: u8,
}

/// The configuration that `initialize` writes, given the collection account's
/// data and the program's update-authority address: refused with
/// `InvalidUpdateAuthority` where the data does not decode as a collection or
/// the collection's update authority is another address. The collection is
/// read from the front of its account, the plugin data after it left unread.
pub open spec fn initialize_outcome(
    collection_data: Seq<u8>,
    update_authority: Key,
    rewards_basis_points: u16,
    freeze_period: u32,
    bumps: InitializeBumps,
) -> Result<Config, StakingError> {
    match collection_record_of(collection_data) {
        None => Err(StakingError::InvalidUpdateAuthority),
        Some(c) => if key_of_bytes(c.update_authority@) != update_authority {
            Err(StakingError::InvalidUpdateAuthority)
        } else {
            Ok(
                Config {
                    rewards_basis_points,
                    freeze_period,
                    config_bump: bumps.config,
                    rewards_bump: bumps.rewards_mint,
                },
            )
        },
    }
}

/// What `initialize` reads: the collection account's data and the program's
/// update-authority address for the collection.
#[derive(Debug)]
pub struct Initialize {
    pub collection_data: Vec<u8>,
    pub update_authority: Key,
}

impl Initialize {
    /// Creates the configuration of the collection's staking
    /// (`initialize_outcome`). The collection is read from its own record
    /// alone: whatever plugin data follows it, the outcome is the same.
    pub fn initialize(&self, rewards_basis_points: u16, freeze_period: u32, bumps: &InitializeBumps) -> (r:
        Result<Config, StakingError>)
        ensures
            r == initialize_outcome(
                self.collection_data@,
                self.update_authority,
                rewards_basis_points,
                freeze_period,
                *bumps,
            ),
            collection_record_of(self.collection_data@) matches Some(c) ==> forall|more: Seq<u8>|
                initialize_outcome(
                    #[trigger] (self.collection_data@.subrange(0, c.base_len as int) + more),
                    self.update_authority,
                    rewards_basis_points,
                    freeze_period,
                    *bumps,
                ) == r,
    {
        match read_collection(self.collection_data.as_slice()) {
            None => Err(StakingError::InvalidUpdateAuthority),
            Some(c) => {
                assert(forall|more: Seq<u8>|
                    collection_record_of(#[trigger] (self.collection_data@.subrange(0, c.base_len as int) + more))
                        == Some(c));
                if Key::from_bytes(c.update_authority) != self.update_authority {
                    return Err(StakingError::InvalidUpdateAuthority);
                }
                Ok(
                    Config {
                        rewards_basis_points,
                        freeze_period,
                        config_bump: bumps.config,
                        rewards_bump: bumps.rewards_mint,
                    },
                )
            },
        }
    }
}

/// The checks that staking and unstaking make on the asset and its
/// collection, in order: the asset must decode and belong to `owner`
/// (`InvalidOwner`), its update authority must be the collection, and the
/// collection must decode with `update_authority` as its update authority
/// (`InvalidUpdateAuthority`).
pub open spec fn holder_check(
    asset: Option<AssetRecord>,
    collection_record: Option<CollectionRecord>,
    owner: Key,
    collection: Key,
    update_authority: Key,
) -> Result<(), StakingError> {
    match asset {
        None => Err(StakingError::InvalidOwner),
        Some(a) => if key_of_bytes(a.owner@) != owner {
            Err(StakingError::InvalidOwner)
        } else if !(a.update_authority matches AuthorityRecord::Collection(c) && key_of_bytes(c@)
            == collection) {
            Err(StakingError::InvalidUpdateAuthority)
        } else {
            match collection_record {
                None => Err(StakingError::InvalidUpdateAuthority),
                Some(c) => if key_of_bytes(c.update_authority@) != update_authority {
                    Err(StakingError::InvalidUpdateAuthority)
                } else {
                    Ok(())
                },
            }
        },
    }
}

fn check_holder(
    owner: Key,
    collection: Key,
    update_authority: Key,
    asset_data: &[u8],
    collection_data: &[u8],
) -> (r: Result<(), StakingError>)
    ensures
        r == holder_check(
            asset_record_of(asset_data@),
            collection_record_of(collection_data@),
            owner,
            collection,
            update_authority,
        ),
        asset_record_of(asset_data@) matches Some(a) ==> forall|more: Seq<u8>|
            #[trigger] asset_record_of(asset_data@.subrange(0, a.base_len as int) + more) == Some(a),
        collection_record_of(collection_data@) matches Some(c) ==> forall|more: Seq<u8>|
            holder_check(
                asset_record_of(asset_data@),
                #[trigger] collection_record_of(collection_data@.subrange(0, c.base_len as int) + more),
                owner,
                collection,
                update_authority,
            ) == r,
{
    let asset = match read_asset(asset_data) {
        None => return Err(StakingError::InvalidOwner),
        Some(a) => a,
    };
    if Key::from_bytes(asset.owner) != owner {
        return Err(StakingError::InvalidOwner);
    }
    let in_collection = match asset.update_authority {
        AuthorityRecord::Collection(c) => Key::from_bytes(c) == collection,
        _ => false,
    };
    if !in_collection {
        return Err(StakingError::InvalidUpdateAuthority);
    }
    match read_collection(collection_data) {
        None => Err(StakingError::InvalidUpdateAuthority),
        Some(c) => if Key::from_bytes(c.update_authority) != update_authority {
            Err(StakingError::InvalidUpdateAuthority)
        } else {
            Ok(())
        },
    }
}

/// What staking writes to the asset: the new attribute list, and whether the
/// `Attributes` plugin is added (the asset had none) or updated. Staking also
/// always adds the `FreezeDelegate` plugin, frozen.
#[derive(Debug)]
pub struct StakePlan {
    pub attributes: Vec<Attribute>,
    pub add_attributes_plugin: bool,
}

/// What `stake` reads: the owner who signs, the asset and
/// collection accounts (address and data), and the program's
/// update-authority address. The asset's `Attributes` plugin is read from
/// the asset's data.
#[derive(Debug)]
pub struct Stake {
    pub owner: Key,
    pub asset_data: Vec<u8>,
    pub collection: Key,
    pub collection_data: Vec<u8>,
    pub update_authority: Key,
}

impl Stake {
    /// The checks on the asset and its collection that come first.
    pub open spec fn holder(&self) -> Result<(), StakingError> {
        holder_check(
            asset_record_of(self.asset_data@),
            collection_record_of(self.collection_data@),
            self.owner,
            self.collection,
            self.update_authority,
        )
    }

    /// Whether `r` is what staking at `now` gives: the error of the checks
    /// (`holder`), else the staking record written after the asset's own
    /// attributes (`stake_outcome` of the asset's `Attributes` plugin), the
    /// plugin being added where the asset has none.
    pub open spec fn stake_result(&self, now: i64, r: Result<StakePlan, StakingError>) -> bool {
        match self.holder() {
            Err(e) => r matches Err(e2) && e2 == e,
            Ok(_) => match stake_outcome(attributes_of(self.asset_data@), now) {
                Err(e) => r matches Err(e2) && e2 == e,
                Ok(s) => r matches Ok(p) && attrs_view(p.attributes@) == s && p.add_attributes_plugin == (
                attributes_of(self.asset_data@) is None),
            },
        }
    }

    /// Stakes the asset at time `now` (`stake_result`). The checks read the
    /// asset's and the collection's own records alone: whatever plugin data
    /// follows either, they answer the same.
    pub fn stake(&self, now: i64) -> (r: Result<StakePlan, StakingError>)
        requires
            self.holder() is Ok ==> !attributes_read_faults(self.asset_data@),
        ensures
            self.stake_result(now, r),
            asset_record_of(self.asset_data@) matches Some(a) ==> forall|more: Seq<u8>|
                holder_check(
                    #[trigger] asset_record_of(self.asset_data@.subrange(0, a.base_len as int) + more),
                    collection_record_of(self.collection_data@),
                    self.owner,
                    self.collection,
                    self.update_authority,
                ) == self.holder(),
            collection_record_of(self.collection_data@) matches Some(c) ==> forall|more: Seq<u8>|
                holder_check(
                    asset_record_of(self.asset_data@),
                    #[trigger] collection_record_of(self.collection_data@.subrange(0, c.base_len as int) + more),
                    self.owner,
                    self.collection,
                    self.update_authority,
                ) == self.holder(),
    {
        check_holder(
            self.owner,
            self.collection,
            self.update_authority,
            self.asset_data.as_slice(),
            self.collection_data.as_slice(),
        )?;
        let existing = read_attributes(self.asset_data.as_slice());
        let attributes = stake_attributes(&existing, now)?;
        Ok(StakePlan { attributes, add_attributes_plugin: existing.is_none() })
    }

    /// Stakes the asset at time `now` where its data lets the `Attributes`
    /// plugin be read; `None` where the checks pass and the plugin data
    /// points past the end of the asset's data.
    pub fn try_stake(&self, now: i64) -> (r: Option<Result<StakePlan, StakingError>>)
        ensures
            r is None <==> (self.holder() is Ok && attributes_read_faults(self.asset_data@)),
            r matches Some(res) ==> self.stake_result(now, res),
    {
        let held = check_holder(
            self.owner,
            self.collection,
            self.update_authority,
            self.asset_data.as_slice(),
            self.collection_data.as_slice(),
        );
        if held.is_ok() && attributes_read_fault(self.asset_data.as_slice()) {
            None
        } else {
            Some(self.stake(now))
        }
    }
}

/// What unstaking at `now` writes (the new attribute list) and pays (the
/// reward), given the asset's attributes (`None` where it has no
/// `Attributes` plugin): refused with `NotStaked` where there are none, else
/// as `unstake_scan` and `staking_rewards` decide.
pub open spec fn unstake_outcome(existing: Option<Seq<(Seq<char>, Seq<char>)>>, now: i64, config: Config) -> Result<
    (Seq<(Seq<char>, Seq<char>)>, u64),
    StakingError,
> {
    match existing {
        None => Err(StakingError::NotStaked),
        Some(s) => match unstake_scan(s, now, config.freeze_period) {
            Err(e) => Err(e),
            Ok((kept, t)) => match staking_rewards(now, t, config.rewards_basis_points) {
                Err(e) => Err(e),
                Ok(amount) => Ok((with_unstake_record(kept), amount)),
            },
        },
    }
}

/// What unstaking writes to the asset (the attribute list, and the
/// `FreezeDelegate` plugin set to not frozen) and the reward minted to the
/// owner.
#[derive(Debug)]
pub struct UnstakePlan {
    pub attributes: Vec<Attribute>,
    pub rewards: u64,
}

/// What `unstake` reads: the accounts that `stake` reads, and the
/// collection's staking configuration.
#[derive(Debug)]
pub struct Unstake {
    pub owner: Key,
    pub config: Config,
    pub asset_data: Vec<u8>,
    pub collection: Key,
    pub collection_data: Vec<u8>,
    pub update_authority: Key,
}

impl Unstake {
    /// The checks on the asset and its collection that come first.
    pub open spec fn holder(&self) -> Result<(), StakingError> {
        holder_check(
            asset_record_of(self.asset_data@),
            collection_record_of(self.collection_data@),
            self.owner,
            self.collection,
            self.update_authority,
        )
    }

    /// Whether `r` is what unstaking at `now` gives: the error of the checks
    /// (`holder`), else the staking record read from the asset's
    /// `Attributes` plugin and the reward (`unstake_outcome`).
    pub open spec fn unstake_result(&self, now: i64, r: Result<UnstakePlan, StakingError>) -> bool {
        match self.holder() {
            Err(e) => r matches Err(e2) && e2 == e,
            Ok(_) => match unstake_outcome(attributes_of(self.asset_data@), now, self.config) {
                Err(e) => r matches Err(e2) && e2 == e,
                Ok((s, amount)) => r matches Ok(p) && attrs_view(p.attributes@) == s && p.rewards == amount,
            },
        }
    }

    /// Unstakes the asset at time `now` (`unstake_result`). The checks read
    /// the asset's and the collection's own records alone: whatever plugin
    /// data follows either, they answer the same.
    pub fn unstake(&self, now: i64) -> (r: Result<UnstakePlan, StakingError>)
        requires
            self.holder() is Ok ==> !attributes_read_faults(self.asset_data@),
        ensures
            self.unstake_result(now, r),
            asset_record_of(self.asset_data@) matches Some(a) ==> forall|more: Seq<u8>|
                holder_check(
                    #[trigger] asset_record_of(self.asset_data@.subrange(0, a.base_len as int) + more),
                    collection_record_of(self.collection_data@),
                    self.owner,
                    self.collection,
                    self.update_authority,
                ) == self.holder(),
            collection_record_of(self.collection_data@) matches Some(c) ==> forall|more: Seq<u8>|
                holder_check(
                    asset_record_of(self.asset_data@),
                    #[trigger] collection_record_of(self.collection_data@.subrange(0, c.base_len as int) + more),
                    self.owner,
                    self.collection,
                    self.update_authority,
                ) == self.holder(),
    {
        check_holder(
            self.owner,
            self.collection,
            self.update_authority,
            self.asset_data.as_slice(),
            self.collection_data.as_slice(),
        )?;
        let config = &self.config;
        let list = match read_attributes(self.asset_data.as_slice()) {
            None => return Err(StakingError::NotStaked),
            Some(v) => v,
        };
        let (mut attributes, staked_at) = unstake_attributes(&list, now, config.freeze_period)?;
        let amount = rewards(now, staked_at, config.rewards_basis_points)?;
        let ghost kept = attrs_view(attributes@);
        attributes.push(Attribute { key: "staked".to_owned(), value: "false".to_owned() });
        attributes.push(Attribute { key: "staked_at".to_owned(), value: "0".to_owned() });
        assert(attrs_view(attributes@) =~= with_unstake_record(kept));
        Ok(UnstakePlan { attributes, rewards: amount })
    }

    /// Unstakes the asset at time `now` where its data lets the
    /// `Attributes` plugin be read; `None` where the checks pass and the
    /// plugin data points past the end of the asset's data.
    pub fn try_unstake(&self, now: i64) -> (r: Option<Result<UnstakePlan, StakingError>>)
        ensures
            r is None <==> (self.holder() is Ok && attributes_read_faults(self.asset_data@)),
            r matches Some(res) ==> self.unstake_result(now, res),
    {
        let held = check_holder(
            self.owner,
            self.collection,
            self.update_authority,
            self.asset_data.as_slice(),
            self.collection_data.as_slice(),
        );
        if held.is_ok() && attributes_read_fault(self.asset_data.as_slice()) {
            None
        } else {
            Some(self.unstake(now))
        }
    }
}

} // verus!
