use anchor_lang::prelude::Pubkey;
use anchor_lang::AnchorSerialize;
use mpl_core::accounts::{BaseAssetV1, BaseCollectionV1, PluginHeaderV1, PluginRegistryV1};
use mpl_core::types::{
    Attribute as CoreAttribute, Attributes, Key as CoreKey, Plugin, PluginAuthority, PluginType, RegistryRecord,
    UpdateAuthority,
};
use solana_programs::key::Key;
use solana_programs::staking::attributes::{rewards, Attribute};
use solana_programs::staking::errors::StakingError;
use solana_programs::staking::instructions::{Initialize, InitializeBumps, Stake, Unstake};
use solana_programs::staking::state::{Config, SECONDS_PER_DAY};

const OWNER: [u8; 32] = [7; 32];
const COLLECTION: [u8; 32] = [8; 32];
const AUTHORITY: [u8; 32] = [9; 32];

fn asset_data(owner: [u8; 32], authority: UpdateAuthority) -> Vec<u8> {
    let mut data = base_asset(owner, authority);
    // Bytes after the asset that hold no plugin header.
    data.extend_from_slice(&[1, 2, 3, 4]);
    data
}

fn base_asset(owner: [u8; 32], authority: UpdateAuthority) -> Vec<u8> {
    let asset = BaseAssetV1 {
        key: CoreKey::AssetV1,
        owner: Pubkey::new_from_array(owner),
        update_authority: authority,
        name: "asset".to_string(),
        uri: "https://example.com/a.json".to_string(),
        seq: None,
    };
    asset.try_to_vec().unwrap()
}

/// An asset account as mpl-core lays it out: the asset, the plugin header,
/// an `Attributes` plugin holding `list`, and the plugin registry.
fn asset_with_attributes(owner: [u8; 32], authority: UpdateAuthority, list: &[Attribute]) -> Vec<u8> {
    let mut data = base_asset(owner, authority);
    let plugin_offset = data.len() + PluginHeaderV1::LEN;
    let attribute_list =
        list.iter().map(|a| CoreAttribute { key: a.key.clone(), value: a.value.clone() }).collect();
    let plugin = Plugin::Attributes(Attributes { attribute_list }).try_to_vec().unwrap();
    let registry_offset = plugin_offset + plugin.len();
    let header = PluginHeaderV1 { key: CoreKey::PluginHeaderV1, plugin_registry_offset: registry_offset as u64 };
    data.extend_from_slice(&header.try_to_vec().unwrap());
    data.extend_from_slice(&plugin);
    let registry = PluginRegistryV1 {
        key: CoreKey::PluginRegistryV1,
        registry: vec![RegistryRecord {
            plugin_type: PluginType::Attributes,
            authority: PluginAuthority::UpdateAuthority,
            offset: plugin_offset as u64,
        }],
        external_registry: vec![],
    };
    data.extend_from_slice(&registry.try_to_vec().unwrap());
    data
}

fn collection_bytes(authority: [u8; 32]) -> Vec<u8> {
    BaseCollectionV1 {
        key: CoreKey::CollectionV1,
        update_authority: Pubkey::new_from_array(authority),
        name: "collection".to_string(),
        uri: "https://example.com/c.json".to_string(),
        num_minted: 1,
        current_size: 1,
    }
    .try_to_vec()
    .unwrap()
}

fn in_collection() -> UpdateAuthority {
    UpdateAuthority::Collection(Pubkey::new_from_array(COLLECTION))
}

fn attr(k: &str, v: &str) -> Attribute {
    Attribute { key: k.to_string(), value: v.to_string() }
}

fn pairs(v: &[Attribute]) -> Vec<(String, String)> {
    v.iter().map(|a| (a.key.clone(), a.value.clone())).collect()
}

fn stake_accounts(attributes: Option<Vec<Attribute>>) -> Stake {
    let asset_data = match attributes {
        None => asset_data(OWNER, in_collection()),
        Some(list) => asset_with_attributes(OWNER, in_collection(), &list),
    };
    Stake {
        owner: Key::from_bytes(OWNER),
        asset_data,
        collection: Key::from_bytes(COLLECTION),
        collection_data: collection_bytes(AUTHORITY),
        update_authority: Key::from_bytes(AUTHORITY),
    }
}

fn config(freeze_days: u32, rate: u16) -> Config {
    Config { rewards_basis_points: rate, freeze_period: freeze_days, config_bump: 1, rewards_bump: 2 }
}

fn unstake_accounts(attributes: Option<Vec<Attribute>>, cfg: Config) -> Unstake {
    let s = stake_accounts(attributes);
    Unstake {
        owner: s.owner,
        config: cfg,
        asset_data: s.asset_data,
        collection: s.collection,
        collection_data: s.collection_data,
        update_authority: s.update_authority,
    }
}

#[test]
fn timestamps_are_written_in_decimal() {
    for (t, text) in [(1_700_000_000i64, "1700000000"), (-42, "-42"), (0, "0"), (i64::MIN, "-9223372036854775808")] {
        let plan = stake_accounts(None).stake(t).unwrap();
        assert_eq!(pairs(&plan.attributes)[1], ("staked_at".to_string(), text.to_string()));
    }
}

#[test]
fn timestamps_are_read_as_decimal() {
    let day = SECONDS_PER_DAY;
    let read = |text: &str, now: i64| {
        unstake_accounts(Some(vec![attr("staked", "true"), attr("staked_at", text)]), config(0, 1)).unstake(now)
    };
    assert_eq!(read("0", 3 * day).unwrap().rewards, 3);
    assert_eq!(read("+86400", 3 * day).unwrap().rewards, 2);
    assert_eq!(read("00086400", 3 * day).unwrap().rewards, 2);
    assert_eq!(read("-86400", 3 * day).unwrap().rewards, 4);
    assert_eq!(read("-", 3 * day).unwrap_err(), StakingError::InvalidTimestamp);
    assert_eq!(read("", 3 * day).unwrap_err(), StakingError::InvalidTimestamp);
    assert_eq!(read(" 1", 3 * day).unwrap_err(), StakingError::InvalidTimestamp);
    assert_eq!(read("1_000", 3 * day).unwrap_err(), StakingError::InvalidTimestamp);
    assert_eq!(read("9223372036854775808", 3 * day).unwrap_err(), StakingError::InvalidTimestamp);
}

#[test]
fn initialize_checks_collection_authority() {
    let bumps = InitializeBumps { config: 3, rewards_mint: 4 };
    let init = Initialize { collection_data: collection_bytes(AUTHORITY), update_authority: Key::from_bytes(AUTHORITY) };
    assert_eq!(
        init.initialize(10, 7, &bumps),
        Ok(Config { rewards_basis_points: 10, freeze_period: 7, config_bump: 3, rewards_bump: 4 })
    );
    let other = Initialize { collection_data: collection_bytes(OWNER), update_authority: Key::from_bytes(AUTHORITY) };
    assert_eq!(other.initialize(10, 7, &bumps), Err(StakingError::InvalidUpdateAuthority));
    // Plugin data after the collection is left unread.
    let mut with_plugins = collection_bytes(AUTHORITY);
    with_plugins.extend_from_slice(&[0, 1, 2]);
    let plugged = Initialize { collection_data: with_plugins, update_authority: Key::from_bytes(AUTHORITY) };
    assert_eq!(
        plugged.initialize(10, 7, &bumps),
        Ok(Config { rewards_basis_points: 10, freeze_period: 7, config_bump: 3, rewards_bump: 4 })
    );
    let garbage = Initialize { collection_data: vec![5, 1], update_authority: Key::from_bytes(AUTHORITY) };
    assert_eq!(garbage.initialize(10, 7, &bumps), Err(StakingError::InvalidUpdateAuthority));
}

#[test]
fn stake_fresh_asset() {
    let plan = stake_accounts(None).stake(1_700_000_000).unwrap();
    assert!(plan.add_attributes_plugin);
    assert_eq!(
        pairs(&plan.attributes),
        vec![
            ("staked".to_string(), "true".to_string()),
            ("staked_at".to_string(), "1700000000".to_string()),
        ]
    );
}

#[test]
fn stake_keeps_own_attributes() {
    let existing = vec![attr("color", "red"), attr("staked", "false"), attr("staked_at", "0"), attr("size", "L")];
    let plan = stake_accounts(Some(existing)).stake(100).unwrap();
    assert!(!plan.add_attributes_plugin);
    assert_eq!(
        pairs(&plan.attributes),
        vec![
            ("color".to_string(), "red".to_string()),
            ("size".to_string(), "L".to_string()),
            ("staked".to_string(), "true".to_string()),
            ("staked_at".to_string(), "100".to_string()),
        ]
    );
}

#[test]
fn stake_refusals() {
    let staked = vec![attr("staked", "true"), attr("staked_at", "5")];
    assert_eq!(stake_accounts(Some(staked)).stake(10).unwrap_err(), StakingError::AlreadyStaked);

    let mut wrong_owner = stake_accounts(None);
    wrong_owner.owner = Key::from_bytes(AUTHORITY);
    assert_eq!(wrong_owner.stake(10).unwrap_err(), StakingError::InvalidOwner);

    let mut undecodable = stake_accounts(None);
    undecodable.asset_data = vec![1, 2, 3];
    assert_eq!(undecodable.stake(10).unwrap_err(), StakingError::InvalidOwner);

    let mut not_in_collection = stake_accounts(None);
    not_in_collection.asset_data = asset_data(OWNER, UpdateAuthority::Address(Pubkey::new_from_array(COLLECTION)));
    assert_eq!(not_in_collection.stake(10).unwrap_err(), StakingError::InvalidUpdateAuthority);

    let mut other_collection = stake_accounts(None);
    other_collection.collection = Key::from_bytes(OWNER);
    assert_eq!(other_collection.stake(10).unwrap_err(), StakingError::InvalidUpdateAuthority);

    let mut foreign_authority = stake_accounts(None);
    foreign_authority.collection_data = collection_bytes(OWNER);
    assert_eq!(foreign_authority.stake(10).unwrap_err(), StakingError::InvalidUpdateAuthority);

    let mut no_authority = stake_accounts(None);
    no_authority.asset_data = asset_data(OWNER, UpdateAuthority::None);
    assert_eq!(no_authority.stake(10).unwrap_err(), StakingError::InvalidUpdateAuthority);

    let mut broken_collection = stake_accounts(None);
    broken_collection.collection_data = vec![0];
    assert_eq!(broken_collection.stake(10).unwrap_err(), StakingError::InvalidUpdateAuthority);
}

#[test]
fn stake_reads_collection_prefix() {
    // Staking reads the collection from the front of its account and leaves
    // what follows (plugins) unread.
    let mut with_plugins = stake_accounts(None);
    with_plugins.collection_data.extend_from_slice(&[0, 1, 2]);
    assert!(with_plugins.stake(10).is_ok());
}

#[test]
fn stake_then_unstake() {
    let t0: i64 = 1_700_000_000;
    let staked = stake_accounts(Some(vec![attr("color", "red")])).stake(t0).unwrap().attributes;
    let now = t0 + 10 * SECONDS_PER_DAY + 5;
    let plan = unstake_accounts(Some(staked), config(7, 3)).unstake(now).unwrap();
    assert_eq!(plan.rewards, 30);
    assert_eq!(
        pairs(&plan.attributes),
        vec![
            ("color".to_string(), "red".to_string()),
            ("staked".to_string(), "false".to_string()),
            ("staked_at".to_string(), "0".to_string()),
        ]
    );
    // And the asset can be staked again.
    let again = stake_accounts(Some(plan.attributes)).stake(now).unwrap();
    assert_eq!(pairs(&again.attributes).len(), 3);
}

#[test]
fn unstake_refusals() {
    let t0: i64 = 1_000_000;
    let record = || vec![attr("staked", "true"), attr("staked_at", &t0.to_string())];
    assert_eq!(
        unstake_accounts(Some(record()), config(7, 1)).unstake(t0 + 6 * SECONDS_PER_DAY).unwrap_err(),
        StakingError::FreezePeriodNotElapsed
    );
    assert!(unstake_accounts(Some(record()), config(7, 1)).unstake(t0 + 7 * SECONDS_PER_DAY).is_ok());
    assert_eq!(unstake_accounts(None, config(0, 1)).unstake(t0).unwrap_err(), StakingError::NotStaked);
    let not_staked = vec![attr("staked", "false"), attr("staked_at", "0")];
    assert_eq!(unstake_accounts(Some(not_staked), config(0, 1)).unstake(t0).unwrap_err(), StakingError::NotStaked);
    let bad_time = vec![attr("staked", "true"), attr("staked_at", "yesterday")];
    assert_eq!(unstake_accounts(Some(bad_time), config(0, 1)).unstake(t0).unwrap_err(), StakingError::InvalidTimestamp);
    let overflow = vec![attr("staked", "true"), attr("staked_at", &i64::MIN.to_string())];
    assert_eq!(unstake_accounts(Some(overflow), config(0, 1)).unstake(1).unwrap_err(), StakingError::InvalidTimestamp);
    // The first offending attribute decides.
    let both = vec![attr("staked_at", "yesterday"), attr("staked", "false")];
    assert_eq!(unstake_accounts(Some(both), config(0, 1)).unstake(t0).unwrap_err(), StakingError::InvalidTimestamp);
}

#[test]
fn unstake_without_timestamp_counts_from_zero() {
    let plan = unstake_accounts(Some(vec![attr("staked", "true")]), config(1_000, 2)).unstake(3 * SECONDS_PER_DAY).unwrap();
    assert_eq!(plan.rewards, 6);
}

#[test]
fn reward_arithmetic() {
    assert_eq!(rewards(10 * SECONDS_PER_DAY, 0, 5), Ok(50));
    // Elapsed time is divided toward zero.
    assert_eq!(rewards(0, SECONDS_PER_DAY - 1, 5), Ok(0));
    // A negative day count wraps around and overflows the product.
    assert_eq!(rewards(0, 2 * SECONDS_PER_DAY, 5), Err(StakingError::InvalidTimestamp));
    assert_eq!(rewards(0, 2 * SECONDS_PER_DAY, 0), Ok(0));
    assert_eq!(rewards(0, 2 * SECONDS_PER_DAY, 1), Ok(u64::MAX - 1));
    assert_eq!(rewards(i64::MAX, -1, 1), Err(StakingError::InvalidTimestamp));
}

#[test]
fn attributes_are_read_from_the_asset_data() {
    // The staking record is read from the asset's own `Attributes` plugin.
    let data = asset_with_attributes(OWNER, in_collection(), &[attr("staked", "true"), attr("staked_at", "0")]);
    let mut accounts = stake_accounts(None);
    accounts.asset_data = data.clone();
    assert_eq!(accounts.stake(10).unwrap_err(), StakingError::AlreadyStaked);
    let mut unstaking = unstake_accounts(None, config(0, 2));
    unstaking.asset_data = data;
    assert_eq!(unstaking.unstake(2 * SECONDS_PER_DAY).unwrap().rewards, 4);
    // Bytes after the asset that are no plugin header read as no plugin.
    assert!(stake_accounts(None).stake(10).unwrap().add_attributes_plugin);
    assert_eq!(unstake_accounts(None, config(0, 1)).unstake(10).unwrap_err(), StakingError::NotStaked);
}

#[test]
fn plugin_offsets_past_the_data_are_caught() {
    let mut data = base_asset(OWNER, in_collection());
    let header = PluginHeaderV1 { key: CoreKey::PluginHeaderV1, plugin_registry_offset: 10_000 };
    data.extend_from_slice(&header.try_to_vec().unwrap());
    let mut accounts = stake_accounts(None);
    accounts.asset_data = data.clone();
    assert!(accounts.try_stake(10).is_none());
    let mut unstaking = unstake_accounts(None, config(0, 1));
    unstaking.asset_data = data.clone();
    assert!(unstaking.try_unstake(10).is_none());
    // The checks on the holder come first and answer as before.
    accounts.owner = Key::from_bytes(AUTHORITY);
    assert_eq!(accounts.try_stake(10).unwrap().unwrap_err(), StakingError::InvalidOwner);
    // Readable data goes through.
    assert!(stake_accounts(None).try_stake(10).unwrap().is_ok());
}

/// An asset whose plugin registry lists `records` (type and offset) and whose
/// data ends right after the registry.
fn asset_with_registry(records: Vec<(PluginType, u64)>) -> Vec<u8> {
    let mut data = base_asset(OWNER, in_collection());
    let registry_offset = data.len() + PluginHeaderV1::LEN;
    let header = PluginHeaderV1 { key: CoreKey::PluginHeaderV1, plugin_registry_offset: registry_offset as u64 };
    data.extend_from_slice(&header.try_to_vec().unwrap());
    let registry = PluginRegistryV1 {
        key: CoreKey::PluginRegistryV1,
        registry: records
            .into_iter()
            .map(|(plugin_type, offset)| RegistryRecord {
                plugin_type,
                authority: PluginAuthority::UpdateAuthority,
                offset,
            })
            .collect(),
        external_registry: vec![],
    };
    data.extend_from_slice(&registry.try_to_vec().unwrap());
    data
}

#[test]
fn only_the_attributes_record_is_followed() {
    let mut accounts = stake_accounts(None);
    // The `Attributes` record points past the end: the read would panic.
    accounts.asset_data = asset_with_registry(vec![(PluginType::Attributes, 1_000_000)]);
    assert!(accounts.try_stake(10).is_none());
    // Another plugin's record is not followed; no `Attributes` plugin is found.
    accounts.asset_data = asset_with_registry(vec![(PluginType::FreezeDelegate, 1_000_000)]);
    let plan = accounts.try_stake(10).unwrap().unwrap();
    assert!(plan.add_attributes_plugin);
}

#[test]
fn holder_checks_ignore_plugin_data() {
    let list = [attr("staked", "false")];
    for data in [asset_data(OWNER, in_collection()), asset_with_attributes(OWNER, in_collection(), &list)] {
        let mut accounts = stake_accounts(None);
        accounts.asset_data = data.clone();
        assert!(accounts.stake(10).is_ok());
        accounts.owner = Key::from_bytes(AUTHORITY);
        assert_eq!(accounts.stake(10).unwrap_err(), StakingError::InvalidOwner);
    }
}

#[test]
fn unstaked_assets_refuse_a_second_unstake_and_stake_again() {
    let record = vec![attr("color", "red"), attr("staked", "true"), attr("staked_at", "0"), attr("size", "L")];
    let first = unstake_accounts(Some(record), config(1, 2)).unstake(3 * SECONDS_PER_DAY).unwrap();
    assert_eq!(first.rewards, 6);
    let left = first.attributes;
    assert_eq!(
        unstake_accounts(Some(left.iter().map(|a| attr(&a.key, &a.value)).collect()), config(0, 2))
            .unstake(9 * SECONDS_PER_DAY)
            .unwrap_err(),
        StakingError::NotStaked
    );
    let again = stake_accounts(Some(left)).stake(50).unwrap();
    assert_eq!(
        pairs(&again.attributes),
        vec![
            ("color".to_string(), "red".to_string()),
            ("size".to_string(), "L".to_string()),
            ("staked".to_string(), "true".to_string()),
            ("staked_at".to_string(), "50".to_string()),
        ]
    );
}

#[test]
fn later_unstakes_earn_no_less() {
    let record = || vec![attr("staked", "true"), attr("staked_at", "100")];
    let mut last = 0;
    for days in [0i64, 1, 2, 7, 30] {
        let paid = unstake_accounts(Some(record()), config(0, 3)).unstake(100 + days * SECONDS_PER_DAY).unwrap().rewards;
        assert_eq!(paid, 3 * days as u64);
        assert!(paid >= last);
        last = paid;
    }
}

#[test]
fn plugin_headers_with_unknown_keys_read_as_no_plugin() {
    let mut data = base_asset(OWNER, in_collection());
    // A key byte past the last `Key` variant.
    data.extend_from_slice(&[6, 0xff, 0xff, 0xff, 0xff, 0xff, 0xff, 0xff, 0xff]);
    let mut accounts = stake_accounts(None);
    accounts.asset_data = data;
    assert!(accounts.try_stake(10).unwrap().unwrap().add_attributes_plugin);
}

#[test]
fn collection_plugin_data_is_left_unread() {
    let bumps = InitializeBumps { config: 3, rewards_mint: 4 };
    for tail in [vec![], vec![3u8, 9, 9, 9], vec![0u8; 40]] {
        let mut data = collection_bytes(AUTHORITY);
        data.extend_from_slice(&tail);
        let init = Initialize { collection_data: data.clone(), update_authority: Key::from_bytes(AUTHORITY) };
        assert!(init.initialize(10, 7, &bumps).is_ok());
        let mut accounts = stake_accounts(None);
        accounts.collection_data = data;
        assert!(accounts.stake(10).is_ok());
    }
}
