//! What the staking program reads from Metaplex Core asset and collection
//! accounts: the asset's owner and update authority, the collection's
//! update authority, and the asset's `Attributes` plugin, decoded from the
//! accounts' bytes by `mpl-core`.
use vstd::prelude::*;
use anchor_lang::AnchorDeserialize;
use anchor_lang::solana_program::account_info::AccountInfo;
use anchor_lang::solana_program::pubkey::Pubkey;
use mpl_core::accounts::{BaseAssetV1, BaseCollectionV1, PluginHeaderV1};
use mpl_core::types::{Attributes, Key as CoreKey, PluginType, UpdateAuthority};
use mpl_core::{fetch_plugin, DataBlob, PluginRegistryV1Safe};
use crate::key::le_word;
use crate::staking::attributes::{Attribute, opt_attrs_view};

verus! {

/// The update authority recorded in an asset, as raw address bytes.
#[derive(Clone, Copy, Debug)]
pub enum AuthorityRecord {
    NoAuthority,
    Address([u8; 32]),
    Collection([u8; 32]),
}

/// The field of a collection account that the staking program checks, the
/// update authority, with the length of the collection's own record
/// (`DataBlob::len`), after which its plugin data starts.
#[derive(Clone, Copy, Debug)]
pub struct CollectionRecord {
    pub update_authority: [u8; 32],
    pub base_len: usize,
}

/// The fields of an asset account that the staking program checks, with
/// what locating the asset's plugins needs: whether the account's key byte
/// marks an asset (`Key::AssetV1`), and the length of the asset's own record
/// (`DataBlob::len`), after which the plugin header starts.
#[derive(Clone, Copy, Debug)]
pub struct AssetRecord {
    pub owner: [u8; 32],
    pub update_authority: AuthorityRecord,
    pub is_asset: bool,
    pub base_len: usize,
}

/// What `BaseAssetV1::deserialize_reader` reads from the front of `data`
/// (trailing plugin bytes left unread), reduced to the owner and update
/// authority; `None` where it fails.
pub uninterp spec fn asset_record_of(data: Seq<u8>) -> Option<AssetRecord>;

/// What `BaseCollectionV1::deserialize_reader` reads from the front of
/// `data` (trailing plugin bytes left unread), reduced to the update
/// authority and the record's length; `None` where it fails.
pub uninterp spec fn collection_record_of(data: Seq<u8>) -> Option<CollectionRecord>;

/// Decodes the asset account data with `BaseAssetV1::deserialize_reader`
/// (mpl-core's Borsh decoding).
///
/// Trusted: claims that the result is a function of the bytes, named
/// `asset_record_of`, and that the decoding reads the first `base_len` bytes
/// and nothing after them (`DataBlob::len` counts the bytes of each field
/// that Borsh reads in turn), so that those bytes followed by any others
/// decode the same. The Borsh layout itself is not stated.
#[verifier::external_body]
pub(crate) fn read_asset(data: &[u8]) -> (r: Option<AssetRecord>)
    ensures
        r == asset_record_of(data@),
        r matches Some(a) ==> a.base_len <= data@.len() && forall|more: Seq<u8>|
            #[trigger] asset_record_of(data@.subrange(0, a.base_len as int) + more) == Some(a),
{
    let mut reader: &[u8] = data;
    BaseAssetV1::deserialize_reader(&mut reader).ok().map(|a| AssetRecord {
        owner: a.owner.to_bytes(),
        update_authority: match a.update_authority {
            UpdateAuthority::None => AuthorityRecord::NoAuthority,
            UpdateAuthority::Address(k) => AuthorityRecord::Address(k.to_bytes()),
            UpdateAuthority::Collection(k) => AuthorityRecord::Collection(k.to_bytes()),
        },
        is_asset: matches!(a.key, CoreKey::AssetV1),
        base_len: a.len(),
    })
}

/// Decodes the collection account data with
/// `BaseCollectionV1::deserialize_reader` and keeps its update authority and
/// the length of its record.
///
/// Trusted: claims that the result is a function of the bytes, named
/// `collection_record_of`, and that the decoding reads the first `base_len`
/// bytes and nothing after them (`DataBlob::len` counts the bytes of each
/// field that Borsh reads in turn), so that those bytes followed by any
/// others decode the same. The Borsh layout itself is not stated.
#[verifier::external_body]
pub(crate) fn read_collection(data: &[u8]) -> (r: Option<CollectionRecord>)
    ensures
        r == collection_record_of(data@),
        r matches Some(c) ==> c.base_len <= data@.len() && forall|more: Seq<u8>|
            #[trigger] collection_record_of(data@.subrange(0, c.base_len as int) + more) == Some(c),
{
    let mut reader: &[u8] = data;
    BaseCollectionV1::deserialize_reader(&mut reader).ok().map(|c| CollectionRecord {
        update_authority: c.update_authority.to_bytes(),
        base_len: c.len(),
    })
}

/// The plugin registry offset that a plugin header at the front of `data`
/// holds: the header is a `Key` byte (one of the enum's six variants)
/// followed by the offset as a little-endian `u64`; `None` where the bytes
/// are too few or the key byte names no variant.
pub open spec fn plugin_header_offset(data: Seq<u8>) -> Option<u64> {
    if data.len() >= 9 && data[0] < 6 {
        Some(le_word(data, 1) as u64)
    } else {
        None
    }
}

/// The records of the plugin registry that `PluginRegistryV1Safe::from_bytes`
/// reads from the front of `data`, each as its plugin type byte and the
/// offset of its plugin; `None` where it fails.
pub uninterp spec fn registry_of(data: Seq<u8>) -> Option<Seq<(u8, u64)>>;

/// The attribute list of the `Attributes` plugin that
/// `fetch_plugin::<BaseAssetV1, Attributes>` finds in an asset account
/// holding `data`; `None` where it finds none or fails to decode it.
pub uninterp spec fn attributes_of(data: Seq<u8>) -> Option<Seq<(Seq<char>, Seq<char>)>>;

/// Decodes a plugin header with `PluginHeaderV1::from_bytes`.
///
/// Trusted: claims that it reads the header's nine bytes as Borsh lays them
/// out (`plugin_header_offset`): the `Key` enum as one byte that must name a
/// variant, then the `u64` offset, little-endian.
#[verifier::external_body]
fn read_plugin_header(data: &[u8]) -> (r: Option<u64>)
    ensures
        r == plugin_header_offset(data@),
{
    PluginHeaderV1::from_bytes(data).ok().map(|h| h.plugin_registry_offset)
}

/// Decodes a plugin registry with `PluginRegistryV1Safe::from_bytes`, which
/// keeps the type of each record as its raw byte.
///
/// Trusted: claims only that the result is a function of the bytes, named
/// `registry_of`.
#[verifier::external_body]
fn read_registry(data: &[u8]) -> (r: Option<Vec<(u8, u64)>>)
    ensures
        r matches Some(v) ==> registry_of(data@) == Some(v@),
        r is None ==> registry_of(data@) is None,
{
    PluginRegistryV1Safe::from_bytes(data).ok().map(|reg| reg.registry.iter().map(|rec| (rec.plugin_type, rec.offset)).collect())
}

/// The type byte of the `Attributes` plugin: its position in mpl-core's
/// `PluginType` enum, which `PluginType::from_u8` (derived `FromPrimitive`)
/// maps back to `Attributes`.
pub const ATTRIBUTES_PLUGIN_TYPE: u8 = 6;

/// The offset of the first registry record whose type is `Attributes`.
pub open spec fn first_attributes_offset(registry: Seq<(u8, u64)>) -> Option<u64>
    decreases registry.len(),
{
    if registry.len() == 0 {
        None
    } else if registry[0].0 == ATTRIBUTES_PLUGIN_TYPE {
        Some(registry[0].1)
    } else {
        first_attributes_offset(registry.drop_first())
    }
}

/// Whether `fetch_plugin::<BaseAssetV1, Attributes>` would slice an asset
/// account holding `data` past its end: where the account decodes as an
/// asset with plugin data after it, and the plugin header, or the first
/// `Attributes` record of the registry it points to, holds an offset beyond
/// the data.
pub open spec fn attributes_read_faults(data: Seq<u8>) -> bool {
    match asset_record_of(data) {
        None => false,
        Some(a) => a.is_asset && a.base_len != data.len() && (a.base_len > data.len() || match plugin_header_offset(
            data.subrange(a.base_len as int, data.len() as int),
        ) {
            None => false,
            Some(off) => off > data.len() || match registry_of(data.subrange(off as int, data.len() as int)) {
                None => false,
                Some(registry) => match first_attributes_offset(registry) {
                    None => false,
                    Some(at) => at > data.len(),
                },
            },
        }),
    }
}

/// Reads the asset's `Attributes` plugin with
/// `fetch_plugin::<BaseAssetV1, Attributes>`, over an account owned by
/// mpl-core that holds `data`; `None` where the plugin is missing or does not
/// decode.
///
/// Trusted: claims only that the result is a function of the bytes, named
/// `attributes_of`. `fetch_plugin` slices the data at offsets that it reads
/// from it, so the data must not make it slice past its end.
#[verifier::external_body]
pub(crate) fn read_attributes(data: &[u8]) -> (r: Option<Vec<Attribute>>)
    requires
        !attributes_read_faults(data@),
    ensures
        opt_attrs_view(r) == attributes_of(data@),
{
    let key = Pubkey::default();
    let mut lamports: u64 = 0;
    let mut bytes: Vec<u8> = data.to_vec();
    let account = AccountInfo::new(&key, false, false, &mut lamports, &mut bytes, &mpl_core::ID, false, 0);
    fetch_plugin::<BaseAssetV1, Attributes>(&account, PluginType::Attributes).ok().map(|(_, attributes, _)| {
        attributes.attribute_list.into_iter().map(|a| Attribute { key: a.key, value: a.value }).collect()
    })
}

/// Tells, before reading the asset's `Attributes` plugin, whether the read
/// would slice past the end of `data` (`attributes_read_faults`).
#[verifier::loop_isolation(false)]
pub fn attributes_read_fault(data: &[u8]) -> (r: bool)
    ensures
        r == attributes_read_faults(data@),
{
    let len = data.len();
    let a = match read_asset(data) {
        None => return false,
        Some(a) => a,
    };
    if !a.is_asset || a.base_len == len {
        return false;
    }
    if a.base_len > len {
        return true;
    }
    let off = match read_plugin_header(vstd::slice::slice_subrange(data, a.base_len, len)) {
        None => return false,
        Some(off) => off,
    };
    if off > len as u64 {
        return true;
    }
    let registry = match read_registry(vstd::slice::slice_subrange(data, off as usize, len)) {
        None => return false,
        Some(registry) => registry,
    };
    let mut i: usize = 0;
    assert(registry@.skip(0) =~= registry@);
    while i < registry.len()
        invariant
            0 <= i <= registry.len(),
            first_attributes_offset(registry@) == first_attributes_offset(registry@.skip(i as int)),
        decreases registry.len() - i,
    {
        let (plugin_type, at) = registry[i];
        if plugin_type == ATTRIBUTES_PLUGIN_TYPE {
            assert(registry@.skip(i as int)[0] == (plugin_type, at));
            return at > len as u64;
        }
        assert(registry@.skip(i as int).drop_first() =~= registry@.skip(i + 1));
        i = i + 1;
    }
    false
}

} // verus!
