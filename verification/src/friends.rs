//! Friend list queries: filter masks and the records handed to the host.

use vstd::prelude::*;
use crate::identity::BigInt;

verus! {

/// Every bit of a filter value that the platform client knows. Its flag set
/// covers the low sixteen bits.
pub const KNOWN_BITS_MASK: i32 = 0xFFFF;

/// Filter categories of a friend list query.
#[derive(Debug, Clone, Copy, PartialEq, Eq, Structural)]
pub enum FriendFlags {
    Empty,
    Blocked,
    FriendshipRequested,
    Immediate,
    ClanMember,
    OnGameServer,
    RequestingFriendship,
    RequestingInfo,
    All,
}

impl FriendFlags {
    /// The category's value on the wire.
    pub open spec fn spec_bits(self) -> i32 {
        match self {
            FriendFlags::Empty => 0x00,
            FriendFlags::Blocked => 0x01,
            FriendFlags::FriendshipRequested => 0x02,
            FriendFlags::Immediate => 0x04,
            FriendFlags::ClanMember => 0x08,
            FriendFlags::OnGameServer => 0x10,
            FriendFlags::RequestingFriendship => 0x80,
            FriendFlags::RequestingInfo => 0x100,
            FriendFlags::All => 0xFFFF,
        }
    }

    #[verifier::when_used_as_spec(spec_bits)]
    pub fn bits(self) -> (bits: i32)
        ensures
            bits == self.spec_bits(),
    {
        match self {
            FriendFlags::Empty => 0x00,
            FriendFlags::Blocked => 0x01,
            FriendFlags::FriendshipRequested => 0x02,
            FriendFlags::Immediate => 0x04,
            FriendFlags::ClanMember => 0x08,
            FriendFlags::OnGameServer => 0x10,
            FriendFlags::RequestingFriendship => 0x80,
            FriendFlags::RequestingInfo => 0x100,
            FriendFlags::All => 0xFFFF,
        }
    }
}

/// The mask that a host-side filter value stands for: its known bits.
pub open spec fn known_bits(flags: i32) -> u16 {
    (flags & KNOWN_BITS_MASK) as u16
}

/// Whether an account whose relationship to the user has the bits
/// `relationship` is matched by a query with `mask`: they share a bit.
pub open spec fn meets(relationship: u16, mask: u16) -> bool {
    relationship & mask != 0
}

/// Truncates a host-side filter value to the mask handed to the platform
/// client. Bits outside the known range are dropped, never rejected.
pub fn truncate_flags(flags: i32) -> (mask: u16)
    ensures
        mask == known_bits(flags),
{
    let low: u16 = #[verifier::truncate] (flags as u16);
    assert(low & 0xFFFFu16 == (flags & 0xFFFFi32) as u16) by (bit_vector)
        requires
            low == flags as u16,
    ;
    low & 0xFFFF
}

/// One account as the platform client reports it.
#[derive(Debug, Clone)]
pub struct FriendRecord {
    pub id: u64,
    pub name: String,
}

/// One account as handed to the host: the identity in wide form, so that no
/// host number type can round it, and the display name.
#[derive(Debug, Clone)]
pub struct Friend {
    pub steam_id: BigInt,
    pub name: String,
}

impl Friend {
    /// This friend is the host form of `record`: the identity as a single
    /// non-negative word, the name unchanged.
    pub open spec fn represents(&self, record: FriendRecord) -> bool {
        &&& !self.steam_id.sign_bit
        &&& self.steam_id.words@ == seq![record.id]
        &&& self.steam_id@ == record.id
        &&& self.name@ == record.name@
    }
}

/// `friends` holds the host form of each of `records`, in the same order.
pub open spec fn marshalled(records: Seq<FriendRecord>, friends: Seq<Friend>) -> bool {
    &&& friends.len() == records.len()
    &&& forall|i: int| 0 <= i < records.len() ==> (#[trigger] friends[i]).represents(records[i])
}

/// Turns the accounts that the platform client matched into the friends
/// handed to the host. Nothing is added, dropped or reordered.
pub fn friends_from_records(records: Vec<FriendRecord>) -> (friends: Vec<Friend>)
    ensures
        marshalled(records@, friends@),
{
    let mut friends: Vec<Friend> = Vec::new();
    for record in iter: records
        invariant
            iter.seq() == records@,
            friends@.len() == iter.index(),
            forall|i: int|
                0 <= i < friends@.len() ==> (#[trigger] friends@[i]).represents(records@[i]),
    {
        let friend = Friend { steam_id: BigInt::from_u64(record.id), name: record.name };
        friends.push(friend);
    }
    friends
}

/// Lists the friends that match a filter. The filter is truncated to its
/// known bits, `query` is asked once with that mask, and its answer is handed
/// on as `friends_from_records` gives it. An empty answer is a valid result.
pub fn get_friends<Q>(flags: i32, query: Q) -> (friends: Vec<Friend>) where
    Q: FnOnce(u16) -> Vec<FriendRecord>,

    requires
        call_requires(query, (known_bits(flags),)),
    ensures
        exists|records: Vec<FriendRecord>|
            #[trigger] call_ensures(query, (known_bits(flags),), records) && marshalled(
                records@,
                friends@,
            ),
{
    let mask = truncate_flags(flags);
    let records = query(mask);
    friends_from_records(records)
}

/// Reads the display name of an account. `lookup` is asked once with the
/// identity that `steam_id64` carries in its low word, and its answer is
/// returned as it is: text that is empty for an unknown account stays empty.
pub fn get_friend_name<L>(steam_id64: BigInt, lookup: L) -> (name: String) where
    L: FnOnce(u64) -> String,

    requires
        steam_id64.wf(),
        call_requires(lookup, (steam_id64.low_word(),)),
    ensures
        call_ensures(lookup, (steam_id64.low_word(),), name),
{
    let id = steam_id64.get_u64().1;
    lookup(id)
}

/// The accounts of a friend list that a query with `mask` matches, by
/// identity. `relationships` gives each listed account's relationship bits.
pub open spec fn matching(relationships: Map<u64, u16>, mask: u16) -> Set<u64> {
    Set::new(|id: u64| relationships.dom().contains(id) && meets(relationships[id], mask))
}

/// The mask of a filter value is its low sixteen bits as a number.
pub proof fn lemma_known_bits_is_remainder(flags: i32)
    ensures
        known_bits(flags) == flags as int % 0x1_0000,
{
    assert((flags & 0xFFFFi32) as u16 == flags as int % 0x1_0000) by (bit_vector);
}

/// Bits outside the known range never reach the platform client: two filter
/// values that agree on the known bits give the same mask.
pub proof fn lemma_unknown_bits_ignored(flags: i32, other: i32)
    requires
        flags & KNOWN_BITS_MASK == other & KNOWN_BITS_MASK,
    ensures
        known_bits(flags) == known_bits(other),
{
}

/// Setting or clearing bits above the known range changes nothing.
pub proof fn lemma_high_bits_dropped(flags: i32, noise: i32)
    ensures
        known_bits(flags ^ (noise & !KNOWN_BITS_MASK)) == known_bits(flags),
{
    assert((flags ^ (noise & !0xFFFFi32)) & 0xFFFFi32 == flags & 0xFFFFi32) by (bit_vector);
}

/// Truncation is idempotent: a mask, read again as a filter value, is
/// its own mask.
pub proof fn lemma_truncation_idempotent(flags: i32)
    ensures
        known_bits(known_bits(flags) as i32) == known_bits(flags),
{
    assert((((flags & 0xFFFFi32) as u16) as i32 & 0xFFFFi32) as u16 == (flags & 0xFFFFi32) as u16)
        by (bit_vector);
}

/// Each category's wire value is its own mask, and lies within `All`.
pub proof fn lemma_category_within_all(category: FriendFlags)
    ensures
        known_bits(category.spec_bits()) == category.spec_bits(),
        known_bits(category.spec_bits()) & known_bits(FriendFlags::All.spec_bits()) == known_bits(
            category.spec_bits(),
        ),
{
    assert(forall|bits: i32|
        0 <= bits <= 0xFFFF ==> #[trigger] ((bits & 0xFFFFi32) as u16) == bits && ((bits
            & 0xFFFFi32) as u16) & ((0xFFFFi32 & 0xFFFFi32) as u16) == (bits & 0xFFFFi32) as u16)
        by (bit_vector);
}

/// A wider mask matches at least as much: an account that meets `narrow`
/// meets every mask that holds all bits of `narrow`.
pub proof fn lemma_wider_mask_matches_more(relationships: Map<u64, u16>, narrow: u16, wide: u16)
    requires
        narrow & wide == narrow,
    ensures
        matching(relationships, narrow).subset_of(matching(relationships, wide)),
{
    assert forall|id: u64| matching(relationships, narrow).contains(id) implies matching(
        relationships,
        wide,
    ).contains(id) by {
        let relationship = relationships[id];
        assert(relationship & wide != 0) by (bit_vector)
            requires
                narrow & wide == narrow,
                relationship & narrow != 0,
        ;
    }
}

/// For one state of the friend list, the accounts that `All` matches hold
/// every account that any single category matches.
pub proof fn lemma_all_matches_superset(relationships: Map<u64, u16>, category: FriendFlags)
    ensures
        matching(relationships, known_bits(category.spec_bits())).subset_of(
            matching(relationships, known_bits(FriendFlags::All.spec_bits())),
        ),
{
    lemma_category_within_all(category);
    lemma_wider_mask_matches_more(
        relationships,
        known_bits(category.spec_bits()),
        known_bits(FriendFlags::All.spec_bits()),
    );
}

/// Marshalling keeps the match: where the platform client answered a query
/// for `flags` only with accounts that its mask matches, every friend handed
/// to the host is such an account, whose relationship shares a known bit
/// with `flags`.
pub proof fn lemma_friends_meet_filter(
    flags: i32,
    relationships: Map<u64, u16>,
    records: Seq<FriendRecord>,
    friends: Seq<Friend>,
)
    requires
        forall|i: int|
            0 <= i < records.len() ==> matching(relationships, known_bits(flags)).contains(
                #[trigger] records[i].id,
            ),
        marshalled(records, friends),
    ensures
        forall|i: int|
            0 <= i < friends.len() ==> {
                let id = (#[trigger] friends[i]).steam_id.low_word();
                &&& relationships.dom().contains(id)
                &&& relationships[id] & (flags & KNOWN_BITS_MASK) as u16 != 0
            },
{
    assert forall|i: int| 0 <= i < friends.len() implies {
        let id = (#[trigger] friends[i]).steam_id.low_word();
        &&& relationships.dom().contains(id)
        &&& relationships[id] & (flags & KNOWN_BITS_MASK) as u16 != 0
    } by {
        assert(friends[i].represents(records[i]));
        assert(matching(relationships, known_bits(flags)).contains(records[i].id));
    }
}

} // verus!
