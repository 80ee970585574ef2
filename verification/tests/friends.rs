use std::cell::Cell;

use steam_bridge::friends::{
    friends_from_records, get_friend_name, get_friends, truncate_flags, Friend, FriendFlags,
    FriendRecord,
};
use steam_bridge::identity::BigInt;

/// A friend list as a platform client would hold it: identity, name,
/// relationship bits.
fn roster() -> Vec<(u64, &'static str, u16)> {
    vec![
        (76561197985341433, "XXX", 0x04),
        (76561198034399293, "YYY", 0x04 | 0x10),
        (76561198000000001, "", 0x01),
        (76561198000000002, "ZZZ", 0x0200),
    ]
}

/// What a platform client answers to a query with `mask` on `roster`.
fn answer(mask: u16) -> Vec<FriendRecord> {
    let mut records = Vec::new();
    for (id, name, relationship) in roster() {
        if relationship & mask != 0 {
            records.push(FriendRecord { id, name: name.to_string() });
        }
    }
    records
}

fn ids(friends: &Vec<Friend>) -> Vec<u64> {
    let mut out = Vec::new();
    for friend in friends {
        assert!(!friend.steam_id.sign_bit);
        assert_eq!(friend.steam_id.words.len(), 1);
        out.push(friend.steam_id.words[0]);
    }
    out
}

#[test]
fn flag_wire_values() {
    assert_eq!(FriendFlags::Empty.bits(), 0x00);
    assert_eq!(FriendFlags::Blocked.bits(), 0x01);
    assert_eq!(FriendFlags::FriendshipRequested.bits(), 0x02);
    assert_eq!(FriendFlags::Immediate.bits(), 0x04);
    assert_eq!(FriendFlags::ClanMember.bits(), 0x08);
    assert_eq!(FriendFlags::OnGameServer.bits(), 0x10);
    assert_eq!(FriendFlags::RequestingFriendship.bits(), 0x80);
    assert_eq!(FriendFlags::RequestingInfo.bits(), 0x100);
    assert_eq!(FriendFlags::All.bits(), 0xFFFF);
}

#[test]
fn truncation_keeps_the_low_sixteen_bits() {
    assert_eq!(truncate_flags(FriendFlags::Immediate.bits()), 0x04);
    assert_eq!(truncate_flags(FriendFlags::All.bits()), 0xFFFF);
    assert_eq!(truncate_flags(0x1_0004), 0x04);
    assert_eq!(truncate_flags(0x7FFF_0000), 0);
    assert_eq!(truncate_flags(-1), 0xFFFF);
    assert_eq!(truncate_flags(i32::MIN), 0);
    assert_eq!(truncate_flags(i32::MAX), 0xFFFF);
    assert_eq!(truncate_flags(-2), 0xFFFE);
}

#[test]
fn truncation_is_idempotent() {
    for flags in [0, 4, 0x1_0004, -1, -65536, i32::MIN, i32::MAX, 0x0123_4567] {
        let mask = truncate_flags(flags);
        assert_eq!(truncate_flags(mask as i32), mask);
        assert_eq!(truncate_flags(flags & 0xFFFF), mask);
    }
}

#[test]
fn get_friends_asks_with_the_truncated_mask() {
    let seen = Cell::new(None);
    let friends = get_friends(0x00AB_0004, |mask| {
        seen.set(Some(mask));
        answer(mask)
    });
    assert_eq!(seen.get(), Some(0x0004));
    assert_eq!(ids(&friends), vec![76561197985341433, 76561198034399293]);
}

#[test]
fn get_friends_keeps_order_names_and_identities() {
    let friends = get_friends(FriendFlags::Immediate.bits(), answer);
    assert_eq!(friends.len(), 2);
    assert_eq!(friends[0].steam_id.get_u64(), (false, 76561197985341433, true));
    assert_eq!(friends[0].name, "XXX");
    assert_eq!(friends[1].steam_id.get_u64(), (false, 76561198034399293, true));
    assert_eq!(friends[1].name, "YYY");
}

#[test]
fn get_friends_with_no_match_is_empty() {
    assert!(get_friends(FriendFlags::ClanMember.bits(), answer).is_empty());
    assert!(get_friends(FriendFlags::Empty.bits(), answer).is_empty());
    assert!(get_friends(0x7FFF_0000, answer).is_empty());
}

#[test]
fn unknown_high_bits_do_not_change_the_result() {
    let plain = ids(&get_friends(0x11, answer));
    let noisy = ids(&get_friends(0x11 | 0x4000_0000, answer));
    let negative = ids(&get_friends(0x11 | i32::MIN, answer));
    assert_eq!(plain, vec![76561198034399293, 76561198000000001]);
    assert_eq!(noisy, plain);
    assert_eq!(negative, plain);
}

#[test]
fn all_holds_every_friend_that_immediate_holds() {
    let all = ids(&get_friends(FriendFlags::All.bits(), answer));
    let immediate = ids(&get_friends(FriendFlags::Immediate.bits(), answer));
    assert_eq!(all.len(), 4);
    assert!(!immediate.is_empty());
    for id in immediate {
        assert!(all.contains(&id));
    }
}

#[test]
fn records_marshal_one_for_one() {
    let records = vec![
        FriendRecord { id: u64::MAX, name: "last".to_string() },
        FriendRecord { id: 0, name: String::new() },
        FriendRecord { id: u64::MAX, name: "last".to_string() },
    ];
    let friends = friends_from_records(records);
    assert_eq!(ids(&friends), vec![u64::MAX, 0, u64::MAX]);
    assert_eq!(friends[0].name, "last");
    assert_eq!(friends[1].name, "");
    assert_eq!(friends[2].name, "last");
    assert!(friends_from_records(Vec::new()).is_empty());
}

fn name_of(id: u64) -> String {
    for (known, name, _) in roster() {
        if known == id {
            return name.to_string();
        }
    }
    String::new()
}

#[test]
fn friend_name_of_known_identity() {
    let name = get_friend_name(BigInt::from_u64(76561197985341433), name_of);
    assert_eq!(name, "XXX");
}

#[test]
fn friend_name_of_unknown_identity_is_empty() {
    assert_eq!(get_friend_name(BigInt::from_u64(1), name_of), "");
    assert_eq!(get_friend_name(BigInt::from_u64(u64::MAX), name_of), "");
}

#[test]
fn friend_name_is_looked_up_by_the_low_word() {
    let seen = Cell::new(0u64);
    let wide = BigInt { sign_bit: true, words: vec![76561198034399293, 5] };
    let name = get_friend_name(wide, |id| {
        seen.set(id);
        name_of(id)
    });
    assert_eq!(seen.get(), 76561198034399293);
    assert_eq!(name, "YYY");
}
