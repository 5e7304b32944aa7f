use wepo::cmd::{Cmd, Reply};
use wepo::keys::{CacheKey, Relation};
use wepo::notice::{get_unread_msg, NoticeType, UnreadMsg};
use wepo::store::CacheStore;

#[test]
fn notice_type_numbers() {
    assert_eq!(NoticeType::Comment.to_i16(), 1);
    assert_eq!(NoticeType::Like.to_i16(), 2);
    assert_eq!(NoticeType::Hate.to_i16(), 3);
    assert_eq!(NoticeType::FriendAdd.to_i16(), 4);
    assert_eq!(NoticeType::FriendRemove.to_i16(), 5);
}

#[test]
fn notice_keys_per_category() {
    assert_eq!(NoticeType::Comment.get_notice_key(&9), "unread_comments:9");
    assert_eq!(NoticeType::Like.get_notice_key(&9), "unread_likes:9");
    assert_eq!(NoticeType::Hate.get_notice_key(&9), "unread_hates:9");
    assert_eq!(NoticeType::FriendAdd.get_notice_key(&9), "unread_friend_add:9");
    assert_eq!(NoticeType::FriendRemove.get_notice_key(&9), "unread_friend_remove:9");
}

#[test]
fn n_sends_count_n_and_one_read_clears() {
    let mut store = CacheStore::new();
    let user: i32 = 4;
    for _ in 0..3 {
        NoticeType::Like.incr(&mut store, &user);
    }
    NoticeType::Comment.incr(&mut store, &user);
    let unread = get_unread_msg(&user, &mut store);
    assert_eq!(unread.likes, 3);
    assert_eq!(unread.comments, 1);
    assert_eq!(unread.hates, 0);
    assert_eq!(unread.friend_add, 0);
    assert_eq!(unread.friend_remove, 0);

    // One list read of the category clears it, whatever the page held.
    NoticeType::Like.del(&mut store, &user);
    let unread = get_unread_msg(&user, &mut store);
    assert_eq!(unread.likes, 0);
    assert_eq!(unread.comments, 1);
}

#[test]
fn counters_are_per_user_and_per_category() {
    let mut store = CacheStore::new();
    NoticeType::Like.incr(&mut store, &1);
    NoticeType::Like.incr(&mut store, &2);
    NoticeType::Hate.incr(&mut store, &1);
    assert_eq!(get_unread_msg(&1, &mut store).likes, 1);
    assert_eq!(get_unread_msg(&2, &mut store).likes, 1);
    assert_eq!(get_unread_msg(&1, &mut store).hates, 1);
    assert_eq!(get_unread_msg(&2, &mut store).hates, 0);
}

#[test]
fn clearing_an_absent_counter_stays_zero() {
    let mut store = CacheStore::new();
    NoticeType::FriendRemove.del(&mut store, &3);
    assert_eq!(get_unread_msg(&3, &mut store).friend_remove, 0);
}

#[test]
fn cmd_list_reads_all_five_counters() {
    let commands = UnreadMsg::cmd_list(&9);
    assert_eq!(commands, vec![
        Cmd::Get(CacheKey { relation: Relation::UnreadComments, id: 9 }),
        Cmd::Get(CacheKey { relation: Relation::UnreadLikes, id: 9 }),
        Cmd::Get(CacheKey { relation: Relation::UnreadHates, id: 9 }),
        Cmd::Get(CacheKey { relation: Relation::UnreadFriendAdd, id: 9 }),
        Cmd::Get(CacheKey { relation: Relation::UnreadFriendRemove, id: 9 }),
    ]);
}

#[test]
fn from_replies_decodes_by_position_and_tolerates_junk() {
    let replies = vec![
        Reply::Bulk("2".to_string()),
        Reply::Nil,
        Reply::Bulk("junk".to_string()),
        Reply::Bulk("5000000000".to_string()),
        Reply::Bulk("-1".to_string()),
    ];
    let msg = UnreadMsg::from_replies(&replies);
    assert_eq!(msg.comments, 2);
    assert_eq!(msg.likes, 0);
    assert_eq!(msg.hates, 0);
    assert_eq!(msg.friend_add, 0);
    assert_eq!(msg.friend_remove, -1);
    let empty = UnreadMsg::from_replies(&Vec::new());
    assert_eq!(empty, UnreadMsg::default());
}
