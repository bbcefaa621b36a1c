use onlyfriends::deep_link::{build_add_friend_link, build_add_friend_scheme_link, find_add_friend_arg, parse_add_friend_link};
use onlyfriends::friend::add_friend;
use onlyfriends::identity::Identity;
use onlyfriends::landing::{add_friend_landing, is_postcard_content_type, PAGE_INVALID};
use onlyfriends::mailbox::{epoch_at, mailbox_address};
use onlyfriends::relay::{sleep_step, MailboxStore};
use onlyfriends::sync::{inbox_address, outbox_address, read_window};

#[test]
fn same_inputs_same_address() {
    let root = [7u8; 32];
    assert_eq!(mailbox_address(&root, 0, 100), mailbox_address(&root, 0, 100));
}

#[test]
fn direction_and_epoch_change_the_address() {
    let root = [7u8; 32];
    assert_ne!(mailbox_address(&root, 0, 100), mailbox_address(&root, 1, 100));
    assert_ne!(mailbox_address(&root, 0, 100), mailbox_address(&root, 0, 101));
}

#[test]
fn mailbox_address_is_64_hex_digits() {
    let a = mailbox_address(&[0u8; 32], 1, 7);
    assert_eq!(a.len(), 64);
    assert!(a.chars().all(|c| c.is_ascii_hexdigit() && !c.is_ascii_uppercase()));
}

#[test]
fn what_one_friend_posts_the_other_reads() {
    let (a, b) = (Identity::generate(), Identity::generate());
    let a_side = add_friend(&a, &b.public(), "B");
    let b_side = add_friend(&b, &a.public(), "A");
    assert_eq!(outbox_address(&a.public(), &a_side, 9), inbox_address(&b.public(), &b_side, 9));
    assert_eq!(outbox_address(&b.public(), &b_side, 9), inbox_address(&a.public(), &a_side, 9));
    assert_ne!(outbox_address(&a.public(), &a_side, 9), inbox_address(&a.public(), &a_side, 9));
}

#[test]
fn epochs_and_read_window() {
    assert_eq!(epoch_at(86400 * 3 + 5, 86400), 3);
    assert_eq!(read_window(10), (3, 10));
    assert_eq!(read_window(5), (0, 5));
}

#[test]
fn links_round_trip() {
    let code = "0a1B2c";
    let link = build_add_friend_link(code);
    assert_eq!(link, "https://of.integritetsbyran.org/add/0a1B2c");
    assert_eq!(parse_add_friend_link(&link), Some(code.to_string()));
    let scheme = build_add_friend_scheme_link(code);
    assert_eq!(scheme, "onlyfriends://add/0a1B2c");
    assert_eq!(parse_add_friend_link(&scheme), Some(code.to_string()));
}

#[test]
fn parsing_accepts_the_documented_forms() {
    assert_eq!(parse_add_friend_link("  onlyfriends://add/abcd/ \n"), Some("abcd".to_string()));
    assert_eq!(parse_add_friend_link("http://of.integritetsbyran.org//add/ab"), Some("ab".to_string()));
    assert_eq!(parse_add_friend_link("onlyfriends://abcd"), Some("abcd".to_string()));
    assert_eq!(parse_add_friend_link("https://example.com/add/abcd"), None);
    assert_eq!(parse_add_friend_link("onlyfriends://add/abc"), None); // odd length
    assert_eq!(parse_add_friend_link("onlyfriends://add/zz"), None); // not hex
    assert_eq!(parse_add_friend_link("onlyfriends://add/"), None);
    assert_eq!(parse_add_friend_link("ftp://of.integritetsbyran.org/add/ab"), None);
}

#[test]
fn finds_the_first_link_argument() {
    let args = vec!["app".to_string(), "--flag".to_string(), "onlyfriends://add/beef".to_string(), "onlyfriends://add/cafe".to_string()];
    assert_eq!(find_add_friend_arg(&args), Some("beef".to_string()));
    assert_eq!(find_add_friend_arg(&args[..2]), None);
}

#[test]
fn landing_page_only_embeds_hex_codes() {
    let (status, page) = add_friend_landing("<script>");
    assert_eq!(status, 400);
    assert_eq!(page, PAGE_INVALID);
    let (status, page) = add_friend_landing("beef");
    assert_eq!(status, 200);
    assert!(page.contains("window.location.replace(\"onlyfriends://add/beef\");"));
}

#[test]
fn content_type_check() {
    assert!(is_postcard_content_type(Some(b"application/postcard")));
    assert!(!is_postcard_content_type(Some(b"application/json")));
    assert!(!is_postcard_content_type(None));
}

#[test]
fn relay_gives_back_what_was_posted() {
    let mut store = MailboxStore::new();
    store.post("aa".to_string(), vec![1], 10);
    store.post("bb".to_string(), vec![2], 11);
    store.post("aa".to_string(), vec![3], 12);
    assert_eq!(store.get("aa", 0), vec![vec![1], vec![3]]);
    assert_eq!(store.get("aa", 1), vec![vec![3]]);
    assert_eq!(store.get("aa", 2), Vec::<Vec<u8>>::new());
    assert_eq!(store.get("aa", 5), Vec::<Vec<u8>>::new());
    assert_eq!(store.get("cc", 0), Vec::<Vec<u8>>::new());
    assert_eq!(store.mailbox_count(), 2);
}

#[test]
fn relay_cleanup_drops_old_letters_and_empty_mailboxes() {
    let sec: u64 = 1_000_000_000;
    let mut store = MailboxStore::new();
    store.post("aa".to_string(), vec![1], 0);
    store.post("aa".to_string(), vec![2], 100 * sec);
    store.post("bb".to_string(), vec![3], 0);
    let (letters, boxes) = store.cleanup(150 * sec, 60);
    assert_eq!((letters, boxes), (2, 1));
    assert_eq!(store.get("aa", 0), vec![vec![2]]);
    assert_eq!(store.get("bb", 0), Vec::<Vec<u8>>::new());
    assert_eq!(store.mailbox_count(), 1);
    // a letter from the future is never too old
    store.post("cc".to_string(), vec![4], 1000 * sec);
    assert_eq!(store.cleanup(150 * sec, 60), (0, 0));
}

#[test]
fn relay_ages_letters_to_the_nanosecond() {
    let mut store = MailboxStore::new();
    // 100.8 s old with a maximum age of 100 s: dropped.
    store.post("aa".to_string(), vec![1], 10_100_000_000);
    // exactly 100 s old: kept.
    store.post("bb".to_string(), vec![2], 10_900_000_000);
    assert_eq!(store.cleanup(110_900_000_000, 100), (1, 1));
    assert_eq!(store.get("aa", 0), Vec::<Vec<u8>>::new());
    assert_eq!(store.get("bb", 0), vec![vec![2]]);
}

#[test]
fn sleep_steps() {
    assert_eq!(sleep_step(0, 1_800_000), Some(300_000));
    assert_eq!(sleep_step(1_700_000, 1_800_000), Some(100_000));
    assert_eq!(sleep_step(1_800_000, 1_800_000), None);
}
