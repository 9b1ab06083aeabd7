use sha2::{Digest, Sha256};
use storage_outpost::helpers::filetree_helpers::{
    hash_and_hex, join_with_slashes, merkle_helper, merkle_path, split_at_slashes, trim_end_slashes,
};
use storage_outpost::table::{key_order, KeyOrder, Table};

fn reference_hash(input: &str) -> String {
    let mut hasher = Sha256::new();
    hasher.update(input.as_bytes());
    hex::encode(hasher.finalize())
}

fn reference_merkle_path(path: &str) -> String {
    let trim_path = path.trim_end_matches('/');
    let chunks: Vec<&str> = trim_path.split('/').collect();
    let mut total = String::new();
    for chunk in chunks {
        let b = reference_hash(chunk);
        let k = format!("{}{}", total, b);
        total = reference_hash(&k);
    }
    total
}

fn reference_merkle_helper(path: &str) -> (String, String) {
    let trim_path = path.trim_end_matches('/');
    let chunks: Vec<&str> = trim_path.split('/').collect();
    let parent_string = chunks[..chunks.len() - 1].join("/");
    let child_string = chunks[chunks.len() - 1].to_string();
    (reference_merkle_path(&parent_string), reference_hash(&child_string))
}

const PATHS: [&str; 12] =
    ["", "/", "//", "s", "s/", "s/home", "s/home/", "s//home", "/s/home", "a/b/c/d.txt", "ü/漢", "s/home//"];

#[test]
fn hash_and_hex_is_the_sha256_digest_in_lower_case_hex() {
    assert_eq!(hash_and_hex("hello"), "2cf24dba5fb0a30e26e83b2ac5b9e29e1b161e5c1fa7425e73043362938b9824");
    assert_eq!(hash_and_hex(""), "e3b0c44298fc1c149afbf4c8996fb92427ae41e4649b934ca495991b7852b855");
    assert_eq!(hash_and_hex("s/home"), reference_hash("s/home"));
}

#[test]
fn merkle_path_folds_the_parts_of_the_path() {
    // one part: the hash of the part's hash
    assert_eq!(merkle_path("s"), hash_and_hex(&hash_and_hex("s")));
    // two parts: the second part's hash behind the path of the first
    let first = merkle_path("s");
    assert_eq!(merkle_path("s/home"), hash_and_hex(&format!("{}{}", first, hash_and_hex("home"))));
    for path in PATHS {
        assert_eq!(merkle_path(path), reference_merkle_path(path), "{path:?}");
    }
}

#[test]
fn slashes_at_the_end_do_not_change_the_merkle_path() {
    assert_eq!(merkle_path("s/home///"), merkle_path("s/home"));
    assert_ne!(merkle_path("s//home"), merkle_path("s/home"));
}

#[test]
fn merkle_helper_gives_the_parents_path_and_the_childs_hash() {
    assert_eq!(merkle_helper("s/home"), (merkle_path("s"), hash_and_hex("home")));
    assert_eq!(merkle_helper("home"), (merkle_path(""), hash_and_hex("home")));
    for path in PATHS {
        assert_eq!(merkle_helper(path), reference_merkle_helper(path), "{path:?}");
    }
}

#[test]
fn paths_are_trimmed_split_and_joined_at_slashes() {
    assert_eq!(trim_end_slashes(b"a/b//"), b"a/b");
    assert_eq!(trim_end_slashes(b"///"), b"");
    assert_eq!(split_at_slashes(b""), vec![b"".to_vec()]);
    assert_eq!(split_at_slashes(b"a//b/"), vec![b"a".to_vec(), b"".to_vec(), b"b".to_vec(), b"".to_vec()]);
    let parts = split_at_slashes(b"a/b/c");
    assert_eq!(join_with_slashes(&parts, 3), b"a/b/c");
    assert_eq!(join_with_slashes(&parts, 2), b"a/b");
    assert_eq!(join_with_slashes(&parts, 0), b"");
}

#[test]
fn keys_are_ordered_by_their_bytes() {
    assert_eq!(key_order("a", "b"), KeyOrder::Before);
    assert_eq!(key_order("b", "a"), KeyOrder::After);
    assert_eq!(key_order("a", "a"), KeyOrder::Same);
    assert_eq!(key_order("", "a"), KeyOrder::Before);
    assert_eq!(key_order("ab", "a"), KeyOrder::After);
    assert_eq!(key_order("Z", "a"), KeyOrder::Before);
    assert_eq!(key_order("z", "ü"), KeyOrder::Before);
    for (a, b) in [("x", "y"), ("", ""), ("abc", "abd"), ("漢", "ü")] {
        let expected = match a.as_bytes().cmp(b.as_bytes()) {
            std::cmp::Ordering::Less => KeyOrder::Before,
            std::cmp::Ordering::Equal => KeyOrder::Same,
            std::cmp::Ordering::Greater => KeyOrder::After,
        };
        assert_eq!(key_order(a, b), expected);
    }
}

#[test]
fn table_keeps_one_value_for_each_key_in_ascending_order() {
    let mut table: Table<String> = Table::new();
    assert_eq!(table.len(), 0);
    assert_eq!(table.get("a"), None);
    table.insert("b".to_string(), "2".to_string());
    table.insert("a".to_string(), "1".to_string());
    table.insert("c".to_string(), "3".to_string());
    table.insert("b".to_string(), "two".to_string());
    assert_eq!(table.len(), 3);
    assert_eq!(table.get("b"), Some(&"two".to_string()));
    assert!(table.contains_key("a"));
    assert!(!table.contains_key("d"));
    assert_eq!(
        table.pairs(),
        vec![
            ("a".to_string(), "1".to_string()),
            ("b".to_string(), "two".to_string()),
            ("c".to_string(), "3".to_string())
        ]
    );
}
