use escrow::asset::{coin, Addr};
use escrow::error::ContractError;
use escrow::msg::is_valid_name;
use escrow::order::precedes;
use escrow::registry::{all_escrow_ids, EscrowRegistry};
use escrow::state::{BlockInfo, Env, Escrow, GenericBalance};

fn record(title: &str) -> Escrow {
    Escrow {
        arbiter: Addr::unchecked("arbiter"),
        recipient: None,
        source: Addr::unchecked("source"),
        title: title.to_string(),
        description: String::new(),
        end_height: None,
        end_time: None,
        balance: GenericBalance { native: vec![coin(1, "atom")], cw20: vec![] },
        cw20_whitelist: vec![],
    }
}

fn at(height: u64, time_nanos: u64) -> Env {
    Env { block: BlockInfo { height, time_nanos } }
}

#[test]
fn new_registry_is_empty() {
    let registry = EscrowRegistry::new();
    assert_eq!(registry.list_ids(), Vec::<String>::new());
    assert!(!registry.has(&"a".to_string()));
    assert_eq!(registry.load(&"a".to_string()).unwrap_err(), ContractError::NotFound);
}

#[test]
fn create_never_overwrites() {
    let mut registry = EscrowRegistry::new();
    registry.create("a".to_string(), record("first")).unwrap();
    let err = registry.create("a".to_string(), record("second")).unwrap_err();
    assert_eq!(err, ContractError::AlreadyInUse);
    assert_eq!(registry.load(&"a".to_string()).unwrap(), record("first"));
}

#[test]
fn save_overwrites_and_inserts() {
    let mut registry = EscrowRegistry::new();
    registry.save("a".to_string(), record("first"));
    registry.save("a".to_string(), record("second"));
    registry.save("b".to_string(), record("third"));
    assert_eq!(registry.load(&"a".to_string()).unwrap(), record("second"));
    assert_eq!(registry.load(&"b".to_string()).unwrap(), record("third"));
    assert_eq!(registry.list_ids(), vec!["a".to_string(), "b".to_string()]);
}

#[test]
fn remove_frees_the_identifier() {
    let mut registry = EscrowRegistry::new();
    registry.create("a".to_string(), record("first")).unwrap();
    registry.remove(&"a".to_string());
    assert!(!registry.has(&"a".to_string()));
    registry.remove(&"a".to_string());
    registry.create("a".to_string(), record("again")).unwrap();
    assert_eq!(registry.load(&"a".to_string()).unwrap(), record("again"));
}

#[test]
fn identifiers_are_listed_in_ascending_byte_order() {
    let mut registry = EscrowRegistry::new();
    for id in ["b", "", "ab", "a", "B", "é", "abc", "z", "aa"] {
        registry.create(id.to_string(), record(id)).unwrap();
    }
    let mut expected: Vec<String> =
        ["b", "", "ab", "a", "B", "é", "abc", "z", "aa"].iter().map(|s| s.to_string()).collect();
    expected.sort();
    assert_eq!(all_escrow_ids(&registry), expected);
    assert_eq!(
        registry.list_ids(),
        vec!["", "B", "a", "aa", "ab", "abc", "b", "z", "é"]
            .into_iter()
            .map(String::from)
            .collect::<Vec<String>>()
    );
    registry.remove(&"a".to_string());
    assert_eq!(
        registry.list_ids(),
        vec!["", "B", "aa", "ab", "abc", "b", "z", "é"]
            .into_iter()
            .map(String::from)
            .collect::<Vec<String>>()
    );
    for id in registry.list_ids() {
        assert_eq!(registry.load(&id).unwrap().title, id);
    }
}

#[test]
fn listing_twice_gives_the_same() {
    let mut registry = EscrowRegistry::new();
    registry.create("x".to_string(), record("x")).unwrap();
    registry.create("w".to_string(), record("w")).unwrap();
    let first = registry.list_ids();
    let second = registry.list_ids();
    assert_eq!(first, second);
    assert_eq!(first, vec!["w".to_string(), "x".to_string()]);
}

#[test]
fn precedes_is_the_order_of_strings() {
    let samples = ["", "a", "aa", "ab", "b", "B", "é", "e", "zz", "z", "日本", "日"];
    for a in samples {
        for b in samples {
            assert_eq!(precedes(a, b), a < b, "{a:?} {b:?}");
        }
    }
}

#[test]
fn escrow_without_bounds_never_expires() {
    let escrow = record("open");
    assert!(!escrow.is_expired(&at(0, 0)));
    assert!(!escrow.is_expired(&at(u64::MAX, u64::MAX)));
}

#[test]
fn end_height_is_exclusive() {
    let mut escrow = record("height");
    escrow.end_height = Some(100);
    assert!(!escrow.is_expired(&at(99, 0)));
    assert!(!escrow.is_expired(&at(100, 0)));
    assert!(escrow.is_expired(&at(101, 0)));
}

#[test]
fn end_time_is_exclusive() {
    let mut escrow = record("time");
    escrow.end_time = Some(7);
    assert!(!escrow.is_expired(&at(0, 6_999_999_999)));
    assert!(!escrow.is_expired(&at(0, 7_000_000_000)));
    assert!(escrow.is_expired(&at(0, 7_000_000_001)));
}

#[test]
fn far_end_time_does_not_wrap() {
    let mut escrow = record("far");
    escrow.end_time = Some(u64::MAX);
    assert!(!escrow.is_expired(&at(0, u64::MAX)));
    escrow.end_time = Some(18_446_744_074);
    assert!(!escrow.is_expired(&at(0, u64::MAX)));
    escrow.end_time = Some(18_446_744_073);
    assert!(escrow.is_expired(&at(0, u64::MAX)));
}

#[test]
fn one_bound_is_enough_to_expire() {
    let mut escrow = record("both");
    escrow.end_height = Some(100);
    escrow.end_time = Some(7);
    assert!(!escrow.is_expired(&at(100, 7_000_000_000)));
    assert!(escrow.is_expired(&at(101, 0)));
    assert!(escrow.is_expired(&at(0, 7_000_000_001)));
}

#[test]
fn whitelist_as_text_keeps_the_order() {
    let mut escrow = record("list");
    escrow.cw20_whitelist = vec![Addr::unchecked("foo"), Addr::unchecked("bar")];
    assert_eq!(escrow.human_whitelist(), vec!["foo".to_string(), "bar".to_string()]);
    assert!(escrow.accepts(&Addr::unchecked("bar")));
    assert!(!escrow.accepts(&Addr::unchecked("baz")));
}

#[test]
fn names_of_three_to_twenty_bytes_are_valid() {
    assert!(!is_valid_name(""));
    assert!(!is_valid_name("ab"));
    assert!(is_valid_name("abc"));
    assert!(is_valid_name("12345678901234567890"));
    assert!(!is_valid_name("123456789012345678901"));
    assert!(!is_valid_name("é"));
    assert!(is_valid_name("éa"));
    assert!(is_valid_name("éééééééééé"));
    assert!(!is_valid_name("ééééééééééa"));
}

#[test]
fn only_the_arbiter_passes_the_guard() {
    let escrow = record("guard");
    assert_eq!(escrow.requires_arbiter(&Addr::unchecked("arbiter")), Ok(()));
    assert_eq!(
        escrow.requires_arbiter(&Addr::unchecked("source")),
        Err(ContractError::Unauthorized)
    );
    assert_eq!(escrow.requires_arbiter(&Addr::unchecked("")), Err(ContractError::Unauthorized));
}
