use cosmwasm_std::{to_json_binary, Uint128};
use cw20::Cw20ExecuteMsg;
use escrow::api::AddressBook;
use escrow::asset::{coin, coins, Addr, Balance, Coin, Cw20Coin, Cw20CoinVerified};
use escrow::contract::{
    build_escrow, execute, query, query_list, try_approve, try_create_escrow, try_receive,
    try_refund, try_set_recipient, try_top_up,
};
use escrow::error::ContractError;
use escrow::msg::{
    CreateMsg, Cw20ReceiveMsg, ExecuteMsg, ListResponse, QueryMsg, QueryResponse, ReceiveMsg,
};
use escrow::registry::EscrowRegistry;
use escrow::response::{attr, bank_send, wasm_execute, Response, TransferMsg};
use escrow::state::{BlockInfo, Env, GenericBalance, MessageInfo};
use escrow::transfer::{send_tokens, token_transfer};

fn at(height: u64, time_nanos: u64) -> Env {
    Env { block: BlockInfo { height, time_nanos } }
}

fn from(sender: &str) -> MessageInfo {
    MessageInfo { sender: Addr::unchecked(sender), funds: vec![] }
}

fn paying(sender: &str, funds: Vec<Coin>) -> MessageInfo {
    MessageInfo { sender: Addr::unchecked(sender), funds }
}

/// A book that accepts each of `raws` as it stands.
fn accepting(raws: &[&str]) -> AddressBook {
    let mut book = AddressBook::new();
    for raw in raws {
        book.record(raw, Some(Addr::unchecked(raw)));
    }
    book
}

fn create_msg(id: &str) -> CreateMsg {
    CreateMsg {
        id: id.to_string(),
        arbiter: "arbiter".to_string(),
        recipient: Some("recipient".to_string()),
        title: "title".to_string(),
        description: "description".to_string(),
        end_height: Some(1000),
        end_time: Some(50),
        cw20_whitelist: Some(vec!["foo".to_string()]),
    }
}

fn book() -> AddressBook {
    accepting(&["arbiter", "recipient", "foo", "source", "other"])
}

fn open(registry: &mut EscrowRegistry, id: &str) {
    let funds = Balance::from_coins(coins(100, "atom"));
    try_create_escrow(registry, &book(), create_msg(id), funds, &Addr::unchecked("source"))
        .unwrap();
}

fn transfer_json(recipient: &str, amount: u128) -> Vec<u8> {
    to_json_binary(&Cw20ExecuteMsg::Transfer {
        recipient: recipient.to_string(),
        amount: Uint128::new(amount),
    })
    .unwrap()
    .to_vec()
}

#[test]
fn book_gives_the_first_verdict() {
    let mut book = AddressBook::new();
    book.record("a", None);
    book.record("a", Some(Addr::unchecked("a")));
    book.record("b", Some(Addr::unchecked("canonical")));
    assert_eq!(book.addr_validate(&"a".to_string()).unwrap_err(), ContractError::InvalidAddress);
    assert_eq!(book.addr_validate(&"b".to_string()).unwrap(), Addr::unchecked("canonical"));
    assert_eq!(book.addr_validate(&"c".to_string()).unwrap_err(), ContractError::InvalidAddress);
}

#[test]
fn whitelist_is_validated_in_order() {
    let msg = CreateMsg {
        cw20_whitelist: Some(vec!["foo".to_string(), "other".to_string()]),
        ..create_msg("w")
    };
    assert_eq!(
        msg.addr_wishlist(&book()).unwrap(),
        vec![Addr::unchecked("foo"), Addr::unchecked("other")]
    );
    let none = CreateMsg { cw20_whitelist: None, ..create_msg("w") };
    assert_eq!(none.addr_wishlist(&book()).unwrap(), Vec::<Addr>::new());
    let bad = CreateMsg {
        cw20_whitelist: Some(vec!["foo".to_string(), "unknown".to_string()]),
        ..create_msg("w")
    };
    assert_eq!(bad.addr_wishlist(&book()).unwrap_err(), ContractError::InvalidAddress);
}

#[test]
fn raw_identities_name_what_is_consulted() {
    let create = create_msg("x");
    assert_eq!(
        ExecuteMsg::CreateEscrow(create.clone()).raw_identities(),
        vec!["foo".to_string(), "recipient".to_string(), "arbiter".to_string()]
    );
    assert_eq!(
        ExecuteMsg::SetRecipient { id: "x".to_string(), recipient: "r".to_string() }
            .raw_identities(),
        vec!["r".to_string()]
    );
    assert_eq!(ExecuteMsg::Approve { id: "x".to_string() }.raw_identities(), Vec::<String>::new());
    let notify = ExecuteMsg::Receive(Cw20ReceiveMsg {
        sender: "payer".to_string(),
        amount: 1,
        msg: Some(ReceiveMsg::CreateEscrow(CreateMsg { recipient: None, ..create })),
    });
    assert_eq!(
        notify.raw_identities(),
        vec!["payer".to_string(), "foo".to_string(), "arbiter".to_string()]
    );
    assert_eq!(notify.escrow_id(), Some("x".to_string()));
    let broken =
        ExecuteMsg::Receive(Cw20ReceiveMsg { sender: "payer".to_string(), amount: 1, msg: None });
    assert_eq!(broken.escrow_id(), None);
    assert_eq!(broken.raw_identities(), Vec::<String>::new());
}

#[test]
fn create_with_empty_deposit_fails() {
    let mut registry = EscrowRegistry::new();
    let err = try_create_escrow(
        &mut registry,
        &book(),
        create_msg("a"),
        Balance::from_coins(vec![]),
        &Addr::unchecked("source"),
    )
    .unwrap_err();
    assert_eq!(err, ContractError::EmptyBalance);
    let err = try_create_escrow(
        &mut registry,
        &book(),
        create_msg("a"),
        Balance::from_coins(vec![coin(0, "atom")]),
        &Addr::unchecked("source"),
    )
    .unwrap_err();
    assert_eq!(err, ContractError::EmptyBalance);
    assert_eq!(registry.list_ids(), Vec::<String>::new());
}

#[test]
fn empty_deposit_is_reported_before_a_duplicate_id() {
    let mut registry = EscrowRegistry::new();
    open(&mut registry, "a");
    let err = try_create_escrow(
        &mut registry,
        &book(),
        create_msg("a"),
        Balance::from_coins(vec![]),
        &Addr::unchecked("source"),
    )
    .unwrap_err();
    assert_eq!(err, ContractError::EmptyBalance);
}

#[test]
fn create_with_live_id_fails() {
    let mut registry = EscrowRegistry::new();
    open(&mut registry, "a");
    let before = registry.load(&"a".to_string()).unwrap();
    let err = try_create_escrow(
        &mut registry,
        &book(),
        CreateMsg { title: "usurper".to_string(), ..create_msg("a") },
        Balance::from_coins(coins(5, "eth")),
        &Addr::unchecked("other"),
    )
    .unwrap_err();
    assert_eq!(err, ContractError::AlreadyInUse);
    assert_eq!(registry.load(&"a".to_string()).unwrap(), before);
}

#[test]
fn create_with_invalid_arbiter_or_whitelist_fails() {
    let mut registry = EscrowRegistry::new();
    let funds = || Balance::from_coins(coins(5, "eth"));
    let source = Addr::unchecked("source");
    let no_arbiter = accepting(&["recipient", "foo"]);
    let err = try_create_escrow(&mut registry, &no_arbiter, create_msg("a"), funds(), &source)
        .unwrap_err();
    assert_eq!(err, ContractError::InvalidAddress);
    let no_foo = accepting(&["recipient", "arbiter"]);
    let err =
        try_create_escrow(&mut registry, &no_foo, create_msg("a"), funds(), &source).unwrap_err();
    assert_eq!(err, ContractError::InvalidAddress);
    assert!(!registry.has(&"a".to_string()));
}

#[test]
fn invalid_recipient_is_left_unset() {
    let mut registry = EscrowRegistry::new();
    let no_recipient = accepting(&["arbiter", "foo"]);
    let res = try_create_escrow(
        &mut registry,
        &no_recipient,
        create_msg("a"),
        Balance::from_coins(coins(5, "eth")),
        &Addr::unchecked("source"),
    )
    .unwrap();
    assert_eq!(res.attributes, vec![attr("action", "create_escrow"), attr("id", "a")]);
    assert_eq!(registry.load(&"a".to_string()).unwrap().recipient, None);
}

#[test]
fn built_escrow_holds_the_deposit() {
    let escrow = build_escrow(
        &book(),
        create_msg("a"),
        Balance::from_coins(vec![coin(1, "x"), coin(2, "y")]),
        &Addr::unchecked("source"),
    )
    .unwrap();
    assert_eq!(escrow.arbiter, Addr::unchecked("arbiter"));
    assert_eq!(escrow.recipient, Some(Addr::unchecked("recipient")));
    assert_eq!(escrow.source, Addr::unchecked("source"));
    assert_eq!(escrow.title, "title");
    assert_eq!(escrow.description, "description");
    assert_eq!(escrow.end_height, Some(1000));
    assert_eq!(escrow.end_time, Some(50));
    assert_eq!(escrow.balance.native, vec![coin(1, "x"), coin(2, "y")]);
    assert_eq!(escrow.balance.cw20, vec![]);
    assert_eq!(escrow.cw20_whitelist, vec![Addr::unchecked("foo")]);
}

#[test]
fn deposited_token_joins_the_whitelist() {
    let token = |address: &str| {
        Balance::Cw20(Cw20CoinVerified { address: Addr::unchecked(address), amount: 9 })
    };
    let source = Addr::unchecked("source");
    let grown = build_escrow(&book(), create_msg("a"), token("bar"), &source).unwrap();
    assert_eq!(grown.cw20_whitelist, vec![Addr::unchecked("foo"), Addr::unchecked("bar")]);
    assert_eq!(
        grown.balance.cw20,
        vec![Cw20CoinVerified { address: Addr::unchecked("bar"), amount: 9 }]
    );
    assert_eq!(grown.balance.native, vec![]);
    let same = build_escrow(&book(), create_msg("a"), token("foo"), &source).unwrap();
    assert_eq!(same.cw20_whitelist, vec![Addr::unchecked("foo")]);
}

#[test]
fn only_the_arbiter_sets_the_recipient() {
    let mut registry = EscrowRegistry::new();
    open(&mut registry, "a");
    let env = at(1, 1);
    let err = try_set_recipient(
        &mut registry,
        &book(),
        &env,
        &from("source"),
        "a".to_string(),
        "other".to_string(),
    )
    .unwrap_err();
    assert_eq!(err, ContractError::Unauthorized);
    let err = try_set_recipient(
        &mut registry,
        &book(),
        &env,
        &from("arbiter"),
        "missing".to_string(),
        "other".to_string(),
    )
    .unwrap_err();
    assert_eq!(err, ContractError::NotFound);
    let err = try_set_recipient(
        &mut registry,
        &book(),
        &env,
        &from("arbiter"),
        "a".to_string(),
        "unknown".to_string(),
    )
    .unwrap_err();
    assert_eq!(err, ContractError::InvalidAddress);
    assert_eq!(
        registry.load(&"a".to_string()).unwrap().recipient,
        Some(Addr::unchecked("recipient"))
    );
    let res = try_set_recipient(
        &mut registry,
        &book(),
        &env,
        &from("arbiter"),
        "a".to_string(),
        "other".to_string(),
    )
    .unwrap();
    assert_eq!(
        res,
        Response {
            messages: vec![],
            attributes: vec![
                attr("action", "set_recipient"),
                attr("id", "a"),
                attr("recipient", "other")
            ],
        }
    );
    assert_eq!(registry.load(&"a".to_string()).unwrap().recipient, Some(Addr::unchecked("other")));
}

#[test]
fn approve_checks_caller_then_expiry_then_recipient() {
    let mut registry = EscrowRegistry::new();
    let msg = CreateMsg { recipient: None, ..create_msg("a") };
    try_create_escrow(
        &mut registry,
        &book(),
        msg,
        Balance::from_coins(coins(100, "atom")),
        &Addr::unchecked("source"),
    )
    .unwrap();
    let id = || "a".to_string();
    let err = try_approve(&mut registry, &at(1, 1), &from("other"), id()).unwrap_err();
    assert_eq!(err, ContractError::Unauthorized);
    let err = try_approve(&mut registry, &at(1001, 1), &from("arbiter"), id()).unwrap_err();
    assert_eq!(err, ContractError::Expired);
    let err =
        try_approve(&mut registry, &at(1, 50_000_000_001), &from("arbiter"), id()).unwrap_err();
    assert_eq!(err, ContractError::Expired);
    let err =
        try_approve(&mut registry, &at(1000, 50_000_000_000), &from("arbiter"), id()).unwrap_err();
    assert_eq!(err, ContractError::RecipientNotSet);
    assert!(registry.has(&id()));
}

#[test]
fn approve_releases_once() {
    let mut registry = EscrowRegistry::new();
    open(&mut registry, "a");
    open(&mut registry, "b");
    let res = try_approve(&mut registry, &at(1, 1), &from("arbiter"), "a".to_string()).unwrap();
    assert_eq!(
        res,
        Response {
            messages: vec![TransferMsg::Bank {
                to_address: "recipient".to_string(),
                amount: coins(100, "atom")
            }],
            attributes: vec![attr("action", "approve"), attr("id", "a"), attr("to", "recipient")],
        }
    );
    let again = try_approve(&mut registry, &at(1, 1), &from("arbiter"), "a".to_string());
    assert_eq!(again.unwrap_err(), ContractError::NotFound);
    let refund = try_refund(&mut registry, &at(1, 1), &from("arbiter"), "a".to_string());
    assert_eq!(refund.unwrap_err(), ContractError::NotFound);
    assert_eq!(registry.list_ids(), vec!["b".to_string()]);
}

#[test]
fn refund_returns_to_the_source_once() {
    let mut registry = EscrowRegistry::new();
    open(&mut registry, "a");
    let res = try_refund(&mut registry, &at(1, 1), &from("arbiter"), "a".to_string()).unwrap();
    assert_eq!(
        res,
        Response {
            messages: vec![TransferMsg::Bank {
                to_address: "source".to_string(),
                amount: coins(100, "atom")
            }],
            attributes: vec![attr("action", "refund"), attr("id", "a"), attr("to", "source")],
        }
    );
    let again = try_refund(&mut registry, &at(1, 1), &from("arbiter"), "a".to_string());
    assert_eq!(again.unwrap_err(), ContractError::NotFound);
    let approve = try_approve(&mut registry, &at(1, 1), &from("arbiter"), "a".to_string());
    assert_eq!(approve.unwrap_err(), ContractError::NotFound);
}

#[test]
fn anyone_refunds_after_expiry_only() {
    let mut registry = EscrowRegistry::new();
    open(&mut registry, "a");
    let err = try_refund(&mut registry, &at(1000, 1), &from("other"), "a".to_string());
    assert_eq!(err.unwrap_err(), ContractError::Unauthorized);
    assert!(registry.has(&"a".to_string()));
    let res = try_refund(&mut registry, &at(1001, 1), &from("other"), "a".to_string()).unwrap();
    assert_eq!(res.messages.len(), 1);
    assert!(!registry.has(&"a".to_string()));
    let err = try_refund(&mut registry, &at(1, 1), &from("other"), "missing".to_string());
    assert_eq!(err.unwrap_err(), ContractError::NotFound);
}

#[test]
fn a_released_identifier_can_be_used_again() {
    let mut registry = EscrowRegistry::new();
    open(&mut registry, "a");
    try_approve(&mut registry, &at(1, 1), &from("arbiter"), "a".to_string()).unwrap();
    open(&mut registry, "a");
    assert!(registry.has(&"a".to_string()));
}

#[test]
fn top_up_checks_deposit_then_escrow_then_whitelist() {
    let mut registry = EscrowRegistry::new();
    open(&mut registry, "a");
    let token = |address: &str, amount: u128| {
        Balance::Cw20(Cw20CoinVerified { address: Addr::unchecked(address), amount })
    };
    let err = try_top_up(&mut registry, "missing".to_string(), Balance::from_coins(vec![]));
    assert_eq!(err.unwrap_err(), ContractError::EmptyBalance);
    let err = try_top_up(&mut registry, "a".to_string(), token("bar", 0));
    assert_eq!(err.unwrap_err(), ContractError::EmptyBalance);
    let err = try_top_up(&mut registry, "missing".to_string(), token("bar", 1));
    assert_eq!(err.unwrap_err(), ContractError::NotFound);
    let before = registry.load(&"a".to_string()).unwrap();
    let err = try_top_up(&mut registry, "a".to_string(), token("bar", 1));
    assert_eq!(err.unwrap_err(), ContractError::NotInWhitelist);
    assert_eq!(registry.load(&"a".to_string()).unwrap(), before);
    let res = try_top_up(&mut registry, "a".to_string(), token("foo", 3)).unwrap();
    assert_eq!(
        res,
        Response { messages: vec![], attributes: vec![attr("action", "top_up"), attr("id", "a")] }
    );
    let res = try_top_up(&mut registry, "a".to_string(), Balance::from_coins(coins(1, "atom")));
    assert!(res.is_ok());
    let after = registry.load(&"a".to_string()).unwrap();
    assert_eq!(after.balance.native, coins(101, "atom"));
    assert_eq!(
        after.balance.cw20,
        vec![Cw20CoinVerified { address: Addr::unchecked("foo"), amount: 3 }]
    );
    assert_eq!(after.cw20_whitelist, before.cw20_whitelist);
}

#[test]
fn top_up_overflow_fails_and_changes_nothing() {
    let mut registry = EscrowRegistry::new();
    open(&mut registry, "a");
    let err =
        try_top_up(&mut registry, "a".to_string(), Balance::from_coins(coins(u128::MAX, "atom")));
    assert_eq!(err.unwrap_err(), ContractError::Overflow);
    assert_eq!(registry.load(&"a".to_string()).unwrap().balance.native, coins(100, "atom"));
}

#[test]
fn receive_without_instruction_fails() {
    let mut registry = EscrowRegistry::new();
    let wrapper = Cw20ReceiveMsg { sender: "source".to_string(), amount: 5, msg: None };
    let err = try_receive(&mut registry, &book(), &from("foo"), wrapper).unwrap_err();
    assert_eq!(err, ContractError::ParseErr);
}

#[test]
fn receive_opens_an_escrow_with_tokens() {
    let mut registry = EscrowRegistry::new();
    let wrapper = Cw20ReceiveMsg {
        sender: "source".to_string(),
        amount: 5,
        msg: Some(ReceiveMsg::CreateEscrow(create_msg("t"))),
    };
    let res = try_receive(&mut registry, &book(), &from("bar"), wrapper.clone()).unwrap();
    assert_eq!(res.attributes, vec![attr("action", "create_escrow"), attr("id", "t")]);
    let escrow = registry.load(&"t".to_string()).unwrap();
    assert_eq!(escrow.source, Addr::unchecked("source"));
    assert_eq!(
        escrow.balance,
        GenericBalance {
            native: vec![],
            cw20: vec![Cw20CoinVerified { address: Addr::unchecked("bar"), amount: 5 }]
        }
    );
    assert_eq!(escrow.cw20_whitelist, vec![Addr::unchecked("foo"), Addr::unchecked("bar")]);

    let unknown = Cw20ReceiveMsg { sender: "stranger".to_string(), ..wrapper };
    let err = try_receive(&mut registry, &book(), &from("bar"), unknown).unwrap_err();
    assert_eq!(err, ContractError::InvalidAddress);
}

#[test]
fn execute_dispatches_with_the_funds_sent() {
    let mut registry = EscrowRegistry::new();
    let res = execute(
        &mut registry,
        &book(),
        at(1, 1),
        paying("source", vec![coin(3, "atom"), coin(4, "eth")]),
        ExecuteMsg::CreateEscrow(create_msg("e")),
    )
    .unwrap();
    assert_eq!(res.attributes[0], attr("action", "create_escrow"));
    execute(
        &mut registry,
        &book(),
        at(1, 1),
        paying("anyone", vec![coin(6, "eth")]),
        ExecuteMsg::TopUp { id: "e".to_string() },
    )
    .unwrap();
    let err = execute(
        &mut registry,
        &book(),
        at(1, 1),
        from("anyone"),
        ExecuteMsg::TopUp { id: "e".to_string() },
    )
    .unwrap_err();
    assert_eq!(err, ContractError::EmptyBalance);
    let res = execute(
        &mut registry,
        &book(),
        at(1, 1),
        from("arbiter"),
        ExecuteMsg::Refund { id: "e".to_string() },
    )
    .unwrap();
    assert_eq!(
        res.messages,
        vec![TransferMsg::Bank {
            to_address: "source".to_string(),
            amount: vec![coin(3, "atom"), coin(10, "eth")]
        }]
    );
}

#[test]
fn query_answers_list_and_details() {
    let mut registry = EscrowRegistry::new();
    open(&mut registry, "b");
    open(&mut registry, "a");
    try_top_up(
        &mut registry,
        "a".to_string(),
        Balance::Cw20(Cw20CoinVerified { address: Addr::unchecked("foo"), amount: 8 }),
    )
    .unwrap();
    assert_eq!(
        query_list(&registry),
        ListResponse { escrows: vec!["a".to_string(), "b".to_string()] }
    );
    assert_eq!(
        query(&registry, &at(1, 1), QueryMsg::List {}).unwrap(),
        QueryResponse::List(ListResponse { escrows: vec!["a".to_string(), "b".to_string()] })
    );
    match query(&registry, &at(1, 1), QueryMsg::Details { id: "a".to_string() }).unwrap() {
        QueryResponse::Details(details) => {
            assert_eq!(details.id, "a");
            assert_eq!(details.arbiter, "arbiter");
            assert_eq!(details.recipient, Some("recipient".to_string()));
            assert_eq!(details.source, "source");
            assert_eq!(details.end_height, Some(1000));
            assert_eq!(details.end_time, Some(50));
            assert_eq!(details.native_balance, coins(100, "atom"));
            assert_eq!(
                details.cw20_balance,
                vec![Cw20Coin { address: "foo".to_string(), amount: 8 }]
            );
            assert_eq!(details.cw20_whitelist, vec!["foo".to_string()]);
        }
        other => panic!("unexpected answer {other:?}"),
    }
    let err = query(&registry, &at(1, 1), QueryMsg::Details { id: "c".to_string() }).unwrap_err();
    assert_eq!(err, ContractError::NotFound);
}

#[test]
fn empty_balance_needs_no_transfer() {
    let msgs = send_tokens(&Addr::unchecked("to"), &GenericBalance::default()).unwrap();
    assert_eq!(msgs, vec![]);
}

#[test]
fn native_coins_go_first_and_tokens_follow_in_order() {
    let balance = GenericBalance {
        native: vec![coin(1, "b"), coin(2, "a")],
        cw20: vec![
            Cw20CoinVerified { address: Addr::unchecked("zed"), amount: 30 },
            Cw20CoinVerified { address: Addr::unchecked("abc"), amount: 40 },
        ],
    };
    let msgs = send_tokens(&Addr::unchecked("dest"), &balance).unwrap();
    assert_eq!(
        msgs,
        vec![
            TransferMsg::Bank {
                to_address: "dest".to_string(),
                amount: vec![coin(1, "b"), coin(2, "a")]
            },
            TransferMsg::Wasm {
                contract_addr: "zed".to_string(),
                msg: transfer_json("dest", 30),
                funds: vec![]
            },
            TransferMsg::Wasm {
                contract_addr: "abc".to_string(),
                msg: transfer_json("dest", 40),
                funds: vec![]
            },
        ]
    );
    let only_tokens = GenericBalance { native: vec![], cw20: balance.cw20.clone() };
    assert_eq!(send_tokens(&Addr::unchecked("dest"), &only_tokens).unwrap().len(), 2);
}

#[test]
fn token_transfer_is_encoded_as_json() {
    let token = Cw20CoinVerified { address: Addr::unchecked("bar_token"), amount: 7890 };
    let msg = token_transfer(&Addr::unchecked("recd"), &token).unwrap();
    assert_eq!(
        msg,
        TransferMsg::Wasm {
            contract_addr: "bar_token".to_string(),
            msg: br#"{"transfer":{"recipient":"recd","amount":"7890"}}"#.to_vec(),
            funds: vec![]
        }
    );
}

#[test]
fn instructions_hold_what_they_are_given() {
    assert_eq!(
        bank_send(&Addr::unchecked("to"), &coins(5, "atom")),
        TransferMsg::Bank { to_address: "to".to_string(), amount: coins(5, "atom") }
    );
    assert_eq!(
        wasm_execute(&Addr::unchecked("tok"), vec![1, 2, 3]),
        TransferMsg::Wasm { contract_addr: "tok".to_string(), msg: vec![1, 2, 3], funds: vec![] }
    );
}
