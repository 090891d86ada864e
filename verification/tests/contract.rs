use cosmwasm_std::testing::{mock_dependencies, mock_env, mock_info};
use cosmwasm_std::{
    Addr, Api, CanonicalAddr, RecoverPubkeyError, StdError, StdResult, Storage, VerificationError,
};
use dsrv_poap::contract::{
    build_event, check_minter, execute, execute_mint_badge, execute_register_event, fits_frame,
    list_all_events, list_attendees, list_my_badges, query, query_get_event, QueryResponse,
};
use dsrv_poap::error::ContractError;
use dsrv_poap::identity::Identity;
use dsrv_poap::ledger::Ledger;
use dsrv_poap::msg::{
    Attendee, Badge, ExecuteMsg, GetEventResponse, InstantiateMsg, ListAllEventsResponse,
    ListAttendeesResponse, ListMyBadgesResponse, QueryMsg,
};
use dsrv_poap::receipt::{Attribute, Notice, Receipt};
use dsrv_poap::state::{BadgeData, EventData};

const NAME: &str = "DSRV Hacker House";
const IMAGE: &str = "https://dsrv.kr/logo.png";
const ABOUT: &str = "Fun times hacking";

fn ethan() -> Identity {
    Identity::unchecked("ethan")
}

fn register(ledger: &mut Ledger, now: u64, sender: &str, name: &str, start: u64, end: u64) {
    execute_register_event(
        ledger,
        now,
        &Identity::unchecked(sender),
        name.to_string(),
        IMAGE.to_string(),
        ABOUT.to_string(),
        start,
        end,
    )
    .unwrap();
}

fn mint(
    ledger: &mut Ledger,
    now: u64,
    sender: &str,
    event: &str,
    attendee: &str,
    was_late: bool,
) -> Result<Receipt, ContractError> {
    let sender = Identity::unchecked(sender);
    execute_mint_badge(ledger, now, &sender, event.to_string(), attendee.to_string(), was_late)
}

#[test]
fn simple_test() {
    let mut deps = mock_dependencies();

    let _msg = InstantiateMsg {};
    let info = mock_info("creator", &[]);
    assert_eq!(info.sender.as_str(), "creator");
    cw2::set_contract_version(&mut deps.storage, "crates.io:dsrv-poap", "0.1.0").unwrap();
    let mut ledger = Ledger { storage: &mut deps.storage, api: &deps.api };

    // create an event
    let now = mock_env().block.time.seconds();
    let start_time = mock_env().block.time.seconds() - 200;
    let end_time = mock_env().block.time.seconds() + 3000;
    let info = mock_info("ethan", &[]);
    let err = execute_register_event(
        &mut ledger,
        now,
        &Identity::unchecked(info.sender.as_str()),
        "DSRV Hacker House".to_string(),
        "http://foo.bar".to_string(),
        "Fun times hacking".to_string(),
        start_time,
        end_time,
    )
    .unwrap_err();
    assert_eq!(err, ContractError::InvalidImageURL("http://foo.bar".to_string()));

    let name = "DSRV Hacker House";
    let info = mock_info("ethan", &[]);
    execute_register_event(
        &mut ledger,
        now,
        &Identity::unchecked(info.sender.as_str()),
        name.to_string(),
        "https://dsrv.kr/logo.png".to_string(),
        "Fun times hacking".to_string(),
        start_time,
        end_time,
    )
    .unwrap();

    let attendee = "moog";
    execute_mint_badge(
        &mut ledger,
        now,
        &Identity::unchecked(info.sender.as_str()),
        name.to_string(),
        attendee.to_string(),
        false,
    )
    .unwrap();

    let late = "bart";
    execute_mint_badge(
        &mut ledger,
        now,
        &Identity::unchecked(info.sender.as_str()),
        name.to_string(),
        late.to_string(),
        true,
    )
    .unwrap();

    // find all attendees
    let res = list_attendees(&ledger, name.to_string()).unwrap();
    assert_eq!(res.attendees.len(), 2);
    assert_eq!(res.attendees[0], Attendee { attendee: late.to_string(), was_late: true });
    assert_eq!(res.attendees[1], Attendee { attendee: attendee.to_string(), was_late: false });
}

#[test]
fn registered_event_is_read_back() {
    let mut deps = mock_dependencies();
    let mut ledger = Ledger { storage: &mut deps.storage, api: &deps.api };
    let receipt = execute_register_event(
        &mut ledger,
        1_000,
        &Identity::unchecked("ethan"),
        NAME.to_string(),
        IMAGE.to_string(),
        ABOUT.to_string(),
        800,
        4_000,
    )
    .unwrap();
    assert_eq!(
        receipt,
        Receipt {
            attributes: vec![Attribute {
                key: "register_event".to_string(),
                value: NAME.to_string()
            }],
            events: vec![],
        }
    );
    let seen = query_get_event(&ledger, NAME.to_string()).unwrap();
    assert_eq!(
        seen,
        GetEventResponse {
            owner: "ethan".to_string(),
            name: NAME.to_string(),
            image: IMAGE.to_string(),
            description: ABOUT.to_string(),
            start_time: 800,
            end_time: 4_000,
        }
    );
}

#[test]
fn odd_text_is_read_back() {
    let mut deps = mock_dependencies();
    let mut ledger = Ledger { storage: &mut deps.storage, api: &deps.api };
    let name = "q\"uote\\slash\n\ttab \u{1}\u{7f} caf\u{e9} \u{1f600}";
    let about = "{\"owner\":\"x\"}, [1,2] \\u0041 \r\u{8}\u{c}";
    execute_register_event(
        &mut ledger,
        5,
        &Identity::unchecked("e\"than"),
        name.to_string(),
        "https://a/\"b\"".to_string(),
        about.to_string(),
        0,
        u64::MAX,
    )
    .unwrap();
    let seen = query_get_event(&ledger, name.to_string()).unwrap();
    assert_eq!(seen.owner, "e\"than");
    assert_eq!(seen.name, name);
    assert_eq!(seen.image, "https://a/\"b\"");
    assert_eq!(seen.description, about);
    assert_eq!(seen.start_time, 0);
    assert_eq!(seen.end_time, u64::MAX);
    let all = list_all_events(&ledger).unwrap();
    assert_eq!(all.events, vec![seen]);
}

#[test]
fn missing_event_is_not_found() {
    let mut deps = mock_dependencies();
    let ledger = Ledger { storage: &mut deps.storage, api: &deps.api };
    let err = query_get_event(&ledger, NAME.to_string()).unwrap_err();
    assert!(matches!(err, StdError::NotFound { .. }));
}

#[test]
fn second_registration_is_refused() {
    let mut deps = mock_dependencies();
    let mut ledger = Ledger { storage: &mut deps.storage, api: &deps.api };
    register(&mut ledger, 1_000, "ethan", NAME, 800, 4_000);
    let before = query_get_event(&ledger, NAME.to_string()).unwrap();
    let err = execute_register_event(
        &mut ledger,
        1_001,
        &Identity::unchecked("mallory"),
        NAME.to_string(),
        "https://other".to_string(),
        "Other".to_string(),
        900,
        5_000,
    )
    .unwrap_err();
    assert_eq!(err, ContractError::EventAlreadyRegistered);
    assert_eq!(query_get_event(&ledger, NAME.to_string()).unwrap(), before);
    assert_eq!(before.owner, "ethan");
}

#[test]
fn taken_name_is_refused_before_any_rule() {
    let mut deps = mock_dependencies();
    let mut ledger = Ledger { storage: &mut deps.storage, api: &deps.api };
    register(&mut ledger, 1_000, "ethan", NAME, 800, 4_000);
    let err = execute_register_event(
        &mut ledger,
        9_000,
        &Identity::unchecked("ethan"),
        NAME.to_string(),
        "http://foo.bar".to_string(),
        ABOUT.to_string(),
        7,
        3,
    )
    .unwrap_err();
    assert_eq!(err, ContractError::EventAlreadyRegistered);
}

#[test]
fn refused_registration_writes_nothing() {
    let mut deps = mock_dependencies();
    let mut ledger = Ledger { storage: &mut deps.storage, api: &deps.api };
    let err = execute_register_event(
        &mut ledger,
        1_000,
        &Identity::unchecked("ethan"),
        NAME.to_string(),
        IMAGE.to_string(),
        ABOUT.to_string(),
        800,
        999,
    )
    .unwrap_err();
    assert_eq!(err, ContractError::EventAlreadyOver);
    assert_eq!(list_all_events(&ledger).unwrap(), ListAllEventsResponse { events: vec![] });
}

#[test]
fn rules_are_tried_in_order() {
    let build = |now: u64, name: &str, image: &str, start: u64, end: u64| {
        let (name, image) = (name.to_string(), image.to_string());
        build_event(now, &ethan(), name, image, ABOUT.to_string(), start, end)
    };
    // Every rule broken at once: the name's length comes first.
    assert_eq!(build(10, "a", "http://x", 5, 5), Err(ContractError::NameTooShort));
    assert_eq!(build(10, "", "http://x", 5, 5), Err(ContractError::NameTooShort));
    let long = "n".repeat(101);
    assert_eq!(build(10, &long, "http://x", 5, 5), Err(ContractError::NameTooLong));
    assert_eq!(
        build(10, "ab", "http://x", 5, 5),
        Err(ContractError::InvalidImageURL("http://x".to_string()))
    );
    assert_eq!(build(10, "ab", "https://x", 5, 5), Err(ContractError::StartBeforeEnd));
    assert_eq!(build(10, "ab", "https://x", 6, 5), Err(ContractError::StartBeforeEnd));
    assert_eq!(build(10, "ab", "https://x", 5, 9), Err(ContractError::EventAlreadyOver));
    assert_eq!(
        build(10, "ab", "https://x", 5, 10),
        Ok(EventData {
            owner: ethan(),
            name: "ab".to_string(),
            image: "https://x".to_string(),
            description: ABOUT.to_string(),
            start_time: 5,
            end_time: 10,
        })
    );
}

#[test]
fn name_length_is_counted_in_bytes() {
    let build = |name: &str| {
        build_event(10, &ethan(), name.to_string(), IMAGE.to_string(), ABOUT.to_string(), 5, 20)
    };
    assert!(build(&"n".repeat(2)).is_ok());
    assert!(build(&"n".repeat(100)).is_ok());
    assert_eq!(build(&"n".repeat(101)), Err(ContractError::NameTooLong));
    // One character of two bytes is long enough; fifty-one of them are too long.
    assert!(build("\u{e9}").is_ok());
    assert!(build(&"\u{e9}".repeat(50)).is_ok());
    assert_eq!(build(&"\u{e9}".repeat(51)), Err(ContractError::NameTooLong));
}

#[test]
fn image_must_begin_with_https() {
    let build = |image: &str| {
        build_event(10, &ethan(), "ab".to_string(), image.to_string(), ABOUT.to_string(), 5, 20)
    };
    assert!(build("https://").is_ok());
    assert!(build("https://dsrv.kr/logo.png").is_ok());
    let images =
        ["", "https:/", "https:/x/", "HTTPS://x", " https://x", "http://https://", "ftp://x"];
    for image in images {
        assert_eq!(build(image), Err(ContractError::InvalidImageURL(image.to_string())));
    }
}

#[test]
fn event_may_end_now_but_not_before() {
    let build = |now: u64, end: u64| {
        build_event(now, &ethan(), "ab".to_string(), IMAGE.to_string(), ABOUT.to_string(), 0, end)
    };
    assert!(build(100, 100).is_ok());
    assert!(build(100, 101).is_ok());
    assert_eq!(build(100, 99), Err(ContractError::EventAlreadyOver));
    assert!(build(u64::MAX, u64::MAX).is_ok());
}

fn sample_event() -> EventData {
    EventData {
        owner: ethan(),
        name: NAME.to_string(),
        image: IMAGE.to_string(),
        description: ABOUT.to_string(),
        start_time: 800,
        end_time: 4_000,
    }
}

#[test]
fn minter_is_checked_owner_first() {
    let event = sample_event();
    let check = |now: u64, sender: &str| check_minter(&event, now, &Identity::unchecked(sender));
    assert_eq!(check(1_000, "ethan"), Ok(()));
    assert_eq!(check(1_000, "mallory"), Err(ContractError::Unauthorized {}));
    assert_eq!(check(1_000, "Ethan"), Err(ContractError::Unauthorized {}));
    assert_eq!(check(1_000, ""), Err(ContractError::Unauthorized {}));
    // A stranger outside the window is told that they are a stranger.
    assert_eq!(check(1, "mallory"), Err(ContractError::Unauthorized {}));
    assert_eq!(check(9_000, "mallory"), Err(ContractError::Unauthorized {}));
    assert_eq!(check(799, "ethan"), Err(ContractError::EventNotStarted));
    assert_eq!(check(800, "ethan"), Ok(()));
    assert_eq!(check(4_000, "ethan"), Ok(()));
    assert_eq!(check(4_001, "ethan"), Err(ContractError::EventAlreadyOver));
}

#[test]
fn stranger_mints_nothing() {
    let mut deps = mock_dependencies();
    let mut ledger = Ledger { storage: &mut deps.storage, api: &deps.api };
    register(&mut ledger, 1_000, "ethan", NAME, 800, 4_000);
    let err = mint(&mut ledger, 1_000, "mallory", NAME, "bart", true).unwrap_err();
    assert_eq!(err, ContractError::Unauthorized {});
    assert_eq!(
        list_attendees(&ledger, NAME.to_string()).unwrap(),
        ListAttendeesResponse { attendees: vec![] }
    );
    assert_eq!(
        list_my_badges(&ledger, "bart".to_string()).unwrap(),
        ListMyBadgesResponse { badges: vec![] }
    );
}

#[test]
fn minting_window_includes_both_ends() {
    let mut deps = mock_dependencies();
    let mut ledger = Ledger { storage: &mut deps.storage, api: &deps.api };
    register(&mut ledger, 1_000, "ethan", NAME, 2_000, 4_000);
    assert_eq!(
        mint(&mut ledger, 1_999, "ethan", NAME, "early", false),
        Err(ContractError::EventNotStarted)
    );
    assert_eq!(
        mint(&mut ledger, 4_001, "ethan", NAME, "tardy", true),
        Err(ContractError::EventAlreadyOver)
    );
    assert!(mint(&mut ledger, 2_000, "ethan", NAME, "first", false).is_ok());
    assert!(mint(&mut ledger, 4_000, "ethan", NAME, "last", true).is_ok());
    assert_eq!(
        list_attendees(&ledger, NAME.to_string()).unwrap().attendees,
        vec![
            Attendee { attendee: "first".to_string(), was_late: false },
            Attendee { attendee: "last".to_string(), was_late: true },
        ]
    );
}

#[test]
fn second_badge_is_refused() {
    let mut deps = mock_dependencies();
    let mut ledger = Ledger { storage: &mut deps.storage, api: &deps.api };
    register(&mut ledger, 1_000, "ethan", NAME, 800, 4_000);
    let receipt = mint(&mut ledger, 1_000, "ethan", NAME, "bart", true).unwrap();
    assert_eq!(
        receipt,
        Receipt {
            attributes: vec![],
            events: vec![Notice {
                ty: "mint-badge".to_string(),
                attributes: vec![
                    Attribute { key: "event".to_string(), value: NAME.to_string() },
                    Attribute { key: "attendee".to_string(), value: "bart".to_string() },
                ],
            }],
        }
    );
    assert_eq!(
        mint(&mut ledger, 1_000, "ethan", NAME, "bart", true),
        Err(ContractError::BadgeAlreadyIssued)
    );
    assert_eq!(
        mint(&mut ledger, 2_000, "ethan", NAME, "bart", false),
        Err(ContractError::BadgeAlreadyIssued)
    );
    // The first badge stands as it was given.
    assert_eq!(
        list_attendees(&ledger, NAME.to_string()).unwrap().attendees,
        vec![Attendee { attendee: "bart".to_string(), was_late: true }]
    );
    assert_eq!(
        list_my_badges(&ledger, "bart".to_string()).unwrap().badges,
        vec![Badge { event: NAME.to_string(), was_late: true }]
    );
}

#[test]
fn badge_of_missing_event_is_not_found() {
    let mut deps = mock_dependencies();
    let mut ledger = Ledger { storage: &mut deps.storage, api: &deps.api };
    let err = mint(&mut ledger, 1_000, "ethan", NAME, "bart", true).unwrap_err();
    assert!(matches!(err, ContractError::Std(StdError::NotFound { .. })));
    register(&mut ledger, 1_000, "ethan", NAME, 800, 4_000);
    let err = mint(&mut ledger, 1_000, "ethan", "DSRV Hacker Hous", "bart", true).unwrap_err();
    assert!(matches!(err, ContractError::Std(StdError::NotFound { .. })));
}

#[test]
fn malformed_attendee_is_refused_by_the_host() {
    let mut deps = mock_dependencies();
    let mut ledger = Ledger { storage: &mut deps.storage, api: &deps.api };
    register(&mut ledger, 1_000, "ethan", NAME, 800, 4_000);
    for attendee in ["", "ab", "Bart"] {
        let err = mint(&mut ledger, 1_000, "ethan", NAME, attendee, true).unwrap_err();
        assert!(matches!(err, ContractError::Std(StdError::GenericErr { .. })));
    }
    // The owner and the window are checked before the attendee.
    assert_eq!(
        mint(&mut ledger, 1_000, "mallory", NAME, "Bart", true),
        Err(ContractError::Unauthorized {})
    );
    assert_eq!(
        mint(&mut ledger, 1, "ethan", NAME, "Bart", true),
        Err(ContractError::EventNotStarted)
    );
    assert!(list_attendees(&ledger, NAME.to_string()).unwrap().attendees.is_empty());
    let err = list_my_badges(&ledger, "Bart".to_string()).unwrap_err();
    assert!(matches!(err, StdError::GenericErr { .. }));
}

#[test]
fn badges_are_listed_by_event_and_by_attendee() {
    let mut deps = mock_dependencies();
    let mut ledger = Ledger { storage: &mut deps.storage, api: &deps.api };
    register(&mut ledger, 1_000, "ethan", NAME, 800, 4_000);
    mint(&mut ledger, 1_000, "ethan", NAME, "moog", false).unwrap();
    mint(&mut ledger, 1_000, "ethan", NAME, "bart", true).unwrap();
    assert_eq!(
        list_attendees(&ledger, NAME.to_string()).unwrap(),
        ListAttendeesResponse {
            attendees: vec![
                Attendee { attendee: "bart".to_string(), was_late: true },
                Attendee { attendee: "moog".to_string(), was_late: false },
            ]
        }
    );
    assert_eq!(
        list_my_badges(&ledger, "bart".to_string()).unwrap(),
        ListMyBadgesResponse { badges: vec![Badge { event: NAME.to_string(), was_late: true }] }
    );
    assert_eq!(
        list_my_badges(&ledger, "moog".to_string()).unwrap(),
        ListMyBadgesResponse { badges: vec![Badge { event: NAME.to_string(), was_late: false }] }
    );
    assert!(list_my_badges(&ledger, "nobody".to_string()).unwrap().badges.is_empty());
}

#[test]
fn each_event_has_its_own_attendees() {
    let mut deps = mock_dependencies();
    let mut ledger = Ledger { storage: &mut deps.storage, api: &deps.api };
    // One name is the other's beginning, and an attendee's identity begins
    // with what the longer name adds.
    register(&mut ledger, 1_000, "ethan", "ab", 800, 4_000);
    register(&mut ledger, 1_000, "ethan", "abc", 800, 4_000);
    register(&mut ledger, 1_000, "zoe", "zz", 800, 4_000);
    mint(&mut ledger, 1_000, "ethan", "ab", "cde", false).unwrap();
    mint(&mut ledger, 1_000, "ethan", "abc", "dee", true).unwrap();
    mint(&mut ledger, 1_000, "ethan", "abc", "cde", true).unwrap();
    mint(&mut ledger, 1_000, "zoe", "zz", "cde", false).unwrap();
    assert_eq!(
        list_attendees(&ledger, "ab".to_string()).unwrap().attendees,
        vec![Attendee { attendee: "cde".to_string(), was_late: false }]
    );
    assert_eq!(
        list_attendees(&ledger, "abc".to_string()).unwrap().attendees,
        vec![
            Attendee { attendee: "cde".to_string(), was_late: true },
            Attendee { attendee: "dee".to_string(), was_late: true },
        ]
    );
    assert!(list_attendees(&ledger, "a".to_string()).unwrap().attendees.is_empty());
    assert_eq!(
        list_my_badges(&ledger, "cde".to_string()).unwrap().badges,
        vec![
            Badge { event: "ab".to_string(), was_late: false },
            Badge { event: "abc".to_string(), was_late: true },
            Badge { event: "zz".to_string(), was_late: false },
        ]
    );
}

#[test]
fn no_events_is_an_empty_list() {
    let mut deps = mock_dependencies();
    let ledger = Ledger { storage: &mut deps.storage, api: &deps.api };
    assert_eq!(list_all_events(&ledger), Ok(ListAllEventsResponse { events: vec![] }));
    assert_eq!(
        list_attendees(&ledger, NAME.to_string()),
        Ok(ListAttendeesResponse { attendees: vec![] })
    );
    assert_eq!(
        list_my_badges(&ledger, "bart".to_string()),
        Ok(ListMyBadgesResponse { badges: vec![] })
    );
}

#[test]
fn events_are_listed_in_byte_order_of_name() {
    let mut deps = mock_dependencies();
    let mut ledger = Ledger { storage: &mut deps.storage, api: &deps.api };
    for name in ["zeta", "Zeta", "ab", "abc", "\u{e9}t\u{e9}", "aa", "~~", "10", "9 lives"] {
        register(&mut ledger, 1_000, name, name, 800, 4_000);
    }
    // Badges do not show among the events.
    mint(&mut ledger, 1_000, "ab", "ab", "bart", true).unwrap();
    let listed = list_all_events(&ledger).unwrap();
    let names: Vec<&str> = listed.events.iter().map(|event| event.name.as_str()).collect();
    assert_eq!(
        names,
        vec!["10", "9 lives", "Zeta", "aa", "ab", "abc", "zeta", "~~", "\u{e9}t\u{e9}"]
    );
    for event in &listed.events {
        assert_eq!(event.owner, event.name);
        assert_eq!(event.image, IMAGE);
        assert_eq!(event.description, ABOUT);
        assert_eq!((event.start_time, event.end_time), (800, 4_000));
    }
}

#[test]
fn commands_are_dispatched() {
    let mut deps = mock_dependencies();
    let mut ledger = Ledger { storage: &mut deps.storage, api: &deps.api };
    let receipt = execute(
        &mut ledger,
        1_000,
        &ethan(),
        ExecuteMsg::RegisterEvent {
            name: NAME.to_string(),
            image: IMAGE.to_string(),
            description: ABOUT.to_string(),
            start_time: 800,
            end_time: 4_000,
        },
    )
    .unwrap();
    assert_eq!(receipt, Receipt::registered(NAME.to_string()));
    let mint_msg = ExecuteMsg::MintBadge {
        event: NAME.to_string(),
        attendee: "bart".to_string(),
        was_late: true,
    };
    let receipt = execute(&mut ledger, 1_000, &ethan(), mint_msg.clone()).unwrap();
    assert_eq!(receipt, Receipt::minted(NAME.to_string(), "bart".to_string()));
    assert_eq!(
        execute(&mut ledger, 1_000, &ethan(), mint_msg),
        Err(ContractError::BadgeAlreadyIssued)
    );
}

#[test]
fn queries_are_dispatched() {
    let mut deps = mock_dependencies();
    let mut ledger = Ledger { storage: &mut deps.storage, api: &deps.api };
    register(&mut ledger, 1_000, "ethan", NAME, 800, 4_000);
    mint(&mut ledger, 1_000, "ethan", NAME, "bart", true).unwrap();
    let event = GetEventResponse {
        owner: "ethan".to_string(),
        name: NAME.to_string(),
        image: IMAGE.to_string(),
        description: ABOUT.to_string(),
        start_time: 800,
        end_time: 4_000,
    };
    assert_eq!(
        query(&ledger, QueryMsg::GetEvent { name: NAME.to_string() }),
        Ok(QueryResponse::Event(event.clone()))
    );
    assert_eq!(
        query(&ledger, QueryMsg::ListAllEvents {}),
        Ok(QueryResponse::AllEvents(ListAllEventsResponse { events: vec![event] }))
    );
    assert_eq!(
        query(&ledger, QueryMsg::ListAttendees { name: NAME.to_string() }),
        Ok(QueryResponse::Attendees(ListAttendeesResponse {
            attendees: vec![Attendee { attendee: "bart".to_string(), was_late: true }]
        }))
    );
    assert_eq!(
        query(&ledger, QueryMsg::ListMyBadges { attendee: "bart".to_string() }),
        Ok(QueryResponse::MyBadges(ListMyBadgesResponse {
            badges: vec![Badge { event: NAME.to_string(), was_late: true }]
        }))
    );
    assert!(query(&ledger, QueryMsg::GetEvent { name: "none".to_string() }).is_err());
}

#[test]
fn event_row_keeps_every_field() {
    let event = sample_event();
    let row = event.to_row();
    assert_eq!(
        row,
        (
            "ethan".to_string(),
            NAME.to_string(),
            IMAGE.to_string(),
            ABOUT.to_string(),
            800,
            4_000
        )
    );
    assert_eq!(EventData::from_row(row), event);
    assert_eq!(GetEventResponse::from(event.clone()).owner, "ethan");
    assert_eq!(event.owner.as_str(), "ethan");
    assert_eq!(event.owner.clone().into_string(), "ethan");
    assert!(event.owner == ethan() && event.owner != Identity::unchecked("Ethan"));
    assert_eq!(BadgeData { was_late: true }.was_late, true);
}

#[test]
fn host_failure_becomes_a_contract_error() {
    assert_eq!(
        ContractError::from(StdError::generic_err("boom")),
        ContractError::Std(StdError::generic_err("boom"))
    );
}

fn events_key(name: &str) -> Vec<u8> {
    let mut key = b"\x00\x06events".to_vec();
    key.extend_from_slice(name.as_bytes());
    key
}

#[test]
fn unreadable_event_is_a_host_failure() {
    let mut deps = mock_dependencies();
    deps.storage.set(&events_key(NAME), b"not an event");
    let mut ledger = Ledger { storage: &mut deps.storage, api: &deps.api };
    assert!(matches!(
        query_get_event(&ledger, NAME.to_string()),
        Err(StdError::ParseErr { .. })
    ));
    assert!(matches!(list_all_events(&ledger), Err(StdError::ParseErr { .. })));
    let err = execute_register_event(
        &mut ledger,
        1_000,
        &Identity::unchecked("ethan"),
        NAME.to_string(),
        IMAGE.to_string(),
        ABOUT.to_string(),
        800,
        4_000,
    )
    .unwrap_err();
    assert!(matches!(err, ContractError::Std(StdError::ParseErr { .. })));
    let err = mint(&mut ledger, 1_000, "ethan", NAME, "bart", true).unwrap_err();
    assert!(matches!(err, ContractError::Std(StdError::ParseErr { .. })));
}

#[test]
fn events_are_kept_under_their_names() {
    let mut deps = mock_dependencies();
    {
        let mut ledger = Ledger { storage: &mut deps.storage, api: &deps.api };
        register(&mut ledger, 1_000, "ethan", NAME, 800, 4_000);
        mint(&mut ledger, 1_000, "ethan", NAME, "bart", true).unwrap();
    }
    assert!(deps.storage.get(&events_key(NAME)).is_some());
    let mut by_event = b"\x00\x09attendees\x00\x11".to_vec();
    by_event.extend_from_slice(NAME.as_bytes());
    by_event.extend_from_slice(b"bart");
    assert_eq!(deps.storage.get(&by_event), Some(b"true".to_vec()));
    let mut by_attendee = b"\x00\x06badges\x00\x04bart".to_vec();
    by_attendee.extend_from_slice(NAME.as_bytes());
    assert_eq!(deps.storage.get(&by_attendee), Some(b"true".to_vec()));
}

#[test]
fn key_part_has_at_most_65535_bytes() {
    let mut deps = mock_dependencies();
    let mut ledger = Ledger { storage: &mut deps.storage, api: &deps.api };
    assert!(fits_frame(""));
    assert!(fits_frame(&"n".repeat(65_535)));
    assert!(!fits_frame(&"n".repeat(65_536)));
    assert!(!fits_frame(&"\u{e9}".repeat(32_768)));
    assert_eq!(
        list_attendees(&ledger, "n".repeat(65_535)),
        Ok(ListAttendeesResponse { attendees: vec![] })
    );
    assert_eq!(
        list_attendees(&ledger, "n".repeat(65_536)),
        Err(StdError::generic_err("key part of more than 65535 bytes"))
    );
    // This host finds no address of such a length valid, and says so first.
    let refused = list_my_badges(&ledger, "n".repeat(65_536)).unwrap_err();
    assert!(matches!(refused, StdError::GenericErr { .. }));
    assert_ne!(refused, StdError::generic_err("key part of more than 65535 bytes"));
    // An event of such a name is not there to begin with.
    let err = mint(&mut ledger, 1_000, "ethan", &"n".repeat(65_536), "bart", true).unwrap_err();
    assert!(matches!(err, ContractError::Std(StdError::NotFound { .. })));
}

/// A host to which every address is valid.
struct AnyAddress;

impl Api for AnyAddress {
    fn addr_validate(&self, human: &str) -> StdResult<Addr> {
        Ok(Addr::unchecked(human))
    }

    fn addr_canonicalize(&self, _human: &str) -> StdResult<CanonicalAddr> {
        unreachable!()
    }

    fn addr_humanize(&self, _canonical: &CanonicalAddr) -> StdResult<Addr> {
        unreachable!()
    }

    fn secp256k1_verify(
        &self,
        _message_hash: &[u8],
        _signature: &[u8],
        _public_key: &[u8],
    ) -> Result<bool, VerificationError> {
        unreachable!()
    }

    fn secp256k1_recover_pubkey(
        &self,
        _message_hash: &[u8],
        _signature: &[u8],
        _recovery_param: u8,
    ) -> Result<Vec<u8>, RecoverPubkeyError> {
        unreachable!()
    }

    fn ed25519_verify(
        &self,
        _message: &[u8],
        _signature: &[u8],
        _public_key: &[u8],
    ) -> Result<bool, VerificationError> {
        unreachable!()
    }

    fn ed25519_batch_verify(
        &self,
        _messages: &[&[u8]],
        _signatures: &[&[u8]],
        _public_keys: &[&[u8]],
    ) -> Result<bool, VerificationError> {
        unreachable!()
    }

    fn debug(&self, _message: &str) {}
}

#[test]
fn unframed_key_of_a_badge_is_a_host_failure() {
    let mut deps = mock_dependencies();
    let mut ledger = Ledger { storage: &mut deps.storage, api: &AnyAddress };
    register(&mut ledger, 1_000, "ethan", NAME, 800, 4_000);
    let long = "n".repeat(65_536);
    let err = mint(&mut ledger, 1_000, "ethan", NAME, &long, true).unwrap_err();
    assert!(matches!(err, ContractError::Std(StdError::GenericErr { .. })));
    assert!(list_attendees(&ledger, NAME.to_string()).unwrap().attendees.is_empty());
    // The caller and the window are still checked first.
    assert_eq!(
        mint(&mut ledger, 1_000, "mallory", NAME, &long, true),
        Err(ContractError::Unauthorized {})
    );
    let fitting = "n".repeat(65_535);
    mint(&mut ledger, 1_000, "ethan", NAME, &fitting, true).unwrap();
    assert_eq!(
        list_my_badges(&ledger, fitting).unwrap().badges,
        vec![Badge { event: NAME.to_string(), was_late: true }]
    );
}

#[test]
fn rows_become_answers_in_their_order() {
    let row = |owner: &str, name: &str| {
        (owner.to_string(), name.to_string(), IMAGE.to_string(), ABOUT.to_string(), 1u64, 2u64)
    };
    let listed = ListAllEventsResponse::from_rows(vec![
        ("key of b".to_string(), row("zoe", "b")),
        ("key of a".to_string(), row("ethan", "a")),
    ]);
    let event = |owner: &str, name: &str| GetEventResponse {
        owner: owner.to_string(),
        name: name.to_string(),
        image: IMAGE.to_string(),
        description: ABOUT.to_string(),
        start_time: 1,
        end_time: 2,
    };
    assert_eq!(listed.events, vec![event("zoe", "b"), event("ethan", "a")]);
    assert!(ListAllEventsResponse::from_rows(vec![]).events.is_empty());

    let rows = vec![("moog".to_string(), false), ("bart".to_string(), true)];
    assert_eq!(
        ListAttendeesResponse::from_rows(rows.clone()).attendees,
        vec![
            Attendee { attendee: "moog".to_string(), was_late: false },
            Attendee { attendee: "bart".to_string(), was_late: true },
        ]
    );
    assert_eq!(
        ListMyBadgesResponse::from_rows(rows).badges,
        vec![
            Badge { event: "moog".to_string(), was_late: false },
            Badge { event: "bart".to_string(), was_late: true },
        ]
    );
    assert!(ListAttendeesResponse::from_rows(vec![]).attendees.is_empty());
    assert!(ListMyBadgesResponse::from_rows(vec![]).badges.is_empty());
}

#[test]
fn identity_is_what_the_host_validates() {
    let mut deps = mock_dependencies();
    let ledger = Ledger { storage: &mut deps.storage, api: &deps.api };
    let moog = Identity::validate(&ledger, "moog").unwrap();
    assert_eq!(moog.as_str(), "moog");
    assert_eq!(moog, Identity::unchecked("moog"));
    assert_eq!(moog.clone().into_string(), "moog".to_string());
    for raw in ["", "mo", "Moog", "MOOG"] {
        assert!(matches!(Identity::validate(&ledger, raw), Err(StdError::GenericErr { .. })));
    }
    // On a host to which every address is valid, so is the same text.
    let lenient = Ledger { storage: &mut deps.storage, api: &AnyAddress };
    assert_eq!(Identity::validate(&lenient, "Moog").unwrap().as_str(), "Moog");
}

#[test]
fn valid_attendee_of_an_unframed_key_is_refused() {
    let mut deps = mock_dependencies();
    let ledger = Ledger { storage: &mut deps.storage, api: &AnyAddress };
    assert_eq!(
        list_my_badges(&ledger, "n".repeat(65_536)),
        Err(StdError::generic_err("key part of more than 65535 bytes"))
    );
    assert_eq!(
        list_my_badges(&ledger, "n".repeat(65_535)),
        Ok(ListMyBadgesResponse { badges: vec![] })
    );
    assert_eq!(
        query(&ledger, QueryMsg::ListAttendees { name: "n".repeat(65_536) }),
        Err(StdError::generic_err("key part of more than 65535 bytes"))
    );
}

#[test]
fn readable_ledger_is_listed_without_failure() {
    let mut deps = mock_dependencies();
    let mut ledger = Ledger { storage: &mut deps.storage, api: &deps.api };
    assert!(list_all_events(&ledger).is_ok());
    for name in ["ab", "cd", "ef"] {
        register(&mut ledger, 1_000, "ethan", name, 800, 4_000);
        assert!(list_all_events(&ledger).is_ok());
        for attendee in ["bart", "moog"] {
            mint(&mut ledger, 1_000, "ethan", name, attendee, false).unwrap();
            assert!(list_attendees(&ledger, name.to_string()).is_ok());
            assert!(list_my_badges(&ledger, attendee.to_string()).is_ok());
        }
    }
    assert_eq!(list_all_events(&ledger).unwrap().events.len(), 3);
    assert_eq!(list_my_badges(&ledger, "bart".to_string()).unwrap().badges.len(), 3);
}

#[test]
fn unreadable_badge_fails_its_listing() {
    let mut deps = mock_dependencies();
    let mut by_event = b"\x00\x09attendees\x00\x02ab".to_vec();
    by_event.extend_from_slice(b"bart");
    deps.storage.set(&by_event, b"maybe");
    let mut by_attendee = b"\x00\x06badges\x00\x04bart".to_vec();
    by_attendee.extend_from_slice(&[0xff, 0xfe]);
    deps.storage.set(&by_attendee, b"true");
    let ledger = Ledger { storage: &mut deps.storage, api: &deps.api };
    assert!(matches!(list_attendees(&ledger, "ab".to_string()), Err(StdError::ParseErr { .. })));
    assert!(list_my_badges(&ledger, "bart".to_string()).is_err());
    // What is kept under other keys is listed all the same.
    assert_eq!(
        list_attendees(&ledger, "cd".to_string()),
        Ok(ListAttendeesResponse { attendees: vec![] })
    );
    assert_eq!(list_all_events(&ledger), Ok(ListAllEventsResponse { events: vec![] }));
}

#[test]
fn host_failures_are_handed_on_as_they_came() {
    let mut deps = mock_dependencies();
    let refusal = deps.api.addr_validate("Bart").unwrap_err();
    let missing = cw_storage_plus::Map::<&str, (String, String, String, String, u64, u64)>::new(
        "events",
    )
    .load(&deps.storage, "nowhere")
    .unwrap_err();
    assert!(matches!(missing, StdError::NotFound { .. }));
    let mut ledger = Ledger { storage: &mut deps.storage, api: &deps.api };
    register(&mut ledger, 1_000, "ethan", NAME, 800, 4_000);

    assert_eq!(
        mint(&mut ledger, 1_000, "ethan", "nowhere", "bart", true),
        Err(ContractError::Std(missing))
    );
    let missing = query_get_event(&ledger, "nowhere".to_string()).unwrap_err();
    assert_eq!(
        query(&ledger, QueryMsg::GetEvent { name: "nowhere".to_string() }),
        Err(missing)
    );

    assert_eq!(Identity::validate(&ledger, "Bart").unwrap_err(), refusal);
    assert_eq!(list_my_badges(&ledger, "Bart".to_string()), Err(refusal));
    let refusal = Identity::validate(&ledger, "Bart").unwrap_err();
    assert_eq!(
        mint(&mut ledger, 1_000, "ethan", NAME, "Bart", true),
        Err(ContractError::Std(refusal))
    );
    assert!(list_attendees(&ledger, NAME.to_string()).unwrap().attendees.is_empty());
}
