//! End-to-end scenarios over the event lifecycle.

use fosho::attributes::find_attribute;
use fosho::error::FoshoErrors;
use fosho::instructions::cancel_event::CancelEvent;
use fosho::instructions::claim_rewards::ClaimRewards;
use fosho::instructions::create_community::CreateCommunity;
use fosho::instructions::create_event::CreateEvent;
use fosho::instructions::join_event::JoinEvent;
use fosho::instructions::reject_attendance::RejectAttendee;
use fosho::instructions::verify_attendance::VerifyAttendee;
use fosho::keys::Pubkey;
use fosho::state::attendee::{Attendee, AttendeeStatus};
use fosho::state::collection::EventCollection;
use fosho::state::community::Community;
use fosho::state::event::{Event, EventType};
use fosho::state::ticket::{ScanOutcome, Ticket};

const AUTHORITY: Pubkey = Pubkey { id: 10 };
const COMMUNITY_KEY: Pubkey = Pubkey { id: 11 };
const EVENT_KEY: Pubkey = Pubkey { id: 12 };
const COLLECTION_KEY: Pubkey = Pubkey { id: 13 };
const TOKEN_PROGRAM: Pubkey = Pubkey { id: 14 };
const ALICE: Pubkey = Pubkey { id: 21 };
const BOB: Pubkey = Pubkey { id: 22 };
const SCANNER: Pubkey = Pubkey { id: 23 };

fn new_community() -> Community {
    let ctx = CreateCommunity { authority: AUTHORITY };
    fosho::create_community(&ctx, Pubkey::new(1), "testers".to_string())
}

struct EventConfig {
    commitment_fee: u64,
    registration_starts_at: Option<u64>,
    registration_ends_at: Option<u64>,
    event_starts_at: Option<u64>,
    event_ends_at: Option<u64>,
    capacity: Option<u64>,
    reward_per_user: u64,
    sender_balance: u64,
    now: u64,
}

impl EventConfig {
    fn plain() -> EventConfig {
        EventConfig {
            commitment_fee: 0,
            registration_starts_at: None,
            registration_ends_at: None,
            event_starts_at: None,
            event_ends_at: None,
            capacity: None,
            reward_per_user: 0,
            sender_balance: 0,
            now: 1_000,
        }
    }
}

fn new_event(cfg: EventConfig) -> (CreateEvent, Result<(Event, EventCollection), FoshoErrors>) {
    let mut ctx = CreateEvent {
        community_key: COMMUNITY_KEY,
        community: new_community(),
        authority: AUTHORITY,
        reward_mint: if cfg.reward_per_user > 0 { Some(Pubkey::new(90)) } else { None },
        reward_account: if cfg.reward_per_user > 0 { Some(0) } else { None },
        sender_account: if cfg.reward_per_user > 0 { Some(cfg.sender_balance) } else { None },
    };
    let r = fosho::create_event(
        &mut ctx,
        "Launch Night".to_string(),
        "ipfs://launch".to_string(),
        EventType::InPerson,
        "testers".to_string(),
        cfg.commitment_fee,
        cfg.event_starts_at,
        cfg.event_ends_at,
        cfg.registration_starts_at,
        cfg.registration_ends_at,
        cfg.capacity,
        None,
        None,
        None,
        cfg.reward_per_user,
        Vec::new(),
        false,
        cfg.now,
    );
    (ctx, r)
}

fn join_ctx(event: &Event, collection: &EventCollection, who: Pubkey, lamports: u64) -> JoinEvent {
    JoinEvent {
        event_key: EVENT_KEY,
        event: event.clone(),
        community_key: COMMUNITY_KEY,
        community: new_community(),
        event_collection: collection.clone(),
        collection_key: COLLECTION_KEY,
        event_authority: AUTHORITY,
        event_authority_is_signer: false,
        attendee: who,
        attendee_lamports: lamports,
        event_lamports: 0,
        token_program: TOKEN_PROGRAM,
        proof_mint: None,
        proof_token_account: None,
        proof_metadata: None,
    }
}

fn verify_ctx(
    event: &Event,
    collection: &EventCollection,
    attendee_record: Attendee,
    ticket: Ticket,
    scanner: Pubkey,
) -> VerifyAttendee {
    VerifyAttendee {
        attendee_record,
        event_key: EVENT_KEY,
        event: event.clone(),
        community_key: COMMUNITY_KEY,
        community: new_community(),
        event_collection: collection.clone(),
        collection_key: COLLECTION_KEY,
        owner: ticket.owner,
        ticket,
        event_authority: scanner,
    }
}

fn claim_ctx(
    event: &Event,
    collection: &EventCollection,
    attendee_record: Attendee,
    claimer: Pubkey,
    event_lamports: u64,
) -> ClaimRewards {
    ClaimRewards {
        attendee_record,
        event_key: EVENT_KEY,
        event: event.clone(),
        community_key: COMMUNITY_KEY,
        community: new_community(),
        event_collection: collection.clone(),
        collection_key: COLLECTION_KEY,
        reward_mint: None,
        reward_account: None,
        receiver_account: None,
        claimer,
        claimer_lamports: 0,
        event_lamports,
    }
}

#[test]
fn scenario_capacity_one_admits_one() {
    let (_, r) = new_event(EventConfig { capacity: Some(1), ..EventConfig::plain() });
    let (event, mut collection) = r.expect("created");
    let mut jx = join_ctx(&event, &collection, ALICE, 0);
    let (record, ticket) = fosho::join_event(&mut jx, 1_000).expect("first join fits");
    assert_eq!(record.owner, ALICE);
    assert_eq!(record.status, AttendeeStatus::Pending);
    assert_eq!(ticket.owner, ALICE);
    collection = jx.event_collection;
    assert_eq!(collection.num_minted, 1);

    let mut jy = join_ctx(&event, &collection, BOB, 0);
    assert_eq!(
        fosho::join_event(&mut jy, 1_000),
        Err(FoshoErrors::MaximumTicketsReached)
    );
    assert_eq!(jy.event_collection.num_minted, 1);
}

#[test]
fn scenario_registration_window_closed() {
    let (_, r) = new_event(EventConfig {
        registration_starts_at: Some(500),
        registration_ends_at: Some(900),
        ..EventConfig::plain()
    });
    let (event, collection) = r.expect("created");
    let mut jx = join_ctx(&event, &collection, ALICE, 0);
    assert_eq!(
        fosho::join_event(&mut jx, 1_000),
        Err(FoshoErrors::RegistrationEnded)
    );
    let mut early = join_ctx(&event, &collection, ALICE, 0);
    assert_eq!(
        fosho::join_event(&mut early, 400),
        Err(FoshoErrors::RegistrationNotStarted)
    );
    let mut fits = join_ctx(&event, &collection, ALICE, 0);
    assert!(fosho::join_event(&mut fits, 700).is_ok());
}

#[test]
fn scenario_cancelled_event_waives_verification() {
    let (_, r) = new_event(EventConfig::plain());
    let (event, collection) = r.expect("created");
    let mut jx = join_ctx(&event, &collection, ALICE, 0);
    let (record, _) = fosho::join_event(&mut jx, 1_000).expect("joined");
    assert_eq!(record.status, AttendeeStatus::Pending);

    let mut cx = CancelEvent {
        event: event.clone(),
        community_key: COMMUNITY_KEY,
        community: new_community(),
        authority: AUTHORITY,
    };
    fosho::cancel_event(&mut cx).expect("authority cancels");
    assert!(cx.event.is_cancelled);

    let mut claim = claim_ctx(&cx.event, &jx.event_collection, record, ALICE, 0);
    fosho::claim_rewards(&mut claim, 2_000).expect("pending claim passes once cancelled");
    assert_eq!(claim.attendee_record.status, AttendeeStatus::Claimed);
}

#[test]
fn cancel_needs_the_community_authority() {
    let (_, r) = new_event(EventConfig::plain());
    let (event, _) = r.expect("created");
    let mut cx = CancelEvent {
        event,
        community_key: COMMUNITY_KEY,
        community: new_community(),
        authority: BOB,
    };
    assert_eq!(
        fosho::cancel_event(&mut cx),
        Err(FoshoErrors::InvalidCommunityAuthority)
    );
    assert!(!cx.event.is_cancelled);
}

#[test]
fn claiming_twice_fails_the_second_time() {
    let (_, r) = new_event(EventConfig::plain());
    let (event, collection) = r.expect("created");
    let mut jx = join_ctx(&event, &collection, ALICE, 0);
    let (record, ticket) = fosho::join_event(&mut jx, 1_000).expect("joined");

    let mut vx = verify_ctx(&event, &jx.event_collection, record, ticket, AUTHORITY);
    fosho::verify_attendee(&mut vx, 1_100).expect("verified");

    let mut claim = claim_ctx(&event, &vx.event_collection, vx.attendee_record, ALICE, 0);
    fosho::claim_rewards(&mut claim, 1_200).expect("first claim");

    let mut again = claim_ctx(&event, &claim.event_collection, claim.attendee_record, ALICE, 0);
    assert_eq!(
        fosho::claim_rewards(&mut again, 1_300),
        Err(FoshoErrors::AlreadyClaimed)
    );
}

#[test]
fn verified_record_claims_only_by_its_owner() {
    let (_, r) = new_event(EventConfig::plain());
    let (event, collection) = r.expect("created");
    let mut jx = join_ctx(&event, &collection, ALICE, 0);
    let (record, ticket) = fosho::join_event(&mut jx, 1_000).expect("joined");
    let mut vx = verify_ctx(&event, &jx.event_collection, record, ticket, AUTHORITY);
    fosho::verify_attendee(&mut vx, 1_100).expect("verified");

    let mut wrong = claim_ctx(&event, &vx.event_collection, vx.attendee_record, BOB, 0);
    assert_eq!(
        fosho::claim_rewards(&mut wrong, 1_200),
        Err(FoshoErrors::InvalidClaimer)
    );

    let mut right = claim_ctx(&event, &vx.event_collection, vx.attendee_record, ALICE, 0);
    fosho::claim_rewards(&mut right, 1_200).expect("owner claims");
}

#[test]
fn pending_record_claims_only_by_authority_after_end() {
    let (_, r) = new_event(EventConfig {
        event_starts_at: Some(2_000),
        event_ends_at: Some(3_000),
        ..EventConfig::plain()
    });
    let (event, collection) = r.expect("created");
    let mut jx = join_ctx(&event, &collection, ALICE, 0);
    let (record, _) = fosho::join_event(&mut jx, 1_000).expect("joined");

    let mut by_owner = claim_ctx(&event, &jx.event_collection, record, ALICE, 0);
    assert_eq!(
        fosho::claim_rewards(&mut by_owner, 3_500),
        Err(FoshoErrors::AttendeeStatusPending)
    );

    let mut too_early = claim_ctx(&event, &jx.event_collection, record, AUTHORITY, 0);
    assert_eq!(
        fosho::claim_rewards(&mut too_early, 2_500),
        Err(FoshoErrors::EventHasNotEnded)
    );

    let mut by_authority = claim_ctx(&event, &jx.event_collection, record, AUTHORITY, 0);
    fosho::claim_rewards(&mut by_authority, 3_500).expect("authority claws back");
    assert_eq!(by_authority.attendee_record.status, AttendeeStatus::Claimed);
}

#[test]
fn scenario_reward_escrow_is_reward_times_capacity() {
    let (ctx, r) = new_event(EventConfig {
        capacity: Some(3),
        reward_per_user: 5,
        sender_balance: 15,
        ..EventConfig::plain()
    });
    let (event, _) = r.expect("created");
    assert_eq!(ctx.reward_account, Some(15));
    assert_eq!(ctx.sender_account, Some(0));
    assert_eq!(event.reward_per_user, 5);

    let (_, refused) = new_event(EventConfig {
        capacity: Some(3),
        reward_per_user: 5,
        sender_balance: 14,
        ..EventConfig::plain()
    });
    assert_eq!(refused, Err(FoshoErrors::InsufficientFunds));
}

#[test]
fn reward_deposit_needs_all_accounts() {
    let mut ctx = CreateEvent {
        community_key: COMMUNITY_KEY,
        community: new_community(),
        authority: AUTHORITY,
        reward_mint: Some(Pubkey::new(90)),
        reward_account: None,
        sender_account: Some(100),
    };
    let r = fosho::create_event(
        &mut ctx,
        "Launch Night".to_string(),
        "ipfs://launch".to_string(),
        EventType::Virtual,
        "testers".to_string(),
        0,
        None,
        None,
        None,
        None,
        None,
        None,
        None,
        None,
        5,
        Vec::new(),
        false,
        1_000,
    );
    assert_eq!(r, Err(FoshoErrors::AccountNotProvided));
    assert_eq!(ctx.community.events_count, 0);
}

#[test]
fn reward_total_overflow_is_reported() {
    let (_, r) = new_event(EventConfig {
        capacity: Some(u64::MAX),
        reward_per_user: 2,
        sender_balance: 100,
        ..EventConfig::plain()
    });
    assert_eq!(r, Err(FoshoErrors::NumericalOverflow));
}

#[test]
fn create_event_validates_times() {
    let (_, stale) = new_event(EventConfig {
        event_starts_at: Some(900),
        ..EventConfig::plain()
    });
    assert_eq!(stale, Err(FoshoErrors::InvalidEventStartTime));

    let (_, crossed) = new_event(EventConfig {
        event_starts_at: Some(2_000),
        registration_ends_at: Some(1_500),
        ..EventConfig::plain()
    });
    assert_eq!(crossed, Err(FoshoErrors::InvalidRegistrationEndTime));
}

#[test]
fn create_event_claims_the_next_slot() {
    let (ctx, r) = new_event(EventConfig::plain());
    let (event, collection) = r.expect("created");
    assert_eq!(event.nonce, 0);
    assert_eq!(ctx.community.events_count, 1);
    assert!(!event.is_cancelled);
    assert_eq!(collection.num_minted, 0);
    assert_eq!(collection.update_authority, COMMUNITY_KEY);
    assert_eq!(
        find_attribute(&collection.attributes, "Event Type")
            .expect("typed")
            .value
            .as_str(),
        "InPerson"
    );
    assert!(find_attribute(&collection.attributes, "Capacity").is_none());
}

#[test]
fn join_requires_the_configured_cosignature() {
    let (_, r) = new_event(EventConfig::plain());
    let (mut event, collection) = r.expect("created");
    event.authority_must_sign = true;
    event.event_authorities = vec![SCANNER];

    let mut stranger = join_ctx(&event, &collection, ALICE, 0);
    stranger.event_authority = BOB;
    stranger.event_authority_is_signer = true;
    assert_eq!(
        fosho::join_event(&mut stranger, 1_000),
        Err(FoshoErrors::InvalidEventAuthority)
    );

    let mut unsigned = join_ctx(&event, &collection, ALICE, 0);
    unsigned.event_authority = SCANNER;
    unsigned.event_authority_is_signer = false;
    assert_eq!(
        fosho::join_event(&mut unsigned, 1_000),
        Err(FoshoErrors::EventAuthorityMustSign)
    );

    let mut signed = join_ctx(&event, &collection, ALICE, 0);
    signed.event_authority = SCANNER;
    signed.event_authority_is_signer = true;
    assert!(fosho::join_event(&mut signed, 1_000).is_ok());
}

#[test]
fn join_refuses_a_cancelled_event() {
    let (_, r) = new_event(EventConfig::plain());
    let (mut event, collection) = r.expect("created");
    event.is_cancelled = true;
    let mut jx = join_ctx(&event, &collection, ALICE, 0);
    assert_eq!(
        fosho::join_event(&mut jx, 1_000),
        Err(FoshoErrors::EventCancelled)
    );
}

#[test]
fn join_escrows_the_commitment_fee() {
    let (_, r) = new_event(EventConfig { commitment_fee: 25, ..EventConfig::plain() });
    let (event, collection) = r.expect("created");

    let mut poor = join_ctx(&event, &collection, ALICE, 24);
    assert_eq!(
        fosho::join_event(&mut poor, 1_000),
        Err(FoshoErrors::InsufficientFunds)
    );
    assert_eq!(poor.attendee_lamports, 24);
    assert_eq!(poor.event_collection.num_minted, 0);

    let mut funded = join_ctx(&event, &collection, ALICE, 100);
    let (_, ticket) = fosho::join_event(&mut funded, 1_000).expect("joined");
    assert_eq!(funded.attendee_lamports, 75);
    assert_eq!(funded.event_lamports, 25);
    assert_eq!(
        find_attribute(&ticket.plugins.attribute_list, "Fee")
            .expect("fee attr")
            .value
            .as_str(),
        "25"
    );
}

#[test]
fn tickets_are_numbered_from_one() {
    let (_, r) = new_event(EventConfig::plain());
    let (event, collection) = r.expect("created");
    let mut first = join_ctx(&event, &collection, ALICE, 0);
    let (_, t1) = fosho::join_event(&mut first, 1_000).expect("joined");
    assert_eq!(t1.name.as_str(), "Launch Night #1");
    assert_eq!(
        find_attribute(&t1.plugins.attribute_list, "Ticket Number")
            .expect("numbered")
            .value
            .as_str(),
        "1"
    );
    assert!(!t1.plugins.frozen);
    assert!(t1.plugins.scan_records.is_empty());

    let mut second = join_ctx(&event, &first.event_collection, BOB, 0);
    let (_, t2) = fosho::join_event(&mut second, 1_000).expect("joined");
    assert_eq!(t2.name.as_str(), "Launch Night #2");
}

#[test]
fn scenario_double_scan_is_refused() {
    let (_, r) = new_event(EventConfig::plain());
    let (mut event, collection) = r.expect("created");
    event.event_authorities = vec![SCANNER, BOB];

    let mut jx = join_ctx(&event, &collection, ALICE, 0);
    let (record, ticket) = fosho::join_event(&mut jx, 1_000).expect("joined");

    let mut vx = verify_ctx(&event, &jx.event_collection, record, ticket, SCANNER);
    fosho::verify_attendee(&mut vx, 1_100).expect("first scan");
    assert_eq!(vx.attendee_record.status, AttendeeStatus::Verified);
    assert!(vx.ticket.plugins.frozen);
    assert_eq!(vx.ticket.plugins.scan_records.len(), 1);
    assert_eq!(vx.ticket.plugins.scan_records[0].authority, AUTHORITY);
    assert_eq!(vx.ticket.plugins.scan_records[0].outcome, ScanOutcome::Verified);

    let mut same_again = verify_ctx(
        &event,
        &vx.event_collection,
        vx.attendee_record,
        vx.ticket.clone(),
        SCANNER,
    );
    assert_eq!(
        fosho::verify_attendee(&mut same_again, 1_200),
        Err(FoshoErrors::AlreadyScanned)
    );

    let mut other_authority = verify_ctx(
        &event,
        &vx.event_collection,
        vx.attendee_record,
        vx.ticket.clone(),
        BOB,
    );
    assert_eq!(
        fosho::verify_attendee(&mut other_authority, 1_200),
        Err(FoshoErrors::AlreadyScanned)
    );

    let mut reject_after = RejectAttendee {
        attendee_record: vx.attendee_record,
        event_key: EVENT_KEY,
        event: event.clone(),
        community_key: COMMUNITY_KEY,
        community: new_community(),
        event_collection: vx.event_collection.clone(),
        collection_key: COLLECTION_KEY,
        owner: ALICE,
        ticket: vx.ticket.clone(),
        event_authority: BOB,
    };
    assert_eq!(
        fosho::reject_attendee(&mut reject_after),
        Err(FoshoErrors::AlreadyScanned)
    );
}

#[test]
fn verify_respects_the_occurrence_window() {
    let (_, r) = new_event(EventConfig {
        event_starts_at: Some(2_000),
        event_ends_at: Some(3_000),
        ..EventConfig::plain()
    });
    let (event, collection) = r.expect("created");
    let mut jx = join_ctx(&event, &collection, ALICE, 0);
    let (record, ticket) = fosho::join_event(&mut jx, 1_000).expect("joined");

    let mut early = verify_ctx(&event, &jx.event_collection, record, ticket.clone(), AUTHORITY);
    assert_eq!(
        fosho::verify_attendee(&mut early, 1_500),
        Err(FoshoErrors::EventHasNotStarted)
    );

    let mut late = verify_ctx(&event, &jx.event_collection, record, ticket.clone(), AUTHORITY);
    assert_eq!(
        fosho::verify_attendee(&mut late, 3_500),
        Err(FoshoErrors::EventEnded)
    );

    let mut in_window = verify_ctx(&event, &jx.event_collection, record, ticket, AUTHORITY);
    fosho::verify_attendee(&mut in_window, 2_500).expect("scanned during the event");
}

#[test]
fn verify_needs_an_authority_and_a_live_event() {
    let (_, r) = new_event(EventConfig::plain());
    let (event, collection) = r.expect("created");
    let mut jx = join_ctx(&event, &collection, ALICE, 0);
    let (record, ticket) = fosho::join_event(&mut jx, 1_000).expect("joined");

    let mut stranger = verify_ctx(&event, &jx.event_collection, record, ticket.clone(), BOB);
    assert_eq!(
        fosho::verify_attendee(&mut stranger, 1_100),
        Err(FoshoErrors::InvalidEventAuthority)
    );

    let mut cancelled = verify_ctx(&event, &jx.event_collection, record, ticket.clone(), AUTHORITY);
    cancelled.event.is_cancelled = true;
    assert_eq!(
        fosho::verify_attendee(&mut cancelled, 1_100),
        Err(FoshoErrors::EventCancelled)
    );

    let mut reject_cancelled = RejectAttendee {
        attendee_record: record,
        event_key: EVENT_KEY,
        event: cancelled.event.clone(),
        community_key: COMMUNITY_KEY,
        community: new_community(),
        event_collection: jx.event_collection.clone(),
        collection_key: COLLECTION_KEY,
        owner: ALICE,
        ticket,
        event_authority: AUTHORITY,
    };
    fosho::reject_attendee(&mut reject_cancelled).expect("rejection tolerates cancellation");
    assert_eq!(reject_cancelled.attendee_record.status, AttendeeStatus::Rejected);
    assert_eq!(
        reject_cancelled.ticket.plugins.scan_records[0].outcome,
        ScanOutcome::Rejected
    );
    assert_eq!(reject_cancelled.ticket.plugins.scan_records[0].authority, AUTHORITY);
}

#[test]
fn rejected_record_claims_only_by_authority() {
    let (_, r) = new_event(EventConfig::plain());
    let (event, collection) = r.expect("created");
    let mut jx = join_ctx(&event, &collection, ALICE, 0);
    let (record, ticket) = fosho::join_event(&mut jx, 1_000).expect("joined");

    let mut rx = RejectAttendee {
        attendee_record: record,
        event_key: EVENT_KEY,
        event: event.clone(),
        community_key: COMMUNITY_KEY,
        community: new_community(),
        event_collection: jx.event_collection.clone(),
        collection_key: COLLECTION_KEY,
        owner: ALICE,
        ticket,
        event_authority: AUTHORITY,
    };
    fosho::reject_attendee(&mut rx).expect("rejected");

    let mut by_owner = claim_ctx(&event, &rx.event_collection, rx.attendee_record, ALICE, 0);
    assert_eq!(
        fosho::claim_rewards(&mut by_owner, 2_000),
        Err(FoshoErrors::InvalidClaimer)
    );

    let mut by_authority = claim_ctx(&event, &rx.event_collection, rx.attendee_record, AUTHORITY, 0);
    fosho::claim_rewards(&mut by_authority, 2_000).expect("authority claims");
}

#[test]
fn claim_moves_reward_and_fee() {
    let (ctx, r) = new_event(EventConfig {
        commitment_fee: 25,
        capacity: Some(2),
        reward_per_user: 5,
        sender_balance: 10,
        ..EventConfig::plain()
    });
    let (event, collection) = r.expect("created");
    assert_eq!(ctx.reward_account, Some(10));

    let mut jx = join_ctx(&event, &collection, ALICE, 100);
    let (record, ticket) = fosho::join_event(&mut jx, 1_000).expect("joined");
    let mut vx = verify_ctx(&event, &jx.event_collection, record, ticket, AUTHORITY);
    fosho::verify_attendee(&mut vx, 1_100).expect("verified");

    let mut claim = claim_ctx(&event, &vx.event_collection, vx.attendee_record, ALICE, 25);
    assert_eq!(
        fosho::claim_rewards(&mut claim, 1_200),
        Err(FoshoErrors::AccountNotProvided)
    );

    claim.reward_mint = Some(Pubkey::new(90));
    claim.reward_account = Some(10);
    claim.receiver_account = Some(0);
    fosho::claim_rewards(&mut claim, 1_200).expect("claimed");
    assert_eq!(claim.reward_account, Some(5));
    assert_eq!(claim.receiver_account, Some(5));
    assert_eq!(claim.event_lamports, 0);
    assert_eq!(claim.claimer_lamports, 25);
}

#[test]
fn claim_reports_a_drained_reward_escrow() {
    let (_, r) = new_event(EventConfig {
        capacity: Some(2),
        reward_per_user: 5,
        sender_balance: 10,
        ..EventConfig::plain()
    });
    let (event, collection) = r.expect("created");
    let mut jx = join_ctx(&event, &collection, ALICE, 0);
    let (record, ticket) = fosho::join_event(&mut jx, 1_000).expect("joined");
    let mut vx = verify_ctx(&event, &jx.event_collection, record, ticket, AUTHORITY);
    fosho::verify_attendee(&mut vx, 1_100).expect("verified");

    let mut claim = claim_ctx(&event, &vx.event_collection, vx.attendee_record, ALICE, 0);
    claim.reward_mint = Some(Pubkey::new(90));
    claim.reward_account = Some(3);
    claim.receiver_account = Some(0);
    assert_eq!(
        fosho::claim_rewards(&mut claim, 1_200),
        Err(FoshoErrors::InsufficientFunds)
    );
    assert_eq!(claim.attendee_record.status, AttendeeStatus::Verified);
    assert_eq!(claim.reward_account, Some(3));
}

#[test]
fn claim_reports_empty_escrows() {
    let (_, r) = new_event(EventConfig { commitment_fee: 25, ..EventConfig::plain() });
    let (event, collection) = r.expect("created");
    let mut jx = join_ctx(&event, &collection, ALICE, 100);
    let (record, ticket) = fosho::join_event(&mut jx, 1_000).expect("joined");
    let mut vx = verify_ctx(&event, &jx.event_collection, record, ticket, AUTHORITY);
    fosho::verify_attendee(&mut vx, 1_100).expect("verified");

    let mut drained = claim_ctx(&event, &vx.event_collection, vx.attendee_record, ALICE, 10);
    assert_eq!(
        fosho::claim_rewards(&mut drained, 1_200),
        Err(FoshoErrors::InsufficientFunds)
    );
    assert_eq!(drained.attendee_record.status, AttendeeStatus::Verified);
    assert_eq!(drained.event_lamports, 10);
}
