//! The global guarantees of the event state machine.
//!
//! Each proof function here states one law over the operation
//! specifications in [`crate::instructions`]: capacity is a hard bound on
//! registrations, claiming is one-shot, claiming is bound to the right
//! identity per lifecycle stage, a ticket is scanned at most once, and the
//! facets a collection is created with are exactly the facets registration
//! later enforces — an absent bound reads back as the unconstrained
//! sentinel.

use vstd::prelude::*;

use crate::attributes::{
    attr_num_u32, attr_num_u64, attrs_view, find_attr, lemma_find_attr_concat,
    lemma_find_attr_singleton, AttrView,
};
use crate::error::FoshoErrors;
use crate::instructions::claim_rewards::{claim_auth_err, claim_precheck, ClaimRewards};
use crate::instructions::create_event::{
    bound_or_zero, collection_attr_views, collection_time_err, create_event_precheck,
    max_attendees, num_attr, opt_num_attr, opt_text_attr, CreateEvent,
};
use crate::instructions::join_event::{join_precheck, JoinEvent};
use crate::instructions::reject_attendance::{reject_precheck, RejectAttendee};
use crate::instructions::verify_attendance::{verify_precheck, VerifyAttendee};
use crate::state::attendee::{with_status, AttendeeStatus};
use crate::state::event::{event_type_label, is_authority_for, EventType};
use crate::state::ticket::{scanned_by, ScanOutcome, ScanRecord};
use crate::text::{
    lemma_digits_of_val, lemma_digits_of_wf, lemma_u32_roundtrip, lemma_u64_roundtrip,
    spec_digits_of,
};

verus! {

/// Under a configured capacity, a registration that goes through always
/// finds the mint count strictly below the capacity — so the count can
/// never be driven past it.
pub proof fn lemma_capacity_is_never_exceeded(ctx: JoinEvent, now: u64, capacity: u32)
    requires
        attr_num_u32(attrs_view(ctx.event_collection.attributes@), "Capacity"@)
            == Ok::<u32, FoshoErrors>(capacity),
        capacity != 0,
    ensures
        join_precheck(ctx, now) is None ==> ctx.event_collection.num_minted < capacity,
        join_precheck(ctx, now) is None ==> ctx.event_collection.num_minted + 1 <= capacity,
{
}

/// Once the mint count has reached a configured capacity, registration
/// always fails; and when the co-signature, cancellation and window checks
/// pass, it fails precisely with the capacity error.
pub proof fn lemma_full_event_refuses_registration(ctx: JoinEvent, now: u64, capacity: u32)
    requires
        attr_num_u32(attrs_view(ctx.event_collection.attributes@), "Capacity"@)
            == Ok::<u32, FoshoErrors>(capacity),
        capacity != 0,
        ctx.event_collection.num_minted >= capacity,
    ensures
        join_precheck(ctx, now) is Some,
        (ctx.event.authority_must_sign ==> is_authority_for(
            ctx.event,
            ctx.community,
            ctx.event_authority,
        ) && ctx.event_authority_is_signer) && !ctx.event.is_cancelled && (attr_num_u64(
            attrs_view(ctx.event_collection.attributes@),
            "Registration Starts At"@,
        ) matches Ok(reg_starts_at) && (reg_starts_at == 0 || now >= reg_starts_at)) && (
        attr_num_u64(
            attrs_view(ctx.event_collection.attributes@),
            "Registration Ends At"@,
        ) matches Ok(reg_ends_at) && (reg_ends_at == 0 || now <= reg_ends_at)) ==> join_precheck(
            ctx,
            now,
        ) == Some(FoshoErrors::MaximumTicketsReached),
{
}

/// Claiming is one-shot: after a claim has gone through, a second claim of
/// the same record — whoever attempts it, whenever — fails as already
/// claimed.
pub proof fn lemma_claim_rewards_is_idempotent(
    first: ClaimRewards,
    second: ClaimRewards,
    now_first: u64,
    now_second: u64,
)
    requires
        claim_precheck(first, now_first) is None,
        second.attendee_record == with_status(first.attendee_record, AttendeeStatus::Claimed),
    ensures
        claim_precheck(second, now_second) == Some(FoshoErrors::AlreadyClaimed),
{
}

/// A verified attendee's rewards can be claimed by the attendee itself and
/// by nobody else.
pub proof fn lemma_verified_claim_is_owner_only(ctx: ClaimRewards, now: u64)
    requires
        ctx.attendee_record.status == AttendeeStatus::Verified,
    ensures
        claim_auth_err(ctx, now) is None <==> ctx.claimer == ctx.attendee_record.owner,
        ctx.claimer != ctx.attendee_record.owner ==> claim_auth_err(ctx, now) == Some(
            FoshoErrors::InvalidClaimer,
        ),
{
}

/// The round trip closes: a record that went through registration and then
/// verification is claimed by its owner outright on an event that escrows
/// nothing.
pub proof fn lemma_round_trip_owner_claims(ctx: ClaimRewards, now: u64)
    requires
        ctx.attendee_record.status == AttendeeStatus::Verified,
        ctx.claimer == ctx.attendee_record.owner,
        ctx.event.reward_per_user == 0,
        ctx.event.commitment_fee == 0,
    ensures
        claim_precheck(ctx, now) is None,
{
}

/// A record still pending on a live event can be claimed only by the
/// community authority, and only once the event's occurrence window — when
/// one is configured — has ended.
pub proof fn lemma_pending_claim_is_authority_only(ctx: ClaimRewards, now: u64)
    requires
        ctx.attendee_record.status == AttendeeStatus::Pending,
        !ctx.event.is_cancelled,
    ensures
        ctx.claimer != ctx.community.authority ==> claim_auth_err(ctx, now) == Some(
            FoshoErrors::AttendeeStatusPending,
        ),
        claim_auth_err(ctx, now) is None ==> ctx.claimer == ctx.community.authority,
        claim_auth_err(ctx, now) is None ==> (attr_num_u64(
            attrs_view(ctx.event_collection.attributes@),
            "Event Ends At"@,
        ) matches Ok(event_ends_at) && (event_ends_at == 0 || now > event_ends_at)),
        ctx.claimer == ctx.community.authority && (attr_num_u64(
            attrs_view(ctx.event_collection.attributes@),
            "Event Ends At"@,
        ) matches Ok(event_ends_at) && (event_ends_at == 0 || now > event_ends_at))
            ==> claim_auth_err(ctx, now) is None,
{
}

/// A ticket is scanned at most once: after a verification has written its
/// scan entry, any later verification of a context carrying that ticket and
/// the same community fails, whoever the scanning authority is.
pub proof fn lemma_scan_is_write_once(
    first: VerifyAttendee,
    second: VerifyAttendee,
    now_first: u64,
    now_second: u64,
)
    requires
        verify_precheck(first, now_first) is None,
        second.ticket.plugins.scan_records@ == first.ticket.plugins.scan_records@.push(
            ScanRecord { authority: first.community.authority, outcome: ScanOutcome::Verified },
        ),
        second.community.authority == first.community.authority,
    ensures
        verify_precheck(second, now_second) is Some,
{
    let records = second.ticket.plugins.scan_records@;
    assert(records[records.len() - 1].authority == second.community.authority);
    assert(scanned_by(second.ticket, second.community.authority));
}

/// A reward-bearing event demands its full escrow at creation: with the
/// deposit source short of one reward per coverable attendee, creation is
/// refused for insufficient funds — and so, by the creation contract,
/// no event record, no descriptive record and no counter increment
/// survives the attempt.
pub proof fn lemma_underfunded_reward_event_is_refused(
    ctx: CreateEvent,
    event_starts_at: Option<u64>,
    registration_ends_at: Option<u64>,
    capacity: Option<u64>,
    reward_per_user: u64,
    now: u64,
)
    requires
        ctx.authority == ctx.community.authority,
        collection_time_err(event_starts_at, registration_ends_at, now) is None,
        ctx.reward_mint is Some,
        ctx.reward_account is Some,
        reward_per_user > 0,
        reward_per_user * max_attendees(capacity) <= u64::MAX,
        ctx.sender_account matches Some(sender) && sender < reward_per_user * max_attendees(
            capacity,
        ),
    ensures
        create_event_precheck(
            ctx,
            event_starts_at,
            registration_ends_at,
            capacity,
            reward_per_user,
            now,
        ) == Some(FoshoErrors::InsufficientFunds),
{
}

/// The counterpart: with the asset, the escrow and the deposit source all
/// supplied, and the source covering one reward per coverable attendee,
/// creation goes through — and the creation contract then deposits exactly
/// that total into the escrow.
pub proof fn lemma_funded_reward_event_is_accepted(
    ctx: CreateEvent,
    event_starts_at: Option<u64>,
    registration_ends_at: Option<u64>,
    capacity: Option<u64>,
    reward_per_user: u64,
    now: u64,
)
    requires
        ctx.authority == ctx.community.authority,
        collection_time_err(event_starts_at, registration_ends_at, now) is None,
        ctx.reward_mint is Some,
        reward_per_user > 0,
        reward_per_user * max_attendees(capacity) <= u64::MAX,
        ctx.sender_account matches Some(sender) && sender >= reward_per_user * max_attendees(
            capacity,
        ),
        ctx.reward_account matches Some(escrow) && escrow + reward_per_user * max_attendees(
            capacity,
        ) <= u64::MAX,
    ensures
        create_event_precheck(
            ctx,
            event_starts_at,
            registration_ends_at,
            capacity,
            reward_per_user,
            now,
        ) is None,
{
}

/// A record that has been scanned — verified or rejected — refuses every
/// further scan, whoever attempts it and whichever verdict is attempted.
pub proof fn lemma_scanned_record_refuses_rescan(
    verify_again: VerifyAttendee,
    reject_again: RejectAttendee,
    now: u64,
)
    requires
        verify_again.attendee_record.status == AttendeeStatus::Verified
            || verify_again.attendee_record.status == AttendeeStatus::Rejected,
        reject_again.attendee_record.status == AttendeeStatus::Verified
            || reject_again.attendee_record.status == AttendeeStatus::Rejected,
    ensures
        !verify_again.event.is_cancelled ==> verify_precheck(verify_again, now) == Some(
            FoshoErrors::AlreadyScanned,
        ),
        reject_precheck(reject_again) == Some(FoshoErrors::AlreadyScanned),
{
}

/// What searching an optional numeric attribute yields for a different key.
proof fn find_opt_num_absent(entry_key: Seq<char>, value: Option<u64>, key: Seq<char>)
    requires
        entry_key != key,
    ensures
        find_attr(opt_num_attr(entry_key, value), key) is None,
{
    match value {
        Some(v) => lemma_find_attr_singleton(
            AttrView { key: entry_key, value: spec_digits_of(v as nat) },
            key,
        ),
        None => {},
    }
}

/// What searching an optional numeric attribute yields for its own key.
proof fn find_opt_num_present(entry_key: Seq<char>, value: Option<u64>)
    ensures
        find_attr(opt_num_attr(entry_key, value), entry_key) == match value {
            Some(v) => Some(AttrView { key: entry_key, value: spec_digits_of(v as nat) }),
            None => None,
        },
{
    match value {
        Some(v) => lemma_find_attr_singleton(
            AttrView { key: entry_key, value: spec_digits_of(v as nat) },
            entry_key,
        ),
        None => {},
    }
}

/// What searching an optional text attribute yields for a different key.
proof fn find_opt_text_absent(entry_key: Seq<char>, value: Option<Seq<char>>, key: Seq<char>)
    requires
        entry_key != key,
    ensures
        find_attr(opt_text_attr(entry_key, value), key) is None,
{
    match value {
        Some(v) => lemma_find_attr_singleton(AttrView { key: entry_key, value: v }, key),
        None => {},
    }
}

/// Evaluates the search for one numeric facet over a freshly created
/// attribute list.
#[verifier::rlimit(50)]
proof fn lemma_collection_find_facet(
    event_type: EventType,
    organizer: Seq<char>,
    commitment_fee: u64,
    event_starts_at: Option<u64>,
    event_ends_at: Option<u64>,
    registration_starts_at: Option<u64>,
    registration_ends_at: Option<u64>,
    capacity: Option<u64>,
    location: Option<Seq<char>>,
    virtual_link: Option<Seq<char>>,
    description: Option<Seq<char>>,
    key: Seq<char>,
)
    requires
        key == "Event Ends At"@ || key == "Registration Starts At"@ || key
            == "Registration Ends At"@ || key == "Capacity"@,
    ensures
        find_attr(
            collection_attr_views(
                event_type,
                organizer,
                commitment_fee,
                event_starts_at,
                event_ends_at,
                registration_starts_at,
                registration_ends_at,
                capacity,
                location,
                virtual_link,
                description,
            ),
            key,
        ) == find_attr(
            opt_num_attr("Event Ends At"@, event_ends_at) + opt_num_attr(
                "Registration Starts At"@,
                registration_starts_at,
            ) + opt_num_attr("Registration Ends At"@, registration_ends_at) + opt_num_attr(
                "Capacity"@,
                capacity,
            ),
            key,
        ),
{
    reveal_strlit("Event Type");
    reveal_strlit("Organizer");
    reveal_strlit("Fee");
    reveal_strlit("Event Starts At");
    reveal_strlit("Event Ends At");
    reveal_strlit("Registration Starts At");
    reveal_strlit("Registration Ends At");
    reveal_strlit("Capacity");
    reveal_strlit("Location");
    reveal_strlit("Virtual Link");
    reveal_strlit("Description");
    let p1 = seq![AttrView { key: "Event Type"@, value: event_type_label(event_type) }];
    let p2 = seq![AttrView { key: "Organizer"@, value: organizer }];
    let p3 = num_attr("Fee"@, commitment_fee);
    let p4 = num_attr("Event Starts At"@, bound_or_zero(event_starts_at));
    let p5 = opt_num_attr("Event Ends At"@, event_ends_at);
    let p6 = opt_num_attr("Registration Starts At"@, registration_starts_at);
    let p7 = opt_num_attr("Registration Ends At"@, registration_ends_at);
    let p8 = opt_num_attr("Capacity"@, capacity);
    let p9 = opt_text_attr("Location"@, location);
    let p10 = opt_text_attr("Virtual Link"@, virtual_link);
    let p11 = opt_text_attr("Description"@, description);
    let middle = p5 + p6 + p7 + p8;
    assert("Event Type"@ != key) by {
        assert(("Event Type"@).len() == 10);
    }
    assert("Organizer"@ != key) by {
        assert(("Organizer"@).len() == 9);
    }
    assert("Fee"@ != key) by {
        assert(("Fee"@).len() == 3);
    }
    assert("Event Starts At"@ != key) by {
        assert(("Event Starts At"@).len() == 15);
    }
    assert("Virtual Link"@ != key) by {
        assert(("Virtual Link"@).len() == 12);
    }
    assert("Description"@ != key) by {
        assert(("Description"@).len() == 11);
    }
    assert("Location"@ != key) by {
        assert(("Location"@).len() == 8);
        assert(("Location"@)[0] == 'L');
        assert(("Capacity"@)[0] == 'C');
    }
    lemma_find_attr_singleton(p1[0], key);
    lemma_find_attr_singleton(p2[0], key);
    lemma_find_attr_singleton(p3[0], key);
    lemma_find_attr_singleton(p4[0], key);
    find_opt_text_absent("Location"@, location, key);
    find_opt_text_absent("Virtual Link"@, virtual_link, key);
    find_opt_text_absent("Description"@, description, key);
    lemma_find_attr_concat(p1, p2, key);
    lemma_find_attr_concat(p1 + p2, p3, key);
    lemma_find_attr_concat(p1 + p2 + p3, p4, key);
    lemma_find_attr_concat(p1 + p2 + p3 + p4, p5, key);
    lemma_find_attr_concat(p1 + p2 + p3 + p4 + p5, p6, key);
    lemma_find_attr_concat(p1 + p2 + p3 + p4 + p5 + p6, p7, key);
    lemma_find_attr_concat(p1 + p2 + p3 + p4 + p5 + p6 + p7, p8, key);
    lemma_find_attr_concat(p1 + p2 + p3 + p4 + p5 + p6 + p7 + p8, p9, key);
    lemma_find_attr_concat(p1 + p2 + p3 + p4 + p5 + p6 + p7 + p8 + p9, p10, key);
    lemma_find_attr_concat(p1 + p2 + p3 + p4 + p5 + p6 + p7 + p8 + p9 + p10, p11, key);
    lemma_find_attr_concat(p5, p6, key);
    lemma_find_attr_concat(p5 + p6, p7, key);
    lemma_find_attr_concat(p5 + p6 + p7, p8, key);
    assert(p1 + p2 + p3 + p4 + p5 =~= (p1 + p2 + p3 + p4) + p5);
    assert(middle =~= ((p5 + p6) + p7) + p8);
}

/// The facets a collection is created with are exactly the facets read
/// back when registering, scanning or claiming: a configured bound reads
/// back as itself, an absent bound as the unconstrained sentinel 0, and a
/// capacity beyond the register width as the overflow error.
pub proof fn lemma_created_collection_facets(
    event_type: EventType,
    organizer: Seq<char>,
    commitment_fee: u64,
    event_starts_at: Option<u64>,
    event_ends_at: Option<u64>,
    registration_starts_at: Option<u64>,
    registration_ends_at: Option<u64>,
    capacity: Option<u64>,
    location: Option<Seq<char>>,
    virtual_link: Option<Seq<char>>,
    description: Option<Seq<char>>,
)
    ensures
        ({
            let views = collection_attr_views(
                event_type,
                organizer,
                commitment_fee,
                event_starts_at,
                event_ends_at,
                registration_starts_at,
                registration_ends_at,
                capacity,
                location,
                virtual_link,
                description,
            );
            &&& attr_num_u64(views, "Event Ends At"@) == Ok::<u64, FoshoErrors>(
                bound_or_zero(event_ends_at),
            )
            &&& attr_num_u64(views, "Registration Starts At"@) == Ok::<u64, FoshoErrors>(
                bound_or_zero(registration_starts_at),
            )
            &&& attr_num_u64(views, "Registration Ends At"@) == Ok::<u64, FoshoErrors>(
                bound_or_zero(registration_ends_at),
            )
            &&& attr_num_u32(views, "Capacity"@) == match capacity {
                None => Ok::<u32, FoshoErrors>(0),
                Some(c) => if c <= u32::MAX {
                    Ok::<u32, FoshoErrors>(c as u32)
                } else {
                    Err::<u32, FoshoErrors>(FoshoErrors::NumericalOverflow)
                },
            }
        }),
{
    reveal_strlit("Event Ends At");
    reveal_strlit("Registration Starts At");
    reveal_strlit("Registration Ends At");
    reveal_strlit("Capacity");
    assert(("Event Ends At"@).len() == 13);
    assert(("Registration Starts At"@).len() == 22);
    assert(("Registration Ends At"@).len() == 20);
    assert(("Capacity"@).len() == 8);
    let p5 = opt_num_attr("Event Ends At"@, event_ends_at);
    let p6 = opt_num_attr("Registration Starts At"@, registration_starts_at);
    let p7 = opt_num_attr("Registration Ends At"@, registration_ends_at);
    let p8 = opt_num_attr("Capacity"@, capacity);
    lemma_collection_find_facet(
        event_type,
        organizer,
        commitment_fee,
        event_starts_at,
        event_ends_at,
        registration_starts_at,
        registration_ends_at,
        capacity,
        location,
        virtual_link,
        description,
        "Event Ends At"@,
    );
    lemma_collection_find_facet(
        event_type,
        organizer,
        commitment_fee,
        event_starts_at,
        event_ends_at,
        registration_starts_at,
        registration_ends_at,
        capacity,
        location,
        virtual_link,
        description,
        "Registration Starts At"@,
    );
    lemma_collection_find_facet(
        event_type,
        organizer,
        commitment_fee,
        event_starts_at,
        event_ends_at,
        registration_starts_at,
        registration_ends_at,
        capacity,
        location,
        virtual_link,
        description,
        "Registration Ends At"@,
    );
    lemma_collection_find_facet(
        event_type,
        organizer,
        commitment_fee,
        event_starts_at,
        event_ends_at,
        registration_starts_at,
        registration_ends_at,
        capacity,
        location,
        virtual_link,
        description,
        "Capacity"@,
    );
    // Event Ends At
    find_opt_num_present("Event Ends At"@, event_ends_at);
    find_opt_num_absent("Event Ends At"@, event_ends_at, "Registration Starts At"@);
    find_opt_num_absent("Event Ends At"@, event_ends_at, "Registration Ends At"@);
    find_opt_num_absent("Event Ends At"@, event_ends_at, "Capacity"@);
    find_opt_num_absent("Registration Starts At"@, registration_starts_at, "Event Ends At"@);
    find_opt_num_present("Registration Starts At"@, registration_starts_at);
    find_opt_num_absent("Registration Starts At"@, registration_starts_at, "Registration Ends At"@);
    find_opt_num_absent("Registration Starts At"@, registration_starts_at, "Capacity"@);
    find_opt_num_absent("Registration Ends At"@, registration_ends_at, "Event Ends At"@);
    find_opt_num_absent("Registration Ends At"@, registration_ends_at, "Registration Starts At"@);
    find_opt_num_present("Registration Ends At"@, registration_ends_at);
    find_opt_num_absent("Registration Ends At"@, registration_ends_at, "Capacity"@);
    find_opt_num_absent("Capacity"@, capacity, "Event Ends At"@);
    find_opt_num_absent("Capacity"@, capacity, "Registration Starts At"@);
    find_opt_num_absent("Capacity"@, capacity, "Registration Ends At"@);
    find_opt_num_present("Capacity"@, capacity);
    lemma_find_attr_concat(p5, p6, "Event Ends At"@);
    lemma_find_attr_concat(p5 + p6, p7, "Event Ends At"@);
    lemma_find_attr_concat(p5 + p6 + p7, p8, "Event Ends At"@);
    lemma_find_attr_concat(p5, p6, "Registration Starts At"@);
    lemma_find_attr_concat(p5 + p6, p7, "Registration Starts At"@);
    lemma_find_attr_concat(p5 + p6 + p7, p8, "Registration Starts At"@);
    lemma_find_attr_concat(p5, p6, "Registration Ends At"@);
    lemma_find_attr_concat(p5 + p6, p7, "Registration Ends At"@);
    lemma_find_attr_concat(p5 + p6 + p7, p8, "Registration Ends At"@);
    lemma_find_attr_concat(p5, p6, "Capacity"@);
    lemma_find_attr_concat(p5 + p6, p7, "Capacity"@);
    lemma_find_attr_concat(p5 + p6 + p7, p8, "Capacity"@);
    match event_ends_at {
        Some(v) => lemma_u64_roundtrip(v),
        None => {},
    }
    match registration_starts_at {
        Some(v) => lemma_u64_roundtrip(v),
        None => {},
    }
    match registration_ends_at {
        Some(v) => lemma_u64_roundtrip(v),
        None => {},
    }
    match capacity {
        Some(c) => {
            if c <= u32::MAX {
                lemma_u32_roundtrip(c);
            } else {
                lemma_digits_of_wf(c as nat);
                lemma_digits_of_val(c as nat);
            }
        },
        None => {},
    }
}

} // verus!
