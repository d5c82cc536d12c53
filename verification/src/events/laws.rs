//! What holds of events and of the tokens that tell them apart.

use crate::events::layout::{DeriveError, TokenLayout, TokenLayoutError, TokenPlan};
use crate::events::manager::{
    EpollEvent, EpollRequest, EventDescriptor, EventManager, EventSource,
    TriggeredEvent, Waited,
};
use crate::events::token::EventToken;
use vstd::arithmetic::power2::*;
use vstd::prelude::*;

verus! {

/// What an event says of its descriptor is what was reported of it: that it can be read from, or
/// written to, or that the other side is gone, be it altogether or for writing.
pub proof fn lemma_event_says_what_was_reported<T: EventToken>(
    triggered: TriggeredEvent<T>,
    event: EpollEvent,
)
    requires
        triggered.is_report_of(event),
    ensures
        triggered.spec_readable() <==> event.events & 0x1 != 0,
        triggered.spec_writable() <==> event.events & 0x4 != 0,
        triggered.spec_hungup() <==> event.events & 0x10 != 0 || event.events & 0x2000 != 0,
        triggered.spec_token() == T::token_of(event.data),
{
    let events = event.events;
    assert(((events & 0xf000_201f) & 0x1 == 0x1) == (events & 0x1 != 0)) by (bit_vector);
    assert(((events & 0xf000_201f) & 0x4 == 0x4) == (events & 0x4 != 0)) by (bit_vector);
    assert(((events & 0xf000_201f) & 0x10 == 0x10) == (events & 0x10 != 0)) by (bit_vector);
    assert(((events & 0xf000_201f) & 0x2000 == 0x2000) == (events & 0x2000 != 0)) by (bit_vector);
}

/// Every event that a wait reports is read, in the order in which they were reported, and no other. A
/// wait that was interrupted is repeated, and any other error is told.
pub proof fn lemma_waits_are_read<T: EventToken, E>(
    manager: EventManager<T>,
    waited: Result<usize, E>,
    interrupted: bool,
    reports: &[EpollEvent],
    outcome: Waited<Vec<TriggeredEvent<T>>, E>,
    i: int,
)
    requires
        call_ensures(
            EventManager::<T>::wait_timeout::<E>,
            (&manager, waited, interrupted, reports),
            outcome,
        ) || call_ensures(
            EventManager::<T>::wait::<E>,
            (&manager, waited, interrupted, reports),
            outcome,
        ),
    ensures
        waited matches Ok(count) ==> {
            &&& outcome matches Waited::Done(events)
            &&& events@.len() == count
            &&& 0 <= i < count ==> {
                &&& events@[i].spec_token() == T::token_of(reports@[i].data)
                &&& events@[i].spec_readable() <==> reports@[i].events & 0x1 != 0
                &&& events@[i].spec_writable() <==> reports@[i].events & 0x4 != 0
                &&& events@[i].spec_hungup() <==> reports@[i].events & 0x10 != 0
                    || reports@[i].events & 0x2000 != 0
            }
        },
        waited matches Err(e) ==> {
            &&& outcome is Again <==> interrupted
            &&& !interrupted ==> (outcome matches Waited::Failed(told) && told == e)
        },
{
    if let Waited::Done(events) = outcome {
        if waited is Ok && 0 <= i < events@.len() {
            lemma_event_says_what_was_reported(events@[i], reports@[i]);
        }
    }
}

/// A wait for one event reads the one that was reported.
pub proof fn lemma_one_wait_is_read<T: EventToken, E>(
    manager: EventManager<T>,
    waited: Result<usize, E>,
    interrupted: bool,
    report: EpollEvent,
    outcome: Waited<TriggeredEvent<T>, E>,
)
    requires
        call_ensures(
            EventManager::<T>::wait_one::<E>,
            (&manager, waited, interrupted, report),
            outcome,
        ),
    ensures
        waited is Ok ==> {
            &&& outcome matches Waited::Done(event)
            &&& event.spec_token() == T::token_of(report.data)
            &&& event.spec_readable() <==> report.events & 0x1 != 0
            &&& event.spec_writable() <==> report.events & 0x4 != 0
        },
        waited matches Err(e) ==> {
            &&& outcome is Again <==> interrupted
            &&& !interrupted ==> (outcome matches Waited::Failed(told) && told == e)
        },
{
    if let Waited::Done(event) = outcome {
        if waited is Ok {
            lemma_event_says_what_was_reported(event, report);
        }
    }
}

/// A wait without a limit never runs out, and one with a limit waits as long as was asked, or as long
/// as can be asked for.
pub proof fn lemma_how_long_to_wait<T: EventToken>(timeout: Option<u128>, millis: i32)
    requires
        call_ensures(EventManager::<T>::timeout_millis, (timeout,), millis),
    ensures
        timeout is None <==> millis < 0,
        timeout matches Some(asked) ==> millis <= asked && (millis == asked || millis == i32::MAX),
{
}

/// What a manager asks of an epoll instance: a descriptor that is added or modified is watched for
/// exactly the given events, and reported with the bits of exactly the given token. One that is
/// deleted is not watched at all. The others are watched as before.
pub proof fn lemma_manager_asks_what_it_was_asked<T: EventToken>(
    manager: EventManager<T>,
    interest: Map<i32, EpollEvent>,
    fd: i32,
    events: u32,
    token: T,
    added: EpollRequest,
    modified: EpollRequest,
    deleted: EpollRequest,
)
    requires
        call_ensures(EventManager::<T>::add_fd, (&manager, fd, events, token), added),
        call_ensures(EventManager::<T>::modify_fd, (&manager, fd, events, token), modified),
        call_ensures(EventManager::<T>::delete_fd, (&manager, fd), deleted),
    ensures
        !interest.dom().contains(fd) ==> added.applied(interest) == Some(
            interest.insert(fd, EpollEvent { events, data: token.raw_token() }),
        ),
        interest.dom().contains(fd) ==> modified.applied(interest) == Some(
            interest.insert(fd, EpollEvent { events, data: token.raw_token() }),
        ),
        interest.dom().contains(fd) ==> deleted.applied(interest) == Some(interest.remove(fd)),
        !interest.dom().contains(fd) ==> modified.applied(interest) is None && deleted.applied(
            interest,
        ) is None,
        deleted.event == (EpollEvent { events: 0, data: 0 }),
        interest.dom().contains(fd) ==> added.applied(interest) is None,
{
}

/// A deletion fails only if it failed for another reason than that the descriptor was not watched.
pub proof fn lemma_failed_deletions<T: EventToken, E>(
    deleted: Result<(), E>,
    not_found: bool,
    result: Result<(), E>,
)
    requires
        call_ensures(EventManager::<T>::fd_deleted::<E>, (deleted, not_found), result),
    ensures
        result is Err <==> deleted is Err && !not_found,
        result is Err ==> result == deleted,
{
}

/// An event descriptor that is added is watched for being readable, under the given token, and not
/// watched any more once it is removed.
pub proof fn lemma_event_descriptors_come_and_go(
    event: EventDescriptor,
    interest: Map<i32, EpollEvent>,
    token: u64,
)
    requires
        !interest.dom().contains(event.fd),
    ensures
        ({
            let watched = interest.insert(event.fd, EpollEvent { events: 0x1, data: token });
            &&& event.registration(token) is Some
            &&& event.registration(token)->0.applied(interest) == Some(watched)
            &&& event.removal() is Some
            &&& event.removal()->0.applied(watched) == Some(interest)
            &&& event.removal()->0.event == (EpollEvent { events: 0, data: 0 })
        }),
{
    let watched = interest.insert(event.fd, EpollEvent { events: 0x1, data: token });
    assert(watched.remove(event.fd) =~= interest);
}

/// A port that becomes ready is watched for the events it was made for, under the given token, and not
/// watched any more once it is removed. An input is watched for being readable, and an output for
/// being writable, once per change.
pub proof fn lemma_port_events_come_and_go(
    event: crate::console::port_io::PortEvent,
    interest: Map<i32, EpollEvent>,
    token: u64,
    fd: i32,
    input: crate::console::port_io::PortEvent,
    output: crate::console::port_io::PortEvent,
)
    requires
        !interest.dom().contains(event.spec_fd()),
        call_ensures(crate::console::port_io::PortEvent::input_ready, (fd,), input),
        call_ensures(crate::console::port_io::PortEvent::output_ready, (fd,), output),
    ensures
        ({
            let watched = interest.insert(
                event.spec_fd(),
                EpollEvent { events: event.spec_events(), data: token },
            );
            &&& event.registration(token) is Some
            &&& event.registration(token)->0.applied(interest) == Some(watched)
            &&& event.removal() is Some
            &&& event.removal()->0.applied(watched) == Some(interest)
        }),
        input.spec_fd() == fd,
        input.spec_events() == 0x8000_0001,
        output.spec_fd() == fd,
        output.spec_events() == 0x8000_0004,
{
    let watched = interest.insert(
        event.spec_fd(),
        EpollEvent { events: event.spec_events(), data: token },
    );
    assert(watched.remove(event.spec_fd()) =~= interest);
    assert(0x1u32 | 0x8000_0000u32 == 0x8000_0001u32) by (bit_vector);
    assert(0x4u32 | 0x8000_0000u32 == 0x8000_0004u32) by (bit_vector);
}

/// A ring with a kick descriptor is watched for kicks, under the given token, and not watched any more
/// once it is removed. There is nothing to watch as long as it has none.
pub proof fn lemma_kick_events_come_and_go<W>(
    event: crate::vhost_user::vring::VhostKickEvent<'_, W>,
    interest: Map<i32, EpollEvent>,
    token: u64,
)
    ensures
        match event.spec_vring()@.kick {
            None => event.registration(token) is None && event.removal() is None,
            Some(fd) => {
                let watched = interest.insert(fd, EpollEvent { events: 0x1, data: token });
                &&& event.registration(token) is Some
                &&& event.removal() is Some
                &&& !interest.dom().contains(fd) ==> {
                    &&& event.registration(token)->0.applied(interest) == Some(watched)
                    &&& event.removal()->0.applied(watched) == Some(interest)
                }
            },
        },
{
    if let Some(fd) = event.spec_vring()@.kick {
        if !interest.dom().contains(fd) {
            let watched = interest.insert(fd, EpollEvent { events: 0x1, data: token });
            assert(watched.remove(fd) =~= interest);
        }
    }
}

/// What a manager asks for a source of events is what the source asks for, with the bits of the token.
pub proof fn lemma_sources_are_asked<T: EventToken, S: EventSource>(
    manager: EventManager<T>,
    source: S,
    token: T,
    added: Option<EpollRequest>,
    removed: Option<EpollRequest>,
)
    requires
        call_ensures(EventManager::<T>::add::<S>, (&manager, &source, token), added),
        call_ensures(EventManager::<T>::remove::<S>, (&manager, &source), removed),
    ensures
        added == source.registration(token.raw_token()),
        removed == source.removal(),
{
}

/// Integers are their own tokens.
pub proof fn lemma_integers_are_their_own_tokens(a: u8, b: u16, c: u32, d: u64, e: usize)
    ensures
        a.raw_token() == a,
        b.raw_token() == b,
        c.raw_token() == c,
        d.raw_token() == d,
        e.raw_token() == e,
        ().raw_token() == 0,
{
}

/// The tokens of the workers are the positions of their variants.
pub proof fn lemma_tokens_of_the_workers()
    ensures
        crate::console::process_rx::WorkerToken::ProcessQueue.raw_token() == 0,
        crate::console::process_rx::WorkerToken::IO.raw_token() == 1,
        crate::console::process_rx::WorkerToken::Stop.raw_token() == 2,
        crate::console::process_tx::WorkerToken::Stop.raw_token() == 0,
        crate::console::process_tx::WorkerToken::ProcessQueue.raw_token() == 1,
        crate::console::process_tx::WorkerToken::IO.raw_token() == 2,
        crate::console::worker::WorkerToken::ControlRxq.raw_token() == 0,
        crate::console::worker::WorkerToken::ControlTxq.raw_token() == 1,
        crate::console::worker::WorkerToken::Quit.raw_token() == 2,
        crate::gpu::worker::WorkerToken::Quit.raw_token() == 0,
        crate::gpu::worker::WorkerToken::ControlQ.raw_token() == 1,
        crate::gpu::worker::WorkerToken::CursorQ.raw_token() == 2,
        crate::gpu::worker::WorkerToken::Poll.raw_token() == 3,
{
}

/// A variant is stored in the lowest bits of a token, of which there are as many as tell all variants
/// apart and no more, and the data in the bits above them. What was packed is unpacked again.
pub proof fn lemma_packed_variants_are_unpacked(
    layout: TokenLayout,
    index: usize,
    data: Option<u64>,
    raw: u64,
    unpacked: (usize, Option<u64>),
)
    requires
        layout.wf(),
        layout.carries(index as int, data),
        call_ensures(TokenLayout::pack, (&layout, index, data), raw),
        call_ensures(TokenLayout::unpack, (&layout, raw), unpacked),
    ensures
        unpacked.0 == index,
        unpacked.1 == data,
        raw as int % pow2(layout.spec_index_bits()) as int == index,
        data matches Some(d) ==> raw as int / pow2(layout.spec_index_bits()) as int == d,
        data is None ==> raw == index,
        layout.spec_fields().len() <= pow2(layout.spec_index_bits()),
        layout.spec_index_bits() > 0 ==> pow2((layout.spec_index_bits() - 1) as nat)
            < layout.spec_fields().len(),
{
    crate::events::layout::lemma_unpack_of_pack(layout, index as int, data, raw);
}

/// How many bits the index of a variant takes: none for one variant, one for two, two for three or
/// four, and so on.
pub proof fn lemma_bits_for_variants(num_variants: usize, bits: u32)
    requires
        num_variants <= 0x8000_0000_0000_0000,
        call_ensures(crate::events::layout::variant_bits, (num_variants,), bits),
    ensures
        num_variants <= pow2(bits as nat),
        bits > 0 ==> pow2((bits - 1) as nat) < num_variants,
        num_variants == 1 ==> bits == 0,
        num_variants == 2 ==> bits == 1,
        num_variants == 3 || num_variants == 4 ==> bits == 2,
{
    lemma2_to64();
    if num_variants == 1 {
        crate::events::layout::lemma_distinguishes_unique(bits as nat, 0, 1);
    }
    if num_variants == 2 {
        crate::events::layout::lemma_distinguishes_unique(bits as nat, 1, 2);
    }
    if num_variants == 3 || num_variants == 4 {
        crate::events::layout::lemma_distinguishes_unique(bits as nat, 2, num_variants as nat);
    }
}

/// A token of an enumeration uses the bits of the index and those of the widest data: all data fit,
/// and some data needs as many.
pub proof fn lemma_bits_that_are_used(layout: TokenLayout, bits: u32, i: int)
    requires
        layout.wf(),
        call_ensures(TokenLayout::used_bits, (&layout,), bits),
        0 <= i < layout.spec_fields().len(),
    ensures
        bits <= 64,
        layout.spec_fields()[i] matches Some(field) ==> field + layout.spec_index_bits() <= bits,
        bits == layout.spec_index_bits() || exists|j: int|
            0 <= j < layout.spec_fields().len() && (#[trigger] layout.spec_fields()[j]) is Some
                && layout.spec_fields()[j]->0 + layout.spec_index_bits() == bits,
{
    lemma_widest_is_reached(layout.spec_fields(), i);
}

proof fn lemma_widest_is_reached(fields: Seq<Option<u32>>, i: int)
    requires
        0 <= i < fields.len(),
    ensures
        fields[i] matches Some(field) ==> field <= crate::events::layout::widest_field(fields),
        crate::events::layout::widest_field(fields) == 0 || exists|j: int|
            0 <= j < fields.len() && (#[trigger] fields[j]) is Some && fields[j]->0
                == crate::events::layout::widest_field(fields),
    decreases fields.len(),
{
    reveal_with_fuel(crate::events::layout::widest_field, 2);
    let shorter = fields.drop_last();
    if shorter.len() > 0 {
        let k = if i < shorter.len() {
            i
        } else {
            0
        };
        lemma_widest_is_reached(shorter, k);
        if exists|j: int|
            0 <= j < shorter.len() && (#[trigger] shorter[j]) is Some && shorter[j]->0
                == crate::events::layout::widest_field(shorter) {
            let j = choose|j: int|
                0 <= j < shorter.len() && (#[trigger] shorter[j]) is Some && shorter[j]->0
                    == crate::events::layout::widest_field(shorter);
            assert(fields[j] == shorter[j]);
        }
    }
    assert(fields.last() == fields[fields.len() - 1]);
}

/// An enumeration can be packed exactly if the data of every variant fits into the bits that its number
/// of variants leaves. Otherwise the first variant whose data does not fit is told, with how much would
/// have fitted.
pub proof fn lemma_enumerations_that_can_be_packed(
    fields: Vec<Option<u32>>,
    bits: u32,
    result: Result<TokenLayout, TokenLayoutError>,
)
    requires
        fields@.len() <= 0x8000_0000_0000_0000,
        call_ensures(crate::events::layout::variant_bits, (fields.len(),), bits),
        call_ensures(TokenLayout::new, (fields,), result),
    ensures
        result is Ok <==> forall|i: int|
            0 <= i < fields@.len() ==> (#[trigger] fields@[i] matches Some(used) ==> used <= 64
                - bits),
        result matches Ok(layout) ==> layout.spec_fields() == fields@ && layout.spec_index_bits()
            == bits,
        result matches Err(TokenLayoutError::InnerTypeTooBig { variant, max_allowed_bits }) ==> {
            &&& max_allowed_bits == 64 - bits
            &&& variant < fields@.len()
            &&& fields@[variant as int] is Some
            &&& fields@[variant as int]->0 > 64 - bits
            &&& forall|i: int|
                0 <= i < variant ==> (#[trigger] fields@[i] matches Some(used) ==> used <= 64
                    - bits)
        },
{
    assert(crate::events::layout::distinguishes(bits as nat, fields@.len()));
    match result {
        Ok(layout) => {
            crate::events::layout::lemma_distinguishes_unique(
                bits as nat,
                layout.spec_index_bits(),
                fields@.len(),
            );
            assert forall|i: int| 0 <= i < fields@.len() implies (#[trigger] fields@[i] matches Some(
                used,
            ) ==> used <= 64 - bits) by {
                assert(!crate::events::layout::field_exceeds(
                    layout.spec_fields()[i],
                    64 - layout.spec_index_bits(),
                ));
            }
        },
        Err(TokenLayoutError::InnerTypeTooBig { variant, max_allowed_bits }) => {
            crate::events::layout::lemma_distinguishes_unique(
                bits as nat,
                (64 - max_allowed_bits) as nat,
                fields@.len(),
            );
            assert forall|i: int| 0 <= i < variant implies (#[trigger] fields@[i] matches Some(used)
                ==> used <= 64 - bits) by {
                assert(!crate::events::layout::field_exceeds(
                    fields@[i],
                    max_allowed_bits as int,
                ));
            }
        },
    }
}

/// Tokens can be derived exactly for enumerations whose variants have one field at most, and each
/// variant is planned with its position, with room for its data if it has a field.
pub proof fn lemma_types_that_have_tokens(
    is_enum: bool,
    field_counts: &[usize],
    result: Result<TokenPlan, DeriveError>,
)
    requires
        field_counts@.len() <= 0x8000_0000_0000_0000,
        call_ensures(crate::events::layout::event_token_inner, (is_enum, field_counts), result),
    ensures
        result is Ok <==> is_enum && forall|i: int|
            0 <= i < field_counts@.len() ==> #[trigger] field_counts@[i] <= 1,
        result matches Err(DeriveError::NotAnEnum) ==> !is_enum,
        result matches Err(DeriveError::TooManyFields { variant }) ==> {
            &&& is_enum
            &&& variant < field_counts@.len()
            &&& field_counts@[variant as int] > 1
            &&& forall|i: int| 0 <= i < variant ==> #[trigger] field_counts@[i] <= 1
        },
        result matches Ok(plan) ==> {
            &&& plan.arms@.len() == field_counts@.len()
            &&& forall|i: int|
                0 <= i < plan.arms@.len() ==> {
                    &&& (#[trigger] plan.arms@[i]).index == i
                    &&& plan.arms@[i].shift == if field_counts@[i] == 1 {
                        Some(plan.variant_bits)
                    } else {
                        None
                    }
                }
            &&& plan.variant_mask == pow2(plan.variant_bits as nat) - 1
            &&& plan.max_allowed_bits + plan.variant_bits == 64
        },
{
    if let Ok(plan) = result {
        assert forall|i: int| 0 <= i < plan.arms@.len() implies {
            &&& (#[trigger] plan.arms@[i]).index == i
            &&& plan.arms@[i].shift == if field_counts@[i] == 1 {
                Some(plan.variant_bits)
            } else {
                None
            }
        } by {
            assert(field_counts@[i] <= 1);
        }
    }
}

/// An integer of a certain width exists exactly if its value fits, and keeps its value, also as a
/// token.
pub proof fn lemma_integers_of_a_width<const N: usize>(
    value: u64,
    number: Option<crate::events::uint::UInt<N>>,
    of_number: u64,
)
    requires
        1 <= N <= 64,
        call_ensures(crate::events::uint::UInt::<N>::try_new, (value,), number),
        number matches Some(number) ==> call_ensures(
            crate::events::uint::UInt::<N>::value,
            (&number,),
            of_number,
        ),
    ensures
        number is Some <==> value < pow2(N as nat),
        number matches Some(number) ==> {
            &&& number.spec_value() == value
            &&& of_number == value
            &&& number.is_token()
            &&& number.raw_token() == value
        },
{
}

/// An event tells what it was made with.
pub proof fn lemma_events_tell<T: EventToken>(
    token: T,
    readable: bool,
    writable: bool,
    hungup: bool,
    event: TriggeredEvent<T>,
    of_token: &T,
    of_readable: bool,
    of_writable: bool,
    of_hungup: bool,
)
    requires
        call_ensures(TriggeredEvent::<T>::new, (token, readable, writable, hungup), event),
        call_ensures(TriggeredEvent::<T>::token, (&event,), of_token),
        call_ensures(TriggeredEvent::<T>::readable, (&event,), of_readable),
        call_ensures(TriggeredEvent::<T>::writable, (&event,), of_writable),
        call_ensures(TriggeredEvent::<T>::hungup, (&event,), of_hungup),
    ensures
        *of_token == token,
        of_readable == readable,
        of_writable == writable,
        of_hungup == hungup,
{
}

/// A token is read back from its bits.
pub proof fn lemma_tokens_are_read_back<T: EventToken>(token: T, raw: u64, back: T)
    requires
        token.is_token(),
        call_ensures(T::as_raw_token, (&token,), raw),
        call_ensures(T::from_raw_token, (raw,), back),
    ensures
        back == token,
        raw < pow2(T::USED_BITS as nat),
{
    token.lemma_round_trip();
}

/// Every integer is a token, and is read from the lowest bits.
pub proof fn lemma_integers_are_read(data: u64, a: u8, b: u16, c: u32, d: u64)
    ensures
        a.is_token() && b.is_token() && c.is_token() && d.is_token(),
        <u8 as EventToken>::is_raw_token(data),
        <u16 as EventToken>::is_raw_token(data),
        <u32 as EventToken>::is_raw_token(data),
        <u64 as EventToken>::is_raw_token(data),
        <u8 as EventToken>::token_of(data) == data % 0x100,
        <u16 as EventToken>::token_of(data) == data % 0x1_0000,
        <u32 as EventToken>::token_of(data) == data % 0x1_0000_0000,
        <u64 as EventToken>::token_of(data) == data,
{
    assert(data as u8 == data % 0x100) by (bit_vector);
    assert(data as u16 == data % 0x1_0000) by (bit_vector);
    assert(data as u32 == data % 0x1_0000_0000) by (bit_vector);
}

/// The tokens of the workers are read from the two lowest bits. Three of their four values are tokens of
/// the workers of a console, and all are tokens of the worker of a GPU.
pub proof fn lemma_workers_read_their_tokens(
    data: u64,
    input: crate::console::process_rx::WorkerToken,
    output: crate::console::process_tx::WorkerToken,
    control: crate::console::worker::WorkerToken,
    gpu: crate::gpu::worker::WorkerToken,
)
    ensures
        input.is_token() && output.is_token() && control.is_token() && gpu.is_token(),
        crate::console::process_rx::WorkerToken::is_raw_token(data) <==> data % 4 != 3,
        crate::console::process_tx::WorkerToken::is_raw_token(data) <==> data % 4 != 3,
        crate::console::worker::WorkerToken::is_raw_token(data) <==> data % 4 != 3,
        crate::gpu::worker::WorkerToken::is_raw_token(data),
        data % 4 != 3 ==> {
            &&& crate::console::process_rx::WorkerToken::token_of(data).raw_token() == data % 4
            &&& crate::console::process_tx::WorkerToken::token_of(data).raw_token() == data % 4
            &&& crate::console::worker::WorkerToken::token_of(data).raw_token() == data % 4
        },
        crate::gpu::worker::WorkerToken::token_of(data).raw_token() == data % 4,
{
}

/// A packed enumeration tells how many bits the index of a variant takes, and which they are.
pub proof fn lemma_layout_tells(layout: TokenLayout, bits: u32, mask: u64)
    requires
        layout.wf(),
        call_ensures(TokenLayout::index_bits, (&layout,), bits),
        call_ensures(TokenLayout::variant_mask, (&layout,), mask),
    ensures
        bits == layout.spec_index_bits(),
        mask == pow2(bits as nat) - 1,
{
}

} // verus!
